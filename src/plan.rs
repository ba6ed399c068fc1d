use vstd::prelude::*;
use crate::error::PresetError;
use crate::path::{joined, join_path};
use crate::registry::Registry;

verus! {

/// What the user asked for.
#[derive(Debug, Clone, PartialEq, Eq)]
pub enum Command {
    /// Copy a preset's contents into the working directory.
    Apply { name: String },
    /// Show the names of all presets.
    List,
    /// Make a new preset from the given files and directories.
    Add { name: String, files: Vec<String>, directories: Vec<String> },
    /// Delete a preset.
    Remove { name: String },
    /// Show the tree of a preset.
    Inspect { name: String },
}

/// One file to copy: from its path as given to its place in a preset.
#[derive(Debug, Clone, PartialEq, Eq)]
pub struct FileCopy {
    pub from: String,
    pub to: String,
}

/// The file-system work that carries out a command.
#[derive(Debug, Clone, PartialEq, Eq)]
pub enum Action {
    /// Copy everything inside `source` into the working directory,
    /// overwriting files of the same name.
    CopyContents { source: String },
    /// Print these lines.
    Print { lines: Vec<String> },
    /// Create the directory `dir`, copy each file, then copy each directory
    /// whole into `dir`.
    CreatePreset { dir: String, files: Vec<FileCopy>, directories: Vec<String> },
    /// Delete `dir` and all that it holds.
    RemoveDir { dir: String },
    /// Print `header`, then the tree of `dir`.
    PrintTree { header: String, dir: String },
}

/// The text of each string, in order.
pub open spec fn views(v: Seq<String>) -> Seq<Seq<char>> {
    v.map_values(|s: String| s@)
}

/// The output of the list command for these preset names.
pub open spec fn list_lines(names: Seq<Seq<char>>) -> Seq<Seq<char>> {
    seq!["Available presets: "@] + names.map_values(|n: Seq<char>| "\t"@ + n)
}

/// The heading printed above a preset's tree.
pub open spec fn inspect_header(name: Seq<char>) -> Seq<char> {
    "Contents of "@ + name + ": "@
}

/// The copies that put each of `files` into the preset directory `dir`,
/// under its path as given.
pub open spec fn copies_into(copies: Seq<FileCopy>, dir: Seq<char>, files: Seq<String>) -> bool {
    &&& copies.len() == files.len()
    &&& forall|k: int|
        0 <= k < files.len() ==> {
            &&& (#[trigger] copies[k]).from@ == files[k]@
            &&& copies[k].to@ == joined(dir, files[k]@)
        }
}

fn list_output(registry: &Registry) -> (r: Vec<String>)
    ensures
        views(r@) == list_lines(registry@),
{
    let names = registry.names();
    let mut r: Vec<String> = Vec::new();
    r.push(String::from_str("Available presets: "));
    let mut i: usize = 0;
    while i < names.len()
        invariant
            0 <= i <= names@.len(),
            views(names@) == registry@,
            views(r@) == list_lines(registry@.take(i as int)),
        decreases names@.len() - i,
    {
        let ghost before = views(r@);
        let mut line = String::from_str("\t");
        line.append(names[i].as_str());
        r.push(line);
        assert(registry@[i as int] == names@[i as int]@);
        let ghost prefix = registry@.take(i as int);
        assert(registry@.take(i as int + 1) =~= prefix.push(registry@[i as int]));
        assert(views(r@) =~= before.push(line@));
        assert(prefix.push(registry@[i as int]).map_values(|n: Seq<char>| "\t"@ + n) =~= prefix.map_values(
            |n: Seq<char>| "\t"@ + n,
        ).push("\t"@ + registry@[i as int]));
        assert(views(r@) =~= list_lines(registry@.take(i as int + 1)));
        i = i + 1;
    }
    assert(registry@.take(registry@.len() as int) =~= registry@);
    r
}

fn file_copies(dir: &String, files: &Vec<String>) -> (r: Vec<FileCopy>)
    ensures
        copies_into(r@, dir@, files@),
{
    let mut r: Vec<FileCopy> = Vec::new();
    let mut i: usize = 0;
    while i < files.len()
        invariant
            0 <= i <= files@.len(),
            r@.len() == i,
            forall|k: int|
                0 <= k < i ==> {
                    &&& (#[trigger] r@[k]).from@ == files@[k]@
                    &&& r@[k].to@ == joined(dir@, files@[k]@)
                },
        decreases files@.len() - i,
    {
        let from = files[i].clone();
        let to = join_path(dir.as_str(), files[i].as_str());
        r.push(FileCopy { from, to });
        i = i + 1;
    }
    r
}

fn strings_copy(v: &Vec<String>) -> (r: Vec<String>)
    ensures
        views(r@) == views(v@),
{
    let mut r: Vec<String> = Vec::new();
    let mut i: usize = 0;
    while i < v.len()
        invariant
            0 <= i <= v@.len(),
            views(r@) == views(v@.take(i as int)),
        decreases v@.len() - i,
    {
        let ghost before = views(r@);
        r.push(v[i].clone());
        assert(views(r@) =~= before.push(v@[i as int]@));
        assert(v@.take(i as int + 1) =~= v@.take(i as int).push(v@[i as int]));
        assert(views(r@) =~= views(v@.take(i as int + 1)));
        i = i + 1;
    }
    assert(v@.take(v@.len() as int) =~= v@);
    r
}

/// Decides what a command does to the store at `store`, whose presets are
/// those of `registry`, and updates `registry` to the presets that the store
/// holds once that work is done. A refused command leaves `registry` as it
/// was and asks for no work.
pub fn plan(command: &Command, registry: &mut Registry, store: &str) -> (r: Result<Action, PresetError>)
    requires
        old(registry).wf(),
    ensures
        final(registry).wf(),
        r is Err ==> final(registry)@ == old(registry)@,
        match *command {
            Command::Apply { name } => {
                &&& final(registry)@ == old(registry)@
                &&& if old(registry)@.contains(name@) {
                    r matches Ok(Action::CopyContents { source }) && source@ == joined(store@, name@)
                } else {
                    r matches Err(PresetError::PresetNotFound { name: n }) && n@ == name@
                }
            },
            Command::List => {
                &&& final(registry)@ == old(registry)@
                &&& r matches Ok(Action::Print { lines }) && views(lines@) == list_lines(old(registry)@)
            },
            Command::Add { name, files, directories } => {
                if files.len() == 0 && directories.len() == 0 {
                    r matches Err(PresetError::NoPaths)
                } else if old(registry)@.contains(name@) {
                    r matches Err(PresetError::PresetExists { name: n }) && n@ == name@
                } else {
                    &&& final(registry)@ == old(registry)@.push(name@)
                    &&& r matches Ok(Action::CreatePreset { dir, files: copies, directories: dirs })
                    &&& dir@ == joined(store@, name@)
                    &&& copies_into(copies@, dir@, files@)
                    &&& views(dirs@) == views(directories@)
                }
            },
            Command::Remove { name } => {
                if old(registry)@.contains(name@) {
                    &&& r matches Ok(Action::RemoveDir { dir }) && dir@ == joined(store@, name@)
                    &&& !final(registry)@.contains(name@)
                    &&& exists|k: int|
                        0 <= k < old(registry)@.len() && old(registry)@[k] == name@ && final(registry)@
                            == old(registry)@.remove(k)
                } else {
                    r matches Err(PresetError::PresetNotFound { name: n }) && n@ == name@
                }
            },
            Command::Inspect { name } => {
                &&& final(registry)@ == old(registry)@
                &&& if old(registry)@.contains(name@) {
                    &&& r matches Ok(Action::PrintTree { header, dir })
                    &&& header@ == inspect_header(name@)
                    &&& dir@ == joined(store@, name@)
                } else {
                    r matches Err(PresetError::PresetNotFound { name: n }) && n@ == name@
                }
            },
        },
{
    match command {
        Command::Apply { name } => {
            if registry.contains(name) {
                Ok(Action::CopyContents { source: join_path(store, name.as_str()) })
            } else {
                Err(PresetError::PresetNotFound { name: name.clone() })
            }
        },
        Command::List => Ok(Action::Print { lines: list_output(registry) }),
        Command::Add { name, files, directories } => {
            if files.len() == 0 && directories.len() == 0 {
                return Err(PresetError::NoPaths);
            }
            match registry.add(name) {
                Err(e) => Err(e),
                Ok(()) => {
                    let dir = join_path(store, name.as_str());
                    let copies = file_copies(&dir, files);
                    Ok(Action::CreatePreset { dir, files: copies, directories: strings_copy(directories) })
                },
            }
        },
        Command::Remove { name } => {
            match registry.remove(name) {
                Err(e) => Err(e),
                Ok(()) => Ok(Action::RemoveDir { dir: join_path(store, name.as_str()) }),
            }
        },
        Command::Inspect { name } => {
            if registry.contains(name) {
                let mut header = String::from_str("Contents of ");
                header.append(name.as_str());
                header.append(": ");
                Ok(Action::PrintTree { header, dir: join_path(store, name.as_str()) })
            } else {
                Err(PresetError::PresetNotFound { name: name.clone() })
            }
        },
    }
}

} // verus!
