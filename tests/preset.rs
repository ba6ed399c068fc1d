use cargo_preset::{
    join_path, locate_store, plan, prepare_store, render_tree, Action, Command, FileCopy, Node,
    PresetError, Registry, StoreSetup,
};

fn s(x: &str) -> String {
    x.to_string()
}

fn names(xs: &[&str]) -> Vec<String> {
    xs.iter().map(|x| x.to_string()).collect()
}

fn file(name: &str) -> Node {
    Node::File { name: s(name) }
}

fn dir(name: &str, children: Vec<Node>) -> Node {
    Node::Dir { name: s(name), children }
}

fn list(reg: &mut Registry) -> Vec<String> {
    match plan(&Command::List, reg, "/store") {
        Ok(Action::Print { lines }) => lines,
        other => panic!("unexpected {:?}", other),
    }
}

#[test]
fn join_adds_one_separator() {
    assert_eq!(join_path("/root", ".config"), "/root/.config");
    assert_eq!(join_path("/root/", ".config"), "/root/.config");
    assert_eq!(join_path("", "a.txt"), "a.txt");
    assert_eq!(join_path("/store", "sub/a.txt"), "/store/sub/a.txt");
}

#[test]
fn store_lies_under_home_config() {
    let loc = locate_store(Some(s("/home/u"))).unwrap();
    assert_eq!(loc.config_dir, "/home/u/.config");
    assert_eq!(loc.store_dir, "/home/u/.config/cargo_preset");
}

#[test]
fn missing_home_is_refused() {
    assert!(matches!(locate_store(None), Err(PresetError::HomeNotFound)));
}

#[test]
fn store_setup_depends_on_what_exists() {
    assert_eq!(prepare_store(false, false), Err(PresetError::ConfigNotFound));
    assert_eq!(prepare_store(false, true), Err(PresetError::ConfigNotFound));
    assert_eq!(prepare_store(true, true), Ok(StoreSetup::Ready));
    assert_eq!(prepare_store(true, false), Ok(StoreSetup::Create));
}

#[test]
fn registry_keeps_first_of_repeated_names() {
    let reg = Registry::from_names(names(&["b", "a", "b", "c", "a"]));
    assert_eq!(reg.names(), names(&["b", "a", "c"]));
    assert!(reg.contains(&s("c")));
    assert!(!reg.contains(&s("d")));
}

#[test]
fn registry_add_and_remove() {
    let mut reg = Registry::from_names(names(&["x"]));
    assert_eq!(reg.add(&s("y")), Ok(()));
    assert_eq!(reg.names(), names(&["x", "y"]));
    assert_eq!(reg.add(&s("x")), Err(PresetError::PresetExists { name: s("x") }));
    assert_eq!(reg.names(), names(&["x", "y"]));
    assert_eq!(reg.remove(&s("x")), Ok(()));
    assert_eq!(reg.names(), names(&["y"]));
    assert_eq!(reg.remove(&s("x")), Err(PresetError::PresetNotFound { name: s("x") }));
    assert_eq!(reg.names(), names(&["y"]));
}

#[test]
fn added_name_is_listed_exactly_once() {
    let mut reg = Registry::from_names(names(&["one", "two"]));
    let cmd = Command::Add { name: s("three"), files: names(&["f"]), directories: vec![] };
    assert!(plan(&cmd, &mut reg, "/store").is_ok());
    let lines = list(&mut reg);
    assert_eq!(lines.iter().filter(|l| l.as_str() == "\tthree").count(), 1);
    assert_eq!(lines, names(&["Available presets: ", "\tone", "\ttwo", "\tthree"]));
}

#[test]
fn adding_existing_name_fails_and_changes_nothing() {
    let mut reg = Registry::from_names(names(&["demo"]));
    let cmd = Command::Add { name: s("demo"), files: names(&["a.txt"]), directories: vec![] };
    assert_eq!(plan(&cmd, &mut reg, "/store"), Err(PresetError::PresetExists { name: s("demo") }));
    assert_eq!(reg.names(), names(&["demo"]));
}

#[test]
fn adding_without_paths_fails() {
    let mut reg = Registry::from_names(vec![]);
    let cmd = Command::Add { name: s("p"), files: vec![], directories: vec![] };
    assert_eq!(plan(&cmd, &mut reg, "/store"), Err(PresetError::NoPaths));
    assert!(reg.names().is_empty());
}

#[test]
fn adding_with_directories_only() {
    let mut reg = Registry::from_names(vec![]);
    let cmd = Command::Add { name: s("p"), files: vec![], directories: names(&["src", "docs"]) };
    assert_eq!(
        plan(&cmd, &mut reg, "/store"),
        Ok(Action::CreatePreset { dir: s("/store/p"), files: vec![], directories: names(&["src", "docs"]) })
    );
}

#[test]
fn removed_name_is_not_listed() {
    let mut reg = Registry::from_names(names(&["a", "b", "c"]));
    assert_eq!(
        plan(&Command::Remove { name: s("b") }, &mut reg, "/store"),
        Ok(Action::RemoveDir { dir: s("/store/b") })
    );
    assert_eq!(list(&mut reg), names(&["Available presets: ", "\ta", "\tc"]));
    assert_eq!(
        plan(&Command::Remove { name: s("b") }, &mut reg, "/store"),
        Err(PresetError::PresetNotFound { name: s("b") })
    );
}

#[test]
fn apply_and_inspect_need_an_existing_preset() {
    let mut reg = Registry::from_names(names(&["a"]));
    assert_eq!(
        plan(&Command::Apply { name: s("z") }, &mut reg, "/store"),
        Err(PresetError::PresetNotFound { name: s("z") })
    );
    assert_eq!(
        plan(&Command::Inspect { name: s("z") }, &mut reg, "/store"),
        Err(PresetError::PresetNotFound { name: s("z") })
    );
    assert_eq!(
        plan(&Command::Apply { name: s("a") }, &mut reg, "/store/"),
        Ok(Action::CopyContents { source: s("/store/a") })
    );
}

#[test]
fn tree_is_listed_depth_first() {
    let tree = vec![
        file("Cargo.toml"),
        dir("src", vec![file("main.rs"), dir("bin", vec![file("x.rs"), dir("deep", vec![file("y.rs")])])]),
        dir("empty", vec![]),
        file("README.md"),
    ];
    assert_eq!(
        render_tree(&tree),
        names(&[
            "- Cargo.toml",
            "- src/",
            "- main.rs",
            "- bin/",
            "-- x.rs",
            "-- deep/",
            "--- y.rs",
            "- empty/",
            "- README.md",
        ])
    );
}

#[test]
fn empty_tree_has_no_lines() {
    assert!(render_tree(&vec![]).is_empty());
}

#[test]
fn error_messages() {
    assert_eq!(PresetError::HomeNotFound.message(), "Home directory not found");
    assert_eq!(PresetError::ConfigNotFound.message(), "$HOME/.config directory not found");
    assert_eq!(
        PresetError::PresetNotFound { name: s("x") }.message(),
        "Could not find preset with name x"
    );
    assert_eq!(PresetError::PresetExists { name: s("x") }.message(), "Preset with name x already exists");
    assert_eq!(PresetError::NoPaths.message(), "A preset needs at least one file or directory");
}

#[test]
fn demo_scenario() {
    let store = "/home/u/.config/cargo_preset";
    let mut reg = Registry::from_names(vec![]);
    let add = Command::Add { name: s("demo"), files: names(&["a.txt"]), directories: vec![] };
    assert_eq!(
        plan(&add, &mut reg, store),
        Ok(Action::CreatePreset {
            dir: s("/home/u/.config/cargo_preset/demo"),
            files: vec![FileCopy { from: s("a.txt"), to: s("/home/u/.config/cargo_preset/demo/a.txt") }],
            directories: vec![],
        })
    );
    assert_eq!(list(&mut reg), names(&["Available presets: ", "\tdemo"]));
    assert_eq!(
        plan(&Command::Inspect { name: s("demo") }, &mut reg, store),
        Ok(Action::PrintTree { header: s("Contents of demo: "), dir: s("/home/u/.config/cargo_preset/demo") })
    );
    assert_eq!(render_tree(&vec![file("a.txt")]), names(&["- a.txt"]));
    assert_eq!(
        plan(&Command::Apply { name: s("demo") }, &mut reg, store),
        Ok(Action::CopyContents { source: s("/home/u/.config/cargo_preset/demo") })
    );
    assert_eq!(
        plan(&Command::Remove { name: s("demo") }, &mut reg, store),
        Ok(Action::RemoveDir { dir: s("/home/u/.config/cargo_preset/demo") })
    );
    assert_eq!(list(&mut reg), names(&["Available presets: "]));
}
