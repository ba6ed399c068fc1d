use vstd::prelude::*;

verus! {

/// Why an operation on the preset store was refused.
#[derive(Debug, Clone, PartialEq, Eq)]
pub enum PresetError {
    /// No home directory is known.
    HomeNotFound,
    /// The home directory has no `.config` directory.
    ConfigNotFound,
    /// No preset of this name is in the store.
    PresetNotFound { name: String },
    /// A preset of this name is already in the store.
    PresetExists { name: String },
    /// A new preset was given neither files nor directories.
    NoPaths,
}

/// The text shown to the user for an error.
pub open spec fn message_of(e: PresetError) -> Seq<char> {
    match e {
        PresetError::HomeNotFound => "Home directory not found"@,
        PresetError::ConfigNotFound => "$HOME/.config directory not found"@,
        PresetError::PresetNotFound { name } => "Could not find preset with name "@ + name@,
        PresetError::PresetExists { name } => "Preset with name "@ + name@ + " already exists"@,
        PresetError::NoPaths => "A preset needs at least one file or directory"@,
    }
}

impl PresetError {
    /// The text shown to the user for this error.
    pub fn message(&self) -> (r: String)
        ensures
            r@ == message_of(*self),
    {
        match self {
            PresetError::HomeNotFound => String::from_str("Home directory not found"),
            PresetError::ConfigNotFound => String::from_str("$HOME/.config directory not found"),
            PresetError::PresetNotFound { name } => {
                let mut r = String::from_str("Could not find preset with name ");
                r.append(name.as_str());
                r
            },
            PresetError::PresetExists { name } => {
                let mut r = String::from_str("Preset with name ");
                r.append(name.as_str());
                r.append(" already exists");
                r
            },
            PresetError::NoPaths => String::from_str("A preset needs at least one file or directory"),
        }
    }
}

} // verus!
