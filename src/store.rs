use vstd::prelude::*;
use crate::error::PresetError;
use crate::path::{joined, join_path};

verus! {

/// Where the preset store lives: `<home>/.config/cargo_preset`.
pub struct StoreLocation {
    /// `<home>/.config`, which must exist already.
    pub config_dir: String,
    /// `<home>/.config/cargo_preset`, made on first use.
    pub store_dir: String,
}

/// What must happen to the store directory before it is used.
#[derive(Debug, Clone, Copy, PartialEq, Eq, Structural)]
pub enum StoreSetup {
    /// It exists already.
    Ready,
    /// It has to be created.
    Create,
}

/// Finds the store below the given home directory; fails without one.
pub fn locate_store(home: Option<String>) -> (r: Result<StoreLocation, PresetError>)
    ensures
        home is None ==> r matches Err(PresetError::HomeNotFound),
        home matches Some(h) ==> {
            &&& r matches Ok(loc)
            &&& loc.config_dir@ == joined(h@, ".config"@)
            &&& loc.store_dir@ == joined(joined(h@, ".config"@), "cargo_preset"@)
        },
{
    match home {
        None => Err(PresetError::HomeNotFound),
        Some(h) => {
            let config_dir = join_path(h.as_str(), ".config");
            let store_dir = join_path(config_dir.as_str(), "cargo_preset");
            Ok(StoreLocation { config_dir, store_dir })
        },
    }
}

/// Decides how to make the store usable, given which of its directories
/// exist: `.config` is never created, the store directory is.
pub fn prepare_store(config_exists: bool, store_exists: bool) -> (r: Result<StoreSetup, PresetError>)
    ensures
        !config_exists ==> r matches Err(PresetError::ConfigNotFound),
        config_exists && store_exists ==> r == Ok::<StoreSetup, PresetError>(StoreSetup::Ready),
        config_exists && !store_exists ==> r == Ok::<StoreSetup, PresetError>(StoreSetup::Create),
{
    if !config_exists {
        Err(PresetError::ConfigNotFound)
    } else if store_exists {
        Ok(StoreSetup::Ready)
    } else {
        Ok(StoreSetup::Create)
    }
}

} // verus!
