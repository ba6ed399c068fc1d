//! A preset manager: named bundles of files kept in a store directory,
//! one subdirectory per preset, that can be copied into a working directory.
//!
//! The library decides; the program around it touches the file system.
//! It holds the paths of the store, the set of preset names, what each
//! command asks of the file system, and how a preset's tree is printed.

pub mod error;
pub mod path;
pub mod plan;
pub mod registry;
pub mod store;
pub mod tree;

pub use error::PresetError;
pub use path::join_path;
pub use plan::{Action, Command, FileCopy, plan};
pub use registry::Registry;
pub use store::{StoreLocation, StoreSetup, locate_store, prepare_store};
pub use tree::{Node, render_tree};
