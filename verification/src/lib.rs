//! Core of a mod manager for a game whose assets are loaded from a single
//! directory of compiled `.pak` files.
//!
//! The crate discovers mod packages in a source directory, classifies each
//! entry into one of three mod shapes, parses `mod.json` manifests, plans the
//! in-place expansion of compressed archives, and plans deployment of the
//! enabled mods into the game's asset-load directory.
//!
//! All path handling inside the crate works on plain strings joined with `/`;
//! the thin driver around the crate translates between these strings and real
//! filesystem paths, performs the directory listings and file reads that the
//! planners consume, and executes the action lists they produce.

pub mod paths;
pub mod json;
pub mod errors;
pub mod loose_pak;
pub mod modification;
pub mod multi_pak;
pub mod mod_types;
pub mod archive;
pub mod deploy;
pub mod manager;

pub use loose_pak::LoosePak;
pub use modification::Modification;
pub use multi_pak::{MultiPak, Pak};
pub use mod_types::ModType;
pub use manager::ModManager;
