//! Battalion keeps codebases apart as repositories and brings them together
//! in workspaces. This crate is its core: resource names and their place on
//! disk, the versioned `batl.toml` records, the search for the nearest
//! configuration, and the roots under which resources live.

pub mod commands;
pub mod document;
pub mod error;
pub mod keyed;
pub mod locate;
pub mod path;
pub mod resource;
pub mod system;
pub mod text;
pub mod version;
