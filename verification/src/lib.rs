//! Verified core of the `mntn` dotfiles manager: the registries of tracked
//! configuration files, profile layers, path layout, validation reports,
//! task planning and the text formats that the tool reads and writes.

pub mod cli;
pub mod path;
pub mod profile;
pub mod registries;
pub mod registry;
pub mod tasks;
pub mod text;
pub mod utils;
