//! The registry of linked configuration files, each filed under a category.
use vstd::prelude::*;
use crate::registries::{Registry, RegistryItem};
use crate::text::clone_opt_string;

verus! {

/// A linked configuration file: where it lives in the repository
/// (`source_path`), where the link goes (`target_path`), and the category it
/// is listed under.
#[derive(Debug, Clone)]
pub struct RegistryEntry {
    pub name: String,
    pub source_path: String,
    pub target_path: String,
    pub category: String,
    pub enabled: bool,
    pub description: Option<String>,
}

impl RegistryItem for RegistryEntry {
    open spec fn enabled_spec(&self) -> bool {
        self.enabled
    }

    open spec fn with_enabled_spec(&self, on: bool) -> Self {
        RegistryEntry { enabled: on, ..*self }
    }

    proof fn lemma_with_enabled(&self, on: bool) {
    }

    open spec fn same_as(&self, other: &Self) -> bool {
        *self == *other
    }

    fn is_enabled(&self) -> (b: bool) {
        self.enabled
    }

    fn set_enabled(&mut self, on: bool) {
        self.enabled = on;
    }

    fn duplicate(&self) -> (r: Self) {
        RegistryEntry {
            name: self.name.clone(),
            source_path: self.source_path.clone(),
            target_path: self.target_path.clone(),
            category: self.category.clone(),
            enabled: self.enabled,
            description: clone_opt_string(&self.description),
        }
    }
}

/// The registry of linked configuration files.
pub type LinkRegistry = Registry<RegistryEntry>;

} // verus!
