//! The registry of plain configuration files that are backed up and restored.
use vstd::prelude::*;
use crate::registries::{Registry, RegistryItem};
use crate::text::clone_opt_string;

verus! {

/// A tracked configuration file: where it lives in the backup (`source_path`,
/// relative to a layer) and where it lives on this machine (`target_path`).
#[derive(Debug, Clone)]
pub struct RegistryEntry {
    pub name: String,
    pub source_path: String,
    pub target_path: String,
    pub enabled: bool,
    pub description: Option<String>,
}

impl RegistryItem for RegistryEntry {
    open spec fn enabled_spec(&self) -> bool {
        self.enabled
    }

    open spec fn with_enabled_spec(&self, on: bool) -> Self {
        RegistryEntry { enabled: on, ..*self }
    }

    proof fn lemma_with_enabled(&self, on: bool) {
    }

    open spec fn same_as(&self, other: &Self) -> bool {
        *self == *other
    }

    fn is_enabled(&self) -> (b: bool) {
        self.enabled
    }

    fn set_enabled(&mut self, on: bool) {
        self.enabled = on;
    }

    fn duplicate(&self) -> (r: Self) {
        RegistryEntry {
            name: self.name.clone(),
            source_path: self.source_path.clone(),
            target_path: self.target_path.clone(),
            enabled: self.enabled,
            description: clone_opt_string(&self.description),
        }
    }
}

/// The registry of configuration files.
pub type ConfigsRegistry = Registry<RegistryEntry>;

} // verus!
