//! The registry of sensitive configuration files that are stored encrypted.
use vstd::prelude::*;
use crate::registries::{Registry, RegistryItem};
use crate::text::clone_opt_string;

verus! {

/// A configuration file that is backed up encrypted; `encrypt_filename`
/// says whether its name is hidden in the backup as well.
#[derive(Debug, Clone)]
pub struct EncryptedRegistryEntry {
    pub name: String,
    pub source_path: String,
    pub target_path: String,
    pub enabled: bool,
    pub description: Option<String>,
    pub encrypt_filename: bool,
}

impl RegistryItem for EncryptedRegistryEntry {
    open spec fn enabled_spec(&self) -> bool {
        self.enabled
    }

    open spec fn with_enabled_spec(&self, on: bool) -> Self {
        EncryptedRegistryEntry { enabled: on, ..*self }
    }

    proof fn lemma_with_enabled(&self, on: bool) {
    }

    open spec fn same_as(&self, other: &Self) -> bool {
        *self == *other
    }

    fn is_enabled(&self) -> (b: bool) {
        self.enabled
    }

    fn set_enabled(&mut self, on: bool) {
        self.enabled = on;
    }

    fn duplicate(&self) -> (r: Self) {
        EncryptedRegistryEntry {
            name: self.name.clone(),
            source_path: self.source_path.clone(),
            target_path: self.target_path.clone(),
            enabled: self.enabled,
            description: clone_opt_string(&self.description),
            encrypt_filename: self.encrypt_filename,
        }
    }
}

/// The registry of encrypted configuration files.
pub type EncryptedConfigsRegistry = Registry<EncryptedRegistryEntry>;

} // verus!
