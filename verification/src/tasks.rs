//! The tasks of mntn: what each would do, and the decisions each makes.
use vstd::prelude::*;

pub mod backup;
pub mod biometric_sudo;
pub mod clean;
pub mod configs_registry;
pub mod delete;
pub mod edits;
pub mod encrypted_configs_registry;
pub mod install;
pub mod link;
pub mod migrate;
pub mod package_registry;
pub mod paths;
pub mod profile;
pub mod purge;
pub mod registry;
pub mod restore;
pub mod setup;
pub mod sync;
pub mod task_core;
pub mod use_profile;
pub mod validate;

verus! {

} // verus!
