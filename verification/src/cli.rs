//! The command-line arguments of each command, as plain values.
use vstd::prelude::*;
use crate::profile::ActiveProfile;
use crate::text::clone_opt_string;

verus! {

/// Which profile, machine and environment layers to use.
#[derive(Debug, Clone, Default)]
pub struct ProfileArgs {
    pub profile: Option<String>,
    pub machine_id: Option<String>,
    pub environment: Option<String>,
}

impl ProfileArgs {
    /// The profile these arguments select: the named profile, else the
    /// active one (`active`, as recorded in `~/.mntn/.active-profile`), and
    /// the machine and environment layers when given.
    pub fn resolve(&self, active: Option<String>) -> (r: ActiveProfile)
        ensures
            r.name == match self.profile {
                Some(p) => Some(p),
                None => active,
            },
            r.machine_id@ == match self.machine_id {
                Some(m) => m@,
                None => Seq::<char>::empty(),
            },
            r.environment@ == match self.environment {
                Some(e) => e@,
                None => Seq::<char>::empty(),
            },
    {
        let name = match &self.profile {
            Some(p) => Some(p.clone()),
            None => active,
        };
        let machine_id = match &self.machine_id {
            Some(m) => m.clone(),
            None => String::new(),
        };
        let environment = match &self.environment {
            Some(e) => e.clone(),
            None => String::new(),
        };
        ActiveProfile { name, machine_id, environment }
    }
}

/// `mntn clean`.
#[derive(Debug, Clone)]
pub struct CleanArgs {
    pub system: bool,
    pub dry_run: bool,
}

/// `mntn purge`.
#[derive(Debug, Clone)]
pub struct PurgeArgs {
    pub system: bool,
    pub dry_run: bool,
}

/// `mntn link`.
#[derive(Debug, Clone)]
pub struct LinkArgs {
    pub dry_run: bool,
    pub profile_args: ProfileArgs,
}

/// `mntn restore`.
#[derive(Debug, Clone)]
pub struct RestoreArgs {
    pub dry_run: bool,
    pub profile_args: ProfileArgs,
}

/// `mntn backup`.
#[derive(Debug, Clone)]
pub struct BackupArgs {
    pub dry_run: bool,
    pub skip_encrypted: bool,
    pub profile_args: ProfileArgs,
}

/// `mntn validate`.
#[derive(Debug, Clone)]
pub struct ValidateArgs {
    pub dry_run: bool,
    pub profile_args: ProfileArgs,
}

/// The layer `mntn migrate` moves legacy files to.
#[derive(Debug, Clone, Copy, PartialEq, Eq, Structural)]
pub enum MigrateLayer {
    Common,
    Machine,
    Environment,
}

/// `mntn migrate`.
#[derive(Debug, Clone)]
pub struct MigrateArgs {
    pub dry_run: bool,
    pub profile_args: ProfileArgs,
    pub layer: MigrateLayer,
}

/// `mntn sync`.
#[derive(Debug, Clone)]
pub struct SyncArgs {
    pub init: bool,
    pub remote_url: Option<String>,
    pub pull: bool,
    pub push: bool,
    pub sync: bool,
    pub message: Option<String>,
    pub auto_link: bool,
}

/// `mntn use`.
#[derive(Debug, Clone)]
pub struct UseArgs {
    pub profile: String,
}

/// `mntn install`.
#[derive(Debug, Clone)]
pub struct InstallArgs {
    pub with_clean: bool,
}

/// `mntn delete`.
#[derive(Debug, Clone)]
pub struct DeleteArgs {
    pub dry_run: bool,
    pub permanent: bool,
}

/// What `mntn registry` does.
#[derive(Debug, Clone)]
pub enum RegistryActions {
    List { category: Option<String>, enabled_only: bool },
    Add { id: String, name: String, source: String, target: String, category: String, description: Option<String> },
    Remove { id: String },
    Toggle { id: String, enable: bool },
}

/// `mntn registry`.
#[derive(Debug, Clone)]
pub struct RegistryArgs {
    pub action: RegistryActions,
}

/// What `mntn registry-configs` does.
#[derive(Debug, Clone)]
pub enum ConfigsRegistryActions {
    List { enabled_only: bool },
    Add { id: String, name: String, source: String, target: String, description: Option<String> },
    Remove { id: String },
    Toggle { id: String, enable: bool },
}

/// `mntn registry-configs`.
#[derive(Debug, Clone)]
pub struct ConfigsRegistryArgs {
    pub action: ConfigsRegistryActions,
    pub dry_run: bool,
}

/// What `mntn registry-encrypted` does.
#[derive(Debug, Clone)]
pub enum EncryptedRegistryActions {
    List { enabled_only: bool },
    Add {
        id: String,
        name: String,
        source: String,
        target: String,
        description: Option<String>,
        encrypt_filename: bool,
    },
    Remove { id: String },
    Toggle { id: String, enable: bool },
}

/// `mntn registry-encrypted`.
#[derive(Debug, Clone)]
pub struct EncryptedRegistryArgs {
    pub action: EncryptedRegistryActions,
    pub dry_run: bool,
}

/// What `mntn registry-packages` does.
#[derive(Debug, Clone)]
pub enum PackageRegistryActions {
    List { enabled_only: bool, platform_only: bool },
    Add {
        id: String,
        name: String,
        command: String,
        args: String,
        output_file: String,
        description: Option<String>,
        platforms: Option<String>,
    },
    Remove { id: String },
    Toggle { id: String, enable: bool },
}

/// `mntn registry-packages`.
#[derive(Debug, Clone)]
pub struct PackageRegistryArgs {
    pub action: PackageRegistryActions,
    pub dry_run: bool,
}

/// What `mntn profile` does.
#[derive(Debug, Clone)]
pub enum ProfileActions {
    List,
    Create { name: String, description: Option<String> },
    Delete { name: String },
}

/// `mntn profile`.
#[derive(Debug, Clone)]
pub struct ProfileCommandArgs {
    pub action: Option<ProfileActions>,
}

/// The profile selected by the arguments of a command, given the active
/// profile's name.
pub open spec fn selected_profile(args: ProfileArgs, active: Option<String>, r: ActiveProfile) -> bool {
    &&& r.name == match args.profile {
        Some(p) => Some(p),
        None => active,
    }
    &&& r.machine_id@ == match args.machine_id {
        Some(m) => m@,
        None => Seq::<char>::empty(),
    }
    &&& r.environment@ == match args.environment {
        Some(e) => e@,
        None => Seq::<char>::empty(),
    }
}

impl BackupArgs {
    /// The profile to back up (see [`ProfileArgs::resolve`]).
    pub fn resolve_profile(&self, active: Option<String>) -> (r: ActiveProfile)
        ensures
            selected_profile(self.profile_args, active, r),
    {
        self.profile_args.resolve(active)
    }
}

impl RestoreArgs {
    /// The profile to restore (see [`ProfileArgs::resolve`]).
    pub fn resolve_profile(&self, active: Option<String>) -> (r: ActiveProfile)
        ensures
            selected_profile(self.profile_args, active, r),
    {
        self.profile_args.resolve(active)
    }
}

impl ValidateArgs {
    /// The profile to validate (see [`ProfileArgs::resolve`]).
    pub fn resolve_profile(&self, active: Option<String>) -> (r: ActiveProfile)
        ensures
            selected_profile(self.profile_args, active, r),
    {
        self.profile_args.resolve(active)
    }
}

/// A task to run, and whether only to show what it would do.
#[derive(Debug, Clone)]
pub struct TaskRun<T> {
    pub task: T,
    pub dry_run: bool,
}

} // verus!
