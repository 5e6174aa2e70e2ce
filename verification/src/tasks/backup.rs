//! Backing up package lists and configuration files.
use vstd::prelude::*;
use crate::cli::{BackupArgs, TaskRun, selected_profile};
use crate::path::{components, join, path_join, same_path, path_starts_with, starts_with};
use crate::profile::ActiveProfile;
use crate::registries::configs_registry::RegistryEntry;
use crate::registries::package_registry::PackageManagerEntry;
use crate::tasks::task_core::{PlannedOperation, op_view};
use crate::text::owned;
use crate::utils::paths::{MntnLayout, PACKAGES_DIR};

verus! {

/// Backs up the package lists, the configuration files and (unless
/// skipped) the encrypted configuration files of a profile.
pub struct BackupTask {
    pub profile: ActiveProfile,
    pub skip_encrypted: bool,
}

pub open spec fn package_op(name: Seq<char>, dest: Seq<char>) -> (Seq<char>, Option<Seq<char>>) {
    ("Backup "@ + name + " package list"@, Some(dest))
}

pub open spec fn config_op(name: Seq<char>, dest: Seq<char>) -> (Seq<char>, Option<Seq<char>>) {
    ("Backup "@ + name, Some(dest))
}

pub open spec fn encrypted_op(name: Seq<char>, dest: Seq<char>) -> (Seq<char>, Option<Seq<char>>) {
    ("Backup "@ + name + " (encrypted)"@, Some(dest))
}

impl BackupTask {
    /// A backup of `profile`, with or without the encrypted files.
    pub fn new(profile: ActiveProfile, skip_encrypted: bool) -> (r: Self)
        ensures
            r.profile == profile,
            r.skip_encrypted == skip_encrypted,
    {
        BackupTask { profile, skip_encrypted }
    }

    /// The task's name.
    pub fn name(&self) -> (r: &'static str)
        ensures
            r@ == "Backup"@,
    {
        "Backup"
    }

    /// What a backup would do: save the list of each compatible package
    /// manager, copy each enabled configuration file into the profile's backup
    /// directory, and (unless skipped) each encrypted file, given as its name
    /// and its path inside the encrypted backup directory.
    pub fn dry_run_from(
        &self,
        layout: &MntnLayout,
        packages: &Vec<(String, PackageManagerEntry)>,
        configs: &Vec<(String, RegistryEntry)>,
        encrypted: &Vec<(String, String)>,
    ) -> (r: Vec<PlannedOperation>)
        ensures
            r@.len() == packages@.len() + configs@.len() + if self.skip_encrypted { 0 } else { encrypted@.len() },
            forall|i: int| 0 <= i < packages@.len() ==> #[trigger] op_view(r@[i]) == package_op(
                packages@[i].1.name@,
                path_join(path_join(layout.backup_spec(), PACKAGES_DIR@), packages@[i].1.output_file@),
            ),
            forall|i: int| 0 <= i < configs@.len() ==> #[trigger] op_view(r@[packages@.len() + i]) == config_op(
                configs@[i].1.name@,
                path_join(self.backup_dir_spec(*layout), configs@[i].1.source_path@),
            ),
            !self.skip_encrypted ==> forall|i: int| 0 <= i < encrypted@.len() ==> #[trigger] op_view(
                r@[packages@.len() + configs@.len() + i],
            ) == encrypted_op(
                encrypted@[i].0@,
                path_join(path_join(self.backup_dir_spec(*layout), "encrypted"@), encrypted@[i].1@),
            ),
    {
        let mut ops: Vec<PlannedOperation> = Vec::new();
        let packages_dir = layout.packages_path();
        let mut i: usize = 0;
        while i < packages.len()
            invariant
                i <= packages.len(),
                ops@.len() == i,
                packages_dir@ == path_join(layout.backup_spec(), PACKAGES_DIR@),
                forall|j: int| 0 <= j < i ==> #[trigger] op_view(ops@[j]) == package_op(
                    packages@[j].1.name@,
                    path_join(packages_dir@, packages@[j].1.output_file@),
                ),
            decreases packages.len() - i,
        {
            let mut d = owned("Backup ");
            d.append(packages[i].1.name.as_str());
            d.append(" package list");
            let t = join(packages_dir.as_str(), packages[i].1.output_file.as_str());
            ops.push(PlannedOperation::with_target(d, t));
            i = i + 1;
        }
        let backup_dir = self.profile.get_backup_path(layout);
        let mut k: usize = 0;
        while k < configs.len()
            invariant
                k <= configs.len(),
                ops@.len() == packages@.len() + k,
                backup_dir@ == self.backup_dir_spec(*layout),
                packages_dir@ == path_join(layout.backup_spec(), PACKAGES_DIR@),
                forall|j: int| 0 <= j < packages@.len() ==> #[trigger] op_view(ops@[j]) == package_op(
                    packages@[j].1.name@,
                    path_join(packages_dir@, packages@[j].1.output_file@),
                ),
                forall|j: int| 0 <= j < k ==> #[trigger] op_view(ops@[packages@.len() + j]) == config_op(
                    configs@[j].1.name@,
                    path_join(backup_dir@, configs@[j].1.source_path@),
                ),
            decreases configs.len() - k,
        {
            let mut d = owned("Backup ");
            d.append(configs[k].1.name.as_str());
            let t = join(backup_dir.as_str(), configs[k].1.source_path.as_str());
            let ghost before = ops@;
            ops.push(PlannedOperation::with_target(d, t));
            proof {
                assert forall|j: int| 0 <= j < packages@.len() implies #[trigger] op_view(ops@[j]) == package_op(
                    packages@[j].1.name@,
                    path_join(packages_dir@, packages@[j].1.output_file@),
                ) by {
                    assert(ops@[j] == before[j]);
                }
                assert forall|j: int| 0 <= j < k + 1 implies #[trigger] op_view(ops@[packages@.len() + j]) == config_op(
                    configs@[j].1.name@,
                    path_join(backup_dir@, configs@[j].1.source_path@),
                ) by {
                    if j < k {
                        assert(ops@[packages@.len() + j] == before[packages@.len() + j]);
                    }
                }
            }
            k = k + 1;
        }
        if !self.skip_encrypted {
            let enc_dir = self.profile.get_encrypted_backup_path(layout);
            let mut m: usize = 0;
            while m < encrypted.len()
                invariant
                    m <= encrypted.len(),
                    ops@.len() == packages@.len() + configs@.len() + m,
                    backup_dir@ == self.backup_dir_spec(*layout),
                    enc_dir@ == path_join(self.backup_dir_spec(*layout), "encrypted"@),
                    packages_dir@ == path_join(layout.backup_spec(), PACKAGES_DIR@),
                    forall|j: int| 0 <= j < packages@.len() ==> #[trigger] op_view(ops@[j]) == package_op(
                        packages@[j].1.name@,
                        path_join(packages_dir@, packages@[j].1.output_file@),
                    ),
                    forall|j: int| 0 <= j < configs@.len() ==> #[trigger] op_view(ops@[packages@.len() + j])
                        == config_op(configs@[j].1.name@, path_join(backup_dir@, configs@[j].1.source_path@)),
                    forall|j: int| 0 <= j < m ==> #[trigger] op_view(ops@[packages@.len() + configs@.len() + j])
                        == encrypted_op(encrypted@[j].0@, path_join(enc_dir@, encrypted@[j].1@)),
                decreases encrypted.len() - m,
            {
                let mut d = owned("Backup ");
                d.append(encrypted[m].0.as_str());
                d.append(" (encrypted)");
                let t = join(enc_dir.as_str(), encrypted[m].1.as_str());
                let ghost before = ops@;
                ops.push(PlannedOperation::with_target(d, t));
                proof {
                    assert forall|j: int| 0 <= j < packages@.len() implies #[trigger] op_view(ops@[j]) == package_op(
                        packages@[j].1.name@,
                        path_join(packages_dir@, packages@[j].1.output_file@),
                    ) by {
                        assert(ops@[j] == before[j]);
                    }
                    assert forall|j: int| 0 <= j < configs@.len() implies #[trigger] op_view(ops@[packages@.len() + j])
                        == config_op(configs@[j].1.name@, path_join(backup_dir@, configs@[j].1.source_path@)) by {
                        assert(ops@[packages@.len() + j] == before[packages@.len() + j]);
                    }
                    assert forall|j: int| 0 <= j < m + 1 implies #[trigger] op_view(
                        ops@[packages@.len() + configs@.len() + j],
                    ) == encrypted_op(encrypted@[j].0@, path_join(enc_dir@, encrypted@[j].1@)) by {
                        if j < m {
                            assert(ops@[packages@.len() + configs@.len() + j] == before[packages@.len()
                                + configs@.len() + j]);
                        }
                    }
                }
                m = m + 1;
            }
        }
        ops
    }

    /// The directory a backup of the profile is written to.
    pub open spec fn backup_dir_spec(&self, layout: MntnLayout) -> Seq<char> {
        match self.profile.name {
            Some(n) => path_join(path_join(layout.backup_spec(), "profiles"@), n@),
            None => path_join(layout.backup_spec(), "common"@),
        }
    }
}

/// How a configuration file or directory is backed up.
#[derive(Debug, Clone, Copy, PartialEq, Eq, Structural)]
pub enum BackupAction {
    /// The source does not exist: an error.
    SourceNotFound,
    /// The source is a symlink into the backup (older versions linked files
    /// there): replace it with a real copy of the backup, and copy nothing.
    ConvertSymlink,
    /// Copy the source into the backup.
    Copy,
}

/// How a file is backed up: `link_target` is where the source symlink
/// points (resolved), when it is one; `destination` is the backup path (resolved).
pub open spec fn file_backup_spec(source_exists: bool, link_target: Option<Seq<char>>, destination: Seq<char>) -> BackupAction {
    if !source_exists {
        BackupAction::SourceNotFound
    } else {
        match link_target {
            Some(t) => if components(t) == components(destination) {
                BackupAction::ConvertSymlink
            } else {
                BackupAction::Copy
            },
            None => BackupAction::Copy,
        }
    }
}

/// How a directory is backed up: as a file, but a symlink also counts as
/// pointing into the backup when either path lies inside the other.
pub open spec fn directory_backup_spec(source_exists: bool, link_target: Option<Seq<char>>, destination: Seq<char>) -> BackupAction {
    if !source_exists {
        BackupAction::SourceNotFound
    } else {
        match link_target {
            Some(t) => if components(t) == components(destination) || starts_with(destination, t) || starts_with(
                t,
                destination,
            ) {
                BackupAction::ConvertSymlink
            } else {
                BackupAction::Copy
            },
            None => BackupAction::Copy,
        }
    }
}

/// Decides how a file is backed up.
pub fn plan_file_backup(source_exists: bool, link_target: &Option<String>, destination: &str) -> (r: BackupAction)
    ensures
        r == file_backup_spec(
            source_exists,
            match link_target { Some(t) => Some(t@), None => None },
            destination@,
        ),
{
    if !source_exists {
        return BackupAction::SourceNotFound;
    }
    match link_target {
        Some(t) => if same_path(t.as_str(), destination) {
            BackupAction::ConvertSymlink
        } else {
            BackupAction::Copy
        },
        None => BackupAction::Copy,
    }
}

/// Decides how a directory is backed up.
pub fn plan_directory_backup(source_exists: bool, link_target: &Option<String>, destination: &str) -> (r: BackupAction)
    ensures
        r == directory_backup_spec(
            source_exists,
            match link_target { Some(t) => Some(t@), None => None },
            destination@,
        ),
{
    if !source_exists {
        return BackupAction::SourceNotFound;
    }
    match link_target {
        Some(t) => if same_path(t.as_str(), destination) || path_starts_with(destination, t.as_str())
            || path_starts_with(t.as_str(), destination) {
            BackupAction::ConvertSymlink
        } else {
            BackupAction::Copy
        },
        None => BackupAction::Copy,
    }
}

/// How a source is backed up: a missing source is an error; a source that
/// is no symlink (no link target) is copied, file or directory; a symlink is
/// converted, and nothing copied, exactly when it points into the backup (for
/// a directory, also when either path lies inside the other), and is copied
/// otherwise.
pub proof fn law_backup_action(source_exists: bool, link_target: Option<Seq<char>>, destination: Seq<char>)
    ensures
        !source_exists ==> file_backup_spec(source_exists, link_target, destination) == BackupAction::SourceNotFound
            && directory_backup_spec(source_exists, link_target, destination) == BackupAction::SourceNotFound,
        source_exists && link_target is None ==> file_backup_spec(source_exists, link_target, destination)
            == BackupAction::Copy && directory_backup_spec(source_exists, link_target, destination)
            == BackupAction::Copy,
        source_exists ==> file_backup_spec(source_exists, link_target, destination) != BackupAction::SourceNotFound
            && directory_backup_spec(source_exists, link_target, destination) != BackupAction::SourceNotFound,
        file_backup_spec(source_exists, link_target, destination) == BackupAction::ConvertSymlink <==> source_exists
            && (match link_target {
            Some(t) => components(t) == components(destination),
            None => false,
        }),
        directory_backup_spec(source_exists, link_target, destination) == BackupAction::ConvertSymlink <==> source_exists
            && (match link_target {
            Some(t) => components(t) == components(destination) || starts_with(destination, t) || starts_with(
                t,
                destination,
            ),
            None => false,
        }),
        file_backup_spec(source_exists, link_target, destination) == BackupAction::ConvertSymlink
            ==> directory_backup_spec(source_exists, link_target, destination) == BackupAction::ConvertSymlink,
{
}

/// The task for the command-line arguments, given the active profile's
/// name, and whether to run it dry.
pub fn run_with_args(args: BackupArgs, active: Option<String>) -> (r: TaskRun<BackupTask>)
    ensures
        selected_profile(args.profile_args, active, r.task.profile),
        r.task.skip_encrypted == args.skip_encrypted,
        r.dry_run == args.dry_run,
{
    let profile = args.resolve_profile(active);
    TaskRun { task: BackupTask::new(profile, args.skip_encrypted), dry_run: args.dry_run }
}

} // verus!
