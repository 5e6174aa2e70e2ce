//! Restoring configuration files from their backups.
use vstd::prelude::*;
use crate::cli::{RestoreArgs, TaskRun, selected_profile};
use crate::path::{components, path_components};
use crate::profile::{ActiveProfile, ResolvedSource, SourceLayer};
use crate::registries::configs_registry::RegistryEntry;
use crate::tasks::link::found_view;
use crate::tasks::task_core::{PlannedOperation, op_view};
use crate::text::owned;

verus! {

/// Restores configuration files from the first layer that has them.
pub struct RestoreTask {
    pub profile: ActiveProfile,
}

/// What the dry run shows for one entry.
pub open spec fn restore_op(name: Seq<char>, target: Seq<char>, found: Option<(SourceLayer, Seq<char>)>) -> (
    Seq<char>,
    Option<Seq<char>>,
) {
    match found {
        Some((layer, src)) => ("Restore "@ + name + " ["@ + layer.label() + "]"@, Some(src + " -> "@ + target)),
        None => ("Skip "@ + name + " (no source)"@, Some("??? -> "@ + target)),
    }
}

impl RestoreTask {
    /// A restore task for `profile`.
    pub fn new(profile: ActiveProfile) -> (r: Self)
        ensures
            r.profile == profile,
    {
        RestoreTask { profile }
    }

    /// The task's name.
    pub fn name(&self) -> (r: &'static str)
        ensures
            r@ == "Restore"@,
    {
        "Restore"
    }

    /// What restoring the enabled entries would do, given the source each resolved to.
    pub fn dry_run_from(&self, entries: &Vec<(String, RegistryEntry)>, resolved: &Vec<Option<ResolvedSource>>) -> (r: Vec<
        PlannedOperation,
    >)
        requires
            resolved@.len() == entries@.len(),
        ensures
            r@.len() == entries@.len(),
            forall|i: int|
                0 <= i < r@.len() ==> #[trigger] op_view(r@[i]) == restore_op(
                    entries@[i].1.name@,
                    entries@[i].1.target_path@,
                    found_view(resolved@[i]),
                ),
    {
        let mut ops: Vec<PlannedOperation> = Vec::new();
        let mut i: usize = 0;
        while i < entries.len()
            invariant
                resolved@.len() == entries@.len(),
                i <= entries.len(),
                ops@.len() == i,
                forall|j: int|
                    0 <= j < i ==> #[trigger] op_view(ops@[j]) == restore_op(
                        entries@[j].1.name@,
                        entries@[j].1.target_path@,
                        found_view(resolved@[j]),
                    ),
            decreases entries.len() - i,
        {
            let e = &entries[i].1;
            match &resolved[i] {
                Some(src) => {
                    let mut d = owned("Restore ");
                    d.append(e.name.as_str());
                    d.append(" [");
                    d.append(src.layer.to_string().as_str());
                    d.append("]");
                    let mut t = src.path.clone();
                    t.append(" -> ");
                    t.append(e.target_path.as_str());
                    ops.push(PlannedOperation::with_target(d, t));
                },
                None => {
                    let mut d = owned("Skip ");
                    d.append(e.name.as_str());
                    d.append(" (no source)");
                    let mut t = owned("??? -> ");
                    t.append(e.target_path.as_str());
                    ops.push(PlannedOperation::with_target(d, t));
                },
            }
            i = i + 1;
        }
        ops
    }
}

/// One step of restoring a backup to its target.
#[derive(Debug, Clone, Copy, PartialEq, Eq, Structural)]
pub enum RestoreAction {
    /// Remove the symlink that an older version left at the target.
    RemoveLegacyLink,
    /// Create the target directory.
    CreateTargetDir,
    /// Copy the backup directory's contents over the target directory.
    SyncDirectory,
    /// Read the backup file.
    ReadBackup,
    /// Create the target's parent directory.
    CreateParentDir,
    /// Write the backup's contents to the target.
    WriteTarget,
}

/// Whether a path has a parent (`Path::parent`): not empty and not the root.
pub open spec fn has_parent(p: Seq<char>) -> bool {
    components(p).len() > 0 && components(p) != seq![seq!['/']]
}

/// The steps that restore a backup to its target; each is taken only if the
/// one before it succeeded, and the restore succeeds when all do.
pub open spec fn restore_plan_spec(backup_is_dir: bool, target_is_symlink: bool, target: Seq<char>) -> Seq<RestoreAction> {
    let unlink: Seq<RestoreAction> = if target_is_symlink { seq![RestoreAction::RemoveLegacyLink] } else { Seq::empty() };
    if backup_is_dir {
        unlink + seq![RestoreAction::CreateTargetDir, RestoreAction::SyncDirectory]
    } else if has_parent(target) {
        unlink + seq![RestoreAction::ReadBackup, RestoreAction::CreateParentDir, RestoreAction::WriteTarget]
    } else {
        unlink + seq![RestoreAction::ReadBackup, RestoreAction::WriteTarget]
    }
}

/// The steps that restore a backup to `target`, as `restore_plan_spec` says.
pub fn plan_restore(backup_is_dir: bool, target_is_symlink: bool, target: &str) -> (r: Vec<RestoreAction>)
    ensures
        r@ == restore_plan_spec(backup_is_dir, target_is_symlink, target@),
{
    let mut plan: Vec<RestoreAction> = Vec::new();
    if target_is_symlink {
        plan.push(RestoreAction::RemoveLegacyLink);
    }
    let ghost unlink = plan@;
    if backup_is_dir {
        plan.push(RestoreAction::CreateTargetDir);
        plan.push(RestoreAction::SyncDirectory);
        proof {
            assert(plan@ =~= unlink + seq![RestoreAction::CreateTargetDir, RestoreAction::SyncDirectory]);
        }
        return plan;
    }
    plan.push(RestoreAction::ReadBackup);
    let comps = path_components(target);
    let parent = comps.len() > 0 && !(comps.len() == 1 && comps[0].as_str().unicode_len() == 1
        && comps[0].as_str().get_char(0) == '/');
    proof {
        if comps.len() == 1 {
            assert(crate::path::views(comps@)[0] == comps@[0]@);
            if comps@[0]@.len() == 1 && comps@[0]@[0] == '/' {
                assert(comps@[0]@ =~= seq!['/']);
                assert(components(target@) =~= seq![seq!['/']]);
            } else {
                assert(components(target@)[0] != seq!['/']);
            }
        } else if comps.len() > 1 {
            assert(components(target@).len() != 1);
        }
    }
    if parent {
        plan.push(RestoreAction::CreateParentDir);
    }
    plan.push(RestoreAction::WriteTarget);
    proof {
        if parent {
            assert(plan@ =~= unlink + seq![RestoreAction::ReadBackup, RestoreAction::CreateParentDir, RestoreAction::WriteTarget]);
        } else {
            assert(plan@ =~= unlink + seq![RestoreAction::ReadBackup, RestoreAction::WriteTarget]);
        }
    }
    plan
}

/// How a restore proceeds: a symlink at the target (left by older versions)
/// is removed first, and only then, for a directory backup as for a file;
/// a directory backup creates the target directory and syncs into it, and
/// reads or writes no file; a file backup is read and then written to the
/// target as the last step, creating the target's parent directory in
/// between when the target has one, and syncs no directory.
pub proof fn law_restore_plan(backup_is_dir: bool, target_is_symlink: bool, target: Seq<char>)
    ensures
        ({
            let p = restore_plan_spec(backup_is_dir, target_is_symlink, target);
            &&& p.len() > 0
            &&& target_is_symlink <==> p[0] == RestoreAction::RemoveLegacyLink
            &&& forall|i: int| 0 < i < p.len() ==> p[i] != RestoreAction::RemoveLegacyLink
            &&& backup_is_dir ==> p.len() >= 2 && p[p.len() - 2] == RestoreAction::CreateTargetDir && p.last()
                == RestoreAction::SyncDirectory
            &&& backup_is_dir ==> forall|i: int|
                0 <= i < p.len() ==> p[i] != RestoreAction::ReadBackup && p[i] != RestoreAction::WriteTarget
                    && p[i] != RestoreAction::CreateParentDir
            &&& !backup_is_dir ==> p.last() == RestoreAction::WriteTarget
            &&& !backup_is_dir ==> forall|i: int|
                0 <= i < p.len() ==> p[i] != RestoreAction::SyncDirectory && p[i] != RestoreAction::CreateTargetDir
            &&& !backup_is_dir ==> exists|i: int| 0 <= i < p.len() - 1 && p[i] == RestoreAction::ReadBackup
            &&& (exists|i: int| 0 <= i < p.len() && p[i] == RestoreAction::CreateParentDir) <==> (!backup_is_dir
                && has_parent(target))
            &&& p.len() == (if target_is_symlink { 1int } else { 0int }) + (if backup_is_dir || !has_parent(target) {
                2int
            } else {
                3int
            })
        }),
{
    let p = restore_plan_spec(backup_is_dir, target_is_symlink, target);
    let k: int = if target_is_symlink { 1 } else { 0 };
    if !backup_is_dir {
        assert(p[k] == RestoreAction::ReadBackup);
        if has_parent(target) {
            assert(p[k + 1] == RestoreAction::CreateParentDir);
        }
    }
}

/// The task for the command-line arguments, given the active profile's
/// name, and whether to run it dry.
pub fn run_with_args(args: RestoreArgs, active: Option<String>) -> (r: TaskRun<RestoreTask>)
    ensures
        selected_profile(args.profile_args, active, r.task.profile),
        r.dry_run == args.dry_run,
{
    let profile = args.resolve_profile(active);
    TaskRun { task: RestoreTask::new(profile), dry_run: args.dry_run }
}

} // verus!
