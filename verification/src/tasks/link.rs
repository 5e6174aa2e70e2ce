//! Linking configuration files to their backups (the symlink-based mode).
use vstd::prelude::*;
use crate::cli::{LinkArgs, TaskRun, selected_profile};
use crate::path::{components, same_path};
use crate::profile::{ActiveProfile, ResolvedSource, SourceLayer};
use crate::registries::configs_registry::RegistryEntry;
use crate::tasks::task_core::{PlannedOperation, op_view};
use crate::text::owned;

verus! {

/// Creates symlinks from the configuration files to their backups.
pub struct LinkTask {
    pub profile: ActiveProfile,
}

/// What the dry run shows for one entry: its name, target, and the source
/// it resolved to (layer and path), if any.
pub open spec fn link_op(name: Seq<char>, dst: Seq<char>, found: Option<(SourceLayer, Seq<char>)>) -> (
    Seq<char>,
    Option<Seq<char>>,
) {
    match found {
        Some((layer, src)) => ("Link "@ + name + " ["@ + layer.label() + "]"@, Some(dst + " -> "@ + src)),
        None => ("Skip "@ + name + " (no source)"@, Some(dst + " -> ???"@)),
    }
}

/// The view of an optional resolved source.
pub open spec fn found_view(r: Option<ResolvedSource>) -> Option<(SourceLayer, Seq<char>)> {
    match r {
        Some(s) => Some((s.layer, s.path@)),
        None => None,
    }
}

impl LinkTask {
    /// A link task for `profile`.
    pub fn new(profile: ActiveProfile) -> (r: Self)
        ensures
            r.profile == profile,
    {
        LinkTask { profile }
    }

    /// The task's name.
    pub fn name(&self) -> (r: &'static str)
        ensures
            r@ == "Link"@,
    {
        "Link"
    }

    /// What linking the enabled entries would do, given the source each
    /// resolved to.
    pub fn dry_run_from(&self, entries: &Vec<(String, RegistryEntry)>, resolved: &Vec<Option<ResolvedSource>>) -> (r: Vec<
        PlannedOperation,
    >)
        requires
            resolved@.len() == entries@.len(),
        ensures
            r@.len() == entries@.len(),
            forall|i: int|
                0 <= i < r@.len() ==> #[trigger] op_view(r@[i]) == link_op(
                    entries@[i].1.name@,
                    entries@[i].1.target_path@,
                    found_view(resolved@[i]),
                ),
    {
        let mut ops: Vec<PlannedOperation> = Vec::new();
        let mut i: usize = 0;
        while i < entries.len()
            invariant
                resolved@.len() == entries@.len(),
                i <= entries.len(),
                ops@.len() == i,
                forall|j: int|
                    0 <= j < i ==> #[trigger] op_view(ops@[j]) == link_op(
                        entries@[j].1.name@,
                        entries@[j].1.target_path@,
                        found_view(resolved@[j]),
                    ),
            decreases entries.len() - i,
        {
            let e = &entries[i].1;
            match &resolved[i] {
                Some(src) => {
                    let mut d = owned("Link ");
                    d.append(e.name.as_str());
                    d.append(" [");
                    d.append(src.layer.to_string().as_str());
                    d.append("]");
                    let mut t = e.target_path.clone();
                    t.append(" -> ");
                    t.append(src.path.as_str());
                    ops.push(PlannedOperation::with_target(d, t));
                },
                None => {
                    let mut d = owned("Skip ");
                    d.append(e.name.as_str());
                    d.append(" (no source)");
                    let mut t = e.target_path.clone();
                    t.append(" -> ???");
                    ops.push(PlannedOperation::with_target(d, t));
                },
            }
            i = i + 1;
        }
        ops
    }
}

/// What is known about a source and its target before linking.
#[derive(Debug, Clone)]
pub struct LinkObservation {
    /// The target exists (following symlinks).
    pub dst_exists: bool,
    /// The target is a symlink.
    pub dst_is_symlink: bool,
    /// The target is a regular file.
    pub dst_is_file: bool,
    /// The target is a directory.
    pub dst_is_dir: bool,
    /// The source exists.
    pub src_exists: bool,
    /// Where the target symlink points, when it is one and could be read.
    pub link_target: Option<String>,
}

/// One step of linking a source to its target.
#[derive(Debug, Clone, Copy, PartialEq, Eq, Structural)]
pub enum LinkAction {
    /// Copy the target file to the missing source.
    CopyFileToSource,
    /// Copy the target directory to the missing source.
    CopyDirToSource,
    /// The target is neither file nor directory: stop.
    SkipUnknownType,
    /// The source does not exist: stop.
    SkipMissingSource,
    /// The target already links to the source: stop.
    AlreadyLinked,
    /// The target symlink could not be read: stop.
    SkipUnreadableLink,
    /// Remove the target symlink, which points elsewhere.
    RemoveWrongLink,
    /// Move the existing target into the symlinks backup directory.
    BackupTarget,
    /// Create the symlink from the target to the source.
    CreateLink,
}

/// The steps that link a source to its target, in order; each is taken only
/// if the one before it succeeded.
pub open spec fn link_plan_spec(o: LinkObservation, src: Seq<char>) -> Seq<LinkAction> {
    let copy: Seq<LinkAction> = if o.dst_exists && !o.dst_is_symlink && !o.src_exists {
        if o.dst_is_file {
            seq![LinkAction::CopyFileToSource]
        } else if o.dst_is_dir {
            seq![LinkAction::CopyDirToSource]
        } else {
            seq![LinkAction::SkipUnknownType]
        }
    } else {
        Seq::empty()
    };
    if copy == seq![LinkAction::SkipUnknownType] {
        copy
    } else if !o.src_exists && copy.len() == 0 {
        seq![LinkAction::SkipMissingSource]
    } else if o.dst_is_symlink {
        match o.link_target {
            Some(t) => if components(t@) == components(src) {
                copy.push(LinkAction::AlreadyLinked)
            } else {
                copy + seq![LinkAction::RemoveWrongLink, LinkAction::CreateLink]
            },
            None => copy.push(LinkAction::SkipUnreadableLink),
        }
    } else if o.dst_exists {
        copy + seq![LinkAction::BackupTarget, LinkAction::CreateLink]
    } else {
        copy.push(LinkAction::CreateLink)
    }
}

/// The steps that link `src` to its target, as `link_plan_spec` says.
pub fn plan_link(o: &LinkObservation, src: &str) -> (r: Vec<LinkAction>)
    ensures
        r@ == link_plan_spec(*o, src@),
{
    let mut plan: Vec<LinkAction> = Vec::new();
    if o.dst_exists && !o.dst_is_symlink && !o.src_exists {
        if o.dst_is_file {
            plan.push(LinkAction::CopyFileToSource);
        } else if o.dst_is_dir {
            plan.push(LinkAction::CopyDirToSource);
        } else {
            plan.push(LinkAction::SkipUnknownType);
            proof {
                assert(plan@ =~= seq![LinkAction::SkipUnknownType]);
            }
            return plan;
        }
    }
    let ghost copy = plan@;
    proof {
        if copy.len() == 1 {
            assert(copy != seq![LinkAction::SkipUnknownType]) by {
                assert(copy[0] != LinkAction::SkipUnknownType);
            }
        } else {
            assert(copy =~= Seq::<LinkAction>::empty());
        }
    }
    if !o.src_exists && plan.len() == 0 {
        plan.push(LinkAction::SkipMissingSource);
        proof {
            assert(plan@ =~= seq![LinkAction::SkipMissingSource]);
        }
        return plan;
    }
    if o.dst_is_symlink {
        match &o.link_target {
            Some(t) => {
                if same_path(t.as_str(), src) {
                    plan.push(LinkAction::AlreadyLinked);
                } else {
                    plan.push(LinkAction::RemoveWrongLink);
                    plan.push(LinkAction::CreateLink);
                    proof {
                        assert(plan@ =~= copy + seq![LinkAction::RemoveWrongLink, LinkAction::CreateLink]);
                    }
                }
            },
            None => {
                plan.push(LinkAction::SkipUnreadableLink);
            },
        }
    } else if o.dst_exists {
        plan.push(LinkAction::BackupTarget);
        plan.push(LinkAction::CreateLink);
        proof {
            assert(plan@ =~= copy + seq![LinkAction::BackupTarget, LinkAction::CreateLink]);
        }
    } else {
        plan.push(LinkAction::CreateLink);
    }
    plan
}

/// What linking does in each situation. A target that exists as a real
/// file or directory while the source is missing is first copied to the
/// source, then moved aside and replaced by the link; one that is neither
/// stops the plan. A missing source with nothing to copy stops it. A real
/// target is moved aside before the link is made; a missing target is simply
/// linked. A target symlink is left alone when it already points to the
/// source, replaced when it points elsewhere, and stops the plan when it
/// cannot be read. Copies happen only to a missing source, and the link is
/// always the last step when it is made.
pub proof fn law_link_plan(o: LinkObservation, src: Seq<char>)
    ensures
        o.dst_exists && !o.dst_is_symlink && !o.src_exists && o.dst_is_file ==> link_plan_spec(o, src) == seq![
            LinkAction::CopyFileToSource,
            LinkAction::BackupTarget,
            LinkAction::CreateLink,
        ],
        o.dst_exists && !o.dst_is_symlink && !o.src_exists && !o.dst_is_file && o.dst_is_dir ==> link_plan_spec(
            o,
            src,
        ) == seq![LinkAction::CopyDirToSource, LinkAction::BackupTarget, LinkAction::CreateLink],
        o.dst_exists && !o.dst_is_symlink && !o.src_exists && !o.dst_is_file && !o.dst_is_dir ==> link_plan_spec(
            o,
            src,
        ) == seq![LinkAction::SkipUnknownType],
        !o.src_exists && !(o.dst_exists && !o.dst_is_symlink) ==> link_plan_spec(o, src) == seq![
            LinkAction::SkipMissingSource,
        ],
        o.src_exists && !o.dst_is_symlink && o.dst_exists ==> link_plan_spec(o, src) == seq![
            LinkAction::BackupTarget,
            LinkAction::CreateLink,
        ],
        o.src_exists && !o.dst_is_symlink && !o.dst_exists ==> link_plan_spec(o, src) == seq![LinkAction::CreateLink],
        o.src_exists && o.dst_is_symlink && (o.link_target matches Some(t) && components(t@) == components(src))
            ==> link_plan_spec(o, src) == seq![LinkAction::AlreadyLinked],
        o.src_exists && o.dst_is_symlink && (o.link_target matches Some(t) && components(t@) != components(src))
            ==> link_plan_spec(o, src) == seq![LinkAction::RemoveWrongLink, LinkAction::CreateLink],
        o.src_exists && o.dst_is_symlink && o.link_target is None ==> link_plan_spec(o, src) == seq![
            LinkAction::SkipUnreadableLink,
        ],
        forall|i: int|
            0 <= i < link_plan_spec(o, src).len() && (link_plan_spec(o, src)[i] == LinkAction::CopyFileToSource
                || link_plan_spec(o, src)[i] == LinkAction::CopyDirToSource) ==> i == 0 && !o.src_exists
                && !o.dst_is_symlink,
        forall|i: int|
            0 <= i < link_plan_spec(o, src).len() && link_plan_spec(o, src)[i] == LinkAction::CreateLink ==> i
                == link_plan_spec(o, src).len() - 1,
        forall|i: int|
            0 <= i < link_plan_spec(o, src).len() && link_plan_spec(o, src)[i] == LinkAction::BackupTarget
                ==> o.dst_exists && !o.dst_is_symlink,
{
    let copy: Seq<LinkAction> = if o.dst_exists && !o.dst_is_symlink && !o.src_exists {
        if o.dst_is_file {
            seq![LinkAction::CopyFileToSource]
        } else if o.dst_is_dir {
            seq![LinkAction::CopyDirToSource]
        } else {
            seq![LinkAction::SkipUnknownType]
        }
    } else {
        Seq::empty()
    };
    if copy.len() == 1 && copy[0] != LinkAction::SkipUnknownType {
        assert(copy != seq![LinkAction::SkipUnknownType]) by {
            assert(copy[0] != seq![LinkAction::SkipUnknownType][0]);
        }
    }
    if copy.len() == 0 {
        assert(copy != seq![LinkAction::SkipUnknownType]) by {
            assert(seq![LinkAction::SkipUnknownType].len() == 1);
        }
    }
    let p = link_plan_spec(o, src);
    if o.dst_exists && !o.dst_is_symlink && !o.src_exists && o.dst_is_file {
        assert(p =~= seq![LinkAction::CopyFileToSource, LinkAction::BackupTarget, LinkAction::CreateLink]);
    }
    if o.dst_exists && !o.dst_is_symlink && !o.src_exists && !o.dst_is_file && o.dst_is_dir {
        assert(p =~= seq![LinkAction::CopyDirToSource, LinkAction::BackupTarget, LinkAction::CreateLink]);
    }
    if o.src_exists && !o.dst_is_symlink && o.dst_exists {
        assert(p =~= seq![LinkAction::BackupTarget, LinkAction::CreateLink]);
    }
    if o.src_exists && !o.dst_is_symlink && !o.dst_exists {
        assert(p =~= seq![LinkAction::CreateLink]);
    }
    if o.src_exists && o.dst_is_symlink {
        match o.link_target {
            Some(t) => {
                if components(t@) == components(src) {
                    assert(p =~= seq![LinkAction::AlreadyLinked]);
                } else {
                    assert(p =~= seq![LinkAction::RemoveWrongLink, LinkAction::CreateLink]);
                }
            },
            None => {
                assert(p =~= seq![LinkAction::SkipUnreadableLink]);
            },
        }
    }
}

/// The task for the command-line arguments, given the active profile's
/// name, and whether to run it dry.
pub fn run_with_args(args: LinkArgs, active: Option<String>) -> (r: TaskRun<LinkTask>)
    ensures
        selected_profile(args.profile_args, active, r.task.profile),
        r.dry_run == args.dry_run,
{
    let profile = args.profile_args.resolve(active);
    TaskRun { task: LinkTask::new(profile), dry_run: args.dry_run }
}

} // verus!
