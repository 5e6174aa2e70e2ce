//! Moving files from the legacy flat backup directory into the layers.
use vstd::prelude::*;
use crate::cli::{MigrateArgs, MigrateLayer, TaskRun, selected_profile};
use crate::path::{is_absolute, join, lemma_join_injective, path_join, path_first_component_below, first_component_below};
use crate::profile::ActiveProfile;
use crate::registries::configs_registry::RegistryEntry;
use crate::tasks::task_core::PlannedOperation;
use crate::text::{decimal, owned, str_eq, to_decimal};
use crate::utils::paths::{MntnLayout, home_backup, mntn_root, COMMON_DIR, MACHINES_DIR, ENVIRONMENTS_DIR};

verus! {

/// The layer legacy files are moved to.
#[derive(Debug, Clone, Copy, PartialEq, Eq, Structural)]
pub enum MigrateTarget {
    Common,
    Machine,
    Environment,
}

impl MigrateTarget {
    pub open spec fn label(&self) -> Seq<char> {
        match self {
            MigrateTarget::Common => "common"@,
            MigrateTarget::Machine => "machine"@,
            MigrateTarget::Environment => "environment"@,
        }
    }

    /// The name of the layer.
    pub fn to_string(&self) -> (r: String)
        ensures
            r@ == self.label(),
    {
        match self {
            MigrateTarget::Common => owned("common"),
            MigrateTarget::Machine => owned("machine"),
            MigrateTarget::Environment => owned("environment"),
        }
    }

    /// The directory of the layer for `profile`.
    pub open spec fn dir_spec(&self, layout: MntnLayout, profile: ActiveProfile) -> Seq<char> {
        match self {
            MigrateTarget::Common => path_join(layout.backup_spec(), COMMON_DIR@),
            MigrateTarget::Machine => path_join(path_join(layout.backup_spec(), MACHINES_DIR@), profile.machine_id@),
            MigrateTarget::Environment => path_join(
                path_join(layout.backup_spec(), ENVIRONMENTS_DIR@),
                profile.environment@,
            ),
        }
    }

    /// The directory of the layer for `profile` in the given layout.
    pub fn resolve_path_in(&self, layout: &MntnLayout, profile: &ActiveProfile) -> (r: String)
        ensures
            r@ == self.dir_spec(*layout, *profile),
    {
        match self {
            MigrateTarget::Common => layout.common_path(),
            MigrateTarget::Machine => layout.machine_path(profile.machine_id.as_str()),
            MigrateTarget::Environment => layout.environment_path(profile.environment.as_str()),
        }
    }

    /// The directory of the layer for `profile`, under the current user's
    /// home directory when one is known.
    pub fn resolve_path(&self, profile: &ActiveProfile) -> (r: Option<String>)
        ensures
            r matches Some(p) ==> exists|l: MntnLayout, h: Seq<char>|
                #![trigger mntn_root(h), self.dir_spec(l, *profile)] l.root@ == mntn_root(h) && p@ == self.dir_spec(l, *profile),
    {
        match MntnLayout::discover() {
            Some(l) => {
                let r = self.resolve_path_in(&l, profile);
                proof {
                    let h = choose|h: Seq<char>| l.root@ == mntn_root(h);
                    assert(l.root@ == mntn_root(h) && r@ == self.dir_spec(l, *profile));
                }
                Some(r)
            },
            None => None,
        }
    }
}

/// The common layer is the same for every profile; different machine ids
/// give different machine layer directories, and different environments
/// different environment layer directories, as long as neither is an
/// absolute path (an absolute one replaces the whole path).
pub proof fn law_layer_dirs_distinct(l: MntnLayout, p1: ActiveProfile, p2: ActiveProfile)
    ensures
        MigrateTarget::Common.dir_spec(l, p1) == MigrateTarget::Common.dir_spec(l, p2),
        p1.machine_id@ != p2.machine_id@ && !is_absolute(p1.machine_id@) && !is_absolute(p2.machine_id@)
            ==> MigrateTarget::Machine.dir_spec(l, p1) != MigrateTarget::Machine.dir_spec(l, p2),
        p1.environment@ != p2.environment@ && !is_absolute(p1.environment@) && !is_absolute(p2.environment@)
            ==> MigrateTarget::Environment.dir_spec(l, p1) != MigrateTarget::Environment.dir_spec(l, p2),
{
    if p1.machine_id@ != p2.machine_id@ && !is_absolute(p1.machine_id@) && !is_absolute(p2.machine_id@) {
        lemma_join_injective(path_join(l.backup_spec(), MACHINES_DIR@), p1.machine_id@, p2.machine_id@);
    }
    if p1.environment@ != p2.environment@ && !is_absolute(p1.environment@) && !is_absolute(p2.environment@) {
        lemma_join_injective(path_join(l.backup_spec(), ENVIRONMENTS_DIR@), p1.environment@, p2.environment@);
    }
}

/// Whether `p` lies in one of the layer directories under `backup`.
pub open spec fn in_layered_subdir(p: Seq<char>, backup: Seq<char>) -> bool {
    match first_component_below(p, backup) {
        Some(c) => c == "common"@ || c == "machines"@ || c == "environments"@,
        None => false,
    }
}

/// No flag is set.
pub open spec fn none_found(v: Seq<bool>) -> bool {
    forall|j: int| 0 <= j < v.len() ==> !#[trigger] v[j]
}

/// The views of `(source path, legacy path)` pairs.
pub open spec fn legacy_pairs(v: Seq<(String, String)>) -> Seq<(Seq<char>, Seq<char>)> {
    v.map_values(|p: (String, String)| (p.0@, p.1@))
}

/// The legacy files among the first `n` sources: the source and its path
/// in the legacy directory `backup`, for each source whose legacy file
/// exists, exists in no layer, and does not itself lie in a layer directory.
pub open spec fn legacy_files_spec(
    sources: Seq<Seq<char>>,
    legacy_exists: Seq<bool>,
    layered_exist: Seq<Seq<bool>>,
    backup: Seq<char>,
    n: nat,
) -> Seq<(Seq<char>, Seq<char>)>
    decreases n,
{
    if n == 0 {
        seq![]
    } else {
        let prev = legacy_files_spec(sources, legacy_exists, layered_exist, backup, (n - 1) as nat);
        let legacy = path_join(backup, sources[n - 1]);
        if legacy_exists[n - 1] && none_found(layered_exist[n - 1]) && !in_layered_subdir(legacy, backup) {
            prev.push((sources[n - 1], legacy))
        } else {
            prev
        }
    }
}

/// Which files are migrated: every listed pair is a source together with
/// its path in the legacy directory, for a source whose legacy file exists,
/// that is found in none of the layers, and whose legacy path is not itself
/// inside a layer directory; every such source among the first `n` is
/// listed, in the order of the sources.
pub proof fn law_legacy_files(
    sources: Seq<Seq<char>>,
    legacy_exists: Seq<bool>,
    layered_exist: Seq<Seq<bool>>,
    backup: Seq<char>,
    n: nat,
)
    requires
        n <= sources.len(),
        n <= legacy_exists.len(),
        n <= layered_exist.len(),
    ensures
        ({
            let r = legacy_files_spec(sources, legacy_exists, layered_exist, backup, n);
            &&& r.len() <= n
            &&& forall|k: int|
                0 <= k < r.len() ==> exists|i: int|
                    0 <= i < n && #[trigger] r[k] == (sources[i], path_join(backup, sources[i])) && legacy_exists[i]
                        && (forall|j: int| 0 <= j < layered_exist[i].len() ==> !layered_exist[i][j])
                        && !in_layered_subdir(path_join(backup, sources[i]), backup)
            &&& forall|i: int|
                0 <= i < n && legacy_exists[i] && (forall|j: int|
                    0 <= j < layered_exist[i].len() ==> !layered_exist[i][j]) && !in_layered_subdir(
                    path_join(backup, sources[i]),
                    backup,
                ) ==> exists|k: int| 0 <= k < r.len() && #[trigger] r[k] == (sources[i], path_join(backup, sources[i]))
        }),
    decreases n,
{
    if n > 0 {
        law_legacy_files(sources, legacy_exists, layered_exist, backup, (n - 1) as nat);
        let prev = legacy_files_spec(sources, legacy_exists, layered_exist, backup, (n - 1) as nat);
        let r = legacy_files_spec(sources, legacy_exists, layered_exist, backup, n);
        let m = n - 1;
        assert forall|k: int|
            0 <= k < r.len() implies exists|i: int|
                0 <= i < n && #[trigger] r[k] == (sources[i], path_join(backup, sources[i])) && legacy_exists[i]
                    && (forall|j: int| 0 <= j < layered_exist[i].len() ==> !layered_exist[i][j])
                    && !in_layered_subdir(path_join(backup, sources[i]), backup) by {
            if k < prev.len() {
                assert(r[k] == prev[k]);
            } else {
                assert(r[k] == (sources[m], path_join(backup, sources[m])));
            }
        }
        assert forall|i: int|
            0 <= i < n && legacy_exists[i] && (forall|j: int|
                0 <= j < layered_exist[i].len() ==> !layered_exist[i][j]) && !in_layered_subdir(
                path_join(backup, sources[i]),
                backup,
            ) implies exists|k: int| 0 <= k < r.len() && #[trigger] r[k] == (sources[i], path_join(backup, sources[i])) by {
            if i < m {
                let k = choose|k: int| 0 <= k < prev.len() && #[trigger] prev[k] == (sources[i], path_join(backup, sources[i]));
                assert(r[k] == prev[k]);
            } else {
                assert(none_found(layered_exist[m]));
                assert(r[prev.len() as int] == (sources[m], path_join(backup, sources[m])));
            }
        }
    }
}

/// Moves legacy backup files into a layer.
pub struct MigrateTask {
    pub profile: ActiveProfile,
    pub target: MigrateTarget,
}

/// The result of a move that may have left its source behind.
#[derive(Debug)]
pub struct MoveResult {
    /// Set when the source could not be removed after copying.
    pub removal_warning: Option<String>,
}

impl MoveResult {
    /// A complete move.
    pub fn ok() -> (r: Self)
        ensures
            r.removal_warning is None,
    {
        MoveResult { removal_warning: None }
    }

    /// A move whose source could not be removed.
    pub fn with_removal_warning(warning: String) -> (r: Self)
        ensures
            r.removal_warning == Some(warning),
    {
        MoveResult { removal_warning: Some(warning) }
    }
}

/// The error of a copied directory whose entry count differs from its source's.
pub open spec fn entry_count_mismatch(source: nat, dest: nat) -> Seq<char> {
    "Verification failed: source had "@ + decimal(source) + " entries but destination has "@ + decimal(dest)
}

/// Checks a directory copy made when a rename failed: it holds as many
/// entries (counted recursively) as its source.
pub fn verify_copied_entries(source_count: usize, dest_count: usize) -> (r: Result<(), String>)
    ensures
        r is Ok <==> source_count == dest_count,
        r matches Err(msg) ==> msg@ == entry_count_mismatch(source_count as nat, dest_count as nat),
{
    if source_count == dest_count {
        return Ok(());
    }
    let mut msg = owned("Verification failed: source had ");
    msg.append(to_decimal(source_count as u128).as_str());
    msg.append(" entries but destination has ");
    msg.append(to_decimal(dest_count as u128).as_str());
    Err(msg)
}

/// The error of a copied file whose size differs from its source's.
pub open spec fn size_mismatch(source: nat, dest: nat) -> Seq<char> {
    "Verification failed: source file size ("@ + decimal(source) + ") differs from destination ("@ + decimal(dest) + ")"@
}

/// Checks a file copy made when a rename failed: it has its source's size.
pub fn verify_copied_size(source_len: u64, dest_len: u64) -> (r: Result<(), String>)
    ensures
        r is Ok <==> source_len == dest_len,
        r matches Err(msg) ==> msg@ == size_mismatch(source_len as nat, dest_len as nat),
{
    if source_len == dest_len {
        return Ok(());
    }
    let mut msg = owned("Verification failed: source file size (");
    msg.append(to_decimal(source_len as u128).as_str());
    msg.append(") differs from destination (");
    msg.append(to_decimal(dest_len as u128).as_str());
    msg.append(")");
    Err(msg)
}

/// The warning of a move whose copy succeeded but whose source `from`
/// (a directory or a file) could not be removed, for the reason `error`.
pub open spec fn removal_warning_text(is_dir: bool, from: Seq<char>, error: Seq<char>) -> Seq<char> {
    "Failed to remove source "@ + (if is_dir { "directory"@ } else { "file"@ }) + " '"@ + from
        + "' after successful copy: "@ + error + ". This may result in duplicate data."@
}

/// The result of such a move: complete, but with [`removal_warning_text`].
pub fn removal_warning(is_dir: bool, from: &str, error: &str) -> (r: MoveResult)
    ensures
        r.removal_warning matches Some(w) && w@ == removal_warning_text(is_dir, from@, error@),
{
    let mut w = owned("Failed to remove source ");
    w.append(if is_dir { "directory" } else { "file" });
    w.append(" '");
    w.append(from);
    w.append("' after successful copy: ");
    w.append(error);
    w.append(". This may result in duplicate data.");
    MoveResult::with_removal_warning(w)
}

/// A legacy file found to migrate: its registry source path and where it lies now.
pub open spec fn migrate_op(target: MigrateTarget, target_dir: Seq<char>, source: Seq<char>, legacy: Seq<char>) -> (
    Seq<char>,
    Option<Seq<char>>,
) {
    (
        "Migrate to "@ + target.label(),
        Some(legacy + " -> "@ + path_join(target_dir, source)),
    )
}

impl MigrateTask {
    /// A migration of `profile`'s legacy files to `target`.
    pub fn new(profile: ActiveProfile, target: MigrateTarget) -> (r: Self)
        ensures
            r.profile == profile,
            r.target == target,
    {
        MigrateTask { profile, target }
    }

    /// The task's name.
    pub fn name(&self) -> (r: &'static str)
        ensures
            r@ == "Migrate"@,
    {
        "Migrate"
    }

    /// Whether `path` lies in the `common`, `machines` or `environments`
    /// directory of the given layout's backup root.
    pub fn is_in_layered_subdir_in(&self, layout: &MntnLayout, path: &str) -> (r: bool)
        ensures
            r == in_layered_subdir(path@, layout.backup_spec()),
    {
        let backup_root = layout.backup_path();
        match path_first_component_below(path, backup_root.as_str()) {
            Some(c) => {
                let s = c.as_str();
                str_eq(s, "common") || str_eq(s, "machines") || str_eq(s, "environments")
            },
            None => false,
        }
    }

    /// Whether `path` lies in a layer directory of the current user's backup
    /// root; `false` when no home directory is known.
    pub fn is_in_layered_subdir(&self, path: &str) -> (r: bool)
        ensures
            r ==> exists|h: Seq<char>| #[trigger] in_layered_subdir(path@, home_backup(h)),
    {
        match MntnLayout::discover() {
            Some(l) => {
                let r = self.is_in_layered_subdir_in(&l, path);
                proof {
                    let h = choose|h: Seq<char>| l.root@ == mntn_root(h);
                    assert(l.backup_spec() == home_backup(h));
                    if r {
                        assert(in_layered_subdir(path@, home_backup(h)));
                    }
                }
                r
            },
            None => false,
        }
    }

    /// Where a registry source path lies in the legacy directory, and in the
    /// common, machine and environment layers of the profile being migrated.
    pub fn legacy_probe(&self, layout: &MntnLayout, source_path: &str) -> (r: (String, Vec<String>))
        ensures
            r.0@ == path_join(layout.backup_spec(), source_path@),
            r.1@.len() == 3,
            r.1@[0]@ == path_join(MigrateTarget::Common.dir_spec(*layout, self.profile), source_path@),
            r.1@[1]@ == path_join(MigrateTarget::Machine.dir_spec(*layout, self.profile), source_path@),
            r.1@[2]@ == path_join(MigrateTarget::Environment.dir_spec(*layout, self.profile), source_path@),
    {
        let legacy = join(layout.backup_path().as_str(), source_path);
        let mut layered: Vec<String> = Vec::new();
        layered.push(join(MigrateTarget::Common.resolve_path_in(layout, &self.profile).as_str(), source_path));
        layered.push(join(MigrateTarget::Machine.resolve_path_in(layout, &self.profile).as_str(), source_path));
        layered.push(join(MigrateTarget::Environment.resolve_path_in(layout, &self.profile).as_str(), source_path));
        (legacy, layered)
    }

    /// Whether a probed file is a legacy file to migrate: it exists in the
    /// legacy directory, in none of the layers, and the legacy path is not
    /// itself inside a layer directory.
    pub fn is_legacy_file(
        &self,
        layout: &MntnLayout,
        legacy_path: &str,
        legacy_exists: bool,
        layered_exist: &Vec<bool>,
    ) -> (r: bool)
        ensures
            r == (legacy_exists && (forall|i: int| 0 <= i < layered_exist@.len() ==> !layered_exist@[i])
                && !in_layered_subdir(legacy_path@, layout.backup_spec())),
    {
        if !legacy_exists {
            return false;
        }
        let mut i: usize = 0;
        while i < layered_exist.len()
            invariant
                i <= layered_exist.len(),
                forall|j: int| 0 <= j < i ==> !layered_exist@[j],
            decreases layered_exist.len() - i,
        {
            if layered_exist[i] {
                return false;
            }
            i = i + 1;
        }
        !self.is_in_layered_subdir_in(layout, legacy_path)
    }

    /// The legacy files among the enabled entries: `(source path, legacy
    /// path)` of each entry whose probe (see [`MigrateTask::legacy_probe`])
    /// found a legacy file, with `legacy_exists[i]` and `layered_exist[i]`
    /// what the probe of entry `i` found on disk.
    pub fn find_legacy_files(
        &self,
        layout: &MntnLayout,
        entries: &Vec<(String, RegistryEntry)>,
        legacy_exists: &Vec<bool>,
        layered_exist: &Vec<Vec<bool>>,
    ) -> (r: Vec<(String, String)>)
        requires
            legacy_exists@.len() == entries@.len(),
            layered_exist@.len() == entries@.len(),
        ensures
            legacy_pairs(r@) == legacy_files_spec(
                entries@.map_values(|p: (String, RegistryEntry)| p.1.source_path@),
                legacy_exists@,
                layered_exist@.map_values(|v: Vec<bool>| v@),
                layout.backup_spec(),
                entries@.len(),
            ),
    {
        let ghost srcs = entries@.map_values(|p: (String, RegistryEntry)| p.1.source_path@);
        let ghost lay = layered_exist@.map_values(|v: Vec<bool>| v@);
        let mut r: Vec<(String, String)> = Vec::new();
        let mut i: usize = 0;
        while i < entries.len()
            invariant
                legacy_exists@.len() == entries@.len(),
                layered_exist@.len() == entries@.len(),
                srcs == entries@.map_values(|p: (String, RegistryEntry)| p.1.source_path@),
                lay == layered_exist@.map_values(|v: Vec<bool>| v@),
                i <= entries.len(),
                legacy_pairs(r@) == legacy_files_spec(srcs, legacy_exists@, lay, layout.backup_spec(), i as nat),
            decreases entries.len() - i,
        {
            let source = entries[i].1.source_path.as_str();
            let legacy = join(layout.backup_path().as_str(), source);
            if self.is_legacy_file(layout, legacy.as_str(), legacy_exists[i], &layered_exist[i]) {
                let ghost before = r@;
                r.push((entries[i].1.source_path.clone(), legacy));
                proof {
                    assert(legacy_pairs(r@) =~= legacy_pairs(before).push((srcs[i as int], legacy@)));
                }
            }
            proof {
                assert(srcs[i as int] == entries@[i as int].1.source_path@);
                assert(lay[i as int] == layered_exist@[i as int]@);
            }
            i = i + 1;
        }
        r
    }

    /// What migrating the given legacy files `(source path, legacy path)` would do.
    pub fn dry_run_from(&self, layout: &MntnLayout, legacy_files: &Vec<(String, String)>) -> (r: Vec<
        PlannedOperation,
    >)
        ensures
            legacy_files@.len() == 0 ==> r@.len() == 1 && r@[0].description@ == "No migration needed"@
                && (r@[0].target matches Some(t) && t@ == "All files already in layered structure"@),
            legacy_files@.len() > 0 ==> r@.len() == legacy_files@.len() && forall|i: int|
                0 <= i < r@.len() ==> #[trigger] crate::tasks::task_core::op_view(r@[i]) == migrate_op(
                    self.target,
                    self.target.dir_spec(*layout, self.profile),
                    legacy_files@[i].0@,
                    legacy_files@[i].1@,
                ),
    {
        let target_dir = self.target.resolve_path_in(layout, &self.profile);
        let mut ops: Vec<PlannedOperation> = Vec::new();
        let mut i: usize = 0;
        while i < legacy_files.len()
            invariant
                i <= legacy_files.len(),
                ops@.len() == i,
                target_dir@ == self.target.dir_spec(*layout, self.profile),
                forall|j: int|
                    0 <= j < i ==> #[trigger] crate::tasks::task_core::op_view(ops@[j]) == migrate_op(
                        self.target,
                        target_dir@,
                        legacy_files@[j].0@,
                        legacy_files@[j].1@,
                    ),
            decreases legacy_files.len() - i,
        {
            let mut desc = owned("Migrate to ");
            desc.append(self.target.to_string().as_str());
            let mut tgt = legacy_files[i].1.clone();
            tgt.append(" -> ");
            tgt.append(join(target_dir.as_str(), legacy_files[i].0.as_str()).as_str());
            ops.push(PlannedOperation::with_target(desc, tgt));
            i = i + 1;
        }
        if ops.len() == 0 {
            ops.push(
                PlannedOperation::with_target("No migration needed", "All files already in layered structure"),
            );
        }
        ops
    }
}

impl MigrateLayer {
    /// The layer to migrate to.
    pub fn to_migrate_target(&self) -> (r: MigrateTarget)
        ensures
            *self == MigrateLayer::Common ==> r == MigrateTarget::Common,
            *self == MigrateLayer::Machine ==> r == MigrateTarget::Machine,
            *self == MigrateLayer::Environment ==> r == MigrateTarget::Environment,
    {
        match self {
            MigrateLayer::Common => MigrateTarget::Common,
            MigrateLayer::Machine => MigrateTarget::Machine,
            MigrateLayer::Environment => MigrateTarget::Environment,
        }
    }
}

/// The task for the command-line arguments, given the active profile's
/// name, and whether to run it dry.
pub fn run_with_args(args: MigrateArgs, active: Option<String>) -> (r: TaskRun<MigrateTask>)
    ensures
        selected_profile(args.profile_args, active, r.task.profile),
        args.layer == MigrateLayer::Common ==> r.task.target == MigrateTarget::Common,
        args.layer == MigrateLayer::Machine ==> r.task.target == MigrateTarget::Machine,
        args.layer == MigrateLayer::Environment ==> r.task.target == MigrateTarget::Environment,
        r.dry_run == args.dry_run,
{
    let profile = args.profile_args.resolve(active);
    let target = args.layer.to_migrate_target();
    TaskRun { task: MigrateTask::new(profile, target), dry_run: args.dry_run }
}

} // verus!
