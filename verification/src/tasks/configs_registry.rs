//! Managing the registry of configuration files from the command line.
use vstd::prelude::*;
use crate::cli::{ConfigsRegistryActions, ConfigsRegistryArgs, TaskRun};
use crate::registries::{Edit, EditOutcome, apply_edit, edit_applied, enabled_count, lemma_enabled_count_bound, lists_in_id_order};
use crate::registries::configs_registry::{ConfigsRegistry, RegistryEntry};
use crate::tasks::edits::{add_ops, add_plan, joined, list_ops, list_plan, remove_ops, remove_plan, toggle_ops, toggle_plan};
use crate::tasks::task_core::{PlannedOperation, ops_view};
use crate::text::{clone_opt_string, decimal, owned, strs_view, to_decimal};

verus! {

/// Lists, adds, removes or switches entries of the configuration registry.
#[derive(Debug, Clone)]
pub struct ConfigsRegistryTask {
    pub args: ConfigsRegistryArgs,
}

/// What a dry run of `action` plans, for the registry file at `path`.
pub open spec fn configs_plan(action: ConfigsRegistryActions, path: Seq<char>) -> Seq<(Seq<char>, Option<Seq<char>>)> {
    match action {
        ConfigsRegistryActions::List { .. } => list_plan("registry entries"@),
        ConfigsRegistryActions::Add { id, name, source, target, .. } => add_plan(
            "registry entry"@,
            "Save registry"@,
            name@,
            id@,
            "Source: "@ + source@ + ", Target: "@ + target@,
            path,
        ),
        ConfigsRegistryActions::Remove { id } => remove_plan("registry entry"@, "Save registry"@, id@, path),
        ConfigsRegistryActions::Toggle { id, enable } => toggle_plan(
            if enable { "enable"@ } else { "disable"@ },
            "registry entry"@,
            "Save registry"@,
            id@,
            path,
        ),
    }
}

/// The edit that `action` makes to the registry; listing makes none. A new
/// entry starts enabled.
pub open spec fn configs_edit(action: ConfigsRegistryActions) -> Option<Edit<RegistryEntry>> {
    match action {
        ConfigsRegistryActions::List { .. } => None,
        ConfigsRegistryActions::Add { id, name, source, target, description } => Some(
            Edit::Add(
                id,
                RegistryEntry { name, source_path: source, target_path: target, enabled: true, description },
            ),
        ),
        ConfigsRegistryActions::Remove { id } => Some(Edit::Remove(id)),
        ConfigsRegistryActions::Toggle { id, enable } => Some(Edit::Toggle(id, enable)),
    }
}

impl ConfigsRegistryTask {
    /// A task for the given command-line arguments.
    pub fn new(args: ConfigsRegistryArgs) -> (r: Self)
        ensures
            r.args == args,
    {
        ConfigsRegistryTask { args }
    }

    /// The task's name.
    pub fn name(&self) -> (r: &'static str)
        ensures
            r@ == "Configs Registry"@,
    {
        "Configs Registry"
    }

    /// What the task would do to the registry file at `registry_path`.
    pub fn dry_run(&self, registry_path: &str) -> (r: Vec<PlannedOperation>)
        ensures
            ops_view(r@) == configs_plan(self.args.action, registry_path@),
    {
        match &self.args.action {
            ConfigsRegistryActions::List { .. } => list_ops("registry entries"),
            ConfigsRegistryActions::Add { id, name, source, target, .. } => {
                let mut detail = joined("Source: ", source.as_str(), ", Target: ");
                detail.append(target.as_str());
                add_ops("registry entry", "Save registry", name.as_str(), id.as_str(), detail, registry_path)
            },
            ConfigsRegistryActions::Remove { id } => remove_ops(
                "registry entry",
                "Save registry",
                id.as_str(),
                registry_path,
            ),
            ConfigsRegistryActions::Toggle { id, enable } => {
                let verb = if *enable {
                    "enable"
                } else {
                    "disable"
                };
                toggle_ops(verb, "registry entry", "Save registry", id.as_str(), registry_path)
            },
        }
    }

    /// The edit the task makes to a loaded registry, if any.
    pub fn edit(&self) -> (r: Option<Edit<RegistryEntry>>)
        ensures
            r == configs_edit(self.args.action),
    {
        match &self.args.action {
            ConfigsRegistryActions::List { .. } => None,
            ConfigsRegistryActions::Add { id, name, source, target, description } => Some(
                Edit::Add(
                    id.clone(),
                    RegistryEntry {
                        name: name.clone(),
                        source_path: source.clone(),
                        target_path: target.clone(),
                        enabled: true,
                        description: clone_opt_string(description),
                    },
                ),
            ),
            ConfigsRegistryActions::Remove { id } => Some(Edit::Remove(id.clone())),
            ConfigsRegistryActions::Toggle { id, enable } => Some(Edit::Toggle(id.clone(), *enable)),
        }
    }

    /// Makes the task's edit to a loaded registry; `None` when the action
    /// only lists, and the registry is then left as it was.
    pub fn apply(&self, registry: &mut ConfigsRegistry) -> (r: Option<EditOutcome<RegistryEntry>>)
        requires
            old(registry).wf(),
        ensures
            final(registry).wf(),
            match configs_edit(self.args.action) {
                None => r is None && final(registry).view() == old(registry).view(),
                Some(e) => r matches Some(out) && edit_applied(old(registry).view(), e, final(registry).view(), out),
            },
    {
        match self.edit() {
            None => None,
            Some(e) => Some(apply_edit(registry, e)),
        }
    }
}

/// The mark of an enabled or a disabled entry in a listing.
pub open spec fn status_mark(enabled: bool) -> Seq<char> {
    if enabled { "[x]"@ } else { "[ ]"@ }
}

/// The lines that list one entry: status, name and id, its two paths, its
/// description if it has one, and a blank line.
pub open spec fn entry_block(id: Seq<char>, e: RegistryEntry) -> Seq<Seq<char>> {
    seq![status_mark(e.enabled) + " "@ + e.name@ + " ("@ + id + ")"@, "    Source: "@ + e.source_path@, "    Target: "@ + e.target_path@]
        + match e.description {
        Some(d) => seq!["    "@ + d@],
        None => Seq::empty(),
    } + seq![Seq::empty()]
}

/// The blocks of the listed entries, the disabled ones left out when `enabled_only`.
pub open spec fn entry_blocks(s: Seq<(String, RegistryEntry)>, enabled_only: bool) -> Seq<Seq<char>>
    decreases s.len(),
{
    if s.len() == 0 {
        Seq::empty()
    } else if enabled_only && !s.last().1.enabled {
        entry_blocks(s.drop_last(), enabled_only)
    } else {
        entry_blocks(s.drop_last(), enabled_only) + entry_block(s.last().0@, s.last().1)
    }
}

/// The listing of the entries `s`: a heading, their blocks and a summary of
/// `total` entries of which `enabled` are enabled.
pub open spec fn registry_listing(s: Seq<(String, RegistryEntry)>, enabled_only: bool, total: nat, enabled: nat) -> Seq<
    Seq<char>,
> {
    seq!["Registry Entries"@, "================"@, Seq::empty()] + entry_blocks(s, enabled_only) + seq![
        "Summary: "@ + decimal(total) + " total entries, "@ + decimal(enabled) + " enabled"@,
    ]
}

/// The lines of [`entry_block`].
pub fn entry_lines(id: &str, e: &RegistryEntry) -> (r: Vec<String>)
    ensures
        strs_view(r@) == entry_block(id@, *e),
{
    let mut first = owned(if e.enabled { "[x]" } else { "[ ]" });
    first.append(" ");
    first.append(e.name.as_str());
    first.append(" (");
    first.append(id);
    first.append(")");
    let mut source = owned("    Source: ");
    source.append(e.source_path.as_str());
    let mut target = owned("    Target: ");
    target.append(e.target_path.as_str());
    let mut r = vec![first, source, target];
    match &e.description {
        Some(d) => {
            let mut line = owned("    ");
            line.append(d.as_str());
            r.push(line);
        },
        None => {},
    }
    r.push(String::new());
    proof {
        assert(strs_view(r@) =~= entry_block(id@, *e));
    }
    r
}

/// The listing of the registry, its entries in the order of their ids.
pub fn list_lines(registry: &ConfigsRegistry, enabled_only: bool) -> (r: Vec<String>)
    requires
        registry.wf(),
    ensures
        exists|s: Seq<(String, RegistryEntry)>|
            #[trigger] lists_in_id_order(s, registry.view()) && strs_view(r@) == registry_listing(
                s,
                enabled_only,
                registry.view().len(),
                enabled_count(s),
            ),
{
    let sorted = registry.sorted_by_id();
    let total = registry.len();
    let mut r = vec![owned("Registry Entries"), owned("================"), String::new()];
    let mut enabled: usize = 0;
    let mut i: usize = 0;
    proof {
        assert(sorted@.take(0) =~= Seq::<(String, RegistryEntry)>::empty());
        assert(strs_view(r@) =~= seq!["Registry Entries"@, "================"@, Seq::<char>::empty()] + entry_blocks(
            sorted@.take(0),
            enabled_only,
        ));
    }
    while i < sorted.len()
        invariant
            i <= sorted.len(),
            enabled == enabled_count(sorted@.take(i as int)),
            strs_view(r@) == seq!["Registry Entries"@, "================"@, Seq::<char>::empty()] + entry_blocks(
                sorted@.take(i as int),
                enabled_only,
            ),
        decreases sorted.len() - i,
    {
        proof {
            assert(sorted@.take(i + 1).drop_last() =~= sorted@.take(i as int));
            assert(sorted@.take(i + 1).last() == sorted@[i as int]);
            lemma_enabled_count_bound(sorted@.take(i as int));
        }
        let e = &sorted[i].1;
        if e.enabled {
            enabled = enabled + 1;
        }
        if !enabled_only || e.enabled {
            let block = entry_lines(sorted[i].0.as_str(), e);
            let ghost before = r@;
            let mut block = block;
            r.append(&mut block);
            proof {
                assert(strs_view(r@) =~= strs_view(before) + entry_block(sorted@[i as int].0@, sorted@[i as int].1));
            }
        }
        i = i + 1;
    }
    let mut summary = owned("Summary: ");
    summary.append(to_decimal(total as u128).as_str());
    summary.append(" total entries, ");
    summary.append(to_decimal(enabled as u128).as_str());
    summary.append(" enabled");
    let ghost before = r@;
    r.push(summary);
    proof {
        assert(sorted@.take(sorted.len() as int) =~= sorted@);
        assert(strs_view(r@) =~= strs_view(before).push(summary@));
        assert(strs_view(r@) == registry_listing(sorted@, enabled_only, registry.view().len(), enabled_count(sorted@)));
    }
    r
}

/// The task for the command-line arguments, and whether to run it dry.
pub fn run_with_args(args: ConfigsRegistryArgs) -> (r: TaskRun<ConfigsRegistryTask>)
    ensures
        r.task.args == args,
        r.dry_run == args.dry_run,
{
    let dry_run = args.dry_run;
    TaskRun { task: ConfigsRegistryTask::new(args), dry_run }
}

} // verus!
