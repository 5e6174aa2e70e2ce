//! Managing the registry of package managers from the command line.
use vstd::prelude::*;
use crate::cli::{PackageRegistryActions, PackageRegistryArgs, TaskRun};
use crate::registries::{Edit, EditOutcome, apply_edit, edit_applied, enabled_count, lemma_enabled_count_bound};
use crate::registries::package_registry::{PackageManagerEntry, PackageRegistry, contains_platform, is_compatible, supports_platform};
use crate::tasks::edits::{add_ops, add_plan, joined, list_ops, list_plan, remove_ops, remove_plan, toggle_ops, toggle_plan};
use crate::tasks::task_core::{PlannedOperation, ops_view};
use crate::text::{clone_opt_string, comma_list, decimal, owned, parse_comma_list, strs_view, to_decimal};
use crate::tasks::validate::{join_strings, join_with};
use crate::path::views;

verus! {

/// Lists, adds, removes or switches entries of the package manager registry.
#[derive(Debug, Clone)]
pub struct PackageRegistryTask {
    pub args: PackageRegistryArgs,
}

/// What a dry run of `action` plans, for the registry file at `path`.
pub open spec fn package_plan(action: PackageRegistryActions, path: Seq<char>) -> Seq<(Seq<char>, Option<Seq<char>>)> {
    match action {
        PackageRegistryActions::List { .. } => list_plan("package registry entries"@),
        PackageRegistryActions::Add { id, name, command, output_file, .. } => add_plan(
            "package manager entry"@,
            "Save package registry"@,
            name@,
            id@,
            "Command: "@ + command@ + ", Output: "@ + output_file@,
            path,
        ),
        PackageRegistryActions::Remove { id } => remove_plan("package manager entry"@, "Save package registry"@, id@, path),
        PackageRegistryActions::Toggle { id, enable } => toggle_plan(
            if enable { "enable"@ } else { "disable"@ },
            "package manager entry"@,
            "Save package registry"@,
            id@,
            path,
        ),
    }
}

/// `e` is the entry that adding with these arguments builds: enabled, with
/// the arguments and platforms read as comma-separated lists.
pub open spec fn built_entry(
    e: PackageManagerEntry,
    name: String,
    command: String,
    args: String,
    output_file: String,
    description: Option<String>,
    platforms: Option<String>,
) -> bool {
    &&& e.name == name
    &&& e.command == command
    &&& strs_view(e.args@) == comma_list(args@)
    &&& e.output_file == output_file
    &&& e.enabled
    &&& e.description == description
    &&& match (e.platforms, platforms) {
        (None, None) => true,
        (Some(ps), Some(p)) => strs_view(ps@) == comma_list(p@),
        _ => false,
    }
}

impl PackageRegistryTask {
    /// A task for the given command-line arguments.
    pub fn new(args: PackageRegistryArgs) -> (r: Self)
        ensures
            r.args == args,
    {
        PackageRegistryTask { args }
    }

    /// The task's name.
    pub fn name(&self) -> (r: &'static str)
        ensures
            r@ == "Package Registry"@,
    {
        "Package Registry"
    }

    /// What the task would do to the registry file at `registry_path`.
    pub fn dry_run(&self, registry_path: &str) -> (r: Vec<PlannedOperation>)
        ensures
            ops_view(r@) == package_plan(self.args.action, registry_path@),
    {
        match &self.args.action {
            PackageRegistryActions::List { .. } => list_ops("package registry entries"),
            PackageRegistryActions::Add { id, name, command, output_file, .. } => {
                let mut detail = joined("Command: ", command.as_str(), ", Output: ");
                detail.append(output_file.as_str());
                add_ops("package manager entry", "Save package registry", name.as_str(), id.as_str(), detail, registry_path)
            },
            PackageRegistryActions::Remove { id } => remove_ops(
                "package manager entry",
                "Save package registry",
                id.as_str(),
                registry_path,
            ),
            PackageRegistryActions::Toggle { id, enable } => {
                let verb = if *enable {
                    "enable"
                } else {
                    "disable"
                };
                toggle_ops(verb, "package manager entry", "Save package registry", id.as_str(), registry_path)
            },
        }
    }

    /// The edit the task makes to a loaded registry, if any.
    pub fn edit(&self) -> (r: Option<Edit<PackageManagerEntry>>)
        ensures
            match self.args.action {
                PackageRegistryActions::List { .. } => r is None,
                PackageRegistryActions::Add { id, name, command, args, output_file, description, platforms } => {
                    &&& r matches Some(Edit::Add(i, e))
                    &&& i == id
                    &&& built_entry(e, name, command, args, output_file, description, platforms)
                },
                PackageRegistryActions::Remove { id } => r == Some(Edit::<PackageManagerEntry>::Remove(id)),
                PackageRegistryActions::Toggle { id, enable } => r == Some(
                    Edit::<PackageManagerEntry>::Toggle(id, enable),
                ),
            },
    {
        match &self.args.action {
            PackageRegistryActions::List { .. } => None,
            PackageRegistryActions::Add { id, name, command, args, output_file, description, platforms } => {
                let platforms = match platforms {
                    Some(p) => Some(parse_comma_list(p.as_str())),
                    None => None,
                };
                Some(
                    Edit::Add(
                        id.clone(),
                        PackageManagerEntry {
                            name: name.clone(),
                            command: command.clone(),
                            args: parse_comma_list(args.as_str()),
                            output_file: output_file.clone(),
                            enabled: true,
                            description: clone_opt_string(description),
                            platforms,
                        },
                    ),
                )
            },
            PackageRegistryActions::Remove { id } => Some(Edit::Remove(id.clone())),
            PackageRegistryActions::Toggle { id, enable } => Some(Edit::Toggle(id.clone(), *enable)),
        }
    }

    /// Makes the task's edit to a loaded registry; `None` when the action
    /// only lists, and the registry is then left as it was.
    pub fn apply(&self, registry: &mut PackageRegistry) -> (r: Option<EditOutcome<PackageManagerEntry>>)
        requires
            old(registry).wf(),
        ensures
            final(registry).wf(),
            match self.args.action {
                PackageRegistryActions::List { .. } => r is None && final(registry).view() == old(registry).view(),
                PackageRegistryActions::Add { id, name, command, args, output_file, description, platforms } => {
                    &&& r matches Some(out)
                    &&& old(registry).view().contains_key(id@) ==> out is AlreadyExists && final(registry).view()
                        == old(registry).view()
                    &&& !old(registry).view().contains_key(id@) ==> {
                        &&& out is Added
                        &&& final(registry).view().contains_key(id@)
                        &&& final(registry).view() == old(registry).view().insert(id@, final(registry).view()[id@])
                        &&& built_entry(
                            final(registry).view()[id@],
                            name,
                            command,
                            args,
                            output_file,
                            description,
                            platforms,
                        )
                    }
                },
                PackageRegistryActions::Remove { id } => r matches Some(out) && edit_applied(
                    old(registry).view(),
                    Edit::Remove(id),
                    final(registry).view(),
                    out,
                ),
                PackageRegistryActions::Toggle { id, enable } => r matches Some(out) && edit_applied(
                    old(registry).view(),
                    Edit::Toggle(id, enable),
                    final(registry).view(),
                    out,
                ),
            },
    {
        match self.edit() {
            None => None,
            Some(e) => Some(apply_edit(registry, e)),
        }
    }
}

/// Whether a listing shows the entry: only compatible ones with
/// `platform_only`, only enabled ones with `enabled_only`.
pub open spec fn is_shown(e: PackageManagerEntry, enabled_only: bool, platform_only: bool, platform: Seq<char>) -> bool {
    (!platform_only || is_compatible(e, platform)) && (!enabled_only || e.enabled)
}

/// The entries a listing shows, in registry order.
pub open spec fn shown_packages(
    s: Seq<(String, PackageManagerEntry)>,
    enabled_only: bool,
    platform_only: bool,
    platform: Seq<char>,
) -> Seq<(String, PackageManagerEntry)>
    decreases s.len(),
{
    if s.len() == 0 {
        Seq::empty()
    } else if is_shown(s.last().1, enabled_only, platform_only, platform) {
        shown_packages(s.drop_last(), enabled_only, platform_only, platform).push(s.last())
    } else {
        shown_packages(s.drop_last(), enabled_only, platform_only, platform)
    }
}

/// What a listing says of an entry's platforms, seen from `platform`.
pub open spec fn platforms_info(e: PackageManagerEntry, platform: Seq<char>) -> Seq<char> {
    match e.platforms {
        Some(ps) => if supports_platform(e, platform) {
            " ("@ + join_with(views(ps@), ", "@) + ")"@
        } else {
            " ("@ + join_with(views(ps@), ", "@) + ") [INCOMPATIBLE]"@
        },
        None => " (all platforms)"@,
    }
}

/// The lines that list one package manager: status, name and id, its
/// command line, its output file, its description if it has one, its
/// platforms, and a blank line.
pub open spec fn package_block(id: Seq<char>, e: PackageManagerEntry, platform: Seq<char>) -> Seq<Seq<char>> {
    seq![
        (if e.enabled { "\u{2705}"@ } else { "\u{274c}"@ }) + " "@ + e.name@ + " ("@ + id + ")"@,
        "   Command: "@ + e.command@ + " "@ + join_with(views(e.args@), " "@),
        "   Output: "@ + e.output_file@,
    ] + match e.description {
        Some(d) => seq!["   Description: "@ + d@],
        None => Seq::empty(),
    } + seq!["   Platforms:"@ + platforms_info(e, platform), Seq::empty()]
}

/// The blocks of the entries `s`.
pub open spec fn package_blocks(s: Seq<(String, PackageManagerEntry)>, platform: Seq<char>) -> Seq<Seq<char>>
    decreases s.len(),
{
    if s.len() == 0 {
        Seq::empty()
    } else {
        package_blocks(s.drop_last(), platform) + package_block(s.last().0@, s.last().1, platform)
    }
}

/// The heading of a package listing.
pub open spec fn package_heading() -> Seq<Seq<char>> {
    seq!["\u{1f4e6} Package Manager Registry"@, "==========================="@]
}

/// The listing of the entries `s` (in registry order) on `platform`: a
/// heading, then either a note that nothing is shown, or the platform, the
/// blocks of the shown entries and the numbers of entries and enabled ones.
pub open spec fn package_listing(
    s: Seq<(String, PackageManagerEntry)>,
    enabled_only: bool,
    platform_only: bool,
    platform: Seq<char>,
) -> Seq<Seq<char>> {
    let shown = shown_packages(s, enabled_only, platform_only, platform);
    if shown.len() == 0 {
        package_heading().push("No package manager entries found."@)
    } else {
        package_heading() + seq!["Current platform: "@ + platform, Seq::empty()] + package_blocks(shown, platform) + seq![
            "Total entries: "@ + decimal(s.len()) + " (enabled: "@ + decimal(enabled_count(s)) + ")"@,
        ]
    }
}

/// The lines of [`package_block`].
pub fn package_lines(id: &str, e: &PackageManagerEntry, platform: &str) -> (r: Vec<String>)
    ensures
        strs_view(r@) == package_block(id@, *e, platform@),
{
    let mut first = owned(if e.enabled { "\u{2705}" } else { "\u{274c}" });
    first.append(" ");
    first.append(e.name.as_str());
    first.append(" (");
    first.append(id);
    first.append(")");
    let mut command = owned("   Command: ");
    command.append(e.command.as_str());
    command.append(" ");
    command.append(join_strings(&e.args, " ").as_str());
    let mut output = owned("   Output: ");
    output.append(e.output_file.as_str());
    let mut r = vec![first, command, output];
    match &e.description {
        Some(d) => {
            let mut line = owned("   Description: ");
            line.append(d.as_str());
            r.push(line);
        },
        None => {},
    }
    let mut platforms = owned("   Platforms:");
    match &e.platforms {
        Some(ps) => {
            platforms.append(" (");
            platforms.append(join_strings(ps, ", ").as_str());
            if contains_platform(ps, platform) {
                platforms.append(")");
            } else {
                platforms.append(") [INCOMPATIBLE]");
            }
        },
        None => platforms.append(" (all platforms)"),
    }
    assert(platforms@ == "   Platforms:"@ + platforms_info(*e, platform@));
    let ghost r0 = r@;
    r.push(platforms);
    r.push(String::new());
    proof {
        assert(strs_view(r0) =~= seq![
            (if e.enabled { "\u{2705}"@ } else { "\u{274c}"@ }) + " "@ + e.name@ + " ("@ + id@ + ")"@,
            "   Command: "@ + e.command@ + " "@ + join_with(views(e.args@), " "@),
            "   Output: "@ + e.output_file@,
        ] + match e.description {
            Some(d) => seq!["   Description: "@ + d@],
            None => Seq::empty(),
        });
        assert(strs_view(r@) =~= package_block(id@, *e, platform@));
    }
    r
}

/// The listing of the registry on `platform`, in registry order.
pub fn list_lines(registry: &PackageRegistry, enabled_only: bool, platform_only: bool, platform: &str) -> (r: Vec<String>)
    requires
        registry.wf(),
    ensures
        strs_view(r@) == package_listing(registry.pairs(), enabled_only, platform_only, platform@),
{
    let entries = registry.entries();
    let mut blocks: Vec<String> = Vec::new();
    let mut shown: usize = 0;
    let mut enabled: usize = 0;
    let mut i: usize = 0;
    proof {
        assert(entries@.take(0) =~= Seq::<(String, PackageManagerEntry)>::empty());
    }
    while i < entries.len()
        invariant
            i <= entries.len(),
            entries@ == registry.pairs(),
            enabled == enabled_count(entries@.take(i as int)),
            shown == shown_packages(entries@.take(i as int), enabled_only, platform_only, platform@).len(),
            shown <= i,
            strs_view(blocks@) == package_blocks(
                shown_packages(entries@.take(i as int), enabled_only, platform_only, platform@),
                platform@,
            ),
        decreases entries.len() - i,
    {
        proof {
            assert(entries@.take(i + 1).drop_last() =~= entries@.take(i as int));
            assert(entries@.take(i + 1).last() == entries@[i as int]);
            lemma_enabled_count_bound(entries@.take(i as int));
        }
        let e = &entries[i].1;
        if e.enabled {
            enabled = enabled + 1;
        }
        let compatible = e.enabled && match &e.platforms {
            None => true,
            Some(ps) => contains_platform(ps, platform),
        };
        if (!platform_only || compatible) && (!enabled_only || e.enabled) {
            let mut block = package_lines(entries[i].0.as_str(), e, platform);
            let ghost before = blocks@;
            blocks.append(&mut block);
            shown = shown + 1;
            proof {
                let sh = shown_packages(entries@.take(i as int), enabled_only, platform_only, platform@);
                assert(shown_packages(entries@.take(i + 1), enabled_only, platform_only, platform@) == sh.push(entries@[i as int]));
                assert(sh.push(entries@[i as int]).drop_last() =~= sh);
                assert(strs_view(blocks@) =~= strs_view(before) + package_block(entries@[i as int].0@, entries@[i as int].1, platform@));
            }
        }
        i = i + 1;
    }
    proof {
        assert(entries@.take(entries.len() as int) =~= entries@);
    }
    let mut r = vec![owned("\u{1f4e6} Package Manager Registry"), owned("===========================")];
    if shown == 0 {
        r.push(owned("No package manager entries found."));
        proof {
            assert(strs_view(r@) =~= package_listing(registry.pairs(), enabled_only, platform_only, platform@));
        }
        return r;
    }
    let mut current = owned("Current platform: ");
    current.append(platform);
    r.push(current);
    r.push(String::new());
    r.append(&mut blocks);
    let mut total = owned("Total entries: ");
    total.append(to_decimal(entries.len() as u128).as_str());
    total.append(" (enabled: ");
    total.append(to_decimal(enabled as u128).as_str());
    total.append(")");
    r.push(total);
    proof {
        assert(strs_view(r@) =~= package_listing(registry.pairs(), enabled_only, platform_only, platform@));
    }
    r
}

/// The task for the command-line arguments, and whether to run it dry.
pub fn run_with_args(args: PackageRegistryArgs) -> (r: TaskRun<PackageRegistryTask>)
    ensures
        r.task.args == args,
        r.dry_run == args.dry_run,
{
    let dry_run = args.dry_run;
    TaskRun { task: PackageRegistryTask::new(args), dry_run }
}

} // verus!
