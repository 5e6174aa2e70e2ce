//! Cleaning caches, logs, temporary files and the trash.
use vstd::prelude::*;
use crate::cli::{CleanArgs, TaskRun};
use crate::path::{components, file_name, join, path_components, path_file_name, path_join};
use crate::tasks::task_core::{PlannedOperation, ops_view};
use crate::text::{contains_seq, contains_str, owned};
use crate::utils::paths::SystemDirs;
use crate::utils::system::{CommandLookup, Platform, look_up_commands, looked_up};

verus! {

/// Removes cache, logs, trash and other temporary files.
#[derive(Debug, Clone)]
pub struct CleanTask {
    /// Also clean system-wide directories (which needs sudo).
    pub system: bool,
}

/// Which package managers are installed.
#[derive(Debug, Clone, Copy)]
pub struct PackageTools {
    pub brew: bool,
    pub npm: bool,
    pub pnpm: bool,
}

/// The commands of the package managers whose caches are cleaned, in the
/// order [`package_tools_from`] reads their lookups.
pub open spec fn package_tool_names() -> Seq<Seq<char>> {
    seq!["brew"@, "npm"@, "pnpm"@]
}

/// The commands of [`package_tool_names`].
pub fn package_tool_commands() -> (r: Vec<String>)
    ensures
        crate::path::views(r@) == package_tool_names(),
{
    let r = vec![owned("brew"), owned("npm"), owned("pnpm")];
    proof {
        assert(crate::path::views(r@) =~= package_tool_names());
    }
    r
}

/// Which package managers the lookups found, read in the order of
/// [`package_tool_names`].
pub open spec fn tools_of(lookups: Seq<CommandLookup>) -> PackageTools {
    PackageTools { brew: lookups[0].found, npm: lookups[1].found, pnpm: lookups[2].found }
}

/// Which package managers were found, given the lookups of
/// [`package_tool_names`] in that order.
pub fn package_tools_from(lookups: &Vec<CommandLookup>) -> (r: PackageTools)
    requires
        lookups@.len() == 3,
    ensures
        r == tools_of(lookups@),
{
    PackageTools { brew: lookups[0].found, npm: lookups[1].found, pnpm: lookups[2].found }
}

/// Looks up which package managers are installed: the commands of
/// [`package_tool_names`], each on the search path.
pub fn find_package_tools() -> (r: PackageTools)
    ensures
        exists|lookups: Seq<CommandLookup>| looked_up(lookups, package_tool_names()) && r == #[trigger] tools_of(lookups),
{
    let lookups = look_up_commands(&package_tool_commands());
    package_tools_from(&lookups)
}

/// The user directories cleaned on every run: the cache and temporary
/// directories, and on macOS the user logs and saved application state.
pub open spec fn user_dirs_spec(platform: Platform, cache: Seq<char>, temp: Seq<char>, home: Seq<char>) -> Seq<Seq<char>> {
    if platform == Platform::MacOs {
        seq![
            cache,
            temp,
            path_join(home, "Library/Logs"@),
            path_join(home, "Library/Saved Application State"@),
        ]
    } else {
        seq![cache, temp]
    }
}

/// The system directories cleaned with `--system` (besides volume trashes,
/// which are found on disk).
pub open spec fn system_dirs_spec(platform: Platform) -> Seq<Seq<char>> {
    match platform {
        Platform::MacOs => seq!["/Library/Caches"@, "/private/var/log"@, "/Library/Logs/DiagnosticReports"@],
        Platform::Linux => seq!["/var/log"@, "/var/cache"@, "/tmp"@],
        _ => seq![],
    }
}

/// The trash directories of the user whose contents are always removed.
pub open spec fn trash_dirs_spec(platform: Platform, home: Seq<char>) -> Seq<Seq<char>> {
    match platform {
        Platform::MacOs => seq![path_join(home, ".Trash"@)],
        Platform::Linux => seq![
            path_join(home, ".local/share/Trash/files"@),
            path_join(home, ".local/share/Trash/info"@),
        ],
        _ => seq![],
    }
}

/// What a dry run of the clean task lists.
pub open spec fn clean_plan(
    system: bool,
    platform: Platform,
    cache: Seq<char>,
    temp: Seq<char>,
    home: Seq<char>,
    tools: PackageTools,
) -> Seq<(Seq<char>, Option<Seq<char>>)> {
    let user = seq![("Clean user cache"@, Some(cache)), ("Clean temp directory"@, Some(temp))];
    let mac_user = if platform == Platform::MacOs {
        seq![
            ("Clean user logs"@, Some(path_join(home, "Library/Logs"@))),
            ("Clean saved application state"@, Some(path_join(home, "Library/Saved Application State"@))),
        ]
    } else {
        seq![]
    };
    let sys = if system && platform == Platform::MacOs {
        seq![("Clean system caches"@, Some("/Library/Caches"@)), ("Clean system logs"@, Some("/private/var/log"@))]
    } else if system && platform == Platform::Linux {
        seq![("Clean system logs"@, Some("/var/log"@)), ("Clean system cache"@, Some("/var/cache"@))]
    } else {
        seq![]
    };
    let brew = if tools.brew && (platform == Platform::MacOs || platform == Platform::Linux) {
        seq![("Run brew cleanup"@, None::<Seq<char>>)]
    } else {
        seq![]
    };
    let npm = if tools.npm {
        seq![("Clean npm cache"@, None::<Seq<char>>)]
    } else {
        seq![]
    };
    let pnpm = if tools.pnpm {
        seq![("Clean pnpm cache"@, None::<Seq<char>>)]
    } else {
        seq![]
    };
    user + mac_user + sys + brew + npm + pnpm + seq![("Empty trash"@, None::<Seq<char>>)]
}

/// The names that keep an entry from being cleaned when any part of its
/// path contains one of them.
pub open spec fn skip_patterns() -> Seq<Seq<char>> {
    seq![".X11-unix"@, "systemd-private"@, "asl"@, ".DS_Store"@]
}

/// Whether an entry is left alone: its file name or one of its path
/// components contains a skip pattern.
pub open spec fn should_skip_spec(path: Seq<char>) -> bool {
    exists|k: int|
        0 <= k < skip_patterns().len() && {
            ||| (file_name(path) matches Some(n) && contains_seq(n, #[trigger] skip_patterns()[k]))
            ||| exists|c: int| 0 <= c < components(path).len() && contains_seq(components(path)[c], skip_patterns()[k])
        }
}

/// What is known of an entry found in a directory being cleaned.
#[derive(Debug, Clone, Copy)]
pub struct EntryFacts {
    /// The entry still exists.
    pub exists: bool,
    /// Its metadata could be read (without following symlinks).
    pub has_metadata: bool,
    /// It is a symlink.
    pub is_symlink: bool,
    /// Seconds since it was last modified, when that time is known (zero
    /// for a time in the future).
    pub age_secs: Option<u64>,
}

/// A day, in seconds: entries modified more recently are kept.
pub const MIN_AGE_SECS: u64 = 86400;

/// Whether a found entry is removed: it exists, is not skipped, is not a
/// symlink and was not modified within the last day.
pub open spec fn should_clean_spec(path: Seq<char>, facts: EntryFacts) -> bool {
    &&& facts.exists
    &&& !should_skip_spec(path)
    &&& !(facts.has_metadata && facts.is_symlink)
    &&& !(facts.has_metadata && (facts.age_secs matches Some(a) && a < MIN_AGE_SECS))
}

/// What the cleaner removes: an entry that no longer exists, one whose name
/// or path mentions `.X11-unix`, `systemd-private`, `asl` or `.DS_Store`, a
/// symlink, and one modified less than a day (86400 seconds) ago are kept;
/// any other existing entry is removed, including one whose metadata could
/// not be read or whose age is unknown.
pub proof fn law_clean_entry(path: Seq<char>, facts: EntryFacts)
    ensures
        !facts.exists ==> !should_clean_spec(path, facts),
        facts.has_metadata && facts.is_symlink ==> !should_clean_spec(path, facts),
        facts.has_metadata && (facts.age_secs matches Some(a) && a < 86400) ==> !should_clean_spec(path, facts),
        should_skip_spec(path) ==> !should_clean_spec(path, facts),
        facts.exists && !should_skip_spec(path) && (!facts.has_metadata || (!facts.is_symlink && (
        facts.age_secs matches Some(a) ==> a >= 86400))) ==> should_clean_spec(path, facts),
        (file_name(path) matches Some(n) && (contains_seq(n, ".X11-unix"@) || contains_seq(n, "systemd-private"@)
            || contains_seq(n, "asl"@) || contains_seq(n, ".DS_Store"@))) ==> should_skip_spec(path),
        (exists|c: int|
            0 <= c < components(path).len() && (contains_seq(#[trigger] components(path)[c], ".X11-unix"@)
                || contains_seq(components(path)[c], "systemd-private"@) || contains_seq(
                components(path)[c],
                "asl"@,
            ) || contains_seq(components(path)[c], ".DS_Store"@))) ==> should_skip_spec(path),
{
    let ps = skip_patterns();
    if let Some(n) = file_name(path) {
        if contains_seq(n, ".X11-unix"@) {
            assert(contains_seq(n, ps[0]));
        } else if contains_seq(n, "systemd-private"@) {
            assert(contains_seq(n, ps[1]));
        } else if contains_seq(n, "asl"@) {
            assert(contains_seq(n, ps[2]));
        } else if contains_seq(n, ".DS_Store"@) {
            assert(contains_seq(n, ps[3]));
        }
    }
    if exists|c: int|
        0 <= c < components(path).len() && (contains_seq(#[trigger] components(path)[c], ".X11-unix"@)
            || contains_seq(components(path)[c], "systemd-private"@) || contains_seq(components(path)[c], "asl"@)
            || contains_seq(components(path)[c], ".DS_Store"@)) {
        let c = choose|c: int|
            0 <= c < components(path).len() && (contains_seq(#[trigger] components(path)[c], ".X11-unix"@)
                || contains_seq(components(path)[c], "systemd-private"@) || contains_seq(components(path)[c], "asl"@)
                || contains_seq(components(path)[c], ".DS_Store"@));
        let k: int = if contains_seq(components(path)[c], ".X11-unix"@) {
            0int
        } else if contains_seq(components(path)[c], "systemd-private"@) {
            1int
        } else if contains_seq(components(path)[c], "asl"@) {
            2int
        } else {
            3int
        };
        assert(contains_seq(components(path)[c], ps[k]));
        assert(0 <= k < ps.len());
    }
}

impl CleanTask {
    /// A clean task; `system` adds the system-wide directories.
    pub fn new(system: bool) -> (r: Self)
        ensures
            r.system == system,
    {
        CleanTask { system }
    }

    /// The task's name.
    pub fn name(&self) -> (r: &'static str)
        ensures
            r@ == "Clean"@,
    {
        "Clean"
    }

    /// What the task would do, given the user's directories, the temporary
    /// directory and the package managers found.
    pub fn dry_run_from(&self, platform: Platform, dirs: &SystemDirs, temp_dir: &str, tools: PackageTools) -> (r: Vec<
        PlannedOperation,
    >)
        ensures
            ops_view(r@) == clean_plan(self.system, platform, dirs.cache@, temp_dir@, dirs.home@, tools),
    {
        let mut ops: Vec<PlannedOperation> = Vec::new();
        ops.push(PlannedOperation::with_target("Clean user cache", dirs.cache.as_str()));
        ops.push(PlannedOperation::with_target("Clean temp directory", temp_dir));
        if platform == Platform::MacOs {
            ops.push(PlannedOperation::with_target("Clean user logs", join(dirs.home.as_str(), "Library/Logs")));
            ops.push(
                PlannedOperation::with_target(
                    "Clean saved application state",
                    join(dirs.home.as_str(), "Library/Saved Application State"),
                ),
            );
        }
        if self.system && platform == Platform::MacOs {
            ops.push(PlannedOperation::with_target("Clean system caches", "/Library/Caches"));
            ops.push(PlannedOperation::with_target("Clean system logs", "/private/var/log"));
        } else if self.system && platform == Platform::Linux {
            ops.push(PlannedOperation::with_target("Clean system logs", "/var/log"));
            ops.push(PlannedOperation::with_target("Clean system cache", "/var/cache"));
        }
        if tools.brew && (platform == Platform::MacOs || platform == Platform::Linux) {
            ops.push(PlannedOperation::new("Run brew cleanup"));
        }
        if tools.npm {
            ops.push(PlannedOperation::new("Clean npm cache"));
        }
        if tools.pnpm {
            ops.push(PlannedOperation::new("Clean pnpm cache"));
        }
        ops.push(PlannedOperation::new("Empty trash"));
        proof {
            assert(ops_view(ops@) =~= clean_plan(self.system, platform, dirs.cache@, temp_dir@, dirs.home@, tools));
        }
        ops
    }

    /// What the task would do, looking up the package managers of
    /// [`package_tool_names`] on the search path; the plan is that of
    /// [`CleanTask::dry_run_from`] for what was found.
    pub fn dry_run(&self, platform: Platform, dirs: &SystemDirs, temp_dir: &str) -> (r: Vec<PlannedOperation>)
        ensures
            exists|lookups: Seq<CommandLookup>|
                looked_up(lookups, package_tool_names()) && ops_view(r@) == #[trigger] clean_plan(
                    self.system,
                    platform,
                    dirs.cache@,
                    temp_dir@,
                    dirs.home@,
                    tools_of(lookups),
                ),
    {
        let tools = find_package_tools();
        self.dry_run_from(platform, dirs, temp_dir, tools)
    }
}

/// The user directories to clean.
pub fn user_dirs(platform: Platform, dirs: &SystemDirs, temp_dir: &str) -> (r: Vec<String>)
    ensures
        crate::path::views(r@) == user_dirs_spec(platform, dirs.cache@, temp_dir@, dirs.home@),
{
    let mut r: Vec<String> = Vec::new();
    r.push(dirs.cache.clone());
    r.push(owned(temp_dir));
    if platform == Platform::MacOs {
        r.push(join(dirs.home.as_str(), "Library/Logs"));
        r.push(join(dirs.home.as_str(), "Library/Saved Application State"));
    }
    proof {
        assert(crate::path::views(r@) =~= user_dirs_spec(platform, dirs.cache@, temp_dir@, dirs.home@));
    }
    r
}

/// The system directories to clean with `--system`.
pub fn system_dirs(platform: Platform) -> (r: Vec<String>)
    ensures
        crate::path::views(r@) == system_dirs_spec(platform),
{
    let r = match platform {
        Platform::MacOs => vec![
            owned("/Library/Caches"),
            owned("/private/var/log"),
            owned("/Library/Logs/DiagnosticReports"),
        ],
        Platform::Linux => vec![owned("/var/log"), owned("/var/cache"), owned("/tmp")],
        _ => Vec::new(),
    };
    proof {
        assert(crate::path::views(r@) =~= system_dirs_spec(platform));
    }
    r
}

/// The trash directories to empty.
pub fn trash_dirs(platform: Platform, home: &str) -> (r: Vec<String>)
    ensures
        crate::path::views(r@) == trash_dirs_spec(platform, home@),
{
    let r = match platform {
        Platform::MacOs => vec![join(home, ".Trash")],
        Platform::Linux => vec![join(home, ".local/share/Trash/files"), join(home, ".local/share/Trash/info")],
        _ => Vec::new(),
    };
    proof {
        assert(crate::path::views(r@) =~= trash_dirs_spec(platform, home@));
    }
    r
}

/// The trash folders of external volumes on macOS, emptied with the user's trash.
pub const VOLUME_TRASHES_PATTERN: &'static str = "/Volumes/*/.Trashes/*";

/// The Finder script that empties the trash on macOS.
pub const FINDER_EMPTY_TRASH: &'static str = "
                tell application \"Finder\"
                    empty trash
                end tell
            ";

/// The commands run after the trash folders are emptied: on macOS the
/// Finder script when `osascript` is there, on Windows the recycle bin.
pub open spec fn empty_trash_commands_spec(platform: Platform, has_osascript: bool) -> Seq<Seq<Seq<char>>> {
    match platform {
        Platform::MacOs => if has_osascript {
            seq![seq!["osascript"@, "-e"@, FINDER_EMPTY_TRASH@]]
        } else {
            seq![]
        },
        Platform::Windows => seq![seq!["powershell"@, "-Command"@, "Clear-RecycleBin -Force"@]],
        _ => seq![],
    }
}

/// The commands of [`empty_trash_commands_spec`].
pub fn empty_trash_commands(platform: Platform, has_osascript: bool) -> (r: Vec<Vec<String>>)
    ensures
        r@.map_values(|c: Vec<String>| crate::path::views(c@)) == empty_trash_commands_spec(platform, has_osascript),
{
    let r: Vec<Vec<String>> = match platform {
        Platform::MacOs => if has_osascript {
            vec![vec![owned("osascript"), owned("-e"), owned(FINDER_EMPTY_TRASH)]]
        } else {
            Vec::new()
        },
        Platform::Windows => vec![vec![owned("powershell"), owned("-Command"), owned("Clear-RecycleBin -Force")]],
        _ => Vec::new(),
    };
    proof {
        if r@.len() > 0 {
            assert(crate::path::views(r@[0]@) =~= empty_trash_commands_spec(platform, has_osascript)[0]);
        }
        assert(r@.map_values(|c: Vec<String>| crate::path::views(c@)) =~= empty_trash_commands_spec(platform, has_osascript));
    }
    r
}

fn skip_pattern(k: usize) -> (r: &'static str)
    requires
        k < 4,
    ensures
        r@ == skip_patterns()[k as int],
{
    if k == 0 {
        ".X11-unix"
    } else if k == 1 {
        "systemd-private"
    } else if k == 2 {
        "asl"
    } else {
        ".DS_Store"
    }
}

/// Whether a path is left alone when cleaning (see [`should_skip_spec`]).
pub fn should_skip(path: &str) -> (r: bool)
    ensures
        r == should_skip_spec(path@),
{
    let name = path_file_name(path);
    let comps = path_components(path);
    let mut k: usize = 0;
    while k < 4
        invariant
            k <= 4,
            crate::path::views(comps@) == components(path@),
            match name { Some(n) => file_name(path@) == Some(n@), None => file_name(path@) is None },
            forall|j: int|
                0 <= j < k ==> !({
                    ||| (file_name(path@) matches Some(n) && contains_seq(n, #[trigger] skip_patterns()[j]))
                    ||| exists|c: int|
                        0 <= c < components(path@).len() && contains_seq(components(path@)[c], skip_patterns()[j])
                }),
        decreases 4 - k,
    {
        let pat = skip_pattern(k);
        let in_name = match &name {
            Some(n) => contains_str(n.as_str(), pat),
            None => false,
        };
        if in_name {
            proof {
                assert(file_name(path@) matches Some(n) && contains_seq(n, skip_patterns()[k as int]));
            }
            return true;
        }
        let mut c: usize = 0;
        while c < comps.len()
            invariant
                k < 4,
                c <= comps.len(),
                crate::path::views(comps@) == components(path@),
                pat@ == skip_patterns()[k as int],
                forall|d: int| 0 <= d < c ==> !contains_seq(components(path@)[d], pat@),
            decreases comps.len() - c,
        {
            if contains_str(comps[c].as_str(), pat) {
                proof {
                    assert(components(path@)[c as int] == comps@[c as int]@);
                    assert(contains_seq(components(path@)[c as int], skip_patterns()[k as int]));
                }
                return true;
            }
            proof {
                assert(components(path@)[c as int] == comps@[c as int]@);
            }
            c = c + 1;
        }
        k = k + 1;
    }
    false
}

/// Whether a found entry is removed (see [`should_clean_spec`]).
pub fn should_clean(path: &str, facts: EntryFacts) -> (r: bool)
    ensures
        r == should_clean_spec(path@, facts),
{
    if !facts.exists {
        return false;
    }
    if should_skip(path) {
        return false;
    }
    if facts.has_metadata {
        if facts.is_symlink {
            return false;
        }
        match facts.age_secs {
            Some(a) => {
                if a < MIN_AGE_SECS {
                    return false;
                }
            },
            None => {},
        }
    }
    true
}

/// The name shown for an entry: its file name, or a placeholder for a path
/// without one.
pub open spec fn entry_label(path: Seq<char>) -> Seq<char> {
    match file_name(path) {
        Some(n) => n,
        None => "<invalid-utf8>"@,
    }
}

/// The line a dry run prints for an entry it would delete.
pub fn would_delete_line(path: &str, size_text: &str) -> (r: String)
    ensures
        r@ == "   [DRY RUN] Would delete: "@ + entry_label(path@) + " ("@ + size_text@ + ")"@,
{
    let mut s = owned("   [DRY RUN] Would delete: ");
    match path_file_name(path) {
        Some(n) => s.append(n.as_str()),
        None => s.append("<invalid-utf8>"),
    }
    s.append(" (");
    s.append(size_text);
    s.append(")");
    s
}

/// The task for the command-line arguments, and whether to run it dry.
pub fn run_with_args(args: CleanArgs) -> (r: TaskRun<CleanTask>)
    ensures
        r.task.system == args.system,
        r.dry_run == args.dry_run,
{
    TaskRun { task: CleanTask::new(args.system), dry_run: args.dry_run }
}

} // verus!
