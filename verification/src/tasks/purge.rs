//! Purging launch agents, services and startup programs.
use vstd::prelude::*;
use crate::cli::{PurgeArgs, TaskRun};
use crate::path::{components, extension, file_name, join, path_components, path_extension, path_file_name, path_join};
use crate::tasks::task_core::{PlannedOperation, ops_view};
use crate::text::{ends_with_str, find_key_value, has_suffix, key_value_spec, owned, str_eq, substring, trim, trim_spec};
use crate::utils::paths::SystemDirs;
use crate::utils::system::Platform;

verus! {

/// Removes system services and startup programs that the user picks.
#[derive(Debug, Clone)]
pub struct PurgeTask {
    /// Also list system-wide services (which needs sudo to remove).
    pub system: bool,
}

/// A directory scanned for service files.
#[derive(Debug, Clone)]
pub struct DirectoryTarget {
    pub name: String,
    pub path: String,
    pub is_system: bool,
}

/// The kinds of service files.
#[derive(Debug, Clone, Copy, PartialEq, Eq, Structural)]
pub enum ServiceType {
    Plist,
    SystemdService,
    AutostartDesktop,
    WindowsService,
    StartupProgram,
}

/// A service file found in a scanned directory.
#[derive(Debug, Clone)]
pub struct ServiceFile {
    pub display_label: String,
    pub path: String,
    pub is_system: bool,
    pub service_type: ServiceType,
}

/// The view of a directory target: name, path and whether it is system-wide.
pub open spec fn target_view(t: DirectoryTarget) -> (Seq<char>, Seq<char>, bool) {
    (t.name@, t.path@, t.is_system)
}

/// The directories scanned on `platform`: the user's, and with
/// `include_system` the system-wide ones.
pub open spec fn directory_targets(platform: Platform, include_system: bool, home: Seq<char>, config: Seq<char>) -> Seq<
    (Seq<char>, Seq<char>, bool),
> {
    match platform {
        Platform::MacOs => {
            let user = seq![("User LaunchAgents"@, path_join(home, "Library/LaunchAgents"@), false)];
            if include_system {
                user + seq![
                    ("System LaunchAgents"@, "/Library/LaunchAgents"@, true),
                    ("System LaunchDaemons"@, "/Library/LaunchDaemons"@, true),
                ]
            } else {
                user
            }
        },
        Platform::Linux => {
            let user = seq![
                ("User Systemd Services"@, path_join(config, "systemd/user"@), false),
                ("User Autostart"@, path_join(config, "autostart"@), false),
            ];
            if include_system {
                user + seq![
                    ("System Systemd Services"@, "/etc/systemd/system"@, true),
                    ("System Systemd Services (lib)"@, "/lib/systemd/system"@, true),
                ]
            } else {
                user
            }
        },
        _ => seq![],
    }
}

/// The directory targets for `platform` (see [`directory_targets`]).
pub fn get_directory_targets(platform: Platform, include_system: bool, dirs: &SystemDirs) -> (r: Vec<DirectoryTarget>)
    ensures
        r@.map_values(|t: DirectoryTarget| target_view(t)) == directory_targets(
            platform,
            include_system,
            dirs.home@,
            dirs.config@,
        ),
{
    let mut r: Vec<DirectoryTarget> = Vec::new();
    match platform {
        Platform::MacOs => {
            r.push(
                DirectoryTarget {
                    name: owned("User LaunchAgents"),
                    path: join(dirs.home.as_str(), "Library/LaunchAgents"),
                    is_system: false,
                },
            );
            if include_system {
                r.push(
                    DirectoryTarget {
                        name: owned("System LaunchAgents"),
                        path: owned("/Library/LaunchAgents"),
                        is_system: true,
                    },
                );
                r.push(
                    DirectoryTarget {
                        name: owned("System LaunchDaemons"),
                        path: owned("/Library/LaunchDaemons"),
                        is_system: true,
                    },
                );
            }
        },
        Platform::Linux => {
            r.push(
                DirectoryTarget {
                    name: owned("User Systemd Services"),
                    path: join(dirs.config.as_str(), "systemd/user"),
                    is_system: false,
                },
            );
            r.push(
                DirectoryTarget {
                    name: owned("User Autostart"),
                    path: join(dirs.config.as_str(), "autostart"),
                    is_system: false,
                },
            );
            if include_system {
                r.push(
                    DirectoryTarget {
                        name: owned("System Systemd Services"),
                        path: owned("/etc/systemd/system"),
                        is_system: true,
                    },
                );
                r.push(
                    DirectoryTarget {
                        name: owned("System Systemd Services (lib)"),
                        path: owned("/lib/systemd/system"),
                        is_system: true,
                    },
                );
            }
        },
        _ => {},
    }
    proof {
        assert(r@.map_values(|t: DirectoryTarget| target_view(t)) =~= directory_targets(
            platform,
            include_system,
            dirs.home@,
            dirs.config@,
        ));
    }
    r
}

/// What a service file is, and whether it is listed: on macOS `.plist`
/// files; on Linux unit files (`.service`, `.timer`, `.socket`) and
/// `.desktop` files under an `autostart` directory; nothing on Windows.
pub open spec fn service_type_of(platform: Platform, service_path: Seq<char>, target_path: Seq<char>) -> (ServiceType, bool) {
    let ext = extension(service_path);
    match platform {
        Platform::MacOs => (ServiceType::Plist, ext == Some("plist"@)),
        Platform::Linux => if ext == Some("service"@) || ext == Some("timer"@) || ext == Some("socket"@) {
            (ServiceType::SystemdService, true)
        } else if ext == Some("desktop"@) && components(target_path).contains("autostart"@) {
            (ServiceType::AutostartDesktop, true)
        } else {
            (ServiceType::SystemdService, false)
        },
        _ => (ServiceType::WindowsService, false),
    }
}

/// Which files are listed: on macOS exactly the `.plist` files; on Linux
/// exactly the `.service`, `.timer` and `.socket` units (as systemd
/// services) and the `.desktop` files of an `autostart` directory (as
/// autostart entries); on other platforms none of the scanned files.
pub proof fn law_listed_services(platform: Platform, service_path: Seq<char>, target_path: Seq<char>)
    ensures
        platform == Platform::MacOs ==> service_type_of(platform, service_path, target_path) == (
            ServiceType::Plist,
            extension(service_path) == Some("plist"@),
        ),
        platform == Platform::Linux ==> (service_type_of(platform, service_path, target_path).1 <==> (
        extension(service_path) == Some("service"@) || extension(service_path) == Some("timer"@) || extension(
            service_path,
        ) == Some("socket"@) || (extension(service_path) == Some("desktop"@) && components(target_path).contains(
            "autostart"@,
        )))),
        platform == Platform::Linux && (extension(service_path) == Some("service"@) || extension(service_path) == Some(
            "timer"@,
        ) || extension(service_path) == Some("socket"@)) ==> service_type_of(platform, service_path, target_path).0
            == ServiceType::SystemdService,
        platform == Platform::Linux && extension(service_path) == Some("desktop"@) && components(target_path).contains(
            "autostart"@,
        ) ==> service_type_of(platform, service_path, target_path).0 == ServiceType::AutostartDesktop,
        platform != Platform::MacOs && platform != Platform::Linux ==> !service_type_of(
            platform,
            service_path,
            target_path,
        ).1,
{
    reveal_strlit("desktop");
    reveal_strlit("service");
    reveal_strlit("timer");
    reveal_strlit("socket");
    assert("desktop"@ != "service"@) by {
        assert("desktop"@[0] != "service"@[0]);
    }
    assert("desktop"@ != "timer"@) by {
        assert("desktop"@.len() != "timer"@.len());
    }
    assert("desktop"@ != "socket"@) by {
        assert("desktop"@.len() != "socket"@.len());
    }
}

fn is_extension(ext: &Option<String>, name: &str) -> (r: bool)
    ensures
        r == (match *ext { Some(e) => e@ == name@, None => false }),
{
    match ext {
        Some(e) => str_eq(e.as_str(), name),
        None => false,
    }
}

fn has_component(path: &str, name: &str) -> (r: bool)
    ensures
        r == components(path@).contains(name@),
{
    let comps = path_components(path);
    let mut i: usize = 0;
    while i < comps.len()
        invariant
            i <= comps.len(),
            crate::path::views(comps@) == components(path@),
            forall|j: int| 0 <= j < i ==> components(path@)[j] != name@,
        decreases comps.len() - i,
    {
        proof {
            assert(components(path@)[i as int] == comps@[i as int]@);
        }
        if str_eq(comps[i].as_str(), name) {
            return true;
        }
        i = i + 1;
    }
    false
}

/// The kind of a service file and whether it is listed (see [`service_type_of`]).
pub fn determine_service_type(platform: Platform, service_path: &str, target: &DirectoryTarget) -> (r: (ServiceType, bool))
    ensures
        r == service_type_of(platform, service_path@, target.path@),
{
    let ext = path_extension(service_path);
    proof {
        reveal_strlit("plist");
        reveal_strlit("service");
        reveal_strlit("timer");
        reveal_strlit("socket");
        reveal_strlit("desktop");
    }
    match platform {
        Platform::MacOs => (ServiceType::Plist, is_extension(&ext, "plist")),
        Platform::Linux => {
            if is_extension(&ext, "service") || is_extension(&ext, "timer") || is_extension(&ext, "socket") {
                (ServiceType::SystemdService, true)
            } else if is_extension(&ext, "desktop") && has_component(target.path.as_str(), "autostart") {
                (ServiceType::AutostartDesktop, true)
            } else {
                (ServiceType::SystemdService, false)
            }
        },
        _ => (ServiceType::WindowsService, false),
    }
}

/// The file name of a path, or `fallback` when it has none.
pub open spec fn name_or(path: Seq<char>, fallback: Seq<char>) -> Seq<char> {
    match file_name(path) {
        Some(n) => n,
        None => fallback,
    }
}

/// The name of an autostart entry: its file name without `.desktop`, or
/// `unknown` when it has no such name.
pub open spec fn desktop_app_name(path: Seq<char>) -> Seq<char> {
    match file_name(path) {
        Some(n) => if has_suffix(n, ".desktop"@) {
            n.subrange(0, n.len() - ".desktop"@.len())
        } else {
            "unknown"@
        },
        None => "unknown"@,
    }
}

/// The label shown for a service file in group `group`. `detail` is what
/// was read for it: for a plist the output of `defaults read <file> Label`,
/// for a unit or desktop file its contents; `None` when that failed.
pub open spec fn display_label(group: Seq<char>, path: Seq<char>, stype: ServiceType, detail: Option<Seq<char>>) -> Seq<char> {
    let head = "["@ + group + "] "@;
    match stype {
        ServiceType::Plist => {
            let label = match detail {
                Some(o) => trim_spec(o),
                None => Seq::<char>::empty(),
            };
            if label.len() > 0 {
                head + label
            } else {
                head + name_or(path, "unknown.plist"@)
            }
        },
        ServiceType::SystemdService => {
            let name = name_or(path, "unknown.service"@);
            let description = match detail {
                Some(c) => match key_value_spec(c, "Description="@) {
                    Some(d) => d,
                    None => name,
                },
                None => name,
            };
            head + name + " ("@ + description + ")"@
        },
        ServiceType::AutostartDesktop => {
            let shown = match detail {
                Some(c) => match key_value_spec(c, "Name="@) {
                    Some(n) => n,
                    None => desktop_app_name(path),
                },
                None => desktop_app_name(path),
            };
            head + shown
        },
        _ => head + name_or(path, "unknown"@),
    }
}

fn file_name_or(path: &str, fallback: &str) -> (r: String)
    ensures
        r@ == name_or(path@, fallback@),
{
    match path_file_name(path) {
        Some(n) => n,
        None => owned(fallback),
    }
}

fn desktop_name(path: &str) -> (r: String)
    ensures
        r@ == desktop_app_name(path@),
{
    proof {
        reveal_strlit(".desktop");
    }
    match path_file_name(path) {
        Some(n) => {
            if ends_with_str(n.as_str(), ".desktop") {
                let len = n.unicode_len();
                substring(n.as_str(), 0, len - 8)
            } else {
                owned("unknown")
            }
        },
        None => owned("unknown"),
    }
}

/// The label shown for a service file (see [`display_label`]).
pub fn get_service_display_label(group_name: &str, service_path: &str, service_type: ServiceType, detail: Option<&str>) -> (r: String)
    ensures
        r@ == display_label(
            group_name@,
            service_path@,
            service_type,
            match detail { Some(d) => Some(d@), None => None },
        ),
{
    let mut s = owned("[");
    s.append(group_name);
    s.append("] ");
    match service_type {
        ServiceType::Plist => {
            let label = match detail {
                Some(o) => trim(o),
                None => String::new(),
            };
            if label.unicode_len() > 0 {
                s.append(label.as_str());
            } else {
                s.append(file_name_or(service_path, "unknown.plist").as_str());
            }
        },
        ServiceType::SystemdService => {
            let name = file_name_or(service_path, "unknown.service");
            let description = match detail {
                Some(c) => match find_key_value(c, "Description=") {
                    Some(d) => d,
                    None => name.clone(),
                },
                None => name.clone(),
            };
            s.append(name.as_str());
            s.append(" (");
            s.append(description.as_str());
            s.append(")");
        },
        ServiceType::AutostartDesktop => {
            let shown = match detail {
                Some(c) => match find_key_value(c, "Name=") {
                    Some(n) => n,
                    None => desktop_name(service_path),
                },
                None => desktop_name(service_path),
            };
            s.append(shown.as_str());
        },
        _ => {
            s.append(file_name_or(service_path, "unknown").as_str());
        },
    }
    s
}

/// What the service files of `platform` are called in the selection prompt.
pub open spec fn service_type_name_spec(platform: Platform) -> Seq<char> {
    match platform {
        Platform::MacOs => "plist files"@,
        Platform::Linux => "services and autostart programs"@,
        _ => "services and startup programs"@,
    }
}

/// What the service files of `platform` are called in the selection prompt.
pub fn get_service_type_name(platform: Platform) -> (r: &'static str)
    ensures
        r@ == service_type_name_spec(platform),
{
    match platform {
        Platform::MacOs => "plist files",
        Platform::Linux => "services and autostart programs",
        _ => "services and startup programs",
    }
}

/// What a dry run lists for the service files found: each file, or a note
/// that there is nothing to purge.
pub open spec fn purge_plan(files: Seq<ServiceFile>) -> Seq<(Seq<char>, Option<Seq<char>>)> {
    if files.len() == 0 {
        seq![("No service files found to purge"@, None)]
    } else {
        files.map_values(|f: ServiceFile| ("Would scan: "@ + f.display_label@, Some(f.path@)))
    }
}

/// The index of the first file whose label is `selected`.
pub open spec fn first_labelled(files: Seq<ServiceFile>, selected: Seq<char>) -> Option<int>
    decreases files.len(),
{
    if files.len() == 0 {
        None
    } else {
        match first_labelled(files.drop_last(), selected) {
            Some(i) => Some(i),
            None => if files.last().display_label@ == selected {
                Some(files.len() - 1)
            } else {
                None
            },
        }
    }
}

impl PurgeTask {
    /// A purge task; `system` adds the system-wide directories.
    pub fn new(system: bool) -> (r: Self)
        ensures
            r.system == system,
    {
        PurgeTask { system }
    }

    /// The task's name.
    pub fn name(&self) -> (r: &'static str)
        ensures
            r@ == "Purge"@,
    {
        "Purge"
    }

    /// What the task would do with the service files found.
    pub fn dry_run_from(&self, files: &Vec<ServiceFile>) -> (r: Vec<PlannedOperation>)
        ensures
            ops_view(r@) == purge_plan(files@),
    {
        let mut ops: Vec<PlannedOperation> = Vec::new();
        let mut i: usize = 0;
        while i < files.len()
            invariant
                i <= files.len(),
                ops@.len() == i,
                ops_view(ops@) == files@.take(i as int).map_values(
                    |f: ServiceFile| ("Would scan: "@ + f.display_label@, Some(f.path@)),
                ),
            decreases files.len() - i,
        {
            let mut d = owned("Would scan: ");
            d.append(files[i].display_label.as_str());
            let ghost before = ops@;
            ops.push(PlannedOperation::with_target(d, files[i].path.as_str()));
            proof {
                assert(ops_view(ops@) =~= ops_view(before).push(crate::tasks::task_core::op_view(ops@[i as int])));
                assert(files@.take(i + 1) =~= files@.take(i as int).push(files@[i as int]));
                assert(ops_view(ops@) =~= files@.take(i + 1).map_values(
                    |f: ServiceFile| ("Would scan: "@ + f.display_label@, Some(f.path@)),
                ));
            }
            i = i + 1;
        }
        if files.len() == 0 {
            ops.push(PlannedOperation::new("No service files found to purge"));
            proof {
                assert(ops_view(ops@) =~= purge_plan(files@));
            }
        } else {
            proof {
                assert(files@.take(files.len() as int) =~= files@);
            }
        }
        ops
    }
}

/// The file picked by a selected label: the first with that label.
pub fn find_selected(files: &Vec<ServiceFile>, selected: &str) -> (r: Option<usize>)
    ensures
        match (r, first_labelled(files@, selected@)) {
            (Some(i), Some(j)) => i as int == j,
            (None, None) => true,
            _ => false,
        },
{
    let mut i: usize = 0;
    while i < files.len()
        invariant
            i <= files.len(),
            first_labelled(files@.take(i as int), selected@) is None,
        decreases files.len() - i,
    {
        proof {
            assert(files@.take(i + 1).drop_last() =~= files@.take(i as int));
        }
        if str_eq(files[i].display_label.as_str(), selected) {
            proof {
                lemma_first_labelled_prefix(files@, selected@, i + 1);
            }
            return Some(i);
        }
        i = i + 1;
    }
    proof {
        assert(files@.take(files.len() as int) =~= files@);
    }
    None
}

/// A label found among the first `n` files is found at the same place in all of them.
pub proof fn lemma_first_labelled_prefix(files: Seq<ServiceFile>, selected: Seq<char>, n: int)
    requires
        0 <= n <= files.len(),
        first_labelled(files.take(n), selected) is Some,
    ensures
        first_labelled(files, selected) == first_labelled(files.take(n), selected),
    decreases files.len() - n,
{
    if n < files.len() {
        assert(files.take(n + 1).drop_last() =~= files.take(n));
        lemma_first_labelled_prefix(files, selected, n + 1);
    } else {
        assert(files.take(n) =~= files);
    }
}

/// The commands that stop and disable a systemd unit before its file is
/// removed: through `sudo` for a system unit, with `--user` otherwise.
pub open spec fn systemd_commands(unit: Seq<char>, is_system: bool) -> Seq<Seq<Seq<char>>> {
    if is_system {
        seq![seq!["sudo"@, "systemctl"@, "stop"@, unit], seq!["sudo"@, "systemctl"@, "disable"@, unit]]
    } else {
        seq![seq!["systemctl"@, "--user"@, "stop"@, unit], seq!["systemctl"@, "--user"@, "disable"@, unit]]
    }
}

/// The commands of [`systemd_commands`].
pub fn systemd_stop_commands(unit: &str, is_system: bool) -> (r: Vec<Vec<String>>)
    ensures
        r@.map_values(|c: Vec<String>| crate::path::views(c@)) == systemd_commands(unit@, is_system),
{
    let r = if is_system {
        vec![
            vec![owned("sudo"), owned("systemctl"), owned("stop"), owned(unit)],
            vec![owned("sudo"), owned("systemctl"), owned("disable"), owned(unit)],
        ]
    } else {
        vec![
            vec![owned("systemctl"), owned("--user"), owned("stop"), owned(unit)],
            vec![owned("systemctl"), owned("--user"), owned("disable"), owned(unit)],
        ]
    };
    proof {
        assert(crate::path::views(r@[0]@) =~= systemd_commands(unit@, is_system)[0]);
        assert(crate::path::views(r@[1]@) =~= systemd_commands(unit@, is_system)[1]);
        assert(r@.map_values(|c: Vec<String>| crate::path::views(c@)) =~= systemd_commands(unit@, is_system));
    }
    r
}

/// The line that opens the listing on `platform` (none on other systems).
pub open spec fn listing_banner_spec(platform: Platform) -> Option<Seq<char>> {
    match platform {
        Platform::MacOs => Some("\u{1f9fc} Listing all launch agents and daemons..."@),
        Platform::Linux => Some("\u{1f9fc} Listing all systemd services and autostart programs..."@),
        Platform::Windows => Some("\u{1f9fc} Listing all Windows services and startup programs..."@),
        Platform::Other => None,
    }
}

/// The line of [`listing_banner_spec`].
pub fn listing_banner(platform: Platform) -> (r: Option<&'static str>)
    ensures
        match (r, listing_banner_spec(platform)) {
            (Some(a), Some(b)) => a@ == b,
            (None, None) => true,
            _ => false,
        },
{
    match platform {
        Platform::MacOs => Some("\u{1f9fc} Listing all launch agents and daemons..."),
        Platform::Linux => Some("\u{1f9fc} Listing all systemd services and autostart programs..."),
        Platform::Windows => Some("\u{1f9fc} Listing all Windows services and startup programs..."),
        Platform::Other => None,
    }
}

/// What is said when nothing was found on `platform` (nothing on other systems).
pub open spec fn nothing_found_spec(platform: Platform) -> Option<Seq<char>> {
    match platform {
        Platform::MacOs => Some("No .plist files found"@),
        Platform::Linux => Some("No systemd services or autostart programs found"@),
        Platform::Windows => Some("No Windows services or startup programs found"@),
        Platform::Other => None,
    }
}

/// The note of [`nothing_found_spec`].
pub fn nothing_found(platform: Platform) -> (r: Option<&'static str>)
    ensures
        match (r, nothing_found_spec(platform)) {
            (Some(a), Some(b)) => a@ == b,
            (None, None) => true,
            _ => false,
        },
{
    match platform {
        Platform::MacOs => Some("No .plist files found"),
        Platform::Linux => Some("No systemd services or autostart programs found"),
        Platform::Windows => Some("No Windows services or startup programs found"),
        Platform::Other => None,
    }
}

/// The name of a Windows service status code: 1 is stopped, 4 running.
pub open spec fn service_status_name(status: Option<u64>) -> Seq<char> {
    match status {
        Some(s) => if s == 1 {
            "Stopped"@
        } else if s == 4 {
            "Running"@
        } else {
            "Unknown"@
        },
        None => "Unknown"@,
    }
}

/// The entry of a Windows service named `name` with status code `status`.
pub fn windows_service_file(name: &str, status: Option<u64>) -> (r: ServiceFile)
    ensures
        r.display_label@ == "[Windows Service] "@ + name@ + " ("@ + service_status_name(status) + ")"@,
        r.path@ == name@,
        !r.is_system,
        r.service_type == ServiceType::WindowsService,
{
    let status_name = match status {
        Some(1) => "Stopped",
        Some(4) => "Running",
        _ => "Unknown",
    };
    let mut label = owned("[Windows Service] ");
    label.append(name);
    label.append(" (");
    label.append(status_name);
    label.append(")");
    ServiceFile { display_label: label, path: owned(name), is_system: false, service_type: ServiceType::WindowsService }
}

/// `f` is the entry of the Windows service `name` with status code `status`,
/// as [`windows_service_file`] builds it.
pub open spec fn is_windows_service_entry(f: ServiceFile, name: Seq<char>, status: Option<u64>) -> bool {
    &&& f.display_label@ == "[Windows Service] "@ + name + " ("@ + service_status_name(status) + ")"@
    &&& f.path@ == name
    &&& !f.is_system
    &&& f.service_type == ServiceType::WindowsService
}

/// The listed services that have a name, as (name, status) pairs, in order.
pub open spec fn named_services(items: Seq<(Option<Seq<char>>, Option<u64>)>) -> Seq<(Seq<char>, Option<u64>)>
    decreases items.len(),
{
    if items.len() == 0 {
        seq![]
    } else {
        let rest = named_services(items.drop_last());
        match items.last().0 {
            Some(name) => rest.push((name, items.last().1)),
            None => rest,
        }
    }
}

/// `files` holds one entry per service of `named`, in the same order.
pub open spec fn windows_entries(files: Seq<ServiceFile>, named: Seq<(Seq<char>, Option<u64>)>) -> bool {
    &&& files.len() == named.len()
    &&& forall|i: int| 0 <= i < files.len() ==> #[trigger] is_windows_service_entry(files[i], named[i].0, named[i].1)
}

/// What `serde_json` reads from the text `json` that `Get-Service | Select-Object
/// Name, Status | ConvertTo-Json` printed: `None` when the text is not JSON or is
/// neither an array nor an object; otherwise, for each item (an object alone
/// counts as one), its `Name` when that is a string and its `Status` when that
/// is an unsigned integer.
pub uninterp spec fn service_listing(json: Seq<char>) -> Option<Seq<(Option<Seq<char>>, Option<u64>)>>;

/// `serde_json::from_str::<serde_json::Value>(json)`, then for an array each of its
/// items and for an object the object itself, read with `Value::get("Name")` and
/// `Value::as_str`, and `Value::get("Status")` and `Value::as_u64`. The contract
/// says only that the result is [`service_listing`] of the text.
#[verifier::external_body]
fn parse_service_listing(json: &str) -> (r: Option<Vec<(Option<String>, Option<u64>)>>)
    ensures
        r.deep_view() == service_listing(json@),
{
    let items = match serde_json::from_str::<serde_json::Value>(json) {
        Ok(serde_json::Value::Array(items)) => items,
        Ok(item @ serde_json::Value::Object(_)) => vec![item],
        _ => return None,
    };
    Some(items.iter().map(|v| (v.get("Name").and_then(|n| n.as_str()).map(String::from), v.get("Status").and_then(|s| s.as_u64()))).collect())
}

/// The entries of the listed services: one per item with a name, in order.
pub fn windows_services_from_items(items: &Vec<(Option<String>, Option<u64>)>) -> (r: Vec<ServiceFile>)
    ensures
        windows_entries(r@, named_services(items.deep_view())),
{
    let mut r: Vec<ServiceFile> = Vec::new();
    let mut i: usize = 0;
    while i < items.len()
        invariant
            i <= items.len(),
            windows_entries(r@, named_services(items.deep_view().take(i as int))),
        decreases items.len() - i,
    {
        proof {
            assert(items.deep_view().take(i + 1).drop_last() =~= items.deep_view().take(i as int));
        }
        match &items[i].0 {
            Some(name) => {
                let f = windows_service_file(name.as_str(), items[i].1);
                r.push(f);
            },
            None => {},
        }
        i += 1;
    }
    proof {
        assert(items.deep_view().take(items.len() as int) =~= items.deep_view());
    }
    r
}

/// The Windows services listed in `json` (the JSON that `Get-Service |
/// Select-Object Name, Status | ConvertTo-Json` prints): one entry per item
/// with a name, in order, and none when the text is neither a JSON array nor
/// an object.
pub fn windows_services_from_listing(json: &str) -> (r: Vec<ServiceFile>)
    ensures
        windows_entries(
            r@,
            match service_listing(json@) {
                Some(items) => named_services(items),
                None => seq![],
            },
        ),
{
    match parse_service_listing(json) {
        Some(items) => windows_services_from_items(&items),
        None => Vec::new(),
    }
}

/// Where startup programs lie under `%APPDATA%` and `%PROGRAMDATA%`.
pub const STARTUP_DIR: &'static str = "Microsoft/Windows/Start Menu/Programs/Startup";

/// The startup folders of the user (under `appdata`) and of all users
/// (under `programdata`), those whose base is known.
pub fn startup_dirs(appdata: Option<&str>, programdata: Option<&str>) -> (r: Vec<String>)
    ensures
        crate::path::views(r@) == (match appdata {
            Some(a) => seq![path_join(a@, STARTUP_DIR@)],
            None => Seq::empty(),
        }) + (match programdata {
            Some(p) => seq![path_join(p@, STARTUP_DIR@)],
            None => Seq::empty(),
        }),
{
    let mut r: Vec<String> = Vec::new();
    match appdata {
        Some(a) => r.push(join(a, STARTUP_DIR)),
        None => {},
    }
    match programdata {
        Some(p) => r.push(join(p, STARTUP_DIR)),
        None => {},
    }
    proof {
        assert(crate::path::views(r@) =~= (match appdata {
            Some(a) => seq![path_join(a@, STARTUP_DIR@)],
            None => Seq::empty(),
        }) + (match programdata {
            Some(p) => seq![path_join(p@, STARTUP_DIR@)],
            None => Seq::empty(),
        }));
    }
    r
}

/// The entry of the startup program at `path`, whose file name is `name`.
pub fn startup_program_file(path: &str, name: &str) -> (r: ServiceFile)
    ensures
        r.display_label@ == "[Startup Program] "@ + name@,
        r.path@ == path@,
        !r.is_system,
        r.service_type == ServiceType::StartupProgram,
{
    let mut label = owned("[Startup Program] ");
    label.append(name);
    ServiceFile { display_label: label, path: owned(path), is_system: false, service_type: ServiceType::StartupProgram }
}

/// The commands that stop and delete a Windows service.
pub open spec fn windows_service_commands_spec(name: Seq<char>) -> Seq<Seq<Seq<char>>> {
    seq![seq!["sc"@, "stop"@, name], seq!["sc"@, "delete"@, name]]
}

/// The commands of [`windows_service_commands_spec`].
pub fn windows_service_commands(name: &str) -> (r: Vec<Vec<String>>)
    ensures
        r@.map_values(|c: Vec<String>| crate::path::views(c@)) == windows_service_commands_spec(name@),
{
    let r = vec![vec![owned("sc"), owned("stop"), owned(name)], vec![owned("sc"), owned("delete"), owned(name)]];
    proof {
        assert(crate::path::views(r@[0]@) =~= windows_service_commands_spec(name@)[0]);
        assert(crate::path::views(r@[1]@) =~= windows_service_commands_spec(name@)[1]);
        assert(r@.map_values(|c: Vec<String>| crate::path::views(c@)) =~= windows_service_commands_spec(name@));
    }
    r
}

/// The task for the command-line arguments, and whether to run it dry.
pub fn run_with_args(args: PurgeArgs) -> (r: TaskRun<PurgeTask>)
    ensures
        r.task.system == args.system,
        r.dry_run == args.dry_run,
{
    TaskRun { task: PurgeTask::new(args.system), dry_run: args.dry_run }
}

} // verus!
