use mntn::cli::{CleanArgs, InstallArgs, PurgeArgs, SyncArgs};
use mntn::tasks::clean::{should_clean, should_skip, system_dirs, trash_dirs, user_dirs, would_delete_line, CleanTask, EntryFacts, PackageTools};
use mntn::tasks::install::{plan_scheduled_tasks, InstallStep, ScheduledTask};
use mntn::tasks::purge::{determine_service_type, find_selected, get_directory_targets, get_service_display_label, systemd_stop_commands, DirectoryTarget, PurgeTask, ServiceFile, ServiceType};
use mntn::tasks::sync::{commit_message_from, gitignore_needs_log_rule, has_changes, init_commands, RepoSetup, SyncActionKind, SyncStage, SyncTask};
use mntn::utils::paths::SystemDirs;
use mntn::utils::system::Platform;

fn dirs() -> SystemDirs {
    SystemDirs {
        home: "/home/u".to_string(),
        cache: "/home/u/.cache".to_string(),
        config: "/home/u/.config".to_string(),
        data: "/home/u/.local/share".to_string(),
    }
}

fn facts(age: Option<u64>) -> EntryFacts {
    EntryFacts { exists: true, has_metadata: true, is_symlink: false, age_secs: age }
}

#[test]
fn test_clean_task_name_and_plan() {
    let task = mntn::tasks::clean::run_with_args(CleanArgs { system: true, dry_run: true }).task;
    assert_eq!(task.name(), "Clean");
    let tools = PackageTools { brew: true, npm: false, pnpm: true };
    let ops = task.dry_run_from(Platform::Linux, &dirs(), "/tmp", tools);
    let descs: Vec<&str> = ops.iter().map(|o| o.description.as_str()).collect();
    assert_eq!(
        descs,
        vec![
            "Clean user cache",
            "Clean temp directory",
            "Clean system logs",
            "Clean system cache",
            "Run brew cleanup",
            "Clean pnpm cache",
            "Empty trash"
        ]
    );
    assert_eq!(ops[0].target, Some("/home/u/.cache".to_string()));
    let mac = CleanTask::new(false).dry_run_from(Platform::MacOs, &dirs(), "/tmp", PackageTools { brew: false, npm: false, pnpm: false });
    assert_eq!(mac.len(), 5);
    assert_eq!(mac[2].target, Some("/home/u/Library/Logs".to_string()));
}

#[test]
fn test_clean_directories() {
    assert_eq!(user_dirs(Platform::Linux, &dirs(), "/tmp"), vec!["/home/u/.cache".to_string(), "/tmp".to_string()]);
    assert_eq!(system_dirs(Platform::Linux), vec!["/var/log".to_string(), "/var/cache".to_string(), "/tmp".to_string()]);
    assert_eq!(
        trash_dirs(Platform::Linux, "/home/u"),
        vec!["/home/u/.local/share/Trash/files".to_string(), "/home/u/.local/share/Trash/info".to_string()]
    );
    assert_eq!(trash_dirs(Platform::MacOs, "/home/u"), vec!["/home/u/.Trash".to_string()]);
    assert!(trash_dirs(Platform::Windows, "/home/u").is_empty());
}

#[test]
fn test_should_skip_patterns() {
    assert!(should_skip("/tmp/.X11-unix"));
    assert!(should_skip("/tmp/systemd-private-abc/x"));
    assert!(should_skip("/var/log/asl"));
    assert!(should_skip("/Users/u/Library/Caches/.DS_Store"));
    assert!(!should_skip("/tmp/plain"));
}

#[test]
fn test_should_clean_entry() {
    assert!(should_clean("/tmp/old", facts(Some(86400))));
    assert!(!should_clean("/tmp/new", facts(Some(86399))));
    assert!(should_clean("/tmp/unknown-age", facts(None)));
    let mut link = facts(Some(100000));
    link.is_symlink = true;
    assert!(!should_clean("/tmp/link", link));
    let mut gone = facts(Some(100000));
    gone.exists = false;
    assert!(!should_clean("/tmp/gone", gone));
    assert!(!should_clean("/tmp/.X11-unix", facts(Some(100000))));
    assert_eq!(would_delete_line("/tmp/old", "2 KiB"), "   [DRY RUN] Would delete: old (2 KiB)");
}

#[test]
fn test_purge_targets_and_types() {
    let task = mntn::tasks::purge::run_with_args(PurgeArgs { system: false, dry_run: true }).task;
    assert_eq!(task.name(), "Purge");
    let targets = get_directory_targets(Platform::Linux, true, &dirs());
    assert_eq!(targets.len(), 4);
    assert_eq!(targets[0].path, "/home/u/.config/systemd/user");
    assert_eq!(targets[1].name, "User Autostart");
    assert!(targets[3].is_system);
    let autostart = DirectoryTarget { name: "User Autostart".to_string(), path: "/home/u/.config/autostart".to_string(), is_system: false };
    assert_eq!(determine_service_type(Platform::Linux, "/x/a.timer", &autostart), (ServiceType::SystemdService, true));
    assert_eq!(determine_service_type(Platform::Linux, "/x/a.desktop", &autostart), (ServiceType::AutostartDesktop, true));
    assert_eq!(determine_service_type(Platform::Linux, "/x/a.txt", &autostart), (ServiceType::SystemdService, false));
    assert_eq!(determine_service_type(Platform::MacOs, "/x/com.a.plist", &autostart), (ServiceType::Plist, true));
    assert_eq!(determine_service_type(Platform::MacOs, "/x/.plist", &autostart), (ServiceType::Plist, false));
}

#[test]
fn test_purge_labels() {
    let unit = "[Unit]\nDescription= Sync daemon \n";
    assert_eq!(
        get_service_display_label("User Systemd Services", "/u/sync.service", ServiceType::SystemdService, Some(unit)),
        "[User Systemd Services] sync.service (Sync daemon)"
    );
    assert_eq!(
        get_service_display_label("G", "/u/sync.service", ServiceType::SystemdService, None),
        "[G] sync.service (sync.service)"
    );
    assert_eq!(
        get_service_display_label("A", "/u/app.desktop", ServiceType::AutostartDesktop, Some("Name=My App\n")),
        "[A] My App"
    );
    assert_eq!(get_service_display_label("A", "/u/app.desktop", ServiceType::AutostartDesktop, None), "[A] app");
    assert_eq!(get_service_display_label("L", "/u/x.plist", ServiceType::Plist, Some(" com.x \n")), "[L] com.x");
    assert_eq!(get_service_display_label("L", "/u/x.plist", ServiceType::Plist, Some("  ")), "[L] x.plist");
}

#[test]
fn test_purge_dry_run_and_selection() {
    let task = PurgeTask::new(false);
    let none = task.dry_run_from(&vec![]);
    assert_eq!(none.len(), 1);
    assert_eq!(none[0].description, "No service files found to purge");
    let files = vec![
        ServiceFile { display_label: "[G] a".to_string(), path: "/a".to_string(), is_system: false, service_type: ServiceType::SystemdService },
        ServiceFile { display_label: "[G] b".to_string(), path: "/b".to_string(), is_system: true, service_type: ServiceType::SystemdService },
    ];
    let ops = task.dry_run_from(&files);
    assert_eq!(ops.len(), 2);
    assert_eq!(ops[1].description, "Would scan: [G] b");
    assert_eq!(ops[1].target, Some("/b".to_string()));
    assert_eq!(find_selected(&files, "[G] b"), Some(1));
    assert_eq!(find_selected(&files, "[G] c"), None);
    let cmds = systemd_stop_commands("a.service", true);
    assert_eq!(cmds[0], vec!["sudo", "systemctl", "stop", "a.service"]);
    let user = systemd_stop_commands("a.service", false);
    assert_eq!(user[1], vec!["systemctl", "--user", "disable", "a.service"]);
}

#[test]
fn test_sync_plan_and_decisions() {
    let args = SyncArgs {
        init: true,
        remote_url: Some("git@example.com:me/dots.git".to_string()),
        pull: false,
        push: false,
        sync: true,
        message: None,
        auto_link: true,
    };
    let run = mntn::tasks::sync::run_with_args(args.clone());
    assert!(!run.dry_run);
    let task = SyncTask::from_args(&args);
    assert_eq!(task.name(), "Sync");
    let ops = task.dry_run("/home/u/.mntn");
    let descs: Vec<&str> = ops.iter().map(|o| o.description.as_str()).collect();
    assert_eq!(
        descs,
        vec![
            "Initialize git repository",
            "Add remote origin",
            "Pull latest changes from remote",
            "Auto-link configurations after pull",
            "Stage all changes",
            "Commit changes",
            "Push to remote repository"
        ]
    );
    assert!(matches!(task.repo_setup(true), Ok(RepoSetup::EnsureGitignore)));
    assert!(matches!(task.repo_setup(false), Ok(RepoSetup::Initialize(_))));
    let mut bare = task.clone();
    bare.remote_url = None;
    assert_eq!(bare.repo_setup(false).unwrap_err(), "Remote URL is required when using --init");
    bare.init = false;
    assert_eq!(
        bare.repo_setup(false).unwrap_err(),
        "No git repository found. Use --init with --remote-url to initialize."
    );
    assert!(task.commit_message().starts_with("chore: sync mntn ("));
    assert_eq!(commit_message_from(&None, "2024-01-02 03:04:05 UTC"), "chore: sync mntn (2024-01-02 03:04:05 UTC)");
    assert_eq!(commit_message_from(&Some("msg".to_string()), "t"), "msg");
    assert!(has_changes(" M file\n"));
    assert!(!has_changes(" \n"));
    assert!(gitignore_needs_log_rule("target/\n"));
    assert!(!gitignore_needs_log_rule("*.log\n"));
    let cmds = init_commands("url");
    assert_eq!(cmds[1], vec!["remote", "add", "origin", "url"]);
}

#[test]
fn test_scheduled_tasks() {
    let tasks = plan_scheduled_tasks(true, false);
    let labels: Vec<&str> = tasks.iter().map(|t| t.label()).collect();
    assert_eq!(labels, vec!["com.mntn.backup", "com.mntn.clean"]);
    let with_topgrade = plan_scheduled_tasks(false, true);
    assert_eq!(with_topgrade[1].label(), "com.mntn.topgrade");
    let listed = mntn::tasks::install::run(InstallArgs { with_clean: true });
    assert_eq!(listed[0].label(), "com.mntn.backup");
    assert_eq!(listed.last().unwrap().label(), "com.mntn.clean");
}

#[test]
fn test_systemd_units() {
    let backup = ScheduledTask::backup_hourly();
    assert_eq!(
        backup.systemd_service("/usr/bin/mntn"),
        "[Unit]\nDescription=Run com.mntn.backup task\n\n[Service]\nType=oneshot\nExecStart=/usr/bin/mntn backup\n"
    );
    assert_eq!(
        backup.systemd_timer(),
        "[Unit]\nDescription=Hourly task\n\n[Timer]\nOnCalendar=hourly\nPersistent=true\n\n[Install]\nWantedBy=timers.target\n"
    );
    assert!(ScheduledTask::clean_daily().systemd_timer().contains("OnCalendar=daily"));
    let every_two = ScheduledTask::new("x", "x", &vec![], 7200);
    assert!(every_two.systemd_timer().contains("Description=Every 2 hours task"));
    assert!(every_two.systemd_timer().contains("OnUnitActiveSec=2h"));
    let odd = ScheduledTask::new("x", "x", &vec![], 90);
    assert!(odd.systemd_timer().contains("Description=Interval task 90s"));
    let (service, timer) = backup.systemd_unit_names();
    assert_eq!(service, "com.mntn.backup.service");
    assert_eq!(timer, "com.mntn.backup.timer");
}

#[test]
fn test_launchd_and_schtasks() {
    let backup = ScheduledTask::backup_hourly();
    let plist = backup.launchd_plist("/opt/bin/mntn");
    assert!(plist.contains("<key>Label</key><string>com.mntn.backup</string>"));
    assert!(plist.contains("    <string>/opt/bin/mntn</string>\n        <string>backup</string>\n  </array>"));
    assert!(plist.contains("<integer>3600</integer>"));
    assert!(plist.contains("<string>/tmp/com.mntn.backup.err</string>"));
    assert_eq!(backup.launchd_plist_path("/Users/u"), "/Users/u/Library/LaunchAgents/com.mntn.backup.plist");
    let args = ScheduledTask::clean_daily().schtasks_args("C:\\mntn.exe");
    assert_eq!(args, vec!["/Create", "/SC", "DAILY", "/TN", "mntn-com.mntn.clean", "/TR", "\"C:\\mntn.exe\" clean", "/F"]);
    assert_eq!(backup.schtasks_args("m")[2], "HOURLY");
}

#[test]
fn test_install_steps() {
    let task = ScheduledTask::backup_hourly();
    let steps = task.install(Platform::Linux, "/home/u", "/home/u/.config", "/usr/bin/mntn").unwrap();
    assert_eq!(steps.len(), 6);
    match &steps[1] {
        InstallStep::WriteFile(path, content) => {
            assert_eq!(path, "/home/u/.config/com.mntn.backup.service");
            assert!(content.contains("ExecStart=/usr/bin/mntn backup"));
        },
        _ => panic!("expected a file"),
    }
    match &steps[5] {
        InstallStep::Run(program, args) => {
            assert_eq!(program, "systemctl");
            assert_eq!(args, &vec!["--user".to_string(), "start".to_string(), "com.mntn.backup.timer".to_string()]);
        },
        _ => panic!("expected a command"),
    }
    let mac = task.install(Platform::MacOs, "/Users/u", "/c", "/opt/mntn").unwrap();
    match &mac[2] {
        InstallStep::Run(program, args) => {
            assert_eq!(program, "launchctl");
            assert_eq!(args[1], "/Users/u/Library/LaunchAgents/com.mntn.backup.plist");
        },
        _ => panic!("expected a command"),
    }
    assert_eq!(task.install(Platform::Other, "/h", "/c", "/b").unwrap_err(), "Unsupported platform");
}

#[test]
fn test_windows_service_entries() {
    let f = mntn::tasks::purge::windows_service_file("Spooler", Some(4));
    assert_eq!(f.display_label, "[Windows Service] Spooler (Running)");
    assert_eq!(f.path, "Spooler");
    assert!(!f.is_system);
    assert_eq!(mntn::tasks::purge::windows_service_file("X", Some(1)).display_label, "[Windows Service] X (Stopped)");
    assert_eq!(mntn::tasks::purge::windows_service_file("X", Some(7)).display_label, "[Windows Service] X (Unknown)");
    assert_eq!(mntn::tasks::purge::windows_service_file("X", None).display_label, "[Windows Service] X (Unknown)");
    let s = mntn::tasks::purge::startup_program_file("C:/Startup/app.lnk", "app.lnk");
    assert_eq!(s.display_label, "[Startup Program] app.lnk");
    assert_eq!(s.path, "C:/Startup/app.lnk");
    assert_eq!(
        mntn::tasks::purge::windows_service_commands("Spooler"),
        vec![vec!["sc", "stop", "Spooler"], vec!["sc", "delete", "Spooler"]]
    );
    assert_eq!(
        mntn::tasks::purge::startup_dirs(Some("C:/Users/u/AppData/Roaming"), None),
        vec!["C:/Users/u/AppData/Roaming/Microsoft/Windows/Start Menu/Programs/Startup"]
    );
}

#[test]
fn test_purge_platform_messages() {
    let mac = mntn::utils::system::Platform::MacOs;
    assert_eq!(mntn::tasks::purge::listing_banner(mac), Some("🧼 Listing all launch agents and daemons..."));
    assert_eq!(mntn::tasks::purge::nothing_found(mac), Some("No .plist files found"));
    assert_eq!(mntn::tasks::purge::nothing_found(mntn::utils::system::Platform::Other), None);
}

#[test]
fn test_sync_moves() {
    let args = mntn::cli::SyncArgs {
        init: false,
        remote_url: None,
        pull: false,
        push: false,
        sync: true,
        message: Some("msg".to_string()),
        auto_link: true,
    };
    let task = mntn::tasks::sync::run_with_args(args).task;
    let start = task.next_move(SyncStage::Start, "", "msg");
    assert_eq!(start.lines, vec!["🔄 Pulling latest changes..."]);
    assert_eq!(start.kind, SyncActionKind::Git);
    assert_eq!(start.args, vec!["pull"]);
    let pulled = task.next_move(start.next, "Already up to date.", "msg");
    assert_eq!(pulled.kind, SyncActionKind::AutoLink);
    assert_eq!(pulled.lines[1], "🔗 Auto-linking configurations...");
    let linked = task.next_move(pulled.next, "", "msg");
    assert_eq!(linked.args, vec!["add", "."]);
    let staged = task.next_move(linked.next, "", "msg");
    assert_eq!(staged.args, vec!["status", "--porcelain"]);
    let clean = task.next_move(staged.next, "  \n", "msg");
    assert_eq!(clean.kind, SyncActionKind::Done);
    assert_eq!(clean.lines, vec!["ℹ️  No changes to commit"]);
    let dirty = task.next_move(staged.next, " M file", "msg");
    assert_eq!(dirty.args, vec!["commit", "-m", "msg"]);
    let committed = task.next_move(dirty.next, "", "msg");
    assert_eq!(committed.args, vec!["push"]);
    let pushed = task.next_move(committed.next, "", "msg");
    assert_eq!(pushed.kind, SyncActionKind::Done);
    assert_eq!(pushed.lines, vec!["✅ Changes pushed to remote repository"]);
}

#[test]
fn test_sync_commit_message_shape() {
    let args = mntn::cli::SyncArgs {
        init: false,
        remote_url: None,
        pull: false,
        push: true,
        sync: false,
        message: None,
        auto_link: false,
    };
    let task = mntn::tasks::sync::run_with_args(args).task;
    let m = task.commit_message();
    assert!(m.starts_with("chore: sync mntn ("));
    assert!(m.ends_with(" UTC)"));
    assert_eq!(m.len(), "chore: sync mntn (2024-01-01 00:00:00 UTC)".len());
}

#[test]
fn test_empty_trash_commands() {
    let mac = mntn::tasks::clean::empty_trash_commands(Platform::MacOs, true);
    assert_eq!(mac.len(), 1);
    assert_eq!(mac[0][0], "osascript");
    assert!(mac[0][2].contains("tell application \"Finder\""));
    assert!(mntn::tasks::clean::empty_trash_commands(Platform::MacOs, false).is_empty());
    assert_eq!(
        mntn::tasks::clean::empty_trash_commands(Platform::Windows, false),
        vec![vec!["powershell", "-Command", "Clear-RecycleBin -Force"]]
    );
    assert!(mntn::tasks::clean::empty_trash_commands(Platform::Linux, true).is_empty());
}
