use mntn::tasks::delete::{all_succeeded, deleting_line, deletion_start, homebrew_line, nothing_found_line, sudo_notice, DeletionStart};
use mntn::cli::DeleteArgs;
use mntn::path::{join, path_components, path_extension, path_file_name, path_starts_with};
use mntn::tasks::biometric_sudo::{is_touch_id_configured, pam_backup_path, plan_pam_edit, PamEdit, TOUCH_ID_LINE};
use mntn::tasks::delete::{app_bundle_path, app_name_of_entry, deletion_banner, dry_run_line, is_homebrew_listing, is_offered, is_related_name, outcome_line, search_dirs, selected_path, selection_options, split_selection};
use mntn::tasks::paths::{get_backup_path, get_symlink_backup_path};
use mntn::tasks::setup::{has_legacy_entries, is_legacy_entry_name, profile_name_error, setup_profile, summary_lines, SetupChoices};
use mntn::utils::app_paths::{get_ghostty_config_path, get_vscode_keybindings_path, get_vscode_settings_path};
use mntn::utils::filesystem::backup_existing_target_path;
use mntn::utils::system::{strip_ansi_codes, Platform};

#[test]
fn test_paths() {
    assert_eq!(join("/a", "b"), "/a/b");
    assert_eq!(join("/a/", "b"), "/a/b");
    assert_eq!(join("/a", "/b"), "/b");
    assert_eq!(path_components("/a//b/./c"), vec!["/", "a", "b", "c"]);
    assert_eq!(path_file_name("/a/b.txt"), Some("b.txt".to_string()));
    assert_eq!(path_file_name("/a/.."), None);
    assert_eq!(path_extension("/a/b.tar.gz"), Some("gz".to_string()));
    assert_eq!(path_extension("/a/.bashrc"), None);
    assert_eq!(path_extension("/a/noext"), None);
    assert!(path_starts_with("/home/u/.mntn/backup/x", "/home/u/.mntn/backup"));
    assert!(!path_starts_with("/home/u/.mntn/backupx", "/home/u/.mntn/backup"));
}

#[test]
fn test_platform_names() {
    assert_eq!(Platform::from_os_name("linux"), Platform::Linux);
    assert_eq!(Platform::from_os_name("macos"), Platform::MacOs);
    assert_eq!(Platform::from_os_name("freebsd"), Platform::Other);
    assert_eq!(Platform::Windows.to_string(), "windows");
}

#[test]
fn test_strip_ansi_codes() {
    assert_eq!(strip_ansi_codes("\x1b[31mred\x1b[0m plain"), "red plain");
    assert_eq!(strip_ansi_codes("no codes"), "no codes");
}

#[test]
fn test_app_paths() {
    let present = |_: &String| true;
    assert_eq!(get_vscode_settings_path("/c", &present), Some("/c/Code/User/settings.json".to_string()));
    assert_eq!(get_vscode_keybindings_path("/c", &present), Some("/c/Code/User/keybindings.json".to_string()));
    assert_eq!(
        get_ghostty_config_path(Platform::MacOs, "/c", &present),
        Some("/c/com.mitchellh.ghostty/config".to_string())
    );
    assert_eq!(get_ghostty_config_path(Platform::Linux, "/c", &present), Some("/c/ghostty/config".to_string()));
}

#[test]
fn test_app_paths_missing_files() {
    let absent = |_: &String| false;
    assert_eq!(get_vscode_settings_path("/c", &absent), None);
    assert_eq!(get_vscode_keybindings_path("/c", &absent), None);
    assert_eq!(get_ghostty_config_path(Platform::Linux, "/c", &absent), None);
    let only_settings = |p: &String| p.ends_with("settings.json");
    assert_eq!(get_vscode_settings_path("/c", &only_settings), Some("/c/Code/User/settings.json".to_string()));
    assert_eq!(get_vscode_keybindings_path("/c", &only_settings), None);
}

#[test]
fn test_legacy_app_paths() {
    let present = |_: &String| true;
    if let Some(p) = mntn::utils::get_vscode_settings_path(&present) {
        assert!(p.ends_with("Library/Application Support/Code/User/settings.json"));
    }
    if let Some(p) = mntn::utils::get_ghostty_config_path(&present) {
        assert!(p.ends_with("com.mitchellh.ghostty/config"));
    }
    let absent = |_: &String| false;
    assert_eq!(mntn::utils::get_vscode_settings_path(&absent), None);
    assert_eq!(mntn::utils::get_vscode_keybindings_path(&absent), None);
    assert_eq!(mntn::utils::get_ghostty_config_path(&absent), None);
    assert_eq!(
        mntn::utils::existing_application_support_file("/h", "Code/User/settings.json", &present),
        Some("/h/Library/Application Support/Code/User/settings.json".to_string())
    );
    if let Some(p) = get_backup_path() {
        assert!(p.ends_with("dotfiles/backups"));
    }
    if let Some(p) = get_symlink_backup_path() {
        assert!(p.ends_with("dotfiles/backups/symlinks"));
    }
}

#[test]
fn test_legacy_bytes_to_human_readable() {
    assert_eq!(mntn::utils::bytes_to_human_readable(1024), "1.00 KB");
    assert_eq!(mntn::utils::bytes_to_human_readable(500), "500 bytes");
    assert_eq!(mntn::utils::bytes_to_human_readable(1536), "1.50 KB");
    assert_eq!(mntn::utils::bytes_to_human_readable(1048576), "1.00 MB");
    assert_eq!(mntn::utils::bytes_to_human_readable(5 * 1073741824), "5.00 GB");
    for b in [0u64, 1023, 1025, 123456, 987654321, 12345678901, u64::MAX] {
        let expected = if b >= 1073741824 {
            format!("{:.2} GB", b as f64 / 1073741824f64)
        } else if b >= 1048576 {
            format!("{:.2} MB", b as f64 / 1048576f64)
        } else if b >= 1024 {
            format!("{:.2} KB", b as f64 / 1024f64)
        } else {
            format!("{} bytes", b)
        };
        assert_eq!(mntn::utils::bytes_to_human_readable(b), expected);
    }
}

#[test]
fn test_backup_target_name() {
    assert_eq!(
        backup_existing_target_path("/home/u/.zshrc", "/s", "20240101_120000123"),
        "/s/.zshrc_20240101_120000123"
    );
    assert_eq!(backup_existing_target_path("/", "/s", "t"), "/s/backup_t");
}

#[test]
fn test_biometric_pam_edit() {
    let with = format!("# sudo\n{}auth include sudo_local\n", TOUCH_ID_LINE);
    assert!(is_touch_id_configured(&with));
    assert!(is_touch_id_configured("  auth       sufficient     pam_tid.so  \n"));
    let without = "auth       required       pam_opendirectory.so\n";
    assert!(!is_touch_id_configured(without));
    match plan_pam_edit(without) {
        PamEdit::Write(c) => assert_eq!(c, format!("{}{}", TOUCH_ID_LINE, without)),
        PamEdit::AlreadyConfigured => panic!("expected an edit"),
    }
    assert!(matches!(plan_pam_edit(&with), PamEdit::AlreadyConfigured));
    assert_eq!(pam_backup_path(), "/etc/pam.d/sudo.backup");
}

#[test]
fn test_setup_decisions() {
    assert!(!is_legacy_entry_name("common"));
    assert!(!is_legacy_entry_name("profiles"));
    assert!(!is_legacy_entry_name("packages"));
    assert!(!is_legacy_entry_name("brew.txt"));
    assert!(is_legacy_entry_name(".zshrc"));
    assert!(has_legacy_entries(&vec!["common".to_string(), "nvim".to_string()]));
    assert!(!has_legacy_entries(&vec!["common".to_string(), "packages".to_string()]));
    assert_eq!(profile_name_error(""), Some("Profile name cannot be empty"));
    assert_eq!(profile_name_error("a b"), Some("Use only letters, numbers, hyphens, and underscores"));
    assert_eq!(profile_name_error("work-1"), None);
    assert_eq!(setup_profile(&Some("work".to_string())).name, Some("work".to_string()));
    assert_eq!(setup_profile(&None).name, None);
    let lines = summary_lines(&SetupChoices {
        profile_name: None,
        migrate: true,
        backup: true,
        include_encrypted: false,
        install_tasks: false,
    });
    assert_eq!(
        lines,
        vec![
            "📋 Setup Summary:",
            "   Profile: common (no active profile)",
            "   ✓ Migrate legacy files to common/",
            "   ✓ Run initial backup",
            "   ⚠ Encrypted configs will be skipped during initial backup"
        ]
    );
}

#[test]
fn test_delete_matching() {
    assert!(is_related_name("com.Example.Foo.plist", "Foo", None));
    assert!(is_related_name("foo-cache", "FOO", None));
    assert!(!is_related_name("bar", "Foo", None));
    assert!(is_related_name("com.acme.bar", "Foo", Some("com.acme")));
    assert!(is_related_name("a+b", "A+B", None));
    assert!(is_offered(true, true, true, "/x/Foo"));
    assert!(!is_offered(true, true, false, "/x/Foo.plist"));
    assert!(is_offered(true, false, false, "/x/Foo.plist"));
    assert!(!is_offered(false, false, false, "/x/Foo.plist"));
    assert_eq!(app_bundle_path("Foo"), "/Applications/Foo.app");
    assert_eq!(app_name_of_entry("/Applications/Foo Bar.app"), Some("Foo Bar".to_string()));
    assert_eq!(app_name_of_entry("/Applications/readme.txt"), None);
    assert!(is_homebrew_listing("firefox\nvisual-studio-code\n", "Firefox"));
    assert!(!is_homebrew_listing("firefox\n", "Safari"));
}

#[test]
fn test_delete_selection() {
    let (user, system) = search_dirs("/Users/u", "/Users/u/Library/Application Support", "/Users/u/Library/Caches");
    assert_eq!(user.len(), 4);
    assert_eq!(user[3], ("/Users/u/Library/Preferences".to_string(), false));
    assert_eq!(system[0], ("/Library/Application Support".to_string(), true));
    let user_files = vec!["/u/a".to_string()];
    let system_files = vec!["/s/b".to_string()];
    let options = selection_options(&user_files, &system_files);
    assert_eq!(options, vec!["[USER] 0: /u/a", "[SYSTEM] 1: /s/b"]);
    assert_eq!(selected_path("[SYSTEM] 1: /s/b"), "/s/b");
    assert_eq!(selected_path("[USER] 12: /u/with: colon"), "/u/with: colon");
    let (u, s) = split_selection(&options, &system_files);
    assert_eq!(u, vec!["/u/a"]);
    assert_eq!(s, vec!["/s/b"]);
    assert_eq!(dry_run_line("/x", true, true), "🔍 Would [SUDO] permanently delete: /x");
    assert_eq!(dry_run_line("/x", false, false), "🔍 Would move to trash: /x");
    let args = DeleteArgs { dry_run: true, permanent: false };
    assert_eq!(deletion_banner(&args), "🔍 Running in dry-run mode - no files will be deleted");
    assert_eq!(outcome_line("Foo", false, true), "✅ Foo and related files removed.");
    assert_eq!(outcome_line("Foo", true, false), "⚠️ Foo would be partially deleted (some issues detected).");
}

#[test]
fn test_setup_closing_and_backup_note() {
    let lines = mntn::tasks::setup::closing_lines();
    assert_eq!(lines[1], "Quick reference:");
    assert_eq!(lines.len(), 11);
    assert!(mntn::tasks::setup::backup_note(false).contains("skipped"));
    assert!(mntn::tasks::setup::backup_note(true).contains("will be included"));
}

#[test]
fn test_delete_steps() {
    assert_eq!(deletion_start(0, false), DeletionStart::NothingFound);
    assert_eq!(deletion_start(2, false), DeletionStart::Prompt);
    assert_eq!(deletion_start(0, true), DeletionStart::BundleOnly);
    assert_eq!(nothing_found_line("Foo"), "📁 No related files found for Foo");
    assert_eq!(homebrew_line("Foo", true), "[DRY RUN] Would uninstall Foo via Homebrew");
    assert_eq!(homebrew_line("Foo", false), "🗑️ Uninstalling Foo via Homebrew...");
    assert_eq!(sudo_notice(1, false, true), Some("🔐 System files require sudo for permanent deletion..."));
    assert_eq!(sudo_notice(1, false, false), Some("🔐 System files require sudo for moving to trash..."));
    assert_eq!(sudo_notice(1, true, true), None);
    assert_eq!(sudo_notice(0, false, true), None);
    assert_eq!(deleting_line("/a", true, true), "🗑 [SUDO] Permanently deleting: /a");
    assert_eq!(deleting_line("/a", true, false), "🗑 Permanently deleting: /a");
    assert_eq!(deleting_line("/a", false, true), "🗑 [SUDO] Moving to trash: /a");
    assert!(all_succeeded(&vec![true, true]));
    assert!(!all_succeeded(&vec![true, false]));
    assert!(all_succeeded(&vec![]));
}

#[test]
fn test_app_names_sorted() {
    let entries: Vec<String> = vec!["/Applications/Zed.app", "/Applications/notes.txt", "/Applications/Arc.app", "/Applications/Zed.app"]
        .into_iter()
        .map(|s| s.to_string())
        .collect();
    assert_eq!(mntn::tasks::delete::app_names(&entries), vec!["Arc", "Zed", "Zed"]);
    let v: Vec<String> = vec!["b".to_string(), "a".to_string(), "B".to_string(), "a".to_string()];
    assert_eq!(mntn::text::sort_texts(&v), vec!["B", "a", "a", "b"]);
}
