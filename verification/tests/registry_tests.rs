use mntn::cli::{ConfigsRegistryActions, ConfigsRegistryArgs, EncryptedRegistryActions, EncryptedRegistryArgs, PackageRegistryActions, PackageRegistryArgs};
use mntn::registries::configs_registry::{ConfigsRegistry, RegistryEntry};
use mntn::registries::encrypted_configs_registry::EncryptedConfigsRegistry;
use mntn::registries::package_registry::PackageRegistry;
use mntn::registries::{apply_edit, Edit, EditOutcome};
use mntn::tasks::configs_registry::{run_with_args, ConfigsRegistryTask};
use mntn::tasks::encrypted_configs_registry::EncryptedConfigsRegistryTask;
use mntn::tasks::package_registry::PackageRegistryTask;
use mntn::text::parse_comma_list;

fn entry(name: &str) -> RegistryEntry {
    RegistryEntry {
        name: name.to_string(),
        source_path: format!("{}.conf", name),
        target_path: format!("/home/u/.{}", name),
        enabled: true,
        description: None,
    }
}

#[test]
fn test_get_after_add() {
    let mut r = ConfigsRegistry::new();
    r.add_entry("a".to_string(), entry("a"));
    r.add_entry("b".to_string(), entry("b"));
    assert_eq!(r.get_entry("a").unwrap().name, "a");
    assert_eq!(r.get_entry("b").unwrap().name, "b");
    assert!(r.get_entry("c").is_none());
    assert_eq!(r.len(), 2);
}

#[test]
fn test_add_replaces_same_id() {
    let mut r = ConfigsRegistry::new();
    r.add_entry("a".to_string(), entry("first"));
    r.add_entry("a".to_string(), entry("second"));
    assert_eq!(r.len(), 1);
    assert_eq!(r.get_entry("a").unwrap().name, "second");
}

#[test]
fn test_remove_undoes_add() {
    let mut r = ConfigsRegistry::new();
    r.add_entry("a".to_string(), entry("a"));
    r.add_entry("b".to_string(), entry("b"));
    let removed = r.remove_entry("b").unwrap();
    assert_eq!(removed.name, "b");
    assert!(r.get_entry("b").is_none());
    assert_eq!(r.len(), 1);
    assert!(r.remove_entry("b").is_none());
}

#[test]
fn test_toggle_and_back() {
    let mut r = ConfigsRegistry::new();
    r.add_entry("a".to_string(), entry("a"));
    assert!(r.set_entry_enabled("a", false).is_ok());
    assert!(!r.get_entry("a").unwrap().enabled);
    assert_eq!(r.get_enabled_entries().len(), 0);
    assert!(r.set_entry_enabled("a", true).is_ok());
    assert!(r.get_entry("a").unwrap().enabled);
    assert_eq!(r.get_enabled_entries().len(), 1);
}

#[test]
fn test_toggle_unknown_id() {
    let mut r = ConfigsRegistry::new();
    let e = r.set_entry_enabled("nope", true).unwrap_err();
    assert_eq!(e, "Entry 'nope' not found");
}

#[test]
fn test_enabled_entries_in_order() {
    let mut r = ConfigsRegistry::new();
    r.add_entry("a".to_string(), entry("a"));
    let mut off = entry("b");
    off.enabled = false;
    r.add_entry("b".to_string(), off);
    r.add_entry("c".to_string(), entry("c"));
    let ids: Vec<String> = r.get_enabled_entries().into_iter().map(|(id, _)| id).collect();
    assert_eq!(ids, vec!["a".to_string(), "c".to_string()]);
}

#[test]
fn test_from_pairs_later_wins() {
    let r = ConfigsRegistry::from_pairs(vec![
        ("a".to_string(), entry("one")),
        ("a".to_string(), entry("two")),
    ]);
    assert_eq!(r.len(), 1);
    assert_eq!(r.get_entry("a").unwrap().name, "two");
}

#[test]
fn test_apply_edit_outcomes() {
    let mut r = ConfigsRegistry::new();
    assert!(matches!(apply_edit(&mut r, Edit::Add("a".to_string(), entry("a"))), EditOutcome::Added));
    assert!(matches!(
        apply_edit(&mut r, Edit::Add("a".to_string(), entry("other"))),
        EditOutcome::AlreadyExists
    ));
    assert_eq!(r.get_entry("a").unwrap().name, "a");
    assert!(matches!(apply_edit(&mut r, Edit::Toggle("a".to_string(), false)), EditOutcome::Switched));
    match apply_edit(&mut r, Edit::Toggle("x".to_string(), false)) {
        EditOutcome::SwitchFailed(m) => assert_eq!(m, "Entry 'x' not found"),
        _ => panic!("expected a failed switch"),
    }
    match apply_edit(&mut r, Edit::Remove("a".to_string())) {
        EditOutcome::Removed(e) => assert_eq!(e.name, "a"),
        _ => panic!("expected a removal"),
    }
    assert!(matches!(apply_edit(&mut r, Edit::Remove("a".to_string())), EditOutcome::NotFound));
}

#[test]
fn test_configs_task_dry_run() {
    let task = ConfigsRegistryTask::new(ConfigsRegistryArgs {
        action: ConfigsRegistryActions::Add {
            id: "zsh".to_string(),
            name: "Zsh".to_string(),
            source: "zsh/.zshrc".to_string(),
            target: "/home/u/.zshrc".to_string(),
            description: None,
        },
        dry_run: true,
    });
    assert_eq!(task.name(), "Configs Registry");
    let ops = task.dry_run("/home/u/.mntn/config.registry.json");
    assert_eq!(ops.len(), 2);
    assert_eq!(ops[0].description, "Add registry entry 'Zsh' (zsh)");
    assert_eq!(ops[0].target, Some("Source: zsh/.zshrc, Target: /home/u/.zshrc".to_string()));
    assert_eq!(ops[1].description, "Save registry");
    assert_eq!(ops[1].target, Some("/home/u/.mntn/config.registry.json".to_string()));

    let toggle = ConfigsRegistryTask::new(ConfigsRegistryArgs {
        action: ConfigsRegistryActions::Toggle { id: "zsh".to_string(), enable: false },
        dry_run: true,
    });
    let ops = toggle.dry_run("/r.json");
    assert_eq!(ops[0].description, "disable registry entry (zsh)");

    let list = ConfigsRegistryTask::new(ConfigsRegistryArgs {
        action: ConfigsRegistryActions::List { enabled_only: false },
        dry_run: true,
    });
    let ops = list.dry_run("/r.json");
    assert_eq!(ops.len(), 1);
    assert_eq!(ops[0].description, "List registry entries");
    assert!(ops[0].target.is_none());
}

#[test]
fn test_configs_task_apply() {
    let mut r = ConfigsRegistry::new();
    let add = ConfigsRegistryTask::new(ConfigsRegistryArgs {
        action: ConfigsRegistryActions::Add {
            id: "zsh".to_string(),
            name: "Zsh".to_string(),
            source: "zsh/.zshrc".to_string(),
            target: "/home/u/.zshrc".to_string(),
            description: Some("shell".to_string()),
        },
        dry_run: false,
    });
    assert!(matches!(add.apply(&mut r), Some(EditOutcome::Added)));
    let e = r.get_entry("zsh").unwrap();
    assert!(e.enabled);
    assert_eq!(e.description, Some("shell".to_string()));
    assert!(matches!(add.apply(&mut r), Some(EditOutcome::AlreadyExists)));
    let run = run_with_args(ConfigsRegistryArgs {
        action: ConfigsRegistryActions::List { enabled_only: true },
        dry_run: true,
    });
    assert!(run.dry_run);
    assert!(run.task.apply(&mut r).is_none());
}

#[test]
fn test_encrypted_task_dry_run() {
    let task = EncryptedConfigsRegistryTask::new(EncryptedRegistryArgs {
        action: EncryptedRegistryActions::Toggle { id: "ssh".to_string(), enable: true },
        dry_run: true,
    });
    assert_eq!(task.name(), "Encrypted Configs Registry");
    let ops = task.dry_run("/e.json");
    assert_eq!(ops[0].description, "Enable encrypted registry entry (ssh)");
    assert_eq!(ops[1].description, "Save encrypted registry");
    let mut r = EncryptedConfigsRegistry::new();
    assert!(matches!(task.apply(&mut r), Some(EditOutcome::SwitchFailed(_))));
}

#[test]
fn test_package_task_add_parses_lists() {
    let task = PackageRegistryTask::new(PackageRegistryArgs {
        action: PackageRegistryActions::Add {
            id: "brew".to_string(),
            name: "Homebrew".to_string(),
            command: "brew".to_string(),
            args: "bundle, dump ,, --file=-".to_string(),
            output_file: "Brewfile".to_string(),
            description: None,
            platforms: Some("macos, linux".to_string()),
        },
        dry_run: false,
    });
    let ops = task.dry_run("/p.json");
    assert_eq!(ops[0].description, "Add package manager entry 'Homebrew' (brew)");
    assert_eq!(ops[0].target, Some("Command: brew, Output: Brewfile".to_string()));
    assert_eq!(ops[1].description, "Save package registry");
    let mut r = PackageRegistry::new();
    assert!(matches!(task.apply(&mut r), Some(EditOutcome::Added)));
    let e = r.get_entry("brew").unwrap();
    assert_eq!(e.args, vec!["bundle".to_string(), "dump".to_string(), "--file=-".to_string()]);
    assert_eq!(e.platforms, Some(vec!["macos".to_string(), "linux".to_string()]));
    let compatible = r.get_platform_compatible_entries("linux");
    assert_eq!(compatible.len(), 1);
    assert_eq!(r.get_platform_compatible_entries("windows").len(), 0);
}

#[test]
fn test_parse_comma_list() {
    assert_eq!(parse_comma_list(" a, b ,,c "), vec!["a".to_string(), "b".to_string(), "c".to_string()]);
    assert!(parse_comma_list("").is_empty());
    assert!(parse_comma_list(" , ").is_empty());
}

fn package(name: &str, enabled: bool, platforms: Option<Vec<&str>>) -> mntn::registries::package_registry::PackageManagerEntry {
    mntn::registries::package_registry::PackageManagerEntry {
        name: name.to_string(),
        command: name.to_string(),
        args: vec!["list".to_string(), "--all".to_string()],
        output_file: format!("{}.txt", name),
        enabled,
        description: None,
        platforms: platforms.map(|ps| ps.into_iter().map(|p| p.to_string()).collect()),
    }
}

#[test]
fn test_configs_listing_sorted_by_id() {
    let mut r = ConfigsRegistry::new();
    r.add_entry("zsh".to_string(), entry("zsh"));
    let mut off = entry("bash");
    off.enabled = false;
    off.description = Some("Shell".to_string());
    r.add_entry("bash".to_string(), off);
    r.add_entry("git".to_string(), entry("git"));
    let lines = mntn::tasks::configs_registry::list_lines(&r, false);
    let expected: Vec<&str> = vec![
        "Registry Entries",
        "================",
        "",
        "[ ] bash (bash)",
        "    Source: bash.conf",
        "    Target: /home/u/.bash",
        "    Shell",
        "",
        "[x] git (git)",
        "    Source: git.conf",
        "    Target: /home/u/.git",
        "",
        "[x] zsh (zsh)",
        "    Source: zsh.conf",
        "    Target: /home/u/.zsh",
        "",
        "Summary: 3 total entries, 2 enabled",
    ];
    assert_eq!(lines, expected);
}

#[test]
fn test_configs_listing_enabled_only() {
    let mut r = ConfigsRegistry::new();
    let mut off = entry("b");
    off.enabled = false;
    r.add_entry("b".to_string(), off);
    r.add_entry("a".to_string(), entry("a"));
    let lines = mntn::tasks::configs_registry::list_lines(&r, true);
    assert_eq!(lines.len(), 8);
    assert_eq!(lines[3], "[x] a (a)");
    assert_eq!(lines[7], "Summary: 2 total entries, 1 enabled");
}

#[test]
fn test_sorted_by_id_orders_by_code_point() {
    let mut r = ConfigsRegistry::new();
    for id in ["b", "B", "ab", "a", "b1"] {
        r.add_entry(id.to_string(), entry(id));
    }
    let ids: Vec<String> = r.sorted_by_id().into_iter().map(|(id, _)| id).collect();
    assert_eq!(ids, vec!["B", "a", "ab", "b", "b1"]);
}

#[test]
fn test_text_less_matches_string_order() {
    for (a, b) in [("", "a"), ("a", "b"), ("ab", "b"), ("a", "ab"), ("Z", "a"), ("é", "z"), ("same", "same")] {
        assert_eq!(mntn::text::text_less(a, b), a < b, "{} < {}", a, b);
        assert_eq!(mntn::text::text_less(b, a), b < a, "{} < {}", b, a);
    }
}

#[test]
fn test_encrypted_listing_marks_encrypted_names() {
    let mut r = EncryptedConfigsRegistry::new();
    r.add_entry(
        "ssh".to_string(),
        mntn::registries::encrypted_configs_registry::EncryptedRegistryEntry {
            name: "SSH".to_string(),
            source_path: "ssh/config".to_string(),
            target_path: "/home/u/.ssh/config".to_string(),
            enabled: true,
            description: None,
            encrypt_filename: true,
        },
    );
    let lines = mntn::tasks::encrypted_configs_registry::list_lines(&r, false);
    assert_eq!(lines[0], "Encrypted Registry Entries");
    assert_eq!(lines[1], "==========================");
    assert_eq!(lines[3], "[x] SSH (ssh) [encrypted filename]");
    assert_eq!(lines[lines.len() - 1], "Summary: 1 total entries, 1 enabled");
}

#[test]
fn test_package_listing_platforms() {
    let mut r = PackageRegistry::new();
    r.add_entry("brew".to_string(), package("brew", true, Some(vec!["macos"])));
    r.add_entry("apt".to_string(), package("apt", false, Some(vec!["linux", "debian"])));
    r.add_entry("cargo".to_string(), package("cargo", true, None));
    let lines = mntn::tasks::package_registry::list_lines(&r, false, false, "linux");
    let expected: Vec<&str> = vec![
        "📦 Package Manager Registry",
        "===========================",
        "Current platform: linux",
        "",
        "✅ brew (brew)",
        "   Command: brew list --all",
        "   Output: brew.txt",
        "   Platforms: (macos) [INCOMPATIBLE]",
        "",
        "❌ apt (apt)",
        "   Command: apt list --all",
        "   Output: apt.txt",
        "   Platforms: (linux, debian)",
        "",
        "✅ cargo (cargo)",
        "   Command: cargo list --all",
        "   Output: cargo.txt",
        "   Platforms: (all platforms)",
        "",
        "Total entries: 3 (enabled: 2)",
    ];
    assert_eq!(lines, expected);
}

#[test]
fn test_package_listing_filters() {
    let mut r = PackageRegistry::new();
    r.add_entry("brew".to_string(), package("brew", true, Some(vec!["macos"])));
    r.add_entry("apt".to_string(), package("apt", false, Some(vec!["linux"])));
    r.add_entry("cargo".to_string(), package("cargo", true, None));
    let lines = mntn::tasks::package_registry::list_lines(&r, false, true, "linux");
    assert_eq!(lines[4], "✅ cargo (cargo)");
    assert_eq!(lines.len(), 10);
    let all_windows = mntn::tasks::package_registry::list_lines(&r, true, true, "windows");
    assert_eq!(all_windows.len(), 10);
    let mut off = PackageRegistry::new();
    off.add_entry("apt".to_string(), package("apt", false, Some(vec!["linux"])));
    let none = mntn::tasks::package_registry::list_lines(&off, true, false, "linux");
    assert_eq!(none[2], "No package manager entries found.");
    assert_eq!(none.len(), 3);
    let empty = mntn::tasks::package_registry::list_lines(&PackageRegistry::new(), false, false, "linux");
    assert_eq!(empty, vec!["📦 Package Manager Registry", "===========================", "No package manager entries found."]);
}
