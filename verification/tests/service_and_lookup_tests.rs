use mntn::cli::DeleteArgs;
use mntn::registries::package_registry::{PackageManagerEntry, PackageRegistry};
use mntn::tasks::clean::{package_tool_commands, package_tools_from};
use mntn::tasks::delete::{file_action, get_bundle_identifier, is_related_name, FileAction};
use mntn::tasks::install::TOPGRADE_COMMAND;
use mntn::tasks::purge::{windows_services_from_items, windows_services_from_listing, ServiceType};
use mntn::tasks::validate::commands_to_find;
use mntn::utils::system::{found_flags, look_up_commands, CommandLookup, Platform};

fn manager(name: &str, command: &str, platforms: Option<Vec<String>>) -> PackageManagerEntry {
    PackageManagerEntry {
        name: name.to_string(),
        command: command.to_string(),
        args: vec![],
        output_file: format!("{}.txt", command),
        enabled: true,
        description: None,
        platforms,
    }
}

#[test]
fn test_windows_services_from_array() {
    let files = windows_services_from_listing(r#"[{"Name":"Spooler","Status":4},{"Status":1},{"Name":"Fax","Status":1}]"#);
    assert_eq!(files.len(), 2);
    assert_eq!(files[0].display_label, "[Windows Service] Spooler (Running)");
    assert_eq!(files[0].path, "Spooler");
    assert!(!files[0].is_system);
    assert_eq!(files[0].service_type, ServiceType::WindowsService);
    assert_eq!(files[1].display_label, "[Windows Service] Fax (Stopped)");
}

#[test]
fn test_windows_services_from_single_object() {
    let files = windows_services_from_listing(r#"{"Name":"Themes","Status":7}"#);
    assert_eq!(files.len(), 1);
    assert_eq!(files[0].display_label, "[Windows Service] Themes (Unknown)");
    assert_eq!(files[0].path, "Themes");
}

#[test]
fn test_windows_services_from_other_text() {
    assert!(windows_services_from_listing("not json").is_empty());
    assert!(windows_services_from_listing("42").is_empty());
    assert!(windows_services_from_listing("[]").is_empty());
}

#[test]
fn test_windows_services_from_items() {
    let items = vec![(Some("A".to_string()), None), (None, Some(4)), (Some("B".to_string()), Some(4))];
    let files = windows_services_from_items(&items);
    assert_eq!(files.len(), 2);
    assert_eq!(files[0].display_label, "[Windows Service] A (Unknown)");
    assert_eq!(files[1].display_label, "[Windows Service] B (Running)");
}

#[test]
fn test_get_bundle_identifier() {
    let plist = br#"<?xml version="1.0" encoding="UTF-8"?>
<!DOCTYPE plist PUBLIC "-//Apple//DTD PLIST 1.0//EN" "http://www.apple.com/DTDs/PropertyList-1.0.dtd">
<plist version="1.0">
<dict>
    <key>CFBundleIdentifier</key>
    <string>com.example.App</string>
    <key>CFBundleName</key>
    <string>App</string>
</dict>
</plist>"#;
    assert_eq!(get_bundle_identifier(&Some(plist.to_vec())), Some("com.example.App".to_string()));
    let without = br#"<?xml version="1.0" encoding="UTF-8"?>
<plist version="1.0"><dict><key>CFBundleName</key><string>App</string></dict></plist>"#;
    assert_eq!(get_bundle_identifier(&Some(without.to_vec())), None);
    assert_eq!(get_bundle_identifier(&Some(b"garbage".to_vec())), None);
    assert_eq!(get_bundle_identifier(&None), None);
}

#[test]
fn test_file_action() {
    let dry = DeleteArgs { dry_run: true, permanent: true };
    assert_eq!(file_action(&dry, true), FileAction::Report);
    let permanent = DeleteArgs { dry_run: false, permanent: true };
    assert_eq!(file_action(&permanent, true), FileAction::DeletePermanently { sudo_fallback: true });
    assert_eq!(file_action(&permanent, false), FileAction::DeletePermanently { sudo_fallback: false });
    let trash = DeleteArgs { dry_run: false, permanent: false };
    assert_eq!(file_action(&trash, true), FileAction::MoveToTrash);
}

#[test]
fn test_commands_to_find() {
    let mut packages = PackageRegistry::new();
    packages.add_entry("brew".to_string(), manager("Homebrew", "brew", Some(vec!["macos".to_string()])));
    packages.add_entry("cargo".to_string(), manager("Cargo", "cargo", None));
    packages.add_entry("apt".to_string(), manager("APT", "apt-mark", Some(vec!["linux".to_string()])));
    let linux = commands_to_find(&Ok(packages.clone()), Platform::Linux);
    assert_eq!(linux, vec!["cargo".to_string(), "apt-mark".to_string()]);
    let mac = commands_to_find(&Ok(packages), Platform::MacOs);
    assert_eq!(mac, vec!["brew".to_string(), "cargo".to_string()]);
    assert!(commands_to_find(&Err("broken".to_string()), Platform::Linux).is_empty());
}

#[test]
fn test_look_up_commands_follows_the_list() {
    let commands = vec!["definitely-not-a-command-xyz".to_string(), "another-missing-tool-abc".to_string()];
    let lookups = look_up_commands(&commands);
    assert_eq!(lookups.len(), 2);
    assert_eq!(lookups[0].command, "definitely-not-a-command-xyz");
    assert_eq!(lookups[1].command, "another-missing-tool-abc");
    assert!(!lookups[0].found);
    assert_eq!(found_flags(&lookups), vec![false, false]);
}

#[test]
fn test_package_tools() {
    assert_eq!(package_tool_commands(), vec!["brew".to_string(), "npm".to_string(), "pnpm".to_string()]);
    let lookups = vec![
        CommandLookup { command: "brew".to_string(), found: true },
        CommandLookup { command: "npm".to_string(), found: false },
        CommandLookup { command: "pnpm".to_string(), found: true },
    ];
    let tools = package_tools_from(&lookups);
    assert!(tools.brew);
    assert!(!tools.npm);
    assert!(tools.pnpm);
}

#[test]
fn test_topgrade_command() {
    assert_eq!(TOPGRADE_COMMAND, "topgrade");
}

#[test]
fn test_related_name_matches_meta_characters_literally() {
    assert!(is_related_name("com.foo.bar.plist", "Foo.Bar", None));
    assert!(!is_related_name("fooxbar.plist", "Foo.Bar", None));
    assert!(is_related_name("C++ Tool Settings", "c++ tool", None));
    assert!(is_related_name("org.example.app (1).plist", "Other", Some("org.example.app (1)")));
    assert!(!is_related_name("org.example.apps.plist", "Other", Some("org.example.app (1)")));
}
