use mntn::tasks::profile::{check_create, check_delete, has_only_name_chars, is_valid_profile_name, profile_list_line, CreateCheck, DeleteCheck};
use mntn::tasks::use_profile::{switch_to_profile, Switch};

#[test]
fn test_profile_name_validation_empty() {
    let name = "";
    assert!(name.is_empty());
    assert!(!is_valid_profile_name(name));
    assert_eq!(check_create(name, false), CreateCheck::EmptyName);
}

#[test]
fn test_profile_name_validation_invalid_chars() {
    let name = "my profile!";
    let has_invalid = !has_only_name_chars(name);
    assert!(has_invalid);
    assert_eq!(check_create(name, false), CreateCheck::InvalidName);
}

#[test]
fn test_profile_name_validation_valid() {
    let valid_names = ["work", "my-profile", "test_123", "Profile1"];
    for name in valid_names {
        let has_invalid = !has_only_name_chars(name);
        assert!(!has_invalid, "Name '{}' should be valid", name);
        assert!(is_valid_profile_name(name));
    }
}

#[test]
fn test_create_existing_profile_refused() {
    assert_eq!(check_create("work", true), CreateCheck::AlreadyExists);
    assert_eq!(check_create("", true), CreateCheck::AlreadyExists);
    assert_eq!(check_create("work", false), CreateCheck::Create);
}

#[test]
fn test_delete_checks() {
    assert_eq!(check_delete("work", false, &None), DeleteCheck::Missing);
    assert_eq!(check_delete("work", true, &Some("work".to_string())), DeleteCheck::Active);
    assert_eq!(check_delete("work", true, &Some("home".to_string())), DeleteCheck::Delete);
    assert_eq!(check_delete("work", true, &None), DeleteCheck::Delete);
}

#[test]
fn test_profile_list_lines() {
    assert_eq!(profile_list_line("work", Some("Office"), true), "   work - Office ← active");
    assert_eq!(profile_list_line("home", None, false), "   home");
}

#[test]
fn test_switch_to_profile() {
    assert_eq!(switch_to_profile("common", false), Switch::ClearActive);
    assert_eq!(switch_to_profile("none", true), Switch::ClearActive);
    assert_eq!(switch_to_profile("work", false), Switch::Missing);
    assert_eq!(switch_to_profile("work", true), Switch::Activate);
}

fn layout() -> mntn::utils::paths::MntnLayout {
    mntn::utils::paths::MntnLayout::from_home("/home/u")
}

fn create(name: &str, description: Option<&str>) -> mntn::tasks::profile::ProfileStep {
    mntn::tasks::profile::ProfileStep::Create { name: name.to_string(), description: description.map(|d| d.to_string()) }
}

#[test]
fn test_profile_create_then_list() {
    let mut config = mntn::profile::config::ProfileConfig::new(String::new());
    let reply = mntn::tasks::profile::run(create("work", Some("Work setup")), &mut config, &None, &layout(), false);
    assert!(reply.save && reply.make_dir);
    assert_eq!(reply.lines, vec!["✅ Created profile 'work'", "   Description: Work setup", "", "💡 Switch to this profile with: mntn use work"]);
    assert_eq!(config.version, "1.0.0");
    assert!(config.profile_exists("work"));
    let again = mntn::tasks::profile::run(create("work", None), &mut config, &None, &layout(), false);
    assert!(!again.save);
    assert_eq!(again.lines, vec!["⚠️ Profile 'work' already exists"]);
    let bad = mntn::tasks::profile::run(create("a b", None), &mut config, &None, &layout(), false);
    assert_eq!(bad.lines, vec!["⚠️ Profile name can only contain letters, numbers, hyphens, and underscores"]);
    mntn::tasks::profile::run(create("home", None), &mut config, &None, &layout(), false);
    let list = mntn::tasks::profile::run(mntn::tasks::profile::ProfileStep::List, &mut config, &Some("work".to_string()), &layout(), false);
    assert!(!list.save);
    assert_eq!(list.lines, vec!["📋 Available profiles:", "   home", "   work - Work setup ← active"]);
}

#[test]
fn test_profile_show_current_empty() {
    let mut config = mntn::profile::config::ProfileConfig::new("1.0.0".to_string());
    let reply = mntn::tasks::profile::run(mntn::tasks::profile::ProfileStep::ShowCurrent, &mut config, &None, &layout(), false);
    assert_eq!(
        reply.lines,
        vec![
            "📍 No active profile (using common only)",
            "",
            "📋 No profiles configured",
            "",
            "💡 Create a profile with: mntn profile create <name>",
            "",
            "💡 Use 'mntn use <profile>' to switch profiles",
        ]
    );
}

#[test]
fn test_profile_delete() {
    let mut config = mntn::profile::config::ProfileConfig::new("1.0.0".to_string());
    mntn::tasks::profile::run(create("work", None), &mut config, &None, &layout(), false);
    let delete = |name: &str| mntn::tasks::profile::ProfileStep::Delete { name: name.to_string() };
    let active = mntn::tasks::profile::run(delete("work"), &mut config, &Some("work".to_string()), &layout(), true);
    assert!(!active.save);
    assert_eq!(active.lines, vec!["⚠️ Cannot delete active profile 'work'. Switch to another profile first."]);
    let missing = mntn::tasks::profile::run(delete("home"), &mut config, &None, &layout(), false);
    assert_eq!(missing.lines, vec!["⚠️ Profile 'home' does not exist"]);
    let done = mntn::tasks::profile::run(delete("work"), &mut config, &None, &layout(), true);
    assert!(done.save && !done.make_dir);
    assert_eq!(
        done.lines,
        vec![
            "⚠️  Profile directory exists at /home/u/.mntn/backup/profiles/work",
            "   The directory was NOT deleted. Remove manually if desired:",
            "   rm -rf /home/u/.mntn/backup/profiles/work",
            "✅ Deleted profile 'work'",
        ]
    );
    assert!(!config.profile_exists("work"));
}

#[test]
fn test_record_setup_profile() {
    let mut config = mntn::profile::config::ProfileConfig::new(String::new());
    mntn::tasks::setup::record_setup_profile(&mut config, "work".to_string());
    assert_eq!(config.version, "1.0.0");
    assert_eq!(
        config.get_profile("work").unwrap().description.as_deref(),
        Some("Profile created during setup")
    );
}

#[test]
fn test_use_profile_reply() {
    let mut config = mntn::profile::config::ProfileConfig::new("1.0.0".to_string());
    config.create_profile("work".to_string(), None);
    let args = |n: &str| mntn::cli::UseArgs { profile: n.to_string() };
    let common = mntn::tasks::use_profile::run_with_args(args("none"), &config);
    assert_eq!(common.switch, Switch::ClearActive);
    assert_eq!(common.lines, vec!["✅ Switched to common (no active profile)"]);
    let missing = mntn::tasks::use_profile::run_with_args(args("home"), &config);
    assert_eq!(missing.switch, Switch::Missing);
    assert_eq!(
        missing.lines,
        vec![
            "⚠️ Profile 'home' does not exist",
            "",
            "💡 Create it with: mntn profile create home",
            "   Or list available profiles: mntn profile list",
        ]
    );
    let work = mntn::tasks::use_profile::run_with_args(args("work"), &config);
    assert_eq!(work.switch, Switch::Activate);
    assert_eq!(work.name, "work");
    assert_eq!(work.lines[0], "✅ Switched to profile 'work'");
}
