use mntn::cli::{BackupArgs, ProfileArgs};
use mntn::profile::ActiveProfile;
use mntn::registries::configs_registry::RegistryEntry;
use mntn::registries::package_registry::PackageManagerEntry;
use mntn::tasks::backup::{plan_directory_backup, plan_file_backup, run_with_args, BackupAction, BackupTask};
use mntn::utils::paths::MntnLayout;

fn create_test_profile() -> ActiveProfile {
    ActiveProfile::with_profile("test-profile")
}

fn layout() -> MntnLayout {
    MntnLayout::from_home("/home/u")
}

#[test]
fn test_backup_task_name() {
    let task = BackupTask::new(create_test_profile(), true);
    assert_eq!(task.name(), "Backup");
}

#[test]
fn test_backup_task_new() {
    let profile = create_test_profile();
    let task = BackupTask::new(profile.clone(), false);
    assert_eq!(task.profile.name, profile.name);
    assert!(!task.skip_encrypted);
}

#[test]
fn test_backup_task_new_skip_encrypted() {
    let profile = create_test_profile();
    let task = BackupTask::new(profile.clone(), true);
    assert!(task.skip_encrypted);
}

#[test]
fn test_backup_task_dry_run() {
    let task = BackupTask::new(create_test_profile(), true);
    let _ops = task.dry_run_from(&layout(), &vec![], &vec![], &vec![]);
}

#[test]
fn test_backup_file_not_found() {
    let action = plan_file_backup(false, &None, "/tmp/dest.txt");
    assert_eq!(action, BackupAction::SourceNotFound);
}

#[test]
fn test_backup_directory_not_found() {
    let action = plan_directory_backup(false, &None, "/tmp/dest_dir");
    assert_eq!(action, BackupAction::SourceNotFound);
}

#[test]
fn test_backup_file_plans() {
    assert_eq!(plan_file_backup(true, &None, "/b/dest.txt"), BackupAction::Copy);
    assert_eq!(
        plan_file_backup(true, &Some("/b/./dest.txt".to_string()), "/b/dest.txt"),
        BackupAction::ConvertSymlink
    );
    assert_eq!(plan_file_backup(true, &Some("/elsewhere".to_string()), "/b/dest.txt"), BackupAction::Copy);
    assert_eq!(
        plan_directory_backup(true, &Some("/b".to_string()), "/b/dir"),
        BackupAction::ConvertSymlink
    );
}

#[test]
fn test_backup_task_with_profile() {
    let task = BackupTask::new(ActiveProfile::with_profile("work"), true);
    let configs = vec![(
        "zsh".to_string(),
        RegistryEntry {
            name: "Zsh".to_string(),
            source_path: "zsh/.zshrc".to_string(),
            target_path: "/home/u/.zshrc".to_string(),
            enabled: true,
            description: None,
        },
    )];
    let ops = task.dry_run_from(&layout(), &vec![], &configs, &vec![("Keys".to_string(), "ssh/id".to_string())]);
    assert_eq!(ops.len(), 1);
    assert_eq!(ops[0].description, "Backup Zsh");
    assert_eq!(ops[0].target, Some("/home/u/.mntn/backup/profiles/work/zsh/.zshrc".to_string()));
}

#[test]
fn test_backup_task_common_only() {
    let task = BackupTask::new(ActiveProfile::common_only(), false);
    let packages = vec![(
        "brew".to_string(),
        PackageManagerEntry {
            name: "Homebrew".to_string(),
            command: "brew".to_string(),
            args: vec![],
            output_file: "Brewfile".to_string(),
            enabled: true,
            description: None,
            platforms: None,
        },
    )];
    let ops = task.dry_run_from(&layout(), &packages, &vec![], &vec![("Keys".to_string(), "ssh/id".to_string())]);
    assert_eq!(ops.len(), 2);
    assert_eq!(ops[0].description, "Backup Homebrew package list");
    assert_eq!(ops[0].target, Some("/home/u/.mntn/backup/packages/Brewfile".to_string()));
    assert_eq!(ops[1].description, "Backup Keys (encrypted)");
    assert_eq!(ops[1].target, Some("/home/u/.mntn/backup/common/encrypted/ssh/id".to_string()));
}

#[test]
fn test_backup_run_with_args() {
    let run = run_with_args(
        BackupArgs { dry_run: false, skip_encrypted: true, profile_args: ProfileArgs::default() },
        None,
    );
    assert!(!run.dry_run);
    assert!(run.task.skip_encrypted);
    assert_eq!(run.task.profile.name, None);
}
