use mntn::cli::{ProfileArgs, RestoreArgs};
use mntn::profile::ActiveProfile;
use mntn::tasks::restore::{plan_restore, run_with_args, RestoreAction, RestoreTask};

fn create_test_profile() -> ActiveProfile {
    ActiveProfile::with_profile("test-profile")
}

#[test]
fn test_restore_task_name() {
    let task = RestoreTask::new(create_test_profile());
    assert_eq!(task.name(), "Restore");
}

#[test]
fn test_restore_task_new() {
    let profile = create_test_profile();
    let task = RestoreTask::new(profile.clone());
    assert_eq!(task.profile.name, profile.name);
}

#[test]
fn test_restore_task_dry_run() {
    let task = RestoreTask::new(create_test_profile());
    let _ops = task.dry_run_from(&vec![], &vec![]);
}

#[test]
fn test_restore_task_profile_display() {
    let profile = ActiveProfile::with_profile("test-profile");
    let task = RestoreTask::new(profile);
    assert_eq!(task.profile.name, Some("test-profile".to_string()));
}

#[test]
fn test_plan_restore_file() {
    let steps = plan_restore(false, false, "/home/u/nested/dir/target.txt");
    assert_eq!(
        steps,
        vec![RestoreAction::ReadBackup, RestoreAction::CreateParentDir, RestoreAction::WriteTarget]
    );
}

#[test]
fn test_plan_restore_replaces_symlink() {
    let steps = plan_restore(false, true, "/home/u/target.txt");
    assert_eq!(
        steps,
        vec![
            RestoreAction::RemoveLegacyLink,
            RestoreAction::ReadBackup,
            RestoreAction::CreateParentDir,
            RestoreAction::WriteTarget
        ]
    );
}

#[test]
fn test_plan_restore_directory() {
    let steps = plan_restore(true, false, "/home/u/target_dir");
    assert_eq!(steps, vec![RestoreAction::CreateTargetDir, RestoreAction::SyncDirectory]);
}

#[test]
fn test_plan_restore_root_target_has_no_parent() {
    let steps = plan_restore(false, false, "/");
    assert_eq!(steps, vec![RestoreAction::ReadBackup, RestoreAction::WriteTarget]);
}

#[test]
fn test_restore_run_with_args() {
    let args = RestoreArgs {
        dry_run: true,
        profile_args: ProfileArgs::default(),
    };
    let run = run_with_args(args, None);
    assert!(run.dry_run);
    assert_eq!(run.task.profile.name, None);
    assert_eq!(run.task.profile.machine_id, "");
}
