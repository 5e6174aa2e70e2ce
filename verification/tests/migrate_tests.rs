use mntn::cli::{MigrateArgs, MigrateLayer, ProfileArgs};
use mntn::path::join;
use mntn::profile::ActiveProfile;
use mntn::registries::configs_registry::RegistryEntry;
use mntn::tasks::migrate::{run_with_args, MigrateTarget, MigrateTask, MoveResult};
use mntn::utils::paths::{get_backup_root, MntnLayout};

fn create_test_profile() -> ActiveProfile {
    ActiveProfile {
        name: None,
        machine_id: "test-machine".to_string(),
        environment: "test-env".to_string(),
    }
}

fn test_layout() -> MntnLayout {
    MntnLayout::from_home("/home/tester")
}

fn entry(source: &str) -> RegistryEntry {
    RegistryEntry {
        name: source.to_string(),
        source_path: source.to_string(),
        target_path: format!("/home/tester/{}", source),
        enabled: true,
        description: None,
    }
}

#[test]
fn test_migrate_target_display() {
    assert_eq!(MigrateTarget::Common.to_string(), "common");
    assert_eq!(MigrateTarget::Machine.to_string(), "machine");
    assert_eq!(MigrateTarget::Environment.to_string(), "environment");
}

#[test]
fn test_migrate_target_equality() {
    assert_eq!(MigrateTarget::Common, MigrateTarget::Common);
    assert_ne!(MigrateTarget::Common, MigrateTarget::Machine);
    assert_ne!(MigrateTarget::Machine, MigrateTarget::Environment);
}

#[test]
fn test_migrate_target_clone() {
    let target = MigrateTarget::Machine;
    let cloned = target;
    assert_eq!(target, cloned);
}

#[test]
fn test_migrate_target_resolve_path_common() {
    let profile = create_test_profile();
    let path = MigrateTarget::Common.resolve_path(&profile).unwrap();
    assert!(path.contains("common"));
}

#[test]
fn test_migrate_target_resolve_path_machine() {
    let profile = create_test_profile();
    let path = MigrateTarget::Machine.resolve_path(&profile).unwrap();
    assert!(path.contains("machines"));
    assert!(path.contains("test-machine"));
}

#[test]
fn test_migrate_target_resolve_path_environment() {
    let profile = create_test_profile();
    let path = MigrateTarget::Environment.resolve_path(&profile).unwrap();
    assert!(path.contains("environments"));
    assert!(path.contains("test-env"));
}

#[test]
fn test_migrate_target_resolve_path_different_profiles() {
    let profile1 = ActiveProfile {
        name: None,
        machine_id: "machine-1".to_string(),
        environment: "env-1".to_string(),
    };
    let profile2 = ActiveProfile {
        name: None,
        machine_id: "machine-2".to_string(),
        environment: "env-2".to_string(),
    };

    let path1 = MigrateTarget::Machine.resolve_path(&profile1);
    let path2 = MigrateTarget::Machine.resolve_path(&profile2);
    assert_ne!(path1, path2);

    let path1 = MigrateTarget::Environment.resolve_path(&profile1);
    let path2 = MigrateTarget::Environment.resolve_path(&profile2);
    assert_ne!(path1, path2);
}

#[test]
fn test_migrate_target_resolve_path_in_layout() {
    let profile = create_test_profile();
    let layout = test_layout();
    assert_eq!(
        MigrateTarget::Common.resolve_path_in(&layout, &profile),
        "/home/tester/.mntn/backup/common"
    );
    assert_eq!(
        MigrateTarget::Machine.resolve_path_in(&layout, &profile),
        "/home/tester/.mntn/backup/machines/test-machine"
    );
    assert_eq!(
        MigrateTarget::Environment.resolve_path_in(&layout, &profile),
        "/home/tester/.mntn/backup/environments/test-env"
    );
}

#[test]
fn test_migrate_task_name() {
    let task = MigrateTask::new(create_test_profile(), MigrateTarget::Common);
    assert_eq!(task.name(), "Migrate");
}

#[test]
fn test_migrate_task_new() {
    let profile = create_test_profile();
    let task = MigrateTask::new(profile.clone(), MigrateTarget::Machine);
    assert_eq!(task.profile.machine_id, profile.machine_id);
    assert_eq!(task.target, MigrateTarget::Machine);
}

#[test]
fn test_migrate_task_dry_run() {
    let task = MigrateTask::new(create_test_profile(), MigrateTarget::Common);
    let ops = task.dry_run_from(&test_layout(), &vec![]);
    assert!(!ops.is_empty());
}

#[test]
fn test_migrate_task_dry_run_has_target() {
    let task = MigrateTask::new(create_test_profile(), MigrateTarget::Environment);
    let ops = task.dry_run_from(&test_layout(), &vec![]);
    for op in &ops {
        assert!(op.target.is_some());
    }
}

#[test]
fn test_migrate_task_dry_run_lists_files() {
    let task = MigrateTask::new(create_test_profile(), MigrateTarget::Machine);
    let legacy = vec![(
        "zsh/.zshrc".to_string(),
        "/home/tester/.mntn/backup/zsh/.zshrc".to_string(),
    )];
    let ops = task.dry_run_from(&test_layout(), &legacy);
    assert_eq!(ops.len(), 1);
    assert_eq!(ops[0].description, "Migrate to machine");
    assert_eq!(
        ops[0].target,
        Some(
            "/home/tester/.mntn/backup/zsh/.zshrc -> /home/tester/.mntn/backup/machines/test-machine/zsh/.zshrc"
                .to_string()
        )
    );
}

#[test]
fn test_move_result_ok() {
    let result = MoveResult::ok();
    assert!(result.removal_warning.is_none());
}

#[test]
fn test_move_result_with_warning() {
    let result = MoveResult::with_removal_warning("test warning".to_string());
    assert!(result.removal_warning.is_some());
    assert_eq!(result.removal_warning.unwrap(), "test warning");
}

#[test]
fn test_is_in_layered_subdir_common() {
    let profile = create_test_profile();
    let task = MigrateTask::new(profile, MigrateTarget::Common);

    let backup_root = get_backup_root().unwrap();
    let common_path = join(&join(&backup_root, "common"), "some_file.txt");

    assert!(task.is_in_layered_subdir(&common_path));
}

#[test]
fn test_is_in_layered_subdir_machines() {
    let profile = create_test_profile();
    let task = MigrateTask::new(profile, MigrateTarget::Common);

    let backup_root = get_backup_root().unwrap();
    let machine_path = join(&join(&join(&backup_root, "machines"), "my-machine"), "file.txt");

    assert!(task.is_in_layered_subdir(&machine_path));
}

#[test]
fn test_is_in_layered_subdir_environments() {
    let profile = create_test_profile();
    let task = MigrateTask::new(profile, MigrateTarget::Common);

    let backup_root = get_backup_root().unwrap();
    let env_path = join(&join(&join(&backup_root, "environments"), "prod"), "file.txt");

    assert!(task.is_in_layered_subdir(&env_path));
}

#[test]
fn test_is_in_layered_subdir_legacy() {
    let profile = create_test_profile();
    let task = MigrateTask::new(profile, MigrateTarget::Common);

    let backup_root = get_backup_root().unwrap();
    let legacy_path = join(&backup_root, "some_legacy_file.txt");

    assert!(!task.is_in_layered_subdir(&legacy_path));
}

#[test]
fn test_is_in_layered_subdir_outside_backup() {
    let profile = create_test_profile();
    let task = MigrateTask::new(profile, MigrateTarget::Common);

    let outside_path = "/tmp/some_file.txt".to_string();

    assert!(!task.is_in_layered_subdir(&outside_path));
}

#[test]
fn test_find_legacy_files_empty() {
    let profile = create_test_profile();
    let task = MigrateTask::new(profile, MigrateTarget::Common);

    let legacy = task.find_legacy_files(&test_layout(), &vec![], &vec![], &vec![]);
    assert!(legacy.is_empty());
}

#[test]
fn test_find_legacy_files() {
    let task = MigrateTask::new(create_test_profile(), MigrateTarget::Common);
    let entries = vec![
        ("a".to_string(), entry("a.conf")),
        ("b".to_string(), entry("b.conf")),
        ("c".to_string(), entry("c.conf")),
        ("d".to_string(), entry("common/d.conf")),
    ];
    let legacy_exists = vec![true, true, false, true];
    let layered = vec![
        vec![false, false, false],
        vec![false, true, false],
        vec![false, false, false],
        vec![false, false, false],
    ];
    let found = task.find_legacy_files(&test_layout(), &entries, &legacy_exists, &layered);
    assert_eq!(
        found,
        vec![(
            "a.conf".to_string(),
            "/home/tester/.mntn/backup/a.conf".to_string()
        )]
    );
}

#[test]
fn test_migrate_task_all_targets() {
    let profile = create_test_profile();

    for target in [
        MigrateTarget::Common,
        MigrateTarget::Machine,
        MigrateTarget::Environment,
    ] {
        let task = MigrateTask::new(profile.clone(), target);
        assert_eq!(task.name(), "Migrate");
        let ops = task.dry_run_from(&test_layout(), &vec![]);
        assert!(!ops.is_empty());
    }
}

#[test]
fn test_migrate_run_with_args() {
    let args = MigrateArgs {
        dry_run: true,
        profile_args: ProfileArgs {
            profile: None,
            machine_id: Some("m".to_string()),
            environment: None,
        },
        layer: MigrateLayer::Machine,
    };
    let run = run_with_args(args, Some("work".to_string()));
    assert!(run.dry_run);
    assert_eq!(run.task.target, MigrateTarget::Machine);
    assert_eq!(run.task.profile.name, Some("work".to_string()));
    assert_eq!(run.task.profile.machine_id, "m");
    assert_eq!(run.task.profile.environment, "");
}

#[test]
fn test_verify_copied_entries() {
    assert!(mntn::tasks::migrate::verify_copied_entries(3, 3).is_ok());
    assert_eq!(
        mntn::tasks::migrate::verify_copied_entries(3, 2).unwrap_err(),
        "Verification failed: source had 3 entries but destination has 2"
    );
}

#[test]
fn test_verify_copied_size() {
    assert!(mntn::tasks::migrate::verify_copied_size(10, 10).is_ok());
    assert_eq!(
        mntn::tasks::migrate::verify_copied_size(10, 0).unwrap_err(),
        "Verification failed: source file size (10) differs from destination (0)"
    );
}

#[test]
fn test_removal_warning_text() {
    let r = mntn::tasks::migrate::removal_warning(true, "/old/dir", "busy");
    assert_eq!(
        r.removal_warning.unwrap(),
        "Failed to remove source directory '/old/dir' after successful copy: busy. This may result in duplicate data."
    );
    let f = mntn::tasks::migrate::removal_warning(false, "/old/f", "denied");
    assert!(f.removal_warning.unwrap().starts_with("Failed to remove source file '/old/f'"));
}

#[test]
fn test_layer_dirs_distinct_for_relative_ids() {
    let layout = mntn::utils::paths::MntnLayout::from_home("/home/u");
    let p = |m: &str, e: &str| mntn::profile::ActiveProfile {
        name: None,
        machine_id: m.to_string(),
        environment: e.to_string(),
    };
    let a = p("machine-1", "env-1");
    let b = p("machine-2", "env-2");
    let dir = |t: MigrateTarget, x: &mntn::profile::ActiveProfile| t.resolve_path_in(&layout, x);
    assert_ne!(dir(MigrateTarget::Machine, &a), dir(MigrateTarget::Machine, &b));
    assert_ne!(dir(MigrateTarget::Environment, &a), dir(MigrateTarget::Environment, &b));
    assert_eq!(dir(MigrateTarget::Common, &a), dir(MigrateTarget::Common, &b));
    assert!(dir(MigrateTarget::Machine, &a).contains("machines/machine-1"));
    assert_eq!(dir(MigrateTarget::Machine, &p("/abs", "")), "/abs");
}
