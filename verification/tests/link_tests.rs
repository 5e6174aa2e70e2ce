use mntn::cli::{LinkArgs, ProfileArgs};
use mntn::profile::{ActiveProfile, ResolvedSource, SourceLayer};
use mntn::registries::configs_registry::RegistryEntry;
use mntn::tasks::link::{plan_link, run_with_args, LinkAction, LinkObservation, LinkTask};

fn create_test_profile() -> ActiveProfile {
    ActiveProfile {
        name: None,
        machine_id: "test-machine".to_string(),
        environment: "test-env".to_string(),
    }
}

fn observation() -> LinkObservation {
    LinkObservation {
        dst_exists: false,
        dst_is_symlink: false,
        dst_is_file: false,
        dst_is_dir: false,
        src_exists: true,
        link_target: None,
    }
}

#[test]
fn test_link_task_name() {
    let task = LinkTask::new(create_test_profile());
    assert_eq!(task.name(), "Link");
}

#[test]
fn test_link_task_dry_run() {
    let task = LinkTask::new(create_test_profile());
    let _ops = task.dry_run_from(&vec![], &vec![]);
}

#[test]
fn test_link_task_dry_run_entries() {
    let task = LinkTask::new(create_test_profile());
    let entries = vec![
        (
            "zsh".to_string(),
            RegistryEntry {
                name: "Zsh".to_string(),
                source_path: "zsh/.zshrc".to_string(),
                target_path: "/home/u/.zshrc".to_string(),
                enabled: true,
                description: None,
            },
        ),
        (
            "vim".to_string(),
            RegistryEntry {
                name: "Vim".to_string(),
                source_path: "vim/.vimrc".to_string(),
                target_path: "/home/u/.vimrc".to_string(),
                enabled: true,
                description: None,
            },
        ),
    ];
    let resolved = vec![
        Some(ResolvedSource {
            path: "/home/u/.mntn/backup/common/zsh/.zshrc".to_string(),
            layer: SourceLayer::Common,
        }),
        None,
    ];
    let ops = task.dry_run_from(&entries, &resolved);
    assert_eq!(ops.len(), 2);
    assert_eq!(ops[0].description, "Link Zsh [common]");
    assert_eq!(
        ops[0].target,
        Some("/home/u/.zshrc -> /home/u/.mntn/backup/common/zsh/.zshrc".to_string())
    );
    assert_eq!(ops[1].description, "Skip Vim (no source)");
    assert_eq!(ops[1].target, Some("/home/u/.vimrc -> ???".to_string()));
}

#[test]
fn test_link_task_new() {
    let profile = create_test_profile();
    let task = LinkTask::new(profile.clone());
    assert_eq!(task.profile.machine_id, profile.machine_id);
    assert_eq!(task.profile.environment, profile.environment);
}

#[test]
fn test_plan_link_creates_missing_link() {
    let steps = plan_link(&observation(), "/b/src.txt");
    assert_eq!(steps, vec![LinkAction::CreateLink]);
}

#[test]
fn test_plan_link_backs_up_existing_file() {
    let mut o = observation();
    o.dst_exists = true;
    o.dst_is_file = true;
    let steps = plan_link(&o, "/b/src.txt");
    assert_eq!(steps, vec![LinkAction::BackupTarget, LinkAction::CreateLink]);
}

#[test]
fn test_plan_link_correct_symlink_unchanged() {
    let mut o = observation();
    o.dst_exists = true;
    o.dst_is_symlink = true;
    o.link_target = Some("/b//src.txt".to_string());
    let steps = plan_link(&o, "/b/src.txt");
    assert_eq!(steps, vec![LinkAction::AlreadyLinked]);
}

#[test]
fn test_plan_link_fixes_wrong_symlink() {
    let mut o = observation();
    o.dst_exists = true;
    o.dst_is_symlink = true;
    o.link_target = Some("/b/wrong.txt".to_string());
    let steps = plan_link(&o, "/b/src.txt");
    assert_eq!(steps, vec![LinkAction::RemoveWrongLink, LinkAction::CreateLink]);
}

#[test]
fn test_plan_link_source_missing() {
    let mut o = observation();
    o.src_exists = false;
    let steps = plan_link(&o, "/b/src.txt");
    assert_eq!(steps, vec![LinkAction::SkipMissingSource]);
}

#[test]
fn test_plan_link_copies_target_to_missing_source() {
    let mut o = observation();
    o.src_exists = false;
    o.dst_exists = true;
    o.dst_is_file = true;
    let steps = plan_link(&o, "/b/src.txt");
    assert_eq!(
        steps,
        vec![LinkAction::CopyFileToSource, LinkAction::BackupTarget, LinkAction::CreateLink]
    );
}

#[test]
fn test_link_run_with_args() {
    let args = LinkArgs {
        dry_run: false,
        profile_args: ProfileArgs {
            profile: Some("work".to_string()),
            machine_id: None,
            environment: Some("prod".to_string()),
        },
    };
    let run = run_with_args(args, Some("home".to_string()));
    assert!(!run.dry_run);
    assert_eq!(run.task.profile.name, Some("work".to_string()));
    assert_eq!(run.task.profile.environment, "prod");
}

#[test]
fn test_process_link_src_not_exists() {
    let mut o = observation();
    o.src_exists = false;
    o.dst_exists = false;
    let steps = plan_link(&o, "/tmp/nonexistent.txt");
    assert_eq!(steps, vec![LinkAction::SkipMissingSource]);
    assert!(!steps.contains(&LinkAction::CreateLink));
}

#[test]
fn test_backup_if_needed_file_not_exists() {
    let steps = plan_link(&observation(), "/b/src.txt");
    assert!(!steps.contains(&LinkAction::BackupTarget));
}
