use mntn::cli::{ProfileArgs, ValidateArgs};
use mntn::profile::{ActiveProfile, ResolvedSource, SourceLayer};
use mntn::registries::configs_registry::{ConfigsRegistry, RegistryEntry};
use mntn::registries::package_registry::{PackageManagerEntry, PackageRegistry};
use mntn::tasks::validate::{
    duplicate_source_findings, join_strings, missing_tool_findings, run_with_args, validate_json_file,
    ConfigValidator, EntryObservations, FileRead, JsonConfigValidator, LayerValidator,
    LegacySymlinkValidator, RegistryValidator, Severity, ValidateTask, ValidationError,
    ValidationInputs, ValidationReport,
};
use mntn::utils::system::Platform;

fn entry(name: &str, source: &str, target: &str) -> RegistryEntry {
    RegistryEntry {
        name: name.to_string(),
        source_path: source.to_string(),
        target_path: target.to_string(),
        enabled: true,
        description: None,
    }
}

fn observed(sources: Vec<ResolvedSource>, read: FileRead, link: Option<&str>) -> EntryObservations {
    EntryObservations {
        sources,
        json_read: read,
        link_target: link.map(|s| s.to_string()),
    }
}

fn source(path: &str, layer: SourceLayer) -> ResolvedSource {
    ResolvedSource { path: path.to_string(), layer }
}

#[test]
fn test_severity_display() {
    assert_eq!(Severity::Error.to_string(), "ERROR");
    assert_eq!(Severity::Warning.to_string(), "WARNING");
    assert_eq!(Severity::Info.to_string(), "INFO");
}

#[test]
fn test_severity_equality() {
    assert_eq!(Severity::Error, Severity::Error);
    assert_ne!(Severity::Error, Severity::Warning);
    assert_ne!(Severity::Warning, Severity::Info);
}

#[test]
fn test_severity_clone() {
    let severity = Severity::Warning;
    let cloned = severity;
    assert_eq!(severity, cloned);
}

#[test]
fn test_validation_error_error() {
    let err = ValidationError::error("Test error message");
    assert_eq!(err.severity, Severity::Error);
    assert_eq!(err.message, "Test error message");
    assert!(err.fix_suggestion.is_none());
}

#[test]
fn test_validation_error_warning() {
    let err = ValidationError::warning("Test warning");
    assert_eq!(err.severity, Severity::Warning);
    assert_eq!(err.message, "Test warning");
    assert!(err.fix_suggestion.is_none());
}

#[test]
fn test_validation_error_info() {
    let err = ValidationError::info("Test info");
    assert_eq!(err.severity, Severity::Info);
    assert_eq!(err.message, "Test info");
    assert!(err.fix_suggestion.is_none());
}

#[test]
fn test_validation_error_with_fix() {
    let err = ValidationError::error("Error").with_fix("Run this command");
    assert_eq!(err.fix_suggestion, Some("Run this command".to_string()));
}

#[test]
fn test_validation_error_with_fix_chaining() {
    let err = ValidationError::warning("Warning message").with_fix("Fix suggestion");
    assert_eq!(err.severity, Severity::Warning);
    assert_eq!(err.message, "Warning message");
    assert_eq!(err.fix_suggestion, Some("Fix suggestion".to_string()));
}

#[test]
fn test_validation_error_clone() {
    let err = ValidationError::error("Cloneable").with_fix("Fix");
    let cloned = err.clone();
    assert_eq!(cloned.severity, err.severity);
    assert_eq!(cloned.message, err.message);
    assert_eq!(cloned.fix_suggestion, err.fix_suggestion);
}

#[test]
fn test_validation_error_debug() {
    let err = ValidationError::info("Debug test");
    let debug_str = format!("{:?}", err);
    assert!(debug_str.contains("ValidationError"));
    assert!(debug_str.contains("Debug test"));
}

#[test]
fn test_validate_json_file_nonexistent() {
    let errors = validate_json_file("/nonexistent/file.json", "Test file", &FileRead::Missing);
    assert!(errors.is_empty());
}

#[test]
fn test_validate_json_content_valid() {
    let read = FileRead::Content(r#"{"key": "value", "number": 42}"#.to_string());
    let errors = validate_json_file("/tmp/valid.json", "Valid JSON", &read);
    assert!(errors.is_empty());
}

#[test]
fn test_validate_json_content_invalid() {
    let read = FileRead::Content("{ invalid json }".to_string());
    let errors = validate_json_file("/tmp/invalid.json", "Invalid JSON", &read);
    assert_eq!(errors.len(), 1);
    assert_eq!(errors[0].severity, Severity::Error);
    assert!(errors[0].message.starts_with("Invalid JSON in Invalid JSON: "));
    assert_eq!(errors[0].fix_suggestion, Some("Check syntax in /tmp/invalid.json".to_string()));
}

#[test]
fn test_validate_json_content_empty_object_and_array() {
    let errors = validate_json_file("/tmp/e.json", "Empty object", &FileRead::Content("{}".to_string()));
    assert!(errors.is_empty());
    let errors = validate_json_file(
        "/tmp/a.json",
        "Array",
        &FileRead::Content(r#"[1, 2, 3, "four"]"#.to_string()),
    );
    assert!(errors.is_empty());
}

#[test]
fn test_validate_json_file_unreadable() {
    let read = FileRead::Failed("permission denied".to_string());
    let errors = validate_json_file("/tmp/x.json", "Settings", &read);
    assert_eq!(errors.len(), 1);
    assert_eq!(errors[0].severity, Severity::Warning);
    assert_eq!(errors[0].message, "Could not read Settings: permission denied");
    assert_eq!(errors[0].fix_suggestion, Some("Check file permissions for /tmp/x.json".to_string()));
}

#[test]
fn test_validation_report_new() {
    let report = ValidationReport::new();
    assert_eq!(report.error_count(), 0);
    assert_eq!(report.warning_count(), 0);
}

#[test]
fn test_validation_report_default() {
    let report = ValidationReport::default();
    assert_eq!(report.error_count(), 0);
    assert_eq!(report.warning_count(), 0);
}

#[test]
fn test_validation_report_add_result_empty() {
    let mut report = ValidationReport::new();
    report.add_result("Test Validator", vec![]);
    assert_eq!(report.error_count(), 0);
}

#[test]
fn test_validation_report_add_result_with_errors() {
    let mut report = ValidationReport::new();
    report.add_result(
        "Test Validator",
        vec![ValidationError::error("Error 1"), ValidationError::error("Error 2")],
    );
    assert_eq!(report.error_count(), 2);
}

#[test]
fn test_validation_report_add_result_with_warnings() {
    let mut report = ValidationReport::new();
    report.add_result(
        "Test Validator",
        vec![
            ValidationError::warning("Warning 1"),
            ValidationError::warning("Warning 2"),
            ValidationError::warning("Warning 3"),
        ],
    );
    assert_eq!(report.warning_count(), 3);
}

#[test]
fn test_validation_report_mixed_severities() {
    let mut report = ValidationReport::new();
    report.add_result(
        "Validator 1",
        vec![
            ValidationError::error("Error"),
            ValidationError::warning("Warning"),
            ValidationError::info("Info"),
        ],
    );
    report.add_result("Validator 2", vec![ValidationError::error("Another error")]);
    assert_eq!(report.error_count(), 2);
    assert_eq!(report.warning_count(), 1);
}

#[test]
fn test_validation_report_print_does_not_panic() {
    let mut report = ValidationReport::new();
    report.add_result("Empty Validator", vec![]);
    report.add_result(
        "Error Validator",
        vec![ValidationError::error("Test error").with_fix("Fix it")],
    );
    report.add_result("Warning Validator", vec![ValidationError::warning("Test warning")]);
    report.add_result("Info Validator", vec![ValidationError::info("Test info")]);
    let lines = report.report_lines();
    assert_eq!(
        lines,
        vec![
            " Empty Validator OK",
            " Error Validator",
            " x Test error",
            " Fix: Fix it",
            " Warning Validator",
            " ! Test warning",
            " Info Validator",
            " i Test info"
        ]
    );
}

#[test]
fn test_validate_task_name() {
    let profile = ActiveProfile::common_only();
    let task = ValidateTask::new(profile);
    assert_eq!(task.name(), "Validate");
}

#[test]
fn test_validate_task_dry_run() {
    let profile = ActiveProfile::common_only();
    let task = ValidateTask::new(profile);
    let ops = task.dry_run();
    assert_eq!(ops.len(), 4);
    assert!(ops.iter().any(|op| op.description.contains("registry")));
    assert!(ops.iter().any(|op| op.description.contains("layer")));
    assert!(ops.iter().any(|op| op.description.contains("JSON")));
    assert!(ops.iter().any(|op| op.description.contains("legacy")));
}

#[test]
fn test_config_validator_new() {
    let profile = ActiveProfile::common_only();
    let validator = ConfigValidator::new(profile);
    assert_eq!(validator.validators.len(), 4);
}

#[test]
fn test_json_config_validator_name() {
    let profile = ActiveProfile::common_only();
    let validator = JsonConfigValidator::new(profile);
    assert_eq!(validator.name(), "JSON Configuration Files");
}

#[test]
fn test_legacy_symlink_validator_name() {
    let validator = LegacySymlinkValidator::new();
    assert_eq!(validator.name(), "Legacy Symlink Check");
}

#[test]
fn test_layer_validator_name() {
    let profile = ActiveProfile::common_only();
    let validator = LayerValidator::new(profile);
    assert_eq!(validator.name(), "Layer Resolution");
}

#[test]
fn test_registry_validator_name() {
    let validator = RegistryValidator;
    assert_eq!(validator.name(), "Registry Files");
}

#[test]
fn test_join_strings() {
    let parts = vec!["a".to_string(), "b".to_string(), "c".to_string()];
    assert_eq!(join_strings(&parts, ", "), "a, b, c");
    assert_eq!(join_strings(&vec![], ", "), "");
}

#[test]
fn test_duplicate_source_findings() {
    let pairs = vec![
        ("one".to_string(), entry("One", "shared.conf", "/t/1")),
        ("two".to_string(), entry("Two", "own.conf", "/t/2")),
        ("three".to_string(), entry("Three", "shared.conf", "/t/3")),
    ];
    let found = duplicate_source_findings(&pairs);
    assert_eq!(found.len(), 1);
    assert_eq!(found[0].severity, Severity::Warning);
    assert_eq!(found[0].message, "Duplicate source path 'shared.conf' used by: one, three");
    assert_eq!(found[0].fix_suggestion, Some("Consider consolidating or renaming entries".to_string()));
}

#[test]
fn test_missing_tool_findings() {
    let tools = vec![
        (
            "brew".to_string(),
            PackageManagerEntry {
                name: "Homebrew".to_string(),
                command: "brew".to_string(),
                args: vec!["bundle".to_string()],
                output_file: "Brewfile".to_string(),
                enabled: true,
                description: None,
                platforms: None,
            },
        ),
        (
            "npm".to_string(),
            PackageManagerEntry {
                name: "npm".to_string(),
                command: "npm".to_string(),
                args: vec![],
                output_file: "npm.txt".to_string(),
                enabled: true,
                description: None,
                platforms: None,
            },
        ),
    ];
    let found = missing_tool_findings(&tools, &vec![false, true]);
    assert_eq!(found.len(), 1);
    assert_eq!(found[0].severity, Severity::Info);
    assert_eq!(found[0].message, "Package manager 'Homebrew' (brew) not found in PATH");
    assert_eq!(
        found[0].fix_suggestion,
        Some("Install brew or disable this entry with 'mntn registry-packages toggle brew -e false'".to_string())
    );
}

#[test]
fn test_layer_validator_findings() {
    let validator = LayerValidator::new(ActiveProfile::common_only());
    let entries = vec![
        ("zsh".to_string(), entry("Zsh", "zsh/.zshrc", "/h/.zshrc")),
        ("vim".to_string(), entry("Vim", "vim/.vimrc", "/h/.vimrc")),
    ];
    let obs = vec![
        observed(
            vec![
                source("/b/machines/m/zsh/.zshrc", SourceLayer::Machine),
                source("/b/common/zsh/.zshrc", SourceLayer::Common),
            ],
            FileRead::Missing,
            None,
        ),
        observed(vec![source("/b/vim/.vimrc", SourceLayer::Legacy)], FileRead::Missing, None),
    ];
    let found = validator.validate_from(&entries, &obs, "/b");
    assert_eq!(found.len(), 2);
    assert_eq!(found[0].severity, Severity::Info);
    assert_eq!(found[0].message, "Zsh (zsh): Found in multiple layers: machine, common (using machine)");
    assert_eq!(found[1].severity, Severity::Warning);
    assert_eq!(found[1].message, "Some configs are still in legacy location (/b)");
}

#[test]
fn test_legacy_symlink_validator_findings() {
    let validator = LegacySymlinkValidator::new();
    let entries = vec![
        ("zsh".to_string(), entry("Zsh", "zsh/.zshrc", "/h/.zshrc")),
        ("vim".to_string(), entry("Vim", "vim/.vimrc", "/h/.vimrc")),
        ("git".to_string(), entry("Git", "git/.gitconfig", "/h/.gitconfig")),
    ];
    let obs = vec![
        observed(vec![], FileRead::Missing, Some("/b/zsh/.zshrc")),
        observed(vec![], FileRead::Missing, Some("/elsewhere/.vimrc")),
        observed(vec![], FileRead::Missing, None),
    ];
    let found = validator.validate_from(&entries, &obs, "/b");
    assert_eq!(found.len(), 2);
    assert_eq!(found[0].message, "Zsh (zsh): Legacy symlink detected");
    assert_eq!(found[1].severity, Severity::Info);
    assert_eq!(found[1].message, "Found 1 legacy symlink(s) from previous mntn version");
}

#[test]
fn test_json_validator_checks_json_sources_only() {
    let validator = JsonConfigValidator::new(ActiveProfile::common_only());
    let entries = vec![
        ("code".to_string(), entry("VSCode", "code/settings.json", "/h/settings.json")),
        ("zsh".to_string(), entry("Zsh", "zsh/.zshrc", "/h/.zshrc")),
    ];
    let obs = vec![
        observed(
            vec![source("/b/common/code/settings.json", SourceLayer::Common)],
            FileRead::Content("{ broken".to_string()),
            None,
        ),
        observed(
            vec![source("/b/common/zsh/.zshrc", SourceLayer::Common)],
            FileRead::Content("{ broken".to_string()),
            None,
        ),
    ];
    let found = validator.validate_from(&entries, &obs);
    assert_eq!(found.len(), 1);
    assert!(found[0].message.starts_with("Invalid JSON in VSCode: "));
}

#[test]
fn test_config_validator_run_all() {
    let validator = ConfigValidator::new(ActiveProfile::with_profile("test-nonexistent"));
    let inputs = ValidationInputs {
        configs: Err("missing file".to_string()),
        packages: Err("missing file".to_string()),
        platform: Platform::Linux,
        backup_root: "/b".to_string(),
        observed: vec![],
    };
    let report = validator.run_all(&inputs);
    let results = report.results();
    assert_eq!(results.len(), 4);
    assert_eq!(results[0].0, "Registry Files");
    assert_eq!(results[0].1.len(), 2);
    assert_eq!(results[0].1[0].message, "Could not load configs registry: missing file");
    assert_eq!(results[0].1[1].message, "Could not load package registry: missing file");
    assert_eq!(results[1].0, "Layer Resolution");
    assert_eq!(results[2].0, "JSON Configuration Files");
    assert_eq!(results[3].0, "Legacy Symlink Check");
    assert_eq!(report.error_count(), 5);
}

#[test]
fn test_config_validator_run_all_with_registries() {
    let validator = ConfigValidator::new(ActiveProfile::common_only());
    let mut configs = ConfigsRegistry::new();
    configs.add_entry("zsh".to_string(), entry("Zsh", "zsh/.zshrc", "/h/.zshrc"));
    let mut off = entry("Off", "off.conf", "/h/off");
    off.enabled = false;
    configs.add_entry("off".to_string(), off);
    let packages = PackageRegistry::new();
    let inputs = ValidationInputs {
        configs: Ok(configs),
        packages: Ok(packages),
        platform: Platform::Linux,
        backup_root: "/b".to_string(),
        observed: vec![observed(
            vec![source("/b/zsh/.zshrc", SourceLayer::Legacy)],
            FileRead::Missing,
            None,
        )],
    };
    let report = validator.run_all(&inputs);
    assert_eq!(report.results().len(), 4);
    assert_eq!(report.error_count(), 0);
    assert_eq!(report.warning_count(), 1);
}

#[test]
fn test_validate_run_with_args() {
    let args = ValidateArgs {
        dry_run: true,
        profile_args: ProfileArgs::default(),
    };
    let run = run_with_args(args, Some("work".to_string()));
    assert!(run.dry_run);
    assert_eq!(run.task.profile.name, Some("work".to_string()));
}
