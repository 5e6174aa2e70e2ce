use mntn::cli::{RegistryActions, RegistryArgs};
use mntn::registry::{LinkRegistry, RegistryEntry};
use mntn::tasks::registry::{run, sorted_categories};

fn entry(name: &str, category: &str, enabled: bool) -> RegistryEntry {
    RegistryEntry {
        name: name.to_string(),
        source_path: format!("{}.conf", name),
        target_path: format!("~/.{}", name),
        category: category.to_string(),
        enabled,
        description: None,
    }
}

fn sample() -> LinkRegistry {
    let mut r = LinkRegistry::new();
    r.add_entry("zshrc".to_string(), entry("zshrc", "shell", true));
    r.add_entry("vim".to_string(), entry("vim", "editor", false));
    r.add_entry("bashrc".to_string(), entry("bashrc", "shell", true));
    r
}

fn list(r: &mut LinkRegistry, category: Option<&str>, enabled_only: bool) -> Vec<String> {
    let reply = run(
        RegistryArgs { action: RegistryActions::List { category: category.map(|c| c.to_string()), enabled_only } },
        r,
    );
    assert!(!reply.save);
    reply.lines
}

#[test]
fn test_link_listing_by_category() {
    let mut r = sample();
    let lines = list(&mut r, None, false);
    let expected: Vec<&str> = vec![
        "📋 Registry Entries",
        "==================",
        "",
        "🏷️  EDITOR",
        "──────────",
        "  ❌ vim (vim)",
        "     📁 Source: vim.conf",
        "     🔗 Target: ~/.vim",
        "",
        "",
        "🏷️  SHELL",
        "─────────",
        "  ✅ bashrc (bashrc)",
        "     📁 Source: bashrc.conf",
        "     🔗 Target: ~/.bashrc",
        "",
        "  ✅ zshrc (zshrc)",
        "     📁 Source: zshrc.conf",
        "     🔗 Target: ~/.zshrc",
        "",
        "Summary: 3 total entries, 2 enabled",
    ];
    assert_eq!(lines, expected);
}

#[test]
fn test_link_listing_filters() {
    let mut r = sample();
    let lines = list(&mut r, Some("editor"), true);
    assert_eq!(
        lines,
        vec![
            "📋 Registry Entries",
            "==================",
            "",
            "No entries found in category 'editor'",
            "Summary: 3 total entries, 2 enabled",
        ]
    );
    let shell = list(&mut r, Some("shell"), false);
    assert_eq!(shell.len(), 2 + 3 + 8 + 1);
    let none = list(&mut r, Some("fonts"), false);
    assert_eq!(none.len(), 3);
}

#[test]
fn test_link_rule_counts_bytes() {
    let mut r = LinkRegistry::new();
    r.add_entry("x".to_string(), entry("x", "é", true));
    let lines = list(&mut r, None, false);
    assert_eq!(lines[3], format!("🏷️  {}", "é".to_uppercase()));
    assert_eq!(lines[4], "─".repeat("é".len() + 4));
}

#[test]
fn test_link_add_remove_toggle() {
    let mut r = sample();
    let add = RegistryActions::Add {
        id: "git".to_string(),
        name: "Git".to_string(),
        source: "git/config".to_string(),
        target: "~/.gitconfig".to_string(),
        category: "vcs".to_string(),
        description: None,
    };
    let reply = run(RegistryArgs { action: add.clone() }, &mut r);
    assert!(reply.save);
    assert_eq!(reply.lines, vec!["✅ Added entry 'Git' to registry", "   ID: git", "   Category: vcs"]);
    assert!(r.get_entry("git").unwrap().enabled);
    let again = run(RegistryArgs { action: add }, &mut r);
    assert!(!again.save);
    assert_eq!(again.lines, vec!["❌ Entry with ID 'git' already exists"]);

    let off = run(RegistryArgs { action: RegistryActions::Toggle { id: "git".to_string(), enable: false } }, &mut r);
    assert!(off.save);
    assert_eq!(off.lines, vec!["✅ disabled entry 'Git'"]);
    assert!(!r.get_entry("git").unwrap().enabled);
    let missing = run(RegistryArgs { action: RegistryActions::Toggle { id: "nope".to_string(), enable: true } }, &mut r);
    assert!(!missing.save);
    assert_eq!(missing.lines, vec!["❌ Entry 'nope' not found"]);

    let removed = run(RegistryArgs { action: RegistryActions::Remove { id: "git".to_string() } }, &mut r);
    assert!(removed.save);
    assert_eq!(removed.lines, vec!["✅ Removed entry 'Git' from registry"]);
    assert!(r.get_entry("git").is_none());
    let gone = run(RegistryArgs { action: RegistryActions::Remove { id: "git".to_string() } }, &mut r);
    assert!(!gone.save);
    assert_eq!(gone.lines, vec!["❌ Entry with ID 'git' not found"]);
}

#[test]
fn test_sorted_categories_once_each() {
    let r = sample();
    let sorted = r.sorted_by_id();
    assert_eq!(sorted_categories(&sorted), vec!["editor".to_string(), "shell".to_string()]);
}
