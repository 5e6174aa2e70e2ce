//! The interactive setup: which answers lead to what.
use vstd::prelude::*;
use crate::profile::ActiveProfile;
use crate::profile::config::ProfileConfig;
use crate::tasks::profile::{has_only_name_chars, valid_profile_name};
use crate::text::{ends_with_str, has_suffix, owned, str_eq, strs_view};

verus! {

/// Whether an entry of the backup directory is left from the flat layout:
/// anything but the `common`, `profiles` and `packages` directories and
/// `.txt` files.
pub open spec fn is_legacy_entry_name_spec(name: Seq<char>) -> bool {
    name != "common"@ && name != "profiles"@ && name != "packages"@ && !has_suffix(name, ".txt"@)
}

/// Whether an entry of the backup directory is left from the flat layout.
pub fn is_legacy_entry_name(name: &str) -> (r: bool)
    ensures
        r == is_legacy_entry_name_spec(name@),
{
    !str_eq(name, "common") && !str_eq(name, "profiles") && !str_eq(name, "packages") && !ends_with_str(name, ".txt")
}

/// Whether the backup directory holds anything from the flat layout, given
/// the names of its entries.
pub fn has_legacy_entries(names: &Vec<String>) -> (r: bool)
    ensures
        r == exists|i: int| 0 <= i < names@.len() && #[trigger] is_legacy_entry_name_spec(names@[i]@),
{
    let mut i: usize = 0;
    while i < names.len()
        invariant
            i <= names.len(),
            forall|j: int| 0 <= j < i ==> !#[trigger] is_legacy_entry_name_spec(names@[j]@),
        decreases names.len() - i,
    {
        if is_legacy_entry_name(names[i].as_str()) {
            return true;
        }
        i = i + 1;
    }
    false
}

/// Why a profile name typed at the prompt is refused, if it is.
pub fn profile_name_error(input: &str) -> (r: Option<&'static str>)
    ensures
        input@.len() == 0 ==> (r matches Some(m) && m@ == "Profile name cannot be empty"@),
        input@.len() > 0 && !valid_profile_name(input@) ==> (r matches Some(m) && m@
            == "Use only letters, numbers, hyphens, and underscores"@),
        valid_profile_name(input@) ==> r is None,
{
    if input.unicode_len() == 0 {
        Some("Profile name cannot be empty")
    } else if !has_only_name_chars(input) {
        Some("Use only letters, numbers, hyphens, and underscores")
    } else {
        None
    }
}

/// The profile the initial backup runs with: the one created, or the
/// common layer alone.
pub fn setup_profile(profile_name: &Option<String>) -> (r: ActiveProfile)
    ensures
        match *profile_name {
            Some(n) => r.name matches Some(m) && m@ == n@,
            None => r.name is None,
        },
        r.machine_id@.len() == 0,
        r.environment@.len() == 0,
{
    match profile_name {
        Some(n) => ActiveProfile::with_profile(n.as_str()),
        None => ActiveProfile::common_only(),
    }
}

/// The answers given during setup.
#[derive(Debug, Clone)]
pub struct SetupChoices {
    pub profile_name: Option<String>,
    pub migrate: bool,
    pub backup: bool,
    pub include_encrypted: bool,
    pub install_tasks: bool,
}

/// The summary shown before setup proceeds.
pub open spec fn summary_spec(c: SetupChoices) -> Seq<Seq<char>> {
    let head = seq![
        "📋 Setup Summary:"@,
        match c.profile_name {
            Some(n) => "   Profile: "@ + n@,
            None => "   Profile: common (no active profile)"@,
        },
    ];
    let migrate = if c.migrate { seq!["   ✓ Migrate legacy files to common/"@] } else { seq![] };
    let backup = if c.backup {
        seq![
            "   ✓ Run initial backup"@,
            if c.include_encrypted {
                "   ✓ Include encrypted configs in initial backup"@
            } else {
                "   ⚠ Encrypted configs will be skipped during initial backup"@
            },
        ]
    } else {
        seq![]
    };
    let install = if c.install_tasks { seq!["   ✓ Install scheduled tasks"@] } else { seq![] };
    head + migrate + backup + install
}

/// The lines of the setup summary.
pub fn summary_lines(c: &SetupChoices) -> (r: Vec<String>)
    ensures
        crate::path::views(r@) == summary_spec(*c),
{
    let mut r: Vec<String> = Vec::new();
    r.push(owned("📋 Setup Summary:"));
    match &c.profile_name {
        Some(n) => {
            let mut s = owned("   Profile: ");
            s.append(n.as_str());
            r.push(s);
        },
        None => r.push(owned("   Profile: common (no active profile)")),
    }
    if c.migrate {
        r.push(owned("   ✓ Migrate legacy files to common/"));
    }
    if c.backup {
        r.push(owned("   ✓ Run initial backup"));
        if c.include_encrypted {
            r.push(owned("   ✓ Include encrypted configs in initial backup"));
        } else {
            r.push(owned("   ⚠ Encrypted configs will be skipped during initial backup"));
        }
    }
    if c.install_tasks {
        r.push(owned("   ✓ Install scheduled tasks"));
    }
    proof {
        assert(crate::path::views(r@) =~= summary_spec(*c));
    }
    r
}

/// The description given to a profile created during setup.
pub const SETUP_PROFILE_DESCRIPTION: &'static str = "Profile created during setup";

/// Records the profile chosen during setup in the profile configuration,
/// with [`SETUP_PROFILE_DESCRIPTION`]; a configuration without a version
/// gets version `1.0.0`.
pub fn record_setup_profile(config: &mut ProfileConfig, name: String)
    requires
        old(config).wf(),
    ensures
        final(config).wf(),
        final(config).version@ == (if old(config).version@.len() == 0 {
            "1.0.0"@
        } else {
            old(config).version@
        }),
        final(config).view().contains_key(name@),
        final(config).view() == old(config).view().insert(name@, final(config).view()[name@]),
        final(config).view()[name@].description matches Some(d) && d@ == SETUP_PROFILE_DESCRIPTION@,
{
    if config.version.unicode_len() == 0 {
        config.version = owned("1.0.0");
    }
    config.create_profile(name, Some(owned(SETUP_PROFILE_DESCRIPTION)));
}

/// The note shown before the initial backup, on whether encrypted
/// configurations are included.
pub open spec fn backup_note_spec(include_encrypted: bool) -> Seq<char> {
    if include_encrypted {
        "   Note: Encrypted configs will be included and you will be prompted for a password if needed."@
    } else {
        "   Note: Encrypted configs are skipped to avoid prompting for a password during initial setup."@
    }
}

/// The note of [`backup_note_spec`].
pub fn backup_note(include_encrypted: bool) -> (r: &'static str)
    ensures
        r@ == backup_note_spec(include_encrypted),
{
    if include_encrypted {
        "   Note: Encrypted configs will be included and you will be prompted for a password if needed."
    } else {
        "   Note: Encrypted configs are skipped to avoid prompting for a password during initial setup."
    }
}

/// The lines that close the setup: the quick reference of commands.
pub open spec fn closing_spec() -> Seq<Seq<char>> {
    seq![
        Seq::empty(),
        "Quick reference:"@,
        "   mntn backup          - Backup your configurations"@,
        "   mntn restore         - Restore configurations from backup"@,
        "   mntn use <name>      - Switch to a different profile"@,
        "   mntn profile         - List and manage profiles"@,
        "   mntn validate        - Check configuration status"@,
        "   mntn sync --help     - Git sync options"@,
        Seq::empty(),
        "   Remember: Run 'mntn backup' after editing config files!"@,
        Seq::empty(),
    ]
}

/// The lines of [`closing_spec`].
pub fn closing_lines() -> (r: Vec<String>)
    ensures
        strs_view(r@) == closing_spec(),
{
    let r = vec![
        String::new(),
        owned("Quick reference:"),
        owned("   mntn backup          - Backup your configurations"),
        owned("   mntn restore         - Restore configurations from backup"),
        owned("   mntn use <name>      - Switch to a different profile"),
        owned("   mntn profile         - List and manage profiles"),
        owned("   mntn validate        - Check configuration status"),
        owned("   mntn sync --help     - Git sync options"),
        String::new(),
        owned("   Remember: Run 'mntn backup' after editing config files!"),
        String::new(),
    ];
    proof {
        assert(strs_view(r@) =~= closing_spec());
    }
    r
}

} // verus!
