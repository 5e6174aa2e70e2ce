//! Listing, creating and deleting profiles: the checks made before the
//! profile configuration is changed.
use vstd::prelude::*;
use crate::cli::{ProfileActions, ProfileCommandArgs};
use crate::path::path_join;
use crate::profile::config::{ProfileConfig, ProfileDefinition};
use crate::registries::{lists_ids_in_order, strs_of};
use crate::text::{char_is_alphanumeric, is_alphanumeric_char, owned, strs_view};
use crate::utils::paths::{MntnLayout, PROFILES_DIR};

verus! {

/// What `mntn profile` does.
#[derive(Debug, Clone)]
pub enum ProfileStep {
    /// Show the active profile, then the list.
    ShowCurrent,
    /// List the profiles.
    List,
    /// Create a profile.
    Create { name: String, description: Option<String> },
    /// Delete a profile.
    Delete { name: String },
}

/// The step for the command-line arguments: without an action, the active
/// profile and the list are shown.
pub fn run_with_args(args: ProfileCommandArgs) -> (r: ProfileStep)
    ensures
        match args.action {
            None => r is ShowCurrent,
            Some(ProfileActions::List) => r is List,
            Some(ProfileActions::Create { name, description }) => r == (ProfileStep::Create { name, description }),
            Some(ProfileActions::Delete { name }) => r == (ProfileStep::Delete { name }),
        },
{
    match args.action {
        None => ProfileStep::ShowCurrent,
        Some(ProfileActions::List) => ProfileStep::List,
        Some(ProfileActions::Create { name, description }) => ProfileStep::Create { name, description },
        Some(ProfileActions::Delete { name }) => ProfileStep::Delete { name },
    }
}

/// A character allowed in a profile name: a letter or digit, `-` or `_`.
pub open spec fn is_name_char(c: char) -> bool {
    is_alphanumeric_char(c) || c == '-' || c == '_'
}

/// A profile name is not empty and holds only letters, digits, `-` and `_`.
pub open spec fn valid_profile_name(name: Seq<char>) -> bool {
    name.len() > 0 && forall|i: int| 0 <= i < name.len() ==> #[trigger] is_name_char(name[i])
}

/// Whether every character of `name` is allowed in a profile name.
pub fn has_only_name_chars(name: &str) -> (r: bool)
    ensures
        r == forall|i: int| 0 <= i < name@.len() ==> #[trigger] is_name_char(name@[i]),
{
    let n = name.unicode_len();
    let mut i: usize = 0;
    while i < n
        invariant
            n == name@.len(),
            i <= n,
            forall|j: int| 0 <= j < i ==> #[trigger] is_name_char(name@[j]),
        decreases n - i,
    {
        let c = name.get_char(i);
        if !(char_is_alphanumeric(c) || c == '-' || c == '_') {
            proof {
                assert(!is_name_char(name@[i as int]));
            }
            return false;
        }
        i = i + 1;
    }
    true
}

/// Whether `name` can name a profile (see [`valid_profile_name`]).
pub fn is_valid_profile_name(name: &str) -> (r: bool)
    ensures
        r == valid_profile_name(name@),
{
    name.unicode_len() > 0 && has_only_name_chars(name)
}

/// Why a profile cannot be created, or that it can.
#[derive(Debug, Clone, Copy, PartialEq, Eq, Structural)]
pub enum CreateCheck {
    AlreadyExists,
    EmptyName,
    InvalidName,
    Create,
}

/// The checks made before creating profile `name`, in order: it must not
/// exist, must not be empty, and must hold only allowed characters.
pub fn check_create(name: &str, exists: bool) -> (r: CreateCheck)
    ensures
        exists ==> r == CreateCheck::AlreadyExists,
        !exists && name@.len() == 0 ==> r == CreateCheck::EmptyName,
        !exists && name@.len() > 0 && !valid_profile_name(name@) ==> r == CreateCheck::InvalidName,
        !exists && valid_profile_name(name@) ==> r == CreateCheck::Create,
{
    if exists {
        CreateCheck::AlreadyExists
    } else if name.unicode_len() == 0 {
        CreateCheck::EmptyName
    } else if !has_only_name_chars(name) {
        CreateCheck::InvalidName
    } else {
        CreateCheck::Create
    }
}

/// Why a profile cannot be deleted, or that it can.
#[derive(Debug, Clone, Copy, PartialEq, Eq, Structural)]
pub enum DeleteCheck {
    Missing,
    Active,
    Delete,
}

/// The checks made before deleting profile `name`: it must exist and must
/// not be the active profile.
pub fn check_delete(name: &str, exists: bool, active: &Option<String>) -> (r: DeleteCheck)
    ensures
        !exists ==> r == DeleteCheck::Missing,
        exists && (active matches Some(a) && a@ == name@) ==> r == DeleteCheck::Active,
        exists && !(active matches Some(a) && a@ == name@) ==> r == DeleteCheck::Delete,
{
    if !exists {
        return DeleteCheck::Missing;
    }
    match active {
        Some(a) => {
            if crate::text::str_eq(a.as_str(), name) {
                DeleteCheck::Active
            } else {
                DeleteCheck::Delete
            }
        },
        None => DeleteCheck::Delete,
    }
}

/// The line listing a profile: its name, its description when it has one,
/// and a marker on the active profile.
pub open spec fn profile_line(name: Seq<char>, description: Option<Seq<char>>, is_current: bool) -> Seq<char> {
    let marker = if is_current { " ← active"@ } else { Seq::<char>::empty() };
    match description {
        Some(d) => "   "@ + name + " - "@ + d + marker,
        None => "   "@ + name + marker,
    }
}

/// The line of [`profile_line`].
pub fn profile_list_line(name: &str, description: Option<&str>, is_current: bool) -> (r: String)
    ensures
        r@ == profile_line(name@, match description { Some(d) => Some(d@), None => None }, is_current),
{
    let mut s = owned("   ");
    s.append(name);
    match description {
        Some(d) => {
            s.append(" - ");
            s.append(d);
        },
        None => {},
    }
    if is_current {
        s.append(" ← active");
    }
    proof {
        assert(s@ =~= profile_line(name@, match description { Some(d) => Some(d@), None => None }, is_current));
    }
    s
}

/// The text of an optional description.
pub open spec fn description_text(d: Option<String>) -> Option<Seq<char>> {
    match d {
        Some(s) => Some(s@),
        None => None,
    }
}

/// The list of the profiles `names` of the configuration `m`, the active one marked.
pub open spec fn profiles_listing(
    names: Seq<Seq<char>>,
    m: Map<Seq<char>, ProfileDefinition>,
    active: Option<Seq<char>>,
) -> Seq<Seq<char>> {
    if names.len() == 0 {
        seq![
            "\u{1f4cb} No profiles configured"@,
            Seq::empty(),
            "\u{1f4a1} Create a profile with: mntn profile create <name>"@,
        ]
    } else {
        seq!["\u{1f4cb} Available profiles:"@] + names.map_values(
            |n: Seq<char>| profile_line(n, description_text(m[n].description), active == Some(n)),
        )
    }
}

/// The list of the profiles of `config`, in the order of their names.
pub fn profiles_lines(config: &ProfileConfig, active: &Option<String>) -> (r: Vec<String>)
    requires
        config.wf(),
    ensures
        exists|names: Seq<Seq<char>>|
            #[trigger] lists_ids_in_order(names, config.view()) && strs_view(r@) == profiles_listing(
                names,
                config.view(),
                description_text(*active),
            ),
{
    let names = config.list_profiles();
    let ghost ns = strs_of(names@);
    let ghost act = description_text(*active);
    if names.len() == 0 {
        let r = vec![
            owned("\u{1f4cb} No profiles configured"),
            String::new(),
            owned("\u{1f4a1} Create a profile with: mntn profile create <name>"),
        ];
        proof {
            assert(strs_view(r@) =~= profiles_listing(ns, config.view(), act));
        }
        return r;
    }
    let mut r = vec![owned("\u{1f4cb} Available profiles:")];
    let mut i: usize = 0;
    while i < names.len()
        invariant
            i <= names.len(),
            config.wf(),
            ns == strs_of(names@),
            lists_ids_in_order(ns, config.view()),
            act == description_text(*active),
            strs_view(r@) == seq!["\u{1f4cb} Available profiles:"@] + ns.take(i as int).map_values(
                |n: Seq<char>| profile_line(n, description_text(config.view()[n].description), act == Some(n)),
            ),
        decreases names.len() - i,
    {
        let name = names[i].as_str();
        proof {
            assert(ns[i as int] == name@);
            assert(config.view().contains_key(ns[i as int]));
        }
        let is_current = match active {
            Some(a) => crate::text::str_eq(a.as_str(), name),
            None => false,
        };
        let line = match config.get_profile(name) {
            Some(def) => match &def.description {
                Some(d) => profile_list_line(name, Some(d.as_str()), is_current),
                None => profile_list_line(name, None, is_current),
            },
            None => profile_list_line(name, None, is_current),
        };
        let ghost before = r@;
        r.push(line);
        proof {
            assert(ns.take(i + 1) =~= ns.take(i as int).push(name@));
            assert(strs_view(r@) =~= strs_view(before).push(line@));
        }
        i = i + 1;
    }
    proof {
        assert(ns.take(names.len() as int) =~= ns);
    }
    r
}

/// What `mntn profile` answers: whether the configuration changed and is to
/// be saved, whether the new profile's directory is to be made, and the lines
/// to show after that.
#[derive(Debug, Clone)]
pub struct ProfileReply {
    pub save: bool,
    pub make_dir: bool,
    pub lines: Vec<String>,
}

/// The line naming the active profile.
pub open spec fn active_line(active: Option<Seq<char>>) -> Seq<char> {
    match active {
        Some(a) => "\u{1f4cd} Active profile: "@ + a,
        None => "\u{1f4cd} No active profile (using common only)"@,
    }
}

/// The lines after a profile was created.
pub open spec fn created_lines(name: Seq<char>, description: Option<Seq<char>>) -> Seq<Seq<char>> {
    seq!["\u{2705} Created profile '"@ + name + "'"@] + match description {
        Some(d) => seq!["   Description: "@ + d],
        None => Seq::empty(),
    } + seq![Seq::empty(), "\u{1f4a1} Switch to this profile with: mntn use "@ + name]
}

/// The lines after a profile was deleted: a note when its directory
/// `dir` is still there, then the confirmation.
pub open spec fn deleted_lines(name: Seq<char>, dir: Seq<char>, dir_exists: bool) -> Seq<Seq<char>> {
    (if dir_exists {
        seq![
            "\u{26a0}\u{fe0f}  Profile directory exists at "@ + dir,
            "   The directory was NOT deleted. Remove manually if desired:"@,
            "   rm -rf "@ + dir,
        ]
    } else {
        Seq::empty()
    }) + seq!["\u{2705} Deleted profile '"@ + name + "'"@]
}

/// The warning for a refused creation.
pub open spec fn create_warning(check: CreateCheck, name: Seq<char>) -> Seq<char> {
    match check {
        CreateCheck::AlreadyExists => "\u{26a0}\u{fe0f} Profile '"@ + name + "' already exists"@,
        CreateCheck::EmptyName => "\u{26a0}\u{fe0f} Profile name cannot be empty"@,
        _ => "\u{26a0}\u{fe0f} Profile name can only contain letters, numbers, hyphens, and underscores"@,
    }
}

/// The warning for a refused deletion.
pub open spec fn delete_warning(check: DeleteCheck, name: Seq<char>) -> Seq<char> {
    match check {
        DeleteCheck::Missing => "\u{26a0}\u{fe0f} Profile '"@ + name + "' does not exist"@,
        _ => "\u{26a0}\u{fe0f} Cannot delete active profile '"@ + name + "'. Switch to another profile first."@,
    }
}

/// The directory of profile `name` under the layout `l`.
pub open spec fn profile_dir(l: MntnLayout, name: Seq<char>) -> Seq<char> {
    path_join(path_join(l.backup_spec(), PROFILES_DIR@), name)
}

/// The check of a creation, as [`check_create`] makes it.
pub open spec fn create_check_of(name: Seq<char>, exists: bool) -> CreateCheck {
    if exists {
        CreateCheck::AlreadyExists
    } else if name.len() == 0 {
        CreateCheck::EmptyName
    } else if !valid_profile_name(name) {
        CreateCheck::InvalidName
    } else {
        CreateCheck::Create
    }
}

/// The check of a deletion, as [`check_delete`] makes it.
pub open spec fn delete_check_of(name: Seq<char>, exists: bool, active: Option<Seq<char>>) -> DeleteCheck {
    if !exists {
        DeleteCheck::Missing
    } else if active == Some(name) {
        DeleteCheck::Active
    } else {
        DeleteCheck::Delete
    }
}

/// A profile is created exactly when no profile of that name exists and the
/// name is not empty and holds only letters, digits, `-` and `_`; one that
/// exists is never created again. A profile is deleted exactly when it
/// exists and is not the active one; the active profile is never deleted.
pub proof fn law_profile_checks(name: Seq<char>, exists: bool, active: Option<Seq<char>>)
    ensures
        create_check_of(name, exists) == CreateCheck::Create <==> !exists && name.len() > 0 && (forall|i: int|
            0 <= i < name.len() ==> #[trigger] is_name_char(name[i])),
        exists ==> create_check_of(name, exists) == CreateCheck::AlreadyExists,
        !exists && name.len() == 0 ==> create_check_of(name, exists) == CreateCheck::EmptyName,
        delete_check_of(name, exists, active) == DeleteCheck::Delete <==> exists && active != Some(name),
        active == Some(name) && exists ==> delete_check_of(name, exists, active) == DeleteCheck::Active,
        !exists ==> delete_check_of(name, exists, active) == DeleteCheck::Missing,
{
}

/// Runs `mntn profile` on the loaded configuration, with `active` the
/// active profile and, for a deletion, whether the profile's directory
/// exists.
pub fn run(
    step: ProfileStep,
    config: &mut ProfileConfig,
    active: &Option<String>,
    layout: &MntnLayout,
    profile_dir_exists: bool,
) -> (r: ProfileReply)
    requires
        old(config).wf(),
    ensures
        final(config).wf(),
        match step {
            ProfileStep::ShowCurrent => !r.save && !r.make_dir && *final(config) == *old(config) && exists|names: Seq<Seq<char>>|
                #[trigger] lists_ids_in_order(names, old(config).view()) && strs_view(r.lines@) == seq![
                    active_line(description_text(*active)),
                    Seq::empty(),
                ] + profiles_listing(names, old(config).view(), description_text(*active)) + seq![
                    Seq::empty(),
                    "\u{1f4a1} Use 'mntn use <profile>' to switch profiles"@,
                ],
            ProfileStep::List => !r.save && !r.make_dir && *final(config) == *old(config) && exists|names: Seq<Seq<char>>|
                #[trigger] lists_ids_in_order(names, old(config).view()) && strs_view(r.lines@) == profiles_listing(
                    names,
                    old(config).view(),
                    description_text(*active),
                ),
            ProfileStep::Create { name, description } => {
                let check = create_check_of(name@, old(config).view().contains_key(name@));
                if check == CreateCheck::Create {
                    &&& r.save && r.make_dir
                    &&& final(config).view() == old(config).view().insert(name@, ProfileDefinition { description })
                    &&& final(config).version@ == (if old(config).version@.len() == 0 {
                        "1.0.0"@
                    } else {
                        old(config).version@
                    })
                    &&& strs_view(r.lines@) == created_lines(name@, description_text(description))
                } else {
                    &&& !r.save && !r.make_dir && *final(config) == *old(config)
                    &&& strs_view(r.lines@) == seq![create_warning(check, name@)]
                }
            },
            ProfileStep::Delete { name } => {
                let check = delete_check_of(name@, old(config).view().contains_key(name@), description_text(*active));
                if check == DeleteCheck::Delete {
                    &&& r.save && !r.make_dir
                    &&& final(config).view() == old(config).view().remove(name@)
                    &&& final(config).version == old(config).version
                    &&& strs_view(r.lines@) == deleted_lines(name@, profile_dir(*layout, name@), profile_dir_exists)
                } else {
                    &&& !r.save && !r.make_dir && *final(config) == *old(config)
                    &&& strs_view(r.lines@) == seq![delete_warning(check, name@)]
                }
            },
        },
{
    match step {
        ProfileStep::ShowCurrent => {
            let first = match active {
                Some(a) => {
                    let mut s = owned("\u{1f4cd} Active profile: ");
                    s.append(a.as_str());
                    s
                },
                None => owned("\u{1f4cd} No active profile (using common only)"),
            };
            let mut lines = vec![first, String::new()];
            let mut listing = profiles_lines(config, active);
            lines.append(&mut listing);
            lines.push(String::new());
            lines.push(owned("\u{1f4a1} Use 'mntn use <profile>' to switch profiles"));
            ProfileReply { save: false, make_dir: false, lines }
        },
        ProfileStep::List => {
            let lines = profiles_lines(config, active);
            ProfileReply { save: false, make_dir: false, lines }
        },
        ProfileStep::Create { name, description } => {
            let exists = config.profile_exists(name.as_str());
            let check = check_create(name.as_str(), exists);
            let warning = match check {
                CreateCheck::AlreadyExists => {
                    let mut w = owned("\u{26a0}\u{fe0f} Profile '");
                    w.append(name.as_str());
                    w.append("' already exists");
                    w
                },
                CreateCheck::EmptyName => owned("\u{26a0}\u{fe0f} Profile name cannot be empty"),
                CreateCheck::InvalidName => owned(
                    "\u{26a0}\u{fe0f} Profile name can only contain letters, numbers, hyphens, and underscores",
                ),
                CreateCheck::Create => {
                    let mut created = owned("\u{2705} Created profile '");
                    created.append(name.as_str());
                    created.append("'");
                    let mut lines = vec![created];
                    match &description {
                        Some(d) => {
                            let mut line = owned("   Description: ");
                            line.append(d.as_str());
                            lines.push(line);
                        },
                        None => {},
                    }
                    lines.push(String::new());
                    let mut hint = owned("\u{1f4a1} Switch to this profile with: mntn use ");
                    hint.append(name.as_str());
                    lines.push(hint);
                    proof {
                        assert(strs_view(lines@) =~= created_lines(name@, description_text(description)));
                    }
                    config.create_profile(name, description);
                    if config.version.unicode_len() == 0 {
                        config.version = owned("1.0.0");
                    }
                    return ProfileReply { save: true, make_dir: true, lines };
                },
            };
            let lines = vec![warning];
            proof {
                assert(strs_view(lines@) =~= seq![create_warning(check, name@)]);
            }
            ProfileReply { save: false, make_dir: false, lines }
        },
        ProfileStep::Delete { name } => {
            let exists = config.profile_exists(name.as_str());
            let check = check_delete(name.as_str(), exists, active);
            match check {
                DeleteCheck::Delete => {
                    let dir = layout.profile_path(name.as_str());
                    let mut lines: Vec<String> = Vec::new();
                    if profile_dir_exists {
                        let mut at = owned("\u{26a0}\u{fe0f}  Profile directory exists at ");
                        at.append(dir.as_str());
                        lines.push(at);
                        lines.push(owned("   The directory was NOT deleted. Remove manually if desired:"));
                        let mut rm = owned("   rm -rf ");
                        rm.append(dir.as_str());
                        lines.push(rm);
                    }
                    let mut deleted = owned("\u{2705} Deleted profile '");
                    deleted.append(name.as_str());
                    deleted.append("'");
                    lines.push(deleted);
                    proof {
                        assert(strs_view(lines@) =~= deleted_lines(name@, profile_dir(*layout, name@), profile_dir_exists));
                    }
                    config.delete_profile(name.as_str());
                    ProfileReply { save: true, make_dir: false, lines }
                },
                _ => {
                    let mut w = owned(if check == DeleteCheck::Missing {
                        "\u{26a0}\u{fe0f} Profile '"
                    } else {
                        "\u{26a0}\u{fe0f} Cannot delete active profile '"
                    });
                    w.append(name.as_str());
                    w.append(if check == DeleteCheck::Missing {
                        "' does not exist"
                    } else {
                        "'. Switch to another profile first."
                    });
                    let lines = vec![w];
                    proof {
                        assert(strs_view(lines@) =~= seq![delete_warning(check, name@)]);
                    }
                    ProfileReply { save: false, make_dir: false, lines }
                },
            }
        },
    }
}

} // verus!
