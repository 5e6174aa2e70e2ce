//! Switching the active profile.
use vstd::prelude::*;
use crate::cli::UseArgs;
use crate::profile::config::ProfileConfig;
use crate::text::{owned, str_eq, strs_view};

verus! {

/// What switching to a profile does.
#[derive(Debug, Clone, Copy, PartialEq, Eq, Structural)]
pub enum Switch {
    /// `common` or `none`: clear the active profile.
    ClearActive,
    /// The profile does not exist: nothing changes.
    Missing,
    /// Make the profile the active one.
    Activate,
}

/// Whether a name stands for using the common layer alone.
pub open spec fn means_common(name: Seq<char>) -> bool {
    name == "common"@ || name == "none"@
}

/// What switching to `name` does, given whether such a profile exists:
/// `common` and `none` clear the active profile whatever exists.
pub fn switch_to_profile(name: &str, exists: bool) -> (r: Switch)
    ensures
        means_common(name@) ==> r == Switch::ClearActive,
        !means_common(name@) && !exists ==> r == Switch::Missing,
        !means_common(name@) && exists ==> r == Switch::Activate,
{
    if str_eq(name, "common") || str_eq(name, "none") {
        Switch::ClearActive
    } else if !exists {
        Switch::Missing
    } else {
        Switch::Activate
    }
}

/// What `switch_to_profile` decides, as a spec.
pub open spec fn switch_spec(name: Seq<char>, exists: bool) -> Switch {
    if means_common(name) {
        Switch::ClearActive
    } else if !exists {
        Switch::Missing
    } else {
        Switch::Activate
    }
}

/// The lines shown for a switch to `name`, once the active profile has been
/// changed as the switch says (a missing profile changes nothing).
pub open spec fn use_lines(name: Seq<char>, switch: Switch) -> Seq<Seq<char>> {
    match switch {
        Switch::ClearActive => seq!["\u{2705} Switched to common (no active profile)"@],
        Switch::Missing => seq![
            "\u{26a0}\u{fe0f} Profile '"@ + name + "' does not exist"@,
            Seq::empty(),
            "\u{1f4a1} Create it with: mntn profile create "@ + name,
            "   Or list available profiles: mntn profile list"@,
        ],
        Switch::Activate => seq![
            "\u{2705} Switched to profile '"@ + name + "'"@,
            Seq::empty(),
            "\u{2139}\u{fe0f} Run 'mntn restore' to apply this profile's configurations"@,
        ],
    }
}

/// What `mntn use` decides: the profile named, what to do with the active
/// profile, and the lines to show once that is done.
#[derive(Debug, Clone)]
pub struct UseReply {
    pub name: String,
    pub switch: Switch,
    pub lines: Vec<String>,
}

/// `mntn use` against the loaded profile configuration: `common` and `none`
/// clear the active profile, an unknown profile changes nothing, a known one
/// becomes active. The configuration itself is only read.
pub fn run_with_args(args: UseArgs, config: &ProfileConfig) -> (r: UseReply)
    requires
        config.wf(),
    ensures
        r.name == args.profile,
        r.switch == switch_spec(args.profile@, config.view().contains_key(args.profile@)),
        strs_view(r.lines@) == use_lines(args.profile@, r.switch),
{
    let name = args.profile;
    let exists = config.profile_exists(name.as_str());
    let switch = switch_to_profile(name.as_str(), exists);
    let lines = match switch {
        Switch::ClearActive => vec![owned("\u{2705} Switched to common (no active profile)")],
        Switch::Missing => {
            let mut a = owned("\u{26a0}\u{fe0f} Profile '");
            a.append(name.as_str());
            a.append("' does not exist");
            let mut b = owned("\u{1f4a1} Create it with: mntn profile create ");
            b.append(name.as_str());
            vec![a, String::new(), b, owned("   Or list available profiles: mntn profile list")]
        },
        Switch::Activate => {
            let mut a = owned("\u{2705} Switched to profile '");
            a.append(name.as_str());
            a.append("'");
            vec![a, String::new(), owned("\u{2139}\u{fe0f} Run 'mntn restore' to apply this profile's configurations")]
        },
    };
    proof {
        assert(strs_view(lines@) =~= use_lines(name@, switch));
    }
    UseReply { name, switch, lines }
}

} // verus!
