//! The platform the tool runs on, and cleaning up command output.
use vstd::prelude::*;
use crate::text::owned;

verus! {

/// The operating system the tool runs on.
#[derive(Debug, Clone, Copy, PartialEq, Eq, Structural)]
pub enum Platform {
    MacOs,
    Linux,
    Windows,
    Other,
}

impl Platform {
    /// The platform's name as Rust's `target_os` writes it.
    pub open spec fn os_name(&self) -> Seq<char> {
        match self {
            Platform::MacOs => "macos"@,
            Platform::Linux => "linux"@,
            Platform::Windows => "windows"@,
            Platform::Other => "other"@,
        }
    }

    /// Renders [`Platform::os_name`].
    pub fn to_string(&self) -> (r: String)
        ensures
            r@ == self.os_name(),
    {
        match self {
            Platform::MacOs => owned("macos"),
            Platform::Linux => owned("linux"),
            Platform::Windows => owned("windows"),
            Platform::Other => owned("other"),
        }
    }

    /// The platform named by a `target_os` value; unknown names are `Other`.
    pub fn from_os_name(name: &str) -> (r: Self)
        ensures
            name@ == "macos"@ ==> r == Platform::MacOs,
            name@ == "linux"@ ==> r == Platform::Linux,
            name@ == "windows"@ ==> r == Platform::Windows,
            name@ != "macos"@ && name@ != "linux"@ && name@ != "windows"@ ==> r == Platform::Other,
    {
        proof {
            reveal_strlit("macos");
            reveal_strlit("linux");
            reveal_strlit("windows");
            assert("linux"@[0] != "macos"@[0]);
            assert("windows"@[0] != "macos"@[0]);
            assert("windows"@.len() != "linux"@.len());
        }
        if crate::text::str_eq(name, "macos") {
            Platform::MacOs
        } else if crate::text::str_eq(name, "linux") {
            Platform::Linux
        } else if crate::text::str_eq(name, "windows") {
            Platform::Windows
        } else {
            Platform::Other
        }
    }
}

/// The outcome of looking a command up on the search path.
#[derive(Debug, Clone)]
pub struct CommandLookup {
    /// The command looked up.
    pub command: String,
    /// Whether an executable of that name was found.
    pub found: bool,
}

/// `which::which(name)`: whether it finds an executable named `name` on the
/// search path, with the name it was asked for. What is installed depends on
/// the machine, so nothing is stated of `found`; the contract says only which
/// command the outcome belongs to.
#[verifier::external_body]
pub(crate) fn command_available(name: &str) -> (r: CommandLookup)
    ensures
        r.command@ == name@,
{
    CommandLookup { command: name.to_string(), found: which::which(name).is_ok() }
}

/// `lookups` are the outcomes of looking up `commands`, one each, in order.
pub open spec fn looked_up(lookups: Seq<CommandLookup>, commands: Seq<Seq<char>>) -> bool {
    &&& lookups.len() == commands.len()
    &&& forall|i: int| 0 <= i < lookups.len() ==> #[trigger] lookups[i].command@ == commands[i]
}

/// Which of the looked-up commands were found, in order.
pub open spec fn found_of(lookups: Seq<CommandLookup>) -> Seq<bool> {
    lookups.map_values(|l: CommandLookup| l.found)
}

/// Looks up each of `commands` on the search path, in order.
pub fn look_up_commands(commands: &Vec<String>) -> (r: Vec<CommandLookup>)
    ensures
        looked_up(r@, crate::path::views(commands@)),
{
    let mut r: Vec<CommandLookup> = Vec::new();
    let mut i: usize = 0;
    while i < commands.len()
        invariant
            i <= commands.len(),
            looked_up(r@, crate::path::views(commands@).take(i as int)),
        decreases commands.len() - i,
    {
        let l = command_available(commands[i].as_str());
        r.push(l);
        i += 1;
    }
    proof {
        assert(crate::path::views(commands@).take(commands.len() as int) =~= crate::path::views(commands@));
    }
    r
}

/// Which of the looked-up commands were found (see [`found_of`]).
pub fn found_flags(lookups: &Vec<CommandLookup>) -> (r: Vec<bool>)
    ensures
        r@ == found_of(lookups@),
{
    let mut r: Vec<bool> = Vec::new();
    let mut i: usize = 0;
    while i < lookups.len()
        invariant
            i <= lookups.len(),
            r@ == found_of(lookups@.take(i as int)),
        decreases lookups.len() - i,
    {
        r.push(lookups[i].found);
        proof {
            assert(found_of(lookups@.take(i + 1)) =~= found_of(lookups@.take(i as int)).push(lookups@[i as int].found));
        }
        i += 1;
    }
    proof {
        assert(lookups@.take(lookups.len() as int) =~= lookups@);
    }
    r
}

/// The pattern of an ANSI escape sequence (CSI: `ESC [`, parameter bytes,
/// intermediate bytes, a final byte).
pub const ANSI_ESCAPE_PATTERN: &'static str = "\x1B\\[[0-?]*[ -/]*[@-~]";

/// Whether the `regex` crate accepts `pattern` (what `Regex::new` decides).
pub uninterp spec fn regex_compiles(pattern: Seq<char>) -> bool;

/// What `Regex::replace_all` with an empty replacement leaves of `input`:
/// `input` without the leftmost non-overlapping matches of `pattern`.
pub uninterp spec fn regex_removed(pattern: Seq<char>, input: Seq<char>) -> Seq<char>;

/// `regex::Regex::new(pattern)`, then `replace_all(input, "")` on the
/// compiled expression. `None` exactly when the crate refuses the pattern;
/// otherwise what is left of `input`, named by [`regex_removed`].
#[verifier::external_body]
fn regex_remove_all(pattern: &str, input: &str) -> (r: Option<String>)
    ensures
        r is Some <==> regex_compiles(pattern@),
        r matches Some(s) ==> s@ == regex_removed(pattern@, input@),
{
    match regex::Regex::new(pattern) {
        Ok(re) => Some(re.replace_all(input, "").to_string()),
        Err(_) => None,
    }
}

/// `input` without its ANSI escape sequences.
pub fn strip_ansi_codes(input: &str) -> (r: String)
    ensures
        regex_compiles(ANSI_ESCAPE_PATTERN@) ==> r@ == regex_removed(ANSI_ESCAPE_PATTERN@, input@),
        !regex_compiles(ANSI_ESCAPE_PATTERN@) ==> r@ == input@,
{
    match regex_remove_all(ANSI_ESCAPE_PATTERN, input) {
        Some(s) => s,
        None => owned(input),
    }
}

} // verus!
