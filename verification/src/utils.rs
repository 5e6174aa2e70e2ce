//! Utilities: size formatting, terminal colours, the on-disk layout, and the
//! helpers that name sizes in KB, MB and GB and locate application settings.
use vstd::prelude::*;
use crate::path::path_join;
use crate::utils::app_paths::{checked_path, existing_file, keep_if_exists};
use crate::text::{decimal, to_decimal};
use crate::utils::format::{div_round_even, div_round_even_exec, f64_value, f64_value_exec, two_decimals, two_decimals_exec};

pub mod app_paths;
pub mod display;
pub mod filesystem;
pub mod format;
pub mod paths;
pub mod system;

verus! {

/// A size in KB, MB or GB with two decimals: whole bytes below a kilobyte,
/// else the size in the largest of KB, MB, GB that it reaches, with exactly two
/// decimals (the byte count taken as the nearest 64-bit float, halves
/// rounded to even).
pub open spec fn two_decimal_size(bytes: nat) -> Seq<char> {
    if bytes >= 1073741824 {
        two_decimals(div_round_even(f64_value(bytes) * 100, 1073741824)) + " GB"@
    } else if bytes >= 1048576 {
        two_decimals(div_round_even(f64_value(bytes) * 100, 1048576)) + " MB"@
    } else if bytes >= 1024 {
        two_decimals(div_round_even(f64_value(bytes) * 100, 1024)) + " KB"@
    } else {
        decimal(bytes) + " bytes"@
    }
}

/// Converts a byte count into a string with two decimal places in KB, MB
/// or GB: `1024` gives `"1.00 KB"`, `500` gives `"500 bytes"`.
pub fn bytes_to_human_readable(bytes: u64) -> (s: String)
    ensures
        s@ == two_decimal_size(bytes as nat),
{
    if bytes < 1024 {
        let mut s = to_decimal(bytes as u128);
        s.append(" bytes");
        return s;
    }
    let v = f64_value_exec(bytes);
    let unit: u128 = if bytes >= 1073741824 {
        1073741824
    } else if bytes >= 1048576 {
        1048576
    } else {
        1024
    };
    let h = div_round_even_exec(v * 100, unit);
    let mut s = two_decimals_exec(h);
    if bytes >= 1073741824 {
        s.append(" GB");
    } else if bytes >= 1048576 {
        s.append(" MB");
    } else {
        s.append(" KB");
    }
    s
}

/// `dirs::home_dir()`, as text. What comes back depends on the environment
/// and the user database, so nothing is stated of it.
#[verifier::external_body]
fn home_dir() -> Option<String> {
    dirs::home_dir().map(|p| p.to_string_lossy().into_owned())
}

/// A file under `~/Library/Application Support` (macOS).
pub open spec fn application_support_file(home: Seq<char>, relative: Seq<char>) -> Seq<char> {
    path_join(path_join(home, "Library/Application Support"@), relative)
}

/// A file under `~/Library/Application Support` of `home`, when
/// `file_exists` says it is there.
pub fn existing_application_support_file<F: Fn(&String) -> bool>(home: &str, relative: &str, file_exists: &F) -> (r:
    Option<String>)
    requires
        forall|p: &String| #[trigger] file_exists.requires((p,)),
    ensures
        existing_file(r, application_support_file(home@, relative@), *file_exists),
{
    let path = application_support(home, relative);
    let r = keep_if_exists(path, file_exists);
    proof {
        assert(checked_path(r, path, *file_exists));
    }
    r
}

/// The macOS VSCode settings file of the current user, if a home directory
/// is known and the file exists there.
pub fn get_vscode_settings_path<F: Fn(&String) -> bool>(file_exists: &F) -> (r: Option<String>)
    requires
        forall|p: &String| #[trigger] file_exists.requires((p,)),
    ensures
        r is Some ==> exists|home: Seq<char>|
            #[trigger] existing_file(r, application_support_file(home, "Code/User/settings.json"@), *file_exists),
{
    match home_dir() {
        Some(h) => existing_application_support_file(h.as_str(), "Code/User/settings.json", file_exists),
        None => None,
    }
}

/// The macOS VSCode keybindings file of the current user, if it exists.
pub fn get_vscode_keybindings_path<F: Fn(&String) -> bool>(file_exists: &F) -> (r: Option<String>)
    requires
        forall|p: &String| #[trigger] file_exists.requires((p,)),
    ensures
        r is Some ==> exists|home: Seq<char>|
            #[trigger] existing_file(r, application_support_file(home, "Code/User/keybindings.json"@), *file_exists),
{
    match home_dir() {
        Some(h) => existing_application_support_file(h.as_str(), "Code/User/keybindings.json", file_exists),
        None => None,
    }
}

/// The macOS Ghostty configuration file of the current user, if it exists.
pub fn get_ghostty_config_path<F: Fn(&String) -> bool>(file_exists: &F) -> (r: Option<String>)
    requires
        forall|p: &String| #[trigger] file_exists.requires((p,)),
    ensures
        r is Some ==> exists|home: Seq<char>|
            #[trigger] existing_file(r, application_support_file(home, "com.mitchellh.ghostty/config"@), *file_exists),
{
    match home_dir() {
        Some(h) => existing_application_support_file(h.as_str(), "com.mitchellh.ghostty/config", file_exists),
        None => None,
    }
}

/// A file under `~/Library/Application Support` of `home`.
pub fn application_support(home: &str, relative: &str) -> (r: String)
    ensures
        r@ == application_support_file(home@, relative@),
{
    crate::path::join(crate::path::join(home, "Library/Application Support").as_str(), relative)
}

} // verus!
