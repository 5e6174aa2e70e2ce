//! ANSI colouring of terminal output.
use vstd::prelude::*;
use crate::text::owned;

verus! {

pub const COLOR_GREEN: &'static str = "\x1b[32m";
pub const COLOR_YELLOW: &'static str = "\x1b[33m";
pub const COLOR_RED: &'static str = "\x1b[31m";
pub const COLOR_RESET: &'static str = "\x1b[0m";

/// `text` wrapped in the escape code `code` and the reset code.
pub open spec fn colored(text: Seq<char>, code: Seq<char>) -> Seq<char> {
    code + text + COLOR_RESET@
}

/// Wraps `text` in the escape code `code` and the reset code.
pub fn color(text: &str, code: &str) -> (r: String)
    ensures
        r@ == colored(text@, code@),
{
    let mut s = owned(code);
    s.append(text);
    s.append(COLOR_RESET);
    s
}

/// `text` in green.
pub fn green(text: &str) -> (r: String)
    ensures
        r@ == colored(text@, COLOR_GREEN@),
{
    color(text, COLOR_GREEN)
}

/// `text` in yellow.
pub fn yellow(text: &str) -> (r: String)
    ensures
        r@ == colored(text@, COLOR_YELLOW@),
{
    color(text, COLOR_YELLOW)
}

/// `text` in red.
pub fn red(text: &str) -> (r: String)
    ensures
        r@ == colored(text@, COLOR_RED@),
{
    color(text, COLOR_RED)
}

/// The last component of a path for short messages: its file name, or the
/// whole path when it has none.
pub fn short_component(path: &str) -> (r: String)
    ensures
        r@ == match crate::path::file_name(path@) {
            Some(n) => n,
            None => path@,
        },
{
    match crate::path::path_file_name(path) {
        Some(n) => n,
        None => owned(path),
    }
}

} // verus!
