//! Names used when files are moved aside or copied.
use vstd::prelude::*;
use crate::path::{file_name, join, path_file_name, path_join};
use crate::text::owned;

verus! {

/// Where an existing target is moved before a symlink replaces it: in
/// `symlinks_dir`, under its file name (or `backup`) followed by `_` and
/// the time it was moved.
pub open spec fn backup_target_path(target: Seq<char>, symlinks_dir: Seq<char>, timestamp: Seq<char>) -> Seq<char> {
    let name = match file_name(target) {
        Some(n) => n,
        None => "backup"@,
    };
    path_join(symlinks_dir, name + "_"@ + timestamp)
}

/// The backup location of a target (see [`backup_target_path`]).
pub fn backup_existing_target_path(target: &str, symlinks_dir: &str, timestamp: &str) -> (r: String)
    ensures
        r@ == backup_target_path(target@, symlinks_dir@, timestamp@),
{
    let mut name = match path_file_name(target) {
        Some(n) => n,
        None => owned("backup"),
    };
    name.append("_");
    name.append(timestamp);
    join(symlinks_dir, name.as_str())
}

/// The format of the time in backup names (`chrono` strftime syntax):
/// date, time and milliseconds.
pub const BACKUP_TIMESTAMP_FORMAT: &'static str = "%Y%m%d_%H%M%S%3f";

} // verus!
