//! The backup directories of the symlink-based layout, under `~/dotfiles`.
use vstd::prelude::*;
use crate::path::{join, path_join};

verus! {

/// The general backup directory, relative to the home directory.
pub const BACKUP_DIR: &'static str = "dotfiles/backups";

/// Where targets replaced by symlinks are kept, relative to the home directory.
pub const SYMLINK_BACKUP_DIR: &'static str = "dotfiles/backups/symlinks";

/// `dirs_next::home_dir()`, as text. What comes back depends on the
/// environment and the user database, so nothing is stated of it.
#[verifier::external_body]
fn home_dir() -> Option<String> {
    dirs_next::home_dir().map(|p| p.to_string_lossy().into_owned())
}

/// `~/dotfiles/backups`, when a home directory is known.
pub fn get_backup_path() -> (r: Option<String>)
    ensures
        r matches Some(p) ==> exists|home: Seq<char>| p@ == #[trigger] path_join(home, BACKUP_DIR@),
{
    match home_dir() {
        Some(h) => Some(join(h.as_str(), BACKUP_DIR)),
        None => None,
    }
}

/// `~/dotfiles/backups/symlinks`, when a home directory is known.
pub fn get_symlink_backup_path() -> (r: Option<String>)
    ensures
        r matches Some(p) ==> exists|home: Seq<char>| p@ == #[trigger] path_join(home, SYMLINK_BACKUP_DIR@),
{
    match home_dir() {
        Some(h) => Some(join(h.as_str(), SYMLINK_BACKUP_DIR)),
        None => None,
    }
}

} // verus!
