//! Enabling Touch ID for `sudo`: the check and the edit of the PAM file.
use vstd::prelude::*;
use crate::text::{lines, lines_spec, owned, str_eq, trim, trim_spec};

verus! {

/// The PAM line that lets Touch ID authenticate `sudo`.
pub const TOUCH_ID_LINE: &'static str = "auth       sufficient     pam_tid.so\n";

/// What is appended to the PAM file's name to name its backup.
pub const BACKUP_SUFFIX: &'static str = ".backup";

/// The PAM file of `sudo`.
pub const SUDO_PAM_PATH: &'static str = "/etc/pam.d/sudo";

/// Whether some line of the PAM file is, trimmed, the Touch ID line.
pub open spec fn touch_id_configured(content: Seq<char>) -> bool {
    exists|i: int|
        0 <= i < lines_spec(content).len() && #[trigger] trim_spec(lines_spec(content)[i]) == trim_spec(
            TOUCH_ID_LINE@,
        )
}

/// Whether Touch ID is already configured in the PAM file's `content`.
pub fn is_touch_id_configured(content: &str) -> (r: bool)
    ensures
        r == touch_id_configured(content@),
{
    let wanted = trim(TOUCH_ID_LINE);
    let ls = lines(content);
    let mut i: usize = 0;
    while i < ls.len()
        invariant
            i <= ls.len(),
            crate::text::strs_view(ls@) == lines_spec(content@),
            wanted@ == trim_spec(TOUCH_ID_LINE@),
            forall|j: int| 0 <= j < i ==> #[trigger] trim_spec(lines_spec(content@)[j]) != trim_spec(TOUCH_ID_LINE@),
        decreases ls.len() - i,
    {
        proof {
            assert(lines_spec(content@)[i as int] == ls@[i as int]@);
        }
        if str_eq(trim(ls[i].as_str()).as_str(), wanted.as_str()) {
            return true;
        }
        i = i + 1;
    }
    false
}

/// The PAM file with the Touch ID line put first.
pub fn with_touch_id(content: &str) -> (r: String)
    ensures
        r@ == TOUCH_ID_LINE@ + content@,
{
    let mut s = owned(TOUCH_ID_LINE);
    s.append(content);
    s
}

/// Where the PAM file is backed up: its name with the backup suffix.
pub fn pam_backup_path() -> (r: String)
    ensures
        r@ == SUDO_PAM_PATH@ + BACKUP_SUFFIX@,
{
    let mut s = owned(SUDO_PAM_PATH);
    s.append(BACKUP_SUFFIX);
    s
}

/// What configuring Touch ID does to a PAM file.
#[derive(Debug, Clone)]
pub enum PamEdit {
    /// The line is there: nothing to do.
    AlreadyConfigured,
    /// Write this content (backing the file up first if no backup exists).
    Write(String),
}

/// What configuring Touch ID does to the PAM file's `content`.
pub fn plan_pam_edit(content: &str) -> (r: PamEdit)
    ensures
        touch_id_configured(content@) ==> r is AlreadyConfigured,
        !touch_id_configured(content@) ==> (r matches PamEdit::Write(c) && c@ == TOUCH_ID_LINE@ + content@),
{
    if is_touch_id_configured(content) {
        PamEdit::AlreadyConfigured
    } else {
        PamEdit::Write(with_touch_id(content))
    }
}

} // verus!
