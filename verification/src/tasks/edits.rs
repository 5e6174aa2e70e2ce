//! The dry runs of the registry tasks, which share one shape: the edit, then
//! saving the registry file.
use vstd::prelude::*;
use crate::tasks::task_core::{PlannedOperation, ops_view};
use crate::text::owned;

verus! {

/// Listing entries: `what` names them.
pub open spec fn list_plan(what: Seq<char>) -> Seq<(Seq<char>, Option<Seq<char>>)> {
    seq![("List "@ + what, None)]
}

/// Adding the entry `name` under `id`: `noun` names the kind of entry,
/// `detail` what it holds, `save` the saving step and `path` the registry file.
pub open spec fn add_plan(
    noun: Seq<char>,
    save: Seq<char>,
    name: Seq<char>,
    id: Seq<char>,
    detail: Seq<char>,
    path: Seq<char>,
) -> Seq<(Seq<char>, Option<Seq<char>>)> {
    seq![("Add "@ + noun + " '"@ + name + "' ("@ + id + ")"@, Some(detail)), (save, Some(path))]
}

/// Removing the entry under `id`.
pub open spec fn remove_plan(noun: Seq<char>, save: Seq<char>, id: Seq<char>, path: Seq<char>) -> Seq<
    (Seq<char>, Option<Seq<char>>),
> {
    seq![("Remove "@ + noun + " ("@ + id + ")"@, Some(path)), (save, Some(path))]
}

/// Switching the entry under `id`; `verb` says which way.
pub open spec fn toggle_plan(
    verb: Seq<char>,
    noun: Seq<char>,
    save: Seq<char>,
    id: Seq<char>,
    path: Seq<char>,
) -> Seq<(Seq<char>, Option<Seq<char>>)> {
    seq![(verb + " "@ + noun + " ("@ + id + ")"@, Some(path)), (save, Some(path))]
}

/// The operations of [`list_plan`].
pub fn list_ops(what: &str) -> (r: Vec<PlannedOperation>)
    ensures
        ops_view(r@) == list_plan(what@),
{
    let mut d = owned("List ");
    d.append(what);
    let r = vec![PlannedOperation::new(d)];
    proof {
        assert(ops_view(r@) =~= list_plan(what@));
    }
    r
}

/// The operations of [`add_plan`].
pub fn add_ops(noun: &str, save: &str, name: &str, id: &str, detail: String, path: &str) -> (r: Vec<
    PlannedOperation,
>)
    ensures
        ops_view(r@) == add_plan(noun@, save@, name@, id@, detail@, path@),
{
    let mut d = owned("Add ");
    d.append(noun);
    d.append(" '");
    d.append(name);
    d.append("' (");
    d.append(id);
    d.append(")");
    let r = vec![PlannedOperation::with_target(d, detail), PlannedOperation::with_target(save, path)];
    proof {
        assert(ops_view(r@) =~= add_plan(noun@, save@, name@, id@, detail@, path@));
    }
    r
}

/// The operations of [`remove_plan`].
pub fn remove_ops(noun: &str, save: &str, id: &str, path: &str) -> (r: Vec<PlannedOperation>)
    ensures
        ops_view(r@) == remove_plan(noun@, save@, id@, path@),
{
    let mut d = owned("Remove ");
    d.append(noun);
    d.append(" (");
    d.append(id);
    d.append(")");
    let r = vec![PlannedOperation::with_target(d, path), PlannedOperation::with_target(save, path)];
    proof {
        assert(ops_view(r@) =~= remove_plan(noun@, save@, id@, path@));
    }
    r
}

/// The operations of [`toggle_plan`].
pub fn toggle_ops(verb: &str, noun: &str, save: &str, id: &str, path: &str) -> (r: Vec<PlannedOperation>)
    ensures
        ops_view(r@) == toggle_plan(verb@, noun@, save@, id@, path@),
{
    let mut d = owned(verb);
    d.append(" ");
    d.append(noun);
    d.append(" (");
    d.append(id);
    d.append(")");
    let r = vec![PlannedOperation::with_target(d, path), PlannedOperation::with_target(save, path)];
    proof {
        assert(ops_view(r@) =~= toggle_plan(verb@, noun@, save@, id@, path@));
    }
    r
}

/// Two texts joined by a separator: `"<a><sep><b>"`.
pub fn joined(a: &str, sep: &str, b: &str) -> (r: String)
    ensures
        r@ == a@ + sep@ + b@,
{
    let mut s = owned(a);
    s.append(sep);
    s.append(b);
    s
}

} // verus!
