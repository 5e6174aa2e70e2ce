//! Planned operations, the task interface and the dry-run report.
use vstd::prelude::*;
use crate::text::{IntoText, owned, to_decimal};

verus! {

/// Something a task would do, and what it would do it to.
#[derive(Debug, Clone)]
pub struct PlannedOperation {
    pub description: String,
    pub target: Option<String>,
}

impl PlannedOperation {
    /// An operation without a target.
    pub fn new<D: IntoText>(description: D) -> (r: Self)
        ensures
            r.description@ == description.text_view(),
            r.target is None,
    {
        PlannedOperation { description: description.into_text(), target: None }
    }

    /// An operation on a target.
    pub fn with_target<D: IntoText, T: IntoText>(description: D, target: T) -> (r: Self)
        ensures
            r.description@ == description.text_view(),
            r.target matches Some(t) && t@ == target.text_view(),
    {
        PlannedOperation { description: description.into_text(), target: Some(target.into_text()) }
    }
}

/// The view of an operation: its description and target.
pub open spec fn op_view(op: PlannedOperation) -> (Seq<char>, Option<Seq<char>>) {
    (op.description@, match op.target { Some(t) => Some(t@), None => None })
}

/// The views of a list of operations.
pub open spec fn ops_view(ops: Seq<PlannedOperation>) -> Seq<(Seq<char>, Option<Seq<char>>)> {
    ops.map_values(|op: PlannedOperation| op_view(op))
}

/// A task that can run, or show what it would do. Implementers state its
/// name, its plan and what running it does to it.
pub trait Task: Sized {
    /// The task's name.
    spec fn name_spec(&self) -> Seq<char>;

    /// The operations the task plans, viewed as descriptions and targets.
    spec fn plan_spec(&self) -> Seq<(Seq<char>, Option<Seq<char>>)>;

    /// The task as it is after it has run once.
    spec fn executed_spec(&self) -> Self;

    /// Human-readable name of the task.
    fn name(&self) -> (r: &str)
        ensures
            r@ == self.name_spec(),
    ;

    /// Executes the task.
    fn execute(&mut self)
        ensures
            *final(self) == old(self).executed_spec(),
    ;

    /// What the task would do (for dry-run mode).
    fn dry_run(&self) -> (r: Vec<PlannedOperation>)
        ensures
            ops_view(r@) == self.plan_spec(),
    ;
}

/// The line listing one planned operation.
pub open spec fn op_line(op: (Seq<char>, Option<Seq<char>>)) -> Seq<char> {
    match op.1 {
        Some(t) => "    - "@ + op.0 + " -> "@ + t,
        None => "    - "@ + op.0,
    }
}

/// The lines listing planned operations.
pub open spec fn op_lines(ops: Seq<(Seq<char>, Option<Seq<char>>)>) -> Seq<Seq<char>>
    decreases ops.len(),
{
    if ops.len() == 0 {
        Seq::empty()
    } else {
        op_lines(ops.drop_last()).push(op_line(ops.last()))
    }
}

/// What a dry run of a task called `name` with the planned `ops` prints.
pub open spec fn dry_run_report(name: Seq<char>, ops: Seq<(Seq<char>, Option<Seq<char>>)>) -> Seq<Seq<char>> {
    let head = seq!["[DRY RUN] "@ + name];
    if ops.len() == 0 {
        head.push("  No operations to perform."@)
    } else {
        head.push("  Planned operations:"@) + op_lines(ops).push(
            "  Total: "@ + crate::text::decimal(ops.len()) + " operation(s)"@,
        )
    }
}

/// The views of a list of strings.
pub open spec fn lines_view(v: Seq<String>) -> Seq<Seq<char>> {
    v.map_values(|s: String| s@)
}

fn operation_line(op: &PlannedOperation) -> (r: String)
    ensures
        r@ == op_line(op_view(*op)),
{
    let mut s = owned("    - ");
    s.append(op.description.as_str());
    match &op.target {
        Some(t) => {
            s.append(" -> ");
            s.append(t.as_str());
        },
        None => {},
    }
    s
}

/// The lines a dry run of a task called `name` with the planned `ops` prints.
pub fn dry_run_lines(name: &str, ops: &Vec<PlannedOperation>) -> (r: Vec<String>)
    ensures
        lines_view(r@) == dry_run_report(name@, ops_view(ops@)),
{
    let mut r: Vec<String> = Vec::new();
    let mut head = owned("[DRY RUN] ");
    head.append(name);
    r.push(head);
    if ops.len() == 0 {
        r.push(owned("  No operations to perform."));
        proof {
            assert(lines_view(r@) =~= dry_run_report(name@, ops_view(ops@)));
        }
        return r;
    }
    r.push(owned("  Planned operations:"));
    let ghost prefix = lines_view(r@);
    let mut i: usize = 0;
    while i < ops.len()
        invariant
            i <= ops.len(),
            lines_view(r@) == prefix + op_lines(ops_view(ops@).take(i as int)),
        decreases ops.len() - i,
    {
        let line = operation_line(&ops[i]);
        let ghost before = r@;
        r.push(line);
        proof {
            assert(ops_view(ops@).take(i + 1).drop_last() =~= ops_view(ops@).take(i as int));
            assert(lines_view(r@) =~= lines_view(before).push(line@));
        }
        i = i + 1;
    }
    let mut total = owned("  Total: ");
    total.append(to_decimal(ops.len() as u128).as_str());
    total.append(" operation(s)");
    let ghost before = r@;
    r.push(total);
    proof {
        assert(ops_view(ops@).take(ops.len() as int) =~= ops_view(ops@));
        assert(lines_view(r@) =~= lines_view(before).push(total@));
        assert(lines_view(r@) =~= dry_run_report(name@, ops_view(ops@)));
    }
    r
}

/// Runs tasks, or shows what they would do.
pub struct TaskExecutor;

impl TaskExecutor {
    /// In dry-run mode, asks the task for its planned operations and gives
    /// back the report of its name and plan, leaving the task untouched;
    /// otherwise executes the task once and gives back no report.
    pub fn run<T: Task>(task: &mut T, dry_run: bool) -> (r: Vec<String>)
        ensures
            dry_run ==> *final(task) == *old(task),
            dry_run ==> lines_view(r@) == dry_run_report(old(task).name_spec(), old(task).plan_spec()),
            !dry_run ==> *final(task) == old(task).executed_spec(),
            !dry_run ==> r@.len() == 0,
            *final(task) == after_run(*old(task), dry_run),
    {
        if dry_run {
            let ops = task.dry_run();
            let name = task.name();
            let r = dry_run_lines(name, &ops);
            r
        } else {
            task.execute();
            Vec::new()
        }
    }
}

/// The task after one run of [`TaskExecutor::run`]: unchanged by a dry run,
/// executed once by a real one.
pub open spec fn after_run<T: Task>(t: T, dry_run: bool) -> T {
    if dry_run {
        t
    } else {
        t.executed_spec()
    }
}

/// The task executed `n` times in a row.
pub open spec fn executed_times<T: Task>(t: T, n: nat) -> T
    decreases n,
{
    if n == 0 {
        t
    } else {
        executed_times(t, (n - 1) as nat).executed_spec()
    }
}

/// How many of the runs `ds` (each `true` for a dry run) are real.
pub open spec fn real_runs(ds: Seq<bool>) -> nat
    decreases ds.len(),
{
    if ds.len() == 0 {
        0
    } else {
        real_runs(ds.drop_last()) + if ds.last() { 0nat } else { 1nat }
    }
}

/// A sequence of runs executes the task once for each real run and never
/// for a dry one: when `ts` are the states of a task before and after the
/// runs `ds` (each `true` for a dry run), the state after the first `i`
/// runs is the first state executed as many times as those runs hold real ones.
pub proof fn law_runs_execute_once_each<T: Task>(ts: Seq<T>, ds: Seq<bool>)
    requires
        ts.len() == ds.len() + 1,
        forall|i: int| 0 <= i < ds.len() ==> ts[i + 1] == after_run(#[trigger] ts[i], ds[i]),
    ensures
        forall|i: int| 0 <= i < ts.len() ==> #[trigger] ts[i] == executed_times(ts[0], real_runs(ds.take(i))),
{
    assert forall|i: int| 0 <= i < ts.len() implies #[trigger] ts[i] == executed_times(ts[0], real_runs(ds.take(i))) by {
        lemma_runs_prefix(ts, ds, i);
    }
}

proof fn lemma_runs_prefix<T: Task>(ts: Seq<T>, ds: Seq<bool>, i: int)
    requires
        ts.len() == ds.len() + 1,
        forall|k: int| 0 <= k < ds.len() ==> ts[k + 1] == after_run(#[trigger] ts[k], ds[k]),
        0 <= i < ts.len(),
    ensures
        ts[i] == executed_times(ts[0], real_runs(ds.take(i))),
    decreases i,
{
    if i == 0 {
        assert(ds.take(0) =~= Seq::<bool>::empty());
    } else {
        lemma_runs_prefix(ts, ds, i - 1);
        assert(ds.take(i).drop_last() =~= ds.take(i - 1));
        assert(ds.take(i).last() == ds[i - 1]);
        assert(ts[i] == after_run(ts[i - 1], ds[i - 1]));
    }
}

/// One line per planned operation.
pub proof fn lemma_op_lines_len(ops: Seq<(Seq<char>, Option<Seq<char>>)>)
    ensures
        op_lines(ops).len() == ops.len(),
    decreases ops.len(),
{
    if ops.len() > 0 {
        lemma_op_lines_len(ops.drop_last());
    }
}

/// A dry-run report names the task first, lists every planned operation
/// in order, one per line, and ends with their total; a task with nothing
/// planned says so instead.
pub proof fn law_dry_run_report(name: Seq<char>, ops: Seq<(Seq<char>, Option<Seq<char>>)>)
    ensures
        dry_run_report(name, ops)[0] == "[DRY RUN] "@ + name,
        ops.len() == 0 ==> dry_run_report(name, ops).len() == 2,
        ops.len() > 0 ==> dry_run_report(name, ops).len() == ops.len() + 3,
        forall|i: int| 0 <= i < ops.len() ==> #[trigger] dry_run_report(name, ops)[i + 2] == op_line(ops[i]),
        ops.len() > 0 ==> dry_run_report(name, ops).last() == "  Total: "@ + crate::text::decimal(ops.len())
            + " operation(s)"@,
{
    lemma_op_lines_len(ops);
    assert forall|i: int| 0 <= i < ops.len() implies #[trigger] dry_run_report(name, ops)[i + 2] == op_line(
        ops[i],
    ) by {
        lemma_op_lines_index(ops, i);
    }
}

/// The `i`-th listed line is that of the `i`-th operation.
pub proof fn lemma_op_lines_index(ops: Seq<(Seq<char>, Option<Seq<char>>)>, i: int)
    requires
        0 <= i < ops.len(),
    ensures
        op_lines(ops)[i] == op_line(ops[i]),
    decreases ops.len(),
{
    lemma_op_lines_len(ops.drop_last());
    if i < ops.len() - 1 {
        lemma_op_lines_index(ops.drop_last(), i);
    }
}

} // verus!
