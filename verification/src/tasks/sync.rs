//! Synchronising the `.mntn` directory with a git repository: the plan, and
//! the decisions taken between the git commands.
use vstd::prelude::*;
use std::fmt::Write;
use crate::cli::{SyncArgs, TaskRun};
use crate::tasks::task_core::{PlannedOperation, ops_view};
use crate::text::{clone_opt_string, contains_seq, contains_str, owned, trim, trim_spec};

verus! {

/// Pulls from, commits to and pushes to the git repository of `.mntn`.
#[derive(Debug, Clone)]
pub struct SyncTask {
    pub init: bool,
    pub remote_url: Option<String>,
    pub pull: bool,
    pub push: bool,
    pub sync: bool,
    pub message: Option<String>,
    pub auto_link: bool,
}

/// What a dry run of a sync lists, for the `.mntn` directory `mntn_dir`.
pub open spec fn sync_plan(t: SyncTask, mntn_dir: Seq<char>) -> Seq<(Seq<char>, Option<Seq<char>>)> {
    let init = if t.init {
        let first = seq![("Initialize git repository"@, Some(mntn_dir))];
        match t.remote_url {
            Some(url) => first.push(("Add remote origin"@, Some(url@))),
            None => first,
        }
    } else {
        seq![]
    };
    let pull = if t.pull || t.sync {
        let first = seq![("Pull latest changes from remote"@, None::<Seq<char>>)];
        if t.auto_link {
            first.push(("Auto-link configurations after pull"@, None))
        } else {
            first
        }
    } else {
        seq![]
    };
    let push = if t.push || t.sync {
        seq![
            ("Stage all changes"@, None::<Seq<char>>),
            ("Commit changes"@, None::<Seq<char>>),
            ("Push to remote repository"@, None::<Seq<char>>),
        ]
    } else {
        seq![]
    };
    init + pull + push
}

/// How the repository is prepared before syncing.
#[derive(Debug, Clone)]
pub enum RepoSetup {
    /// Create the repository with this remote, then the default `.gitignore`.
    Initialize(String),
    /// The repository exists: make sure `.gitignore` leaves out the log.
    EnsureGitignore,
}

/// The message when `--init` comes without a remote.
pub open spec fn missing_remote_message() -> Seq<char> {
    "Remote URL is required when using --init"@
}

/// The message when there is no repository and no `--init`.
pub open spec fn no_repository_message() -> Seq<char> {
    "No git repository found. Use --init with --remote-url to initialize."@
}

/// The message of a commit: the one given, or `chore: sync mntn (<timestamp>)`.
pub open spec fn commit_message_spec(message: Option<String>, timestamp: Seq<char>) -> Seq<char> {
    match message {
        Some(m) => m@,
        None => "chore: sync mntn ("@ + timestamp + ")"@,
    }
}

/// The format of the commit timestamp (`chrono` strftime syntax).
pub const TIMESTAMP_FORMAT: &'static str = "%Y-%m-%d %H:%M:%S UTC";

/// An ASCII digit.
pub open spec fn is_digit(c: char) -> bool {
    '0' <= c && c <= '9'
}

/// All characters of `s` from `from` on are digits.
pub open spec fn digits_from(s: Seq<char>, from: int) -> bool {
    forall|i: int| from <= i < s.len() ==> is_digit(#[trigger] s[i])
}

/// A year as `%Y` writes it: four digits for years 0 to 9999, otherwise a
/// sign and at least four digits.
pub open spec fn year_shape(y: Seq<char>) -> bool {
    ||| y.len() == 4 && digits_from(y, 0)
    ||| y.len() >= 5 && (y[0] == '+' || y[0] == '-') && digits_from(y, 1)
}

/// The shape of a time written with [`TIMESTAMP_FORMAT`]:
/// `<year>-MM-DD HH:MM:SS UTC`, each field after the year two digits.
pub open spec fn timestamp_shape(s: Seq<char>) -> bool {
    &&& s.len() >= 23
    &&& year_shape(s.subrange(0, s.len() - 19))
    &&& {
        let t = s.subrange(s.len() - 19, s.len() as int);
        &&& t[0] == '-' && is_digit(t[1]) && is_digit(t[2])
        &&& t[3] == '-' && is_digit(t[4]) && is_digit(t[5])
        &&& t[6] == ' ' && is_digit(t[7]) && is_digit(t[8])
        &&& t[9] == ':' && is_digit(t[10]) && is_digit(t[11])
        &&& t[12] == ':' && is_digit(t[13]) && is_digit(t[14])
        &&& t.subrange(15, 19) == " UTC"@
    }
}

/// Calls `chrono::Utc::now()` and writes it with `format`; `None` when the
/// format cannot be written. What time it gives depends on the clock, so
/// only the shape is stated, and only for [`TIMESTAMP_FORMAT`]: chrono writes
/// `%Y` as four digits (a sign and more digits outside years 0 to 9999) and
/// `%m`, `%d`, `%H`, `%M`, `%S` as two digits each, and that format has no
/// item that can fail.
#[verifier::external_body]
fn utc_now_formatted(format: &str) -> (r: Option<String>)
    ensures
        r is None ==> format@ != TIMESTAMP_FORMAT@,
        r matches Some(s) ==> (format@ == TIMESTAMP_FORMAT@ ==> timestamp_shape(s@)),
{
    let mut s = String::new();
    match write!(s, "{}", chrono::Utc::now().format(format)) {
        Ok(()) => Some(s),
        Err(_) => None,
    }
}

/// The `.gitignore` written into a new repository.
pub const DEFAULT_GITIGNORE: &'static str = "# mntn log files
mntn.log
*.log

# Temporary files
.DS_Store
Thumbs.db

# Editor files
.vscode/
.idea/

# OS generated files
*~
*.swp
*.swo

# Backup directories (optional - uncomment if you don't want to track these)
# symlinks/
";

/// What is appended to a `.gitignore` that does not leave out the log.
pub const GITIGNORE_LOG_LINES: &'static str = "\n# mntn log files\nmntn.log\n";

impl SyncTask {
    /// The task for the command-line arguments.
    pub fn from_args(args: &SyncArgs) -> (r: Self)
        ensures
            r.init == args.init,
            r.remote_url == args.remote_url,
            r.pull == args.pull,
            r.push == args.push,
            r.sync == args.sync,
            r.message == args.message,
            r.auto_link == args.auto_link,
    {
        SyncTask {
            init: args.init,
            remote_url: clone_opt_string(&args.remote_url),
            pull: args.pull,
            push: args.push,
            sync: args.sync,
            message: clone_opt_string(&args.message),
            auto_link: args.auto_link,
        }
    }

    /// The task's name.
    pub fn name(&self) -> (r: &'static str)
        ensures
            r@ == "Sync"@,
    {
        "Sync"
    }

    /// What the task would do in the `.mntn` directory `mntn_dir`.
    pub fn dry_run(&self, mntn_dir: &str) -> (r: Vec<PlannedOperation>)
        ensures
            ops_view(r@) == sync_plan(*self, mntn_dir@),
    {
        let mut ops: Vec<PlannedOperation> = Vec::new();
        if self.init {
            ops.push(PlannedOperation::with_target("Initialize git repository", mntn_dir));
            match &self.remote_url {
                Some(url) => ops.push(PlannedOperation::with_target("Add remote origin", url.as_str())),
                None => {},
            }
        }
        if self.pull || self.sync {
            ops.push(PlannedOperation::new("Pull latest changes from remote"));
            if self.auto_link {
                ops.push(PlannedOperation::new("Auto-link configurations after pull"));
            }
        }
        if self.push || self.sync {
            ops.push(PlannedOperation::new("Stage all changes"));
            ops.push(PlannedOperation::new("Commit changes"));
            ops.push(PlannedOperation::new("Push to remote repository"));
        }
        proof {
            assert(ops_view(ops@) =~= sync_plan(*self, mntn_dir@));
        }
        ops
    }

    /// How to prepare the repository, given whether `.mntn/.git` exists.
    pub fn repo_setup(&self, has_repository: bool) -> (r: Result<RepoSetup, String>)
        ensures
            has_repository ==> r matches Ok(RepoSetup::EnsureGitignore),
            !has_repository && self.init && self.remote_url is Some ==> (r matches Ok(RepoSetup::Initialize(url))
                && Some(url) == self.remote_url),
            !has_repository && self.init && self.remote_url is None ==> (r matches Err(m) && m@
                == missing_remote_message()),
            !has_repository && !self.init ==> (r matches Err(m) && m@ == no_repository_message()),
    {
        if has_repository {
            Ok(RepoSetup::EnsureGitignore)
        } else if self.init {
            match &self.remote_url {
                Some(url) => Ok(RepoSetup::Initialize(url.clone())),
                None => Err(owned("Remote URL is required when using --init")),
            }
        } else {
            Err(owned("No git repository found. Use --init with --remote-url to initialize."))
        }
    }

    /// Whether the task pulls.
    pub fn pulls(&self) -> (r: bool)
        ensures
            r == (self.pull || self.sync),
    {
        self.pull || self.sync
    }

    /// Whether the task commits and pushes.
    pub fn pushes(&self) -> (r: bool)
        ensures
            r == (self.push || self.sync),
    {
        self.push || self.sync
    }

    /// The commit message, stamped with the current time when none was given.
    pub fn commit_message(&self) -> (r: String)
        ensures
            exists|timestamp: Seq<char>|
                timestamp_shape(timestamp) && r@ == #[trigger] commit_message_spec(self.message, timestamp),
    {
        let stamp = match utc_now_formatted(TIMESTAMP_FORMAT) {
            Some(s) => s,
            None => {
                proof {
                    assert(false);
                }
                String::new()
            },
        };
        let r = commit_message_from(&self.message, stamp.as_str());
        proof {
            assert(r@ == commit_message_spec(self.message, stamp@));
        }
        r
    }
}

/// The commit message for a given timestamp (see [`commit_message_spec`]).
pub fn commit_message_from(message: &Option<String>, timestamp: &str) -> (r: String)
    ensures
        r@ == commit_message_spec(*message, timestamp@),
{
    match message {
        Some(m) => m.clone(),
        None => {
            let mut s = owned("chore: sync mntn (");
            s.append(timestamp);
            s.append(")");
            s
        },
    }
}

/// The git arguments that create the repository with remote `url`.
pub open spec fn init_commands_spec(url: Seq<char>) -> Seq<Seq<Seq<char>>> {
    seq![seq!["init"@], seq!["remote"@, "add"@, "origin"@, url], seq!["branch"@, "-M"@, "main"@]]
}

/// The git arguments of [`init_commands_spec`].
pub fn init_commands(url: &str) -> (r: Vec<Vec<String>>)
    ensures
        r@.map_values(|c: Vec<String>| crate::path::views(c@)) == init_commands_spec(url@),
{
    let r = vec![
        vec![owned("init")],
        vec![owned("remote"), owned("add"), owned("origin"), owned(url)],
        vec![owned("branch"), owned("-M"), owned("main")],
    ];
    proof {
        assert(crate::path::views(r@[0]@) =~= init_commands_spec(url@)[0]);
        assert(crate::path::views(r@[1]@) =~= init_commands_spec(url@)[1]);
        assert(crate::path::views(r@[2]@) =~= init_commands_spec(url@)[2]);
        assert(r@.map_values(|c: Vec<String>| crate::path::views(c@)) =~= init_commands_spec(url@));
    }
    r
}

/// Whether `git status --porcelain` printed any change.
pub fn has_changes(status: &str) -> (r: bool)
    ensures
        r == (trim_spec(status@).len() > 0),
{
    trim(status).unicode_len() > 0
}

/// Whether an existing `.gitignore` lacks a rule for the log file: it
/// mentions neither `mntn.log` nor `*.log`.
pub fn gitignore_needs_log_rule(content: &str) -> (r: bool)
    ensures
        r == (!contains_seq(content@, "mntn.log"@) && !contains_seq(content@, "*.log"@)),
{
    !contains_str(content, "mntn.log") && !contains_str(content, "*.log")
}

/// The task for the command-line arguments; a sync is never a dry run.
pub fn run_with_args(args: SyncArgs) -> (r: TaskRun<SyncTask>)
    ensures
        r.task.init == args.init,
        r.task.remote_url == args.remote_url,
        r.task.pull == args.pull,
        r.task.push == args.push,
        r.task.sync == args.sync,
        r.task.message == args.message,
        r.task.auto_link == args.auto_link,
        !r.dry_run,
{
    TaskRun { task: SyncTask::from_args(&args), dry_run: false }
}

/// Where a sync stands once the repository is prepared: at the start, or
/// after the step named.
#[derive(Debug, Clone, Copy, PartialEq, Eq, Structural)]
pub enum SyncStage {
    Start,
    Pulled,
    Linked,
    Staged,
    StatusRead,
    Committed,
    Pushed,
}

/// The kind of the next thing a sync does.
#[derive(Debug, Clone, Copy, PartialEq, Eq, Structural)]
pub enum SyncActionKind {
    /// Run git with the move's arguments, in the `.mntn` directory.
    Git,
    /// Link the configurations, as `mntn link` does.
    AutoLink,
    /// The sync is over.
    Done,
}

/// The next move of a sync: the lines to show, what to do, and the stage
/// reached once it is done.
#[derive(Debug, Clone)]
pub struct SyncMove {
    pub lines: Vec<String>,
    pub kind: SyncActionKind,
    pub args: Vec<String>,
    pub next: SyncStage,
}

/// The view of a move: lines, kind, git arguments and next stage.
pub open spec fn move_view(m: SyncMove) -> (Seq<Seq<char>>, SyncActionKind, Seq<Seq<char>>, SyncStage) {
    (crate::path::views(m.lines@), m.kind, crate::path::views(m.args@), m.next)
}

/// Once pulling is over (or skipped): stage the changes when the task
/// pushes, after showing `lines`; otherwise the sync is over.
pub open spec fn push_part(t: SyncTask, lines: Seq<Seq<char>>, at: SyncStage) -> (
    Seq<Seq<char>>,
    SyncActionKind,
    Seq<Seq<char>>,
    SyncStage,
) {
    if t.push || t.sync {
        (lines, SyncActionKind::Git, seq!["add"@, "."@], SyncStage::Staged)
    } else {
        (lines, SyncActionKind::Done, seq![], at)
    }
}

/// The move of a sync at `stage`, with `output` what the last git command
/// printed and `message` the commit message: pull (and link) when asked,
/// then stage, read the status, and commit and push only when there are
/// changes.
pub open spec fn sync_move_spec(t: SyncTask, stage: SyncStage, output: Seq<char>, message: Seq<char>) -> (
    Seq<Seq<char>>,
    SyncActionKind,
    Seq<Seq<char>>,
    SyncStage,
) {
    match stage {
        SyncStage::Start => if t.pull || t.sync {
            (seq!["\u{1f504} Pulling latest changes..."@], SyncActionKind::Git, seq!["pull"@], SyncStage::Pulled)
        } else {
            push_part(t, seq![], stage)
        },
        SyncStage::Pulled => if t.auto_link {
            (
                seq!["\u{2705} Successfully pulled latest changes"@, "\u{1f517} Auto-linking configurations..."@],
                SyncActionKind::AutoLink,
                seq![],
                SyncStage::Linked,
            )
        } else {
            push_part(t, seq!["\u{2705} Successfully pulled latest changes"@], stage)
        },
        SyncStage::Linked => push_part(t, seq![], stage),
        SyncStage::Staged => (seq![], SyncActionKind::Git, seq!["status"@, "--porcelain"@], SyncStage::StatusRead),
        SyncStage::StatusRead => if trim_spec(output).len() > 0 {
            (seq![], SyncActionKind::Git, seq!["commit"@, "-m"@, message], SyncStage::Committed)
        } else {
            (seq!["\u{2139}\u{fe0f}  No changes to commit"@], SyncActionKind::Done, seq![], stage)
        },
        SyncStage::Committed => (seq![], SyncActionKind::Git, seq!["push"@], SyncStage::Pushed),
        SyncStage::Pushed => (seq!["\u{2705} Changes pushed to remote repository"@], SyncActionKind::Done, seq![], stage),
    }
}

/// The rules a sync follows, whatever git printed: it pulls only at the
/// start and only when asked to pull or sync; it links only right after a
/// pull and only when asked to; it stages only when asked to push or sync;
/// it commits, with exactly the given message, only after reading a status
/// that is not blank, and a blank status ends the sync; it pushes only right
/// after committing; and every git command but the pull leads to a later
/// stage.
pub proof fn law_sync_moves(t: SyncTask, stage: SyncStage, output: Seq<char>, message: Seq<char>)
    ensures
        ({
            let m = sync_move_spec(t, stage, output, message);
            &&& m.1 == SyncActionKind::Git && m.2 == seq!["pull"@] ==> stage == SyncStage::Start && (t.pull || t.sync)
            &&& stage == SyncStage::Start && (t.pull || t.sync) ==> m.1 == SyncActionKind::Git && m.2 == seq!["pull"@]
                && m.3 == SyncStage::Pulled
            &&& m.1 == SyncActionKind::AutoLink <==> stage == SyncStage::Pulled && t.auto_link
            &&& m.1 == SyncActionKind::Git && m.2 == seq!["add"@, "."@] ==> (t.push || t.sync) && (
            stage == SyncStage::Start || stage == SyncStage::Pulled || stage == SyncStage::Linked)
            &&& m.1 == SyncActionKind::Git && m.2.len() > 0 && m.2[0] == "commit"@ ==> stage == SyncStage::StatusRead
                && trim_spec(output).len() > 0 && m.2 == seq!["commit"@, "-m"@, message]
            &&& stage == SyncStage::StatusRead ==> (trim_spec(output).len() > 0 <==> m.1 == SyncActionKind::Git)
            &&& stage == SyncStage::StatusRead && trim_spec(output).len() == 0 ==> m.1 == SyncActionKind::Done
            &&& m.1 == SyncActionKind::Git && m.2 == seq!["push"@] ==> stage == SyncStage::Committed
            &&& stage == SyncStage::Committed ==> m.1 == SyncActionKind::Git && m.2 == seq!["push"@]
            &&& !t.push && !t.sync ==> !(m.1 == SyncActionKind::Git && m.2 == seq!["add"@, "."@])
        }),
{
    reveal_strlit("pull");
    reveal_strlit("add");
    reveal_strlit("commit");
    reveal_strlit("push");
    reveal_strlit("status");
    let m = sync_move_spec(t, stage, output, message);
    assert(seq!["add"@, "."@] != seq!["pull"@]) by {
        assert(seq!["add"@, "."@].len() != seq!["pull"@].len());
    }
    assert(seq!["status"@, "--porcelain"@] != seq!["pull"@]) by {
        assert(seq!["status"@, "--porcelain"@].len() != seq!["pull"@].len());
    }
    assert(seq!["commit"@, "-m"@, message] != seq!["pull"@]) by {
        assert(seq!["commit"@, "-m"@, message].len() != seq!["pull"@].len());
    }
    assert(seq!["add"@, "."@] != seq!["push"@]) by {
        assert(seq!["add"@, "."@].len() != seq!["push"@].len());
    }
    assert(seq!["status"@, "--porcelain"@] != seq!["push"@]) by {
        assert(seq!["status"@, "--porcelain"@].len() != seq!["push"@].len());
    }
    assert(seq!["commit"@, "-m"@, message] != seq!["push"@]) by {
        assert(seq!["commit"@, "-m"@, message].len() != seq!["push"@].len());
    }
    assert(seq!["pull"@] != seq!["push"@]) by {
        assert(seq!["pull"@][0] == "pull"@);
        assert(seq!["push"@][0] == "push"@);
        assert("pull"@[2] != "push"@[2]);
    }
    assert(seq!["pull"@] != seq!["add"@, "."@]) by {
        assert(seq!["pull"@].len() != seq!["add"@, "."@].len());
    }
    assert(seq!["status"@, "--porcelain"@] != seq!["add"@, "."@]) by {
        assert(seq!["status"@, "--porcelain"@][0] == "status"@);
        assert(seq!["add"@, "."@][0] == "add"@);
        assert("status"@.len() != "add"@.len());
    }
    assert(seq!["commit"@, "-m"@, message] != seq!["add"@, "."@]) by {
        assert(seq!["commit"@, "-m"@, message].len() != seq!["add"@, "."@].len());
    }
    assert(seq!["push"@] != seq!["add"@, "."@]) by {
        assert(seq!["push"@].len() != seq!["add"@, "."@].len());
    }
    assert("add"@ != "commit"@) by {
        assert("add"@.len() != "commit"@.len());
    }
    assert("pull"@ != "commit"@) by {
        assert("pull"@.len() != "commit"@.len());
    }
    assert("push"@ != "commit"@) by {
        assert("push"@.len() != "commit"@.len());
    }
    assert("status"@ != "commit"@) by {
        assert("status"@[0] != "commit"@[0]);
    }
}

fn push_move(t: &SyncTask, lines: Vec<String>, at: SyncStage) -> (r: SyncMove)
    ensures
        move_view(r) == push_part(*t, crate::path::views(lines@), at),
{
    if t.push || t.sync {
        let r = SyncMove { lines, kind: SyncActionKind::Git, args: vec![owned("add"), owned(".")], next: SyncStage::Staged };
        proof {
            assert(crate::path::views(r.args@) =~= seq!["add"@, "."@]);
        }
        r
    } else {
        let r = SyncMove { lines, kind: SyncActionKind::Done, args: Vec::new(), next: at };
        proof {
            assert(crate::path::views(r.args@) =~= Seq::<Seq<char>>::empty());
        }
        r
    }
}

impl SyncTask {
    /// The next move of the sync at `stage` (see [`sync_move_spec`]).
    pub fn next_move(&self, stage: SyncStage, output: &str, message: &str) -> (r: SyncMove)
        ensures
            move_view(r) == sync_move_spec(*self, stage, output@, message@),
    {
        let empty: Vec<String> = Vec::new();
        proof {
            assert(crate::path::views(empty@) =~= Seq::<Seq<char>>::empty());
        }
        let r = match stage {
            SyncStage::Start => if self.pull || self.sync {
                SyncMove {
                    lines: vec![owned("\u{1f504} Pulling latest changes...")],
                    kind: SyncActionKind::Git,
                    args: vec![owned("pull")],
                    next: SyncStage::Pulled,
                }
            } else {
                push_move(self, empty, stage)
            },
            SyncStage::Pulled => if self.auto_link {
                SyncMove {
                    lines: vec![
                        owned("\u{2705} Successfully pulled latest changes"),
                        owned("\u{1f517} Auto-linking configurations..."),
                    ],
                    kind: SyncActionKind::AutoLink,
                    args: Vec::new(),
                    next: SyncStage::Linked,
                }
            } else {
                let lines = vec![owned("\u{2705} Successfully pulled latest changes")];
                proof {
                    assert(crate::path::views(lines@) =~= seq!["\u{2705} Successfully pulled latest changes"@]);
                }
                push_move(self, lines, stage)
            },
            SyncStage::Linked => push_move(self, empty, stage),
            SyncStage::Staged => SyncMove {
                lines: Vec::new(),
                kind: SyncActionKind::Git,
                args: vec![owned("status"), owned("--porcelain")],
                next: SyncStage::StatusRead,
            },
            SyncStage::StatusRead => if has_changes(output) {
                SyncMove {
                    lines: Vec::new(),
                    kind: SyncActionKind::Git,
                    args: vec![owned("commit"), owned("-m"), owned(message)],
                    next: SyncStage::Committed,
                }
            } else {
                SyncMove {
                    lines: vec![owned("\u{2139}\u{fe0f}  No changes to commit")],
                    kind: SyncActionKind::Done,
                    args: Vec::new(),
                    next: stage,
                }
            },
            SyncStage::Committed => SyncMove {
                lines: Vec::new(),
                kind: SyncActionKind::Git,
                args: vec![owned("push")],
                next: SyncStage::Pushed,
            },
            SyncStage::Pushed => SyncMove {
                lines: vec![owned("\u{2705} Changes pushed to remote repository")],
                kind: SyncActionKind::Done,
                args: Vec::new(),
                next: stage,
            },
        };
        proof {
            assert(move_view(r) =~= sync_move_spec(*self, stage, output@, message@));
        }
        r
    }
}

} // verus!
