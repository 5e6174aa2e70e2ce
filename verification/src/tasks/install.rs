//! Scheduled maintenance tasks: which are installed, and the launchd,
//! systemd and Task Scheduler definitions written for them.
use vstd::prelude::*;
use crate::cli::InstallArgs;
use crate::path::{join, path_join};
use crate::tasks::validate::{join_strings, join_with};
use crate::text::{clone_strings, decimal, owned, to_decimal};
use crate::utils::system::{CommandLookup, Platform, command_available};

verus! {

/// A command run at a fixed interval.
#[derive(Debug, Clone)]
pub struct ScheduledTask {
    pub label: String,
    pub binary: String,
    pub args: Vec<String>,
    /// Seconds between runs.
    pub interval: u32,
}

/// The view of a scheduled task: label, binary, arguments and interval.
pub open spec fn task_view(t: ScheduledTask) -> (Seq<char>, Seq<char>, Seq<Seq<char>>, u32) {
    (t.label@, t.binary@, crate::path::views(t.args@), t.interval)
}

/// The hourly backup.
pub open spec fn backup_hourly_spec() -> (Seq<char>, Seq<char>, Seq<Seq<char>>, u32) {
    ("com.mntn.backup"@, "mntn"@, seq!["backup"@], 3600)
}

/// The daily clean.
pub open spec fn clean_daily_spec() -> (Seq<char>, Seq<char>, Seq<Seq<char>>, u32) {
    ("com.mntn.clean"@, "mntn"@, seq!["clean"@], 86400)
}

/// The daily topgrade run.
pub open spec fn topgrade_daily_spec() -> (Seq<char>, Seq<char>, Seq<Seq<char>>, u32) {
    ("com.mntn.topgrade"@, "topgrade"@, seq![], 86400)
}

/// The tasks installed: the hourly backup, the daily topgrade run when
/// topgrade is installed, and the daily clean when asked for.
pub open spec fn scheduled_tasks_spec(with_clean: bool, has_topgrade: bool) -> Seq<
    (Seq<char>, Seq<char>, Seq<Seq<char>>, u32),
> {
    let first = seq![backup_hourly_spec()];
    let second = if has_topgrade {
        first.push(topgrade_daily_spec())
    } else {
        first
    };
    if with_clean {
        second.push(clean_daily_spec())
    } else {
        second
    }
}

/// What is installed: the hourly `mntn backup` (every 3600 seconds) always,
/// first; the daily `topgrade` run (every 86400 seconds) exactly when
/// topgrade was found; the daily `mntn clean` exactly when asked for, last.
pub proof fn law_scheduled_tasks(with_clean: bool, has_topgrade: bool)
    ensures
        ({
            let ts = scheduled_tasks_spec(with_clean, has_topgrade);
            &&& ts.len() == 1 + (if has_topgrade { 1int } else { 0int }) + (if with_clean { 1int } else { 0int })
            &&& ts[0] == ("com.mntn.backup"@, "mntn"@, seq!["backup"@], 3600u32)
            &&& (exists|i: int| 0 <= i < ts.len() && ts[i].1 == "topgrade"@) <==> has_topgrade
            &&& forall|i: int| 0 <= i < ts.len() && ts[i].1 == "topgrade"@ ==> ts[i] == (
                "com.mntn.topgrade"@,
                "topgrade"@,
                Seq::<Seq<char>>::empty(),
                86400u32,
            )
            &&& (exists|i: int| 0 <= i < ts.len() && ts[i].2 == seq!["clean"@]) <==> with_clean
            &&& with_clean ==> ts.last() == ("com.mntn.clean"@, "mntn"@, seq!["clean"@], 86400u32)
        }),
{
    reveal_strlit("mntn");
    reveal_strlit("topgrade");
    reveal_strlit("backup");
    reveal_strlit("clean");
    let ts = scheduled_tasks_spec(with_clean, has_topgrade);
    assert("mntn"@ != "topgrade"@) by {
        assert("mntn"@.len() != "topgrade"@.len());
    }
    assert(seq!["backup"@] != seq!["clean"@]) by {
        assert(seq!["backup"@][0] == "backup"@);
        assert(seq!["clean"@][0] == "clean"@);
        assert("backup"@.len() != "clean"@.len());
    }
    assert(Seq::<Seq<char>>::empty() != seq!["clean"@]) by {
        assert(seq!["clean"@].len() == 1);
    }
    if has_topgrade {
        assert(ts[1].1 == "topgrade"@);
    }
    if with_clean {
        assert(ts.last().2 == seq!["clean"@]);
    }
}

/// The launchd property list of a task whose binary is at `binary`.
pub open spec fn launchd_plist_spec(t: (Seq<char>, Seq<char>, Seq<Seq<char>>, u32), binary: Seq<char>) -> Seq<char> {
    let args = join_with(t.2.map_values(|a: Seq<char>| "    <string>"@ + a + "</string>"@), "\n"@);
    "<?xml version=\"1.0\" encoding=\"UTF-8\"?>\n<!DOCTYPE plist PUBLIC \"-//Apple Computer//DTD PLIST 1.0//EN\" \"http://www.apple.com/DTDs/PropertyList-1.0.dtd\">\n<plist version=\"1.0\"><dict>\n  <key>Label</key><string>"@
        + t.0 + "</string>\n  <key>ProgramArguments</key><array>\n    <string>"@ + binary + "</string>\n    "@ + args
        + "\n  </array>\n  <key>StartInterval</key><integer>"@ + decimal(t.3 as nat)
        + "</integer>\n  <key>RunAtLoad</key><true/>\n  <key>StandardOutPath</key><string>/tmp/"@ + t.0
        + ".out</string>\n  <key>StandardErrorPath</key><string>/tmp/"@ + t.0 + ".err</string>\n</dict></plist>\n"@
}

/// The command line a task runs: the binary, then its arguments.
pub open spec fn exec_line(t: (Seq<char>, Seq<char>, Seq<Seq<char>>, u32), binary: Seq<char>) -> Seq<char> {
    binary + " "@ + join_with(t.2, " "@)
}

/// The systemd service unit of a task.
pub open spec fn systemd_service_spec(t: (Seq<char>, Seq<char>, Seq<Seq<char>>, u32), binary: Seq<char>) -> Seq<char> {
    "[Unit]\nDescription=Run "@ + t.0 + " task\n\n[Service]\nType=oneshot\nExecStart="@ + exec_line(t, binary) + "\n"@
}

/// The systemd timer unit for an interval: hourly, daily, every so many
/// hours, or every so many seconds.
pub open spec fn systemd_timer_spec(interval: u32) -> Seq<char> {
    let install = "\nPersistent=true\n\n[Install]\nWantedBy=timers.target\n"@;
    if interval % 3600 == 0 {
        let hours = interval / 3600;
        if hours == 1 {
            "[Unit]\nDescription=Hourly task\n\n[Timer]\nOnCalendar=hourly"@ + install
        } else if hours == 24 {
            "[Unit]\nDescription=Daily task\n\n[Timer]\nOnCalendar=daily"@ + install
        } else {
            "[Unit]\nDescription=Every "@ + decimal(hours as nat) + " hours task\n\n[Timer]\nOnUnitActiveSec="@
                + decimal(hours as nat) + "h"@ + install
        }
    } else {
        "[Unit]\nDescription=Interval task "@ + decimal(interval as nat) + "s\n\n[Timer]\nOnUnitActiveSec="@
            + decimal(interval as nat) + "s"@ + install
    }
}

/// The Task Scheduler arguments (`schtasks`) that create a task: daily for
/// intervals of at least 23 hours, else hourly.
pub open spec fn schtasks_args_spec(t: (Seq<char>, Seq<char>, Seq<Seq<char>>, u32), binary: Seq<char>) -> Seq<Seq<char>> {
    let schedule = if t.3 >= 82800 { "DAILY"@ } else { "HOURLY"@ };
    seq![
        "/Create"@,
        "/SC"@,
        schedule,
        "/TN"@,
        "mntn-"@ + t.0,
        "/TR"@,
        "\""@ + binary + "\" "@ + join_with(t.2, " "@),
        "/F"@,
    ]
}

impl ScheduledTask {
    /// A task running `binary` with `args` every `interval` seconds.
    pub fn new(label: &str, binary: &str, args: &Vec<String>, interval: u32) -> (r: Self)
        ensures
            task_view(r) == (label@, binary@, crate::path::views(args@), interval),
    {
        ScheduledTask { label: owned(label), binary: owned(binary), args: clone_strings(args), interval }
    }

    /// `mntn backup` every hour.
    pub fn backup_hourly() -> (r: Self)
        ensures
            task_view(r) == backup_hourly_spec(),
    {
        let r = Self::new("com.mntn.backup", "mntn", &vec![owned("backup")], 3600);
        proof {
            assert(crate::path::views(r.args@) =~= seq!["backup"@]);
        }
        r
    }

    /// `mntn clean` every day.
    pub fn clean_daily() -> (r: Self)
        ensures
            task_view(r) == clean_daily_spec(),
    {
        let r = Self::new("com.mntn.clean", "mntn", &vec![owned("clean")], 86400);
        proof {
            assert(crate::path::views(r.args@) =~= seq!["clean"@]);
        }
        r
    }

    /// `topgrade` every day.
    pub fn topgrade_daily() -> (r: Self)
        ensures
            task_view(r) == topgrade_daily_spec(),
    {
        let r = Self::new("com.mntn.topgrade", "topgrade", &Vec::new(), 86400);
        proof {
            assert(crate::path::views(r.args@) =~= Seq::<Seq<char>>::empty());
        }
        r
    }

    /// The task's label.
    pub fn label(&self) -> (r: &str)
        ensures
            r@ == self.label@,
    {
        self.label.as_str()
    }

    /// The launchd property list, for the task's binary found at `binary_path`.
    pub fn launchd_plist(&self, binary_path: &str) -> (r: String)
        ensures
            r@ == launchd_plist_spec(task_view(*self), binary_path@),
    {
        let mut lines: Vec<String> = Vec::new();
        let mut i: usize = 0;
        while i < self.args.len()
            invariant
                i <= self.args.len(),
                crate::path::views(lines@) == crate::path::views(self.args@).take(i as int).map_values(
                    |a: Seq<char>| "    <string>"@ + a + "</string>"@,
                ),
            decreases self.args.len() - i,
        {
            let mut l = owned("    <string>");
            l.append(self.args[i].as_str());
            l.append("</string>");
            let ghost before = lines@;
            lines.push(l);
            proof {
                assert(crate::path::views(self.args@).take(i + 1) =~= crate::path::views(self.args@).take(
                    i as int,
                ).push(self.args@[i as int]@));
                assert(crate::path::views(lines@) =~= crate::path::views(before).push(l@));
                assert(crate::path::views(lines@) =~= crate::path::views(self.args@).take(i + 1).map_values(
                    |a: Seq<char>| "    <string>"@ + a + "</string>"@,
                ));
            }
            i = i + 1;
        }
        proof {
            assert(crate::path::views(self.args@).take(self.args.len() as int) =~= crate::path::views(self.args@));
        }
        let args = join_strings(&lines, "\n");
        let mut s = owned(
            "<?xml version=\"1.0\" encoding=\"UTF-8\"?>\n<!DOCTYPE plist PUBLIC \"-//Apple Computer//DTD PLIST 1.0//EN\" \"http://www.apple.com/DTDs/PropertyList-1.0.dtd\">\n<plist version=\"1.0\"><dict>\n  <key>Label</key><string>",
        );
        s.append(self.label.as_str());
        s.append("</string>\n  <key>ProgramArguments</key><array>\n    <string>");
        s.append(binary_path);
        s.append("</string>\n    ");
        s.append(args.as_str());
        s.append("\n  </array>\n  <key>StartInterval</key><integer>");
        s.append(to_decimal(self.interval as u128).as_str());
        s.append("</integer>\n  <key>RunAtLoad</key><true/>\n  <key>StandardOutPath</key><string>/tmp/");
        s.append(self.label.as_str());
        s.append(".out</string>\n  <key>StandardErrorPath</key><string>/tmp/");
        s.append(self.label.as_str());
        s.append(".err</string>\n</dict></plist>\n");
        s
    }

    /// Where the property list goes: `~/Library/LaunchAgents/<label>.plist`.
    pub fn launchd_plist_path(&self, home: &str) -> (r: String)
        ensures
            r@ == path_join(path_join(home@, "Library/LaunchAgents"@), self.label@ + ".plist"@),
    {
        let mut name = self.label.clone();
        name.append(".plist");
        join(join(home, "Library/LaunchAgents").as_str(), name.as_str())
    }

    /// The command line the task runs, for its binary found at `binary_path`.
    pub fn exec_line(&self, binary_path: &str) -> (r: String)
        ensures
            r@ == exec_line(task_view(*self), binary_path@),
    {
        let mut s = owned(binary_path);
        s.append(" ");
        s.append(join_strings(&self.args, " ").as_str());
        s
    }

    /// The systemd service unit.
    pub fn systemd_service(&self, binary_path: &str) -> (r: String)
        ensures
            r@ == systemd_service_spec(task_view(*self), binary_path@),
    {
        let mut s = owned("[Unit]\nDescription=Run ");
        s.append(self.label.as_str());
        s.append(" task\n\n[Service]\nType=oneshot\nExecStart=");
        s.append(self.exec_line(binary_path).as_str());
        s.append("\n");
        s
    }

    /// The systemd timer unit.
    pub fn systemd_timer(&self) -> (r: String)
        ensures
            r@ == systemd_timer_spec(self.interval),
    {
        let install = "\nPersistent=true\n\n[Install]\nWantedBy=timers.target\n";
        let mut s;
        if self.interval % 3600 == 0 {
            let hours = self.interval / 3600;
            if hours == 1 {
                s = owned("[Unit]\nDescription=Hourly task\n\n[Timer]\nOnCalendar=hourly");
            } else if hours == 24 {
                s = owned("[Unit]\nDescription=Daily task\n\n[Timer]\nOnCalendar=daily");
            } else {
                s = owned("[Unit]\nDescription=Every ");
                s.append(to_decimal(hours as u128).as_str());
                s.append(" hours task\n\n[Timer]\nOnUnitActiveSec=");
                s.append(to_decimal(hours as u128).as_str());
                s.append("h");
            }
        } else {
            s = owned("[Unit]\nDescription=Interval task ");
            s.append(to_decimal(self.interval as u128).as_str());
            s.append("s\n\n[Timer]\nOnUnitActiveSec=");
            s.append(to_decimal(self.interval as u128).as_str());
            s.append("s");
        }
        s.append(install);
        s
    }

    /// The unit file names: `<label>.service` and `<label>.timer`.
    pub fn systemd_unit_names(&self) -> (r: (String, String))
        ensures
            r.0@ == self.label@ + ".service"@,
            r.1@ == self.label@ + ".timer"@,
    {
        let mut service = self.label.clone();
        service.append(".service");
        let mut timer = self.label.clone();
        timer.append(".timer");
        (service, timer)
    }

    /// The `schtasks` arguments that create the task.
    pub fn schtasks_args(&self, binary_path: &str) -> (r: Vec<String>)
        ensures
            crate::path::views(r@) == schtasks_args_spec(task_view(*self), binary_path@),
    {
        let schedule = if self.interval >= 82800 {
            owned("DAILY")
        } else {
            owned("HOURLY")
        };
        let mut name = owned("mntn-");
        name.append(self.label.as_str());
        let mut exec = owned("\"");
        exec.append(binary_path);
        exec.append("\" ");
        exec.append(join_strings(&self.args, " ").as_str());
        let r = vec![
            owned("/Create"),
            owned("/SC"),
            schedule,
            owned("/TN"),
            name,
            owned("/TR"),
            exec,
            owned("/F"),
        ];
        proof {
            assert(crate::path::views(r@) =~= schtasks_args_spec(task_view(*self), binary_path@));
        }
        r
    }
}

/// One step of installing a scheduled task.
#[derive(Debug, Clone)]
pub enum InstallStep {
    /// Create a directory and its parents.
    CreateDir(String),
    /// Write a file with the given contents.
    WriteFile(String, String),
    /// Run a program with arguments.
    Run(String, Vec<String>),
}

/// The view of an install step: 0 for a directory, 1 for a file, 2 for a
/// command, with the path or program, and the contents or arguments.
pub open spec fn step_view(s: InstallStep) -> (nat, Seq<char>, Seq<Seq<char>>) {
    match s {
        InstallStep::CreateDir(d) => (0, d@, seq![]),
        InstallStep::WriteFile(p, c) => (1, p@, seq![c@]),
        InstallStep::Run(p, a) => (2, p@, crate::path::views(a@)),
    }
}

/// The steps that install a task on `platform`, for its binary found at
/// `binary`: on macOS a launch agent, loaded with `launchctl`; on Linux a
/// systemd user service and timer in the configuration directory, enabled
/// and started; on Windows a Task Scheduler task; elsewhere nothing can be done.
pub open spec fn install_steps_spec(
    t: ScheduledTask,
    platform: Platform,
    home: Seq<char>,
    config_dir: Seq<char>,
    binary: Seq<char>,
) -> Option<Seq<(nat, Seq<char>, Seq<Seq<char>>)>> {
    let v = task_view(t);
    match platform {
        Platform::MacOs => {
            let dir = path_join(home, "Library/LaunchAgents"@);
            let plist = path_join(dir, t.label@ + ".plist"@);
            Some(
                seq![
                    (0, dir, seq![]),
                    (1, plist, seq![launchd_plist_spec(v, binary)]),
                    (2, "launchctl"@, seq!["load"@, plist]),
                ],
            )
        },
        Platform::Linux => {
            let service = t.label@ + ".service"@;
            let timer = t.label@ + ".timer"@;
            Some(
                seq![
                    (0, config_dir, seq![]),
                    (1, path_join(config_dir, service), seq![systemd_service_spec(v, binary)]),
                    (1, path_join(config_dir, timer), seq![systemd_timer_spec(t.interval)]),
                    (2, "systemctl"@, seq!["--user"@, "daemon-reload"@]),
                    (2, "systemctl"@, seq!["--user"@, "enable"@, timer]),
                    (2, "systemctl"@, seq!["--user"@, "start"@, timer]),
                ],
            )
        },
        Platform::Windows => Some(seq![(2, "schtasks"@, schtasks_args_spec(v, binary))]),
        Platform::Other => None,
    }
}

impl ScheduledTask {
    /// The steps that install the task (see [`install_steps_spec`]); an
    /// unsupported platform is an error.
    pub fn install(&self, platform: Platform, home: &str, config_dir: &str, binary_path: &str) -> (r: Result<
        Vec<InstallStep>,
        String,
    >)
        ensures
            match (r, install_steps_spec(*self, platform, home@, config_dir@, binary_path@)) {
                (Ok(steps), Some(s)) => steps@.map_values(|x: InstallStep| step_view(x)) == s,
                (Err(m), None) => m@ == "Unsupported platform"@,
                _ => false,
            },
    {
        match platform {
            Platform::MacOs => {
                let dir = join(home, "Library/LaunchAgents");
                let plist = self.launchd_plist_path(home);
                let load = vec![owned("load"), plist.clone()];
                proof {
                    assert(crate::path::views(load@) =~= seq!["load"@, plist@]);
                }
                let steps = vec![
                    InstallStep::CreateDir(dir),
                    InstallStep::WriteFile(plist, self.launchd_plist(binary_path)),
                    InstallStep::Run(owned("launchctl"), load),
                ];
                proof {
                    assert(steps@.map_values(|x: InstallStep| step_view(x)) =~= install_steps_spec(
                        *self,
                        platform,
                        home@,
                        config_dir@,
                        binary_path@,
                    )->0);
                }
                Ok(steps)
            },
            Platform::Linux => {
                let (service, timer) = self.systemd_unit_names();
                let reload = vec![owned("--user"), owned("daemon-reload")];
                let enable = vec![owned("--user"), owned("enable"), timer.clone()];
                let start = vec![owned("--user"), owned("start"), timer.clone()];
                proof {
                    assert(crate::path::views(reload@) =~= seq!["--user"@, "daemon-reload"@]);
                    assert(crate::path::views(enable@) =~= seq!["--user"@, "enable"@, timer@]);
                    assert(crate::path::views(start@) =~= seq!["--user"@, "start"@, timer@]);
                }
                let steps = vec![
                    InstallStep::CreateDir(owned(config_dir)),
                    InstallStep::WriteFile(join(config_dir, service.as_str()), self.systemd_service(binary_path)),
                    InstallStep::WriteFile(join(config_dir, timer.as_str()), self.systemd_timer()),
                    InstallStep::Run(owned("systemctl"), reload),
                    InstallStep::Run(owned("systemctl"), enable),
                    InstallStep::Run(owned("systemctl"), start),
                ];
                proof {
                    assert(steps@.map_values(|x: InstallStep| step_view(x)) =~= install_steps_spec(
                        *self,
                        platform,
                        home@,
                        config_dir@,
                        binary_path@,
                    )->0);
                }
                Ok(steps)
            },
            Platform::Windows => {
                let steps = vec![InstallStep::Run(owned("schtasks"), self.schtasks_args(binary_path))];
                proof {
                    assert(steps@.map_values(|x: InstallStep| step_view(x)) =~= install_steps_spec(
                        *self,
                        platform,
                        home@,
                        config_dir@,
                        binary_path@,
                    )->0);
                }
                Ok(steps)
            },
            Platform::Other => Err(owned("Unsupported platform")),
        }
    }
}

/// The tasks to install (see [`scheduled_tasks_spec`]).
pub fn plan_scheduled_tasks(with_clean: bool, has_topgrade: bool) -> (r: Vec<ScheduledTask>)
    ensures
        r@.map_values(|t: ScheduledTask| task_view(t)) == scheduled_tasks_spec(with_clean, has_topgrade),
{
    let mut r: Vec<ScheduledTask> = Vec::new();
    r.push(ScheduledTask::backup_hourly());
    if has_topgrade {
        r.push(ScheduledTask::topgrade_daily());
    }
    if with_clean {
        r.push(ScheduledTask::clean_daily());
    }
    proof {
        assert(r@.map_values(|t: ScheduledTask| task_view(t)) =~= scheduled_tasks_spec(with_clean, has_topgrade));
    }
    r
}

/// The command of the daily update run.
pub const TOPGRADE_COMMAND: &'static str = "topgrade";

/// The tasks to install for the command-line arguments, looking up
/// [`TOPGRADE_COMMAND`] on the search path; the list is that of
/// [`scheduled_tasks_spec`] for what was found.
pub fn run(args: InstallArgs) -> (r: Vec<ScheduledTask>)
    ensures
        exists|lookup: CommandLookup|
            lookup.command@ == TOPGRADE_COMMAND@ && r@.map_values(|t: ScheduledTask| task_view(t))
                == #[trigger] scheduled_tasks_spec(args.with_clean, lookup.found),
{
    let lookup = command_available(TOPGRADE_COMMAND);
    plan_scheduled_tasks(args.with_clean, lookup.found)
}

} // verus!
