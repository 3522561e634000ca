use vstd::prelude::*;

use crate::clock::{now_millis, now_rfc3339};
use crate::event::{
    after_event, log_entry, log_record, stream_level, LogLevel, Stream, WorkerEventView,
};
use crate::json::json_parses;
use crate::paths::{join_path, path_exists, path_joined};
use crate::presentation::{
    derive_presentation, shown_port, tooltip_of, visual_of, Presentation, DEFAULT_PORT,
};
use crate::status::{
    after_error_event, after_start, after_stop, exit_diagnostic, exit_diagnostic_spec,
    opt_str_view, Status, StatusView,
};
use crate::text::{i64_to_decimal, signed_decimal};

verus! {

/// The worker script, relative to the repository root.
pub open spec fn daemon_script() -> Seq<char> {
    "desktop/proxy-daemon.js"@
}

/// What `start` does next.
#[derive(Debug)]
pub enum StartPlan {
    /// A worker is already held: report the status, spawn nothing.
    AlreadyRunning,
    /// Spawn the worker script at this path.
    Launch { script: String },
    /// The worker script is missing.
    Fail { error: String },
}

/// How to spawn the worker.
#[derive(Debug)]
pub struct LaunchCommand {
    pub program: String,
    pub args: Vec<String>,
    pub cwd: String,
    pub env: Vec<(String, String)>,
}

/// The result of a non-blocking liveness check of the held child.
#[derive(Debug)]
pub enum PollOutcome {
    Exited,
    Alive,
    Failed { error: String },
}

/// What the watchdog does after one check.
#[derive(Debug)]
pub enum WatchdogStep {
    /// The handle slot was empty: the supervisor stopped the worker; stop polling.
    Finish,
    /// The child exited by itself: the slot has been cleared; record the exit and stop polling.
    ChildExited,
    /// The child is alive: wait for the next interval.
    Wait,
    /// The check failed: log this line and wait for the next interval.
    Report { line: String },
}

/// Seconds between two checks of the watchdog.
pub const WATCHDOG_INTERVAL_SECS: u64 = 3;

/// Decides how `start` proceeds: nothing when a worker is held, otherwise the
/// worker script under `repo_root` when it exists, or an error naming it.
pub fn plan_start<H>(slot: &Option<H>, repo_root: &str) -> (r: StartPlan)
    ensures
        slot.is_some() <==> r is AlreadyRunning,
        slot.is_none() ==> match r {
            StartPlan::Launch { script } => script@ == path_joined(repo_root@, daemon_script()),
            StartPlan::Fail { error } => error@ == "Desktop bridge missing: "@ + path_joined(
                repo_root@,
                daemon_script(),
            ),
            StartPlan::AlreadyRunning => false,
        },
{
    if slot.is_some() {
        return StartPlan::AlreadyRunning;
    }
    let script = join_path(repo_root, "desktop/proxy-daemon.js");
    if path_exists(script.as_str()) {
        StartPlan::Launch { script }
    } else {
        let mut error = String::from_str("Desktop bridge missing: ");
        error.append(script.as_str());
        StartPlan::Fail { error }
    }
}

/// The command that spawns the worker: the interpreter on the script, in the
/// repository root, with the worker bound to the loopback address.
pub fn launch_command(node_bin: String, script: String, repo_root: &str) -> (r: LaunchCommand)
    ensures
        r.program@ == node_bin@,
        r.args@.len() == 1,
        r.args@[0]@ == script@,
        r.cwd@ == repo_root@,
        r.env@.len() == 1,
        r.env@[0].0@ == "ANTIGRAVITY_HOST"@,
        r.env@[0].1@ == "127.0.0.1"@,
{
    let mut args: Vec<String> = Vec::new();
    args.push(script);
    let mut env: Vec<(String, String)> = Vec::new();
    env.push((String::from_str("ANTIGRAVITY_HOST"), String::from_str("127.0.0.1")));
    LaunchCommand { program: node_bin, args, cwd: String::from_str(repo_root), env }
}

/// Stores a newly spawned child in the empty handle slot.
pub fn install_child<H>(slot: &mut Option<H>, child: H)
    requires
        old(slot).is_none(),
    ensures
        *final(slot) == Some(child),
{
    *slot = Some(child);
}

/// Takes the held child out of the slot for `stop`; `None` when no worker is
/// held, in which case `stop` only reports the status.
pub fn take_child<H>(slot: &mut Option<H>) -> (r: Option<H>)
    ensures
        r == *old(slot),
        final(slot).is_none(),
{
    slot.take()
}

pub open spec fn watchdog_line(error: Seq<char>) -> Seq<char> {
    "watchdog: "@ + error
}

/// One check of the watchdog over the handle slot, given the outcome of the
/// liveness check of the child it holds (`None` when it holds none).
pub fn watchdog_check<H>(slot: &mut Option<H>, poll: Option<PollOutcome>) -> (r: WatchdogStep)
    ensures
        old(slot).is_none() ==> r is Finish && final(slot).is_none(),
        old(slot).is_some() ==> match poll {
            Some(PollOutcome::Exited) => r is ChildExited && final(slot).is_none(),
            Some(PollOutcome::Failed { error }) => *final(slot) == *old(slot) && match r {
                WatchdogStep::Report { line } => line@ == watchdog_line(error@),
                _ => false,
            },
            _ => r is Wait && *final(slot) == *old(slot),
        },
{
    if slot.is_none() {
        return WatchdogStep::Finish;
    }
    match poll {
        Some(PollOutcome::Exited) => {
            *slot = None;
            WatchdogStep::ChildExited
        },
        Some(PollOutcome::Failed { error }) => {
            let mut line = String::from_str("watchdog: ");
            line.append(error.as_str());
            WatchdogStep::Report { line }
        },
        _ => WatchdogStep::Wait,
    }
}

/// Locates a helper script under the repository root: its path, or an error
/// naming the path when nothing is there.
pub fn locate_script(repo_root: &str, relative: &str) -> (r: Result<String, String>)
    ensures
        match r {
            Ok(p) => p@ == path_joined(repo_root@, relative@),
            Err(e) => e@ == "Script not found: "@ + path_joined(repo_root@, relative@),
        },
{
    let path = join_path(repo_root, relative);
    if path_exists(path.as_str()) {
        Ok(path)
    } else {
        let mut e = String::from_str("Script not found: ");
        e.append(path.as_str());
        Err(e)
    }
}

pub open spec fn dashboard_port(v: StatusView) -> int {
    match v.snapshot {
        Some(s) => shown_port(s),
        None => DEFAULT_PORT as int,
    }
}

/// The address of the worker's dashboard, on the port of the last snapshot.
pub fn dashboard_url(status: &Status) -> (r: String)
    ensures
        r@ == "http://localhost:"@ + signed_decimal(dashboard_port(status@)) + "/dashboard"@,
{
    let port = match &status.snapshot {
        Some(s) => match s.port {
            Some(p) => p,
            None => DEFAULT_PORT,
        },
        None => DEFAULT_PORT,
    };
    let mut url = String::from_str("http://localhost:");
    let digits = i64_to_decimal(port);
    url.append(digits.as_str());
    url.append("/dashboard");
    url
}

/// A line of the worker, once taken in: its log record and whether it changed the status.
#[derive(Debug)]
pub struct LineRecord {
    pub log: String,
    pub touched: bool,
}

/// A log record stamped with the current time.
pub fn log_now(level: LogLevel, line: &str) -> (r: String)
    ensures
        exists|t: Seq<char>| r@ == log_record(t, level, line@),
{
    let timestamp = now_rfc3339();
    log_entry(timestamp.as_str(), level, line)
}

impl Status {
    /// Takes in one line of the worker at the current time: the record to
    /// log, always, and the status folded as `ingest_line` does.
    pub fn record_line(&mut self, stream: Stream, line: &str) -> (r: LineRecord)
        ensures
            exists|t: Seq<char>|
                {
                    &&& r.log@ == log_record(t, stream_level(stream), line@)
                    &&& (!r.touched ==> final(self)@ == old(self)@)
                    &&& (r.touched ==> exists|e: WorkerEventView|
                        final(self)@ == after_event(old(self)@, e, t))
                    &&& (stream == Stream::Stderr ==> r.touched && final(self)@
                        == after_error_event(old(self)@, Some(line@), t))
                    &&& (stream == Stream::Stdout && !json_parses(line@) ==> !r.touched
                        && final(self)@ == old(self)@)
                },
    {
        let timestamp = now_rfc3339();
        let log = log_entry(timestamp.as_str(), stream.level(), line);
        let ghost t = timestamp@;
        let touched = self.ingest_line(stream, line, timestamp);
        LineRecord { log, touched }
    }

    /// Records at the current time that the worker was spawned.
    pub fn mark_started_now(&mut self)
        ensures
            exists|t: Seq<char>| final(self)@ == after_start(old(self)@, t),
    {
        self.mark_started(now_rfc3339());
    }

    /// Records at the current time that the worker stopped, with the reason if any.
    pub fn mark_stopped_now(&mut self, reason: Option<String>)
        ensures
            exists|t: Seq<char>| final(self)@ == after_stop(old(self)@, opt_str_view(reason), t),
    {
        self.mark_stopped(reason, now_rfc3339());
    }

    /// Records at the current time that the worker exited without being asked to.
    pub fn mark_exited(&mut self)
        ensures
            exists|t: Seq<char>| final(self)@ == after_stop(old(self)@, Some(exit_diagnostic_spec()), t),
    {
        self.mark_stopped(Some(exit_diagnostic()), now_rfc3339());
    }

    /// The indicator's look and tooltip at the current time.
    pub fn presentation_now(&self) -> (r: Presentation)
        ensures
            r.visual == visual_of(self@),
            exists|now: i64| r.tooltip@ == tooltip_of(self@, now as int),
    {
        derive_presentation(self, now_millis())
    }
}

} // verus!
