use vstd::prelude::*;

verus! {

/// One account of a worker snapshot, as far as the presentation reads it.
#[derive(Clone, Copy, Debug, PartialEq, Eq, Structural)]
pub struct Account {
    /// `isRateLimited`, false when absent or not a boolean.
    pub is_rate_limited: bool,
    /// `nextAvailableAt` in epoch milliseconds, when present and an integer.
    pub next_available_at: Option<i64>,
}

/// The last payload the worker reported: the fields the presentation reads,
/// and the payload itself as JSON text, passed through unexamined.
#[derive(Clone, Debug)]
pub struct Snapshot {
    pub port: Option<i64>,
    pub current_account: Option<String>,
    pub accounts: Vec<Account>,
    pub json: String,
}

pub struct SnapshotView {
    pub port: Option<i64>,
    pub current_account: Option<Seq<char>>,
    pub accounts: Seq<Account>,
    pub json: Seq<char>,
}

pub open spec fn opt_str_view(s: Option<String>) -> Option<Seq<char>> {
    match s {
        Some(t) => Some(t@),
        None => None,
    }
}

impl View for Snapshot {
    type V = SnapshotView;

    open spec fn view(&self) -> SnapshotView {
        SnapshotView {
            port: self.port,
            current_account: opt_str_view(self.current_account),
            accounts: self.accounts@,
            json: self.json@,
        }
    }
}

pub open spec fn opt_snapshot_view(s: Option<Snapshot>) -> Option<SnapshotView> {
    match s {
        Some(t) => Some(t@),
        None => None,
    }
}

/// The aggregated status of the supervised worker.
#[derive(Clone, Debug)]
pub struct Status {
    pub running: bool,
    pub last_error: Option<String>,
    /// RFC 3339 time of the last change.
    pub last_update: Option<String>,
    pub snapshot: Option<Snapshot>,
}

pub struct StatusView {
    pub running: bool,
    pub last_error: Option<Seq<char>>,
    pub last_update: Option<Seq<char>>,
    pub snapshot: Option<SnapshotView>,
}

impl View for Status {
    type V = StatusView;

    open spec fn view(&self) -> StatusView {
        StatusView {
            running: self.running,
            last_error: opt_str_view(self.last_error),
            last_update: opt_str_view(self.last_update),
            snapshot: opt_snapshot_view(self.snapshot),
        }
    }
}

/// The diagnostic recorded when the worker exits without being asked to.
pub open spec fn exit_diagnostic_spec() -> Seq<char> {
    "Proxy process exited"@
}

/// The phase name by which the worker reports that it has stopped.
pub open spec fn stopped_phase() -> Seq<char> {
    "stopped"@
}

/// The status after a "status" event: running unless the phase is "stopped",
/// no error, and the snapshot replaced whole when the event carries one.
pub open spec fn after_status_event(
    v: StatusView,
    phase: Option<Seq<char>>,
    snapshot: Option<SnapshotView>,
    now: Seq<char>,
) -> StatusView {
    StatusView {
        running: phase != Some(stopped_phase()),
        last_error: None,
        last_update: Some(now),
        snapshot: if snapshot.is_some() {
            snapshot
        } else {
            v.snapshot
        },
    }
}

/// The status after an "error" event: the error is recorded, running is kept.
pub open spec fn after_error_event(v: StatusView, message: Option<Seq<char>>, now: Seq<char>) -> StatusView {
    StatusView { last_error: message, last_update: Some(now), ..v }
}

/// The status after the worker is known to have stopped.
pub open spec fn after_stop(v: StatusView, reason: Option<Seq<char>>, now: Seq<char>) -> StatusView {
    StatusView { running: false, last_error: reason, last_update: Some(now), ..v }
}

/// The status after a successful spawn of the worker.
pub open spec fn after_start(v: StatusView, now: Seq<char>) -> StatusView {
    StatusView { running: true, last_error: None, last_update: Some(now), ..v }
}

/// The text of the exit diagnostic.
pub fn exit_diagnostic() -> (r: String)
    ensures
        r@ == exit_diagnostic_spec(),
{
    String::from_str("Proxy process exited")
}

impl Status {
    /// The status before any worker has run: not running, nothing recorded.
    pub fn new() -> (r: Status)
        ensures
            r@ == (StatusView { running: false, last_error: None, last_update: None, snapshot: None }),
    {
        Status { running: false, last_error: None, last_update: None, snapshot: None }
    }

    pub fn apply_status_event(&mut self, phase: Option<String>, snapshot: Option<Snapshot>, now: String)
        ensures
            final(self)@ == after_status_event(
                old(self)@,
                opt_str_view(phase),
                opt_snapshot_view(snapshot),
                now@,
            ),
    {
        if snapshot.is_some() {
            self.snapshot = snapshot;
        }
        let stopped = String::from_str("stopped");
        let running = match &phase {
            Some(p) => !(*p == stopped),
            None => true,
        };
        self.running = running;
        self.last_error = None;
        self.last_update = Some(now);
    }

    pub fn apply_error_event(&mut self, message: Option<String>, now: String)
        ensures
            final(self)@ == after_error_event(old(self)@, opt_str_view(message), now@),
    {
        self.last_error = message;
        self.last_update = Some(now);
    }

    /// Records that the worker is no longer running, with the reason if any.
    pub fn mark_stopped(&mut self, reason: Option<String>, now: String)
        ensures
            final(self)@ == after_stop(old(self)@, opt_str_view(reason), now@),
            !final(self).running,
    {
        self.running = false;
        self.last_error = reason;
        self.last_update = Some(now);
    }

    /// Records that the worker was spawned.
    pub fn mark_started(&mut self, now: String)
        ensures
            final(self)@ == after_start(old(self)@, now@),
    {
        self.running = true;
        self.last_error = None;
        self.last_update = Some(now);
    }
}

} // verus!
