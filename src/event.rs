use vstd::prelude::*;

use crate::json::{json_parses, json_text, member, parse_json};
use crate::status::{
    after_error_event, after_status_event, opt_snapshot_view, opt_str_view, Account, Snapshot,
    SnapshotView, Status, StatusView,
};

verus! {

/// One record of the worker's line protocol.
#[derive(Debug)]
pub enum WorkerEvent {
    Status { phase: Option<String>, snapshot: Option<Snapshot> },
    Error { message: Option<String>, reason: Option<String> },
    /// A well-formed record of a kind the supervisor does not act on.
    Other,
}

pub enum WorkerEventView {
    Status { phase: Option<Seq<char>>, snapshot: Option<SnapshotView> },
    Error { message: Option<Seq<char>>, reason: Option<Seq<char>> },
    Other,
}

impl View for WorkerEvent {
    type V = WorkerEventView;

    open spec fn view(&self) -> WorkerEventView {
        match self {
            WorkerEvent::Status { phase, snapshot } => WorkerEventView::Status {
                phase: opt_str_view(*phase),
                snapshot: opt_snapshot_view(*snapshot),
            },
            WorkerEvent::Error { message, reason } => WorkerEventView::Error {
                message: opt_str_view(*message),
                reason: opt_str_view(*reason),
            },
            WorkerEvent::Other => WorkerEventView::Other,
        }
    }
}

/// The message an error event records: its message, else its reason.
pub open spec fn error_text(message: Option<Seq<char>>, reason: Option<Seq<char>>) -> Option<Seq<char>> {
    if message.is_some() {
        message
    } else {
        reason
    }
}

/// The status after one event of the worker.
pub open spec fn after_event(v: StatusView, e: WorkerEventView, now: Seq<char>) -> StatusView {
    match e {
        WorkerEventView::Status { phase, snapshot } => after_status_event(v, phase, snapshot, now),
        WorkerEventView::Error { message, reason } => after_error_event(v, error_text(message, reason), now),
        WorkerEventView::Other => v,
    }
}

/// The output stream of the worker that a line came from.
#[derive(Clone, Copy, Debug, PartialEq, Eq, Structural)]
pub enum Stream {
    Stdout,
    Stderr,
}

/// The severity tag of a log record.
#[derive(Clone, Copy, Debug, PartialEq, Eq, Structural)]
pub enum LogLevel {
    Stdout,
    Stderr,
    Error,
}

pub open spec fn level_label(l: LogLevel) -> Seq<char> {
    match l {
        LogLevel::Stdout => "STDOUT"@,
        LogLevel::Stderr => "STDERR"@,
        LogLevel::Error => "ERROR"@,
    }
}

pub open spec fn log_record(timestamp: Seq<char>, level: LogLevel, line: Seq<char>) -> Seq<char> {
    "["@ + timestamp + "] ["@ + level_label(level) + "] "@ + line + "\n"@
}

/// The tag under which lines of a stream are logged.
pub open spec fn stream_level(s: Stream) -> LogLevel {
    match s {
        Stream::Stdout => LogLevel::Stdout,
        Stream::Stderr => LogLevel::Stderr,
    }
}

impl Stream {
    /// The tag under which lines of this stream are logged.
    pub fn level(&self) -> (r: LogLevel)
        ensures
            r == stream_level(*self),
    {
        match self {
            Stream::Stdout => LogLevel::Stdout,
            Stream::Stderr => LogLevel::Stderr,
        }
    }
}

impl LogLevel {
    pub fn label(&self) -> (r: &'static str)
        ensures
            r@ == level_label(*self),
    {
        match self {
            LogLevel::Stdout => "STDOUT",
            LogLevel::Stderr => "STDERR",
            LogLevel::Error => "ERROR",
        }
    }
}

/// One record of the append-only log: `[timestamp] [LEVEL] line`, ended by a newline.
pub fn log_entry(timestamp: &str, level: LogLevel, line: &str) -> (r: String)
    ensures
        r@ == log_record(timestamp@, level, line@),
{
    let mut s = String::from_str("[");
    s.append(timestamp);
    s.append("] [");
    s.append(level.label());
    s.append("] ");
    s.append(line);
    s.append("\n");
    s
}

/// A member that must be a string or null when present; `Err` for any other value.
fn optional_text(v: &serde_json::Value, key: &str) -> (r: Result<Option<String>, ()>) {
    match member(v, key) {
        None => Ok(None),
        Some(x) => {
            if x.is_null() {
                Ok(None)
            } else {
                match x.as_str() {
                    Some(s) => Ok(Some(String::from_str(s))),
                    None => Err(()),
                }
            }
        },
    }
}

fn text_member(v: &serde_json::Value, key: &str) -> (r: Option<String>) {
    match member(v, key) {
        Some(x) => match x.as_str() {
            Some(s) => Some(String::from_str(s)),
            None => None,
        },
        None => None,
    }
}

fn int_member(v: &serde_json::Value, key: &str) -> (r: Option<i64>) {
    match member(v, key) {
        Some(x) => x.as_i64(),
        None => None,
    }
}

fn account_from_json(v: &serde_json::Value) -> (r: Account) {
    let is_rate_limited = match member(v, "isRateLimited") {
        Some(x) => match x.as_bool() {
            Some(b) => b,
            None => false,
        },
        None => false,
    };
    Account { is_rate_limited, next_available_at: int_member(v, "nextAvailableAt") }
}

/// Reads the fields the presentation needs out of a worker payload, and keeps
/// the payload itself as JSON text.
fn snapshot_from_json(v: &serde_json::Value) -> (r: Snapshot) {
    let mut accounts: Vec<Account> = Vec::new();
    match member(v, "accounts") {
        Some(a) => match a.as_array() {
            Some(items) => {
                let mut i: usize = 0;
                while i < items.len()
                    invariant
                        i <= items@.len(),
                    decreases items@.len() - i,
                {
                    accounts.push(account_from_json(&items[i]));
                    i = i + 1;
                }
            },
            None => {},
        },
        None => {},
    }
    Snapshot {
        port: int_member(v, "port"),
        current_account: text_member(v, "currentAccount"),
        accounts,
        json: json_text(v),
    }
}

/// Reads a worker record: an object whose `event` is a string, whose `phase`,
/// `message` and `reason` are strings or null when present. `None` for any
/// other shape.
fn event_from_json(v: &serde_json::Value) -> (r: Option<WorkerEvent>) {
    let kind = match text_member(v, "event") {
        Some(k) => k,
        None => {
            return None;
        },
    };
    let phase = match optional_text(v, "phase") {
        Ok(p) => p,
        Err(()) => {
            return None;
        },
    };
    let message = match optional_text(v, "message") {
        Ok(m) => m,
        Err(()) => {
            return None;
        },
    };
    let reason = match optional_text(v, "reason") {
        Ok(m) => m,
        Err(()) => {
            return None;
        },
    };
    let snapshot = match member(v, "snapshot") {
        Some(s) => {
            if s.is_null() {
                None
            } else {
                Some(snapshot_from_json(s))
            }
        },
        None => None,
    };
    if kind == String::from_str("status") {
        Some(WorkerEvent::Status { phase, snapshot })
    } else if kind == String::from_str("error") {
        Some(WorkerEvent::Error { message, reason })
    } else {
        Some(WorkerEvent::Other)
    }
}

/// Decodes one line of the worker. A line of the primary stream is a JSON
/// record, or nothing when it does not parse; a line of the secondary stream
/// is always an error whose message is the line itself.
pub fn decode_line(stream: Stream, line: &str) -> (r: Option<WorkerEvent>)
    ensures
        stream == Stream::Stderr ==> r.is_some() && r.unwrap()@ == (WorkerEventView::Error {
            message: Some(line@),
            reason: None,
        }),
        stream == Stream::Stdout && !json_parses(line@) ==> r.is_none(),
{
    match stream {
        Stream::Stderr => Some(WorkerEvent::Error { message: Some(String::from_str(line)), reason: None }),
        Stream::Stdout => match parse_json(line) {
            Some(v) => event_from_json(&v),
            None => None,
        },
    }
}

impl Status {
    /// Folds one worker event into the status.
    pub fn apply_event(&mut self, event: WorkerEvent, now: String)
        ensures
            final(self)@ == after_event(old(self)@, event@, now@),
    {
        match event {
            WorkerEvent::Status { phase, snapshot } => self.apply_status_event(phase, snapshot, now),
            WorkerEvent::Error { message, reason } => {
                let text = match message {
                    Some(m) => Some(m),
                    None => reason,
                };
                self.apply_error_event(text, now);
            },
            WorkerEvent::Other => {},
        }
    }

    /// Folds one line of the worker into the status. Returns whether the line
    /// decoded to an event; a line that did not leaves the status as it was.
    pub fn ingest_line(&mut self, stream: Stream, line: &str, now: String) -> (touched: bool)
        ensures
            !touched ==> final(self)@ == old(self)@,
            touched ==> exists|e: WorkerEventView| final(self)@ == after_event(old(self)@, e, now@),
            stream == Stream::Stderr ==> touched && final(self)@ == after_error_event(
                old(self)@,
                Some(line@),
                now@,
            ),
            stream == Stream::Stdout && !json_parses(line@) ==> !touched && final(self)@ == old(
                self,
            )@,
    {
        match decode_line(stream, line) {
            Some(event) => {
                let ghost e = event@;
                self.apply_event(event, now);
                true
            },
            None => false,
        }
    }
}

} // verus!
