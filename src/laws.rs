use vstd::prelude::*;

use crate::event::{after_event, WorkerEventView};
use crate::presentation::{tooltip_of, visual_of};
use crate::status::{after_start, after_stop, exit_diagnostic_spec, stopped_phase, StatusView};

verus! {

/// One change of the status store: a worker event, a spawn, or a stop.
pub enum Update {
    Event(WorkerEventView),
    Started,
    Stopped(Option<Seq<char>>),
}

pub open spec fn after_update(v: StatusView, u: Update, now: Seq<char>) -> StatusView {
    match u {
        Update::Event(e) => after_event(v, e, now),
        Update::Started => after_start(v, now),
        Update::Stopped(reason) => after_stop(v, reason, now),
    }
}

/// The status after a sequence of changes, each with its time, in the order applied.
pub open spec fn after_updates(v: StatusView, us: Seq<(Update, Seq<char>)>) -> StatusView
    decreases us.len(),
{
    if us.len() == 0 {
        v
    } else {
        after_update(after_updates(v, us.drop_last()), us.last().0, us.last().1)
    }
}

/// Whether a change decides the running flag, and to what.
pub open spec fn running_set_by(u: Update) -> Option<bool> {
    match u {
        Update::Event(WorkerEventView::Status { phase, .. }) => Some(phase != Some(stopped_phase())),
        Update::Event(_) => None,
        Update::Started => Some(true),
        Update::Stopped(_) => Some(false),
    }
}

/// The running flag that the last deciding change of the sequence sets, or
/// `init` when none decides it.
pub open spec fn last_running(init: bool, us: Seq<(Update, Seq<char>)>) -> bool
    decreases us.len(),
{
    if us.len() == 0 {
        init
    } else {
        match running_set_by(us.last().0) {
            Some(b) => b,
            None => last_running(init, us.drop_last()),
        }
    }
}

/// After any sequence of changes, the running flag is the one set by the last
/// "status" event, spawn or stop among them; error events and records of other
/// kinds leave it as it was.
pub proof fn running_follows_last_decisive_change(v: StatusView, us: Seq<(Update, Seq<char>)>)
    ensures
        after_updates(v, us).running == last_running(v.running, us),
    decreases us.len(),
{
    if us.len() > 0 {
        running_follows_last_decisive_change(v, us.drop_last());
    }
}

/// Whether a change is a "status" event or a spawn, the only changes that set
/// the running flag.
pub open spec fn sets_running(u: Update) -> bool {
    match u {
        Update::Event(WorkerEventView::Status { .. }) => true,
        Update::Started => true,
        _ => false,
    }
}

/// After a stop the worker reads as not running, and keeps reading so through
/// any later changes until a "status" event (or a new spawn) comes.
pub proof fn stopped_until_status_event(
    v: StatusView,
    reason: Option<Seq<char>>,
    now: Seq<char>,
    later: Seq<(Update, Seq<char>)>,
)
    requires
        forall|i: int| 0 <= i < later.len() ==> !sets_running(#[trigger] later[i].0),
    ensures
        !after_stop(v, reason, now).running,
        !after_updates(after_stop(v, reason, now), later).running,
    decreases later.len(),
{
    if later.len() > 0 {
        let rest = later.drop_last();
        assert forall|i: int| 0 <= i < rest.len() implies !sets_running(#[trigger] rest[i].0) by {
            assert(rest[i] == later[i]);
        }
        stopped_until_status_event(v, reason, now, rest);
        assert(!sets_running(later[later.len() - 1].0));
    }
}

/// The indicator's look and tooltip depend on the status (and, for a rate
/// limit's countdown, the time) alone: equal statuses give equal presentations.
pub proof fn presentation_is_a_function_of_status(a: StatusView, b: StatusView, now: int)
    requires
        a == b,
    ensures
        visual_of(a) == visual_of(b),
        tooltip_of(a, now) == tooltip_of(b, now),
{
}

/// When the watchdog finds that the worker exited, the status it records reads
/// as not running, with the exit diagnostic as its error, whatever it was before.
pub proof fn exit_is_recorded(v: StatusView, now: Seq<char>)
    ensures
        !after_stop(v, Some(exit_diagnostic_spec()), now).running,
        after_stop(v, Some(exit_diagnostic_spec()), now).last_error == Some(exit_diagnostic_spec()),
{
}

} // verus!
