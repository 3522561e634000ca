use vstd::prelude::*;

use crate::status::{Account, Snapshot, SnapshotView, Status, StatusView};
use crate::text::{decimal, i64_to_decimal, signed_decimal, u64_to_decimal};

verus! {

/// The look of the ambient indicator.
#[derive(Clone, Copy, Debug, PartialEq, Eq, Structural)]
pub enum Visual {
    Running,
    Warning,
    Stopped,
}

/// What the indicator shows for a status.
#[derive(Debug)]
pub struct Presentation {
    pub visual: Visual,
    pub tooltip: String,
}

/// The port shown when the snapshot names none.
pub const DEFAULT_PORT: i64 = 8080;

/// Width and height of the indicator icon, in pixels.
pub const ICON_SIZE: u32 = 24;

pub open spec fn any_rate_limited(snapshot: Option<SnapshotView>) -> bool {
    match snapshot {
        Some(s) => exists|i: int| 0 <= i < s.accounts.len() && #[trigger] s.accounts[i].is_rate_limited,
        None => false,
    }
}

pub open spec fn visual_of(v: StatusView) -> Visual {
    if v.running {
        if any_rate_limited(v.snapshot) {
            Visual::Warning
        } else {
            Visual::Running
        }
    } else if v.last_error.is_some() {
        Visual::Warning
    } else {
        Visual::Stopped
    }
}

/// How long until an account is available again, when that lies in the future.
pub open spec fn positive_wait(a: Account, now: int) -> Option<int> {
    match a.next_available_at {
        Some(t) => if t - now > 0 {
            Some(t - now)
        } else {
            None
        },
        None => None,
    }
}

pub open spec fn min_wait(a: Option<int>, b: Option<int>) -> Option<int> {
    match a {
        Some(x) => match b {
            Some(y) => Some(if x <= y { x } else { y }),
            None => Some(x),
        },
        None => b,
    }
}

/// The least positive wait over the accounts, if any account has one.
pub open spec fn shortest_wait(accounts: Seq<Account>, now: int) -> Option<int>
    decreases accounts.len(),
{
    if accounts.len() == 0 {
        None
    } else {
        min_wait(shortest_wait(accounts.drop_last(), now), positive_wait(accounts.last(), now))
    }
}

/// `{m}m {s}s` from a minute on, `{s}s` below, whole seconds only.
pub open spec fn duration_text(ms: nat) -> Seq<char> {
    let secs = ms / 1000;
    let minutes = secs / 60;
    let seconds = secs % 60;
    if minutes > 0 {
        decimal(minutes) + "m "@ + decimal(seconds) + "s"@
    } else {
        decimal(seconds) + "s"@
    }
}

pub open spec fn shown_port(s: SnapshotView) -> int {
    match s.port {
        Some(p) => p as int,
        None => DEFAULT_PORT as int,
    }
}

pub open spec fn shown_account(s: SnapshotView) -> Seq<char> {
    match s.current_account {
        Some(a) => a,
        None => "unknown"@,
    }
}

pub open spec fn stopped_tooltip(snapshot: Option<SnapshotView>, now: int) -> Seq<char> {
    match snapshot {
        Some(s) => match shortest_wait(s.accounts, now) {
            Some(d) => "Rate limited · next slot in "@ + duration_text(d as nat),
            None => "Proxy stopped"@,
        },
        None => "Proxy stopped"@,
    }
}

pub open spec fn tooltip_of(v: StatusView, now: int) -> Seq<char> {
    if v.running {
        match v.snapshot {
            Some(s) => "Proxy running on :"@ + signed_decimal(shown_port(s)) + " · "@ + shown_account(s),
            None => "Proxy running"@,
        }
    } else {
        match v.last_error {
            Some(e) => e,
            None => stopped_tooltip(v.snapshot, now),
        }
    }
}

pub open spec fn color_of(visual: Visual) -> Seq<u8> {
    match visual {
        Visual::Running => seq![16u8, 185u8, 129u8],
        Visual::Warning => seq![251u8, 191u8, 36u8],
        Visual::Stopped => seq![239u8, 68u8, 68u8],
    }
}

/// Byte `i` of an icon filled with one opaque colour, in RGBA order.
pub open spec fn icon_byte(color: Seq<u8>, i: int) -> u8 {
    if i % 4 == 3 {
        255u8
    } else {
        color[i % 4]
    }
}

/// Formats a wait in milliseconds as minutes and seconds.
pub fn format_duration(ms: u64) -> (r: String)
    ensures
        r@ == duration_text(ms as nat),
{
    let secs = ms / 1000;
    let minutes = secs / 60;
    let seconds = secs % 60;
    if minutes > 0 {
        let mut s = u64_to_decimal(minutes);
        s.append("m ");
        let digits = u64_to_decimal(seconds);
        s.append(digits.as_str());
        s.append("s");
        s
    } else {
        let mut s = u64_to_decimal(seconds);
        s.append("s");
        s
    }
}

pub open spec fn opt_wait_view(w: Option<u64>) -> Option<int> {
    match w {
        Some(x) => Some(x as int),
        None => None,
    }
}

/// The least positive `nextAvailableAt - now` over the snapshot's accounts.
pub fn shortest_wait_ms(snapshot: &Snapshot, now_ms: i64) -> (r: Option<u64>)
    ensures
        opt_wait_view(r) == shortest_wait(snapshot.accounts@, now_ms as int),
{
    let accounts = &snapshot.accounts;
    let mut best: Option<u64> = None;
    let mut i: usize = 0;
    while i < accounts.len()
        invariant
            i <= accounts@.len(),
            opt_wait_view(best) == shortest_wait(accounts@.take(i as int), now_ms as int),
        decreases accounts@.len() - i,
    {
        let a = accounts[i];
        let cand: Option<u64> = match a.next_available_at {
            Some(t) => {
                let delta: i128 = t as i128 - now_ms as i128;
                if delta > 0 {
                    Some(delta as u64)
                } else {
                    None
                }
            },
            None => None,
        };
        best = match best {
            Some(x) => match cand {
                Some(y) => Some(if x <= y { x } else { y }),
                None => Some(x),
            },
            None => cand,
        };
        proof {
            let s = accounts@.take(i as int + 1);
            assert(s.drop_last() =~= accounts@.take(i as int));
            assert(s.last() == a);
        }
        i = i + 1;
    }
    proof {
        assert(accounts@.take(accounts@.len() as int) =~= accounts@);
    }
    best
}

fn any_account_rate_limited(accounts: &Vec<Account>) -> (r: bool)
    ensures
        r == exists|i: int| 0 <= i < accounts@.len() && #[trigger] accounts@[i].is_rate_limited,
{
    let mut i: usize = 0;
    while i < accounts.len()
        invariant
            i <= accounts@.len(),
            forall|j: int| 0 <= j < i ==> !(#[trigger] accounts@[j]).is_rate_limited,
        decreases accounts@.len() - i,
    {
        if accounts[i].is_rate_limited {
            return true;
        }
        i = i + 1;
    }
    false
}

/// The indicator's look for a status.
pub fn visual_for(status: &Status) -> (r: Visual)
    ensures
        r == visual_of(status@),
{
    if status.running {
        let limited = match &status.snapshot {
            Some(s) => any_account_rate_limited(&s.accounts),
            None => false,
        };
        if limited {
            Visual::Warning
        } else {
            Visual::Running
        }
    } else if status.last_error.is_some() {
        Visual::Warning
    } else {
        Visual::Stopped
    }
}

fn running_tooltip(snapshot: &Snapshot) -> (r: String)
    ensures
        r@ == "Proxy running on :"@ + signed_decimal(shown_port(snapshot@)) + " · "@ + shown_account(
            snapshot@,
        ),
{
    let port = match snapshot.port {
        Some(p) => p,
        None => DEFAULT_PORT,
    };
    let mut s = String::from_str("Proxy running on :");
    let digits = i64_to_decimal(port);
    s.append(digits.as_str());
    s.append(" · ");
    match &snapshot.current_account {
        Some(a) => s.append(a.as_str()),
        None => s.append("unknown"),
    }
    s
}

/// The indicator's tooltip for a status, with `now_ms` the current time in
/// epoch milliseconds.
pub fn tooltip_for(status: &Status, now_ms: i64) -> (r: String)
    ensures
        r@ == tooltip_of(status@, now_ms as int),
{
    if status.running {
        match &status.snapshot {
            Some(s) => running_tooltip(s),
            None => String::from_str("Proxy running"),
        }
    } else {
        match &status.last_error {
            Some(e) => e.clone(),
            None => {
                let wait = match &status.snapshot {
                    Some(s) => shortest_wait_ms(s, now_ms),
                    None => None,
                };
                match wait {
                    Some(ms) => {
                        let mut t = String::from_str("Rate limited · next slot in ");
                        let d = format_duration(ms);
                        t.append(d.as_str());
                        t
                    },
                    None => String::from_str("Proxy stopped"),
                }
            },
        }
    }
}

/// Derives the indicator's look and tooltip from a status.
pub fn derive_presentation(status: &Status, now_ms: i64) -> (r: Presentation)
    ensures
        r.visual == visual_of(status@),
        r.tooltip@ == tooltip_of(status@, now_ms as int),
{
    Presentation { visual: visual_for(status), tooltip: tooltip_for(status, now_ms) }
}

impl Visual {
    /// The RGB colour of the icon for this look.
    pub fn color(&self) -> (r: [u8; 3])
        ensures
            r@ == color_of(*self),
    {
        let r: [u8; 3] = match self {
            Visual::Running => [16, 185, 129],
            Visual::Warning => [251, 191, 36],
            Visual::Stopped => [239, 68, 68],
        };
        assert(r@ =~= color_of(*self));
        r
    }
}

/// The RGBA pixels of a square icon of `ICON_SIZE` pixels filled with one opaque colour.
pub fn icon_rgba(color: [u8; 3]) -> (r: Vec<u8>)
    ensures
        r@.len() == ICON_SIZE * ICON_SIZE * 4,
        forall|i: int| 0 <= i < r@.len() ==> #[trigger] r@[i] == icon_byte(color@, i),
{
    let pixels: usize = (ICON_SIZE as usize) * (ICON_SIZE as usize);
    let mut data: Vec<u8> = Vec::new();
    let mut p: usize = 0;
    while p < pixels
        invariant
            pixels == ICON_SIZE * ICON_SIZE,
            p <= pixels,
            data@.len() == 4 * p,
            forall|i: int| 0 <= i < data@.len() ==> #[trigger] data@[i] == icon_byte(color@, i),
        decreases pixels - p,
    {
        data.push(color[0]);
        data.push(color[1]);
        data.push(color[2]);
        data.push(255);
        proof {
            assert((4 * p) % 4 == 0) by (nonlinear_arith);
            assert forall|i: int| 4 * p <= i < 4 * p + 4 implies #[trigger] data@[i] == icon_byte(
                color@,
                i,
            ) by {
                assert((i - 4 * p) == i % 4) by (nonlinear_arith)
                    requires
                        4 * p <= i < 4 * p + 4,
                        (4 * p) % 4 == 0,
                ;
            }
        }
        p = p + 1;
    }
    data
}

} // verus!
