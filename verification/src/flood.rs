//! The flood guard that limits how many log events are forwarded to the
//! broker: at most `MAX_PER_WINDOW` events per `WINDOW_SECS`-second window.
//!
//! The state is the start of the current window (Unix seconds; `0` when no
//! window has started) and the number of events counted in it.
use vstd::prelude::*;

verus! {

/// Events allowed per window.
pub const MAX_PER_WINDOW: u64 = 60;

/// Length of a window, in seconds.
pub const WINDOW_SECS: u64 = 60;

/// The guard's state.
#[derive(Clone, Copy, Debug, PartialEq, Eq, Structural)]
pub struct FloodGuard {
    /// Start of the current window; `0` means that no window has started.
    pub window_start: u64,
    /// Events counted in the current window.
    pub count: u64,
}

/// The state after one event at time `now`, or `None` when the event is
/// rejected. A new window starts (count 1) when none has started or when
/// `now` is at least `WINDOW_SECS` past the window's start; otherwise the
/// event is counted while fewer than `MAX_PER_WINDOW` have been.
pub open spec fn flood_next(g: FloodGuard, now: u64) -> Option<FloodGuard> {
    if g.window_start == 0 || now >= g.window_start + WINDOW_SECS {
        Some(FloodGuard { window_start: now, count: 1 })
    } else if g.count < MAX_PER_WINDOW {
        Some(FloodGuard { window_start: g.window_start, count: (g.count + 1) as u64 })
    } else {
        None
    }
}

impl FloodGuard {
    /// A guard before any event: no window has started.
    pub fn new() -> (r: FloodGuard)
        ensures
            r == (FloodGuard { window_start: 0, count: 0 }),
    {
        FloodGuard { window_start: 0, count: 0 }
    }
}

/// Decides whether an event at time `now` (Unix seconds) may be forwarded,
/// and records it when it may.
pub fn flood_allow(guard: &mut FloodGuard, now: u64) -> (r: bool)
    ensures
        r == flood_next(*old(guard), now) is Some,
        r ==> *final(guard) == flood_next(*old(guard), now)->0,
        !r ==> *final(guard) == *old(guard),
{
    if guard.window_start == 0 || now.saturating_sub(guard.window_start) >= WINDOW_SECS {
        guard.window_start = now;
        guard.count = 1;
        true
    } else if guard.count < MAX_PER_WINDOW {
        guard.count = guard.count + 1;
        true
    } else {
        false
    }
}

/// The number of events allowed when events arrive at the times `ts`.
pub open spec fn allowed_count(g: FloodGuard, ts: Seq<u64>) -> nat
    decreases ts.len(),
{
    if ts.len() == 0 {
        0
    } else {
        match flood_next(g, ts[0]) {
            Some(n) => 1 + allowed_count(n, ts.drop_first()),
            None => allowed_count(g, ts.drop_first()),
        }
    }
}

/// Within a started window, events are allowed exactly until the window
/// holds `MAX_PER_WINDOW` of them: for any times before the window's end,
/// the number allowed is the smaller of the number of events and the
/// remaining quota.
pub proof fn lemma_window_quota(g: FloodGuard, ts: Seq<u64>)
    requires
        g.window_start != 0,
        g.count <= MAX_PER_WINDOW,
        forall|i: int| 0 <= i < ts.len() ==> #[trigger] ts[i] < g.window_start + WINDOW_SECS,
    ensures
        allowed_count(g, ts) == if ts.len() < MAX_PER_WINDOW - g.count {
            ts.len() as int
        } else {
            MAX_PER_WINDOW - g.count
        },
    decreases ts.len(),
{
    if ts.len() > 0 {
        let rest = ts.drop_first();
        assert forall|i: int| 0 <= i < rest.len() implies #[trigger] rest[i] < g.window_start + WINDOW_SECS by {
            assert(rest[i] == ts[i + 1]);
        }
        if g.count < MAX_PER_WINDOW {
            lemma_window_quota(FloodGuard { window_start: g.window_start, count: (g.count + 1) as u64 }, rest);
        } else {
            lemma_window_quota(g, rest);
        }
    }
}

/// Once a window holds `MAX_PER_WINDOW` events, further events before the
/// window's end are rejected and leave the state unchanged.
pub proof fn lemma_saturated_rejects(g: FloodGuard, now: u64)
    requires
        g.window_start != 0,
        g.count >= MAX_PER_WINDOW,
        now < g.window_start + WINDOW_SECS,
    ensures
        flood_next(g, now) is None,
{
}

/// An event at least `WINDOW_SECS` after the window's start (or when no
/// window has started) is always allowed, and opens a new window starting
/// at `now` with one event.
pub proof fn lemma_window_slides(g: FloodGuard, now: u64)
    requires
        g.window_start == 0 || now >= g.window_start + WINDOW_SECS,
    ensures
        flood_next(g, now) == Some(FloodGuard { window_start: now, count: 1 }),
{
}

/// A guard that has seen no event allows `min(n, MAX_PER_WINDOW)` of `n`
/// events that arrive at one non-zero time `now`.
pub proof fn lemma_fresh_guard_quota(now: u64, n: nat)
    requires
        now != 0,
    ensures
        allowed_count(FloodGuard { window_start: 0, count: 0 }, Seq::new(n, |i: int| now)) == if n
            < MAX_PER_WINDOW {
            n as int
        } else {
            MAX_PER_WINDOW as int
        },
{
    let ts = Seq::new(n, |i: int| now);
    if n > 0 {
        let g = FloodGuard { window_start: now, count: 1 };
        let rest = ts.drop_first();
        assert forall|i: int| 0 <= i < rest.len() implies #[trigger] rest[i] < g.window_start + WINDOW_SECS by {
            assert(rest[i] == now);
        }
        lemma_window_quota(g, rest);
    }
}

} // verus!
