//! The client's session monitors, as step functions: the session deadline
//! watcher and the idle watcher. The caller performs each action (waiting,
//! stopping the session) and hands back what happened.
use vstd::prelude::*;

verus! {

/// Seconds of warning given before a session deadline.
pub const DEADLINE_NOTICE_SECS: u64 = 300;

/// The deadline wait: the deadline (seconds; `0` when absent) minus the
/// notice period, or `0` when the deadline is not longer than the notice.
pub open spec fn effective_deadline_spec(deadline: Option<u32>) -> u64 {
    let d = match deadline {
        Some(d) => d as u64,
        None => 0u64,
    };
    if d > DEADLINE_NOTICE_SECS {
        (d - DEADLINE_NOTICE_SECS) as u64
    } else {
        0
    }
}

/// Computes the deadline wait.
pub fn effective_deadline(deadline: Option<u32>) -> (r: u64)
    ensures
        r == effective_deadline_spec(deadline),
{
    let d: u64 = match deadline {
        Some(d) => d as u64,
        None => 0,
    };
    if d > DEADLINE_NOTICE_SECS {
        d - DEADLINE_NOTICE_SECS
    } else {
        0
    }
}

/// What a monitor asks its caller to do next.
#[derive(Clone, Copy, Debug, PartialEq, Eq, Structural)]
pub enum MonitorAction {
    /// Wait until the session stops, then finish.
    WaitForStop,
    /// Wait for the session to stop, at most this many seconds, and report
    /// what the wait returned.
    WaitTimeout(u64),
    /// Stop the session, then finish.
    StopSession,
    /// Finish.
    Finish,
}

/// Where the deadline watcher stands.
#[derive(Clone, Copy, Debug, PartialEq, Eq, Structural)]
pub enum DeadlinePhase {
    /// Waiting out the deadline.
    Deadline,
    /// Waiting out the notice period.
    Notice,
    /// Done.
    Finished,
}

/// The deadline watcher.
pub struct DeadlineTask {
    pub phase: DeadlinePhase,
}

/// One step of the deadline watcher, given whether the last timed wait
/// reported the stop signal (`false`: it timed out with the session still
/// running). A deadline wait that timed out starts the notice period; a
/// notice wait that timed out stops the session; a wait that reported the
/// stop signal finishes.
pub open spec fn deadline_step(phase: DeadlinePhase, signaled: bool) -> (DeadlinePhase, MonitorAction) {
    match phase {
        DeadlinePhase::Deadline => if !signaled {
            (DeadlinePhase::Notice, MonitorAction::WaitTimeout(DEADLINE_NOTICE_SECS))
        } else {
            (DeadlinePhase::Finished, MonitorAction::Finish)
        },
        DeadlinePhase::Notice => if !signaled {
            (DeadlinePhase::Finished, MonitorAction::StopSession)
        } else {
            (DeadlinePhase::Finished, MonitorAction::Finish)
        },
        DeadlinePhase::Finished => (DeadlinePhase::Finished, MonitorAction::Finish),
    }
}

impl DeadlineTask {
    /// Starts watching: without an effective deadline, just wait for the
    /// session to stop; otherwise wait out the deadline.
    pub fn start(deadline: Option<u32>) -> (r: (DeadlineTask, MonitorAction))
        ensures
            effective_deadline_spec(deadline) == 0 ==> r.0.phase == DeadlinePhase::Finished && r.1
                == MonitorAction::WaitForStop,
            effective_deadline_spec(deadline) != 0 ==> r.0.phase == DeadlinePhase::Deadline && r.1
                == MonitorAction::WaitTimeout(effective_deadline_spec(deadline)),
    {
        let d = effective_deadline(deadline);
        if d == 0 {
            (DeadlineTask { phase: DeadlinePhase::Finished }, MonitorAction::WaitForStop)
        } else {
            (DeadlineTask { phase: DeadlinePhase::Deadline }, MonitorAction::WaitTimeout(d))
        }
    }

    /// Takes the result of the last timed wait (`true` when the wait
    /// reported the session's stop signal, `false` when it timed out). A
    /// deadline wait that timed out starts the notice period; a notice wait
    /// that timed out stops the session, which is still running at its
    /// deadline; a wait that reported the stop signal finishes.
    pub fn on_wait(&mut self, signaled: bool) -> (r: MonitorAction)
        ensures
            (final(self).phase, r) == deadline_step(old(self).phase, signaled),
    {
        match self.phase {
            DeadlinePhase::Deadline => {
                if !signaled {
                    self.phase = DeadlinePhase::Notice;
                    MonitorAction::WaitTimeout(DEADLINE_NOTICE_SECS)
                } else {
                    self.phase = DeadlinePhase::Finished;
                    MonitorAction::Finish
                }
            },
            DeadlinePhase::Notice => {
                self.phase = DeadlinePhase::Finished;
                if !signaled {
                    MonitorAction::StopSession
                } else {
                    MonitorAction::Finish
                }
            },
            DeadlinePhase::Finished => MonitorAction::Finish,
        }
    }
}

/// An idle time: whole seconds and the nanoseconds beyond them.
#[derive(Clone, Copy, Debug, PartialEq, Eq, Structural)]
pub struct IdleTime {
    pub secs: u64,
    pub nanos: u32,
}

/// Whether an idle time is longer than `max` whole seconds.
pub open spec fn idle_exceeds(idle: IdleTime, max: u64) -> bool {
    idle.secs > max || (idle.secs == max && idle.nanos > 0)
}

/// The idle watcher.
pub struct IdleMonitor {
    /// Longest allowed idle time, in seconds.
    pub max_idle_secs: u64,
    /// Whether the user was told about the current idle period.
    pub notified: bool,
}

/// The outcome of one idle check.
#[derive(Clone, Copy, Debug, PartialEq, Eq, Structural)]
pub struct IdleTick {
    /// Tell the user that they are idle.
    pub notify: bool,
    /// Stop the session (and the watcher); otherwise wait one second.
    pub stop: bool,
}

/// One idle check: the new "user told" flag and the outcome. A stopped
/// session stops the watcher. Otherwise (a missing idle time counting as
/// none) an idle time under 3 seconds ends the idle period, the user is told
/// once per idle period as soon as the idle time reaches one second, and the
/// watcher stops when the idle time exceeds the limit.
pub open spec fn idle_step(notified: bool, max_idle_secs: u64, running: bool, idle: Option<IdleTime>) -> (
    bool,
    IdleTick,
) {
    if !running {
        (notified, IdleTick { notify: false, stop: true })
    } else {
        let t = match idle {
            Some(t) => t,
            None => IdleTime { secs: 0, nanos: 0 },
        };
        let fresh = t.secs < 3 || !notified;
        let notify = t.secs > 0 && fresh;
        (notify || (!(t.secs < 3) && notified), IdleTick { notify, stop: idle_exceeds(t, max_idle_secs) })
    }
}

/// The user is told at most once per idle period: after a check that told
/// them, no later check tells them again until one sees under 3 seconds of
/// idle time.
pub proof fn lemma_notify_once_per_idle_period(
    notified: bool,
    max: u64,
    first: Option<IdleTime>,
    later: Seq<IdleTime>,
)
    requires
        idle_step(notified, max, true, first).1.notify,
        forall|i: int| 0 <= i < later.len() ==> #[trigger] later[i].secs >= 3,
    ensures
        forall|i: int|
            0 <= i < later.len() ==> !#[trigger] idle_steps(idle_step(notified, max, true, first).0, max, later)[i],
{
    lemma_idle_steps_quiet(idle_step(notified, max, true, first).0, max, later);
}

/// While the session runs, a check stops it exactly when the idle time is
/// strictly longer than the limit, comparing whole nanoseconds (an idle
/// time keeps fewer than a billion nanoseconds beyond its seconds): in
/// particular any idle time of more whole seconds than the limit stops it,
/// and one of at most the limit's seconds with no nanoseconds beyond never
/// does. A check of a session that no longer runs always stops.
pub proof fn lemma_idle_stop_when_over_limit(notified: bool, max: u64, idle: IdleTime)
    requires
        idle.nanos < 1_000_000_000,
    ensures
        idle_step(notified, max, true, Some(idle)).1.stop <==> idle.secs * 1_000_000_000 + idle.nanos > max
            * 1_000_000_000,
        idle.secs > max ==> idle_step(notified, max, true, Some(idle)).1.stop,
        idle.secs <= max && idle.nanos == 0 ==> !idle_step(notified, max, true, Some(idle)).1.stop,
        idle_step(notified, max, false, Some(idle)).1.stop,
{
}

/// While the session runs, the user is told only about a non-zero idle
/// time, and a check with no earlier notice in this idle period tells them
/// as soon as the idle time reaches one second; an idle time of no whole
/// second ends any idle period and tells nothing.
pub proof fn lemma_idle_notify(notified: bool, max: u64, idle: IdleTime)
    ensures
        idle_step(notified, max, true, Some(idle)).1.notify ==> idle.secs > 0,
        !notified && idle.secs > 0 ==> idle_step(notified, max, true, Some(idle)).1.notify,
        idle.secs == 0 ==> !idle_step(notified, max, true, Some(idle)).0,
        !idle_step(notified, max, false, Some(idle)).1.notify,
{
}

/// Whether each of a series of checks (session running) tells the user.
pub open spec fn idle_steps(notified: bool, max: u64, ts: Seq<IdleTime>) -> Seq<bool>
    decreases ts.len(),
{
    if ts.len() == 0 {
        Seq::empty()
    } else {
        let (n, tick) = idle_step(notified, max, true, Some(ts[0]));
        seq![tick.notify] + idle_steps(n, max, ts.drop_first())
    }
}

proof fn lemma_idle_steps_quiet(notified: bool, max: u64, ts: Seq<IdleTime>)
    requires
        notified,
        forall|i: int| 0 <= i < ts.len() ==> #[trigger] ts[i].secs >= 3,
    ensures
        idle_steps(notified, max, ts).len() == ts.len(),
        forall|i: int| 0 <= i < ts.len() ==> !#[trigger] idle_steps(notified, max, ts)[i],
    decreases ts.len(),
{
    if ts.len() > 0 {
        let rest = ts.drop_first();
        assert forall|i: int| 0 <= i < rest.len() implies #[trigger] rest[i].secs >= 3 by {
            assert(rest[i] == ts[i + 1]);
        }
        lemma_idle_steps_quiet(notified, max, rest);
        let v = idle_steps(notified, max, ts);
        assert(v == seq![false] + idle_steps(notified, max, rest));
        assert forall|i: int| 0 <= i < ts.len() implies !#[trigger] idle_steps(notified, max, ts)[i] by {
            if i > 0 {
                assert(v[i] == idle_steps(notified, max, rest)[i - 1]);
            }
        }
    }
}

impl IdleMonitor {
    /// Starts watching: `None` (wait for the session to stop) when there is
    /// no idle limit, else a watcher for that limit.
    pub fn start(max_idle: Option<u32>) -> (r: Option<IdleMonitor>)
        ensures
            match max_idle {
                Some(m) => m != 0 ==> r is Some && r->0.max_idle_secs == m as u64 && !r->0.notified,
                None => true,
            },
            (max_idle is None || max_idle->0 == 0) ==> r is None,
    {
        match max_idle {
            Some(m) => if m == 0 {
                None
            } else {
                Some(IdleMonitor { max_idle_secs: m as u64, notified: false })
            },
            None => None,
        }
    }

    /// One check, given whether the session still runs and the idle time
    /// (`None` when it could not be read, which counts as no idle time).
    /// An idle time under 3 seconds ends the idle period; the user is told
    /// once per idle period, as soon as the idle time reaches one second;
    /// the session is stopped when it no longer runs or when the idle time
    /// exceeds the limit.
    pub fn tick(&mut self, running: bool, idle: Option<IdleTime>) -> (r: IdleTick)
        ensures
            (final(self).notified, r) == idle_step(old(self).notified, old(self).max_idle_secs, running, idle),
            final(self).max_idle_secs == old(self).max_idle_secs,
    {
        if !running {
            return IdleTick { notify: false, stop: true };
        }
        let t = match idle {
            Some(t) => t,
            None => IdleTime { secs: 0, nanos: 0 },
        };
        if t.secs < 3 {
            self.notified = false;
        }
        let notify = t.secs > 0 && !self.notified;
        if notify {
            self.notified = true;
        }
        let stop = t.secs > self.max_idle_secs || (t.secs == self.max_idle_secs && t.nanos > 0);
        IdleTick { notify, stop }
    }
}

/// What one check of the login session decides.
#[derive(Clone, Copy, Debug, PartialEq, Eq, Structural)]
pub enum WatchDecision {
    /// Keep watching.
    Continue,
    /// The session is closing: notify the logout.
    SessionClosing,
    /// The session no longer exists: notify the logout.
    SessionGone,
    /// The session's leader process is gone: notify the logout.
    LeaderGone,
}

/// One check of the login session, given its state (`None` when it could
/// not be read, as happens once the session is removed), the leader's pid
/// (`0` when unknown) and whether that process is alive.
pub fn session_watch_step(state: Option<&str>, leader_pid: u32, leader_alive: bool) -> (r: WatchDecision)
    ensures
        r == match state {
            None => WatchDecision::SessionGone,
            Some(s) => if s@ == "closing"@ {
                WatchDecision::SessionClosing
            } else if leader_pid != 0 && !leader_alive {
                WatchDecision::LeaderGone
            } else {
                WatchDecision::Continue
            },
        },
{
    match state {
        None => WatchDecision::SessionGone,
        Some(s) => if crate::text::str_eq(s, "closing") {
            WatchDecision::SessionClosing
        } else if leader_pid != 0 && !leader_alive {
            WatchDecision::LeaderGone
        } else {
            WatchDecision::Continue
        },
    }
}

/// Whether the login session can be watched: only when its id is known
/// (not empty).
pub fn should_watch_session(session_id: &str) -> (r: bool)
    ensures
        r == (session_id@.len() > 0),
{
    !session_id.is_empty()
}

/// What the session watcher does after one poll.
#[derive(Clone, Copy, Debug, PartialEq, Eq, Structural)]
pub enum WatchAction {
    /// Poll again a second later.
    Continue,
    /// Someone else asked to stop: exit without signalling.
    Exit,
    /// Signal the stop (the session has ended, for this reason) and exit.
    SignalStop(WatchDecision),
}

/// One poll of the watcher: nothing more once the stop signal is set by
/// anyone; otherwise the session check decides, and any decision but
/// `Continue` signals the stop.
pub open spec fn watch_tick_spec(stop_set: bool, decision: WatchDecision) -> WatchAction {
    if stop_set {
        WatchAction::Exit
    } else if decision == WatchDecision::Continue {
        WatchAction::Continue
    } else {
        WatchAction::SignalStop(decision)
    }
}

/// One poll of the session watcher, given whether the stop signal is
/// already set and what the session check read: the session state (`None`
/// when it could not be read), the leader's pid (`0` when unknown) and
/// whether it is alive.
pub fn session_watch_tick(stop_set: bool, state: Option<&str>, leader_pid: u32, leader_alive: bool) -> (r:
    WatchAction)
    ensures
        r == watch_tick_spec(
            stop_set,
            match state {
                None => WatchDecision::SessionGone,
                Some(s) => if s@ == "closing"@ {
                    WatchDecision::SessionClosing
                } else if leader_pid != 0 && !leader_alive {
                    WatchDecision::LeaderGone
                } else {
                    WatchDecision::Continue
                },
            },
        ),
{
    if stop_set {
        return WatchAction::Exit;
    }
    match session_watch_step(state, leader_pid, leader_alive) {
        WatchDecision::Continue => WatchAction::Continue,
        d => WatchAction::SignalStop(d),
    }
}

/// The actions of a watcher over a series of polls, each given whether
/// the stop was set and the session check's decision; the watcher stops
/// polling at its first action that is not `Continue`.
pub open spec fn watch_run(polls: Seq<(bool, WatchDecision)>) -> Seq<WatchAction>
    decreases polls.len(),
{
    if polls.len() == 0 {
        Seq::empty()
    } else {
        let a = watch_tick_spec(polls[0].0, polls[0].1);
        if a == WatchAction::Continue {
            seq![a] + watch_run(polls.drop_first())
        } else {
            seq![a]
        }
    }
}

/// The watcher signals the stop at most once, as its last action, and only
/// for a poll that found the stop unset and the session ended (closing,
/// gone, or its leader dead); every earlier poll continued.
pub proof fn lemma_watch_signals_once(polls: Seq<(bool, WatchDecision)>, i: int)
    requires
        0 <= i < watch_run(polls).len(),
        watch_run(polls)[i] is SignalStop,
    ensures
        i == watch_run(polls).len() - 1,
        i < polls.len(),
        !polls[i].0,
        polls[i].1 != WatchDecision::Continue,
        watch_run(polls)[i] == WatchAction::SignalStop(polls[i].1),
        forall|j: int| 0 <= j < i ==> watch_run(polls)[j] == WatchAction::Continue,
    decreases polls.len(),
{
    let a = watch_tick_spec(polls[0].0, polls[0].1);
    if a == WatchAction::Continue {
        let rest = polls.drop_first();
        assert(watch_run(polls) == seq![a] + watch_run(rest));
        if i == 0 {
            assert(watch_run(polls)[0] == a);
        } else {
            assert(watch_run(polls)[i] == watch_run(rest)[i - 1]);
            lemma_watch_signals_once(rest, i - 1);
            assert forall|j: int| 0 <= j < i implies watch_run(polls)[j] == WatchAction::Continue by {
                if j > 0 {
                    assert(watch_run(polls)[j] == watch_run(rest)[j - 1]);
                }
            }
        }
    } else {
        assert(watch_run(polls) == seq![a]);
    }
}

/// Whether a process exists, from `kill(pid, 0)`: it succeeded, or it was
/// refused for lack of permission (the process exists but belongs to
/// someone else).
pub fn process_alive_from(kill_result: i32, permission_denied: bool) -> (r: bool)
    ensures
        r == (kill_result == 0 || permission_denied),
{
    kill_result == 0 || permission_denied
}

/// A run of the deadline watcher given the results of its timed waits:
/// the actions it asks for, in order.
pub open spec fn deadline_run(phase: DeadlinePhase, results: Seq<bool>) -> Seq<MonitorAction>
    decreases results.len(),
{
    if results.len() == 0 {
        Seq::empty()
    } else {
        let (next, action) = deadline_step(phase, results[0]);
        seq![action] + deadline_run(next, results.drop_first())
    }
}

/// A run has one action per wait result.
pub proof fn lemma_deadline_run_len(phase: DeadlinePhase, results: Seq<bool>)
    ensures
        deadline_run(phase, results).len() == results.len(),
    decreases results.len(),
{
    if results.len() > 0 {
        let next = match phase {
            DeadlinePhase::Deadline => if !results[0] {
                DeadlinePhase::Notice
            } else {
                DeadlinePhase::Finished
            },
            _ => DeadlinePhase::Finished,
        };
        lemma_deadline_run_len(next, results.drop_first());
    }
}

/// Once finished, the watcher answers every wait with `Finish`.
pub proof fn lemma_finished_only_finishes(results: Seq<bool>, i: int)
    requires
        0 <= i < results.len(),
    ensures
        deadline_run(DeadlinePhase::Finished, results)[i] == MonitorAction::Finish,
    decreases results.len(),
{
    let rest = results.drop_first();
    lemma_deadline_run_len(DeadlinePhase::Finished, rest);
    assert(deadline_run(DeadlinePhase::Finished, results) == seq![MonitorAction::Finish] + deadline_run(
        DeadlinePhase::Finished,
        rest,
    ));
    if i > 0 {
        lemma_finished_only_finishes(rest, i - 1);
    }
}

/// The deadline watcher asks to stop the session at most once, and only as
/// the answer to the second of two timed waits that both timed out (the
/// session still running at its deadline); after its first `Finish` or
/// `StopSession` it only finishes.
pub proof fn lemma_deadline_stops_once(results: Seq<bool>, i: int)
    requires
        0 <= i < results.len(),
        deadline_run(DeadlinePhase::Deadline, results)[i] == MonitorAction::StopSession,
    ensures
        i == 1,
        !results[0] && !results[1],
{
    let rest = results.drop_first();
    lemma_deadline_run_len(DeadlinePhase::Notice, rest);
    lemma_deadline_run_len(DeadlinePhase::Finished, rest);
    if !results[0] {
        assert(deadline_run(DeadlinePhase::Deadline, results) == seq![
            MonitorAction::WaitTimeout(DEADLINE_NOTICE_SECS),
        ] + deadline_run(DeadlinePhase::Notice, rest));
        assert(i >= 1);
        let rest2 = rest.drop_first();
        lemma_deadline_run_len(DeadlinePhase::Finished, rest2);
        let a = if !rest[0] {
            MonitorAction::StopSession
        } else {
            MonitorAction::Finish
        };
        assert(deadline_run(DeadlinePhase::Notice, rest) == seq![a] + deadline_run(DeadlinePhase::Finished, rest2));
        if i >= 2 {
            lemma_finished_only_finishes(rest2, i - 2);
        }
    } else {
        assert(deadline_run(DeadlinePhase::Deadline, results) == seq![MonitorAction::Finish] + deadline_run(
            DeadlinePhase::Finished,
            rest,
        ));
        if i >= 1 {
            lemma_finished_only_finishes(rest, i - 1);
        }
    }
}

/// The deadline wait leaves the notice period before the deadline: for a
/// deadline longer than the notice, the wait plus the notice is the
/// deadline; without a deadline, or with one no longer than the notice,
/// there is no deadline wait.
pub proof fn lemma_deadline_wait_leaves_notice(deadline: Option<u32>)
    ensures
        match deadline {
            Some(d) => if d > DEADLINE_NOTICE_SECS {
                effective_deadline_spec(deadline) + DEADLINE_NOTICE_SECS == d
            } else {
                effective_deadline_spec(deadline) == 0
            },
            None => effective_deadline_spec(deadline) == 0,
        },
{
}

/// A session still running at its deadline is stopped: when the deadline
/// wait times out the watcher waits out the notice period, and when that
/// wait times out too it stops the session; a wait that reports the stop
/// signal finishes the watcher instead.
pub proof fn lemma_deadline_stops_running_session(results: Seq<bool>)
    requires
        results.len() >= 1,
    ensures
        !results[0] ==> deadline_run(DeadlinePhase::Deadline, results)[0] == MonitorAction::WaitTimeout(
            DEADLINE_NOTICE_SECS,
        ),
        results[0] ==> deadline_run(DeadlinePhase::Deadline, results)[0] == MonitorAction::Finish,
        results.len() >= 2 && !results[0] && !results[1] ==> deadline_run(DeadlinePhase::Deadline, results)[1]
            == MonitorAction::StopSession,
        results.len() >= 2 && !results[0] && results[1] ==> deadline_run(DeadlinePhase::Deadline, results)[1]
            == MonitorAction::Finish,
{
    let rest = results.drop_first();
    lemma_deadline_run_len(DeadlinePhase::Notice, rest);
    lemma_deadline_run_len(DeadlinePhase::Finished, rest);
    let (next, a) = deadline_step(DeadlinePhase::Deadline, results[0]);
    assert(deadline_run(DeadlinePhase::Deadline, results) == seq![a] + deadline_run(next, rest));
    if results.len() >= 2 && !results[0] {
        let rest2 = rest.drop_first();
        let (n2, a2) = deadline_step(DeadlinePhase::Notice, rest[0]);
        assert(deadline_run(DeadlinePhase::Notice, rest) == seq![a2] + deadline_run(n2, rest2));
        assert(rest[0] == results[1]);
    }
}

/// The session watcher exits as soon as the stop is set by anyone, and
/// otherwise signals the stop exactly when the session check found the
/// session ended, giving that reason.
pub proof fn lemma_watch_tick(stop_set: bool, decision: WatchDecision)
    ensures
        stop_set ==> watch_tick_spec(stop_set, decision) == WatchAction::Exit,
        !stop_set && decision != WatchDecision::Continue ==> watch_tick_spec(stop_set, decision)
            == WatchAction::SignalStop(decision),
        !stop_set && decision == WatchDecision::Continue ==> watch_tick_spec(stop_set, decision)
            == WatchAction::Continue,
{
}

} // verus!
