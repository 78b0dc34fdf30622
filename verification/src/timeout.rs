//! A stream that fails when it makes no progress for too long.
//!
//! The timer itself belongs to the program: after each poll of the stream the state here says
//! what to do with it, and what a timer that fired means.

use std::time::Duration;
use vstd::prelude::*;

verus! {

/// How long either side of a relayed connection may stay without progress, in seconds.
pub const RELAY_TIMEOUT_SECS: u64 = 30;

/// What to do with the timer.
#[derive(Clone, Copy, PartialEq, Eq, Debug)]
pub enum TimerAction {
    /// Nothing; the timer is not looked at.
    Leave,
    /// Set the timer back to the current time. It is not looked at.
    Rewind,
    /// Set the timer to the current time plus the duration, then look whether it has fired.
    Start(Duration),
    /// Look whether the timer has fired.
    Watch,
}

impl TimerAction {
    /// Whether the timer is looked at.
    pub open spec fn looks(self) -> bool {
        self is Start || self is Watch
    }

    /// What a poll comes to if the timer has fired, or has not.
    pub open spec fn verdict(self, fired: bool) -> Result<(), TimedOut> {
        if self.looks() && fired {
            Err(TimedOut)
        } else {
            Ok(())
        }
    }
}

/// The stream made no progress within its timeout.
#[derive(Clone, Copy, PartialEq, Eq, Structural, Debug)]
pub struct TimedOut;

/// Whether a stream is timed, and whether its timer runs.
#[derive(Clone, Copy, PartialEq, Eq, Debug)]
pub struct TimeoutState {
    pub timeout: Option<Duration>,
    pub active: bool,
}

impl TimeoutState {
    /// The state with another timeout, or with none.
    pub open spec fn with_timeout(self, timeout: Option<Duration>) -> TimeoutState {
        TimeoutState { timeout, ..self }
    }

    /// The state after a poll of the stream that was ready or pending.
    pub open spec fn after(self, ready: bool) -> TimeoutState {
        if ready {
            TimeoutState { active: false, ..self }
        } else if self.timeout is Some {
            TimeoutState { active: true, ..self }
        } else {
            self
        }
    }

    /// What a poll of the stream asks of the timer.
    pub open spec fn action(self, ready: bool) -> TimerAction {
        if ready {
            if self.active {
                TimerAction::Rewind
            } else {
                TimerAction::Leave
            }
        } else {
            match self.timeout {
                None => TimerAction::Leave,
                Some(limit) => if self.active {
                    TimerAction::Watch
                } else {
                    TimerAction::Start(limit)
                },
            }
        }
    }

    /// The state after a run of polls.
    pub open spec fn after_all(self, polls: Seq<bool>) -> TimeoutState
        decreases polls.len(),
    {
        if polls.len() == 0 {
            self
        } else {
            self.after_all(polls.drop_last()).after(polls.last())
        }
    }

    /// No timeout, and no timer running.
    pub fn new() -> (r: TimeoutState)
        ensures
            r == (TimeoutState { timeout: None, active: false }),
    {
        TimeoutState { timeout: None, active: false }
    }

    /// The timeout that is set.
    pub fn timeout(&self) -> (r: Option<Duration>)
        ensures
            r == self.timeout,
    {
        self.timeout
    }

    /// Sets the timeout of a stream that has not been polled yet.
    pub fn set_timeout(&mut self, timeout: Option<Duration>)
        ensures
            *final(self) == (TimeoutState { timeout, ..*old(self) }),
            *final(self) == old(self).with_timeout(timeout),
    {
        self.timeout = timeout;
    }

    /// Sets the timeout of a stream that may have been polled: a running timer stops.
    pub fn set_timeout_pinned(&mut self, timeout: Option<Duration>) -> (r: TimerAction)
        ensures
            *final(self) == (TimeoutState { timeout, active: false }),
            *final(self) == old(self).after(true).with_timeout(timeout),
            r == old(self).action(true),
    {
        self.timeout = timeout;
        self.reset()
    }

    /// The stream made progress: a running timer stops.
    pub fn reset(&mut self) -> (r: TimerAction)
        ensures
            *final(self) == old(self).after(true),
            r == old(self).action(true),
    {
        if self.active {
            self.active = false;
            TimerAction::Rewind
        } else {
            TimerAction::Leave
        }
    }

    /// The stream made no progress: the timer of a timed stream runs from here on, or is looked
    /// at if it runs already.
    pub fn poll_check(&mut self) -> (r: TimerAction)
        ensures
            *final(self) == old(self).after(false),
            r == old(self).action(false),
    {
        let limit: Duration = match self.timeout {
            Some(limit) => limit,
            None => return TimerAction::Leave,
        };
        if !self.active {
            self.active = true;
            TimerAction::Start(limit)
        } else {
            TimerAction::Watch
        }
    }
}

/// What a poll comes to once the timer was handled: a timer that was looked at and had fired
/// makes the poll fail. `fired` counts for nothing where the timer was not looked at.
pub fn timer_verdict(action: &TimerAction, fired: bool) -> (r: Result<(), TimedOut>)
    ensures
        action.looks() && fired ==> r == Err::<(), TimedOut>(TimedOut),
        !(action.looks() && fired) ==> r == Ok::<(), TimedOut>(()),
        r == action.verdict(fired),
{
    match action {
        TimerAction::Start(_) | TimerAction::Watch => if fired {
            Err(TimedOut)
        } else {
            Ok(())
        },
        TimerAction::Leave | TimerAction::Rewind => Ok(()),
    }
}

/// A stream with a timeout on progress.
pub struct TimeoutStream<S> {
    pub stream: S,
    pub state: TimeoutState,
}

impl<S> TimeoutStream<S> {
    /// Wraps a stream; it is not timed yet.
    pub fn new(stream: S) -> (r: Self)
        ensures
            r.stream == stream,
            r.state == (TimeoutState { timeout: None, active: false }),
    {
        TimeoutStream { stream, state: TimeoutState::new() }
    }

    /// Sets how long the stream may stay without progress, or that it may do so for ever.
    pub fn set_timeout(&mut self, timeout: Option<Duration>)
        ensures
            final(self).stream == old(self).stream,
            final(self).state == (TimeoutState { timeout, ..old(self).state }),
            final(self).state == old(self).state.with_timeout(timeout),
    {
        self.state.set_timeout(timeout);
    }

    /// To be called after each poll of the stream, whether it read, wrote, flushed or shut down.
    pub fn after_poll(&mut self, ready: bool) -> (r: TimerAction)
        ensures
            final(self).stream == old(self).stream,
            final(self).state == old(self).state.after(ready),
            r == old(self).state.action(ready),
    {
        if ready {
            self.state.reset()
        } else {
            self.state.poll_check()
        }
    }
}

/// On a timed stream the timer runs exactly while the stream stalls. It is started by the first
/// pending poll of a stall, looked at by the others, and set back by the poll that ends the stall.
pub proof fn law_timer_runs_while_stalled(limit: Duration, polls: Seq<bool>, ready: bool)
    ensures
        ({
            let fresh = TimeoutState { timeout: Some(limit), active: false };
            let s = fresh.after_all(polls);
            let stalled = polls.len() > 0 && !polls.last();
            &&& s == (TimeoutState { timeout: Some(limit), active: stalled })
            &&& s.action(ready) == (if ready {
                if stalled {
                    TimerAction::Rewind
                } else {
                    TimerAction::Leave
                }
            } else if stalled {
                TimerAction::Watch
            } else {
                TimerAction::Start(limit)
            })
        }),
    decreases polls.len(),
{
    if polls.len() > 0 {
        law_timer_runs_while_stalled(limit, polls.drop_last(), polls.last());
    }
}

/// A stream that is not timed never looks at a timer, so it never times out.
pub proof fn law_untimed_never_times_out(polls: Seq<bool>, ready: bool)
    ensures
        ({
            let fresh = TimeoutState { timeout: None, active: false };
            &&& fresh.after_all(polls) == fresh
            &&& !fresh.after_all(polls).action(ready).looks()
        }),
    decreases polls.len(),
{
    if polls.len() > 0 {
        law_untimed_never_times_out(polls.drop_last(), polls.last());
    }
}

/// A poll of a stream: when it was, and whether it was ready.
pub struct PollAt {
    pub now: int,
    pub ready: bool,
}

/// Which of the polls were ready.
pub open spec fn outcomes(polls: Seq<PollAt>) -> Seq<bool> {
    polls.map_values(|poll: PollAt| poll.ready)
}

/// The state of a stream with a timeout after polls.
pub open spec fn timed_after(limit: Duration, polls: Seq<PollAt>) -> TimeoutState {
    TimeoutState { timeout: Some(limit), active: false }.after_all(outcomes(polls))
}

/// What the latest of the polls asked of the timer.
pub open spec fn latest_action(limit: Duration, polls: Seq<PollAt>) -> TimerAction {
    timed_after(limit, polls.drop_last()).action(polls.last().ready)
}

/// When the timer is due after polls that were all handled as they asked, for a timeout of `ticks`
/// units of time.
pub open spec fn due(limit: Duration, ticks: int, polls: Seq<PollAt>) -> int
    decreases polls.len(),
{
    if polls.len() == 0 {
        0
    } else {
        match latest_action(limit, polls) {
            TimerAction::Start(_) => polls.last().now + ticks,
            TimerAction::Rewind => polls.last().now,
            TimerAction::Leave | TimerAction::Watch => due(limit, ticks, polls.drop_last()),
        }
    }
}

/// When the stall began that the latest of the polls, a pending one, belongs to.
pub open spec fn stalled_since(polls: Seq<PollAt>) -> int
    decreases polls.len(),
{
    if polls.len() <= 1 || polls.drop_last().last().ready {
        polls.last().now
    } else {
        stalled_since(polls.drop_last())
    }
}

/// A timed stream fails exactly when it has stalled for its timeout. A pending poll looks at the
/// timer, and the timer is due one timeout after the stall began, however often the stream was
/// polled in between and whatever came before; a poll that is ready does not look at it.
pub proof fn law_fails_after_one_timeout(limit: Duration, ticks: int, polls: Seq<PollAt>)
    requires
        polls.len() > 0,
    ensures
        latest_action(limit, polls).looks() <==> !polls.last().ready,
        !polls.last().ready ==> due(limit, ticks, polls) == stalled_since(polls) + ticks,
    decreases polls.len(),
{
    let before = polls.drop_last();
    assert(outcomes(polls).drop_last() =~= outcomes(before));
    law_timer_runs_while_stalled(limit, outcomes(before), polls.last().ready);
    if before.len() > 0 {
        law_fails_after_one_timeout(limit, ticks, before);
        assert(outcomes(before).last() == before.last().ready);
    }
}

/// What a poll does to the timer in every state. Progress stops a timer that runs, and touches no
/// other; a stall starts the timer of a timed stream, looks at it if it runs already, and means
/// nothing to a stream that is not timed. Neither changes the timeout.
pub proof fn law_poll_in_every_state(state: TimeoutState)
    ensures
        state.after(true).timeout == state.timeout,
        state.after(false).timeout == state.timeout,
        !state.after(true).active,
        state.after(false).active <==> state.active || state.timeout is Some,
        state.active ==> state.action(true) == TimerAction::Rewind,
        !state.active ==> state.action(true) == TimerAction::Leave,
        state.timeout is None ==> state.action(false) == TimerAction::Leave,
        state.timeout matches Some(limit) ==> state.action(false) == if state.active {
            TimerAction::Watch
        } else {
            TimerAction::Start(limit)
        },
{
}

/// The timer is looked at exactly where it runs after the poll: where it was just started, or was
/// left to run.
pub proof fn law_running_timer_is_looked_at(state: TimeoutState, limit: Duration)
    ensures
        state.timeout is Some ==> state.action(false).looks(),
        !state.action(true).looks(),
        TimerAction::Start(limit).looks(),
        TimerAction::Watch.looks(),
        !TimerAction::Leave.looks(),
        !TimerAction::Rewind.looks(),
{
}

/// A timeout that is set is the one that the next stall is timed with, and setting it neither starts
/// nor stops a timer.
pub proof fn law_timeout_that_is_set_counts(state: TimeoutState, timeout: Option<Duration>)
    ensures
        state.with_timeout(timeout).timeout == timeout,
        state.with_timeout(timeout).active == state.active,
        !state.active && timeout is Some ==> state.with_timeout(timeout).action(false)
            == TimerAction::Start(timeout->0),
        timeout is None ==> state.with_timeout(timeout).action(false) == TimerAction::Leave,
{
}

/// A poll fails exactly if it was pending on a timed stream and the timer has fired. One that was
/// ready never fails.
pub proof fn law_only_a_stalled_poll_fails(state: TimeoutState, ready: bool, fired: bool)
    ensures
        state.action(ready).verdict(fired) is Err <==> !ready && state.timeout is Some && fired,
        RELAY_TIMEOUT_SECS == 30,
{
}

} // verus!
