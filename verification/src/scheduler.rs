//! The tick scheduler: which readings a running clock publishes, and when it
//! falls silent. The host owns the timer; it reports each expiry and each
//! cancellation here and does what the answer says.

use crate::clock::{evaluate, reading, BalanceReading, DailyBalanceSnapshot, SECONDS_PER_DAY};
use crate::instant::Instant;
use crate::timezone::{resolve, resolved_zone, selected};
use vstd::prelude::*;

verus! {

/// The interval between two ticks of the clock display, in milliseconds.
pub const DEFAULT_INTERVAL_MILLIS: u64 = 90;

/// Whether a scheduler still publishes.
#[derive(Clone, Copy, Debug, PartialEq, Eq, Structural)]
pub enum SchedulerState {
    /// Cancelled: nothing is published any more.
    Stopped,
    /// Started and not yet cancelled.
    Running,
}

/// What the host reports to a scheduler.
#[derive(Clone, Copy, Debug, PartialEq, Eq, Structural)]
pub enum Signal {
    /// The timer expired.
    TimerFired,
    /// The cancellation handle was invoked.
    Cancel,
}

/// The state after `signal` arrived in `state`: a cancellation stops the
/// scheduler, and nothing starts it again.
pub open spec fn next_state(state: SchedulerState, signal: Signal) -> SchedulerState {
    match signal {
        Signal::TimerFired => state,
        Signal::Cancel => SchedulerState::Stopped,
    }
}

/// Whether `signal`, arriving in `state`, makes the scheduler publish a
/// reading: only an expiry of the timer while running does.
pub open spec fn publishes(state: SchedulerState, signal: Signal) -> bool {
    state == SchedulerState::Running && signal == Signal::TimerFired
}

/// The state after the signals of `signals` arrived one after another.
pub open spec fn state_after(state: SchedulerState, signals: Seq<Signal>) -> SchedulerState
    decreases signals.len(),
{
    if signals.len() == 0 {
        state
    } else {
        next_state(state_after(state, signals.drop_last()), signals.last())
    }
}

/// How many readings are published while the signals of `signals` arrive one
/// after another.
pub open spec fn publications(state: SchedulerState, signals: Seq<Signal>) -> nat
    decreases signals.len(),
{
    if signals.len() == 0 {
        0
    } else {
        let earlier = publications(state, signals.drop_last());
        if publishes(state_after(state, signals.drop_last()), signals.last()) {
            earlier + 1
        } else {
            earlier
        }
    }
}

/// The reading that a tick at `now` publishes while `selection` is the
/// current selection of a zone.
pub open spec fn tick_reading(now: Instant, selection: Option<Seq<char>>) -> BalanceReading {
    reading(resolved_zone(selection), now.unix_seconds(), now.subsec_nanos())
}

/// One tick: resolves the current selection to a zone and evaluates the time
/// bank at `now` in that zone. Nothing is kept from one tick to the next, so a
/// changed selection shows in the very next reading.
pub fn tick(now: Instant, selection: Option<&str>) -> (snap: DailyBalanceSnapshot)
    ensures
        snap@ == tick_reading(now, selected(selection)),
        1 <= snap.seconds_remaining_today <= SECONDS_PER_DAY,
{
    let tz = resolve(selection);
    evaluate(now, &tz)
}

/// A clock that publishes a reading when it is started and at every expiry
/// of the host's timer, until it is cancelled.
#[derive(Debug)]
pub struct TickScheduler {
    state: SchedulerState,
    interval_millis: u64,
}

impl TickScheduler {
    /// Whether the scheduler still publishes.
    pub closed spec fn state(&self) -> SchedulerState {
        self.state
    }

    /// The interval that the host's timer is to run at, in milliseconds.
    pub closed spec fn interval(&self) -> u64 {
        self.interval_millis
    }

    /// Starts a scheduler and takes the first reading at once. The host
    /// publishes that reading and arms a timer that repeats every
    /// `interval_millis` milliseconds.
    pub fn start(interval_millis: u64, now: Instant, selection: Option<&str>) -> (started: (
        TickScheduler,
        DailyBalanceSnapshot,
    ))
        ensures
            started.0.state() == SchedulerState::Running,
            started.0.interval() == interval_millis,
            started.1@ == tick_reading(now, selected(selection)),
    {
        let first = tick(now, selection);
        (TickScheduler { state: SchedulerState::Running, interval_millis }, first)
    }

    /// Answers an expiry of the timer: the reading to publish while the
    /// scheduler runs, nothing once it is stopped.
    pub fn on_timer(&self, now: Instant, selection: Option<&str>) -> (published: Option<
        DailyBalanceSnapshot,
    >)
        ensures
            published is Some <==> publishes(self.state(), Signal::TimerFired),
            published matches Some(snap) ==> snap@ == tick_reading(now, selected(selection)),
    {
        match self.state {
            SchedulerState::Running => Some(tick(now, selection)),
            SchedulerState::Stopped => None,
        }
    }

    /// Cancels the scheduler and tells whether the host has a timer to
    /// clear: it has one only if the scheduler was still running. Cancelling
    /// again changes nothing.
    pub fn cancel(&mut self) -> (clear_timer: bool)
        ensures
            final(self).state() == next_state(old(self).state(), Signal::Cancel),
            final(self).interval() == old(self).interval(),
            clear_timer == (old(self).state() == SchedulerState::Running),
    {
        let clear_timer = match self.state {
            SchedulerState::Running => true,
            SchedulerState::Stopped => false,
        };
        self.state = SchedulerState::Stopped;
        clear_timer
    }

    /// Tells whether the scheduler still publishes.
    pub fn is_running(&self) -> (running: bool)
        ensures
            running == (self.state() == SchedulerState::Running),
    {
        match self.state {
            SchedulerState::Running => true,
            SchedulerState::Stopped => false,
        }
    }

    /// The interval that the host's timer is to run at, in milliseconds.
    pub fn interval_millis(&self) -> (millis: u64)
        ensures
            millis == self.interval(),
    {
        self.interval_millis
    }
}

proof fn lemma_stopped_stays_silent(signals: Seq<Signal>)
    ensures
        state_after(SchedulerState::Stopped, signals) == SchedulerState::Stopped,
        publications(SchedulerState::Stopped, signals) == 0,
    decreases signals.len(),
{
    if signals.len() > 0 {
        lemma_stopped_stays_silent(signals.drop_last());
    }
}

/// After a cancellation the scheduler is stopped, stays stopped and
/// publishes nothing, whatever signals arrive afterwards and however many.
/// Cancelling again is among them: it changes nothing.
pub proof fn silent_after_cancel(state: SchedulerState, signals: Seq<Signal>)
    ensures
        next_state(state, Signal::Cancel) == SchedulerState::Stopped,
        next_state(next_state(state, Signal::Cancel), Signal::Cancel) == next_state(
            state,
            Signal::Cancel,
        ),
        state_after(next_state(state, Signal::Cancel), signals) == SchedulerState::Stopped,
        publications(next_state(state, Signal::Cancel), signals) == 0,
{
    lemma_stopped_stays_silent(signals);
}

/// While a scheduler runs, every expiry of the timer publishes one reading:
/// `count` expiries in a row publish `count` readings and leave it running.
pub proof fn publishes_every_tick_while_running(count: nat)
    ensures
        state_after(SchedulerState::Running, Seq::new(count, |i: int| Signal::TimerFired))
            == SchedulerState::Running,
        publications(SchedulerState::Running, Seq::new(count, |i: int| Signal::TimerFired))
            == count,
    decreases count,
{
    let signals = Seq::new(count, |i: int| Signal::TimerFired);
    if count > 0 {
        publishes_every_tick_while_running((count - 1) as nat);
        assert(signals.drop_last() =~= Seq::new((count - 1) as nat, |i: int| Signal::TimerFired));
    }
}

} // verus!
