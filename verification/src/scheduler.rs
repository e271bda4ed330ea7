//! The debounced retile scheduler: a burst of signals is answered with one
//! retile, issued once no signal has arrived for the length of the delay.
//!
//! The scheduler is a state machine with two states, idle and pending with a
//! deadline, and two events, a signal and the timer. It reads no clock: every
//! event carries the time at which it occurred, counted in ticks (such as
//! milliseconds) from a start that the caller chooses.

use vstd::prelude::*;

verus! {

/// The state of the scheduler.
pub enum SchedulerState {
    /// No retile is owed.
    Idle,
    /// A retile is owed once the clock reaches `deadline`.
    Pending { deadline: int },
}

/// The mathematical content of a [`Scheduler`].
pub struct SchedulerView {
    /// The quiet time after the last signal of a burst; zero disables the
    /// scheduler.
    pub delay: int,
    pub state: SchedulerState,
}

impl SchedulerView {
    /// The scheduler after a signal at time `now`: pending, with the deadline
    /// one delay after `now`, whatever the state was before. A disabled
    /// scheduler ignores the signal.
    pub open spec fn signal(self, now: int) -> SchedulerView {
        if self.delay > 0 {
            SchedulerView { state: SchedulerState::Pending { deadline: now + self.delay }, ..self }
        } else {
            self
        }
    }

    /// A retile is owed and its deadline is reached at time `now`.
    pub open spec fn due(self, now: int) -> bool {
        self.state matches SchedulerState::Pending { deadline } && deadline <= now
    }

    /// The scheduler after the timer was attended to at time `now`: idle if
    /// a retile was due, which is then issued, and unchanged otherwise.
    pub open spec fn timer(self, now: int) -> SchedulerView {
        if self.due(now) {
            SchedulerView { state: SchedulerState::Idle, ..self }
        } else {
            self
        }
    }

    /// How long after `now` the deadline is reached, if a retile is owed:
    /// nothing if it is reached already.
    pub open spec fn remaining(self, now: int) -> Option<int> {
        match self.state {
            SchedulerState::Idle => None,
            SchedulerState::Pending { deadline } => Some(
                if deadline <= now {
                    0
                } else {
                    deadline - now
                },
            ),
        }
    }

    /// The time of the retile that is owed, if one is.
    pub open spec fn owed(self) -> Seq<int> {
        match self.state {
            SchedulerState::Idle => Seq::empty(),
            SchedulerState::Pending { deadline } => seq![deadline],
        }
    }

    /// The times at which retiles are issued when signals arrive at the
    /// times `signals`, in that order, and the timer is attended to exactly
    /// when a deadline is reached. A deadline that falls on the time of a
    /// signal counts as reached before the signal. After the last signal a
    /// deadline that is still pending is reached in the end.
    pub open spec fn retile_times(self, signals: Seq<int>) -> Seq<int>
        decreases signals.len(),
    {
        if signals.len() == 0 {
            self.owed()
        } else {
            let now = signals[0];
            let rest = self.timer(now).signal(now).retile_times(signals.drop_first());
            if self.due(now) {
                self.owed() + rest
            } else {
                rest
            }
        }
    }
}

/// Every signal follows the one before it by less than `delay`.
pub open spec fn is_burst(signals: Seq<int>, delay: int) -> bool {
    forall|i: int|
        0 <= i < signals.len() - 1 ==> signals[i] <= #[trigger] signals[i + 1] < signals[i] + delay
}

/// Every signal follows the one before it by more than `delay`.
pub open spec fn is_spaced(signals: Seq<int>, delay: int) -> bool {
    forall|i: int| 0 <= i < signals.len() - 1 ==> signals[i] + delay < #[trigger] signals[i + 1]
}

/// The time one delay after each signal.
pub open spec fn deadlines(signals: Seq<int>, delay: int) -> Seq<int> {
    Seq::new(signals.len(), |i: int| signals[i] + delay)
}

proof fn lemma_burst_from(scheduler: SchedulerView, signals: Seq<int>)
    requires
        scheduler.delay > 0,
        signals.len() > 0,
        is_burst(signals, scheduler.delay),
        !scheduler.due(signals[0]),
    ensures
        scheduler.retile_times(signals) == seq![signals.last() + scheduler.delay],
    decreases signals.len(),
{
    let now = signals[0];
    let next = scheduler.timer(now).signal(now);
    let rest = signals.drop_first();
    if rest.len() == 0 {
        assert(next.retile_times(rest) == seq![now + scheduler.delay]);
    } else {
        assert(is_burst(rest, next.delay));
        lemma_burst_from(next, rest);
    }
}

proof fn lemma_spaced_from(scheduler: SchedulerView, signals: Seq<int>)
    requires
        scheduler.delay > 0,
        is_spaced(signals, scheduler.delay),
        signals.len() > 0 ==> scheduler.state is Idle || scheduler.due(signals[0]),
    ensures
        scheduler.retile_times(signals) == scheduler.owed() + deadlines(signals, scheduler.delay),
    decreases signals.len(),
{
    if signals.len() > 0 {
        let now = signals[0];
        let next = scheduler.timer(now).signal(now);
        let rest = signals.drop_first();
        assert(is_spaced(rest, next.delay));
        lemma_spaced_from(next, rest);
    }
}

/// Signals that each arrive less than the delay after the one before are
/// answered with exactly one retile, issued one delay after the last signal.
pub proof fn lemma_burst_retiles_once(scheduler: SchedulerView, signals: Seq<int>)
    requires
        scheduler.delay > 0,
        scheduler.state is Idle,
        signals.len() > 0,
        is_burst(signals, scheduler.delay),
    ensures
        scheduler.retile_times(signals) == seq![signals.last() + scheduler.delay],
{
    lemma_burst_from(scheduler, signals);
}

/// Signals that each arrive more than the delay after the one before are
/// answered with one retile each, issued one delay after its signal.
pub proof fn lemma_spaced_signals_retile_each(scheduler: SchedulerView, signals: Seq<int>)
    requires
        scheduler.delay > 0,
        scheduler.state is Idle,
        is_spaced(signals, scheduler.delay),
    ensures
        scheduler.retile_times(signals) == deadlines(signals, scheduler.delay),
        scheduler.retile_times(signals).len() == signals.len(),
{
    lemma_spaced_from(scheduler, signals);
}

/// A scheduler with a delay of zero never issues a retile.
pub proof fn lemma_disabled_never_retiles(scheduler: SchedulerView, signals: Seq<int>)
    requires
        scheduler.delay == 0,
        scheduler.state is Idle,
    ensures
        scheduler.retile_times(signals) == Seq::<int>::empty(),
    decreases signals.len(),
{
    if signals.len() > 0 {
        lemma_disabled_never_retiles(scheduler, signals.drop_first());
    }
}

/// The scheduler. It remembers the time of the last signal rather than the
/// deadline, so that no time it holds lies beyond what the clock can show.
#[derive(Clone, Copy, Debug, PartialEq, Eq)]
pub struct Scheduler {
    delay: u64,
    pending: bool,
    last_signal: u64,
}

impl View for Scheduler {
    type V = SchedulerView;

    closed spec fn view(&self) -> SchedulerView {
        SchedulerView {
            delay: self.delay as int,
            state: if self.pending {
                SchedulerState::Pending { deadline: self.last_signal + self.delay }
            } else {
                SchedulerState::Idle
            },
        }
    }
}

impl Scheduler {
    /// An idle scheduler with the given delay in ticks; zero disables it.
    pub fn new(delay: u64) -> (scheduler: Scheduler)
        ensures
            scheduler@ == (SchedulerView { delay: delay as int, state: SchedulerState::Idle }),
    {
        Scheduler { delay, pending: false, last_signal: 0 }
    }

    /// The delay in ticks.
    pub fn delay(&self) -> (delay: u64)
        ensures
            delay == self@.delay,
    {
        self.delay
    }

    /// Whether a retile is owed.
    pub fn is_pending(&self) -> (pending: bool)
        ensures
            pending == (self@.state is Pending),
    {
        self.pending
    }

    /// Takes note of a signal that arrived at time `now`: a retile is owed
    /// one delay after `now`, and an earlier deadline is given up.
    pub fn on_signal(&mut self, now: u64)
        ensures
            final(self)@ == old(self)@.signal(now as int),
    {
        if self.delay > 0 {
            self.pending = true;
            self.last_signal = now;
        }
    }

    /// Attends to the timer at time `now`, and says whether a retile is to be
    /// issued: it is when one is owed and its deadline is reached. The
    /// scheduler is idle afterwards in that case and unchanged otherwise.
    pub fn on_timer(&mut self, now: u64) -> (retile: bool)
        ensures
            retile == old(self)@.due(now as int),
            final(self)@ == old(self)@.timer(now as int),
    {
        if self.pending && now >= self.last_signal && now - self.last_signal >= self.delay {
            self.pending = false;
            true
        } else {
            false
        }
    }

    /// How many ticks after `now` the timer is to be attended to: none while
    /// no retile is owed, and else the time left until the deadline, or all
    /// that a `u64` can hold if it is more than that.
    pub fn remaining(&self, now: u64) -> (wait: Option<u64>)
        ensures
            match wait {
                Some(ticks) => self@.remaining(now as int) matches Some(left) && ticks == if left
                    <= u64::MAX {
                    left
                } else {
                    u64::MAX as int
                },
                None => self@.remaining(now as int) is None,
            },
    {
        if !self.pending {
            None
        } else if now >= self.last_signal {
            let elapsed = now - self.last_signal;
            if elapsed >= self.delay {
                Some(0)
            } else {
                Some(self.delay - elapsed)
            }
        } else {
            Some(self.delay.saturating_add(self.last_signal - now))
        }
    }
}

} // verus!
