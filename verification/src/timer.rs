//! A fixed-rate timer over a clock that the host reads.
//!
//! The timer never looks at a clock itself. Every operation takes the current
//! time as a count of nanoseconds since some origin of the host's choosing, so
//! that the same sequence of readings always gives the same sequence of ticks.

use vstd::prelude::*;
use vstd::arithmetic::div_mod::{
    lemma_basic_div, lemma_div_non_zero, lemma_fundamental_div_mod, lemma_hoist_over_denominator,
    lemma_mod_bound,
};

verus! {

/// Nanoseconds in one second.
pub const NANOS_PER_SECOND: u64 = 1_000_000_000;

/// What a timer is, as numbers: the time between two ticks, and the instant up
/// to which time has been consumed.
pub struct TimerState {
    pub period: nat,
    pub init: nat,
}

impl TimerState {
    /// The number of whole periods that have gone by at `now` and have not
    /// been consumed yet. A reading that lies before the consumed instant
    /// counts as no time at all.
    pub open spec fn due(self, now: nat) -> nat {
        if now >= self.init {
            (now - self.init) as nat / self.period
        } else {
            0
        }
    }

    /// The timer after `ticks` periods have been consumed.
    pub open spec fn consume(self, ticks: nat) -> TimerState {
        TimerState { period: self.period, init: self.init + ticks * self.period }
    }
}

/// A timer that fires once per period and keeps count of the periods that the
/// caller has not yet asked about. Its period is never zero.
#[derive(Debug)]
pub struct Timer {
    period: u64,
    init: u64,
}

impl View for Timer {
    type V = TimerState;

    closed spec fn view(&self) -> TimerState {
        TimerState { period: self.period as nat, init: self.init as nat }
    }
}

impl Timer {
    #[verifier::type_invariant]
    spec fn period_is_positive(self) -> bool {
        self.period > 0
    }

    /// A timer that ticks `times` times per second, counting from `now`. The
    /// period is a whole number of nanoseconds, rounded down.
    pub fn time_per_second(times: u32, now: u64) -> (timer: Timer)
        requires
            0 < times <= NANOS_PER_SECOND,
        ensures
            timer@ == (TimerState {
                period: (NANOS_PER_SECOND / times as u64) as nat,
                init: now as nat,
            }),
    {
        let period: u64 = NANOS_PER_SECOND / (times as u64);
        proof {
            lemma_div_non_zero(NANOS_PER_SECOND as int, times as int);
        }
        Timer::with_period(period, now)
    }

    /// A timer with `period` nanoseconds between ticks, counting from `now`.
    pub fn with_period(period: u64, now: u64) -> (timer: Timer)
        requires
            period > 0,
        ensures
            timer@ == (TimerState { period: period as nat, init: now as nat }),
    {
        Timer { period, init: now }
    }

    /// The time between two ticks, in nanoseconds.
    pub fn period(&self) -> (period: u64)
        ensures
            period == self@.period,
            period > 0,
    {
        proof {
            use_type_invariant(self);
        }
        self.period
    }

    /// Tells whether a period has gone by at `now`, and if so consumes exactly
    /// one period, so that a caller who is late can catch up tick by tick.
    pub fn tick(&mut self, now: u64) -> (fired: bool)
        ensures
            fired == (old(self)@.due(now as nat) >= 1),
            fired ==> final(self)@ == old(self)@.consume(1),
            fired ==> final(self)@.due(now as nat) == old(self)@.due(now as nat) - 1,
            !fired ==> final(self)@ == old(self)@,
    {
        proof {
            use_type_invariant(&*self);
            lemma_due_at_least_one(self@, now as nat);
            if self@.due(now as nat) >= 1 {
                lemma_consume_some(self@, now as nat, 1);
            }
            assert(1 * self@.period == self@.period) by (nonlinear_arith);
        }
        if now >= self.init && now - self.init >= self.period {
            self.init = self.init + self.period;
            true
        } else {
            false
        }
    }

    /// Consumes every period that has gone by at `now` in one step and tells
    /// how many there were, or `None` if there was none. A caller who is late
    /// does not get to catch up: afterwards no tick is due at `now`.
    pub fn exhaust(&mut self, now: u64) -> (ticks: Option<u64>)
        ensures
            final(self)@ == old(self)@.consume(old(self)@.due(now as nat)),
            final(self)@.due(now as nat) == 0,
            ticks == if old(self)@.due(now as nat) == 0 {
                None
            } else {
                Some(old(self)@.due(now as nat) as u64)
            },
    {
        proof {
            use_type_invariant(&*self);
            lemma_consume_all(self@, now as nat);
            assert(0 * self@.period == 0) by (nonlinear_arith);
        }
        if now < self.init {
            return None;
        }
        let count: u64 = (now - self.init) / self.period;
        self.init = self.init + count * self.period;
        if count == 0 {
            None
        } else {
            Some(count)
        }
    }
}

/// A tick is due exactly when a full period separates `now` from the consumed
/// instant.
pub proof fn lemma_due_at_least_one(state: TimerState, now: nat)
    requires
        state.period > 0,
    ensures
        state.due(now) >= 1 <==> now >= state.init + state.period,
{
    if now >= state.init {
        let elapsed = (now - state.init) as int;
        let period = state.period as int;
        lemma_fundamental_div_mod(elapsed, period);
        lemma_mod_bound(elapsed, period);
        if elapsed < period {
            lemma_basic_div(elapsed, period);
        } else {
            assert(elapsed / period >= 1) by (nonlinear_arith)
                requires
                    elapsed == period * (elapsed / period) + elapsed % period,
                    elapsed % period < period,
                    elapsed >= period,
                    period > 0,
            ;
        }
    }
}

/// Consuming `ticks` of the periods that are due at `now` never moves the
/// consumed instant past `now`, and leaves the others due.
pub proof fn lemma_consume_some(state: TimerState, now: nat, ticks: nat)
    requires
        state.period > 0,
        ticks <= state.due(now),
    ensures
        ticks > 0 ==> state.consume(ticks).init <= now,
        state.consume(ticks).due(now) == state.due(now) - ticks,
{
    let period = state.period as int;
    if now >= state.init {
        let elapsed = (now - state.init) as int;
        lemma_fundamental_div_mod(elapsed, period);
        lemma_mod_bound(elapsed, period);
        assert(ticks * period <= elapsed) by (nonlinear_arith)
            requires
                elapsed == period * (elapsed / period) + elapsed % period,
                0 <= elapsed % period,
                0 <= ticks <= elapsed / period,
                period > 0,
        ;
        lemma_hoist_over_denominator(elapsed, -(ticks as int), state.period);
        assert(elapsed + (-(ticks as int)) * period == elapsed - ticks * period)
            by (nonlinear_arith);
    } else {
        assert(ticks * period == 0) by (nonlinear_arith)
            requires
                ticks == 0,
        ;
    }
}

/// Consuming no period changes nothing.
pub proof fn lemma_consume_none(state: TimerState)
    ensures
        state.consume(0) == state,
{
    assert(0 * state.period == 0) by (nonlinear_arith);
}

/// Consuming some periods and then some more is consuming them all at once.
pub proof fn lemma_consume_adds(state: TimerState, first: nat, second: nat)
    ensures
        state.consume(first).consume(second) == state.consume(first + second),
{
    assert(first * state.period + second * state.period == (first + second) * state.period)
        by (nonlinear_arith);
}

/// Once every due period has been consumed, none is due.
pub proof fn lemma_consume_all(state: TimerState, now: nat)
    requires
        state.period > 0,
    ensures
        state.consume(state.due(now)).due(now) == 0,
        state.due(now) > 0 ==> state.consume(state.due(now)).init <= now,
        state.due(now) <= now,
{
    lemma_consume_some(state, now, state.due(now));
    if now >= state.init {
        let elapsed = (now - state.init) as int;
        let period = state.period as int;
        lemma_fundamental_div_mod(elapsed, period);
        lemma_mod_bound(elapsed, period);
        assert(elapsed / period <= elapsed) by (nonlinear_arith)
            requires
                elapsed == period * (elapsed / period) + elapsed % period,
                0 <= elapsed % period,
                elapsed >= 0,
                period > 0,
        ;
    }
}

} // verus!
