//! A repeating countdown, advanced by the time that each tick took.
//!
//! The countdown keeps its state as plain nanosecond counts. The arithmetic
//! of one tick is done by the engine's own timer.

use bevy::time::{Timer, TimerMode};
use std::time::Duration;
use vstd::prelude::*;

verus! {

/// The time on a repeating countdown after a tick of `delta` nanoseconds.
pub open spec fn elapsed_after_tick(period: u64, elapsed: u64, delta: u64) -> int {
    let total = elapsed + delta;
    if total < period {
        total
    } else if period == 0 {
        0
    } else {
        total % (period as int)
    }
}

/// How often a repeating countdown completed within a tick of `delta`
/// nanoseconds, as the engine counts it: in 32 bits, so that a count of
/// exactly 2^32 periods (or a multiple of it) reads as zero.
pub open spec fn finishes_in_tick(period: u64, elapsed: u64, delta: u64) -> int {
    let total = elapsed + delta;
    if total < period {
        0
    } else if period == 0 {
        0xffff_ffff
    } else {
        (total / (period as int)) % 0x1_0000_0000
    }
}

/// One tick of `bevy::time::Timer` in `TimerMode::Repeating`: a timer of
/// `period` nanoseconds that stands at `elapsed` is advanced by `delta`
/// (`Timer::new`, `Timer::set_elapsed`, `Timer::tick`); the result is what
/// `Timer::elapsed` and `Timer::times_finished_this_tick` then report.
///
/// Trusted. The contract restates the body of `Timer::tick`: the sum of
/// `elapsed` and `delta` is kept if it is below the period, and is otherwise
/// reduced modulo the period, with the quotient cast to `u32` as the count.
/// A period of zero leaves the time at zero and the count at `u32::MAX`.
#[verifier::external_body]
fn tick_repeating(period: u64, elapsed: u64, delta: u64) -> (r: (u64, u32))
    ensures
        r.0 == elapsed_after_tick(period, elapsed, delta),
        r.1 == finishes_in_tick(period, elapsed, delta),
{
    let mut timer = Timer::new(Duration::from_nanos(period), TimerMode::Repeating);
    timer.set_elapsed(Duration::from_nanos(elapsed));
    timer.tick(Duration::from_nanos(delta));
    (timer.elapsed().as_nanos() as u64, timer.times_finished_this_tick())
}

/// A countdown that starts over each time its period has passed.
#[derive(Clone, Copy, Debug, PartialEq, Eq, Structural)]
pub struct RepeatingTimer {
    /// Length of one period, in nanoseconds.
    pub period: u64,
    /// Time into the current period, in nanoseconds.
    pub elapsed: u64,
    /// Number of periods that the latest tick completed.
    pub times_finished_this_tick: u32,
}

impl RepeatingTimer {
    /// The state of this countdown after a tick of `delta` nanoseconds.
    pub open spec fn spec_tick(self, delta: u64) -> RepeatingTimer {
        RepeatingTimer {
            period: self.period,
            elapsed: elapsed_after_tick(self.period, self.elapsed, delta) as u64,
            times_finished_this_tick: finishes_in_tick(self.period, self.elapsed, delta) as u32,
        }
    }

    /// Whether the latest tick completed a period.
    pub open spec fn spec_just_finished(self) -> bool {
        self.times_finished_this_tick > 0
    }

    /// The time into the period never reaches the period.
    pub open spec fn in_period(self) -> bool {
        if self.period == 0 {
            self.elapsed == 0
        } else {
            self.elapsed < self.period
        }
    }

    /// A countdown of `period` nanoseconds on which no time has passed.
    pub fn new(period: u64) -> (t: RepeatingTimer)
        ensures
            t == (RepeatingTimer { period, elapsed: 0, times_finished_this_tick: 0 }),
            t.in_period(),
            !t.spec_just_finished(),
    {
        RepeatingTimer { period, elapsed: 0, times_finished_this_tick: 0 }
    }

    /// Advances the countdown by `delta` nanoseconds.
    pub fn tick(&mut self, delta: u64)
        ensures
            *final(self) == old(self).spec_tick(delta),
            final(self).period == old(self).period,
            final(self).in_period(),
    {
        let (elapsed, times): (u64, u32) = tick_repeating(self.period, self.elapsed, delta);
        proof {
            lemma_tick_ranges(self.period, self.elapsed, delta);
        }
        self.elapsed = elapsed;
        self.times_finished_this_tick = times;
    }

    /// Whether the latest tick completed a period.
    pub fn just_finished(&self) -> (fired: bool)
        ensures
            fired == self.spec_just_finished(),
    {
        self.times_finished_this_tick > 0
    }
}

/// The time and the count after a tick fit the integers that hold them.
pub proof fn lemma_tick_ranges(period: u64, elapsed: u64, delta: u64)
    ensures
        0 <= elapsed_after_tick(period, elapsed, delta) <= u64::MAX,
        0 <= finishes_in_tick(period, elapsed, delta) <= u32::MAX,
        period > 0 ==> elapsed_after_tick(period, elapsed, delta) < period,
        period == 0 ==> elapsed_after_tick(period, elapsed, delta) == 0,
{
}

/// A tick that stays below the period only adds to the time, and does not
/// finish; one that reaches the period for the first time finishes once.
pub proof fn lemma_tick_below_and_at_period(timer: RepeatingTimer, delta: u64)
    requires
        timer.period > 0,
        timer.elapsed < timer.period,
    ensures
        timer.elapsed + delta < timer.period ==> {
            &&& timer.spec_tick(delta).elapsed == timer.elapsed + delta
            &&& !timer.spec_tick(delta).spec_just_finished()
        },
        timer.period <= timer.elapsed + delta < 2 * timer.period ==> {
            &&& timer.spec_tick(delta).elapsed == timer.elapsed + delta - timer.period
            &&& timer.spec_tick(delta).times_finished_this_tick == 1
        },
{
    lemma_tick_ranges(timer.period, timer.elapsed, delta);
    let total = timer.elapsed + delta;
    let p = timer.period as int;
    if p <= total < 2 * p {
        assert(total / p == 1 && total % p == total - p) by (nonlinear_arith)
            requires
                p > 0,
                p <= total < 2 * p,
        ;
    }
}

} // verus!
