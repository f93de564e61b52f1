//! The repeating interval clock that paces sprite animation.

use bevy::time::{Timer, TimerMode};
use std::time::Duration;
use vstd::arithmetic::div_mod::{lemma_fundamental_div_mod, lemma_mod_bound, lemma_small_mod};
use vstd::prelude::*;

verus! {

/// Period of the animation clock of every actor, in every animation state:
/// a tenth of a second.
pub const ANIMATION_PERIOD_NANOS: u64 = 100_000_000;

/// Completed periods are counted in 32 bits.
pub const PERIOD_COUNT_LIMIT: u64 = 0x1_0000_0000;

/// The mathematical content of an [`AnimationClock`], in nanoseconds.
pub struct ClockModel {
    pub period: nat,
    pub elapsed: nat,
}

impl ClockModel {
    /// The time on the clock is less than one period; a clock of period zero
    /// holds no time.
    pub open spec fn wf(self) -> bool {
        self.elapsed == 0 || self.elapsed < self.period
    }

    /// The clock after `delta` more nanoseconds: what is left once every
    /// completed period is taken off.
    pub open spec fn ticked(self, delta: nat) -> ClockModel {
        ClockModel {
            period: self.period,
            elapsed: if self.period == 0 {
                0
            } else {
                (self.elapsed + delta) % self.period
            },
        }
    }

    /// The number of periods completed by `delta` more nanoseconds, as the
    /// 32-bit counter reports it: the true number modulo 2^32, and the largest
    /// 32-bit value for a clock of period zero.
    pub open spec fn times_finished(self, delta: nat) -> nat {
        if self.period == 0 {
            (PERIOD_COUNT_LIMIT - 1) as nat
        } else {
            ((self.elapsed + delta) / self.period) % (PERIOD_COUNT_LIMIT as nat)
        }
    }

    /// Whether a tick of `delta` nanoseconds reports that the interval elapsed.
    pub open spec fn fires(self, delta: nat) -> bool {
        self.times_finished(delta) > 0
    }
}

/// Advances a fresh repeating `bevy::time::Timer` of the given period,
/// preset to `elapsed` with `Timer::set_elapsed`, by one `Timer::tick` of
/// `delta`, and reads back `Timer::elapsed` and `Timer::just_finished`. All
/// times are in nanoseconds.
///
/// Trusted: the timer adds `delta` to the elapsed time, keeps the remainder
/// modulo the period, and counts the completed periods in a `u32` by a
/// truncating cast; `just_finished` tells whether that count is nonzero. A
/// period of zero finishes on every tick and leaves no time on the clock.
#[verifier::external_body]
fn repeating_timer_tick(period: u64, elapsed: u64, delta: u64) -> (r: (u64, bool))
    ensures
        period == 0 ==> r.0 == 0 && r.1,
        period > 0 ==> r.0 == (elapsed + delta) % (period as int),
        period > 0 ==> r.1 == (((elapsed + delta) / (period as int)) % 0x1_0000_0000 > 0),
{
    let mut timer = Timer::new(Duration::from_nanos(period), TimerMode::Repeating);
    timer.set_elapsed(Duration::from_nanos(elapsed));
    timer.tick(Duration::from_nanos(delta));
    (timer.elapsed().as_nanos() as u64, timer.just_finished())
}

/// A repeating interval clock with nanosecond resolution.
#[derive(Debug, Clone, Copy, PartialEq, Eq)]
pub struct AnimationClock {
    period: u64,
    elapsed: u64,
}

impl View for AnimationClock {
    type V = ClockModel;

    closed spec fn view(&self) -> ClockModel {
        ClockModel { period: self.period as nat, elapsed: self.elapsed as nat }
    }
}

impl AnimationClock {
    /// Holds of every value of this type.
    #[verifier::type_invariant]
    pub open spec fn inv(&self) -> bool {
        self@.wf()
    }

    /// A clock of the given period with no time on it.
    pub fn new(period_nanos: u64) -> (clock: AnimationClock)
        ensures
            clock@ == (ClockModel { period: period_nanos as nat, elapsed: 0 }),
            clock@.wf(),
    {
        AnimationClock { period: period_nanos, elapsed: 0 }
    }

    /// The period, in nanoseconds.
    pub fn period_nanos(&self) -> (period: u64)
        ensures
            period == self@.period,
    {
        self.period
    }

    /// The time on the clock since the last completed period, in nanoseconds.
    pub fn elapsed_nanos(&self) -> (elapsed: u64)
        ensures
            elapsed == self@.elapsed,
            self@.wf(),
    {
        proof {
            use_type_invariant(self);
        }
        self.elapsed
    }

    /// Advances the clock by `delta_nanos` and tells whether the interval
    /// elapsed during this tick.
    pub fn tick(&mut self, delta_nanos: u64) -> (fired: bool)
        ensures
            final(self)@ == old(self)@.ticked(delta_nanos as nat),
            final(self)@.wf(),
            fired == old(self)@.fires(delta_nanos as nat),
    {
        let (elapsed, fired) = repeating_timer_tick(self.period, self.elapsed, delta_nanos);
        proof {
            if self.period > 0 {
                lemma_mod_bound((self.elapsed + delta_nanos) as int, self.period as int);
            }
        }
        self.elapsed = elapsed;
        fired
    }
}

/// Whatever the tick, the clock then holds less than one period.
pub proof fn lemma_ticked_holds_less_than_period(clock: ClockModel, delta: nat)
    ensures
        clock.ticked(delta).wf(),
        clock.ticked(delta).period == clock.period,
{
    if clock.period > 0 {
        lemma_mod_bound((clock.elapsed + delta) as int, clock.period as int);
    }
}

/// A tick shorter than 2^32 periods fires exactly when the time on the clock
/// reaches the period, and a tick that does not reach it only adds to the
/// time on the clock.
pub proof fn lemma_fires_when_period_reached(clock: ClockModel, delta: nat)
    requires
        clock.period > 0,
        clock.elapsed + delta < PERIOD_COUNT_LIMIT * clock.period,
    ensures
        clock.fires(delta) <==> clock.elapsed + delta >= clock.period,
        !clock.fires(delta) ==> clock.ticked(delta).elapsed == clock.elapsed + delta,
        clock.ticked(delta).wf(),
{
    let total = (clock.elapsed + delta) as int;
    let period = clock.period as int;
    let limit = PERIOD_COUNT_LIMIT as int;
    let count = total / period;
    let rest = total % period;
    lemma_fundamental_div_mod(total, period);
    lemma_mod_bound(total, period);
    assert(total >= period ==> count >= 1) by (nonlinear_arith)
        requires
            total == period * count + rest,
            0 <= rest < period,
    ;
    assert(total < period ==> count == 0 && rest == total) by (nonlinear_arith)
        requires
            total == period * count + rest,
            0 <= rest < period,
            0 <= total,
    ;
    assert(0 <= count < limit) by (nonlinear_arith)
        requires
            total == period * count + rest,
            0 <= rest < period,
            0 <= total < limit * period,
    ;
    lemma_small_mod(count as nat, PERIOD_COUNT_LIMIT as nat);
}

} // verus!
