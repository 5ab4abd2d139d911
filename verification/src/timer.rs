//! Repeating countdown timers that gate the two spawners, and the law that a
//! repeating timer fires exactly once per elapsed period.

use vstd::prelude::*;
use crate::ELAPSED_MAX_MS;
use crate::ENEMY_SPAWN_TIME_MS;
use crate::METEOR_SPAWN_TIME_MS;
use vstd::arithmetic::div_mod::lemma_fundamental_div_mod;
use vstd::arithmetic::div_mod::lemma_fundamental_div_mod_converse_div;
use vstd::arithmetic::div_mod::lemma_fundamental_div_mod_converse_mod;
use vstd::arithmetic::mul::lemma_mul_is_distributive_add;

verus! {

/// Longest period a timer may be built with, in milliseconds.
pub const PERIOD_MAX_MS: u64 = 1000000000;

/// A repeating countdown timer.
///
/// `acc_ms` accumulates elapsed time and stays below the period; each call of
/// [`Timer::tick`] rolls it over and records how many whole periods were
/// crossed during that call.
#[derive(Clone, Copy, PartialEq, Eq, Structural, Debug)]
pub struct Timer {
    /// Time accumulated since the last period boundary, in milliseconds.
    pub acc_ms: u64,
    /// The fixed period, in milliseconds.
    pub period_ms: u64,
    /// How many period boundaries the most recent tick crossed.
    pub times_finished: u64,
}

impl Timer {
    /// A timer the systems will accept: positive bounded period, accumulator
    /// strictly below it.
    pub open spec fn wf(self) -> bool {
        0 < self.period_ms <= PERIOD_MAX_MS && self.acc_ms < self.period_ms
    }

    /// A fresh repeating timer with the given period.
    pub fn new(period_ms: u64) -> (t: Timer)
        requires
            0 < period_ms <= PERIOD_MAX_MS,
        ensures
            t.wf(),
            t.period_ms == period_ms,
            t.acc_ms == 0,
            t.times_finished == 0,
    {
        Timer { acc_ms: 0, period_ms, times_finished: 0 }
    }

    /// Advance the timer by `delta_ms`: the accumulator rolls over modulo the
    /// period, and the tick records exactly how many period boundaries the
    /// added time crossed.
    pub fn tick(&mut self, delta_ms: u64)
        requires
            old(self).wf(),
            delta_ms <= ELAPSED_MAX_MS,
        ensures
            final(self).wf(),
            final(self).period_ms == old(self).period_ms,
            final(self).acc_ms == (old(self).acc_ms + delta_ms) % (old(self).period_ms as int),
            final(self).times_finished == (old(self).acc_ms + delta_ms) / (
            old(self).period_ms as int),
    {
        let total: u64 = self.acc_ms + delta_ms;
        self.times_finished = total / self.period_ms;
        self.acc_ms = total % self.period_ms;
    }

    /// Whether the most recent tick crossed at least one period boundary.
    pub fn finished(&self) -> (r: bool)
        ensures
            r == (self.times_finished >= 1),
    {
        self.times_finished >= 1
    }
}

/// Gates periodic enemy creation.
#[derive(Clone, Copy, PartialEq, Eq, Structural, Debug)]
pub struct EnemySpawnTimer {
    pub timer: Timer,
}

impl Default for EnemySpawnTimer {
    /// A repeating enemy spawn timer with the standard period.
    fn default() -> (t: EnemySpawnTimer)
        ensures
            t.timer.wf(),
            t.timer.period_ms == ENEMY_SPAWN_TIME_MS,
            t.timer.acc_ms == 0,
            t.timer.times_finished == 0,
    {
        EnemySpawnTimer { timer: Timer::new(ENEMY_SPAWN_TIME_MS) }
    }
}

/// Gates periodic meteor creation.
#[derive(Clone, Copy, PartialEq, Eq, Structural, Debug)]
pub struct MeteorSpawnTimer {
    pub timer: Timer,
}

impl Default for MeteorSpawnTimer {
    /// A repeating meteor spawn timer with the standard period.
    fn default() -> (t: MeteorSpawnTimer)
        ensures
            t.timer.wf(),
            t.timer.period_ms == METEOR_SPAWN_TIME_MS,
            t.timer.acc_ms == 0,
            t.timer.times_finished == 0,
    {
        MeteorSpawnTimer { timer: Timer::new(METEOR_SPAWN_TIME_MS) }
    }
}

/// Advance the enemy spawn timer by the tick's elapsed time.
pub fn timer_countdown(spawn_timer: &mut EnemySpawnTimer, delta_ms: u64)
    requires
        old(spawn_timer).timer.wf(),
        delta_ms <= ELAPSED_MAX_MS,
    ensures
        final(spawn_timer).timer.wf(),
        final(spawn_timer).timer.period_ms == old(spawn_timer).timer.period_ms,
        final(spawn_timer).timer.acc_ms == (old(spawn_timer).timer.acc_ms + delta_ms) % (
        old(spawn_timer).timer.period_ms as int),
        final(spawn_timer).timer.times_finished == (old(spawn_timer).timer.acc_ms + delta_ms) / (
        old(spawn_timer).timer.period_ms as int),
{
    spawn_timer.timer.tick(delta_ms);
}

/// Advance the meteor spawn timer by the tick's elapsed time.
pub fn meteor_countdown(spawn_timer: &mut MeteorSpawnTimer, delta_ms: u64)
    requires
        old(spawn_timer).timer.wf(),
        delta_ms <= ELAPSED_MAX_MS,
    ensures
        final(spawn_timer).timer.wf(),
        final(spawn_timer).timer.period_ms == old(spawn_timer).timer.period_ms,
        final(spawn_timer).timer.acc_ms == (old(spawn_timer).timer.acc_ms + delta_ms) % (
        old(spawn_timer).timer.period_ms as int),
        final(spawn_timer).timer.times_finished == (old(spawn_timer).timer.acc_ms + delta_ms) / (
        old(spawn_timer).timer.period_ms as int),
{
    spawn_timer.timer.tick(delta_ms);
}

/// The accumulator left after feeding `deltas` one by one to a repeating
/// timer that starts at `acc0`: each step adds a delta and rolls over modulo
/// the period, exactly as [`Timer::tick`] does.
pub open spec fn acc_after(acc0: int, period: int, deltas: Seq<int>) -> int
    decreases deltas.len(),
{
    if deltas.len() == 0 {
        acc0
    } else {
        acc_after((acc0 + deltas[0]) % period, period, deltas.drop_first())
    }
}

/// How many times a repeating timer that starts at `acc0` reports "finished"
/// while fed `deltas` one by one: the sum over the steps of the period
/// boundaries each step crosses, exactly as [`Timer::tick`] counts them.
pub open spec fn finish_count(acc0: int, period: int, deltas: Seq<int>) -> int
    decreases deltas.len(),
{
    if deltas.len() == 0 {
        0
    } else {
        (acc0 + deltas[0]) / period + finish_count(
            (acc0 + deltas[0]) % period,
            period,
            deltas.drop_first(),
        )
    }
}

/// The sum of a sequence of elapsed times.
pub open spec fn total_of(deltas: Seq<int>) -> int
    decreases deltas.len(),
{
    if deltas.len() == 0 {
        0
    } else {
        deltas[0] + total_of(deltas.drop_first())
    }
}

/// Rolling the accumulator over step by step loses nothing: after any run of
/// ticks the accumulator is the total elapsed time modulo the period, and the
/// number of reported finishes is the total elapsed time divided by the
/// period.
pub proof fn lemma_timer_conservation(acc0: int, period: int, deltas: Seq<int>)
    requires
        period > 0,
        0 <= acc0 < period,
        forall|i: int| 0 <= i < deltas.len() ==> deltas[i] >= 0,
    ensures
        acc_after(acc0, period, deltas) == (acc0 + total_of(deltas)) % period,
        finish_count(acc0, period, deltas) == (acc0 + total_of(deltas)) / period,
    decreases deltas.len(),
{
    if deltas.len() == 0 {
        vstd::arithmetic::div_mod::lemma_small_mod(acc0 as nat, period as nat);
        vstd::arithmetic::div_mod::lemma_basic_div(acc0, period);
    } else {
        let a: int = acc0 + deltas[0];
        let rest: Seq<int> = deltas.drop_first();
        assert(forall|i: int| 0 <= i < rest.len() ==> rest[i] >= 0);
        lemma_timer_conservation(a % period, period, rest);
        let r: int = total_of(rest);
        assert(r >= 0) by {
            lemma_total_nonneg(rest);
        }
        // a + r splits as period * (a / period + (a % period + r) / period)
        // plus the remainder (a % period + r) % period.
        lemma_fundamental_div_mod(a, period);
        lemma_fundamental_div_mod(a % period + r, period);
        let q: int = a / period + (a % period + r) / period;
        let m: int = (a % period + r) % period;
        lemma_mul_is_distributive_add(period, a / period, (a % period + r) / period);
        assert(a + r == q * period + m) by {
            assert(period * q == period * (a / period) + period * ((a % period + r) / period));
            assert(q * period == period * q) by (nonlinear_arith);
        }
        lemma_fundamental_div_mod_converse_mod(a + r, period, q, m);
        lemma_fundamental_div_mod_converse_div(a + r, period, q, m);
    }
}

/// Nonnegative elapsed times sum to a nonnegative total.
pub proof fn lemma_total_nonneg(deltas: Seq<int>)
    requires
        forall|i: int| 0 <= i < deltas.len() ==> deltas[i] >= 0,
    ensures
        total_of(deltas) >= 0,
    decreases deltas.len(),
{
    if deltas.len() > 0 {
        lemma_total_nonneg(deltas.drop_first());
    }
}

/// A repeating timer fed elapsed times that sum to exactly `n` periods
/// reports "finished" exactly `n` times, and ends with an empty accumulator:
/// the period boundary is handled exactly once per crossing.
pub proof fn lemma_timer_fires_once_per_period(period: int, deltas: Seq<int>, n: int)
    requires
        period > 0,
        n >= 0,
        forall|i: int| 0 <= i < deltas.len() ==> deltas[i] >= 0,
        total_of(deltas) == n * period,
    ensures
        finish_count(0, period, deltas) == n,
        acc_after(0, period, deltas) == 0,
{
    lemma_timer_conservation(0, period, deltas);
    lemma_fundamental_div_mod_converse_div(n * period, period, n, 0);
    lemma_fundamental_div_mod_converse_mod(n * period, period, n, 0);
}

} // verus!
