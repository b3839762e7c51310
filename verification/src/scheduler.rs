//! The real-time publication scheduler.
//!
//! One frame must leave per nominal period, with sub-millisecond cadence,
//! on an operating system whose sleep primitives are far too coarse; the
//! loop therefore busy-polls a monotonic clock. Each poll hands the
//! scheduler the nanoseconds elapsed since the last send; the scheduler
//! fires when they reach the firing threshold less the carried
//! compensation, and then carries the overshoot past the threshold forward
//! as the next tick's compensation, so that one tick's lateness shortens
//! the next interval instead of accumulating.
//!
//! All times are nanoseconds.

use vstd::prelude::*;

verus! {

/// The calibration constants of one deployment: the nominal period
/// between sends and the measured fixed costs paid every tick (advancing
/// the sample, re-serializing the frame, issuing the send, and the
/// granularity of the timer read).
pub struct TimingConfig {
    pub nominal_period: u64,
    pub next_cost: u64,
    pub serialize_cost: u64,
    pub send_cost: u64,
    pub timer_margin: u64,
}

impl TimingConfig {
    /// The constants are usable when the fixed costs fit inside one
    /// period.
    pub open spec fn wf(self) -> bool {
        self.next_cost + self.serialize_cost + self.send_cost + self.timer_margin
            <= self.nominal_period
    }

    /// The firing threshold: the nominal period with every fixed
    /// per-tick cost subtracted, so that the next send still lands near
    /// the true period boundary.
    pub fn threshold(&self) -> (t: u64)
        requires
            self.wf(),
        ensures
            t == self.nominal_period - self.next_cost - self.serialize_cost - self.send_cost
                - self.timer_margin,
    {
        self.nominal_period - self.next_cost - self.serialize_cost - self.send_cost
            - self.timer_margin
    }
}

/// Whether a tick fires: the elapsed time plus the carried compensation
/// reaches the threshold.
pub open spec fn fires(threshold: int, compensation: int, elapsed: int) -> bool {
    elapsed + compensation >= threshold
}

/// The compensation carried out of a firing tick: the overshoot past the
/// plain threshold, clamped to never go negative.
pub open spec fn comp_next(threshold: int, compensation: int, elapsed: int) -> int {
    if elapsed > threshold {
        elapsed - threshold
    } else {
        0
    }
}

/// A tick's overshoot past its effective (compensated) threshold.
pub open spec fn overshoot(threshold: int, compensation: int, elapsed: int) -> int {
    elapsed + compensation - threshold
}

/// The scheduler's whole state: the fixed firing threshold and the
/// compensation carried from the last firing tick.
pub struct Scheduler {
    pub threshold: u64,
    pub compensation: u64,
}

impl Scheduler {
    /// A scheduler that has nothing to compensate yet.
    pub fn new(threshold: u64) -> (s: Scheduler)
        ensures
            s.threshold == threshold,
            s.compensation == 0,
    {
        Scheduler { threshold, compensation: 0 }
    }

    /// One poll of the busy-wait loop. Fires exactly when the elapsed
    /// time plus the carried compensation reaches the threshold; a firing
    /// tick replaces the compensation by its own overshoot past the plain
    /// threshold, and a non-firing tick changes nothing.
    pub fn poll(&mut self, elapsed: u64) -> (fire: bool)
        ensures
            final(self).threshold == old(self).threshold,
            fire == fires(
                old(self).threshold as int,
                old(self).compensation as int,
                elapsed as int,
            ),
            fire ==> final(self).compensation == comp_next(
                old(self).threshold as int,
                old(self).compensation as int,
                elapsed as int,
            ),
            !fire ==> final(self).compensation == old(self).compensation,
    {
        let fire = if self.compensation >= self.threshold {
            true
        } else {
            elapsed >= self.threshold - self.compensation
        };
        if fire {
            self.compensation = if elapsed > self.threshold {
                elapsed - self.threshold
            } else {
                0
            };
        }
        fire
    }
}

/// Every reading of a simulated run fires, tick after tick.
pub open spec fn run_fires(threshold: int, compensation: int, es: Seq<int>) -> bool
    decreases es.len(),
{
    es.len() == 0 || (fires(threshold, compensation, es[0]) && run_fires(
        threshold,
        comp_next(threshold, compensation, es[0]),
        es.drop_first(),
    ))
}

/// The compensation carried after a run of firing ticks.
pub open spec fn comp_after(threshold: int, compensation: int, es: Seq<int>) -> int
    decreases es.len(),
{
    if es.len() == 0 {
        compensation
    } else {
        comp_after(threshold, comp_next(threshold, compensation, es[0]), es.drop_first())
    }
}

/// The sum of a run of elapsed readings.
pub open spec fn total(es: Seq<int>) -> int
    decreases es.len(),
{
    if es.len() == 0 {
        0
    } else {
        es[0] + total(es.drop_first())
    }
}

/// The sum of the per-tick overshoots over a run of firing ticks.
pub open spec fn total_overshoot(threshold: int, compensation: int, es: Seq<int>) -> int
    decreases es.len(),
{
    if es.len() == 0 {
        0
    } else {
        overshoot(threshold, compensation, es[0]) + total_overshoot(
            threshold,
            comp_next(threshold, compensation, es[0]),
            es.drop_first(),
        )
    }
}

/// Drift stays bounded: over any simulated run of firing ticks, the sum
/// of the actual fire intervals is at least the run's worth of nominal
/// thresholds, less the compensation consumed and plus the compensation
/// still carried, and exceeds the nominal total by at most the overshoots
/// the polls themselves added — compensation never lets lateness
/// accumulate beyond what the polls observed.
pub proof fn lemma_drift_bounded(threshold: int, compensation: int, es: Seq<int>)
    requires
        threshold >= 0,
        compensation >= 0,
        run_fires(threshold, compensation, es),
    ensures
        es.len() * threshold - compensation + comp_after(threshold, compensation, es) <= total(es),
        total(es) <= es.len() * threshold + total_overshoot(threshold, compensation, es),
        total_overshoot(threshold, compensation, es) >= 0,
        comp_after(threshold, compensation, es) >= 0,
    decreases es.len(),
{
    if es.len() != 0 {
        let c1 = comp_next(threshold, compensation, es[0]);
        lemma_drift_bounded(threshold, c1, es.drop_first());
        assert((es.len() - 1) * threshold == es.len() * threshold - threshold) by (nonlinear_arith);
    }
}

/// A single overshoot is subtracted exactly once: whatever one firing
/// tick ran over, the pair of it and the next firing tick together exceed
/// two thresholds by no more than the second tick's own overshoot.
pub proof fn lemma_overshoot_absorbed(threshold: int, compensation: int, e1: int, e2: int)
    requires
        threshold >= 0,
        compensation >= 0,
        fires(threshold, compensation, e1),
        fires(threshold, comp_next(threshold, compensation, e1), e2),
    ensures
        e1 + e2 <= 2 * threshold + overshoot(
            threshold,
            comp_next(threshold, compensation, e1),
            e2,
        ),
{
}

/// With ideal polling — every tick firing exactly at its compensated
/// threshold, and no initial carry — the long-run cadence is exact: the
/// run's total time is exactly the run's worth of thresholds.
pub proof fn lemma_exact_cadence(threshold: int, es: Seq<int>)
    requires
        threshold >= 0,
        run_fires(threshold, 0, es),
        total_overshoot(threshold, 0, es) == 0,
    ensures
        total(es) == es.len() * threshold,
{
    lemma_drift_bounded(threshold, 0, es);
}

} // verus!
