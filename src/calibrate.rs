//! The decisions of the clock calibration loop for a virtualized cycle
//! counter.
//!
//! The loop measures the average overhead of a trivial round trip whose true
//! cost is negligible. An average outside the tolerance asks the time source
//! to adjust; an average within it counts toward settling. The loop stops once
//! enough averages have been within tolerance, or once it has asked for as
//! many adjustments as it was allowed, so it halts even when the source never
//! comes within tolerance.

use vstd::prelude::*;

verus! {

/// The sum of a sequence of signed values.
pub open spec fn signed_total(s: Seq<i64>) -> int
    decreases s.len(),
{
    if s.len() == 0 {
        0
    } else {
        signed_total(s.drop_last()) + s.last()
    }
}

/// `a / b` rounded toward zero, as integer division in Rust rounds.
pub open spec fn div_toward_zero(a: int, b: int) -> int {
    if a >= 0 {
        a / b
    } else {
        -((-a) / b)
    }
}

/// The average of `deltas`, rounded toward zero; 0 for no deltas.
pub open spec fn average_of(deltas: Seq<i64>) -> int {
    if deltas.len() == 0 {
        0
    } else {
        div_toward_zero(signed_total(deltas), deltas.len() as int)
    }
}

/// The average of the measured overheads, rounded toward zero; 0 when there
/// are none.
pub fn average_overhead(deltas: &[i64]) -> (r: i64)
    ensures
        r == average_of(deltas@),
{
    let n = deltas.len();
    if n == 0 {
        return 0;
    }
    let mut sum: i128 = 0;
    let mut i: usize = 0;
    while i < n
        invariant
            n == deltas@.len(),
            i <= n,
            sum == signed_total(deltas@.subrange(0, i as int)),
            -(i * 0x8000_0000_0000_0000) <= sum <= i * 0x7fff_ffff_ffff_ffff,
        decreases n - i,
    {
        let d = deltas[i];
        proof {
            let next = deltas@.subrange(0, i + 1);
            assert(next.drop_last() =~= deltas@.subrange(0, i as int));
            assert((i + 1) * 0x8000_0000_0000_0000 == i * 0x8000_0000_0000_0000
                + 0x8000_0000_0000_0000) by (nonlinear_arith);
            assert((i + 1) * 0x7fff_ffff_ffff_ffff == i * 0x7fff_ffff_ffff_ffff
                + 0x7fff_ffff_ffff_ffff) by (nonlinear_arith);
            assert((i + 1) * 0x8000_0000_0000_0000 <= 0x7fff_ffff_ffff_ffff_ffff_ffff_ffff_ffff)
                by (nonlinear_arith)
                requires
                    i + 1 <= usize::MAX,
            ;
        }
        sum = sum + d as i128;
        i = i + 1;
    }
    assert(deltas@.subrange(0, n as int) =~= deltas@);
    let count = n as i128;
    if sum >= 0 {
        let q: i128 = sum / count;
        assert(q <= 0x7fff_ffff_ffff_ffff) by (nonlinear_arith)
            requires
                q == sum / count,
                count >= 1,
                0 <= sum <= count * 0x7fff_ffff_ffff_ffff,
        ;
        q as i64
    } else {
        let q: i128 = (-sum) / count;
        assert(0 <= q <= 0x8000_0000_0000_0000) by (nonlinear_arith)
            requires
                q == (-sum) / (count as int),
                count >= 1,
                0 < -(sum as int) <= count * 0x8000_0000_0000_0000,
        ;
        (-q) as i64
    }
}

/// How a calibration ended.
#[derive(Clone, Copy, Debug, PartialEq, Eq, Structural)]
pub enum CalibrationOutcome {
    /// Enough averages were within tolerance.
    Converged,
    /// An average was outside tolerance after every allowed adjustment.
    RetriesExhausted,
}

/// What the calibration loop does after one measured average.
#[derive(Clone, Copy, Debug, PartialEq, Eq, Structural)]
pub enum CalibrationStep {
    /// Ask the time source to adjust, and measure again. `too_low` is set
    /// when the measured overhead was positive.
    Adjust { too_low: bool },
    /// The average was within tolerance: measure again.
    Settle,
    /// Stop measuring.
    Done(CalibrationOutcome),
}

/// The state of a calibration: the tolerance on the average, the averages
/// within tolerance still wanted beyond the next one, and the adjustments
/// still allowed.
#[derive(Clone, Copy, Debug, PartialEq, Eq)]
pub struct Calibration {
    pub tolerance: u64,
    pub settle_left: usize,
    pub retries_left: usize,
}

/// Whether `avg` lies within `tolerance` of zero.
pub open spec fn within_tolerance(avg: int, tolerance: int) -> bool {
    -tolerance <= avg <= tolerance
}

/// One step of the calibration loop on a measured average: the next state and
/// what to do.
pub open spec fn next_step(c: Calibration, avg: i64) -> (Calibration, CalibrationStep) {
    if !within_tolerance(avg as int, c.tolerance as int) {
        if c.retries_left == 0 {
            (c, CalibrationStep::Done(CalibrationOutcome::RetriesExhausted))
        } else {
            (
                Calibration { retries_left: (c.retries_left - 1) as usize, ..c },
                CalibrationStep::Adjust { too_low: avg > 0 },
            )
        }
    } else if c.settle_left == 0 {
        (c, CalibrationStep::Done(CalibrationOutcome::Converged))
    } else {
        (Calibration { settle_left: (c.settle_left - 1) as usize, ..c }, CalibrationStep::Settle)
    }
}

/// The steps that a calibration may still take before it must stop.
pub open spec fn budget(c: Calibration) -> nat {
    (c.settle_left + c.retries_left) as nat
}

/// Whether the loop stops within the averages `avgs`, fed in order.
pub open spec fn stops_within(c: Calibration, avgs: Seq<i64>) -> bool
    decreases avgs.len(),
{
    if avgs.len() == 0 {
        false
    } else {
        let (next, step) = next_step(c, avgs[0]);
        step is Done || stops_within(next, avgs.drop_first())
    }
}

/// How many averages the loop consumes before it stops, when it stops within
/// `avgs`.
pub open spec fn rounds_to_stop(c: Calibration, avgs: Seq<i64>) -> nat
    decreases avgs.len(),
{
    if avgs.len() == 0 {
        0
    } else {
        let (next, step) = next_step(c, avgs[0]);
        if step is Done {
            1
        } else {
            1 + rounds_to_stop(next, avgs.drop_first())
        }
    }
}

impl Calibration {
    /// A calibration that stops after `settle_rounds + 1` averages within
    /// `tolerance`, or once an average lies outside it after
    /// `max_adjustments` adjustments.
    pub fn new(tolerance: u64, settle_rounds: usize, max_adjustments: usize) -> (r: Calibration)
        ensures
            r == (Calibration {
                tolerance,
                settle_left: settle_rounds,
                retries_left: max_adjustments,
            }),
    {
        Calibration { tolerance, settle_left: settle_rounds, retries_left: max_adjustments }
    }

    /// Takes one measured average and says what to do next.
    pub fn step(&mut self, avg: i64) -> (r: CalibrationStep)
        ensures
            (*final(self), r) == next_step(*old(self), avg),
    {
        let within = (avg as i128) >= -(self.tolerance as i128) && (avg as i128) <= (
        self.tolerance as i128);
        if !within {
            if self.retries_left == 0 {
                CalibrationStep::Done(CalibrationOutcome::RetriesExhausted)
            } else {
                self.retries_left = self.retries_left - 1;
                CalibrationStep::Adjust { too_low: avg > 0 }
            }
        } else if self.settle_left == 0 {
            CalibrationStep::Done(CalibrationOutcome::Converged)
        } else {
            self.settle_left = self.settle_left - 1;
            CalibrationStep::Settle
        }
    }
}

/// The calibration loop always halts: fed any averages at all, it stops
/// within its budget of settling rounds and adjustments, plus one.
pub proof fn lemma_calibration_halts(c: Calibration, avgs: Seq<i64>)
    requires
        avgs.len() > budget(c),
    ensures
        stops_within(c, avgs),
        rounds_to_stop(c, avgs) <= budget(c) + 1,
    decreases avgs.len(),
{
    let (next, step) = next_step(c, avgs[0]);
    if !(step is Done) {
        assert(budget(next) + 1 == budget(c));
        lemma_calibration_halts(next, avgs.drop_first());
    }
}

} // verus!
