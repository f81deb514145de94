//! Refinement schedule of the trapezoidal rule.
//!
//! The subdivision count starts at 2 and doubles at each refinement. A
//! refinement evaluates only the new midpoints, the odd multiples of
//! `1/subdivisions` of the interval, and reuses every earlier evaluation.
use vstd::prelude::*;

verus! {

/// No convergence signal is trusted for an estimate formed with fewer
/// subdivisions than this.
pub const MIN_SUBDIVISIONS: u32 = 16;

/// Refinement stops here whether or not the target was met.
pub const MAX_SUBDIVISIONS: u32 = 65536;

/// What the integrator does after comparing two consecutive estimates.
#[derive(PartialEq, Eq, Structural, Clone, Copy, Debug)]
pub enum TrapeziumStep {
    /// Evaluate the next midpoints and form a new estimate.
    Refine,
    /// The estimate is accepted.
    Converged,
    /// The subdivision cap was reached; the last error is reported as it is.
    Exhausted,
}

pub open spec fn is_pow2(n: nat) -> bool
    decreases n,
{
    if n == 1 {
        true
    } else if n < 1 || n % 2 != 0 {
        false
    } else {
        is_pow2(n / 2)
    }
}

/// The step for a grid whose next refinement uses `subdivisions`: the
/// current estimate was formed with `subdivisions / 2` of them, and only an
/// estimate with at least `MIN_SUBDIVISIONS` is accepted.
pub open spec fn step_of(subdivisions: nat, change_within_target: bool, estimate_negligible: bool) -> TrapeziumStep {
    if subdivisions / 2 >= MIN_SUBDIVISIONS && (change_within_target || estimate_negligible) {
        TrapeziumStep::Converged
    } else if subdivisions >= MAX_SUBDIVISIONS {
        TrapeziumStep::Exhausted
    } else {
        TrapeziumStep::Refine
    }
}

/// The state of a trapezoidal integration: the subdivision count that the
/// next refinement uses, and the integrand evaluations made so far.
pub struct TrapeziumGrid {
    pub subdivisions: u32,
    pub evaluations: u32,
}

impl TrapeziumGrid {
    /// The subdivision count is a power of two within the cap, and the
    /// evaluations are the two endpoints plus every midpoint so far.
    pub open spec fn wf(&self) -> bool {
        &&& 2 <= self.subdivisions <= MAX_SUBDIVISIONS
        &&& is_pow2(self.subdivisions as nat)
        &&& self.evaluations == self.subdivisions / 2 + 1
    }

    /// The grid after evaluating the two endpoints.
    pub fn new() -> (r: TrapeziumGrid)
        ensures
            r.wf(),
            r.subdivisions == 2,
            r.evaluations == 2,
    {
        proof {
            reveal_with_fuel(is_pow2, 2);
        }
        TrapeziumGrid { subdivisions: 2, evaluations: 2 }
    }

    /// Decides from the latest comparison whether to refine again.
    pub fn step(&self, change_within_target: bool, estimate_negligible: bool) -> (r: TrapeziumStep)
        ensures
            r == step_of(self.subdivisions as nat, change_within_target, estimate_negligible),
    {
        if self.subdivisions / 2 >= MIN_SUBDIVISIONS && (change_within_target || estimate_negligible) {
            TrapeziumStep::Converged
        } else if self.subdivisions >= MAX_SUBDIVISIONS {
            TrapeziumStep::Exhausted
        } else {
            TrapeziumStep::Refine
        }
    }

    /// Returns the numerators `k` of the new midpoints `a + (b - a) k / s`,
    /// `s` being the subdivision count before the call, and doubles it.
    pub fn refine(&mut self) -> (r: Vec<u32>)
        requires
            old(self).wf(),
            old(self).subdivisions < MAX_SUBDIVISIONS,
        ensures
            final(self).wf(),
            final(self).subdivisions == 2 * old(self).subdivisions,
            final(self).evaluations == old(self).evaluations + old(self).subdivisions / 2,
            r@.len() == old(self).subdivisions / 2,
            forall|i: int| 0 <= i < r@.len() ==> #[trigger] r@[i] == 2 * i + 1,
            forall|i: int| 0 <= i < r@.len() ==> #[trigger] r@[i] < old(self).subdivisions,
    {
        let half = self.subdivisions / 2;
        let mut numerators: Vec<u32> = Vec::new();
        let mut n: u32 = 0;
        while n < half
            invariant
                half == self.subdivisions / 2,
                self.subdivisions <= MAX_SUBDIVISIONS,
                n <= half,
                numerators@.len() == n,
                forall|i: int| 0 <= i < n ==> #[trigger] numerators@[i] == 2 * i + 1,
            decreases half - n,
        {
            numerators.push(2 * n + 1);
            n = n + 1;
        }
        proof {
            let s = self.subdivisions as nat;
            assert(s % 2 == 0) by {
                reveal_with_fuel(is_pow2, 1);
            }
            assert((2 * s) / 2 == s);
            assert(is_pow2(2 * s)) by {
                reveal_with_fuel(is_pow2, 1);
            }
            assert(is_pow2(MAX_SUBDIVISIONS as nat)) by {
                reveal_with_fuel(is_pow2, 17);
            }
            lemma_pow2_gap(s, MAX_SUBDIVISIONS as nat);
        }
        self.evaluations = self.evaluations + half;
        self.subdivisions = self.subdivisions * 2;
        numerators
    }
}

/// Of two distinct powers of two, the larger is at least twice the smaller.
pub proof fn lemma_pow2_gap(s: nat, t: nat)
    requires
        is_pow2(s),
        is_pow2(t),
        s < t,
    ensures
        2 * s <= t,
    decreases t,
{
    reveal_with_fuel(is_pow2, 1);
    if s != 1 {
        lemma_pow2_gap(s / 2, t / 2);
    }
}

/// At the subdivision cap the step is never `Refine`, whatever the estimates
/// say.
pub proof fn lemma_cap_stops_refinement(subdivisions: nat, change_within_target: bool, estimate_negligible: bool)
    requires
        subdivisions >= MAX_SUBDIVISIONS,
    ensures
        step_of(subdivisions, change_within_target, estimate_negligible) != TrapeziumStep::Refine,
{
}

} // verus!
