//! The convergence-streak policy shared by the adaptive summations.
//!
//! A summation feeds one observation per term: whether that term was
//! negligible relative to the running sum. The sum is accepted once a fixed
//! number of consecutive observations were negligible; a single small term
//! inside a slowly converging series is not enough.
use vstd::prelude::*;

verus! {

/// Consecutive negligible terms after which a convergent series is accepted.
pub const SERIES_STREAK: u32 = 4;

/// Consecutive negligible terms after which the small-argument Bessel power
/// series is accepted.
pub const POWER_SERIES_STREAK: u32 = 2;

/// Length of the run of `true` entries at the end of `h`.
pub open spec fn trailing_run(h: Seq<bool>) -> nat
    decreases h.len(),
{
    if h.len() == 0 || !h.last() {
        0
    } else {
        trailing_run(h.drop_last()) + 1
    }
}

/// The last `k` observations of `h` exist and all passed.
pub open spec fn last_all_pass(h: Seq<bool>, k: nat) -> bool {
    k <= h.len() && forall|i: int| h.len() - k <= i < h.len() ==> #[trigger] h[i]
}

pub open spec fn min_nat(a: nat, b: nat) -> nat {
    if a <= b {
        a
    } else {
        b
    }
}

/// Counts consecutive negligible terms, up to the required streak length.
pub struct ConvergenceStreak {
    pub required: u32,
    pub run: u32,
    /// Every observation recorded so far, oldest first.
    pub history: Ghost<Seq<bool>>,
}

impl ConvergenceStreak {
    pub open spec fn wf(&self) -> bool {
        &&& self.required > 0
        &&& self.run as nat == min_nat(trailing_run(self.history@), self.required as nat)
    }

    pub fn new(required: u32) -> (r: ConvergenceStreak)
        requires
            required > 0,
        ensures
            r.wf(),
            r.required == required,
            r.history@ == Seq::<bool>::empty(),
            r.run == 0,
    {
        ConvergenceStreak { required, run: 0, history: Ghost(Seq::empty()) }
    }

    /// Records whether the newest term was negligible.
    pub fn record(&mut self, negligible: bool)
        requires
            old(self).wf(),
        ensures
            final(self).wf(),
            final(self).required == old(self).required,
            final(self).history@ == old(self).history@.push(negligible),
            final(self).run == (if !negligible {
                0
            } else if old(self).run < old(self).required {
                old(self).run + 1
            } else {
                old(self).required as int
            }),
    {
        let ghost h = self.history@.push(negligible);
        assert(h.drop_last() =~= self.history@);
        if negligible {
            if self.run < self.required {
                self.run = self.run + 1;
            }
        } else {
            self.run = 0;
        }
        self.history = Ghost(h);
    }

    /// The series has converged: the last `required` observations all passed.
    pub fn is_converged(&self) -> (r: bool)
        requires
            self.wf(),
        ensures
            r == (self.run == self.required),
            r == last_all_pass(self.history@, self.required as nat),
    {
        proof {
            lemma_trailing_run_all_pass(self.history@, self.required as nat);
        }
        self.run == self.required
    }
}

/// The stopping decision depends on the observations alone: two streaks of
/// the same length that saw the same observations agree on their run and on
/// convergence. So summations of `c f(n)` and of `f(n)` whose ratios of term
/// to running sum fall on the same side of the tolerance stop after the same
/// terms.
pub proof fn lemma_streak_depends_on_observations(a: ConvergenceStreak, b: ConvergenceStreak)
    requires
        a.wf(),
        b.wf(),
        a.required == b.required,
        a.history@ == b.history@,
    ensures
        a.run == b.run,
        last_all_pass(a.history@, a.required as nat) == last_all_pass(b.history@, b.required as nat),
{
}

/// The last `k` entries of `h` all pass exactly when the trailing run of
/// passing entries is at least `k` long.
pub proof fn lemma_trailing_run_all_pass(h: Seq<bool>, k: nat)
    ensures
        (trailing_run(h) >= k) == last_all_pass(h, k),
    decreases h.len(),
{
    lemma_trailing_run_bound(h);
    if k == 0 {
    } else if h.len() == 0 {
    } else if !h.last() {
        assert(!h[h.len() - 1]);
    } else {
        let t = h.drop_last();
        lemma_trailing_run_all_pass(t, (k - 1) as nat);
        if trailing_run(h) >= k {
            assert forall|i: int| h.len() - k <= i < h.len() implies #[trigger] h[i] by {
                if i < h.len() - 1 {
                    assert(t[i] == h[i]);
                }
            }
        }
        if last_all_pass(h, k) {
            assert forall|i: int| t.len() - (k - 1) <= i < t.len() implies #[trigger] t[i] by {
                assert(h[i]);
            }
        }
    }
}

pub proof fn lemma_trailing_run_bound(h: Seq<bool>)
    ensures
        trailing_run(h) <= h.len(),
    decreases h.len(),
{
    if h.len() > 0 && h.last() {
        lemma_trailing_run_bound(h.drop_last());
    }
}

} // verus!
