//! Level control of the double-exponential (tanh-sinh) quadrature.
//!
//! The integrand is first evaluated at the centre of `[-1, 1]`; each level
//! of the abscissa table then adds pairs of symmetric points `±x`. After a
//! level, the difference between consecutive estimates (`delta`) decides how
//! far the estimate can be trusted.
use vstd::prelude::*;

verus! {

/// Levels after which `delta` says nothing yet about the convergence rate.
pub const WARM_UP_LEVELS: u32 = 2;

/// How the error of the current estimate is judged after a level.
#[derive(PartialEq, Eq, Structural, Clone, Copy, Debug)]
pub enum ErrorModel {
    /// Within the first levels: keep refining.
    WarmUp,
    /// `delta` is exactly zero: the estimate is exact, error zero.
    Exact,
    /// `ln(delta) / ln(previous delta)` is close to 2: the error is `delta^2`.
    Quadratic,
    /// Only a decreasing error is assumed: the error is `delta`.
    Linear,
}

/// Levels of the abscissa table.
pub const LEVELS: u32 = 7;

/// Abscissas are taken at `x = tanh(pi/2 sinh t)` for `0 < t <= T_RANGE`.
pub const T_RANGE: u32 = 3;

/// Integrand evaluations once every level of the table is used: the centre
/// and both points of each pair.
pub const MAX_EVALUATIONS: u32 = 385;

pub open spec fn pow2(k: nat) -> nat
    decreases k,
{
    if k == 0 {
        1
    } else {
        2 * pow2((k - 1) as nat)
    }
}

/// Pairs added by `level`: the points `t = j / 2^level` of `(0, T_RANGE]`
/// that no earlier level has, so all of `j = 1, 2, 3` on level 0 and the odd
/// `j` on the later ones.
pub open spec fn level_size(level: nat) -> nat {
    if level == 0 {
        T_RANGE as nat
    } else {
        (T_RANGE * pow2((level - 1) as nat)) as nat
    }
}

/// The numerator `j` of the `i`-th new point `t = j / 2^level` of `level`.
pub open spec fn level_numerator(level: nat, i: int) -> int {
    if level == 0 {
        i + 1
    } else {
        2 * i + 1
    }
}

/// Pairs in the first `levels` levels.
pub open spec fn pairs_through(levels: nat) -> nat
    decreases levels,
{
    if levels == 0 {
        0
    } else {
        pairs_through((levels - 1) as nat) + level_size((levels - 1) as nat)
    }
}

/// The table grows as `3, 6, 12, ...` pairs, which caps a whole run at
/// `MAX_EVALUATIONS` evaluations.
pub proof fn lemma_table_size(levels: nat)
    requires
        levels <= LEVELS,
    ensures
        levels > 0 ==> pairs_through(levels) == T_RANGE * pow2((levels - 1) as nat),
        1 + 2 * pairs_through(levels) <= MAX_EVALUATIONS,
        levels == LEVELS ==> 1 + 2 * pairs_through(levels) == MAX_EVALUATIONS,
        levels < LEVELS ==> level_size(levels) <= 96,
{
    reveal_with_fuel(pairs_through, 8);
    reveal_with_fuel(pow2, 7);
}

/// `t = j / 2^level` is one of the points that `level` adds.
pub open spec fn new_at(level: nat, j: int) -> bool {
    exists|i: int| 0 <= i < level_size(level) && #[trigger] level_numerator(level, i) == j
}

/// `t = j / 2^level` is a point of `level` or of an earlier level.
pub open spec fn taken_through(level: nat, j: int) -> bool
    decreases level,
{
    new_at(level, j) || (level > 0 && j % 2 == 0 && taken_through((level - 1) as nat, j / 2))
}

/// The levels are nested: the points of `level` and of all earlier levels,
/// each written over the step `2^-level`, are exactly `t = j / 2^level` for
/// `1 <= j <= T_RANGE 2^level`.
pub proof fn lemma_levels_nest(level: nat, j: int)
    ensures
        taken_through(level, j) <==> 1 <= j <= T_RANGE * pow2(level),
    decreases level,
{
    if level == 0 {
        assert(pow2(0) == 1);
        if 1 <= j <= 3 {
            assert(level_numerator(0, j - 1) == j);
        }
    } else {
        let p = pow2((level - 1) as nat);
        assert(pow2(level) == 2 * p);
        assert(level_size(level) == 3 * p);
        lemma_levels_nest((level - 1) as nat, j / 2);
        if j % 2 != 0 && 1 <= j <= 3 * pow2(level) {
            assert(level_numerator(level, (j - 1) / 2) == j);
        }
        if new_at(level, j) {
            let i = choose|i: int| 0 <= i < level_size(level) && #[trigger] level_numerator(level, i) == j;
            assert(j == 2 * i + 1);
        }
    }
}

/// The number of pairs that `level` adds.
pub fn level_pairs(level: u32) -> (r: u32)
    requires
        level < LEVELS,
    ensures
        r as nat == level_size(level as nat),
{
    if level == 0 {
        return T_RANGE;
    }
    let mut size: u32 = T_RANGE;
    let mut k: u32 = 1;
    while k < level
        invariant
            1 <= k <= level,
            level < LEVELS,
            size as nat == level_size(k as nat),
        decreases level - k,
    {
        proof {
            lemma_table_size((k + 1) as nat);
        }
        size = size * 2;
        k = k + 1;
    }
    size
}

/// The numerators `j` of the new points `t = j / 2^level` of `level`.
pub fn level_numerators(level: u32) -> (r: Vec<u32>)
    requires
        level < LEVELS,
    ensures
        r@.len() == level_size(level as nat),
        forall|i: int| 0 <= i < r@.len() ==> #[trigger] r@[i] as int == level_numerator(level as nat, i),
{
    let size = level_pairs(level);
    proof {
        lemma_table_size(level as nat);
    }
    let mut out: Vec<u32> = Vec::new();
    let mut i: u32 = 0;
    while i < size
        invariant
            size as nat == level_size(level as nat),
            size <= 96,
            i <= size,
            out@.len() == i,
            forall|j: int| 0 <= j < i ==> #[trigger] out@[j] as int == level_numerator(level as nat, j),
        decreases size - i,
    {
        if level == 0 {
            out.push(i + 1);
        } else {
            out.push(2 * i + 1);
        }
        i = i + 1;
    }
    out
}

pub open spec fn model_of(levels: nat, delta_is_zero: bool, ratio_near_two: bool) -> ErrorModel {
    if levels <= WARM_UP_LEVELS {
        ErrorModel::WarmUp
    } else if delta_is_zero {
        ErrorModel::Exact
    } else if ratio_near_two {
        ErrorModel::Quadratic
    } else {
        ErrorModel::Linear
    }
}

pub open spec fn halts_on(model: ErrorModel, error_below_target: bool) -> bool {
    match model {
        ErrorModel::WarmUp => false,
        ErrorModel::Exact => true,
        _ => error_below_target,
    }
}

/// The levels completed so far and the integrand evaluations they took.
pub struct LevelProgress {
    pub levels: u32,
    pub evaluations: u32,
}

impl LevelProgress {
    /// One evaluation at the centre, then two for each pair of each level.
    pub open spec fn wf(&self) -> bool {
        &&& self.levels <= LEVELS
        &&& self.evaluations as nat == 1 + 2 * pairs_through(self.levels as nat)
    }

    /// The state after the evaluation at the centre.
    pub fn new() -> (r: LevelProgress)
        ensures
            r.wf(),
            r.levels == 0,
            r.evaluations == 1,
    {
        LevelProgress { levels: 0, evaluations: 1 }
    }

    /// Whether every level of the table has been used.
    pub fn exhausted(&self) -> (r: bool)
        requires
            self.wf(),
        ensures
            r == (self.levels == LEVELS),
            r ==> self.evaluations == MAX_EVALUATIONS,
    {
        proof {
            lemma_table_size(self.levels as nat);
        }
        self.levels == LEVELS
    }

    /// Records that the next level of the table has been evaluated.
    pub fn record_level(&mut self)
        requires
            old(self).wf(),
            old(self).levels < LEVELS,
        ensures
            final(self).wf(),
            final(self).levels == old(self).levels + 1,
            final(self).evaluations == old(self).evaluations + 2 * level_size(old(self).levels as nat),
            final(self).evaluations <= MAX_EVALUATIONS,
    {
        proof {
            lemma_table_size(self.levels as nat);
            lemma_table_size((self.levels + 1) as nat);
        }
        let pairs = level_pairs(self.levels);
        self.evaluations = self.evaluations + 2 * pairs;
        self.levels = self.levels + 1;
    }

    /// Judges the estimate after the latest level.
    pub fn classify(&self, delta_is_zero: bool, ratio_near_two: bool) -> (r: ErrorModel)
        ensures
            r == model_of(self.levels as nat, delta_is_zero, ratio_near_two),
    {
        if self.levels <= WARM_UP_LEVELS {
            ErrorModel::WarmUp
        } else if delta_is_zero {
            ErrorModel::Exact
        } else if ratio_near_two {
            ErrorModel::Quadratic
        } else {
            ErrorModel::Linear
        }
    }
}

/// Whether the integration stops after a level judged by `model`, given
/// whether the resulting error estimate is below the target.
pub fn halts(model: ErrorModel, error_below_target: bool) -> (r: bool)
    ensures
        r == halts_on(model, error_below_target),
{
    match model {
        ErrorModel::WarmUp => false,
        ErrorModel::Exact => true,
        _ => error_below_target,
    }
}

/// An exactly vanishing `delta` past the warm-up always stops the
/// integration, and never during it.
pub proof fn lemma_exact_delta_halts(levels: nat, ratio_near_two: bool, error_below_target: bool)
    ensures
        levels > WARM_UP_LEVELS ==> halts_on(model_of(levels, true, ratio_near_two), error_below_target),
        levels <= WARM_UP_LEVELS ==> !halts_on(model_of(levels, true, ratio_near_two), error_below_target),
{
}

} // verus!
