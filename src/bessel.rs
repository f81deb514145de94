//! Regime dispatch for the Bessel function of the first kind, `J_n(x)`.
//!
//! The evaluator first reduces to a non-negative order and argument with the
//! reflection identities `J_n(-x) = (-1)^n J_n(x)` and `J_{-n}(x) = (-1)^n J_n(x)`,
//! then picks one evaluation method. The order of the checks is load-bearing:
//! each method is only numerically stable where every earlier one was ruled out.
use vstd::prelude::*;

verus! {

/// Orders below this are scaled by `(x/2)^n / n!` through the gamma function;
/// from here on `n!` overflows a double and the log-gamma function is used.
pub const FACTORIAL_LIMIT: u32 = 171;

/// The evaluation methods, in the order in which they are tried.
#[derive(PartialEq, Eq, Structural, Clone, Copy, Debug)]
pub enum Regime {
    /// `J_0` from the reference implementation.
    OrderZero,
    /// `J_1` from the reference implementation.
    OrderOne,
    /// McMahon's asymptotic expansion, for arguments large against the order.
    LargeArgument,
    /// Forward three-term recurrence from `J_0` and `J_1`, stable while the
    /// order stays below the argument.
    ForwardRecurrence,
    /// The power series about zero, for small arguments or orders large
    /// against the square of the argument.
    PowerSeries,
    /// The reference implementation, where forward recurrence is unstable and
    /// no expansion applies.
    Reference,
}

/// The magnitude comparisons that decide the regime, all made on the
/// non-negative order `n` and argument `x`.
#[derive(PartialEq, Eq, Structural, Clone, Copy, Debug)]
pub struct RegimeTests {
    /// `n` is below the eighth root of the target precision times `x`.
    pub order_below_asymptotic_bound: bool,
    /// `n < x`.
    pub order_below_argument: bool,
    /// `x < 10`, or `n` is large against `x^2`.
    pub small_argument_or_large_order: bool,
}

pub open spec fn regime_of(order: nat, tests: RegimeTests) -> Regime {
    if order == 0 {
        Regime::OrderZero
    } else if order == 1 {
        Regime::OrderOne
    } else if tests.order_below_asymptotic_bound {
        Regime::LargeArgument
    } else if tests.order_below_argument {
        Regime::ForwardRecurrence
    } else if tests.small_argument_or_large_order {
        Regime::PowerSeries
    } else {
        Regime::Reference
    }
}

pub open spec fn is_odd(order: int) -> bool {
    order % 2 != 0
}

/// The reduced value must be negated: each reflection, of the argument and of
/// the order, contributes a factor `(-1)^n`.
pub open spec fn negation_of(order: int, argument_negative: bool) -> bool {
    is_odd(order) && ((order < 0) != argument_negative)
}

/// Picks the evaluation method for the non-negative order `order`.
pub fn select_regime(order: u32, tests: RegimeTests) -> (r: Regime)
    ensures
        r == regime_of(order as nat, tests),
{
    if order == 0 {
        Regime::OrderZero
    } else if order == 1 {
        Regime::OrderOne
    } else if tests.order_below_asymptotic_bound {
        Regime::LargeArgument
    } else if tests.order_below_argument {
        Regime::ForwardRecurrence
    } else if tests.small_argument_or_large_order {
        Regime::PowerSeries
    } else {
        Regime::Reference
    }
}

/// The order that the regimes work with: `|order|`.
pub fn reduced_order(order: i32) -> (r: u32)
    ensures
        r as int == if order < 0 {
            -order
        } else {
            order as int
        },
{
    if order < 0 {
        (-(order as i64)) as u32
    } else {
        order as u32
    }
}

/// Whether `J_order` at an argument of the given sign is minus its value at
/// `|order|` and `|argument|`.
pub fn reflection_negates(order: i32, argument_negative: bool) -> (r: bool)
    ensures
        r == negation_of(order as int, argument_negative),
{
    order % 2 != 0 && ((order < 0) != argument_negative)
}

/// The power-series scale `n!` no longer fits a double, so it is taken in the
/// log domain.
pub fn scales_through_log_gamma(order: u32) -> (r: bool)
    ensures
        r == (order >= FACTORIAL_LIMIT),
{
    order >= FACTORIAL_LIMIT
}

/// Sign symmetry: `J_n(-x)` and `J_n(x)` are evaluated through the same
/// reduced value, and their signs differ exactly when `n` is odd.
pub proof fn lemma_reflection_sign(order: int)
    ensures
        negation_of(order, true) != negation_of(order, false) <==> is_odd(order),
        !is_odd(order) ==> !negation_of(order, true) && !negation_of(order, false),
{
}

/// The base orders are decided by the order alone, whatever the magnitude
/// comparisons say.
pub proof fn lemma_base_orders(tests: RegimeTests)
    ensures
        regime_of(0, tests) == Regime::OrderZero,
        regime_of(1, tests) == Regime::OrderOne,
{
}

} // verus!
