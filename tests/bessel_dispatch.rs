use numerics_engine::bessel::{
    reduced_order, reflection_negates, scales_through_log_gamma, select_regime, Regime, RegimeTests,
    FACTORIAL_LIMIT,
};

fn tests(asymptotic: bool, below: bool, small: bool) -> RegimeTests {
    RegimeTests {
        order_below_asymptotic_bound: asymptotic,
        order_below_argument: below,
        small_argument_or_large_order: small,
    }
}

#[test]
fn base_orders_ignore_magnitudes() {
    for a in [false, true] {
        for b in [false, true] {
            for c in [false, true] {
                assert_eq!(select_regime(0, tests(a, b, c)), Regime::OrderZero);
                assert_eq!(select_regime(1, tests(a, b, c)), Regime::OrderOne);
            }
        }
    }
}

#[test]
fn regimes_follow_priority_order() {
    assert_eq!(select_regime(2, tests(true, true, true)), Regime::LargeArgument);
    assert_eq!(select_regime(2, tests(true, false, false)), Regime::LargeArgument);
    assert_eq!(select_regime(10, tests(false, true, true)), Regime::ForwardRecurrence);
    assert_eq!(select_regime(400, tests(false, false, true)), Regime::PowerSeries);
    assert_eq!(select_regime(7000, tests(false, false, false)), Regime::Reference);
}

#[test]
fn negative_argument_flips_odd_orders_only() {
    assert!(!reflection_negates(2, true));
    assert!(!reflection_negates(10, true));
    assert!(reflection_negates(3, true));
    assert!(reflection_negates(1, true));
    assert!(!reflection_negates(3, false));
    assert!(!reflection_negates(0, true));
}

#[test]
fn negative_order_reflection() {
    assert!(reflection_negates(-3, false));
    assert!(!reflection_negates(-3, true));
    assert!(!reflection_negates(-4, false));
    assert!(!reflection_negates(-4, true));
}

#[test]
fn sign_symmetry_differs_exactly_for_odd_orders() {
    for order in -9..10 {
        let differs = reflection_negates(order, true) != reflection_negates(order, false);
        assert_eq!(differs, order % 2 != 0);
    }
}

#[test]
fn reduced_order_is_magnitude() {
    assert_eq!(reduced_order(7), 7);
    assert_eq!(reduced_order(-7), 7);
    assert_eq!(reduced_order(0), 0);
    assert_eq!(reduced_order(i32::MIN), 2147483648);
    assert_eq!(reduced_order(i32::MAX), 2147483647);
}

#[test]
fn factorial_scale_switches_at_limit() {
    assert_eq!(FACTORIAL_LIMIT, 171);
    assert!(!scales_through_log_gamma(170));
    assert!(scales_through_log_gamma(171));
    assert!(scales_through_log_gamma(40000));
    assert!(!scales_through_log_gamma(2));
}

#[test]
fn gamma_test_20() {
    let value = libm::tgamma(20.0);
    let factorial_19 = 121645100408832000.0_f64;
    assert!((value - factorial_19).abs() / factorial_19 < 1e-12);
}
