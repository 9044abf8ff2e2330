//! Easing curves: identity for linear easing, exact fixed-point cubic
//! bezier evaluation with inverse lookup, and clamping of out-of-range
//! queries.

use mina::easing::{CubicBezierEasing, Easing, LinearEasing};

#[test]
fn linear_easing_returns_query_unchanged() {
    let linear = LinearEasing;
    assert_eq!(linear.calc(0), 0);
    assert_eq!(linear.calc(250), 250);
    assert_eq!(linear.calc(1000), 1000);
    assert_eq!(Easing::Linear.calc(777), 777);
    // Linear easing extrapolates out-of-range queries.
    assert_eq!(Easing::Linear.calc(-5), -5);
    assert_eq!(Easing::Linear.calc(1300), 1300);
}

#[test]
fn custom_bezier_solves_the_x_polynomial_exactly() {
    // For control points (0, 0) and (0, 1000) the x coordinate at grid
    // parameter t is t^3 / 10^6, so a query of 125 inverts to exactly
    // t = 500, where the y polynomial evaluates to 500.
    let curve = Easing::Custom(CubicBezierEasing::new(0, 0, 0, 1000));
    assert_eq!(curve.calc(0), 0);
    assert_eq!(curve.calc(125), 500);
    assert_eq!(curve.calc(500), 890);
    assert_eq!(curve.calc(1000), 1000);
}

#[test]
fn bezier_easing_clamps_out_of_range_queries() {
    let curve = Easing::Custom(CubicBezierEasing::new(0, 0, 0, 1000));
    assert_eq!(curve.calc(-50), curve.calc(0));
    assert_eq!(curve.calc(1500), curve.calc(1000));
}

#[test]
fn named_curves_pin_their_endpoints() {
    assert_eq!(Easing::Ease.calc(0), 0);
    assert_eq!(Easing::Ease.calc(1000), 1000);
    assert_eq!(Easing::OutBack.calc(0), 0);
    assert_eq!(Easing::OutBack.calc(1000), 1000);
    assert_eq!(Easing::InOutQuad.calc(0), 0);
    assert_eq!(Easing::InOutQuad.calc(1000), 1000);
}

#[test]
fn ease_in_curves_stay_below_ease_out_curves_midway() {
    let ease_in = Easing::InQuad.calc(500);
    let ease_out = Easing::OutQuad.calc(500);
    assert!(ease_in < 500);
    assert!(ease_out > 500);
}
