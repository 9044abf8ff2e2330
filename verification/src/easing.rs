//! Easing (timing) functions: the standard library of named cubic-bezier
//! curves, plus ad-hoc cubic-bezier curves.
//!
//! A curve maps a normalized progress `x` (fixed-point, [`NORM_UNIT`] being
//! 100%) to an eased progress `y`. The curve's endpoints are fixed at `(0, 0)`
//! and `(NORM_UNIT, NORM_UNIT)`; only the two control points vary. Because the
//! bezier's `x` coordinate is not linear in the curve parameter, evaluation
//! first inverts the `x` polynomial — it finds the smallest grid parameter
//! whose `x` coordinate reaches the query — and then reads the `y` polynomial
//! there. Eased progress may leave `[0, NORM_UNIT]` for overshooting curves
//! such as [`Easing::OutBack`].

use vstd::prelude::*;

use crate::interpolation::{lemma_tdiv_bound, spec_tdiv, tdiv};
use crate::NORM_UNIT;

verus! {

/// Largest magnitude accepted for a control point's `y` coordinate, allowing
/// overshoot while keeping polynomial evaluation inside `i64`.
pub const EASE_OVERSHOOT_MAX: i64 = 2000;

/// Largest magnitude an eased progress value can reach, given the control
/// point bounds of [`CubicBezierEasing::wf`].
pub const EASE_VALUE_MAX: i64 = 13000;

/// Numerator of a cubic bezier coordinate at grid parameter `t`, for a curve
/// whose endpoints sit at `0` and [`NORM_UNIT`] with control coordinates `p1`
/// and `p2`; the coordinate itself is this divided by `NORM_UNIT` cubed.
pub open spec fn spec_bezier_num(p1: int, p2: int, t: int) -> int {
    3 * (NORM_UNIT - t) * (NORM_UNIT - t) * t * p1 + 3 * (NORM_UNIT - t) * t * t * p2 + t * t * t
        * NORM_UNIT
}

/// A cubic bezier coordinate `B(t)` on the [`NORM_UNIT`] grid:
/// `(1-u)^3*0 + 3(1-u)^2 u p1 + 3(1-u) u^2 p2 + u^3 * 1` for `u = t/NORM_UNIT`,
/// scaled so that both parameter and result are fixed-point fractions.
pub open spec fn spec_bezier_coord(p1: int, p2: int, t: int) -> int {
    spec_tdiv(spec_bezier_num(p1, p2, t), NORM_UNIT * NORM_UNIT * NORM_UNIT)
}

/// The smallest grid parameter at or after `t` whose `x` coordinate reaches
/// `x`, or [`NORM_UNIT`] when none does earlier.
pub open spec fn spec_bezier_param_from(x1: int, x2: int, x: int, t: int) -> int
    decreases NORM_UNIT - t,
{
    if t >= NORM_UNIT {
        NORM_UNIT as int
    } else if spec_bezier_coord(x1, x2, t) >= x {
        t
    } else {
        spec_bezier_param_from(x1, x2, x, t + 1)
    }
}

/// The smallest grid parameter whose `x` coordinate reaches `x`.
pub open spec fn spec_bezier_param(x1: int, x2: int, x: int) -> int {
    spec_bezier_param_from(x1, x2, x, 0)
}

/// A normalized progress clamped into `[0, NORM_UNIT]`; bezier evaluation
/// tolerates out-of-range queries by clamping.
pub open spec fn spec_clamp_norm(x: int) -> int {
    if x < 0 {
        0
    } else if x > NORM_UNIT {
        NORM_UNIT as int
    } else {
        x
    }
}

/// At the final grid parameter, both bezier coordinates reach [`NORM_UNIT`],
/// whatever the control points.
pub proof fn lemma_bezier_terminal(p1: int, p2: int)
    ensures
        spec_bezier_coord(p1, p2, NORM_UNIT as int) == NORM_UNIT,
{
    assert(NORM_UNIT == 1000);
    let s = NORM_UNIT as int;
    assert(3 * (s - s) * (s - s) * s * p1 == 0) by (nonlinear_arith);
    assert(3 * (s - s) * s * s * p2 == 0) by (nonlinear_arith);
    assert(s * s * s * s == 1000000000000) by (nonlinear_arith)
        requires
            s == 1000,
    ;
    assert(spec_bezier_num(p1, p2, s) == 1000000000000);
    vstd::arithmetic::div_mod::lemma_fundamental_div_mod_converse(
        1000000000000,
        1000000000,
        1000,
        0,
    );
}

/// At grid parameter zero, both bezier coordinates are zero, whatever the
/// control points.
pub proof fn lemma_bezier_origin(p1: int, p2: int)
    ensures
        spec_bezier_coord(p1, p2, 0) == 0,
{
    assert(NORM_UNIT == 1000);
    let s = NORM_UNIT as int;
    assert(3 * (s - 0) * (s - 0) * 0 * p1 == 0) by (nonlinear_arith);
    assert(3 * (s - 0) * 0 * 0 * p2 == 0) by (nonlinear_arith);
    assert(0 * 0 * 0 * s == 0) by (nonlinear_arith);
    assert(spec_bezier_num(p1, p2, 0) == 0);
    vstd::arithmetic::div_mod::lemma_fundamental_div_mod_converse(0, 1000000000, 0, 0);
}

/// Every well-formed easing starts at zero: eased progress is `0` exactly
/// at query `0`, so interpolation at an interval's opening frame returns
/// that frame's value.
pub proof fn lemma_ease_at_zero(e: Easing)
    requires
        e.wf(),
    ensures
        spec_ease(e, 0) == 0,
{
    if !(e is Linear) {
        let cp = spec_control_points(e);
        assert(cp.wf());
        lemma_bezier_origin(cp.x1 as int, cp.x2 as int);
        assert(spec_clamp_norm(0) == 0);
        assert(spec_bezier_param_from(cp.x1 as int, cp.x2 as int, 0, 0) == 0);
        lemma_bezier_origin(cp.y1 as int, cp.y2 as int);
    }
}

/// One bezier coordinate at a grid parameter, computed exactly.
fn bezier_coord(p1: i64, p2: i64, t: i64) -> (r: i64)
    requires
        -EASE_OVERSHOOT_MAX <= p1 <= EASE_OVERSHOOT_MAX,
        -EASE_OVERSHOOT_MAX <= p2 <= EASE_OVERSHOOT_MAX,
        0 <= t <= NORM_UNIT,
    ensures
        r == spec_bezier_coord(p1 as int, p2 as int, t as int),
        -EASE_VALUE_MAX <= r <= EASE_VALUE_MAX,
{
    let st = NORM_UNIT - t;
    proof {
        assert(0 <= 3 * st <= 3000 && 0 <= 3 * st * st <= 3000000 && 0 <= 3 * st * st * t
            <= 3000000000 && -6000000000000 <= 3 * st * st * t * p1 <= 6000000000000 && 0 <= 3 * st
            * t <= 3000000 && 0 <= 3 * st * t * t <= 3000000000 && -6000000000000 <= 3 * st * t * t
            * p2 <= 6000000000000 && 0 <= t * t <= 1000000 && 0 <= t * t * t <= 1000000000 && 0 <= t
            * t * t * NORM_UNIT <= 1000000000000) by (nonlinear_arith)
            requires
                0 <= st <= 1000,
                0 <= t <= 1000,
                -2000 <= p1 <= 2000,
                -2000 <= p2 <= 2000,
                NORM_UNIT == 1000,
        ;
    }
    let num = 3 * st * st * t * p1 + 3 * st * t * t * p2 + t * t * t * NORM_UNIT;
    proof {
        lemma_tdiv_bound(num as int, 1000000000, EASE_VALUE_MAX as int);
    }
    tdiv(num, NORM_UNIT * NORM_UNIT * NORM_UNIT)
}

/// The smallest grid parameter whose `x` coordinate reaches `x`: the inverse
/// lookup that bezier easing needs, since `x` is not linear in the parameter.
fn bezier_param(x1: i64, x2: i64, x: i64) -> (t: i64)
    requires
        0 <= x1 <= NORM_UNIT,
        0 <= x2 <= NORM_UNIT,
        0 <= x <= NORM_UNIT,
    ensures
        t == spec_bezier_param(x1 as int, x2 as int, x as int),
        0 <= t <= NORM_UNIT,
        spec_bezier_coord(x1 as int, x2 as int, t as int) >= x,
        forall|u: int| 0 <= u < t ==> spec_bezier_coord(x1 as int, x2 as int, u) < x,
{
    let mut t: i64 = 0;
    let mut c = bezier_coord(x1, x2, 0);
    while c < x
        invariant
            0 <= x1 <= NORM_UNIT,
            0 <= x2 <= NORM_UNIT,
            0 <= x <= NORM_UNIT,
            0 <= t <= NORM_UNIT,
            c == spec_bezier_coord(x1 as int, x2 as int, t as int),
            forall|u: int| 0 <= u < t ==> spec_bezier_coord(x1 as int, x2 as int, u) < x,
            spec_bezier_param(x1 as int, x2 as int, x as int) == spec_bezier_param_from(
                x1 as int,
                x2 as int,
                x as int,
                t as int,
            ),
        decreases NORM_UNIT - t,
    {
        proof {
            if t == NORM_UNIT {
                lemma_bezier_terminal(x1 as int, x2 as int);
                assert(false);
            }
        }
        t = t + 1;
        c = bezier_coord(x1, x2, t);
    }
    t
}

/// Easing function defined by a cubic bezier curve with the start and end
/// points fixed at `(0, 0)` and `(NORM_UNIT, NORM_UNIT)`; only the control
/// points are specified.
///
/// Most named easing functions are cubic bezier curves; values of this type
/// back [`Easing::Custom`] where the named curves do not suffice.
#[derive(Clone, Copy, Debug, PartialEq, Eq, Structural)]
pub struct CubicBezierEasing {
    /// First control point, `x` coordinate; within `[0, NORM_UNIT]` so the
    /// curve stays a function of `x`.
    pub x1: i64,
    /// First control point, `y` coordinate; may leave `[0, NORM_UNIT]` for
    /// overshoot.
    pub y1: i64,
    /// Second control point, `x` coordinate.
    pub x2: i64,
    /// Second control point, `y` coordinate.
    pub y2: i64,
}

impl CubicBezierEasing {
    /// Control point bounds: `x` coordinates inside the unit interval (as CSS
    /// requires of its timing functions), `y` coordinates bounded by
    /// [`EASE_OVERSHOOT_MAX`].
    pub open spec fn wf(&self) -> bool {
        &&& 0 <= self.x1 <= NORM_UNIT
        &&& 0 <= self.x2 <= NORM_UNIT
        &&& -EASE_OVERSHOOT_MAX <= self.y1 <= EASE_OVERSHOOT_MAX
        &&& -EASE_OVERSHOOT_MAX <= self.y2 <= EASE_OVERSHOOT_MAX
    }

    /// Creates a cubic bezier easing with control points `(x1, y1)` and
    /// `(x2, y2)`, each coordinate a fixed-point fraction of [`NORM_UNIT`].
    pub fn new(x1: i64, y1: i64, x2: i64, y2: i64) -> (r: CubicBezierEasing)
        requires
            0 <= x1 <= NORM_UNIT,
            0 <= x2 <= NORM_UNIT,
            -EASE_OVERSHOOT_MAX <= y1 <= EASE_OVERSHOOT_MAX,
            -EASE_OVERSHOOT_MAX <= y2 <= EASE_OVERSHOOT_MAX,
        ensures
            r == (CubicBezierEasing { x1, y1, x2, y2 }),
            r.wf(),
    {
        CubicBezierEasing { x1, y1, x2, y2 }
    }

    /// The eased progress for query `x`: the `y` coordinate at the smallest
    /// grid parameter whose `x` coordinate reaches `x` (clamped into range).
    pub open spec fn spec_calc(&self, x: int) -> int {
        spec_bezier_coord(
            self.y1 as int,
            self.y2 as int,
            spec_bezier_param(self.x1 as int, self.x2 as int, spec_clamp_norm(x)),
        )
    }

    /// Computes the eased progress for a given normalized progress `x`.
    /// Out-of-range queries are clamped into `[0, NORM_UNIT]`.
    pub fn calc(&self, x: i64) -> (r: i64)
        requires
            self.wf(),
        ensures
            r == self.spec_calc(x as int),
            -EASE_VALUE_MAX <= r <= EASE_VALUE_MAX,
    {
        let xc: i64 = if x < 0 {
            0
        } else if x > NORM_UNIT {
            NORM_UNIT
        } else {
            x
        };
        let t = bezier_param(self.x1, self.x2, xc);
        bezier_coord(self.y1, self.y2, t)
    }
}

/// Linear easing, which returns the query progress as the eased progress: the
/// behavior of [`Easing::Linear`].
#[derive(Clone, Copy, Debug, Default)]
pub struct LinearEasing;

impl LinearEasing {
    /// The identity timing function.
    pub fn calc(&self, x: i64) -> (r: i64)
        ensures
            r == x,
    {
        x
    }
}

/// Specifies a standard or custom easing function.
///
/// The named curves cover the CSS standards (`ease`, `ease-in`, `ease-out`,
/// `ease-in-out`) and the common named easings that a cubic bezier can
/// express; [`Easing::Custom`] takes any [`CubicBezierEasing`].
#[derive(Clone, Copy, Debug, Default, PartialEq, Eq, Structural)]
pub enum Easing {
    /// No curve: straight-line interpolation.
    #[default]
    Linear,
    /// Curve equivalent to CSS `ease`.
    Ease,
    /// Curve equivalent to CSS `ease-in`.
    In,
    /// Curve equivalent to CSS `ease-out`.
    Out,
    /// Curve equivalent to CSS `ease-in-out`.
    InOut,
    /// Sinusoidal easing that starts slowly and ends quickly.
    InSine,
    /// Sinusoidal easing that starts quickly and ends slowly.
    OutSine,
    /// Sinusoidal easing that starts and ends slowly.
    InOutSine,
    /// Quadratic easing that starts slowly and ends quickly.
    InQuad,
    /// Quadratic easing that starts quickly and ends slowly.
    OutQuad,
    /// Quadratic easing that starts and ends slowly.
    InOutQuad,
    /// Cubic easing that starts slowly and ends quickly.
    InCubic,
    /// Cubic easing that starts quickly and ends slowly.
    OutCubic,
    /// Cubic easing that starts and ends slowly.
    InOutCubic,
    /// Quartic easing that starts slowly and ends quickly.
    InQuart,
    /// Quartic easing that starts quickly and ends slowly.
    OutQuart,
    /// Quartic easing that starts and ends slowly.
    InOutQuart,
    /// Quintic easing that starts slowly and ends quickly.
    InQuint,
    /// Quintic easing that starts quickly and ends slowly.
    OutQuint,
    /// Quintic easing that starts and ends slowly.
    InOutQuint,
    /// Exponential easing that starts slowly and ends quickly.
    InExpo,
    /// Exponential easing that starts quickly and ends slowly.
    OutExpo,
    /// Exponential easing that starts and ends slowly.
    InOutExpo,
    /// A curve like the lower-right quarter of a circle.
    InCirc,
    /// A curve like the upper-left quarter of a circle.
    OutCirc,
    /// Two circle quarters: starts and ends very slowly.
    InOutCirc,
    /// Moves slightly backward before accelerating forward.
    InBack,
    /// Overshoots the terminal value before settling back on it.
    OutBack,
    /// Moves backward first and overshoots at the end.
    InOutBack,
    /// User-defined cubic bezier easing.
    Custom(CubicBezierEasing),
}

/// The cubic bezier control points behind an easing. [`Easing::Linear`] is
/// evaluated as the identity, never through this table.
pub open spec fn spec_control_points(e: Easing) -> CubicBezierEasing {
    match e {
        Easing::Linear => CubicBezierEasing { x1: 0, y1: 0, x2: 1000, y2: 1000 },
        Easing::Ease => CubicBezierEasing { x1: 250, y1: 100, x2: 250, y2: 1000 },
        Easing::In => CubicBezierEasing { x1: 420, y1: 0, x2: 1000, y2: 1000 },
        Easing::Out => CubicBezierEasing { x1: 0, y1: 0, x2: 580, y2: 1000 },
        Easing::InOut => CubicBezierEasing { x1: 420, y1: 0, x2: 580, y2: 1000 },
        Easing::InSine => CubicBezierEasing { x1: 120, y1: 0, x2: 390, y2: 0 },
        Easing::OutSine => CubicBezierEasing { x1: 610, y1: 1000, x2: 880, y2: 1000 },
        Easing::InOutSine => CubicBezierEasing { x1: 370, y1: 0, x2: 630, y2: 1000 },
        Easing::InQuad => CubicBezierEasing { x1: 110, y1: 0, x2: 500, y2: 0 },
        Easing::OutQuad => CubicBezierEasing { x1: 500, y1: 1000, x2: 890, y2: 1000 },
        Easing::InOutQuad => CubicBezierEasing { x1: 450, y1: 0, x2: 550, y2: 1000 },
        Easing::InCubic => CubicBezierEasing { x1: 320, y1: 0, x2: 670, y2: 0 },
        Easing::OutCubic => CubicBezierEasing { x1: 330, y1: 1000, x2: 680, y2: 1000 },
        Easing::InOutCubic => CubicBezierEasing { x1: 650, y1: 0, x2: 350, y2: 1000 },
        Easing::InQuart => CubicBezierEasing { x1: 500, y1: 0, x2: 750, y2: 0 },
        Easing::OutQuart => CubicBezierEasing { x1: 250, y1: 1000, x2: 500, y2: 1000 },
        Easing::InOutQuart => CubicBezierEasing { x1: 760, y1: 0, x2: 240, y2: 1000 },
        Easing::InQuint => CubicBezierEasing { x1: 640, y1: 0, x2: 780, y2: 0 },
        Easing::OutQuint => CubicBezierEasing { x1: 220, y1: 1000, x2: 360, y2: 1000 },
        Easing::InOutQuint => CubicBezierEasing { x1: 830, y1: 0, x2: 170, y2: 1000 },
        Easing::InExpo => CubicBezierEasing { x1: 700, y1: 0, x2: 840, y2: 0 },
        Easing::OutExpo => CubicBezierEasing { x1: 160, y1: 1000, x2: 300, y2: 1000 },
        Easing::InOutExpo => CubicBezierEasing { x1: 870, y1: 0, x2: 130, y2: 1000 },
        Easing::InCirc => CubicBezierEasing { x1: 550, y1: 0, x2: 1000, y2: 450 },
        Easing::OutCirc => CubicBezierEasing { x1: 0, y1: 550, x2: 450, y2: 1000 },
        Easing::InOutCirc => CubicBezierEasing { x1: 850, y1: 0, x2: 150, y2: 1000 },
        Easing::InBack => CubicBezierEasing { x1: 360, y1: 0, x2: 660, y2: -560i64 },
        Easing::OutBack => CubicBezierEasing { x1: 340, y1: 1560, x2: 640, y2: 1000 },
        Easing::InOutBack => CubicBezierEasing { x1: 680, y1: -600i64, x2: 320, y2: 1600 },
        Easing::Custom(b) => b,
    }
}

/// The eased progress that an easing produces for query `x`: the identity for
/// [`Easing::Linear`], and otherwise the curve's inverse-then-forward bezier
/// evaluation of [`CubicBezierEasing::spec_calc`].
pub open spec fn spec_ease(e: Easing, x: int) -> int {
    match e {
        Easing::Linear => x,
        _ => spec_control_points(e).spec_calc(x),
    }
}

impl Easing {
    /// Custom curves carry well-formed control points; named curves always do.
    pub open spec fn wf(&self) -> bool {
        self matches Easing::Custom(b) ==> b.wf()
    }

    /// The control points behind this easing.
    pub fn control_points(&self) -> (r: CubicBezierEasing)
        requires
            self.wf(),
        ensures
            r == spec_control_points(*self),
            r.wf(),
    {
        match self {
            Easing::Linear => CubicBezierEasing { x1: 0, y1: 0, x2: 1000, y2: 1000 },
            Easing::Ease => CubicBezierEasing { x1: 250, y1: 100, x2: 250, y2: 1000 },
            Easing::In => CubicBezierEasing { x1: 420, y1: 0, x2: 1000, y2: 1000 },
            Easing::Out => CubicBezierEasing { x1: 0, y1: 0, x2: 580, y2: 1000 },
            Easing::InOut => CubicBezierEasing { x1: 420, y1: 0, x2: 580, y2: 1000 },
            Easing::InSine => CubicBezierEasing { x1: 120, y1: 0, x2: 390, y2: 0 },
            Easing::OutSine => CubicBezierEasing { x1: 610, y1: 1000, x2: 880, y2: 1000 },
            Easing::InOutSine => CubicBezierEasing { x1: 370, y1: 0, x2: 630, y2: 1000 },
            Easing::InQuad => CubicBezierEasing { x1: 110, y1: 0, x2: 500, y2: 0 },
            Easing::OutQuad => CubicBezierEasing { x1: 500, y1: 1000, x2: 890, y2: 1000 },
            Easing::InOutQuad => CubicBezierEasing { x1: 450, y1: 0, x2: 550, y2: 1000 },
            Easing::InCubic => CubicBezierEasing { x1: 320, y1: 0, x2: 670, y2: 0 },
            Easing::OutCubic => CubicBezierEasing { x1: 330, y1: 1000, x2: 680, y2: 1000 },
            Easing::InOutCubic => CubicBezierEasing { x1: 650, y1: 0, x2: 350, y2: 1000 },
            Easing::InQuart => CubicBezierEasing { x1: 500, y1: 0, x2: 750, y2: 0 },
            Easing::OutQuart => CubicBezierEasing { x1: 250, y1: 1000, x2: 500, y2: 1000 },
            Easing::InOutQuart => CubicBezierEasing { x1: 760, y1: 0, x2: 240, y2: 1000 },
            Easing::InQuint => CubicBezierEasing { x1: 640, y1: 0, x2: 780, y2: 0 },
            Easing::OutQuint => CubicBezierEasing { x1: 220, y1: 1000, x2: 360, y2: 1000 },
            Easing::InOutQuint => CubicBezierEasing { x1: 830, y1: 0, x2: 170, y2: 1000 },
            Easing::InExpo => CubicBezierEasing { x1: 700, y1: 0, x2: 840, y2: 0 },
            Easing::OutExpo => CubicBezierEasing { x1: 160, y1: 1000, x2: 300, y2: 1000 },
            Easing::InOutExpo => CubicBezierEasing { x1: 870, y1: 0, x2: 130, y2: 1000 },
            Easing::InCirc => CubicBezierEasing { x1: 550, y1: 0, x2: 1000, y2: 450 },
            Easing::OutCirc => CubicBezierEasing { x1: 0, y1: 550, x2: 450, y2: 1000 },
            Easing::InOutCirc => CubicBezierEasing { x1: 850, y1: 0, x2: 150, y2: 1000 },
            Easing::InBack => CubicBezierEasing { x1: 360, y1: 0, x2: 660, y2: -560i64 },
            Easing::OutBack => CubicBezierEasing { x1: 340, y1: 1560, x2: 640, y2: 1000 },
            Easing::InOutBack => CubicBezierEasing { x1: 680, y1: -600i64, x2: 320, y2: 1600 },
            Easing::Custom(b) => *b,
        }
    }

    /// Computes the eased progress for a normalized progress `x`.
    ///
    /// [`Easing::Linear`] forwards `x` unchanged (extrapolating out-of-range
    /// queries); every curve clamps the query into `[0, NORM_UNIT]`.
    pub fn calc(&self, x: i64) -> (r: i64)
        requires
            self.wf(),
        ensures
            r == spec_ease(*self, x as int),
            !(self is Linear) ==> -EASE_VALUE_MAX <= r <= EASE_VALUE_MAX,
    {
        match self {
            Easing::Linear => x,
            _ => {
                let cp = self.control_points();
                cp.calc(x)
            },
        }
    }
}

} // verus!
