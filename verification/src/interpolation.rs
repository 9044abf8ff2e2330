//! Linear interpolation of property values, and checked narrowing of engine
//! values to smaller integer widths.
//!
//! The engine computes every property as an `i64`. Interpolation weights are
//! fixed-point fractions with denominator [`NORM_UNIT`](crate::NORM_UNIT) and
//! may leave `[0, NORM_UNIT]` for overshooting easing curves. Results are
//! rounded half away from zero, and saturate at the `i64` range; narrowing a
//! value into a smaller destination type is a checked, fallible step.

use vstd::prelude::*;

use crate::NORM_UNIT;

verus! {

/// Errors surfaced by the engine.
#[derive(Clone, Copy, Debug, PartialEq, Eq, Structural)]
pub enum AnimationError {
    /// An interpolated value does not fit the narrower destination type.
    ValueOutOfRange,
    /// A timeline was configured with a cycle duration that is not positive,
    /// so elapsed times cannot be normalized.
    DegenerateTimeWindow,
}

/// Largest interpolation weight accepted by [`lerp`]. Every easing value the
/// engine produces is far below this; the bound only keeps the intermediate
/// product inside `i128`.
pub const MAX_LERP_WEIGHT: i64 = 4000000;

/// Division truncating toward zero, as the `/` operator of the executable
/// integer types computes it.
pub open spec fn spec_tdiv(n: int, d: int) -> int {
    if n >= 0 {
        n / d
    } else {
        -((-n) / d)
    }
}

/// Division rounding half away from zero.
pub open spec fn spec_rdiv(n: int, d: int) -> int {
    if n >= 0 {
        (n + d / 2) / d
    } else {
        -((-n + d / 2) / d)
    }
}

/// Clamps a mathematical integer into the `i64` range.
pub open spec fn spec_saturate(n: int) -> int {
    if n > i64::MAX {
        i64::MAX as int
    } else if n < i64::MIN {
        i64::MIN as int
    } else {
        n
    }
}

/// The interpolated value between `a` and `b` at weight `y` (with
/// [`NORM_UNIT`] standing for 100%): `a + (b - a) * y / NORM_UNIT`, rounded
/// half away from zero and saturated at the `i64` range.
pub open spec fn spec_lerp(a: i64, b: i64, y: int) -> int {
    spec_saturate(a + spec_rdiv((b - a) * y, NORM_UNIT as int))
}

/// Truncating division shrinks magnitudes: a numerator within `b * d` of zero
/// divides to a quotient within `b` of zero.
pub proof fn lemma_tdiv_bound(n: int, d: int, b: int)
    requires
        d >= 1,
        b >= 0,
        -(b * d) <= n <= b * d,
    ensures
        -b <= spec_tdiv(n, d) <= b,
{
    vstd::arithmetic::div_mod::lemma_div_by_multiple(b, d);
    if n >= 0 {
        vstd::arithmetic::div_mod::lemma_div_is_ordered(n, b * d, d);
        vstd::arithmetic::div_mod::lemma_div_pos_is_pos(n, d);
    } else {
        vstd::arithmetic::div_mod::lemma_div_is_ordered(-n, b * d, d);
        vstd::arithmetic::div_mod::lemma_div_pos_is_pos(-n, d);
    }
}

/// Interpolating between equal endpoints yields that endpoint, whatever the
/// weight: easing cannot move a property that both bounding frames agree on.
pub proof fn lemma_lerp_constant(a: i64, y: int)
    ensures
        spec_lerp(a, a, y) == a,
{
    assert((a - a) * y == 0) by (nonlinear_arith);
    assert(spec_rdiv(0, NORM_UNIT as int) == 0);
}

/// Interpolating at weight zero yields the start value exactly.
pub proof fn lemma_lerp_at_zero(a: i64, b: i64)
    ensures
        spec_lerp(a, b, 0) == a,
{
    assert((b - a) * 0 == 0) by (nonlinear_arith);
    assert(spec_rdiv(0, NORM_UNIT as int) == 0);
}

/// Truncating division on `i64`, matching [`spec_tdiv`].
pub fn tdiv(n: i64, d: i64) -> (r: i64)
    requires
        d >= 1,
        n > i64::MIN,
    ensures
        r == spec_tdiv(n as int, d as int),
{
    if n >= 0 {
        n / d
    } else {
        -((-n) / d)
    }
}

/// Linear interpolation between `a` (weight 0) and `b` (weight [`NORM_UNIT`]).
///
/// Weights outside `[0, NORM_UNIT]` extrapolate, which is how overshooting
/// easing curves move past their endpoints.
pub fn lerp(a: i64, b: i64, y: i64) -> (r: i64)
    requires
        -MAX_LERP_WEIGHT <= y <= MAX_LERP_WEIGHT,
    ensures
        r == spec_lerp(a, b, y as int),
{
    let delta: i128 = b as i128 - a as i128;
    proof {
        assert(delta * (y as i128) <= 80000000000000000000000000
            && delta * (y as i128) >= -80000000000000000000000000) by (nonlinear_arith)
            requires
                -20000000000000000000 <= delta <= 20000000000000000000,
                -4000000 <= y <= 4000000,
        ;
    }
    let num: i128 = delta * y as i128;
    let scaled: i128 = if num >= 0 {
        (num + (NORM_UNIT / 2) as i128) / NORM_UNIT as i128
    } else {
        -((-num + (NORM_UNIT / 2) as i128) / NORM_UNIT as i128)
    };
    let sum: i128 = a as i128 + scaled;
    if sum > i64::MAX as i128 {
        i64::MAX
    } else if sum < i64::MIN as i128 {
        i64::MIN
    } else {
        sum as i64
    }
}

/// Narrows an engine value to `u8`, failing with
/// [`AnimationError::ValueOutOfRange`] when it does not fit.
pub fn narrow_to_u8(v: i64) -> (r: Result<u8, AnimationError>)
    ensures
        0 <= v <= u8::MAX ==> r == Ok::<u8, AnimationError>(v as u8),
        !(0 <= v <= u8::MAX) ==> r == Err::<u8, AnimationError>(AnimationError::ValueOutOfRange),
{
    if 0 <= v && v <= u8::MAX as i64 {
        Ok(v as u8)
    } else {
        Err(AnimationError::ValueOutOfRange)
    }
}

/// Narrows an engine value to `i32`, failing with
/// [`AnimationError::ValueOutOfRange`] when it does not fit.
pub fn narrow_to_i32(v: i64) -> (r: Result<i32, AnimationError>)
    ensures
        i32::MIN <= v <= i32::MAX ==> r == Ok::<i32, AnimationError>(v as i32),
        !(i32::MIN <= v <= i32::MAX) ==> r == Err::<i32, AnimationError>(
            AnimationError::ValueOutOfRange,
        ),
{
    if i32::MIN as i64 <= v && v <= i32::MAX as i64 {
        Ok(v as i32)
    } else {
        Err(AnimationError::ValueOutOfRange)
    }
}

} // verus!
