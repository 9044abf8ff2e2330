//! Value interpolation and checked narrowing. Interpolation weights use
//! 1000 for 100%, and results round half away from zero.

use mina::interpolation::{lerp, narrow_to_i32, narrow_to_u8, AnimationError};

#[test]
fn lerp_narrow_type_full_range() {
    assert_eq!(lerp(0, 255, 0), 0);
    assert_eq!(lerp(0, 255, 250), 64);
    assert_eq!(lerp(0, 255, 500), 128);
    assert_eq!(lerp(0, 255, 1000), 255);
}

#[test]
fn lerp_narrow_type_partial_range() {
    assert_eq!(lerp(-64, 64, 0), -64);
    assert_eq!(lerp(-64, 64, 250), -32);
    assert_eq!(lerp(-64, 64, 500), 0);
    assert_eq!(lerp(-64, 64, 1000), 64);
}

#[test]
fn lerp_empty_range() {
    assert_eq!(lerp(500, 500, 0), 500);
    assert_eq!(lerp(500, 500, 123), 500);
    assert_eq!(lerp(500, 500, 1000), 500);
}

#[test]
fn lerp_extrapolates_overshooting_weights() {
    assert_eq!(lerp(0, 100, 1200), 120);
    assert_eq!(lerp(0, 100, -200), -20);
}

#[test]
fn narrowing_in_range_values_succeeds() {
    assert_eq!(narrow_to_u8(0), Ok(0u8));
    assert_eq!(narrow_to_u8(255), Ok(255u8));
    assert_eq!(narrow_to_i32(-7), Ok(-7i32));
}

#[test]
fn narrowing_out_of_range_values_fails() {
    assert_eq!(narrow_to_u8(256), Err(AnimationError::ValueOutOfRange));
    assert_eq!(narrow_to_u8(-1), Err(AnimationError::ValueOutOfRange));
    assert_eq!(narrow_to_i32(5000000000), Err(AnimationError::ValueOutOfRange));
}
