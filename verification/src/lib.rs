//! A keyframe animation engine: timelines evaluate animated property values as
//! a pure function of elapsed time, with delay, repetition, reversal,
//! per-segment easing curves, timeline composition, and state-driven blending.
//!
//! All quantities are integers:
//!
//! * *Times* (delays, durations, elapsed time) are ticks in whatever unit the
//!   caller chooses (for example milliseconds).
//! * *Normalized positions* on a cycle and easing values are fixed-point
//!   fractions with denominator [`NORM_UNIT`], so `NORM_UNIT` stands for 100%.
//! * *Property values* are `i64`; hosts that animate narrower or non-integer
//!   fields convert at the boundary (see [`interpolation`]).

use vstd::prelude::*;

pub mod animation_state;
pub mod animator;
pub mod easing;
pub mod interpolation;
pub mod time_scale;
pub mod timeline;
pub mod timeline_helpers;

verus! {

/// Fixed-point denominator for normalized cycle positions and easing values:
/// a normalized time of `NORM_UNIT` means 100% of a cycle.
pub const NORM_UNIT: i64 = 1000;

/// Largest accepted cycle duration or delay, in ticks. Keeps every product
/// with [`NORM_UNIT`] comfortably inside `i64`.
pub const MAX_CYCLE: i64 = 1000000000000;

/// Largest accepted finite repetition count. Keeps total durations
/// (`delay + cycle_duration * (repetitions + 1)`) inside `i64`.
pub const MAX_REPEATS: u32 = 1000000;

} // verus!
