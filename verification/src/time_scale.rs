//! Conversion between elapsed time and the normalized positions used by
//! keyframes: delay, repetition and reversal arithmetic.

use vstd::prelude::*;

use crate::timeline::Repeat;
use crate::{MAX_CYCLE, MAX_REPEATS, NORM_UNIT};

verus! {

/// Describes the time scale of a timeline: how elapsed ticks map onto the
/// normalized `[0, NORM_UNIT]` cycle positions that keyframes use.
#[derive(Clone, Copy, Debug, PartialEq, Eq, Structural)]
pub struct TimeScale {
    /// Time to wait before the animation starts. Applies once, not per cycle.
    pub delay: i64,
    /// Duration of a single animation cycle, including the reversal half when
    /// `reverse` is set, but not including `delay`.
    pub duration: i64,
    /// Whether and how many times the animation repeats.
    pub repeat: Repeat,
    /// Whether each cycle animates forward during its first half and backward
    /// during its second half, instead of only forward.
    pub reverse: bool,
}

/// Position of an elapsed time on a time scale.
#[derive(Clone, Copy, Debug, PartialEq, Eq, Structural)]
pub enum TimeScalePosition {
    /// The timeline has not started: the time falls before the configured
    /// delay has elapsed.
    NotStarted,
    /// The timeline is in progress at the held normalized position (from `0`
    /// to [`NORM_UNIT`]), with the held loop information.
    Active(i64, TimeScaleLoopState),
    /// The timeline has already ended. Holds the normalized position reached
    /// at the end: `0` if the time scale reverses, [`NORM_UNIT`] otherwise.
    Ended(i64),
}

/// Loop information attached to an active position.
#[derive(Clone, Copy, Debug, Default, PartialEq, Eq, Structural)]
pub struct TimeScaleLoopState {
    /// Whether at least one entire cycle completed before this position.
    pub is_repeating: bool,
    /// Whether this position lies on the backward half of a reversing cycle.
    pub is_reversing: bool,
}

impl TimeScaleLoopState {
    /// A loop state with the given flags.
    pub fn new(is_repeating: bool, is_reversing: bool) -> (r: TimeScaleLoopState)
        ensures
            r == (TimeScaleLoopState { is_repeating, is_reversing }),
    {
        TimeScaleLoopState { is_repeating, is_reversing }
    }

    /// A loop state that is repeating but not reversing.
    pub fn repeating() -> (r: TimeScaleLoopState)
        ensures
            r == (TimeScaleLoopState { is_repeating: true, is_reversing: false }),
    {
        TimeScaleLoopState { is_repeating: true, is_reversing: false }
    }

    /// A loop state that is both repeating and reversing.
    pub fn repeating_and_reversing() -> (r: TimeScaleLoopState)
        ensures
            r == (TimeScaleLoopState { is_repeating: true, is_reversing: true }),
    {
        TimeScaleLoopState { is_repeating: true, is_reversing: true }
    }

    /// A loop state that is reversing but not repeating.
    pub fn reversing() -> (r: TimeScaleLoopState)
        ensures
            r == (TimeScaleLoopState { is_repeating: false, is_reversing: true }),
    {
        TimeScaleLoopState { is_repeating: false, is_reversing: true }
    }
}

/// Total duration of a timeline, which is unbounded when it repeats forever.
#[derive(Clone, Copy, Debug, PartialEq, Eq, Structural)]
pub enum TimelineDuration {
    /// The timeline ends after this many ticks.
    Finite(i64),
    /// The timeline never ends.
    Infinite,
}

/// Time within the current cycle for an elapsed time `t >= 0` on a cycle of
/// duration `d >= 1`. At an exact cycle boundary after the first full cycle,
/// the position holds at `d` (the end of the previous cycle) instead of
/// resetting to `0`, so that looping animations reach their terminal keyframe.
pub open spec fn spec_cycle_time(t: int, d: int) -> int {
    if t % d == 0 && t / d >= 1 {
        d
    } else {
        t % d
    }
}

/// Whether an elapsed time `t` lies beyond the first cycle, counting an exact
/// boundary as still belonging to the cycle it ends.
pub open spec fn spec_is_repeating(t: int, d: int) -> bool {
    if t % d == 0 && t / d >= 1 {
        t / d > 1
    } else {
        t / d >= 1
    }
}

/// Fraction of the cycle covered by cycle time `ct`, scaled by [`NORM_UNIT`].
pub open spec fn spec_cycle_ratio(ct: int, d: int) -> int {
    ct * NORM_UNIT / d
}

/// Normalized position for cycle time `ct`: the cycle ratio itself, or, on a
/// reversing scale, a position that rises to [`NORM_UNIT`] at half the cycle
/// and falls back to `0` at its end.
pub open spec fn spec_normalized(ct: int, d: int, reverse: bool) -> int {
    let ratio = spec_cycle_ratio(ct, d);
    if reverse {
        if ratio > NORM_UNIT / 2 {
            (NORM_UNIT - ratio) * 2
        } else {
            ratio * 2
        }
    } else {
        ratio
    }
}

/// Whether cycle time `ct` lies on the backward half of a reversing cycle.
pub open spec fn spec_is_reversing(ct: int, d: int, reverse: bool) -> bool {
    reverse && spec_cycle_ratio(ct, d) > NORM_UNIT / 2
}

/// Normalized position reached when a time scale ends.
pub open spec fn spec_end_normalized(reverse: bool) -> int {
    if reverse {
        0
    } else {
        NORM_UNIT as int
    }
}

/// The active position for elapsed time `t` past the delay.
pub open spec fn spec_active_position(t: int, d: int, reverse: bool) -> TimeScalePosition {
    let ct = spec_cycle_time(t, d);
    TimeScalePosition::Active(
        spec_normalized(ct, d, reverse) as i64,
        TimeScaleLoopState {
            is_repeating: spec_is_repeating(t, d),
            is_reversing: spec_is_reversing(ct, d, reverse),
        },
    )
}

/// The position of an arbitrary elapsed time on a time scale: the full
/// delay/repeat/reverse normalization rule.
pub open spec fn spec_position(ts: TimeScale, time: int) -> TimeScalePosition {
    let d = ts.duration as int;
    if time < ts.delay {
        TimeScalePosition::NotStarted
    } else {
        let t = time - ts.delay;
        match ts.repeat {
            Repeat::Once => {
                if t > d {
                    TimeScalePosition::Ended(spec_end_normalized(ts.reverse) as i64)
                } else {
                    TimeScalePosition::Active(
                        spec_normalized(t, d, ts.reverse) as i64,
                        TimeScaleLoopState {
                            is_repeating: false,
                            is_reversing: spec_is_reversing(t, d, ts.reverse),
                        },
                    )
                }
            },
            Repeat::Times(times) => {
                if t > d * (times + 1) {
                    TimeScalePosition::Ended(spec_end_normalized(ts.reverse) as i64)
                } else {
                    spec_active_position(t, d, ts.reverse)
                }
            },
            Repeat::Infinite => spec_active_position(t, d, ts.reverse),
        }
    }
}

impl Default for TimeScale {
    /// A one-second (one [`NORM_UNIT`]-tick) cycle with no delay, played
    /// once, forward.
    fn default() -> (r: TimeScale)
        ensures
            r == (TimeScale { delay: 0, duration: NORM_UNIT, repeat: Repeat::Once, reverse: false }),
            r.wf(),
    {
        TimeScale { delay: 0, duration: NORM_UNIT, repeat: Repeat::Once, reverse: false }
    }
}

impl TimeScale {
    /// Machine bounds on a usable time scale: a positive cycle duration, a
    /// non-negative delay, both small enough that normalization stays inside
    /// `i64`, and a bounded finite repeat count.
    pub open spec fn wf(&self) -> bool {
        &&& 1 <= self.duration <= MAX_CYCLE
        &&& 0 <= self.delay <= MAX_CYCLE
        &&& (self.repeat matches Repeat::Times(k) ==> k <= MAX_REPEATS)
    }

    /// Creates a new time scale.
    ///
    /// A cycle duration of zero cannot normalize any elapsed time, so callers
    /// must reject it first; timeline construction reports it as
    /// [`AnimationError::DegenerateTimeWindow`](crate::interpolation::AnimationError).
    pub fn new(duration: i64, delay: i64, repeat: Repeat, reverse: bool) -> (r: TimeScale)
        requires
            1 <= duration <= MAX_CYCLE,
            0 <= delay <= MAX_CYCLE,
            repeat matches Repeat::Times(k) ==> k <= MAX_REPEATS,
        ensures
            r == (TimeScale { delay, duration, repeat, reverse }),
            r.wf(),
    {
        TimeScale { delay, duration, repeat, reverse }
    }

    /// Gets the duration of a single cycle, irrespective of repetition.
    pub fn get_cycle_duration(&self) -> (r: i64)
        ensures
            r == self.duration,
    {
        self.duration
    }

    /// Gets the delay before animation starts.
    pub fn get_delay(&self) -> (r: i64)
        ensures
            r == self.delay,
    {
        self.delay
    }

    /// Gets the duration of the entire animation: the initial delay plus all
    /// cycle repetitions, or [`TimelineDuration::Infinite`] when the animation
    /// repeats forever.
    pub fn get_duration(&self) -> (r: TimelineDuration)
        requires
            self.wf(),
        ensures
            r == self.spec_duration(),
    {
        match self.repeat {
            Repeat::Infinite => TimelineDuration::Infinite,
            Repeat::Once => TimelineDuration::Finite(self.delay + self.duration),
            Repeat::Times(times) => {
                proof {
                    assert(self.duration * (times + 1) <= MAX_CYCLE * (MAX_REPEATS + 1)
                        && self.duration * (times + 1) >= 0) by (nonlinear_arith)
                        requires
                            1 <= self.duration <= MAX_CYCLE,
                            0 <= times <= MAX_REPEATS,
                    ;
                }
                TimelineDuration::Finite(self.delay + self.duration * (times as i64 + 1))
            },
        }
    }

    /// Total duration as a specification value.
    pub open spec fn spec_duration(&self) -> TimelineDuration {
        match self.repeat {
            Repeat::Infinite => TimelineDuration::Infinite,
            Repeat::Once => TimelineDuration::Finite((self.delay + self.duration) as i64),
            Repeat::Times(times) => TimelineDuration::Finite(
                (self.delay + self.duration * (times + 1)) as i64,
            ),
        }
    }

    /// Gets the repetitions configured for this time scale.
    pub fn get_repeat(&self) -> (r: Repeat)
        ensures
            r == self.repeat,
    {
        self.repeat
    }

    /// Computes the normalized position for an elapsed time, applying the
    /// delay, repeat, and reverse rules of [`spec_position`].
    pub fn get_position(&self, time: i64) -> (r: TimeScalePosition)
        requires
            self.wf(),
        ensures
            r == spec_position(*self, time as int),
    {
        if time < self.delay {
            return TimeScalePosition::NotStarted;
        }
        let t = time - self.delay;
        let (cycle_time, is_repeating): (i64, bool) = match self.repeat {
            Repeat::Once => {
                if t > self.duration {
                    return self.position_ended();
                }
                (t, false)
            },
            Repeat::Times(times) => {
                proof {
                    assert(self.duration * (times + 1) <= MAX_CYCLE * (MAX_REPEATS + 1)
                        && self.duration * (times + 1) >= 0) by (nonlinear_arith)
                        requires
                            1 <= self.duration <= MAX_CYCLE,
                            0 <= times <= MAX_REPEATS,
                    ;
                }
                if t > self.duration * (times as i64 + 1) {
                    return self.position_ended();
                }
                self.cycle_position(t)
            },
            Repeat::Infinite => self.cycle_position(t),
        };
        let cycle_ratio = cycle_time * NORM_UNIT / self.duration;
        let (normalized_time, is_reversing): (i64, bool) = if self.reverse {
            if cycle_ratio > NORM_UNIT / 2 {
                ((NORM_UNIT - cycle_ratio) * 2, true)
            } else {
                (cycle_ratio * 2, false)
            }
        } else {
            (cycle_ratio, false)
        };
        TimeScalePosition::Active(
            normalized_time,
            TimeScaleLoopState { is_repeating, is_reversing },
        )
    }

    /// Cycle time and repeat flag for an elapsed time past the delay. At an
    /// exact cycle boundary the position holds at the end of the previous
    /// cycle rather than resetting, so looping animations reach their terminal
    /// keyframe (see [`spec_cycle_time`]).
    fn cycle_position(&self, t: i64) -> (r: (i64, bool))
        requires
            self.wf(),
            0 <= t,
        ensures
            r.0 == spec_cycle_time(t as int, self.duration as int),
            r.1 == spec_is_repeating(t as int, self.duration as int),
            0 <= r.0 <= self.duration,
    {
        let quot = t / self.duration;
        let rem = t % self.duration;
        if rem == 0 && quot >= 1 {
            (self.duration, quot > 1)
        } else {
            (rem, quot >= 1)
        }
    }

    fn position_ended(&self) -> (r: TimeScalePosition)
        ensures
            r == TimeScalePosition::Ended(spec_end_normalized(self.reverse) as i64),
    {
        let normalized_time: i64 = if self.reverse {
            0
        } else {
            NORM_UNIT
        };
        TimeScalePosition::Ended(normalized_time)
    }
}

/// Times before the delay are not started, and the animation begins at
/// normalized position `0`, not repeating and not reversing, the moment the
/// delay elapses — for every repeat and reverse configuration.
pub proof fn lemma_delay_gating(ts: TimeScale, time: int)
    requires
        ts.wf(),
    ensures
        time < ts.delay ==> spec_position(ts, time) == TimeScalePosition::NotStarted,
        spec_position(ts, ts.delay as int) == TimeScalePosition::Active(
            0,
            TimeScaleLoopState { is_repeating: false, is_reversing: false },
        ),
{
    let d = ts.duration as int;
    vstd::arithmetic::div_mod::lemma_fundamental_div_mod_converse(0, d, 0, 0);
    assert(spec_cycle_time(0, d) == 0);
    assert(spec_cycle_ratio(0, d) == 0) by {
        vstd::arithmetic::div_mod::lemma_fundamental_div_mod_converse(0, d, 0, 0);
    }
}

/// On a repeating time scale that does not reverse, every exact cycle
/// boundary `delay + m * duration` (for the `m`-th completed cycle) holds the
/// terminal normalized position [`NORM_UNIT`]; it counts as repeating exactly
/// when at least one full earlier cycle lies behind it.
pub proof fn lemma_cycle_end_holds_terminal(ts: TimeScale, m: int)
    requires
        ts.wf(),
        !ts.reverse,
        ts.repeat is Times || ts.repeat is Infinite,
        m >= 1,
        ts.repeat matches Repeat::Times(k) ==> m <= k + 1,
    ensures
        spec_position(ts, ts.delay + m * ts.duration) == TimeScalePosition::Active(
            NORM_UNIT,
            TimeScaleLoopState { is_repeating: m > 1, is_reversing: false },
        ),
{
    let d = ts.duration as int;
    let t = m * d;
    assert(t >= d) by (nonlinear_arith)
        requires
            m >= 1,
            d >= 1,
            t == m * d,
    ;
    vstd::arithmetic::div_mod::lemma_fundamental_div_mod_converse(t, d, m, 0);
    assert(spec_cycle_time(t, d) == d);
    assert(spec_cycle_ratio(d, d) == NORM_UNIT) by {
        vstd::arithmetic::div_mod::lemma_fundamental_div_mod_converse(
            d * NORM_UNIT,
            d,
            NORM_UNIT as int,
            0,
        );
    }
    if let Repeat::Times(k) = ts.repeat {
        assert(t <= d * (k + 1)) by (nonlinear_arith)
            requires
                m <= k + 1,
                d >= 1,
                t == m * d,
        ;
    }
}

/// Reverse symmetry: on a reversing, infinitely repeating time scale, the
/// forward pass at offset `k` into a cycle and the backward pass at offset
/// `duration - k` reach the same normalized position, whenever `k` falls
/// exactly on the normalization grid.
pub proof fn lemma_reverse_symmetry(ts: TimeScale, k: int)
    requires
        ts.wf(),
        ts.reverse,
        ts.repeat == Repeat::Infinite,
        0 <= k <= ts.duration,
        (k * NORM_UNIT) % (ts.duration as int) == 0,
    ensures
        spec_position(ts, ts.delay + k) is Active,
        spec_position(ts, ts.delay + (ts.duration - k)) is Active,
        spec_position(ts, ts.delay + k)->Active_0 == spec_position(
            ts,
            ts.delay + (ts.duration - k),
        )->Active_0,
{
    let d = ts.duration as int;
    let q = k * NORM_UNIT / d;
    vstd::arithmetic::div_mod::lemma_fundamental_div_mod(k * NORM_UNIT, d);
    assert(k * NORM_UNIT == d * q);
    assert(0 <= q <= NORM_UNIT) by (nonlinear_arith)
        requires
            k * NORM_UNIT == d * q,
            0 <= k <= d,
            1 <= d,
    ;
    if k == 0 {
        // Forward endpoint: position 0. Backward side sits on the cycle
        // boundary, which holds at duration, whose ratio is NORM_UNIT and
        // therefore reverses back to 0.
        vstd::arithmetic::div_mod::lemma_fundamental_div_mod_converse(0, d, 0, 0);
        vstd::arithmetic::div_mod::lemma_fundamental_div_mod_converse(d, d, 1, 0);
        assert(spec_cycle_time(0, d) == 0);
        assert(spec_cycle_time(d, d) == d);
        assert(spec_cycle_ratio(0, d) == 0) by {
            vstd::arithmetic::div_mod::lemma_fundamental_div_mod_converse(0, d, 0, 0);
        }
        assert(spec_cycle_ratio(d, d) == NORM_UNIT) by {
            vstd::arithmetic::div_mod::lemma_fundamental_div_mod_converse(
                d * NORM_UNIT,
                d,
                NORM_UNIT as int,
                0,
            );
        }
    } else if k == d {
        vstd::arithmetic::div_mod::lemma_fundamental_div_mod_converse(0, d, 0, 0);
        vstd::arithmetic::div_mod::lemma_fundamental_div_mod_converse(d, d, 1, 0);
        assert(spec_cycle_time(d, d) == d);
        assert(spec_cycle_time(0, d) == 0);
        assert(spec_cycle_ratio(d, d) == NORM_UNIT) by {
            vstd::arithmetic::div_mod::lemma_fundamental_div_mod_converse(
                d * NORM_UNIT,
                d,
                NORM_UNIT as int,
                0,
            );
        }
        assert(spec_cycle_ratio(0, d) == 0) by {
            vstd::arithmetic::div_mod::lemma_fundamental_div_mod_converse(0, d, 0, 0);
        }
    } else {
        // Both offsets lie strictly inside the first cycle.
        vstd::arithmetic::div_mod::lemma_fundamental_div_mod_converse(k, d, 0, k);
        vstd::arithmetic::div_mod::lemma_fundamental_div_mod_converse(d - k, d, 0, d - k);
        assert(spec_cycle_time(k, d) == k);
        assert(spec_cycle_time(d - k, d) == d - k);
        assert(spec_cycle_ratio(k, d) == q) by {
            vstd::arithmetic::div_mod::lemma_fundamental_div_mod_converse(k * NORM_UNIT, d, q, 0);
        }
        assert(spec_cycle_ratio(d - k, d) == NORM_UNIT - q) by {
            assert((d - k) * NORM_UNIT == d * (NORM_UNIT - q)) by (nonlinear_arith)
                requires
                    k * NORM_UNIT == d * q,
            ;
            vstd::arithmetic::div_mod::lemma_fundamental_div_mod_converse(
                (d - k) * NORM_UNIT,
                d,
                NORM_UNIT - q,
                0,
            );
        }
    }
}

} // verus!
