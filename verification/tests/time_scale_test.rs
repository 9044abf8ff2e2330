//! Time scale normalization: delay, repeat, and reverse arithmetic.
//! Times are ticks; one second of the scenario descriptions is 1000 ticks,
//! and normalized positions use 1000 for 100%.

use mina::time_scale::{TimeScale, TimeScaleLoopState, TimeScalePosition, TimelineDuration};
use mina::timeline::Repeat;

#[test]
fn when_before_delay_then_not_started() {
    let timescale = TimeScale::new(10000, 2000, Repeat::Once, false);

    assert_eq!(timescale.get_position(0), TimeScalePosition::NotStarted);
    assert_eq!(timescale.get_position(1000), TimeScalePosition::NotStarted);
    assert_eq!(timescale.get_position(1990), TimeScalePosition::NotStarted);
}

#[test]
fn when_after_delay_then_subtracts_delay() {
    let timescale = TimeScale::new(10000, 2000, Repeat::Once, false);

    assert_eq!(
        timescale.get_position(2000),
        TimeScalePosition::Active(0, TimeScaleLoopState::default())
    );
    assert_eq!(
        timescale.get_position(7000),
        TimeScalePosition::Active(500, TimeScaleLoopState::default())
    );
    assert_eq!(
        timescale.get_position(11500),
        TimeScalePosition::Active(950, TimeScaleLoopState::default())
    );
}

#[test]
fn when_no_repeat_or_reverse_then_normalized_by_duration() {
    let timescale = TimeScale::new(20000, 0, Repeat::Once, false);

    assert_eq!(
        timescale.get_position(0),
        TimeScalePosition::Active(0, TimeScaleLoopState::default())
    );
    assert_eq!(
        timescale.get_position(2500),
        TimeScalePosition::Active(125, TimeScaleLoopState::default())
    );
    assert_eq!(
        timescale.get_position(10000),
        TimeScalePosition::Active(500, TimeScaleLoopState::default())
    );
    assert_eq!(
        timescale.get_position(19000),
        TimeScalePosition::Active(950, TimeScaleLoopState::default())
    );
    assert_eq!(
        timescale.get_position(20000),
        TimeScalePosition::Active(1000, TimeScaleLoopState::default())
    );
    assert_eq!(timescale.get_position(21000), TimeScalePosition::Ended(1000));
}

#[test]
fn when_repeat_times_then_normalized_by_iteration() {
    let timescale = TimeScale::new(20000, 0, Repeat::Times(2), false);

    assert_eq!(
        timescale.get_position(0),
        TimeScalePosition::Active(0, TimeScaleLoopState::default())
    );
    assert_eq!(
        timescale.get_position(5000),
        TimeScalePosition::Active(250, TimeScaleLoopState::default())
    );
    assert_eq!(
        timescale.get_position(19000),
        TimeScalePosition::Active(950, TimeScaleLoopState::default())
    );
    assert_eq!(
        timescale.get_position(20000),
        TimeScalePosition::Active(1000, TimeScaleLoopState::default())
    );
    assert_eq!(
        timescale.get_position(21000),
        TimeScalePosition::Active(50, TimeScaleLoopState::repeating())
    );
    assert_eq!(
        timescale.get_position(25000),
        TimeScalePosition::Active(250, TimeScaleLoopState::repeating())
    );
    assert_eq!(
        timescale.get_position(35000),
        TimeScalePosition::Active(750, TimeScaleLoopState::repeating())
    );
    assert_eq!(
        timescale.get_position(40000),
        TimeScalePosition::Active(1000, TimeScaleLoopState::repeating())
    );
    assert_eq!(
        timescale.get_position(55000),
        TimeScalePosition::Active(750, TimeScaleLoopState::repeating())
    );
    assert_eq!(
        timescale.get_position(60000),
        TimeScalePosition::Active(1000, TimeScaleLoopState::repeating())
    );
    assert_eq!(timescale.get_position(61000), TimeScalePosition::Ended(1000));
}

#[test]
fn when_repeat_infinite_then_normalized_by_iteration() {
    let timescale = TimeScale::new(20000, 0, Repeat::Infinite, false);

    assert_eq!(
        timescale.get_position(0),
        TimeScalePosition::Active(0, TimeScaleLoopState::default())
    );
    assert_eq!(
        timescale.get_position(2000),
        TimeScalePosition::Active(100, TimeScaleLoopState::default())
    );
    assert_eq!(
        timescale.get_position(18000),
        TimeScalePosition::Active(900, TimeScaleLoopState::default())
    );
    assert_eq!(
        timescale.get_position(20000),
        TimeScalePosition::Active(1000, TimeScaleLoopState::default())
    );
    assert_eq!(
        timescale.get_position(22000),
        TimeScalePosition::Active(100, TimeScaleLoopState::repeating())
    );
    assert_eq!(
        timescale.get_position(38000),
        TimeScalePosition::Active(900, TimeScaleLoopState::repeating())
    );
    assert_eq!(
        timescale.get_position(40000),
        TimeScalePosition::Active(1000, TimeScaleLoopState::repeating())
    );
    assert_eq!(
        timescale.get_position(1998000),
        TimeScalePosition::Active(900, TimeScaleLoopState::repeating())
    );
    assert_eq!(
        timescale.get_position(2002000),
        TimeScalePosition::Active(100, TimeScaleLoopState::repeating())
    );
}

#[test]
fn when_reverse_then_peaks_at_mid_duration() {
    let timescale = TimeScale::new(20000, 0, Repeat::Infinite, true);

    assert_eq!(
        timescale.get_position(0),
        TimeScalePosition::Active(0, TimeScaleLoopState::default())
    );
    assert_eq!(
        timescale.get_position(5000),
        TimeScalePosition::Active(500, TimeScaleLoopState::default())
    );
    assert_eq!(
        timescale.get_position(10000),
        TimeScalePosition::Active(1000, TimeScaleLoopState::default())
    );
    assert_eq!(
        timescale.get_position(15000),
        TimeScalePosition::Active(500, TimeScaleLoopState::reversing())
    );
    assert_eq!(
        timescale.get_position(20000),
        TimeScalePosition::Active(0, TimeScaleLoopState::reversing())
    );
    assert_eq!(
        timescale.get_position(22500),
        TimeScalePosition::Active(250, TimeScaleLoopState::repeating())
    );
    assert_eq!(
        timescale.get_position(25000),
        TimeScalePosition::Active(500, TimeScaleLoopState::repeating())
    );
    assert_eq!(
        timescale.get_position(27500),
        TimeScalePosition::Active(750, TimeScaleLoopState::repeating())
    );
    assert_eq!(
        timescale.get_position(30000),
        TimeScalePosition::Active(1000, TimeScaleLoopState::repeating())
    );
    assert_eq!(
        timescale.get_position(32500),
        TimeScalePosition::Active(750, TimeScaleLoopState::repeating_and_reversing())
    );
    assert_eq!(
        timescale.get_position(35000),
        TimeScalePosition::Active(500, TimeScaleLoopState::repeating_and_reversing())
    );
    assert_eq!(
        timescale.get_position(37500),
        TimeScalePosition::Active(250, TimeScaleLoopState::repeating_and_reversing())
    );
    assert_eq!(
        timescale.get_position(40000),
        TimeScalePosition::Active(0, TimeScaleLoopState::repeating_and_reversing())
    );
}

#[test]
fn when_reverse_then_ends_at_zero() {
    let timescale = TimeScale::new(20000, 0, Repeat::Once, true);

    assert_eq!(timescale.get_position(25000), TimeScalePosition::Ended(0));
}

#[test]
fn get_cycle_duration_ignores_delay_and_repetitions() {
    let single_timescale = TimeScale::new(20000, 3000, Repeat::Once, false);
    let repeating_timescale = TimeScale::new(20000, 3000, Repeat::Infinite, false);

    assert_eq!(single_timescale.get_cycle_duration(), 20000);
    assert_eq!(repeating_timescale.get_cycle_duration(), 20000);
}

#[test]
fn get_delay_returns_delay() {
    let single_timescale = TimeScale::new(20000, 3000, Repeat::Once, false);
    let repeating_timescale = TimeScale::new(20000, 3000, Repeat::Infinite, false);

    assert_eq!(single_timescale.get_delay(), 3000);
    assert_eq!(repeating_timescale.get_delay(), 3000);
}

#[test]
fn get_duration_includes_delay_and_repetitions() {
    let single_timescale = TimeScale::new(20000, 3000, Repeat::Once, false);
    let repeating_timescale = TimeScale::new(20000, 3000, Repeat::Times(5), true);
    let infinite_timescale = TimeScale::new(20000, 3000, Repeat::Infinite, false);

    assert_eq!(single_timescale.get_duration(), TimelineDuration::Finite(23000));
    assert_eq!(repeating_timescale.get_duration(), TimelineDuration::Finite(123000));
    assert_eq!(infinite_timescale.get_duration(), TimelineDuration::Infinite);
}

#[test]
fn get_repeat_returns_delay() {
    let single_timescale = TimeScale::new(20000, 3000, Repeat::Once, true);
    let repeating_timescale = TimeScale::new(20000, 3000, Repeat::Times(5), true);
    let infinite_timescale = TimeScale::new(20000, 3000, Repeat::Infinite, true);

    assert_eq!(single_timescale.get_repeat(), Repeat::Once);
    assert_eq!(repeating_timescale.get_repeat(), Repeat::Times(5));
    assert_eq!(infinite_timescale.get_repeat(), Repeat::Infinite);
}

#[test]
fn boundary_exactness_at_cycle_ends() {
    // cycle 20s, no delay, two extra cycles: exact multiples of the cycle
    // hold the terminal position instead of resetting, and one tick past the
    // final cycle the animation has ended.
    let timescale = TimeScale::new(20000, 0, Repeat::Times(2), false);

    assert_eq!(
        timescale.get_position(20000),
        TimeScalePosition::Active(1000, TimeScaleLoopState::new(false, false))
    );
    assert_eq!(
        timescale.get_position(21000),
        TimeScalePosition::Active(50, TimeScaleLoopState::new(true, false))
    );
    assert_eq!(
        timescale.get_position(40000),
        TimeScalePosition::Active(1000, TimeScaleLoopState::new(true, false))
    );
    assert_eq!(timescale.get_position(61000), TimeScalePosition::Ended(1000));
}

#[test]
fn reverse_symmetry_mirrors_forward_and_backward_pass() {
    // cycle 20s, infinite, reversing: offsets k and cycle-k from the cycle
    // start reach the same normalized position.
    let timescale = TimeScale::new(20000, 0, Repeat::Infinite, true);

    let forward = timescale.get_position(10000);
    let backward = timescale.get_position(20000 - 10000);
    assert_eq!(forward, TimeScalePosition::Active(1000, TimeScaleLoopState::new(false, false)));
    assert_eq!(forward, backward);

    let early = timescale.get_position(4000);
    let late = timescale.get_position(16000);
    assert_eq!(early, TimeScalePosition::Active(400, TimeScaleLoopState::new(false, false)));
    assert_eq!(late, TimeScalePosition::Active(400, TimeScaleLoopState::new(false, true)));
}

#[test]
fn delay_gates_the_start_for_every_configuration() {
    let timescale = TimeScale::new(10000, 2000, Repeat::Infinite, true);

    assert_eq!(timescale.get_position(-5000), TimeScalePosition::NotStarted);
    assert_eq!(timescale.get_position(1999), TimeScalePosition::NotStarted);
    assert_eq!(
        timescale.get_position(2000),
        TimeScalePosition::Active(0, TimeScaleLoopState::default())
    );
}
