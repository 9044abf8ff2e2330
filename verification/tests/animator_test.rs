//! State-driven animators: initial-value blending, transition rebasing,
//! looping and reversing back to configured values, pausing in untimelined
//! states, and end detection.
//!
//! States are numbered (`A` = 0, `B` = 1); targets hold `x` at index 0 and
//! `y` at index 1; one second of the scenario descriptions is 1000 ticks.

use mina::animator::{MapLike, MappedTimelineAnimator, StateAnimatorBuilder, StateTimelineMap};
use mina::timeline::{KeyframeBuilder, MergedTimeline, TimelineConfiguration};
use mina::timeline::Repeat;

const A: u64 = 0;
const B: u64 = 1;

fn merged(config: TimelineConfiguration) -> MergedTimeline {
    MergedTimeline::from_timeline(config.build_timeline().unwrap())
}

fn run_animator(
    animator: &mut MappedTimelineAnimator,
    time_step: i64,
    count: usize,
) -> Vec<Vec<i64>> {
    let mut results = Vec::new();
    results.push(animator.current_values().clone());
    for _i in 0..count {
        animator.advance(time_step);
        results.push(animator.current_values().clone());
    }
    results
}

#[test]
fn animates_initial_state_from_initial_values() {
    let mut animator = StateAnimatorBuilder::new(2)
        .from_state(A)
        .from_values(vec![25, 123])
        .on(
            A,
            merged(
                TimelineConfiguration::new(2)
                    .duration_seconds(5000)
                    .keyframe(KeyframeBuilder::new(0, 2).set(0, 50))
                    .keyframe(KeyframeBuilder::new(1000, 2).set(0, 100)),
            ),
        )
        // Not used, but make sure it does not interfere somehow.
        .on(
            B,
            merged(
                TimelineConfiguration::new(2)
                    .duration_seconds(5000)
                    .keyframe(KeyframeBuilder::new(0, 2).set(0, 100))
                    .keyframe(KeyframeBuilder::new(1000, 2).set(0, 80)),
            ),
        )
        .build();

    let frame_values = run_animator(&mut animator, 1000, 7);

    assert_eq!(
        frame_values,
        vec![
            vec![25, 123],
            vec![40, 123],
            vec![55, 123],
            vec![70, 123],
            vec![85, 123],
            vec![100, 123],
            // Animation ended but state has not changed.
            vec![100, 123],
            vec![100, 123],
        ]
    );
}

#[test]
fn when_state_changed_then_animates_from_previous_values() {
    let mut animator = StateAnimatorBuilder::new(2)
        .from_state(A)
        .on(
            A,
            merged(
                TimelineConfiguration::new(2)
                    .duration_seconds(5000)
                    .keyframe(KeyframeBuilder::new(0, 2).set(0, 0))
                    .keyframe(KeyframeBuilder::new(1000, 2).set(0, 100)),
            ),
        )
        .on(
            B,
            merged(
                TimelineConfiguration::new(2)
                    .duration_seconds(5000)
                    .keyframe(KeyframeBuilder::new(0, 2).set(0, 100).set(1, 50))
                    .keyframe(KeyframeBuilder::new(1000, 2).set(0, 20).set(1, 80)),
            ),
        )
        .build();

    let frame_values_a = run_animator(&mut animator, 1000, 3);
    animator.set_state(&B);
    let frame_values_b = run_animator(&mut animator, 1000, 6);

    assert_eq!(
        frame_values_a,
        vec![vec![0, 0], vec![20, 0], vec![40, 0], vec![60, 0]]
    );
    assert_eq!(
        frame_values_b,
        vec![
            vec![60, 0],  // repeated: set_state does not change values
            vec![52, 16],
            vec![44, 32],
            vec![36, 48],
            vec![28, 64],
            vec![20, 80],  // ended
            vec![20, 80],
        ]
    );
}

#[test]
fn when_state_changed_and_repeating_then_loops_from_non_blended_values() {
    let mut animator = StateAnimatorBuilder::new(2)
        .from_state(A)
        .on(
            A,
            merged(
                TimelineConfiguration::new(2)
                    .duration_seconds(5000)
                    .keyframe(KeyframeBuilder::new(0, 2).set(0, 0))
                    .keyframe(KeyframeBuilder::new(1000, 2).set(0, 100)),
            ),
        )
        .on(
            B,
            merged(
                TimelineConfiguration::new(2)
                    .duration_seconds(5000)
                    .repeat(Repeat::Infinite)
                    .keyframe(KeyframeBuilder::new(0, 2).set(0, 120).set(1, 50))
                    .keyframe(KeyframeBuilder::new(1000, 2).set(0, 20).set(1, 80)),
            ),
        )
        .build();

    let frame_values_a = run_animator(&mut animator, 1000, 3);
    animator.set_state(&B);
    let frame_values_b = run_animator(&mut animator, 1000, 11);

    assert_eq!(
        frame_values_a,
        vec![vec![0, 0], vec![20, 0], vec![40, 0], vec![60, 0]]
    );
    assert_eq!(
        frame_values_b,
        vec![
            vec![60, 0],
            vec![52, 16],
            vec![44, 32],
            vec![36, 48],
            vec![28, 64],
            vec![20, 80],
            // Looping returns to the configured start, not the blended one.
            vec![100, 56],
            vec![80, 62],
            vec![60, 68],
            vec![40, 74],
            vec![20, 80],
            vec![100, 56],
        ]
    );
}

#[test]
fn when_state_changed_and_reversing_then_returns_to_non_blended_values() {
    let mut animator = StateAnimatorBuilder::new(2)
        .from_state(A)
        .on(
            A,
            merged(
                TimelineConfiguration::new(2)
                    .duration_seconds(5000)
                    .keyframe(KeyframeBuilder::new(0, 2).set(0, 0))
                    .keyframe(KeyframeBuilder::new(1000, 2).set(0, 100)),
            ),
        )
        .on(
            B,
            merged(
                TimelineConfiguration::new(2)
                    .duration_seconds(10000)
                    .reverse(true)
                    .keyframe(KeyframeBuilder::new(0, 2).set(0, 120).set(1, 50))
                    .keyframe(KeyframeBuilder::new(1000, 2).set(0, 20).set(1, 80)),
            ),
        )
        .build();

    let frame_values_a = run_animator(&mut animator, 1000, 3);
    animator.set_state(&B);
    let frame_values_b = run_animator(&mut animator, 1000, 11);

    assert_eq!(
        frame_values_a,
        vec![vec![0, 0], vec![20, 0], vec![40, 0], vec![60, 0]]
    );
    assert_eq!(
        frame_values_b,
        vec![
            vec![60, 0],
            vec![52, 16],
            vec![44, 32],
            vec![36, 48],
            vec![28, 64],
            vec![20, 80],
            // The reverse pass returns to the configured start values.
            vec![40, 74],
            vec![60, 68],
            vec![80, 62],
            vec![100, 56],
            vec![120, 50],  // ended
            vec![120, 50],
        ]
    );
}

#[test]
fn when_state_is_not_animated_pauses_previous_animation() {
    let mut animator = StateAnimatorBuilder::new(2)
        .from_state(A)
        .on(
            A,
            merged(
                TimelineConfiguration::new(2)
                    .duration_seconds(5000)
                    .keyframe(KeyframeBuilder::new(1000, 2).set(0, 80).set(1, 20)),
            ),
        )
        .build();

    let frame_values_a1 = run_animator(&mut animator, 1000, 3);
    animator.set_state(&B);
    let frame_values_b = run_animator(&mut animator, 1000, 3);
    animator.set_state(&A);
    let frame_values_a2 = run_animator(&mut animator, 1000, 3);

    assert_eq!(
        frame_values_a1,
        vec![vec![0, 0], vec![16, 4], vec![32, 8], vec![48, 12]]
    );
    assert_eq!(
        frame_values_b,
        vec![vec![48, 12], vec![48, 12], vec![48, 12], vec![48, 12]]
    );
    // Returning to the animated state rebases its timeline onto the paused
    // values and restarts its clock, so the animation blends from 48/12
    // toward 80/20 over a fresh five-second cycle.
    assert_eq!(
        frame_values_a2,
        vec![vec![48, 12], vec![54, 14], vec![61, 15], vec![67, 17]]
    );
}

#[test]
fn when_state_is_animated_and_animation_still_running_then_is_not_ended() {
    let mut animator = StateAnimatorBuilder::new(2)
        .from_state(A)
        .on(
            A,
            merged(
                TimelineConfiguration::new(2)
                    .duration_seconds(5000)
                    .delay_seconds(3000)
                    .repeat(Repeat::Times(2))
                    .keyframe(KeyframeBuilder::new(0, 2).set(0, 40).set(1, 10))
                    .keyframe(KeyframeBuilder::new(1000, 2).set(0, 80).set(1, 20)),
            ),
        )
        .build();
    animator.set_state(&A);
    animator.advance(17000);

    assert_eq!(animator.is_ended(), false);
}

#[test]
fn when_state_is_animated_and_animation_reached_duration_then_is_ended() {
    let mut animator = StateAnimatorBuilder::new(2)
        .from_state(A)
        .on(
            A,
            merged(
                TimelineConfiguration::new(2)
                    .duration_seconds(5000)
                    .delay_seconds(3000)
                    .repeat(Repeat::Times(2))
                    .keyframe(KeyframeBuilder::new(0, 2).set(0, 40).set(1, 10))
                    .keyframe(KeyframeBuilder::new(1000, 2).set(0, 80).set(1, 20)),
            ),
        )
        .build();
    animator.set_state(&A);
    animator.advance(23000);

    assert_eq!(animator.is_ended(), true);
}

#[test]
fn when_state_is_not_animated_then_is_ended() {
    let mut animator = StateAnimatorBuilder::new(2)
        .from_state(A)
        .on(
            A,
            merged(
                TimelineConfiguration::new(2)
                    .duration_seconds(5000)
                    .keyframe(KeyframeBuilder::new(1000, 2).set(0, 80).set(1, 20)),
            ),
        )
        .build();
    animator.set_state(&B);

    assert_eq!(animator.is_ended(), true);
}

#[test]
fn state_animator_test_animates_initial_state_from_initial_values() {
    // The same behavior as animates_initial_state_from_initial_values, with
    // the timelines phrased as single keyframe ranges.
    let mut animator = StateAnimatorBuilder::new(2)
        .from_state(A)
        .from_values(vec![25, 123])
        .on(
            A,
            merged(
                TimelineConfiguration::new(2)
                    .duration_seconds(5000)
                    .keyframe(KeyframeBuilder::new(0, 2).set(0, 50))
                    .keyframe(KeyframeBuilder::new(1000, 2).set(0, 100)),
            ),
        )
        .on(
            B,
            merged(
                TimelineConfiguration::new(2)
                    .duration_seconds(5000)
                    .keyframe(KeyframeBuilder::new(0, 2).set(0, 100))
                    .keyframe(KeyframeBuilder::new(1000, 2).set(0, 80)),
            ),
        )
        .build();

    let frame_values = run_animator(&mut animator, 1000, 7);

    assert_eq!(
        frame_values,
        vec![
            vec![25, 123],
            vec![40, 123],
            vec![55, 123],
            vec![70, 123],
            vec![85, 123],
            vec![100, 123],
            vec![100, 123],
            vec![100, 123],
        ]
    );
}

#[test]
fn state_animator_test_when_state_changed_then_animates_from_previous_values() {
    // Transition into a three-keyframe timeline: the first interval blends
    // from the previous values, the rest follows the configured keyframes.
    let mut animator = StateAnimatorBuilder::new(2)
        .from_state(A)
        .on(
            A,
            merged(
                TimelineConfiguration::new(2)
                    .duration_seconds(5000)
                    .keyframe(KeyframeBuilder::new(0, 2).set(0, 0).set(1, 0))
                    .keyframe(KeyframeBuilder::new(1000, 2).set(0, 100)),
            ),
        )
        .on(
            B,
            merged(
                TimelineConfiguration::new(2)
                    .duration_seconds(5000)
                    .keyframe(KeyframeBuilder::new(0, 2).set(0, 100).set(1, 50))
                    .keyframe(KeyframeBuilder::new(400, 2).set(0, 30))
                    .keyframe(KeyframeBuilder::new(1000, 2).set(0, 20).set(1, 80)),
            ),
        )
        .build();

    let frame_values_a = run_animator(&mut animator, 1000, 3);
    animator.set_state(&B);
    let frame_values_b = run_animator(&mut animator, 1000, 6);

    assert_eq!(
        frame_values_a,
        vec![vec![0, 0], vec![20, 0], vec![40, 0], vec![60, 0]]
    );
    assert_eq!(
        frame_values_b,
        vec![
            vec![60, 0],
            vec![45, 16],
            vec![30, 32],
            vec![27, 48],
            vec![23, 64],
            vec![20, 80],
            vec![20, 80],
        ]
    );
}

#[test]
fn set_state_keeps_current_values_and_advancing_zero_keeps_them_too() {
    // Blend continuity: immediately after a transition the values equal the
    // values immediately before it, and evaluating the new timeline at zero
    // elapsed time still returns them, although its configured start
    // keyframe is different.
    let mut animator = StateAnimatorBuilder::new(1)
        .from_state(A)
        .on(
            A,
            merged(
                TimelineConfiguration::new(1)
                    .duration_seconds(4000)
                    .keyframe(KeyframeBuilder::new(0, 1).set(0, 0))
                    .keyframe(KeyframeBuilder::new(1000, 1).set(0, 400)),
            ),
        )
        .on(
            B,
            merged(
                TimelineConfiguration::new(1)
                    .duration_seconds(4000)
                    .delay_seconds(500)
                    .keyframe(KeyframeBuilder::new(0, 1).set(0, 9999))
                    .keyframe(KeyframeBuilder::new(1000, 1).set(0, 0)),
            ),
        )
        .build();

    animator.advance(1000);
    let before = animator.current_values().clone();
    assert_eq!(before, vec![100]);

    animator.set_state(&B);
    assert_eq!(animator.current_values(), &before);

    animator.advance(0);
    assert_eq!(animator.current_values(), &before);
}

#[test]
fn map_like_lookup_finds_configured_timelines() {
    let mut map = StateTimelineMap::new();
    map.insert(
        B,
        merged(TimelineConfiguration::new(0).duration_seconds(7000)),
    );

    assert!(map.get(&A).is_none());
    let found = map.get(&B).unwrap();
    assert_eq!(found.cycle_duration(), Some(7000));
}
