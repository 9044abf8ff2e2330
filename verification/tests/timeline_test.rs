//! Timelines and composites: construction, aggregation of timing metadata,
//! last-write-wins precedence, and idempotent updates.

use mina::interpolation::AnimationError;
use mina::time_scale::TimelineDuration;
use mina::timeline::{
    KeyframeBuilder, MergedTimeline, Repeat, Timeline, TimelineConfiguration,
};

fn plain_timeline(cycle_duration: i64) -> Timeline {
    TimelineConfiguration::new(0)
        .duration_seconds(cycle_duration)
        .build_timeline()
        .unwrap()
}

#[test]
fn timeline_interpolates_between_keyframes() {
    // A 10-second (10000-tick) animation of position and size, largest in
    // the middle: queried at 2.5 seconds it sits halfway into the first
    // interval.
    let timeline = TimelineConfiguration::new(2)
        .duration_seconds(10000)
        .keyframe(KeyframeBuilder::new(0, 2).set(0, -200).set(1, 10))
        .keyframe(KeyframeBuilder::new(500, 2).set(0, 0).set(1, 20))
        .keyframe(KeyframeBuilder::new(1000, 2).set(0, 200).set(1, 10))
        .build_timeline()
        .unwrap();

    let mut style = vec![0i64, 0i64];
    timeline.update(&mut style, 2500);
    assert_eq!(style, vec![-100, 15]);
}

#[test]
fn zero_cycle_duration_is_rejected_at_construction() {
    let result = TimelineConfiguration::new(1)
        .duration_seconds(0)
        .keyframe(KeyframeBuilder::new(1000, 1).set(0, 5))
        .build_timeline();

    assert_eq!(result.unwrap_err(), AnimationError::DegenerateTimeWindow);
}

#[test]
fn keyframes_sort_by_time_before_use() {
    // Keyframes declared out of order behave as if declared sorted.
    let shuffled = TimelineConfiguration::new(1)
        .keyframe(KeyframeBuilder::new(750, 1).set(0, 50))
        .keyframe(KeyframeBuilder::new(250, 1).set(0, 10))
        .build_timeline()
        .unwrap();

    let mut values = vec![0i64];
    shuffled.update(&mut values, 500);
    assert_eq!(values, vec![30]);
}

#[test]
fn when_all_cycle_durations_same_then_returns_cycle_duration() {
    let merged_timeline = MergedTimeline::of(vec![
        plain_timeline(5500),
        plain_timeline(5500),
        plain_timeline(5500),
    ]);

    assert_eq!(merged_timeline.cycle_duration(), Some(5500));
}

#[test]
fn when_any_cycle_duration_different_returns_undefined_cycle_duration() {
    let merged_timeline = MergedTimeline::of(vec![
        plain_timeline(5500),
        plain_timeline(4500),
        plain_timeline(5500),
    ]);

    assert_eq!(merged_timeline.cycle_duration(), None);
}

#[test]
fn returns_minimum_delay() {
    let timeline1 = TimelineConfiguration::new(0)
        .delay_seconds(2000)
        .build_timeline()
        .unwrap();
    let timeline2 = TimelineConfiguration::new(0)
        .delay_seconds(5000)
        .build_timeline()
        .unwrap();
    let timeline3 = TimelineConfiguration::new(0)
        .delay_seconds(100)
        .build_timeline()
        .unwrap();

    let merged_timeline = MergedTimeline::of(vec![timeline1, timeline2, timeline3]);

    assert_eq!(merged_timeline.delay(), 100);
}

#[test]
fn when_all_durations_fixed_returns_max_duration() {
    let merged_timeline = MergedTimeline::of(vec![
        plain_timeline(10000),
        plain_timeline(5000),
        plain_timeline(15000),
    ]);

    assert_eq!(merged_timeline.duration(), TimelineDuration::Finite(15000));
}

#[test]
fn when_any_duration_infinite_returns_infinite_duration() {
    let infinite = TimelineConfiguration::new(0)
        .duration_seconds(10000)
        .repeat(Repeat::Infinite)
        .build_timeline()
        .unwrap();
    let merged_timeline = MergedTimeline::of(vec![
        infinite,
        plain_timeline(5000),
        plain_timeline(15000),
    ]);

    assert_eq!(merged_timeline.duration(), TimelineDuration::Infinite);
}

#[test]
fn when_no_timelines_repeat_returns_no_repeat() {
    let merged_timeline = MergedTimeline::of(vec![
        plain_timeline(1000),
        plain_timeline(1000),
        plain_timeline(1000),
    ]);

    assert_eq!(merged_timeline.repeat(), Repeat::Once);
}

#[test]
fn when_some_timelines_repeat_returns_max_repeat() {
    let timeline1 = plain_timeline(1000);
    let timeline2 = TimelineConfiguration::new(0)
        .repeat(Repeat::Times(1))
        .build_timeline()
        .unwrap();
    let timeline3 = TimelineConfiguration::new(0)
        .repeat(Repeat::Infinite)
        .build_timeline()
        .unwrap();

    let merged_timeline1 = MergedTimeline::of(vec![timeline1.clone(), timeline2.clone()]);
    let merged_timeline2 = MergedTimeline::of(vec![timeline1, timeline2, timeline3]);

    assert_eq!(merged_timeline1.repeat(), Repeat::Times(1));
    assert_eq!(merged_timeline2.repeat(), Repeat::Infinite);
}

#[test]
fn later_component_wins_for_shared_properties() {
    // Both components animate property 0 over the whole cycle with
    // different values: the second component's value is always reported.
    let first = TimelineConfiguration::new(1)
        .keyframe(KeyframeBuilder::new(0, 1).set(0, 100))
        .keyframe(KeyframeBuilder::new(1000, 1).set(0, 200))
        .build_timeline()
        .unwrap();
    let second = TimelineConfiguration::new(1)
        .keyframe(KeyframeBuilder::new(0, 1).set(0, 1000))
        .keyframe(KeyframeBuilder::new(1000, 1).set(0, 3000))
        .build_timeline()
        .unwrap();
    let merged = MergedTimeline::of(vec![first, second]);

    let mut values = vec![0i64];
    merged.update(&mut values, 500);
    assert_eq!(values, vec![2000]);
}

#[test]
fn merged_update_delegates_to_every_component() {
    // Components animate disjoint properties of one target: properties 0
    // and 1 come from the first timeline, property 2 from the second, and
    // each component leaves the others' properties alone.
    let first = TimelineConfiguration::new(3)
        .keyframe(KeyframeBuilder::new(100, 3).set(0, 10).set(1, 555))
        .keyframe(KeyframeBuilder::new(200, 3).set(0, 20))
        .keyframe(KeyframeBuilder::new(300, 3).set(0, 30).set(1, 777))
        .build_timeline()
        .unwrap();
    let second = TimelineConfiguration::new(3)
        .keyframe(KeyframeBuilder::new(100, 3).set(2, 1500))
        .keyframe(KeyframeBuilder::new(200, 3).set(2, 2500))
        .keyframe(KeyframeBuilder::new(300, 3).set(2, 6800))
        .build_timeline()
        .unwrap();
    let merged = MergedTimeline::of(vec![first, second]);

    let mut at_100 = vec![0i64, 0, 0];
    let mut at_300 = vec![0i64, 0, 0];
    merged.update(&mut at_100, 100);
    merged.update(&mut at_300, 300);

    assert_eq!(at_100, vec![10, 555, 1500]);
    assert_eq!(at_300, vec![30, 777, 6800]);
}

#[test]
fn update_is_idempotent_and_deterministic() {
    let timeline = TimelineConfiguration::new(2)
        .duration_seconds(2000)
        .keyframe(KeyframeBuilder::new(0, 2).set(0, 10))
        .keyframe(KeyframeBuilder::new(1000, 2).set(0, 90))
        .build_timeline()
        .unwrap();

    // Deterministic: the same time and starting target yield the same result.
    let mut first = vec![7i64, 55i64];
    let mut second = vec![7i64, 55i64];
    timeline.update(&mut first, 500);
    timeline.update(&mut second, 500);
    assert_eq!(first, second);

    // Idempotent: updating the already-updated target changes nothing.
    timeline.update(&mut first, 500);
    assert_eq!(first, second);
    assert_eq!(first, vec![30, 55]);
}
