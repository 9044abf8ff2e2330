//! Playback-state stepping for driven animations.

use mina::animation_state::{next_animation_state, AnimationState, AnimationStateChanged};
use mina::time_scale::TimelineDuration;

#[test]
fn idle_animation_starts_waiting_then_playing_within_one_frame() {
    let delay = 3000;
    let duration = TimelineDuration::Finite(18000);

    // Still inside the delay: only reaches the waiting state.
    assert_eq!(
        next_animation_state(AnimationState::Idle, 0, delay, duration),
        AnimationState::Waiting
    );
    // Past the delay, the same frame cascades straight into playback.
    assert_eq!(
        next_animation_state(AnimationState::Idle, 3000, delay, duration),
        AnimationState::Playing
    );
}

#[test]
fn waiting_animation_starts_playing_once_past_the_delay() {
    let duration = TimelineDuration::Finite(18000);
    assert_eq!(
        next_animation_state(AnimationState::Waiting, 2999, 3000, duration),
        AnimationState::Waiting
    );
    assert_eq!(
        next_animation_state(AnimationState::Waiting, 3000, 3000, duration),
        AnimationState::Playing
    );
}

#[test]
fn playing_animation_ends_at_its_total_duration() {
    assert_eq!(
        next_animation_state(AnimationState::Playing, 17999, 0, TimelineDuration::Finite(18000)),
        AnimationState::Playing
    );
    assert_eq!(
        next_animation_state(AnimationState::Playing, 18000, 0, TimelineDuration::Finite(18000)),
        AnimationState::Ended
    );
    assert_eq!(
        next_animation_state(AnimationState::Ended, 25000, 0, TimelineDuration::Finite(18000)),
        AnimationState::Ended
    );
}

#[test]
fn infinitely_repeating_animation_never_ends() {
    assert_eq!(
        next_animation_state(AnimationState::Playing, 1000000, 0, TimelineDuration::Infinite),
        AnimationState::Playing
    );
}

#[test]
fn state_change_events_carry_entity_and_state() {
    let event = AnimationStateChanged::new(42, AnimationState::Ended);
    assert_eq!(event.entity, 42);
    assert_eq!(event.state, AnimationState::Ended);
}
