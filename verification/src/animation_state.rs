//! Playback state of a driven animation: the classification a frame driver
//! steps through while it feeds elapsed time into a timeline.
//!
//! The driver loop itself (scheduling, entity storage, event delivery) lives
//! with the host; this module holds the decision it makes every frame.

use vstd::prelude::*;

use crate::time_scale::TimelineDuration;

verus! {

/// The playback state of one animated entity.
#[derive(Clone, Copy, Debug, Default, PartialEq, Eq, Structural)]
pub enum AnimationState {
    /// No animation: there is no timeline, or it was attached this frame and
    /// has not been examined yet.
    #[default]
    Idle,
    /// Animation has not started yet because of a configured delay, and will
    /// start once the delay elapses.
    Waiting,
    /// Animation is in progress.
    Playing,
    /// Animation progressed to the end of its timeline and has no more
    /// frames to play. Never reached while the timeline repeats forever.
    Ended,
}

/// An event recording that an animated entity's playback state changed.
#[derive(Clone, Copy, Debug, PartialEq, Eq, Structural)]
pub struct AnimationStateChanged {
    /// Identifier of the entity whose animation changed, as the host driver
    /// numbers its entities.
    pub entity: u64,
    /// Playback state of the entity when the event was created.
    pub state: AnimationState,
}

impl AnimationStateChanged {
    /// Creates a new state-change event.
    pub fn new(entity: u64, state: AnimationState) -> (r: AnimationStateChanged)
        ensures
            r == (AnimationStateChanged { entity, state }),
    {
        AnimationStateChanged { entity, state }
    }
}

/// The playback state after one frame at `position` ticks into a timeline
/// with the given delay and total duration. Transitions cascade within a
/// single frame: an idle animation starts waiting, starts playing once past
/// the delay, and ends once past the duration.
pub open spec fn spec_next_animation_state(
    state: AnimationState,
    position: i64,
    delay: i64,
    duration: TimelineDuration,
) -> AnimationState {
    let started = if state is Idle {
        AnimationState::Waiting
    } else {
        state
    };
    let playing = if started is Waiting && position >= delay {
        AnimationState::Playing
    } else {
        started
    };
    if (duration matches TimelineDuration::Finite(d) && position >= d) && !(playing is Ended) {
        AnimationState::Ended
    } else {
        playing
    }
}

/// Steps the playback state of a driven animation by one frame.
///
/// The host driver calls this once per tick with the current timeline
/// position; it applies the timeline to its target exactly when the state
/// coming in is [`AnimationState::Playing`], keeps accruing position while
/// the result is not [`AnimationState::Ended`], and reports a state-change
/// event whenever the result differs from the state coming in.
pub fn next_animation_state(
    state: AnimationState,
    position: i64,
    delay: i64,
    duration: TimelineDuration,
) -> (r: AnimationState)
    ensures
        r == spec_next_animation_state(state, position, delay, duration),
{
    let started = if state == AnimationState::Idle {
        AnimationState::Waiting
    } else {
        state
    };
    let playing = if started == AnimationState::Waiting && position >= delay {
        AnimationState::Playing
    } else {
        started
    };
    let past_end: bool = match duration {
        TimelineDuration::Finite(d) => position >= d,
        TimelineDuration::Infinite => false,
    };
    if past_end && playing != AnimationState::Ended {
        AnimationState::Ended
    } else {
        playing
    }
}

} // verus!
