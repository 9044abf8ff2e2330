//! Per-property sub-timelines: the precomputed, single-value tracks that a
//! timeline splits its keyframes into.
//!
//! Keyframes need not mention every property. Each property therefore gets
//! its own track holding only the frames that define it, always covering the
//! whole `[0, NORM_UNIT]` range: a frame at position `0` is synthesized from
//! the property's default value when no keyframe supplies one, and a flat
//! hold at [`NORM_UNIT`] is synthesized when the last supplied frame stops
//! short of it. An index map from master-keyframe ordinals to track-frame
//! ordinals makes every lookup constant-time once the caller has located the
//! master keyframe.

use vstd::prelude::*;

use crate::easing::{spec_clamp_norm, spec_ease, Easing};
use crate::interpolation::{lerp, spec_lerp, spec_tdiv, tdiv};
use crate::timeline::Keyframe;
use crate::NORM_UNIT;

verus! {

/// One frame of a single-property track: the property's value at a normalized
/// time, with the easing that governs the interval starting here.
///
/// Unlike a [`Keyframe`], which holds optional values for every property and
/// an optional easing override, a split keyframe holds exactly one value and
/// always knows its easing, so evaluation never searches backward.
#[derive(Clone, Copy, Debug, PartialEq, Eq, Structural)]
pub struct SplitKeyframe {
    /// Position of this frame on the normalized `[0, NORM_UNIT]` scale.
    pub normalized_time: i64,
    /// Value of the track's property at this frame.
    pub value: i64,
    /// Easing in effect from this frame until the next one.
    pub easing: Easing,
}

impl SplitKeyframe {
    /// A frame is well formed when its time lies on the normalized scale and
    /// its easing carries well-formed control points.
    pub open spec fn wf(&self) -> bool {
        &&& 0 <= self.normalized_time <= NORM_UNIT
        &&& self.easing.wf()
    }
}

/// The animation path of a single property: an ordered frame list covering
/// `[0, NORM_UNIT]`, an index map for constant-time lookup, and an optional
/// live override for the value of the frame at position `0` (used when
/// blending a newly activated timeline onto current values).
#[derive(Clone, Debug)]
pub struct SubTimeline {
    /// Frames in ascending time order; empty when no keyframe defines the
    /// property, and otherwise starting at `0` and ending at [`NORM_UNIT`].
    pub frames: Vec<SplitKeyframe>,
    /// For each master keyframe ordinal, the ordinal of the track frame
    /// emitted at or before it.
    pub frame_index_map: Vec<usize>,
    /// When present, the value that replaces the frame at position `0` while
    /// the first forward pass of the timeline plays.
    pub start_override: Option<i64>,
}

/// The value a frame contributes to interpolation: the frame's own value,
/// except that the frame at ordinal `0` (which sits at position `0`) yields
/// the track's start override while one is present and enabled.
pub open spec fn spec_effective_value(track: SubTimeline, idx: int, enable_start_override: bool) -> i64 {
    if idx == 0 && enable_start_override && track.start_override is Some {
        track.start_override->0
    } else {
        track.frames@[idx].value
    }
}

/// Interpolation between the frames at ordinals `start` and `end` at
/// normalized time `t`: coincident frames yield the start value, and
/// otherwise the start frame's easing weighs a linear interpolation. The
/// easing always comes from the frame that opens the interval, matching
/// CSS timing-function semantics.
pub open spec fn spec_interpolate(
    track: SubTimeline,
    start: int,
    end: int,
    t: int,
    enable_start_override: bool,
) -> int {
    let sf = track.frames@[start];
    let ef = track.frames@[end];
    let d = ef.normalized_time - sf.normalized_time;
    if d == 0 {
        spec_effective_value(track, start, enable_start_override) as int
    } else {
        let x = spec_tdiv((t - sf.normalized_time) * NORM_UNIT, d);
        let y = spec_ease(sf.easing, x);
        spec_lerp(
            spec_effective_value(track, start, enable_start_override),
            spec_effective_value(track, end, enable_start_override),
            y,
        )
    }
}

/// The value of a track at normalized time `nt`, looked up through the index
/// map entry for master keyframe `hint`:
///
/// * an empty track, or a hint outside the index map, yields nothing;
/// * before the track's first frame the property is undefined;
/// * at or past the last frame the last value holds flat;
/// * otherwise the two frames bounding `nt` interpolate.
pub open spec fn spec_value_at(
    track: SubTimeline,
    nt: int,
    hint: int,
    enable_start_override: bool,
) -> Option<i64> {
    let t = spec_clamp_norm(nt);
    if track.frames@.len() == 0 || !(0 <= hint < track.frame_index_map@.len()) {
        Option::None
    } else {
        let ia = track.frame_index_map@[hint] as int;
        if ia >= track.frames@.len() {
            Option::None
        } else if t < track.frames@[ia].normalized_time {
            if ia > 0 {
                Option::Some(spec_interpolate(track, ia - 1, ia, t, enable_start_override) as i64)
            } else {
                Option::None
            }
        } else if ia == track.frames@.len() - 1 {
            Option::Some(spec_effective_value(track, ia, enable_start_override))
        } else {
            Option::Some(spec_interpolate(track, ia, ia + 1, t, enable_start_override) as i64)
        }
    }
}

/// One step of track construction, processing a single master keyframe:
/// a declared easing replaces the running easing; a keyframe bearing the
/// property emits a frame (preceded by a synthesized default frame at
/// position `0` when it is the first one and starts later than `0`); and the
/// index map records the ordinal of the most recently emitted frame (`0`
/// when none exists yet, which is where the eventual first frame will sit).
pub open spec fn spec_track_step(
    st: (Seq<SplitKeyframe>, Seq<usize>, Easing),
    kf: Keyframe,
    p: int,
    default_value: i64,
) -> (Seq<SplitKeyframe>, Seq<usize>, Easing) {
    let easing = if kf.easing is Some {
        kf.easing->0
    } else {
        st.2
    };
    let with_synth = if kf.data@[p] is Some && st.0.len() == 0 && kf.normalized_time > 0 {
        st.0.push(SplitKeyframe { normalized_time: 0, value: default_value, easing })
    } else {
        st.0
    };
    let frames = if kf.data@[p] is Some {
        with_synth.push(
            SplitKeyframe {
                normalized_time: kf.normalized_time,
                value: kf.data@[p]->0,
                easing,
            },
        )
    } else {
        with_synth
    };
    let index_map = st.1.push(
        if frames.len() == 0 {
            0usize
        } else {
            (frames.len() - 1) as usize
        },
    );
    (frames, index_map, easing)
}

/// The construction state after the first `i` master keyframes: the frames
/// emitted so far, the index map entries recorded so far, and the running
/// easing.
pub open spec fn spec_track_state(
    kfs: Seq<Keyframe>,
    i: int,
    p: int,
    default_value: i64,
    default_easing: Easing,
) -> (Seq<SplitKeyframe>, Seq<usize>, Easing)
    decreases i,
{
    if i <= 0 {
        (Seq::<SplitKeyframe>::empty(), Seq::<usize>::empty(), default_easing)
    } else {
        spec_track_step(
            spec_track_state(kfs, i - 1, p, default_value, default_easing),
            kfs[i - 1],
            p,
            default_value,
        )
    }
}

/// The full frame list of a track built from `kfs` for property `p`: the
/// construction state over all keyframes, with a flat hold at [`NORM_UNIT`]
/// appended when the last emitted frame stops short of it.
pub open spec fn spec_track_frames(
    kfs: Seq<Keyframe>,
    p: int,
    default_value: i64,
    default_easing: Easing,
) -> Seq<SplitKeyframe> {
    let built = spec_track_state(kfs, kfs.len() as int, p, default_value, default_easing).0;
    if built.len() > 0 && built.last().normalized_time < NORM_UNIT {
        built.push(
            SplitKeyframe {
                normalized_time: NORM_UNIT,
                value: built.last().value,
                easing: built.last().easing,
            },
        )
    } else {
        built
    }
}

/// The index map of a track built from `kfs` for property `p`.
pub open spec fn spec_track_index_map(
    kfs: Seq<Keyframe>,
    p: int,
    default_value: i64,
    default_easing: Easing,
) -> Seq<usize> {
    spec_track_state(kfs, kfs.len() as int, p, default_value, default_easing).1
}

/// Every construction state of a track over well-formed, time-sorted
/// keyframes is itself well formed: frames are sorted, well formed, start at
/// position `0`, never pass the keyframe being processed, and the index map
/// stays inside the frame list and points at frames at or before the
/// keyframes that recorded them.
pub proof fn lemma_track_state_wf(
    kfs: Seq<Keyframe>,
    i: int,
    p: int,
    default_value: i64,
    default_easing: Easing,
)
    requires
        0 <= i <= kfs.len(),
        default_easing.wf(),
        forall|j: int| 0 <= j < kfs.len() ==> (#[trigger] kfs[j]).wf(),
        forall|a: int, b: int|
            0 <= a <= b < kfs.len() ==> #[trigger] kfs[a].normalized_time
                <= #[trigger] kfs[b].normalized_time,
    ensures
        ({
            let st = spec_track_state(kfs, i, p, default_value, default_easing);
            &&& st.1.len() == i
            &&& st.2.wf()
            &&& forall|j: int| 0 <= j < st.0.len() ==> (#[trigger] st.0[j]).wf()
            &&& forall|a: int, b: int|
                0 <= a <= b < st.0.len() ==> #[trigger] st.0[a].normalized_time
                    <= #[trigger] st.0[b].normalized_time
            &&& st.0.len() > 0 ==> st.0[0].normalized_time == 0
            &&& forall|j: int|
                0 <= j < st.0.len() && i > 0 ==> (#[trigger] st.0[j]).normalized_time <= kfs[i
                    - 1].normalized_time
            &&& forall|j: int| 0 <= j < i ==> 0 <= #[trigger] st.1[j]
            &&& st.0.len() == 0 ==> forall|j: int| 0 <= j < i ==> #[trigger] st.1[j] == 0
            &&& st.0.len() > 0 ==> forall|j: int|
                0 <= j < i ==> #[trigger] st.1[j] < st.0.len() && st.0[st.1[j] as int].normalized_time
                    <= kfs[j].normalized_time
        }),
    decreases i,
{
    if i > 0 {
        lemma_track_state_wf(kfs, i - 1, p, default_value, default_easing);
        let prev = spec_track_state(kfs, i - 1, p, default_value, default_easing);
        let st = spec_track_state(kfs, i, p, default_value, default_easing);
        assert(st == spec_track_step(prev, kfs[i - 1], p, default_value));
        assert(kfs[i - 1].wf());
        assert(forall|j: int|
            0 <= j < i - 1 ==> #[trigger] kfs[j].normalized_time <= kfs[i - 1].normalized_time);
    }
}

/// Carry-forward past the last supplied frame: when the two final frames of
/// a track agree on a value — as they do whenever the closing frame is the
/// synthesized flat hold — every query from the second-to-last frame's time
/// onward yields exactly that value, whatever easing governs the interval.
pub proof fn lemma_track_holds_after_last(
    track: SubTimeline,
    nt: int,
    hint: int,
    enable_start_override: bool,
)
    requires
        track.wf(),
        track.frames@.len() >= 2,
        track.frames@[track.frames@.len() - 2].value == track.frames@.last().value,
        0 <= hint < track.frame_index_map@.len(),
        track.frame_index_map@[hint] + 2 >= track.frames@.len(),
        track.frame_index_map@[hint] >= 1,
        track.frames@[track.frames@.len() - 2].normalized_time <= nt <= NORM_UNIT,
        enable_start_override && track.start_override is Some ==> track.frames@.len() >= 3,
    ensures
        spec_value_at(track, nt, hint, enable_start_override) == Some(track.frames@.last().value),
{
    let n = track.frames@.len() as int;
    let ia = track.frame_index_map@[hint] as int;
    if ia == n - 1 {
        if nt < track.frames@[ia].normalized_time {
            crate::interpolation::lemma_lerp_constant(
                track.frames@[n - 2].value,
                spec_ease(
                    track.frames@[n - 2].easing,
                    spec_tdiv(
                        (nt - track.frames@[n - 2].normalized_time) * NORM_UNIT,
                        track.frames@[n - 1].normalized_time - track.frames@[n
                            - 2].normalized_time,
                    ),
                ),
            );
        }
    } else {
        crate::interpolation::lemma_lerp_constant(
            track.frames@[n - 2].value,
            spec_ease(
                track.frames@[n - 2].easing,
                spec_tdiv(
                    (nt - track.frames@[n - 2].normalized_time) * NORM_UNIT,
                    track.frames@[n - 1].normalized_time - track.frames@[n - 2].normalized_time,
                ),
            ),
        );
    }
}

/// Track states only grow: later construction steps never touch the frames
/// already emitted or the index map entries already recorded, so the first
/// entry and the first frames are fixed after the first keyframe.
pub proof fn lemma_track_state_grows(
    kfs: Seq<Keyframe>,
    i: int,
    p: int,
    default_value: i64,
    default_easing: Easing,
)
    requires
        1 <= i <= kfs.len(),
    ensures
        ({
            let st = spec_track_state(kfs, i, p, default_value, default_easing);
            let first = spec_track_state(kfs, 1, p, default_value, default_easing);
            &&& st.1.len() == i
            &&& st.0.len() >= first.0.len()
            &&& forall|j: int| 0 <= j < first.0.len() ==> st.0[j] == first.0[j]
            &&& st.1[0] == first.1[0]
        }),
    decreases i,
{
    assert(spec_track_state(kfs, 0, p, default_value, default_easing) == (
        Seq::<SplitKeyframe>::empty(),
        Seq::<usize>::empty(),
        default_easing,
    ));
    if i > 1 {
        lemma_track_state_grows(kfs, i - 1, p, default_value, default_easing);
        let prev = spec_track_state(kfs, i - 1, p, default_value, default_easing);
        let st = spec_track_state(kfs, i, p, default_value, default_easing);
        let first = spec_track_state(kfs, 1, p, default_value, default_easing);
        assert(st == spec_track_step(prev, kfs[i - 1], p, default_value));
        assert(st.1[0] == prev.1[0]);
        assert forall|j: int| 0 <= j < first.0.len() implies st.0[j] == first.0[j] by {
            assert(prev.0[j] == first.0[j]);
        }
    }
}

/// Blend continuity at the track level: a rebased track evaluated at
/// position `0` through the index map entry of the first master keyframe
/// yields exactly the override value — or nothing at all, when the track's
/// property appears in no keyframe.
pub proof fn lemma_track_value_at_zero(
    track: SubTimeline,
    kfs: Seq<Keyframe>,
    p: int,
    default_value: i64,
    default_easing: Easing,
    enable_start_override: bool,
)
    requires
        track.wf(),
        kfs.len() > 0,
        track.frames@ == spec_track_frames(kfs, p, default_value, default_easing),
        track.frame_index_map@ == spec_track_index_map(kfs, p, default_value, default_easing),
    ensures
        track.frames@.len() == 0 ==> spec_value_at(track, 0, 0, enable_start_override) is None,
        track.frames@.len() > 0 ==> spec_value_at(track, 0, 0, enable_start_override) == Some(
            spec_effective_value(track, 0, enable_start_override),
        ),
{
    let n = kfs.len() as int;
    let first = spec_track_state(kfs, 1, p, default_value, default_easing);
    let built = spec_track_state(kfs, n, p, default_value, default_easing);
    lemma_track_state_grows(kfs, n, p, default_value, default_easing);
    assert(spec_track_state(kfs, 0, p, default_value, default_easing) == (
        Seq::<SplitKeyframe>::empty(),
        Seq::<usize>::empty(),
        default_easing,
    ));
    assert(first == spec_track_step(
        (Seq::<SplitKeyframe>::empty(), Seq::<usize>::empty(), default_easing),
        kfs[0],
        p,
        default_value,
    ));
    if track.frames@.len() > 0 {
        let ia = track.frame_index_map@[0] as int;
        assert(ia == first.1[0]);
        // The first master keyframe emits at most a synthesized frame at
        // position 0 and its own value frame, so its entry is 0 or 1, and
        // when it is 1 the frame it points at starts strictly after 0.
        assert(ia == 0 || ia == 1);
        assert(track.frames@[0].normalized_time == 0);
        assert(track.frames@.len() >= 2);
        if ia == 1 {
            assert(first.0.len() == 2);
            assert(built.0[1] == first.0[1]);
            assert(track.frames@[1] == built.0[1]);
            assert(track.frames@[1].normalized_time == kfs[0].normalized_time > 0);
        }
        // Both cases evaluate as interpolation between frames 0 and 1 at
        // position 0, where the effective start value opens the interval.
        let r = spec_value_at(track, 0, 0, enable_start_override);
        let v = spec_effective_value(track, 0, enable_start_override);
        if ia == 0 {
            assert(r == Some(spec_interpolate(track, 0, 1, 0, enable_start_override) as i64));
        } else {
            assert(0 < track.frames@[ia].normalized_time);
            assert(r == Some(spec_interpolate(track, 0, 1, 0, enable_start_override) as i64));
        }
        let d = track.frames@[1].normalized_time - track.frames@[0].normalized_time;
        if d == 0 {
        } else {
            assert(spec_tdiv((0 - track.frames@[0].normalized_time) * NORM_UNIT, d) == 0) by {
                assert((0 - track.frames@[0].normalized_time) * NORM_UNIT == 0) by (nonlinear_arith)
                    requires
                        track.frames@[0].normalized_time == 0,
                ;
                vstd::arithmetic::div_mod::lemma_fundamental_div_mod_converse(0, d, 0, 0);
            }
            crate::easing::lemma_ease_at_zero(track.frames@[0].easing);
            crate::interpolation::lemma_lerp_at_zero(
                v,
                spec_effective_value(track, 1, enable_start_override),
            );
        }
    }
}

/// Carry-forward from the default: while no keyframe defines the property at
/// position `0`, the synthesized opening frame carries the supplied default,
/// so a query at position `0` (without a live override) yields exactly the
/// default value.
pub proof fn lemma_track_starts_at_default(
    track: SubTimeline,
    kfs: Seq<Keyframe>,
    p: int,
    default_value: i64,
    default_easing: Easing,
)
    requires
        track.wf(),
        kfs.len() > 0,
        track.frames@ == spec_track_frames(kfs, p, default_value, default_easing),
        track.frame_index_map@ == spec_track_index_map(kfs, p, default_value, default_easing),
        forall|j: int|
            0 <= j < kfs.len() && (#[trigger] kfs[j].data@[p]) is Some ==> kfs[j].normalized_time
                > 0,
    ensures
        track.frames@.len() > 0 ==> spec_value_at(track, 0, 0, false) == Some(default_value),
{
    lemma_track_first_frame_default(kfs, kfs.len() as int, p, default_value, default_easing);
    lemma_track_value_at_zero(track, kfs, p, default_value, default_easing, false);
}

/// While every keyframe defining the property starts after position `0`, the
/// first frame any construction state emits is the synthesized default.
proof fn lemma_track_first_frame_default(
    kfs: Seq<Keyframe>,
    i: int,
    p: int,
    default_value: i64,
    default_easing: Easing,
)
    requires
        0 <= i <= kfs.len(),
        forall|j: int|
            0 <= j < kfs.len() && (#[trigger] kfs[j].data@[p]) is Some ==> kfs[j].normalized_time
                > 0,
    ensures
        ({
            let st = spec_track_state(kfs, i, p, default_value, default_easing);
            st.0.len() > 0 ==> st.0[0].normalized_time == 0 && st.0[0].value == default_value
        }),
    decreases i,
{
    if i > 0 {
        lemma_track_first_frame_default(kfs, i - 1, p, default_value, default_easing);
    }
}

/// Easing locality at evaluation: a query resolved through index map entry
/// `hint` reads only the frame it points at and that frame's immediate
/// neighbors, so two tracks that agree on that window — whatever their other
/// frames declare — yield the same value.
pub proof fn lemma_easing_locality(
    a: SubTimeline,
    b: SubTimeline,
    nt: int,
    hint: int,
    enable_start_override: bool,
)
    requires
        a.frames@.len() == b.frames@.len(),
        a.frame_index_map@ == b.frame_index_map@,
        a.start_override == b.start_override,
        0 <= hint < a.frame_index_map@.len(),
        forall|j: int|
            0 <= j < a.frames@.len() && a.frame_index_map@[hint] - 1 <= j
                <= a.frame_index_map@[hint] + 1 ==> a.frames@[j] == b.frames@[j],
    ensures
        spec_value_at(a, nt, hint, enable_start_override) == spec_value_at(
            b,
            nt,
            hint,
            enable_start_override,
        ),
{
}

/// Easing locality at construction: two keyframe sequences that agree on
/// their first `i` keyframes build identical track states over them, so a
/// change to a later keyframe — its easing included — never alters the
/// frames emitted before it.
pub proof fn lemma_track_prefix_congruence(
    kfs1: Seq<Keyframe>,
    kfs2: Seq<Keyframe>,
    i: int,
    p: int,
    default_value: i64,
    default_easing: Easing,
)
    requires
        0 <= i <= kfs1.len(),
        i <= kfs2.len(),
        forall|j: int| 0 <= j < i ==> kfs1[j] == kfs2[j],
    ensures
        spec_track_state(kfs1, i, p, default_value, default_easing) == spec_track_state(
            kfs2,
            i,
            p,
            default_value,
            default_easing,
        ),
    decreases i,
{
    if i > 0 {
        lemma_track_prefix_congruence(kfs1, kfs2, i - 1, p, default_value, default_easing);
    }
}

impl SubTimeline {
    /// Extracts a single-property track from a sequence of sparse keyframes,
    /// sorted ascending by time.
    ///
    /// `default_value` seeds the synthesized frame at position `0` when the
    /// keyframes leave the property undefined there; `default_easing` governs
    /// interpolation until a keyframe declares its own easing. A property
    /// that no keyframe defines yields an empty track, which a timeline
    /// leaves untouched on every update.
    pub fn from_keyframes(
        keyframes: &Vec<Keyframe>,
        property: usize,
        default_value: i64,
        default_easing: Easing,
    ) -> (r: SubTimeline)
        requires
            default_easing.wf(),
            forall|j: int| 0 <= j < keyframes@.len() ==> (#[trigger] keyframes@[j]).wf(),
            forall|j: int|
                0 <= j < keyframes@.len() ==> property < (#[trigger] keyframes@[j]).data@.len(),
            forall|a: int, b: int|
                0 <= a <= b < keyframes@.len() ==> #[trigger] keyframes@[a].normalized_time
                    <= #[trigger] keyframes@[b].normalized_time,
        ensures
            r.frames@ == spec_track_frames(
                keyframes@,
                property as int,
                default_value,
                default_easing,
            ),
            r.frame_index_map@.len() == keyframes@.len(),
            r.frame_index_map@ == spec_track_index_map(
                keyframes@,
                property as int,
                default_value,
                default_easing,
            ),
            r.start_override is None,
            r.wf(),
            forall|j: int|
                0 <= j < keyframes@.len() && r.frames@.len() > 0 ==> r.frames@[(
                #[trigger] r.frame_index_map@[j]) as int].normalized_time
                    <= keyframes@[j].normalized_time,
    {
        let ghost p = property as int;
        let mut frames: Vec<SplitKeyframe> = Vec::new();
        let mut frame_index_map: Vec<usize> = Vec::new();
        let mut current_easing = default_easing;
        let n = keyframes.len();
        let mut k: usize = 0;
        while k < n
            invariant
                p == property as int,
                n == keyframes@.len(),
                0 <= k <= n,
                default_easing.wf(),
                forall|j: int| 0 <= j < keyframes@.len() ==> (#[trigger] keyframes@[j]).wf(),
                forall|j: int|
                    0 <= j < keyframes@.len() ==> property < (
                    #[trigger] keyframes@[j]).data@.len(),
                forall|a: int, b: int|
                    0 <= a <= b < keyframes@.len() ==> #[trigger] keyframes@[a].normalized_time
                        <= #[trigger] keyframes@[b].normalized_time,
                frames@ == spec_track_state(
                    keyframes@,
                    k as int,
                    p,
                    default_value,
                    default_easing,
                ).0,
                frame_index_map@.len() == k,
                frame_index_map@ == spec_track_state(
                    keyframes@,
                    k as int,
                    p,
                    default_value,
                    default_easing,
                ).1,
                current_easing == spec_track_state(
                    keyframes@,
                    k as int,
                    p,
                    default_value,
                    default_easing,
                ).2,
            decreases n - k,
        {
            let ghost prev = spec_track_state(keyframes@, k as int, p, default_value, default_easing);
            let kf = &keyframes[k];
            if let Some(e) = kf.easing {
                current_easing = e;
            }
            let kf_data: &Vec<Option<i64>> = &kf.data;
            let value = kf_data[property];
            if let Some(v) = value {
                if frames.len() == 0 && kf.normalized_time > 0 {
                    frames.push(
                        SplitKeyframe {
                            normalized_time: 0,
                            value: default_value,
                            easing: current_easing,
                        },
                    );
                }
                frames.push(
                    SplitKeyframe {
                        normalized_time: kf.normalized_time,
                        value: v,
                        easing: current_easing,
                    },
                );
            }
            let entry: usize = if frames.len() == 0 {
                0
            } else {
                frames.len() - 1
            };
            frame_index_map.push(entry);
            k = k + 1;
            proof {
                let st = spec_track_state(keyframes@, k as int, p, default_value, default_easing);
                assert(st == spec_track_step(prev, keyframes@[k - 1], p, default_value));
                assert(frames@ == st.0);
                assert(frame_index_map@ == st.1);
            }
        }
        if frames.len() > 0 {
            let last = frames[frames.len() - 1];
            if last.normalized_time < NORM_UNIT {
                frames.push(
                    SplitKeyframe {
                        normalized_time: NORM_UNIT,
                        value: last.value,
                        easing: last.easing,
                    },
                );
            }
        }
        proof {
            lemma_track_state_wf(keyframes@, n as int, p, default_value, default_easing);
        }
        SubTimeline { frames, frame_index_map, start_override: Option::None }
    }

    /// Track well-formedness: the index map points into the frame list, and
    /// frames are well formed, sorted by time, and — when any exist — cover
    /// the normalized range from `0` to [`NORM_UNIT`] inclusive.
    pub open spec fn wf(&self) -> bool {
        &&& forall|i: int|
            0 <= i < self.frame_index_map@.len() && self.frames@.len() > 0
                ==> (#[trigger] self.frame_index_map@[i]) < self.frames@.len()
        &&& forall|i: int, j: int|
            0 <= i <= j < self.frames@.len() ==> #[trigger] self.frames@[i].normalized_time
                <= #[trigger] self.frames@[j].normalized_time
        &&& forall|i: int| 0 <= i < self.frames@.len() ==> (#[trigger] self.frames@[i]).wf()
        &&& self.frames@.len() > 0 ==> self.frames@[0].normalized_time == 0
            && self.frames@.last().normalized_time == NORM_UNIT
    }

    /// Gets the value of this track's property at a normalized position.
    ///
    /// The caller locates the master keyframe containing `normalized_time`
    /// once (see [`prepare_frame`](crate::timeline::prepare_frame)) and hands
    /// its ordinal in as `index_hint`; the track resolves it through its
    /// index map instead of searching. `enable_start_override` applies the
    /// track's live start override, if any, to the frame at position `0`.
    pub fn value_at(
        &self,
        normalized_time: i64,
        index_hint: usize,
        enable_start_override: bool,
    ) -> (r: Option<i64>)
        requires
            self.wf(),
        ensures
            r == spec_value_at(*self, normalized_time as int, index_hint as int, enable_start_override),
    {
        let t: i64 = if normalized_time < 0 {
            0
        } else if normalized_time > NORM_UNIT {
            NORM_UNIT
        } else {
            normalized_time
        };
        if self.frames.len() == 0 || index_hint >= self.frame_index_map.len() {
            return Option::None;
        }
        let index_at = self.frame_index_map[index_hint];
        if index_at >= self.frames.len() {
            return Option::None;
        }
        let frame_time = self.frames[index_at].normalized_time;
        if t < frame_time {
            if index_at > 0 {
                Option::Some(self.interpolate(index_at - 1, index_at, t, enable_start_override))
            } else {
                Option::None
            }
        } else if index_at == self.frames.len() - 1 {
            Option::Some(self.effective_value(index_at, enable_start_override))
        } else {
            Option::Some(self.interpolate(index_at, index_at + 1, t, enable_start_override))
        }
    }

    /// Replaces the value of the frame at position `0`, leaving every other
    /// frame and the easing sequence alone. Used to rebase a newly activated
    /// timeline onto the values an animation had already reached.
    pub fn override_start_value(&mut self, value: i64)
        ensures
            final (self).frames == old(self).frames,
            final (self).frame_index_map == old(self).frame_index_map,
            final (self).start_override == Some(value),
            old(self).wf() ==> final (self).wf(),
    {
        self.start_override = Some(value);
    }

    fn effective_value(&self, idx: usize, enable_start_override: bool) -> (r: i64)
        requires
            idx < self.frames@.len(),
        ensures
            r == spec_effective_value(*self, idx as int, enable_start_override),
    {
        if idx == 0 && enable_start_override {
            match self.start_override {
                Some(v) => v,
                Option::None => self.frames[idx].value,
            }
        } else {
            self.frames[idx].value
        }
    }

    fn interpolate(&self, start: usize, end: usize, t: i64, enable_start_override: bool) -> (r:
        i64)
        requires
            self.wf(),
            start < self.frames@.len(),
            end < self.frames@.len(),
            start <= end,
            0 <= t <= NORM_UNIT,
        ensures
            r == spec_interpolate(*self, start as int, end as int, t as int, enable_start_override) as i64,
    {
        let sf = self.frames[start];
        let ef = self.frames[end];
        let duration = ef.normalized_time - sf.normalized_time;
        if duration == 0 {
            return self.effective_value(start, enable_start_override);
        }
        let x = tdiv((t - sf.normalized_time) * NORM_UNIT, duration);
        proof {
            crate::interpolation::lemma_tdiv_bound(
                (t - sf.normalized_time) * NORM_UNIT as int,
                duration as int,
                1000000,
            );
        }
        let y = sf.easing.calc(x);
        lerp(
            self.effective_value(start, enable_start_override),
            self.effective_value(end, enable_start_override),
            y,
        )
    }
}

} // verus!
