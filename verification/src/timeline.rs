//! Timelines: declarative keyframe bundles evaluated against elapsed time.

use vstd::prelude::*;

use crate::easing::Easing;
use crate::interpolation::AnimationError;
use crate::time_scale::{
    spec_position, TimeScale, TimeScalePosition, TimelineDuration,
};
use crate::timeline_helpers::{
    spec_track_frames, spec_track_index_map, spec_value_at, SubTimeline,
};
use crate::{MAX_CYCLE, MAX_REPEATS, NORM_UNIT};

verus! {

/// A single frame of an animation timeline, giving some or all of the
/// animated property values at one normalized time.
///
/// The value list is sparse: entry `p` holds the value for property `p` at
/// this frame, or nothing when the frame leaves that property alone. An
/// absent easing means the keyframe inherits whatever easing is in effect at
/// its point in the sequence.
#[derive(Clone, Debug)]
pub struct Keyframe {
    /// One optional value per animated property.
    pub data: Vec<Option<i64>>,
    /// Easing declared on this keyframe, if any; it governs interpolation
    /// from this keyframe onward until another keyframe declares its own.
    pub easing: Option<Easing>,
    /// Position of the keyframe on the normalized scale from `0` (0%) to
    /// [`NORM_UNIT`] (100%).
    pub normalized_time: i64,
}

impl Keyframe {
    /// A keyframe is well formed when it sits on the normalized scale and
    /// any declared easing carries well-formed control points.
    pub open spec fn wf(&self) -> bool {
        &&& 0 <= self.normalized_time <= NORM_UNIT
        &&& (self.easing matches Some(e) ==> e.wf())
    }

    /// Creates a new keyframe.
    pub fn new(normalized_time: i64, data: Vec<Option<i64>>, easing: Option<Easing>) -> (r:
        Keyframe)
        requires
            0 <= normalized_time <= NORM_UNIT,
            easing matches Some(e) ==> e.wf(),
        ensures
            r == (Keyframe { data, easing, normalized_time }),
            r.wf(),
    {
        Keyframe { data, easing, normalized_time }
    }
}

/// Describes the looping behavior of an animation timeline.
#[derive(Clone, Copy, Debug, Default, PartialEq, Eq, Structural)]
pub enum Repeat {
    /// Animation does not repeat; it plays one cycle and then ends.
    #[default]
    Once,
    /// Animation repeats for a given number of extra cycles, looping or
    /// reversing back to the beginning each time, and ends after the last
    /// cycle completes.
    Times(u32),
    /// Animation repeats forever and never ends.
    Infinite,
}

/// Keyframes ordered ascending by normalized time.
pub open spec fn spec_keyframes_sorted(s: Seq<Keyframe>) -> bool {
    forall|a: int, b: int|
        0 <= a <= b < s.len() ==> #[trigger] s[a].normalized_time <= #[trigger] s[b].normalized_time
}

/// Stable insertion of a keyframe into a time-sorted sequence: the keyframe
/// lands after every element whose time does not exceed its own, so elements
/// declared earlier keep precedence at equal times.
pub open spec fn spec_insert_keyframe(s: Seq<Keyframe>, kf: Keyframe) -> Seq<Keyframe>
    decreases s.len(),
{
    if s.len() == 0 {
        seq![kf]
    } else if s.last().normalized_time > kf.normalized_time {
        spec_insert_keyframe(s.drop_last(), kf).push(s.last())
    } else {
        s.push(kf)
    }
}

/// Stable sort of keyframes by normalized time: each keyframe in declaration
/// order is inserted after its equals.
pub open spec fn spec_sort_keyframes(s: Seq<Keyframe>) -> Seq<Keyframe>
    decreases s.len(),
{
    if s.len() == 0 {
        Seq::<Keyframe>::empty()
    } else {
        spec_insert_keyframe(spec_sort_keyframes(s.drop_last()), s.last())
    }
}

/// Stable insertion keeps sortedness, grows the length by one, and adds no
/// element but the inserted one.
pub proof fn lemma_insert_keyframe_props(s: Seq<Keyframe>, kf: Keyframe)
    requires
        spec_keyframes_sorted(s),
    ensures
        spec_keyframes_sorted(spec_insert_keyframe(s, kf)),
        spec_insert_keyframe(s, kf).len() == s.len() + 1,
        forall|j: int|
            0 <= j < spec_insert_keyframe(s, kf).len() ==> #[trigger] spec_insert_keyframe(s, kf)[j]
                == kf || s.contains(spec_insert_keyframe(s, kf)[j]),
    decreases s.len(),
{
    let r = spec_insert_keyframe(s, kf);
    if s.len() == 0 {
        assert(r == seq![kf]);
    } else if s.last().normalized_time > kf.normalized_time {
        assert(spec_keyframes_sorted(s.drop_last()));
        lemma_insert_keyframe_props(s.drop_last(), kf);
        let inner = spec_insert_keyframe(s.drop_last(), kf);
        assert(r == inner.push(s.last()));
        assert forall|j: int| 0 <= j < r.len() implies #[trigger] r[j] == kf || s.contains(r[j]) by {
            if j < inner.len() {
                assert(r[j] == inner[j]);
                if inner[j] != kf {
                    assert(s.drop_last().contains(inner[j]));
                    let w = choose|w: int| 0 <= w < s.drop_last().len() && s.drop_last()[w] == inner[j];
                    assert(s[w] == inner[j]);
                }
            } else {
                assert(r[j] == s.last());
                assert(s[s.len() - 1] == s.last());
            }
        }
        assert forall|a: int, b: int| 0 <= a <= b < r.len() implies r[a].normalized_time
            <= r[b].normalized_time by {
            if b < inner.len() {
            } else {
                // The moved-up last element exceeds the inserted keyframe and,
                // by sortedness, every original element below it.
                if a < inner.len() {
                    if inner[a] != kf {
                        assert(s.drop_last().contains(inner[a]));
                        let w = choose|w: int|
                            0 <= w < s.drop_last().len() && s.drop_last()[w] == inner[a];
                        assert(s[w].normalized_time <= s.last().normalized_time);
                    }
                }
            }
        }
    } else {
        assert(r == s.push(kf));
        assert forall|a: int, b: int| 0 <= a <= b < r.len() implies r[a].normalized_time
            <= r[b].normalized_time by {
            if b == s.len() {
                if a < s.len() {
                    assert(s[a].normalized_time <= s.last().normalized_time);
                }
            }
        }
    }
}

/// A stable sort is sorted, keeps the length, and adds no elements.
pub proof fn lemma_sort_keyframes_props(s: Seq<Keyframe>)
    ensures
        spec_keyframes_sorted(spec_sort_keyframes(s)),
        spec_sort_keyframes(s).len() == s.len(),
        forall|j: int|
            0 <= j < s.len() ==> s.contains(#[trigger] spec_sort_keyframes(s)[j]),
    decreases s.len(),
{
    let r = spec_sort_keyframes(s);
    if s.len() > 0 {
        lemma_sort_keyframes_props(s.drop_last());
        lemma_insert_keyframe_props(spec_sort_keyframes(s.drop_last()), s.last());
        let inner = spec_sort_keyframes(s.drop_last());
        assert forall|j: int| 0 <= j < r.len() implies s.contains(#[trigger] r[j]) by {
            if r[j] == s.last() {
                assert(s[s.len() - 1] == s.last());
            } else {
                assert(inner.contains(r[j]));
                let w = choose|w: int| 0 <= w < inner.len() && inner[w] == r[j];
                assert(s.drop_last().contains(inner[w]));
                let v = choose|v: int| 0 <= v < s.drop_last().len() && s.drop_last()[v] == inner[w];
                assert(s[v] == r[j]);
            }
        }
    }
}

/// Inserts a keyframe into a time-sorted vector, after every element whose
/// time does not exceed its own.
fn insert_keyframe_sorted(result: &mut Vec<Keyframe>, kf: Keyframe)
    ensures
        final (result)@ == spec_insert_keyframe(old(result)@, kf),
{
    let mut j = result.len();
    proof {
        assert(result@.take(j as int) =~= result@);
        assert(spec_insert_keyframe(result@, kf) + result@.skip(j as int) =~= spec_insert_keyframe(
            result@,
            kf,
        ));
    }
    while j > 0 && keyframe_time_exceeds(result, j - 1, &kf)
        invariant
            j <= result@.len(),
            result@ == old(result)@,
            spec_insert_keyframe(result@, kf) == spec_insert_keyframe(result@.take(j as int), kf)
                + result@.skip(j as int),
        decreases j,
    {
        proof {
            let t = result@.take(j as int);
            assert(t.last() == result@[j - 1]);
            assert(t.drop_last() == result@.take(j - 1));
            assert(spec_insert_keyframe(t, kf) == spec_insert_keyframe(t.drop_last(), kf).push(
                t.last(),
            ));
            assert(spec_insert_keyframe(result@.take(j - 1), kf).push(result@[j - 1])
                + result@.skip(j as int) =~= spec_insert_keyframe(result@.take(j - 1), kf)
                + result@.skip(j - 1));
        }
        j = j - 1;
    }
    proof {
        let t = result@.take(j as int);
        if j == 0 {
            assert(t =~= Seq::<Keyframe>::empty());
            assert(spec_insert_keyframe(t, kf) == seq![kf]);
        } else {
            assert(t.last() == result@[j - 1]);
            assert(!(t.last().normalized_time > kf.normalized_time));
            assert(spec_insert_keyframe(t, kf) == t.push(kf));
        }
        assert(spec_insert_keyframe(result@.take(j as int), kf) + result@.skip(j as int)
            =~= result@.insert(j as int, kf));
    }
    result.insert(j, kf);
}

/// Whether the element at `i` starts strictly later than `kf`.
fn keyframe_time_exceeds(v: &Vec<Keyframe>, i: usize, kf: &Keyframe) -> (r: bool)
    requires
        i < v@.len(),
    ensures
        r == (v@[i as int].normalized_time > kf.normalized_time),
{
    v[i].normalized_time > kf.normalized_time
}

/// Sorts keyframes ascending by normalized time, keeping the declaration
/// order of keyframes that share a time.
fn sort_keyframes(keyframes: Vec<Keyframe>) -> (r: Vec<Keyframe>)
    ensures
        r@ == spec_sort_keyframes(keyframes@),
{
    let ghost orig = keyframes@;
    let mut source = keyframes;
    let mut result: Vec<Keyframe> = Vec::new();
    while source.len() > 0
        invariant
            orig.len() == result@.len() + source@.len(),
            source@ == orig.skip(result@.len() as int),
            result@ == spec_sort_keyframes(orig.take(result@.len() as int)),
        decreases source@.len(),
    {
        let ghost done = result@.len() as int;
        let kf = source.remove(0);
        proof {
            assert(kf == orig[done]);
            assert(source@ =~= orig.skip(done + 1));
            let t = orig.take(done + 1);
            assert(t.drop_last() =~= orig.take(done));
            assert(t.last() == orig[done]);
            assert(spec_sort_keyframes(t) == spec_insert_keyframe(
                spec_sort_keyframes(orig.take(done)),
                orig[done],
            ));
            lemma_sort_keyframes_props(orig.take(done));
            lemma_insert_keyframe_props(spec_sort_keyframes(orig.take(done)), orig[done]);
        }
        insert_keyframe_sorted(&mut result, kf);
    }
    proof {
        assert(orig.take(orig.len() as int) =~= orig);
    }
    result
}

impl Repeat {
    /// Number of extra cycles this repeat setting stands for, with
    /// [`Repeat::Infinite`] mapped to the maximum. Orders repeat settings when
    /// composite timelines aggregate them.
    pub open spec fn spec_ordinal(&self) -> u32 {
        match self {
            Repeat::Once => 0,
            Repeat::Times(value) => *value,
            Repeat::Infinite => u32::MAX,
        }
    }

    /// Executable form of [`Repeat::spec_ordinal`].
    pub fn as_ordinal(&self) -> (r: u32)
        ensures
            r == self.spec_ordinal(),
    {
        match self {
            Repeat::Once => 0,
            Repeat::Times(value) => *value,
            Repeat::Infinite => u32::MAX,
        }
    }
}

/// The normalized position a timeline evaluates at for an elapsed time: the
/// active position itself, `0` before the animation starts, and the held end
/// position after it ends.
pub open spec fn spec_prepared_time(ts: TimeScale, time: int) -> i64 {
    match spec_position(ts, time) {
        TimeScalePosition::NotStarted => 0i64,
        TimeScalePosition::Active(t, ls) => t,
        TimeScalePosition::Ended(t) => t,
    }
}

/// Whether a rebased start value applies at an elapsed time: only before the
/// animation starts and on the first forward pass — never while repeating,
/// reversing, or after the end, which all return to the configured values.
pub open spec fn spec_enable_start_override(ts: TimeScale, time: int) -> bool {
    match spec_position(ts, time) {
        TimeScalePosition::NotStarted => true,
        TimeScalePosition::Active(t, ls) => !ls.is_repeating && !ls.is_reversing,
        TimeScalePosition::Ended(t) => false,
    }
}

/// The greatest index whose boundary time does not exceed `t`, or `0` when
/// every boundary lies beyond `t` (or the sequence is empty).
pub open spec fn spec_frame_index(bts: Seq<i64>, t: int) -> int
    decreases bts.len(),
{
    if bts.len() == 0 {
        0
    } else if bts.last() <= t {
        bts.len() - 1
    } else {
        spec_frame_index(bts.drop_last(), t)
    }
}

/// Boundary times ordered ascending.
pub open spec fn spec_boundaries_sorted(bts: Seq<i64>) -> bool {
    forall|a: int, b: int| 0 <= a <= b < bts.len() ==> #[trigger] bts[a] <= #[trigger] bts[b]
}

/// On a sorted sequence, [`spec_frame_index`] is the greatest index whose
/// boundary does not exceed `t`, and `0` when there is none.
pub proof fn lemma_frame_index_char(bts: Seq<i64>, t: int)
    requires
        spec_boundaries_sorted(bts),
    ensures
        bts.len() > 0 ==> 0 <= spec_frame_index(bts, t) < bts.len(),
        spec_frame_index(bts, t) > 0 ==> bts[spec_frame_index(bts, t)] <= t,
        forall|j: int| spec_frame_index(bts, t) < j < bts.len() ==> #[trigger] bts[j] > t,
    decreases bts.len(),
{
    if bts.len() > 0 && !(bts.last() <= t) {
        assert(spec_boundaries_sorted(bts.drop_last()));
        lemma_frame_index_char(bts.drop_last(), t);
        let i = spec_frame_index(bts, t);
        assert(i == spec_frame_index(bts.drop_last(), t));
        if i > 0 {
            assert(bts[i] == bts.drop_last()[i]);
        }
        assert forall|j: int| i < j < bts.len() implies #[trigger] bts[j] > t by {
            if j < bts.len() - 1 {
                assert(bts[j] == bts.drop_last()[j]);
            }
        }
    }
}

/// The greatest index of a sorted vector whose element does not exceed `t`,
/// or `0` when none does, by binary search.
fn frame_index_search(bts: &Vec<i64>, t: i64) -> (r: usize)
    requires
        spec_boundaries_sorted(bts@),
        bts@.len() > 0,
    ensures
        r as int == spec_frame_index(bts@, t as int),
{
    let mut lo: usize = 0;
    let mut hi: usize = bts.len();
    while lo < hi
        invariant
            lo <= hi <= bts@.len(),
            spec_boundaries_sorted(bts@),
            forall|j: int| 0 <= j < lo ==> #[trigger] bts@[j] <= t,
            forall|j: int| hi <= j < bts@.len() ==> #[trigger] bts@[j] > t,
        decreases hi - lo,
    {
        let mid = lo + (hi - lo) / 2;
        if bts[mid] <= t {
            lo = mid + 1;
        } else {
            hi = mid;
        }
    }
    let r: usize = if lo == 0 {
        0
    } else {
        lo - 1
    };
    proof {
        lemma_frame_index_char(bts@, t as int);
        let i = spec_frame_index(bts@, t as int);
        if lo > 0 {
            if i < lo - 1 {
                assert(bts@[lo - 1] <= t);
            }
            if i > lo - 1 {
                assert(bts@[i] > t);
            }
        } else {
            if i > 0 {
                assert(bts@[i] > t);
            }
        }
    }
    r
}

/// Converts an elapsed time into everything a timeline evaluation needs: the
/// normalized position, the ordinal of the master keyframe containing it
/// (`0` when the position lies before every keyframe), and whether rebased
/// start values apply. Yields nothing when there are no keyframes at all.
pub fn prepare_frame(time: i64, boundary_times: &Vec<i64>, timescale: &TimeScale) -> (r: Option<
    (i64, usize, bool),
>)
    requires
        timescale.wf(),
        spec_boundaries_sorted(boundary_times@),
    ensures
        r is Some <==> boundary_times@.len() > 0,
        boundary_times@.len() > 0 ==> r == Some(
            (
                spec_prepared_time(*timescale, time as int),
                spec_frame_index(
                    boundary_times@,
                    spec_prepared_time(*timescale, time as int) as int,
                ) as usize,
                spec_enable_start_override(*timescale, time as int),
            ),
        ),
{
    if boundary_times.len() == 0 {
        return Option::None;
    }
    let (normalized_time, enable_start_override): (i64, bool) = match timescale.get_position(
        time,
    ) {
        TimeScalePosition::Active(t, loop_state) => (
            t,
            !loop_state.is_repeating && !loop_state.is_reversing,
        ),
        TimeScalePosition::NotStarted => (0, true),
        TimeScalePosition::Ended(t) => (t, false),
    };
    let frame_index = frame_index_search(boundary_times, normalized_time);
    Some((normalized_time, frame_index, enable_start_override))
}

/// An animation timeline: per-property tracks sharing one time scale and one
/// list of master keyframe boundary times.
#[derive(Clone, Debug)]
pub struct Timeline {
    /// The normalized times of the master keyframes, ascending.
    pub boundary_times: Vec<i64>,
    /// The shared delay/duration/repeat/reverse configuration.
    pub timescale: TimeScale,
    /// One track per animated property.
    pub subs: Vec<SubTimeline>,
}

/// The value property `p` of a timeline takes at an elapsed time, or nothing
/// when the timeline does not define it (there or at all).
pub open spec fn spec_timeline_value(tl: Timeline, p: int, time: int) -> Option<i64> {
    if tl.boundary_times@.len() == 0 {
        Option::None
    } else {
        spec_value_at(
            tl.subs@[p],
            spec_prepared_time(tl.timescale, time) as int,
            spec_frame_index(tl.boundary_times@, spec_prepared_time(tl.timescale, time) as int),
            spec_enable_start_override(tl.timescale, time),
        )
    }
}

/// What one update leaves in property `p`: the timeline's value there, or
/// the value the target already held when the timeline does not define one.
pub open spec fn spec_update_one(tl: Timeline, old_value: i64, time: int, p: int) -> i64 {
    match spec_timeline_value(tl, p, time) {
        Some(v) => v,
        Option::None => old_value,
    }
}

/// What one update leaves in a whole target.
pub open spec fn spec_timeline_values(tl: Timeline, vals: Seq<i64>, time: int) -> Seq<i64> {
    Seq::new(vals.len(), |p: int| spec_update_one(tl, vals[p], time, p))
}

impl Timeline {
    /// Number of animated properties; targets carry one value per property.
    pub open spec fn property_count(&self) -> nat {
        self.subs@.len()
    }

    /// Timeline well-formedness: a usable time scale, sorted boundary times
    /// on the normalized scale, and one well-formed track per property whose
    /// index map covers exactly the master keyframes.
    pub open spec fn wf(&self) -> bool {
        &&& self.timescale.wf()
        &&& spec_boundaries_sorted(self.boundary_times@)
        &&& forall|i: int|
            0 <= i < self.boundary_times@.len() ==> 0 <= #[trigger] self.boundary_times@[i]
                <= NORM_UNIT
        &&& forall|p: int|
            0 <= p < self.subs@.len() ==> (#[trigger] self.subs@[p]).wf()
                && self.subs@[p].frame_index_map@.len() == self.boundary_times@.len()
    }

    /// Gets the duration of a single cycle. A plain timeline always has one;
    /// composites may not (see [`MergedTimeline::cycle_duration`]).
    pub fn cycle_duration(&self) -> (r: Option<i64>)
        ensures
            r == Some(self.timescale.duration),
    {
        Some(self.timescale.get_cycle_duration())
    }

    /// Gets the delay between timeline activation and animation start.
    pub fn delay(&self) -> (r: i64)
        ensures
            r == self.timescale.delay,
    {
        self.timescale.get_delay()
    }

    /// Gets the duration of the entire timeline, including all repetitions
    /// and the initial delay.
    pub fn duration(&self) -> (r: TimelineDuration)
        requires
            self.timescale.wf(),
        ensures
            r == self.timescale.spec_duration(),
    {
        self.timescale.get_duration()
    }

    /// Gets the repetitions of this timeline.
    pub fn repeat(&self) -> (r: Repeat)
        ensures
            r == self.timescale.repeat,
    {
        self.timescale.get_repeat()
    }

    /// Rebases the timeline to start from the given values: each track's
    /// frame at position `0` is overridden, affecting the first forward pass
    /// only (repeats and reverse passes return to the configured values).
    pub fn start_with(&mut self, values: &Vec<i64>)
        requires
            old(self).wf(),
            values@.len() == old(self).subs@.len(),
        ensures
            final (self).boundary_times == old(self).boundary_times,
            final (self).timescale == old(self).timescale,
            final (self).subs@.len() == old(self).subs@.len(),
            forall|p: int|
                0 <= p < old(self).subs@.len() ==> (#[trigger] final (self).subs@[p]).frames
                    == old(self).subs@[p].frames && final (self).subs@[p].frame_index_map == old(
                    self,
                ).subs@[p].frame_index_map && final (self).subs@[p].start_override == Some(
                    values@[p],
                ),
            final (self).wf(),
    {
        let mut p: usize = 0;
        let count = self.subs.len();
        while p < count
            invariant
                count == self.subs@.len(),
                self.subs@.len() == old(self).subs@.len(),
                p <= count,
                values@.len() == old(self).subs@.len(),
                self.boundary_times == old(self).boundary_times,
                self.timescale == old(self).timescale,
                old(self).wf(),
                forall|q: int|
                    0 <= q < p ==> (#[trigger] self.subs@[q]).frames == old(self).subs@[q].frames
                        && self.subs@[q].frame_index_map == old(self).subs@[q].frame_index_map
                        && self.subs@[q].start_override == Some(values@[q]),
                forall|q: int| p <= q < count ==> #[trigger] self.subs@[q] == old(self).subs@[q],
            decreases count - p,
        {
            let v = values[p];
            self.subs[p].override_start_value(v);
            p = p + 1;
        }
        proof {
            assert forall|q: int| 0 <= q < self.subs@.len() implies (
            #[trigger] self.subs@[q]).wf() && self.subs@[q].frame_index_map@.len()
                == self.boundary_times@.len() by {
                assert(old(self).subs@[q].wf());
            }
        }
    }

    /// Updates a target to represent this timeline at a given time.
    ///
    /// Each property the timeline defines at that position is written; every
    /// other entry keeps the value the target came in with. Evaluating the
    /// same timeline twice at the same time therefore yields the same
    /// target — the update is deterministic and idempotent (see
    /// [`lemma_update_idempotent`]).
    pub fn update(&self, target: &mut Vec<i64>, time: i64)
        requires
            self.wf(),
            old(target)@.len() == self.subs@.len(),
        ensures
            final (target)@.len() == old(target)@.len(),
            forall|p: int|
                0 <= p < final (target)@.len() ==> #[trigger] final (target)@[p] == spec_update_one(
                    *self,
                    old(target)@[p],
                    time as int,
                    p,
                ),
    {
        let prepared = prepare_frame(time, &self.boundary_times, &self.timescale);
        let (normalized_time, frame_index, enable_start_override): (i64, usize, bool) =
            match prepared {
            Some(tuple) => tuple,
            Option::None => {
                return ;
            },
        };
        proof {
            lemma_frame_index_char(
                self.boundary_times@,
                spec_prepared_time(self.timescale, time as int) as int,
            );
        }
        let boundary_count = self.boundary_times.len();
        proof {
            assert(self.boundary_times@.len() == boundary_count);
        }
        let count = self.subs.len();
        let mut p: usize = 0;
        while p < count
            invariant
                count == self.subs@.len(),
                self.wf(),
                p <= count,
                target@.len() == old(target)@.len(),
                old(target)@.len() == count,
                self.boundary_times@.len() > 0,
                normalized_time == spec_prepared_time(self.timescale, time as int),
                frame_index as int == spec_frame_index(
                    self.boundary_times@,
                    spec_prepared_time(self.timescale, time as int) as int,
                ),
                enable_start_override == spec_enable_start_override(self.timescale, time as int),
                forall|q: int|
                    0 <= q < p ==> #[trigger] target@[q] == spec_update_one(
                        *self,
                        old(target)@[q],
                        time as int,
                        q,
                    ),
                forall|q: int| p <= q < count ==> #[trigger] target@[q] == old(target)@[q],
            decreases count - p,
        {
            let sub = &self.subs[p];
            if let Some(v) = sub.value_at(normalized_time, frame_index, enable_start_override) {
                target[p] = v;
            }
            p = p + 1;
        }
    }
}

/// Builder for a single [`Keyframe`]: collects the normalized time, sparse
/// property values, and an optional easing override.
#[derive(Clone, Debug)]
pub struct KeyframeBuilder {
    /// One optional value per animated property.
    pub data: Vec<Option<i64>>,
    /// Easing declared for this keyframe, if any.
    pub easing: Option<Easing>,
    /// Position of the keyframe on the normalized scale.
    pub normalized_time: i64,
}

impl KeyframeBuilder {
    /// The sparse values collected so far.
    pub open spec fn spec_data(&self) -> Seq<Option<i64>> {
        self.data@
    }

    /// The easing override collected so far.
    pub open spec fn spec_easing(&self) -> Option<Easing> {
        self.easing
    }

    /// The keyframe's normalized time.
    pub open spec fn spec_normalized_time(&self) -> i64 {
        self.normalized_time
    }

    /// Starts a keyframe at a normalized time, for targets with
    /// `property_count` animated properties; every property starts absent.
    pub fn new(normalized_time: i64, property_count: usize) -> (r: KeyframeBuilder)
        requires
            0 <= normalized_time <= NORM_UNIT,
        ensures
            r.spec_normalized_time() == normalized_time,
            r.spec_easing() is None,
            r.spec_data().len() == property_count,
            forall|p: int| 0 <= p < property_count ==> #[trigger] r.spec_data()[p] is None,
    {
        let mut data: Vec<Option<i64>> = Vec::new();
        let mut p: usize = 0;
        while p < property_count
            invariant
                p <= property_count,
                data@.len() == p,
                forall|q: int| 0 <= q < p ==> #[trigger] data@[q] is None,
            decreases property_count - p,
        {
            data.push(Option::None);
            p = p + 1;
        }
        KeyframeBuilder { data, easing: Option::None, normalized_time }
    }

    /// Declares the value of one property at this keyframe.
    pub fn set(self, property: usize, value: i64) -> (r: KeyframeBuilder)
        requires
            property < self.spec_data().len(),
        ensures
            r.spec_data() == self.spec_data().update(property as int, Some(value)),
            r.spec_easing() == self.spec_easing(),
            r.spec_normalized_time() == self.spec_normalized_time(),
    {
        let mut next = self;
        next.data[property] = Some(value);
        next
    }

    /// Declares the easing that applies from this keyframe onward, until a
    /// later keyframe declares its own.
    pub fn easing(self, easing: Easing) -> (r: KeyframeBuilder)
        requires
            easing.wf(),
        ensures
            r.spec_data() == self.spec_data(),
            r.spec_easing() == Some(easing),
            r.spec_normalized_time() == self.spec_normalized_time(),
    {
        let mut next = self;
        next.easing = Some(easing);
        next
    }

    /// Creates the [`Keyframe`] from this builder.
    pub fn build(&self) -> (r: Keyframe)
        requires
            0 <= self.spec_normalized_time() <= NORM_UNIT,
            self.spec_easing() matches Some(e) ==> e.wf(),
        ensures
            r.data@ == self.spec_data(),
            r.easing == self.spec_easing(),
            r.normalized_time == self.spec_normalized_time(),
            r.wf(),
    {
        let data = copy_sparse_values(&self.data);
        Keyframe::new(self.normalized_time, data, self.easing)
    }
}

/// Copies a sparse value list.
fn copy_sparse_values(values: &Vec<Option<i64>>) -> (r: Vec<Option<i64>>)
    ensures
        r@ == values@,
{
    let mut out: Vec<Option<i64>> = Vec::new();
    let mut i: usize = 0;
    while i < values.len()
        invariant
            i <= values@.len(),
            out@ == values@.take(i as int),
        decreases values@.len() - i,
    {
        out.push(values[i]);
        proof {
            assert(values@.take(i + 1) =~= values@.take(i as int).push(values@[i as int]));
        }
        i = i + 1;
    }
    proof {
        assert(values@.take(values@.len() as int) =~= values@);
    }
    out
}

/// Configuration and fluent builder for a [`Timeline`]: the keyframes, their
/// shared timing settings, and the per-property defaults.
#[derive(Clone, Debug)]
pub struct TimelineConfiguration {
    /// Easing applied until a keyframe overrides it.
    pub default_easing: Easing,
    /// Delay, in ticks, before the animation starts.
    pub delay: i64,
    /// Duration, in ticks, of one animation cycle.
    pub duration: i64,
    /// Keyframes in declaration order; sorted stably by time when built.
    pub keyframes: Vec<Keyframe>,
    /// Number of animated properties of the target.
    pub property_count: usize,
    /// Per-property values used for synthesized frames at position `0`.
    pub default_values: Vec<i64>,
    /// Whether and how many times the animation repeats.
    pub repeat: Repeat,
    /// Whether each cycle reverses during its second half.
    pub reverse: bool,
}

impl TimelineConfiguration {
    /// Configuration well-formedness: machine bounds on the timing values
    /// and keyframes that match the target's property count.
    pub open spec fn wf(&self) -> bool {
        &&& self.default_easing.wf()
        &&& 0 <= self.delay <= MAX_CYCLE
        &&& 0 <= self.duration <= MAX_CYCLE
        &&& (self.repeat matches Repeat::Times(k) ==> k <= MAX_REPEATS)
        &&& self.default_values@.len() == self.property_count
        &&& forall|i: int|
            0 <= i < self.keyframes@.len() ==> (#[trigger] self.keyframes@[i]).wf()
                && self.keyframes@[i].data@.len() == self.property_count
    }

    /// Starts a configuration for targets with `property_count` animated
    /// properties: no keyframes, linear easing, a one-tick cycle, no delay,
    /// no repetition, and zero default values.
    pub fn new(property_count: usize) -> (r: TimelineConfiguration)
        ensures
            r.default_easing == Easing::Linear,
            r.delay == 0,
            r.duration == NORM_UNIT,
            r.keyframes@.len() == 0,
            r.property_count == property_count,
            r.default_values@.len() == property_count,
            forall|p: int| 0 <= p < property_count ==> #[trigger] r.default_values@[p] == 0,
            r.repeat == Repeat::Once,
            !r.reverse,
            r.wf(),
    {
        let mut default_values: Vec<i64> = Vec::new();
        let mut p: usize = 0;
        while p < property_count
            invariant
                p <= property_count,
                default_values@.len() == p,
                forall|q: int| 0 <= q < p ==> #[trigger] default_values@[q] == 0,
            decreases property_count - p,
        {
            default_values.push(0);
            p = p + 1;
        }
        TimelineConfiguration {
            default_easing: Easing::Linear,
            delay: 0,
            duration: NORM_UNIT,
            keyframes: Vec::new(),
            property_count,
            default_values,
            repeat: Repeat::Once,
            reverse: false,
        }
    }

    /// Configures the default easing, applied until a keyframe overrides it.
    pub fn default_easing(self, default_easing: Easing) -> (r: TimelineConfiguration)
        requires
            default_easing.wf(),
        ensures
            r == (TimelineConfiguration { default_easing, ..self }),
    {
        let mut next = self;
        next.default_easing = default_easing;
        next
    }

    /// Configures the delay, in ticks, before the animation starts. The
    /// delay applies once, not per cycle.
    pub fn delay_seconds(self, delay: i64) -> (r: TimelineConfiguration)
        requires
            0 <= delay <= MAX_CYCLE,
        ensures
            r == (TimelineConfiguration { delay, ..self }),
    {
        let mut next = self;
        next.delay = delay;
        next
    }

    /// Configures the duration, in ticks, of one animation cycle. When the
    /// animation reverses, the first half of the cycle plays forward and the
    /// second half backward.
    pub fn duration_seconds(self, duration: i64) -> (r: TimelineConfiguration)
        requires
            0 <= duration <= MAX_CYCLE,
        ensures
            r == (TimelineConfiguration { duration, ..self }),
    {
        let mut next = self;
        next.duration = duration;
        next
    }

    /// Adds a keyframe built by the supplied [`KeyframeBuilder`].
    pub fn keyframe(self, builder: KeyframeBuilder) -> (r: TimelineConfiguration)
        requires
            builder.spec_data().len() == self.property_count,
            0 <= builder.spec_normalized_time() <= NORM_UNIT,
            builder.spec_easing() matches Some(e) ==> e.wf(),
        ensures
            r.keyframes@.len() == self.keyframes@.len() + 1,
            r.keyframes@.last().data@ == builder.spec_data(),
            r.keyframes@.last().easing == builder.spec_easing(),
            r.keyframes@.last().normalized_time == builder.spec_normalized_time(),
            r.keyframes@.drop_last() == self.keyframes@,
            r == (TimelineConfiguration { keyframes: r.keyframes, ..self }),
    {
        let kf = builder.build();
        let mut next = self;
        next.keyframes.push(kf);
        next
    }

    /// Configures the number of repetitions (cycles).
    pub fn repeat(self, repeat: Repeat) -> (r: TimelineConfiguration)
        requires
            repeat matches Repeat::Times(k) ==> k <= MAX_REPEATS,
        ensures
            r == (TimelineConfiguration { repeat, ..self }),
    {
        let mut next = self;
        next.repeat = repeat;
        next
    }

    /// Configures whether each cycle automatically reverses during its
    /// second half, using the same keyframes and easing as the forward half.
    pub fn reverse(self, reverse: bool) -> (r: TimelineConfiguration)
        ensures
            r == (TimelineConfiguration { reverse, ..self }),
    {
        let mut next = self;
        next.reverse = reverse;
        next
    }

    /// Configures the per-property default values, used wherever a track
    /// needs a synthesized frame at position `0`.
    pub fn default_values(self, default_values: Vec<i64>) -> (r: TimelineConfiguration)
        requires
            default_values@.len() == self.property_count,
        ensures
            r == (TimelineConfiguration { default_values: r.default_values, ..self }),
            r.default_values@ == default_values@,
    {
        let mut next = self;
        next.default_values = default_values;
        next
    }
}

impl Default for TimelineConfiguration {
    /// A configuration for targets without animated properties; see
    /// [`TimelineConfiguration::new`].
    fn default() -> (r: TimelineConfiguration)
        ensures
            r.keyframes@.len() == 0,
            r.property_count == 0,
            r.wf(),
    {
        TimelineConfiguration::new(0)
    }
}

/// Trait for builders that create [`Timeline`] values; implemented by
/// [`TimelineConfiguration`].
pub trait TimelineBuilder: Sized {
    /// What a well-formed builder of this kind looks like.
    spec fn builder_wf(&self) -> bool;

    /// Builds a timeline, consuming the builder in the process.
    fn build(self) -> Result<Timeline, AnimationError>
        requires
            self.builder_wf(),
    ;
}

impl TimelineBuilder for TimelineConfiguration {
    open spec fn builder_wf(&self) -> bool {
        self.wf()
    }

    fn build(self) -> Result<Timeline, AnimationError> {
        self.build_timeline()
    }
}

impl TimelineConfiguration {
    /// Builds the configured [`Timeline`]: keyframes are sorted stably by
    /// time, split into one track per property, and bound to the configured
    /// time scale.
    ///
    /// Fails with [`AnimationError::DegenerateTimeWindow`] — and only then —
    /// when the configured cycle duration is not positive, since such a
    /// window cannot normalize any elapsed time.
    pub fn build_timeline(self) -> (r: Result<Timeline, AnimationError>)
        requires
            self.wf(),
        ensures
            r is Ok <==> self.duration >= 1,
            r is Err ==> r == Err::<Timeline, AnimationError>(AnimationError::DegenerateTimeWindow),
            r matches Ok(tl) ==> {
                &&& tl.timescale == (TimeScale {
                    delay: self.delay,
                    duration: self.duration,
                    repeat: self.repeat,
                    reverse: self.reverse,
                })
                &&& tl.boundary_times@.len() == self.keyframes@.len()
                &&& forall|i: int|
                    0 <= i < tl.boundary_times@.len() ==> #[trigger] tl.boundary_times@[i]
                        == spec_sort_keyframes(self.keyframes@)[i].normalized_time
                &&& tl.subs@.len() == self.property_count
                &&& forall|p: int|
                    0 <= p < self.property_count ==> (#[trigger] tl.subs@[p]).frames@
                        == spec_track_frames(
                        spec_sort_keyframes(self.keyframes@),
                        p,
                        self.default_values@[p],
                        self.default_easing,
                    ) && tl.subs@[p].frame_index_map@ == spec_track_index_map(
                        spec_sort_keyframes(self.keyframes@),
                        p,
                        self.default_values@[p],
                        self.default_easing,
                    ) && tl.subs@[p].start_override is None
                &&& tl.wf()
            },
    {
        if self.duration < 1 {
            return Err(AnimationError::DegenerateTimeWindow);
        }
        let TimelineConfiguration {
            default_easing,
            delay,
            duration,
            keyframes,
            property_count,
            default_values,
            repeat,
            reverse,
        } = self;
        let ghost original = keyframes@;
        let sorted = sort_keyframes(keyframes);
        proof {
            lemma_sort_keyframes_props(original);
            assert forall|i: int| 0 <= i < sorted@.len() implies (#[trigger] sorted@[i]).wf()
                && sorted@[i].data@.len() == property_count by {
                assert(original.contains(sorted@[i]));
                let w = choose|w: int| 0 <= w < original.len() && original[w] == sorted@[i];
            }
        }
        let mut boundary_times: Vec<i64> = Vec::new();
        let mut i: usize = 0;
        while i < sorted.len()
            invariant
                i <= sorted@.len(),
                boundary_times@.len() == i,
                forall|j: int|
                    0 <= j < i ==> #[trigger] boundary_times@[j] == sorted@[j].normalized_time,
            decreases sorted@.len() - i,
        {
            let t = sorted[i].normalized_time;
            boundary_times.push(t);
            i = i + 1;
        }
        let mut subs: Vec<SubTimeline> = Vec::new();
        let mut p: usize = 0;
        while p < property_count
            invariant
                p <= property_count,
                subs@.len() == p,
                default_values@.len() == property_count,
                default_easing.wf(),
                sorted@ == spec_sort_keyframes(original),
                spec_keyframes_sorted(sorted@),
                forall|j: int|
                    0 <= j < sorted@.len() ==> (#[trigger] sorted@[j]).wf() && sorted@[j].data@.len()
                        == property_count,
                forall|q: int|
                    0 <= q < p ==> (#[trigger] subs@[q]).frames@ == spec_track_frames(
                        sorted@,
                        q,
                        default_values@[q],
                        default_easing,
                    ) && subs@[q].frame_index_map@ == spec_track_index_map(
                        sorted@,
                        q,
                        default_values@[q],
                        default_easing,
                    ) && subs@[q].start_override is None && subs@[q].wf()
                        && subs@[q].frame_index_map@.len() == sorted@.len(),
            decreases property_count - p,
        {
            let dv = default_values[p];
            let sub = SubTimeline::from_keyframes(&sorted, p, dv, default_easing);
            subs.push(sub);
            p = p + 1;
        }
        let timescale = TimeScale::new(duration, delay, repeat, reverse);
        Ok(Timeline { boundary_times, timescale, subs })
    }
}

/// What a sequence of timelines applied in order leaves in a target: each
/// timeline overwrites the properties it defines, so a later timeline's
/// write for a property wins over an earlier one's.
pub open spec fn spec_merged_values(tls: Seq<Timeline>, vals: Seq<i64>, time: int) -> Seq<i64>
    decreases tls.len(),
{
    if tls.len() == 0 {
        vals
    } else {
        spec_merged_values(tls.drop_first(), spec_timeline_values(tls[0], vals, time), time)
    }
}

/// The common cycle duration of a list of timelines: the single shared value
/// when every component reports the same one, and nothing otherwise — a
/// composite of heterogeneous cycle lengths has no well-defined cycle.
pub open spec fn spec_merged_cycle_duration(tls: Seq<Timeline>) -> Option<i64>
    decreases tls.len(),
{
    if tls.len() == 0 {
        Option::None
    } else if tls.len() == 1 {
        Some(tls[0].timescale.duration)
    } else {
        if spec_merged_cycle_duration(tls.drop_last()) == Some(tls.last().timescale.duration) {
            spec_merged_cycle_duration(tls.drop_last())
        } else {
            Option::None
        }
    }
}

/// The earliest delay among a list of timelines (the first one on ties), or
/// `0` for an empty list: the moment any sub-animation can begin.
pub open spec fn spec_merged_delay(tls: Seq<Timeline>) -> i64
    decreases tls.len(),
{
    if tls.len() == 0 {
        0i64
    } else if tls.len() == 1 {
        tls[0].timescale.delay
    } else {
        if tls.last().timescale.delay < spec_merged_delay(tls.drop_last()) {
            tls.last().timescale.delay
        } else {
            spec_merged_delay(tls.drop_last())
        }
    }
}

/// Whether total duration `a` lasts at least as long as `b`, with
/// [`TimelineDuration::Infinite`] as the maximum.
pub open spec fn spec_duration_ge(a: TimelineDuration, b: TimelineDuration) -> bool {
    match (a, b) {
        (TimelineDuration::Infinite, _) => true,
        (TimelineDuration::Finite(x), TimelineDuration::Infinite) => false,
        (TimelineDuration::Finite(x), TimelineDuration::Finite(y)) => x >= y,
    }
}

/// The longest total duration among a list of timelines (the last one on
/// ties), or zero ticks for an empty list; an infinite component wins.
pub open spec fn spec_merged_duration(tls: Seq<Timeline>) -> TimelineDuration
    decreases tls.len(),
{
    if tls.len() == 0 {
        TimelineDuration::Finite(0i64)
    } else if tls.len() == 1 {
        tls[0].timescale.spec_duration()
    } else {
        if spec_duration_ge(tls.last().timescale.spec_duration(), spec_merged_duration(tls.drop_last())) {
            tls.last().timescale.spec_duration()
        } else {
            spec_merged_duration(tls.drop_last())
        }
    }
}

/// The repeat setting with the most extra cycles among a list of timelines
/// (the last one on ties), or [`Repeat::Once`] for an empty list.
pub open spec fn spec_merged_repeat(tls: Seq<Timeline>) -> Repeat
    decreases tls.len(),
{
    if tls.len() == 0 {
        Repeat::Once
    } else {
        if tls.last().timescale.repeat.spec_ordinal() >= spec_merged_repeat(
            tls.drop_last(),
        ).spec_ordinal() {
            tls.last().timescale.repeat
        } else {
            spec_merged_repeat(tls.drop_last())
        }
    }
}

/// A timeline composed of several inner timelines applied to one target.
///
/// Composites express animations that a single keyframe list cannot — for
/// example, properties that need different cycle lengths or repeat settings.
/// Components are applied in order, so when two animate the same property at
/// the same time, the later one decides (see
/// [`lemma_merged_last_write_wins`]).
#[derive(Clone, Debug)]
pub struct MergedTimeline {
    /// Component timelines, applied in order on every update.
    pub timelines: Vec<Timeline>,
}

impl MergedTimeline {
    /// Number of animated properties shared by every component.
    pub open spec fn property_count(&self) -> nat {
        if self.timelines@.len() == 0 {
            0
        } else {
            self.timelines@[0].property_count()
        }
    }

    /// Composite well-formedness: every component is well formed and they
    /// all animate targets of the same shape.
    pub open spec fn wf(&self) -> bool {
        forall|i: int|
            0 <= i < self.timelines@.len() ==> (#[trigger] self.timelines@[i]).wf()
                && self.timelines@[i].property_count() == self.property_count()
    }

    /// Creates a composite from component timelines, queried in order.
    pub fn of(timelines: Vec<Timeline>) -> (r: MergedTimeline)
        requires
            forall|i: int| 0 <= i < timelines@.len() ==> (#[trigger] timelines@[i]).wf(),
            forall|i: int|
                0 <= i < timelines@.len() ==> (#[trigger] timelines@[i]).property_count()
                    == timelines@[0].property_count(),
        ensures
            r.timelines == timelines,
            r.wf(),
    {
        MergedTimeline { timelines }
    }

    /// Gets the cycle duration shared by every component, or nothing when
    /// the components disagree (or there are none).
    pub fn cycle_duration(&self) -> (r: Option<i64>)
        ensures
            r == spec_merged_cycle_duration(self.timelines@),
    {
        let n = self.timelines.len();
        if n == 0 {
            return Option::None;
        }
        let mut acc: Option<i64> = Some(self.timelines[0].timescale.get_cycle_duration());
        let mut i: usize = 1;
        proof {
            assert(self.timelines@.take(1).len() == 1);
            assert(self.timelines@.take(1)[0] == self.timelines@[0]);
        }
        while i < n
            invariant
                1 <= i <= n,
                n == self.timelines@.len(),
                acc == spec_merged_cycle_duration(self.timelines@.take(i as int)),
            decreases n - i,
        {
            let d = self.timelines[i].timescale.get_cycle_duration();
            let next: Option<i64> = match acc {
                Some(a) => if a == d {
                    Some(a)
                } else {
                    Option::None
                },
                Option::None => Option::None,
            };
            proof {
                let t = self.timelines@.take(i + 1);
                assert(t.drop_last() =~= self.timelines@.take(i as int));
                assert(t.last() == self.timelines@[i as int]);
            }
            acc = next;
            i = i + 1;
        }
        proof {
            assert(self.timelines@.take(n as int) =~= self.timelines@);
        }
        acc
    }

    /// Gets the earliest delay among the components: the delay before any
    /// sub-animation starts. An empty composite reports no delay.
    pub fn delay(&self) -> (r: i64)
        ensures
            r == spec_merged_delay(self.timelines@),
    {
        let n = self.timelines.len();
        if n == 0 {
            return 0;
        }
        let mut acc: i64 = self.timelines[0].timescale.get_delay();
        let mut i: usize = 1;
        proof {
            assert(self.timelines@.take(1).len() == 1);
            assert(self.timelines@.take(1)[0] == self.timelines@[0]);
        }
        while i < n
            invariant
                1 <= i <= n,
                n == self.timelines@.len(),
                acc == spec_merged_delay(self.timelines@.take(i as int)),
            decreases n - i,
        {
            let d = self.timelines[i].timescale.get_delay();
            proof {
                let t = self.timelines@.take(i + 1);
                assert(t.drop_last() =~= self.timelines@.take(i as int));
                assert(t.last() == self.timelines@[i as int]);
            }
            if d < acc {
                acc = d;
            }
            i = i + 1;
        }
        proof {
            assert(self.timelines@.take(n as int) =~= self.timelines@);
        }
        acc
    }

    /// Gets the total duration of the composite: the longest component
    /// duration, infinite when any component repeats forever.
    pub fn duration(&self) -> (r: TimelineDuration)
        requires
            self.wf(),
        ensures
            r == spec_merged_duration(self.timelines@),
    {
        let n = self.timelines.len();
        if n == 0 {
            return TimelineDuration::Finite(0);
        }
        let mut acc: TimelineDuration = self.timelines[0].timescale.get_duration();
        let mut i: usize = 1;
        proof {
            assert(self.timelines@.take(1).len() == 1);
            assert(self.timelines@.take(1)[0] == self.timelines@[0]);
        }
        while i < n
            invariant
                1 <= i <= n,
                n == self.timelines@.len(),
                self.wf(),
                acc == spec_merged_duration(self.timelines@.take(i as int)),
            decreases n - i,
        {
            let d = self.timelines[i].timescale.get_duration();
            proof {
                let t = self.timelines@.take(i + 1);
                assert(t.drop_last() =~= self.timelines@.take(i as int));
                assert(t.last() == self.timelines@[i as int]);
            }
            let keep_new: bool = match (d, acc) {
                (TimelineDuration::Infinite, _) => true,
                (TimelineDuration::Finite(x), TimelineDuration::Infinite) => false,
                (TimelineDuration::Finite(x), TimelineDuration::Finite(y)) => x >= y,
            };
            if keep_new {
                acc = d;
            }
            i = i + 1;
        }
        proof {
            assert(self.timelines@.take(n as int) =~= self.timelines@);
        }
        acc
    }

    /// Gets the repeat setting with the most extra cycles among the
    /// components.
    pub fn repeat(&self) -> (r: Repeat)
        ensures
            r == spec_merged_repeat(self.timelines@),
    {
        let n = self.timelines.len();
        let mut acc: Repeat = Repeat::Once;
        let mut i: usize = 0;
        proof {
            assert(self.timelines@.take(0).len() == 0);
        }
        while i < n
            invariant
                0 <= i <= n,
                n == self.timelines@.len(),
                acc == spec_merged_repeat(self.timelines@.take(i as int)),
            decreases n - i,
        {
            let d = self.timelines[i].timescale.get_repeat();
            proof {
                let t = self.timelines@.take(i + 1);
                assert(t.drop_last() =~= self.timelines@.take(i as int));
                assert(t.last() == self.timelines@[i as int]);
            }
            if d.as_ordinal() >= acc.as_ordinal() {
                acc = d;
            }
            i = i + 1;
        }
        proof {
            assert(self.timelines@.take(n as int) =~= self.timelines@);
        }
        acc
    }

    /// Rebases every component to start from the given values; see
    /// [`Timeline::start_with`].
    pub fn start_with(&mut self, values: &Vec<i64>)
        requires
            old(self).wf(),
            values@.len() == old(self).property_count(),
        ensures
            final (self).timelines@.len() == old(self).timelines@.len(),
            forall|i: int|
                0 <= i < old(self).timelines@.len() ==> {
                    let new_tl = #[trigger] final (self).timelines@[i];
                    let old_tl = old(self).timelines@[i];
                    &&& new_tl.boundary_times == old_tl.boundary_times
                    &&& new_tl.timescale == old_tl.timescale
                    &&& new_tl.subs@.len() == old_tl.subs@.len()
                    &&& forall|p: int|
                        0 <= p < old_tl.subs@.len() ==> (#[trigger] new_tl.subs@[p]).frames
                            == old_tl.subs@[p].frames && new_tl.subs@[p].frame_index_map
                            == old_tl.subs@[p].frame_index_map && new_tl.subs@[p].start_override
                            == Some(values@[p])
                },
            final (self).wf(),
            final (self).property_count() == old(self).property_count(),
    {
        let n = self.timelines.len();
        let mut i: usize = 0;
        while i < n
            invariant
                0 <= i <= n,
                n == self.timelines@.len(),
                self.timelines@.len() == old(self).timelines@.len(),
                old(self).wf(),
                values@.len() == old(self).property_count(),
                forall|j: int|
                    0 <= j < i ==> {
                        let new_tl = #[trigger] self.timelines@[j];
                        let old_tl = old(self).timelines@[j];
                        &&& new_tl.boundary_times == old_tl.boundary_times
                        &&& new_tl.timescale == old_tl.timescale
                        &&& new_tl.subs@.len() == old_tl.subs@.len()
                        &&& new_tl.wf()
                        &&& forall|p: int|
                            0 <= p < old_tl.subs@.len() ==> (#[trigger] new_tl.subs@[p]).frames
                                == old_tl.subs@[p].frames && new_tl.subs@[p].frame_index_map
                                == old_tl.subs@[p].frame_index_map
                                && new_tl.subs@[p].start_override == Some(values@[p])
                    },
                forall|j: int|
                    i <= j < n ==> #[trigger] self.timelines@[j] == old(self).timelines@[j],
            decreases n - i,
        {
            proof {
                assert(old(self).timelines@[i as int].wf());
                assert(old(self).timelines@[i as int].property_count() == old(
                    self,
                ).property_count());
            }
            self.timelines[i].start_with(values);
            i = i + 1;
        }
    }

    /// Updates a target to represent the composite at a given time: every
    /// component timeline is applied in order, each overwriting the
    /// properties it defines and leaving the rest alone.
    pub fn update(&self, target: &mut Vec<i64>, time: i64)
        requires
            self.wf(),
            old(target)@.len() == self.property_count(),
        ensures
            final (target)@.len() == old(target)@.len(),
            final (target)@ == spec_merged_values(self.timelines@, old(target)@, time as int),
    {
        let n = self.timelines.len();
        let mut i: usize = 0;
        proof {
            assert(self.timelines@.skip(0) =~= self.timelines@);
        }
        while i < n
            invariant
                0 <= i <= n,
                n == self.timelines@.len(),
                self.wf(),
                target@.len() == old(target)@.len(),
                old(target)@.len() == self.property_count(),
                spec_merged_values(self.timelines@, old(target)@, time as int)
                    == spec_merged_values(self.timelines@.skip(i as int), target@, time as int),
            decreases n - i,
        {
            let ghost before = target@;
            let tl = &self.timelines[i];
            tl.update(target, time);
            proof {
                assert(target@ =~= spec_timeline_values(*tl, before, time as int));
                let rest = self.timelines@.skip(i as int);
                assert(rest[0] == self.timelines@[i as int]);
                assert(rest.drop_first() =~= self.timelines@.skip(i + 1));
                assert(spec_merged_values(rest, before, time as int) == spec_merged_values(
                    rest.drop_first(),
                    spec_timeline_values(rest[0], before, time as int),
                    time as int,
                ));
            }
            i = i + 1;
        }
        proof {
            assert(self.timelines@.skip(n as int) =~= Seq::<Timeline>::empty());
        }
    }

    /// Wraps a single timeline as a composite with one component.
    pub fn from_timeline(timeline: Timeline) -> (r: MergedTimeline)
        requires
            timeline.wf(),
        ensures
            r.timelines@.len() == 1,
            r.timelines@[0] == timeline,
            r.wf(),
            r.property_count() == timeline.property_count(),
    {
        let mut timelines: Vec<Timeline> = Vec::new();
        timelines.push(timeline);
        MergedTimeline { timelines }
    }
}

/// Last write wins: in a composite of two timelines that both define
/// property `p` at some time, the update leaves the second timeline's value
/// there, whatever the first one wrote.
pub proof fn lemma_merged_last_write_wins(
    t1: Timeline,
    t2: Timeline,
    vals: Seq<i64>,
    time: int,
    p: int,
    v: i64,
)
    requires
        0 <= p < vals.len(),
        spec_timeline_value(t2, p, time) == Some(v),
    ensures
        spec_merged_values(seq![t1, t2], vals, time)[p] == v,
{
    let pair = seq![t1, t2];
    let after1 = spec_timeline_values(t1, vals, time);
    let after2 = spec_timeline_values(t2, after1, time);
    assert(pair.drop_first() =~= seq![t2]);
    assert(seq![t2].drop_first() =~= Seq::<Timeline>::empty());
    assert(pair[0] == t1);
    assert(seq![t2][0] == t2);
    assert(spec_merged_values(pair, vals, time) == spec_merged_values(seq![t2], after1, time));
    assert(spec_merged_values(seq![t2], after1, time) == spec_merged_values(
        Seq::<Timeline>::empty(),
        after2,
        time,
    ));
    assert(after2[p] == v);
}

/// Updating is idempotent: applying a timeline twice at the same time, the
/// second pass rewrites exactly the values the first one wrote and touches
/// nothing else, so the target does not change further.
pub proof fn lemma_update_idempotent(tl: Timeline, vals: Seq<i64>, time: int)
    ensures
        spec_timeline_values(tl, spec_timeline_values(tl, vals, time), time)
            == spec_timeline_values(tl, vals, time),
{
    let once = spec_timeline_values(tl, vals, time);
    let twice = spec_timeline_values(tl, once, time);
    assert forall|p: int| 0 <= p < once.len() implies twice[p] == once[p] by {
        assert(once[p] == spec_update_one(tl, vals[p], time, p));
    }
    assert(twice =~= once);
}

/// Blend continuity: a timeline whose track for property `p` has been
/// rebased onto value `v` evaluates property `p` at elapsed time `0` to `v`
/// itself — transitioning states produces no instantaneous jump, however
/// the timeline's configured start keyframe differs. Holds for every
/// delay/repeat/reverse configuration, provided at most one master keyframe
/// sits at position `0`.
pub proof fn lemma_blend_continuity(
    tl: Timeline,
    kfs: Seq<Keyframe>,
    p: int,
    default_value: i64,
    default_easing: Easing,
    v: i64,
)
    requires
        tl.wf(),
        0 <= p < tl.subs@.len(),
        tl.boundary_times@.len() == kfs.len(),
        forall|i: int| 1 <= i < tl.boundary_times@.len() ==> #[trigger] tl.boundary_times@[i] > 0,
        tl.subs@[p].frames@ == crate::timeline_helpers::spec_track_frames(
            kfs,
            p,
            default_value,
            default_easing,
        ),
        tl.subs@[p].frame_index_map@ == crate::timeline_helpers::spec_track_index_map(
            kfs,
            p,
            default_value,
            default_easing,
        ),
        tl.subs@[p].start_override == Some(v),
    ensures
        spec_update_one(tl, v, 0, p) == v,
{
    if tl.boundary_times@.len() > 0 {
        // At elapsed time zero the timeline evaluates at position zero with
        // the start override enabled, through the first keyframe's entry.
        crate::time_scale::lemma_delay_gating(tl.timescale, 0);
        assert(spec_prepared_time(tl.timescale, 0) == 0);
        assert(spec_enable_start_override(tl.timescale, 0));
        lemma_frame_index_char(tl.boundary_times@, 0);
        let hint = spec_frame_index(tl.boundary_times@, 0);
        if hint > 0 {
            assert(tl.boundary_times@[hint] <= 0);
            assert(tl.boundary_times@[hint] > 0);
        }
        assert(hint == 0);
        crate::timeline_helpers::lemma_track_value_at_zero(
            tl.subs@[p],
            kfs,
            p,
            default_value,
            default_easing,
            true,
        );
    }
}

} // verus!
