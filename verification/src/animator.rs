//! Stateful animation: a mapping from discrete states to composite
//! timelines, a live value snapshot, and transitions that blend the next
//! animation onto whatever the previous one had reached.

use vstd::prelude::*;

use crate::time_scale::TimelineDuration;
use crate::timeline::{spec_merged_duration, spec_merged_values, MergedTimeline};

verus! {

/// Read-only lookup shared by map-like containers: anything that can hand
/// out the value stored under a key.
pub trait MapLike<K, V> {
    /// Whether the map holds a value under `key`.
    spec fn spec_contains(&self, key: K) -> bool;

    /// The value held under `key`; meaningful when [`MapLike::spec_contains`]
    /// holds.
    spec fn spec_get(&self, key: K) -> V;

    /// Gets a reference to the value stored under `key`, if any.
    fn get(&self, key: &K) -> (r: Option<&V>)
        ensures
            r is Some <==> self.spec_contains(*key),
            r matches Some(v) ==> *v == self.spec_get(*key),
    ;
}

/// The position of the first entry holding `key`, or `-1` when none does.
pub open spec fn spec_index_of(s: Seq<(u64, MergedTimeline)>, key: u64) -> int
    decreases s.len(),
{
    if s.len() == 0 {
        -1
    } else if s[0].0 == key {
        0
    } else {
        let rest = spec_index_of(s.drop_first(), key);
        if rest < 0 {
            -1
        } else {
            rest + 1
        }
    }
}

/// [`spec_index_of`] finds the first entry holding the key, and `-1` exactly
/// when no entry holds it.
pub proof fn lemma_index_of_char(s: Seq<(u64, MergedTimeline)>, key: u64)
    ensures
        spec_index_of(s, key) < 0 ==> forall|j: int| 0 <= j < s.len() ==> (#[trigger] s[j]).0 != key,
        spec_index_of(s, key) >= 0 ==> 0 <= spec_index_of(s, key) < s.len() && s[spec_index_of(
            s,
            key,
        )].0 == key && forall|j: int| 0 <= j < spec_index_of(s, key) ==> (#[trigger] s[j]).0 != key,
    decreases s.len(),
{
    if s.len() > 0 && s[0].0 != key {
        lemma_index_of_char(s.drop_first(), key);
        let rest = spec_index_of(s.drop_first(), key);
        if rest < 0 {
            assert forall|j: int| 0 <= j < s.len() implies (#[trigger] s[j]).0 != key by {
                if j > 0 {
                    assert(s.drop_first()[j - 1] == s[j]);
                }
            }
        } else {
            assert(s.drop_first()[rest] == s[rest + 1]);
            assert forall|j: int| 0 <= j < rest + 1 implies (#[trigger] s[j]).0 != key by {
                if j > 0 {
                    assert(s.drop_first()[j - 1] == s[j]);
                }
            }
        }
    }
}

/// Sequences that agree on their keys position every key identically.
pub proof fn lemma_index_of_same_keys(
    s1: Seq<(u64, MergedTimeline)>,
    s2: Seq<(u64, MergedTimeline)>,
    key: u64,
)
    requires
        s1.len() == s2.len(),
        forall|j: int| 0 <= j < s1.len() ==> (#[trigger] s1[j]).0 == (#[trigger] s2[j]).0,
    ensures
        spec_index_of(s1, key) == spec_index_of(s2, key),
    decreases s1.len(),
{
    if s1.len() > 0 {
        assert(forall|j: int|
            0 <= j < s1.drop_first().len() ==> (#[trigger] s1.drop_first()[j]).0 == (
            #[trigger] s2.drop_first()[j]).0 && s1.drop_first()[j] == s1[j + 1]
                && s2.drop_first()[j] == s2[j + 1]);
        lemma_index_of_same_keys(s1.drop_first(), s2.drop_first(), key);
    }
}

/// Appending an entry leaves every present key where it was, positions the
/// appended entry's key at the end when it was absent, and leaves every
/// other absent key absent.
pub proof fn lemma_index_of_push(
    s: Seq<(u64, MergedTimeline)>,
    entry: (u64, MergedTimeline),
    key: u64,
)
    ensures
        spec_index_of(s, key) >= 0 ==> spec_index_of(s.push(entry), key) == spec_index_of(s, key),
        spec_index_of(s, key) < 0 && entry.0 == key ==> spec_index_of(s.push(entry), key)
            == s.len(),
        spec_index_of(s, key) < 0 && entry.0 != key ==> spec_index_of(s.push(entry), key) < 0,
    decreases s.len(),
{
    if s.len() == 0 {
        assert(s.push(entry)[0] == entry);
        assert(s.push(entry).drop_first() =~= Seq::<(u64, MergedTimeline)>::empty());
        assert(spec_index_of(Seq::<(u64, MergedTimeline)>::empty(), key) == -1);
    } else {
        assert(s.push(entry)[0] == s[0]);
        assert(s.push(entry).drop_first() =~= s.drop_first().push(entry));
        lemma_index_of_push(s.drop_first(), entry, key);
        if s[0].0 != key {
            let rest = spec_index_of(s.drop_first(), key);
            let rest_pushed = spec_index_of(s.drop_first().push(entry), key);
            assert(spec_index_of(s, key) == if rest < 0 {
                -1int
            } else {
                rest + 1
            });
            assert(spec_index_of(s.push(entry), key) == if rest_pushed < 0 {
                -1int
            } else {
                rest_pushed + 1
            });
        }
    }
}

/// An entry holding the key makes [`spec_index_of`] find one.
pub proof fn lemma_index_of_exists(s: Seq<(u64, MergedTimeline)>, key: u64, at: int)
    requires
        0 <= at < s.len(),
        s[at].0 == key,
    ensures
        spec_index_of(s, key) >= 0,
    decreases s.len(),
{
    if s[0].0 != key {
        assert(s.drop_first()[at - 1] == s[at]);
        lemma_index_of_exists(s.drop_first(), key, at - 1);
    }
}

/// An association from state values to the composite timelines that animate
/// them. Lookups find the first entry for a state; insertion replaces it, so
/// each state effectively has one timeline.
#[derive(Clone, Debug)]
pub struct StateTimelineMap {
    /// State/timeline pairs in insertion order.
    pub entries: Vec<(u64, MergedTimeline)>,
}

impl StateTimelineMap {
    /// Whether some entry holds `key`.
    pub open spec fn spec_contains_key(&self, key: u64) -> bool {
        spec_index_of(self.entries@, key) >= 0
    }

    /// The timeline stored under `key`; meaningful when the key is present.
    pub open spec fn spec_timeline_at(&self, key: u64) -> MergedTimeline {
        self.entries@[spec_index_of(self.entries@, key)].1
    }

    /// Every stored timeline is well formed and animates targets with
    /// `property_count` values.
    pub open spec fn wf_for(&self, property_count: nat) -> bool {
        forall|i: int|
            0 <= i < self.entries@.len() ==> (#[trigger] self.entries@[i]).1.wf()
                && self.entries@[i].1.property_count() == property_count
    }

    /// Creates an empty map.
    pub fn new() -> (r: StateTimelineMap)
        ensures
            r.entries@.len() == 0,
    {
        StateTimelineMap { entries: Vec::new() }
    }

    /// The position of the first entry holding `key`, if any.
    pub fn index_of(&self, key: u64) -> (r: Option<usize>)
        ensures
            r is Some <==> self.spec_contains_key(key),
            r matches Some(i) ==> i as int == spec_index_of(self.entries@, key),
    {
        let n = self.entries.len();
        let mut i: usize = 0;
        while i < n
            invariant
                0 <= i <= n,
                n == self.entries@.len(),
                forall|j: int| 0 <= j < i ==> (#[trigger] self.entries@[j]).0 != key,
            decreases n - i,
        {
            if self.entries[i].0 == key {
                proof {
                    lemma_index_of_char(self.entries@, key);
                    if spec_index_of(self.entries@, key) < 0 {
                        assert(self.entries@[i as int].0 != key);
                    }
                    if spec_index_of(self.entries@, key) < i as int {
                        assert(self.entries@[spec_index_of(self.entries@, key)].0 == key);
                    }
                    if spec_index_of(self.entries@, key) > i as int {
                        assert(self.entries@[i as int].0 != key);
                    }
                }
                return Some(i);
            }
            i = i + 1;
        }
        proof {
            lemma_index_of_char(self.entries@, key);
            if spec_index_of(self.entries@, key) >= 0 {
                assert(self.entries@[spec_index_of(self.entries@, key)].0 == key);
            }
        }
        Option::None
    }

    /// Stores `timeline` under `key`, replacing the previous timeline for
    /// that state if one exists. Every other state keeps its timeline.
    pub fn insert(&mut self, key: u64, timeline: MergedTimeline)
        ensures
            old(self).spec_contains_key(key) ==> final (self).entries@ == old(self).entries@.update(spec_index_of(old(self).entries@, key), (key, timeline)),
            !old(self).spec_contains_key(key) ==> final (self).entries@ == old(self).entries@.push((key, timeline)),
            final (self).spec_contains_key(key),
            final (self).spec_timeline_at(key) == timeline,
            forall|k: u64|
                k != key ==> (final (self).spec_contains_key(k) <==> old(self).spec_contains_key(
                    k,
                )) && (old(self).spec_contains_key(k) ==> final (self).spec_timeline_at(k) == old(
                    self,
                ).spec_timeline_at(k)),
    {
        let ghost before = self.entries@;
        let found = self.index_of(key);
        proof {
            lemma_index_of_char(self.entries@, key);
        }
        match found {
            Some(i) => {
                self.entries[i] = (key, timeline);
            },
            Option::None => {
                self.entries.push((key, timeline));
            },
        }
        proof {
            let after = self.entries@;
            if spec_index_of(before, key) >= 0 {
                let at = spec_index_of(before, key);
                lemma_index_of_char(before, key);
                assert(forall|j: int|
                    0 <= j < before.len() ==> (#[trigger] before[j]).0 == (#[trigger] after[j]).0);
                assert forall|k: u64| true implies spec_index_of(after, k) == spec_index_of(
                    before,
                    k,
                ) && (k != key && spec_index_of(before, k) >= 0 ==> after[spec_index_of(
                    before,
                    k,
                )] == before[spec_index_of(before, k)]) by {
                    lemma_index_of_same_keys(before, after, k);
                    lemma_index_of_char(before, k);
                    if k != key && spec_index_of(before, k) >= 0 {
                        assert(before[spec_index_of(before, k)].0 == k);
                        assert(spec_index_of(before, k) != at);
                    }
                }
            } else {
                assert(after == before.push((key, timeline)));
                assert forall|k: u64| true implies {
                    &&& spec_index_of(before, k) >= 0 ==> spec_index_of(after, k)
                        == spec_index_of(before, k) && after[spec_index_of(before, k)]
                        == before[spec_index_of(before, k)]
                    &&& spec_index_of(before, k) < 0 && k == key ==> spec_index_of(after, k)
                        == before.len()
                    &&& spec_index_of(before, k) < 0 && k != key ==> spec_index_of(after, k) < 0
                } by {
                    lemma_index_of_push(before, (key, timeline), k);
                    lemma_index_of_char(before, k);
                }
            }
        }
    }

    /// Rebases the timeline at entry `i` to start from the given values.
    fn rebase_at(&mut self, i: usize, values: &Vec<i64>)
        requires
            i < old(self).entries@.len(),
            old(self).entries@[i as int].1.wf(),
            values@.len() == old(self).entries@[i as int].1.property_count(),
        ensures
            final (self).entries@.len() == old(self).entries@.len(),
            forall|j: int|
                0 <= j < old(self).entries@.len() && j != i ==> #[trigger] final (self).entries@[j]
                    == old(self).entries@[j],
            final (self).entries@[i as int].0 == old(self).entries@[i as int].0,
            spec_rebased(
                final (self).entries@[i as int].1,
                old(self).entries@[i as int].1,
                values@,
            ),
            final (self).entries@[i as int].1.wf(),
            final (self).entries@[i as int].1.property_count() == old(self).entries@[i as int].1.property_count(),
    {
        self.entries[i].1.start_with(values);
    }
}

impl MapLike<u64, MergedTimeline> for StateTimelineMap {
    open spec fn spec_contains(&self, key: u64) -> bool {
        self.spec_contains_key(key)
    }

    open spec fn spec_get(&self, key: u64) -> MergedTimeline {
        self.spec_timeline_at(key)
    }

    fn get(&self, key: &u64) -> (r: Option<&MergedTimeline>) {
        let found = self.index_of(*key);
        proof {
            lemma_index_of_char(self.entries@, *key);
        }
        match found {
            Some(i) => Some(&self.entries[i].1),
            Option::None => Option::None,
        }
    }
}

/// How a composite looks after being rebased onto `values`: the same
/// structure, with every track's start override set to the matching value.
pub open spec fn spec_rebased(new: MergedTimeline, prev: MergedTimeline, values: Seq<i64>) -> bool {
    &&& new.timelines@.len() == prev.timelines@.len()
    &&& forall|i: int|
        0 <= i < prev.timelines@.len() ==> {
            let new_tl = #[trigger] new.timelines@[i];
            let old_tl = prev.timelines@[i];
            &&& new_tl.boundary_times == old_tl.boundary_times
            &&& new_tl.timescale == old_tl.timescale
            &&& new_tl.subs@.len() == old_tl.subs@.len()
            &&& forall|p: int|
                0 <= p < old_tl.subs@.len() ==> (#[trigger] new_tl.subs@[p]).frames
                    == old_tl.subs@[p].frames && new_tl.subs@[p].frame_index_map
                    == old_tl.subs@[p].frame_index_map && new_tl.subs@[p].start_override == Some(
                    values[p],
                )
        }
}

/// Animates a set of values over time, selecting the animation for the
/// current state and blending transitions: on every state change, the newly
/// active timeline is rebased to start from the values already on screen.
#[derive(Clone, Debug)]
pub struct MappedTimelineAnimator {
    /// The timeline configured for each state.
    pub timelines: StateTimelineMap,
    /// The state the animator is currently in.
    pub current_state: u64,
    /// The live property snapshot, updated by [`MappedTimelineAnimator::advance`].
    pub current_values: Vec<i64>,
    /// Time spent in the current state, in ticks.
    pub elapsed_in_state: i64,
}

impl MappedTimelineAnimator {
    /// Animator well-formedness: every stored timeline is well formed and
    /// matches the snapshot's shape, and elapsed time never runs backward.
    pub open spec fn wf(&self) -> bool {
        &&& self.timelines.wf_for(self.current_values@.len())
        &&& 0 <= self.elapsed_in_state
    }

    /// Gets the current property snapshot.
    pub fn current_values(&self) -> (r: &Vec<i64>)
        ensures
            r == &self.current_values,
    {
        &self.current_values
    }

    /// Gets the current state.
    pub fn current_state(&self) -> (r: u64)
        ensures
            r == self.current_state,
    {
        self.current_state
    }

    /// Advances the current animation by `elapsed` ticks.
    ///
    /// Elapsed time accrues in every state. When the current state has a
    /// timeline, the snapshot is updated to that timeline's values at the
    /// accrued time; in a state with no timeline the snapshot stays frozen.
    pub fn advance(&mut self, elapsed: i64)
        requires
            old(self).wf(),
            0 <= elapsed,
            old(self).elapsed_in_state + elapsed <= i64::MAX,
        ensures
            final (self).timelines == old(self).timelines,
            final (self).current_state == old(self).current_state,
            final (self).elapsed_in_state == old(self).elapsed_in_state + elapsed,
            old(self).timelines.spec_contains_key(old(self).current_state) ==> final (self).current_values@ == spec_merged_values(
                old(self).timelines.spec_timeline_at(old(self).current_state).timelines@,
                old(self).current_values@,
                old(self).elapsed_in_state + elapsed,
            ),
            !old(self).timelines.spec_contains_key(old(self).current_state) ==> final (self).current_values == old(self).current_values,
            final (self).wf(),
    {
        self.elapsed_in_state = self.elapsed_in_state + elapsed;
        let found = self.timelines.index_of(self.current_state);
        if let Some(i) = found {
            proof {
                lemma_index_of_char(self.timelines.entries@, self.current_state);
                assert(self.timelines.entries@[i as int].1.wf());
            }
            let timeline = &self.timelines.entries[i].1;
            timeline.update(&mut self.current_values, self.elapsed_in_state);
        }
    }

    /// Transitions to a new state.
    ///
    /// Changing state never changes the snapshot — the values immediately
    /// after the transition equal the values immediately before it, however
    /// the new timeline's configured start differs (blend continuity). When
    /// the new state has a timeline, that timeline is rebased to start from
    /// the snapshot; elapsed time restarts either way. A transition to the
    /// state already current does nothing at all.
    pub fn set_state(&mut self, state: &u64)
        requires
            old(self).wf(),
        ensures
            final (self).current_values == old(self).current_values,
            *state == old(self).current_state ==> *final (self) == *old(self),
            *state != old(self).current_state ==> {
                &&& final (self).current_state == *state
                &&& final (self).elapsed_in_state == 0
                &&& final (self).timelines.entries@.len() == old(self).timelines.entries@.len()
                &&& old(self).timelines.spec_contains_key(*state) ==> {
                    let at = spec_index_of(old(self).timelines.entries@, *state);
                    &&& forall|j: int|
                        0 <= j < old(self).timelines.entries@.len() && j != at ==> #[trigger] final (self).timelines.entries@[j] == old(self).timelines.entries@[j]
                    &&& final (self).timelines.entries@[at].0 == old(
                        self,
                    ).timelines.entries@[at].0
                    &&& spec_rebased(
                        final (self).timelines.entries@[at].1,
                        old(self).timelines.entries@[at].1,
                        old(self).current_values@,
                    )
                }
                &&& !old(self).timelines.spec_contains_key(*state) ==> final (self).timelines
                    == old(self).timelines
            },
            final (self).wf(),
    {
        if *state == self.current_state {
            return ;
        }
        let found = self.timelines.index_of(*state);
        if let Some(i) = found {
            proof {
                lemma_index_of_char(self.timelines.entries@, *state);
            }
            self.timelines.rebase_at(i, &self.current_values);
        }
        self.current_state = *state;
        self.elapsed_in_state = 0;
    }

    /// Whether the current state's animation has nothing further to play:
    /// the elapsed time has reached the timeline's total duration, or the
    /// state has no timeline at all. An infinitely repeating animation never
    /// ends.
    pub fn is_ended(&self) -> (r: bool)
        requires
            self.wf(),
        ensures
            !self.timelines.spec_contains_key(self.current_state) ==> r,
            self.timelines.spec_contains_key(self.current_state) ==> r == (match spec_merged_duration(
                self.timelines.spec_timeline_at(self.current_state).timelines@,
            ) {
                TimelineDuration::Finite(d) => self.elapsed_in_state >= d,
                TimelineDuration::Infinite => false,
            }),
    {
        let found = self.timelines.index_of(self.current_state);
        proof {
            lemma_index_of_char(self.timelines.entries@, self.current_state);
            if self.timelines.spec_contains_key(self.current_state) {
                assert(self.timelines.entries@[spec_index_of(
                    self.timelines.entries@,
                    self.current_state,
                )].1.wf());
            }
        }
        match found {
            Some(i) => {
                let timeline = &self.timelines.entries[i].1;
                match timeline.duration() {
                    TimelineDuration::Finite(d) => self.elapsed_in_state >= d,
                    TimelineDuration::Infinite => false,
                }
            },
            Option::None => true,
        }
    }
}

/// Builder for a [`MappedTimelineAnimator`]: collects the timeline for each
/// state, the initial state, and the initial values.
#[derive(Clone, Debug)]
pub struct StateAnimatorBuilder {
    /// State the animator starts in.
    pub initial_state: u64,
    /// Snapshot the animator starts from.
    pub initial_values: Vec<i64>,
    /// Timelines collected so far.
    pub timelines: StateTimelineMap,
    /// Number of animated properties of the target.
    pub property_count: usize,
}

impl StateAnimatorBuilder {
    /// Builder well-formedness: collected timelines and initial values all
    /// match the target's property count.
    pub open spec fn wf(&self) -> bool {
        &&& self.timelines.wf_for(self.property_count as nat)
        &&& self.initial_values@.len() == self.property_count
    }

    /// Starts a builder for targets with `property_count` animated
    /// properties: no timelines, the zero state, and zero initial values.
    pub fn new(property_count: usize) -> (r: StateAnimatorBuilder)
        ensures
            r.initial_state == 0,
            r.initial_values@.len() == property_count,
            forall|p: int| 0 <= p < property_count ==> #[trigger] r.initial_values@[p] == 0,
            r.timelines.entries@.len() == 0,
            r.property_count == property_count,
            r.wf(),
    {
        let mut initial_values: Vec<i64> = Vec::new();
        let mut p: usize = 0;
        while p < property_count
            invariant
                p <= property_count,
                initial_values@.len() == p,
                forall|q: int| 0 <= q < p ==> #[trigger] initial_values@[q] == 0,
            decreases property_count - p,
        {
            initial_values.push(0);
            p = p + 1;
        }
        StateAnimatorBuilder {
            initial_state: 0,
            initial_values,
            timelines: StateTimelineMap::new(),
            property_count,
        }
    }

    /// Specifies the state the animator starts in.
    pub fn from_state(self, state: u64) -> (r: StateAnimatorBuilder)
        ensures
            r == (StateAnimatorBuilder { initial_state: state, ..self }),
    {
        let mut next = self;
        next.initial_state = state;
        next
    }

    /// Specifies the values the animator reports before any time advances.
    pub fn from_values(self, values: Vec<i64>) -> (r: StateAnimatorBuilder)
        requires
            values@.len() == self.property_count,
        ensures
            r == (StateAnimatorBuilder { initial_values: r.initial_values, ..self }),
            r.initial_values@ == values@,
    {
        let mut next = self;
        next.initial_values = values;
        next
    }

    /// Configures the timeline for a state, replacing any earlier one.
    pub fn on(self, state: u64, timeline: MergedTimeline) -> (r: StateAnimatorBuilder)
        requires
            self.wf(),
            timeline.wf(),
            timeline.property_count() == self.property_count,
        ensures
            r.initial_state == self.initial_state,
            r.initial_values == self.initial_values,
            r.property_count == self.property_count,
            r.timelines.spec_contains_key(state),
            r.timelines.spec_timeline_at(state) == timeline,
            forall|k: u64|
                k != state ==> (r.timelines.spec_contains_key(k)
                    <==> self.timelines.spec_contains_key(k))
                    && (self.timelines.spec_contains_key(k) ==> r.timelines.spec_timeline_at(k)
                    == self.timelines.spec_timeline_at(k)),
            r.wf(),
    {
        let mut next = self;
        next.timelines.insert(state, timeline);
        proof {
            if self.timelines.spec_contains_key(state) {
                lemma_index_of_char(self.timelines.entries@, state);
            }
        }
        next
    }

    /// Builds the animator, consuming the builder. The initial state's
    /// timeline, when there is one, starts rebased onto the initial values,
    /// so the very first advance already blends from them.
    pub fn build(self) -> (r: MappedTimelineAnimator)
        requires
            self.wf(),
        ensures
            r.current_state == self.initial_state,
            r.current_values == self.initial_values,
            r.elapsed_in_state == 0,
            r.timelines.entries@.len() == self.timelines.entries@.len(),
            self.timelines.spec_contains_key(self.initial_state) ==> {
                let at = spec_index_of(self.timelines.entries@, self.initial_state);
                &&& forall|j: int|
                    0 <= j < self.timelines.entries@.len() && j != at
                        ==> #[trigger] r.timelines.entries@[j] == self.timelines.entries@[j]
                &&& r.timelines.entries@[at].0 == self.timelines.entries@[at].0
                &&& spec_rebased(
                    r.timelines.entries@[at].1,
                    self.timelines.entries@[at].1,
                    self.initial_values@,
                )
            },
            !self.timelines.spec_contains_key(self.initial_state) ==> r.timelines
                == self.timelines,
            r.wf(),
    {
        let StateAnimatorBuilder { initial_state, initial_values, timelines, property_count } =
            self;
        let mut map = timelines;
        let found = map.index_of(initial_state);
        if let Some(i) = found {
            proof {
                lemma_index_of_char(map.entries@, initial_state);
            }
            map.rebase_at(i, &initial_values);
        }
        MappedTimelineAnimator {
            timelines: map,
            current_state: initial_state,
            current_values: initial_values,
            elapsed_in_state: 0,
        }
    }
}

} // verus!
