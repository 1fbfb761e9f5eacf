//! The fleet liveness tracker.
//!
//! For every unit that has been heard from, the tracker keeps the instant of
//! the last sign of life and, where telemetry has arrived, the last full
//! state. Instants and durations are counted in milliseconds of a clock that
//! the caller reads.

use crate::robot::{HealthStatus, RobotState, RobotStatus};
use vstd::prelude::*;
use vstd::string::*;

verus! {

/// What the tracker knows of one unit.
#[derive(Debug)]
struct LivenessEntry {
    id: String,
    state: Option<RobotState>,
    last_seen: u64,
}

spec fn has_id(entries: Seq<LivenessEntry>, id: Seq<char>) -> bool {
    exists|i: int| 0 <= i < entries.len() && entries[i].id@ == id
}

spec fn index_of(entries: Seq<LivenessEntry>, id: Seq<char>) -> int {
    choose|i: int| 0 <= i < entries.len() && entries[i].id@ == id
}

spec fn filed_under_own_id(entry: LivenessEntry) -> bool {
    entry.state matches Some(state) ==> state.id@ == entry.id@
}

spec fn well_formed(entries: Seq<LivenessEntry>) -> bool {
    &&& forall|i: int, j: int|
        0 <= i < j < entries.len() ==> entries[i].id@ != entries[j].id@
    &&& forall|i: int| 0 <= i < entries.len() ==> filed_under_own_id(#[trigger] entries[i])
}

spec fn heartbeat_map(entries: Seq<LivenessEntry>) -> Map<Seq<char>, u64> {
    Map::new(
        |id: Seq<char>| has_id(entries, id),
        |id: Seq<char>| entries[index_of(entries, id)].last_seen,
    )
}

spec fn state_map(entries: Seq<LivenessEntry>) -> Map<Seq<char>, RobotState> {
    Map::new(
        |id: Seq<char>| has_id(entries, id) && entries[index_of(entries, id)].state is Some,
        |id: Seq<char>| entries[index_of(entries, id)].state->0,
    )
}

/// Whether `ids` names exactly the units in `listed`, each of them once.
pub open spec fn lists(ids: Seq<String>, listed: Set<Seq<char>>) -> bool {
    &&& forall|k: int| 0 <= k < ids.len() ==> listed.contains(#[trigger] ids[k]@)
    &&& forall|id: Seq<char>| #[trigger]
        listed.contains(id) ==> exists|k: int| 0 <= k < ids.len() && #[trigger] ids[k]@ == id
    &&& forall|i: int, j: int| 0 <= i < j < ids.len() ==> #[trigger] ids[i]@ != #[trigger] ids[j]@
}

/// Whether a unit last seen at `last_seen` has been silent at `now` for
/// longer than `timeout`. A unit seen after `now` has not been silent at all.
pub open spec fn silent_too_long(last_seen: u64, now: u64, timeout: u64) -> bool {
    now - last_seen > timeout
}

proof fn lemma_index_of(entries: Seq<LivenessEntry>, i: int)
    requires
        well_formed(entries),
        0 <= i < entries.len(),
    ensures
        has_id(entries, entries[i].id@),
        index_of(entries, entries[i].id@) == i,
{
    let j = index_of(entries, entries[i].id@);
    assert(j == i);
}

/// What the two maps hold of the unit of the entry at index `i`.
proof fn lemma_entry_maps(entries: Seq<LivenessEntry>, i: int)
    requires
        well_formed(entries),
        0 <= i < entries.len(),
    ensures
        heartbeat_map(entries).dom().contains(entries[i].id@),
        heartbeat_map(entries)[entries[i].id@] == entries[i].last_seen,
        state_map(entries).dom().contains(entries[i].id@) == (entries[i].state is Some),
        entries[i].state is Some ==> state_map(entries)[entries[i].id@] == entries[i].state->0,
{
    lemma_index_of(entries, i);
}

/// Replacing an entry by one of the same unit replaces that unit's liveness
/// instant and state, and nothing else.
proof fn lemma_replace(entries: Seq<LivenessEntry>, k: int, entry: LivenessEntry)
    requires
        well_formed(entries),
        0 <= k < entries.len(),
        entry.id@ == entries[k].id@,
        filed_under_own_id(entry),
    ensures
        well_formed(entries.update(k, entry)),
        heartbeat_map(entries.update(k, entry)) == heartbeat_map(entries).insert(
            entry.id@,
            entry.last_seen,
        ),
        entry.state matches Some(state) ==> state_map(entries.update(k, entry)) == state_map(
            entries,
        ).insert(entry.id@, state),
        entry.state is None ==> state_map(entries.update(k, entry)) == state_map(entries).remove(
            entry.id@,
        ),
{
    let after = entries.update(k, entry);
    assert forall|id: Seq<char>| has_id(after, id) == has_id(entries, id) by {
        if has_id(after, id) {
            let i = index_of(after, id);
            assert(entries[i].id@ == id);
        }
        if has_id(entries, id) {
            let i = index_of(entries, id);
            assert(after[i].id@ == id);
        }
    }
    assert forall|id: Seq<char>| has_id(entries, id) implies index_of(after, id) == index_of(
        entries,
        id,
    ) by {
        lemma_index_of(after, index_of(entries, id));
    }
    lemma_index_of(entries, k);
}

/// Appending an entry of a unit not yet known adds that unit's liveness
/// instant and state, and nothing else.
proof fn lemma_append(entries: Seq<LivenessEntry>, entry: LivenessEntry)
    requires
        well_formed(entries),
        !has_id(entries, entry.id@),
        filed_under_own_id(entry),
    ensures
        well_formed(entries.push(entry)),
        heartbeat_map(entries.push(entry)) == heartbeat_map(entries).insert(
            entry.id@,
            entry.last_seen,
        ),
        entry.state matches Some(state) ==> state_map(entries.push(entry)) == state_map(
            entries,
        ).insert(entry.id@, state),
        entry.state is None ==> state_map(entries.push(entry)) == state_map(entries),
{
    let after = entries.push(entry);
    let last = entries.len() as int;
    assert forall|i: int, j: int| 0 <= i < j < after.len() implies after[i].id@
        != after[j].id@ by {
        if j == last {
            assert(entries[i].id@ == after[i].id@);
        }
    }
    assert forall|id: Seq<char>| has_id(after, id) == (has_id(entries, id) || id
        == entry.id@) by {
        if has_id(after, id) {
            let i = index_of(after, id);
            if i < last {
                assert(entries[i].id@ == id);
            }
        }
        if has_id(entries, id) {
            let i = index_of(entries, id);
            assert(after[i].id@ == id);
        }
        if id == entry.id@ {
            assert(after[last].id@ == id);
        }
    }
    assert forall|id: Seq<char>| has_id(entries, id) implies index_of(after, id) == index_of(
        entries,
        id,
    ) by {
        lemma_index_of(after, index_of(entries, id));
    }
    lemma_index_of(after, last);
}

/// Manages the state of all units in the fleet.
#[derive(Debug)]
pub struct FleetManager {
    entries: Vec<LivenessEntry>,
    heartbeat_timeout: u64,
}

impl FleetManager {
    /// The tracker's invariant: no unit is listed twice, and every recorded
    /// state is filed under its own identifier. It holds of every tracker
    /// that `new` makes, and every operation keeps it.
    pub closed spec fn wf(&self) -> bool {
        well_formed(self.entries@)
    }

    /// The last full state of each unit whose telemetry has arrived.
    pub closed spec fn robots(&self) -> Map<Seq<char>, RobotState> {
        state_map(self.entries@)
    }

    /// The instant of the last sign of life of each unit heard from.
    pub closed spec fn last_heartbeat(&self) -> Map<Seq<char>, u64> {
        heartbeat_map(self.entries@)
    }

    /// How long a unit may stay silent before it counts as timed out.
    pub closed spec fn timeout(&self) -> u64 {
        self.heartbeat_timeout
    }

    /// Whether the unit `id` has been heard from, but not within the
    /// timeout before `now`.
    pub open spec fn is_timed_out(&self, id: Seq<char>, now: u64) -> bool {
        &&& self.last_heartbeat().dom().contains(id)
        &&& silent_too_long(self.last_heartbeat()[id], now, self.timeout())
    }

    /// The units that are timed out at `now`.
    pub open spec fn timed_out_ids(&self, now: u64) -> Set<Seq<char>> {
        Set::new(|id: Seq<char>| self.is_timed_out(id, now))
    }

    /// A tracker that has heard from no unit.
    pub fn new(heartbeat_timeout: u64) -> (r: FleetManager)
        ensures
            r.wf(),
            r.robots() == Map::<Seq<char>, RobotState>::empty(),
            r.last_heartbeat() == Map::<Seq<char>, u64>::empty(),
            r.timeout() == heartbeat_timeout,
    {
        FleetManager { entries: Vec::new(), heartbeat_timeout }
    }

    fn find(&self, key: &String) -> (r: Option<usize>)
        ensures
            match r {
                Some(i) => i < self.entries.len() && self.entries[i as int].id@ == key@,
                None => !has_id(self.entries@, key@),
            },
    {
        let mut i: usize = 0;
        while i < self.entries.len()
            invariant
                i <= self.entries.len(),
                forall|j: int| 0 <= j < i ==> self.entries[j].id@ != key@,
            decreases self.entries.len() - i,
        {
            if self.entries[i].id == *key {
                return Some(i);
            }
            i = i + 1;
        }
        None
    }

    /// Registers a unit or replaces its state, and counts the telemetry as a
    /// sign of life at `now`.
    pub fn update_robot(&mut self, state: RobotState, now: u64)
        requires
            old(self).wf(),
        ensures
            final(self).wf(),
            final(self).robots() == old(self).robots().insert(state.id@, state),
            final(self).last_heartbeat() == old(self).last_heartbeat().insert(state.id@, now),
            final(self).timeout() == old(self).timeout(),
    {
        let key = state.id.clone();
        let entry = LivenessEntry { id: key, state: Some(state), last_seen: now };
        match self.find(&entry.id) {
            Some(i) => {
                proof {
                    lemma_replace(self.entries@, i as int, entry);
                }
                self.entries.set(i, entry);
            },
            None => {
                proof {
                    lemma_append(self.entries@, entry);
                }
                self.entries.push(entry);
            },
        }
    }

    /// Counts a heartbeat of the unit `robot_id` as a sign of life at `now`.
    /// A unit not yet known is listed without a state.
    pub fn record_heartbeat(&mut self, robot_id: &str, now: u64)
        requires
            old(self).wf(),
        ensures
            final(self).wf(),
            final(self).robots() == old(self).robots(),
            final(self).last_heartbeat() == old(self).last_heartbeat().insert(robot_id@, now),
            final(self).timeout() == old(self).timeout(),
    {
        let key = String::from_str(robot_id);
        match self.find(&key) {
            Some(i) => {
                let ghost before = self.entries@;
                self.entries[i].last_seen = now;
                proof {
                    lemma_replace(before, i as int, self.entries@[i as int]);
                    lemma_entry_maps(before, i as int);
                    assert(self.robots() =~= state_map(before));
                }
            },
            None => {
                let entry = LivenessEntry { id: key, state: None, last_seen: now };
                proof {
                    lemma_append(self.entries@, entry);
                }
                self.entries.push(entry);
            },
        }
    }

    /// The units that are timed out at `now`, each named once.
    pub fn get_timed_out_robots(&self, now: u64) -> (r: Vec<String>)
        requires
            self.wf(),
        ensures
            lists(r@, self.timed_out_ids(now)),
    {
        let mut out: Vec<String> = Vec::new();
        let ghost mut picked: Seq<int> = Seq::empty();
        let mut i: usize = 0;
        while i < self.entries.len()
            invariant
                well_formed(self.entries@),
                i <= self.entries.len(),
                picked.len() == out.len(),
                forall|k: int|
                    0 <= k < picked.len() ==> {
                        &&& 0 <= #[trigger] picked[k] < i
                        &&& out[k]@ == self.entries[picked[k]].id@
                        &&& silent_too_long(
                            self.entries[picked[k]].last_seen,
                            now,
                            self.heartbeat_timeout,
                        )
                    },
                forall|k1: int, k2: int|
                    0 <= k1 < k2 < picked.len() ==> #[trigger] picked[k1] < #[trigger] picked[k2],
                forall|j: int|
                    0 <= j < i && silent_too_long(
                        (#[trigger] self.entries[j]).last_seen,
                        now,
                        self.heartbeat_timeout,
                    ) ==> exists|k: int| 0 <= k < picked.len() && #[trigger] picked[k] == j,
            decreases self.entries.len() - i,
        {
            let last_seen: u64 = self.entries[i].last_seen;
            if now > last_seen && now - last_seen > self.heartbeat_timeout {
                out.push(self.entries[i].id.clone());
                proof {
                    let before = picked;
                    picked = picked.push(i as int);
                    assert forall|j: int|
                        0 <= j < i + 1 && silent_too_long(
                            (#[trigger] self.entries[j]).last_seen,
                            now,
                            self.heartbeat_timeout,
                        ) implies exists|k: int|
                        0 <= k < picked.len() && #[trigger] picked[k] == j by {
                        if j < i {
                            let k = choose|k: int|
                                0 <= k < before.len() && #[trigger] before[k] == j;
                            assert(picked[k] == j);
                        } else {
                            assert(picked[before.len() as int] == j);
                        }
                    }
                }
            }
            i = i + 1;
        }
        proof {
            let entries = self.entries@;
            let listed = self.timed_out_ids(now);
            assert forall|k: int| 0 <= k < out.len() implies listed.contains(
                #[trigger] out@[k]@,
            ) by {
                lemma_entry_maps(entries, picked[k]);
            }
            assert forall|id: Seq<char>| #[trigger] listed.contains(id) implies exists|k: int|
                0 <= k < out.len() && #[trigger] out@[k]@ == id by {
                let j = index_of(entries, id);
                let k = choose|k: int| 0 <= k < picked.len() && #[trigger] picked[k] == j;
                assert(out@[k]@ == id);
            }
            assert forall|k1: int, k2: int| 0 <= k1 < k2 < out.len() implies #[trigger] out@[k1]@
                != #[trigger] out@[k2]@ by {
                assert(picked[k1] < picked[k2]);
            }
        }
        out
    }

    /// Demotes the unit `robot_id` to offline status and critical health. A
    /// unit without a recorded state is left as it is, known or not.
    pub fn mark_offline(&mut self, robot_id: &str)
        requires
            old(self).wf(),
        ensures
            final(self).wf(),
            final(self).last_heartbeat() == old(self).last_heartbeat(),
            final(self).timeout() == old(self).timeout(),
            old(self).robots().dom().contains(robot_id@) ==> final(self).robots() == old(
                self,
            ).robots().insert(robot_id@, old(self).robots()[robot_id@].demoted()),
            !old(self).robots().dom().contains(robot_id@) ==> final(self).robots() == old(
                self,
            ).robots(),
    {
        let key = String::from_str(robot_id);
        match self.find(&key) {
            Some(i) => {
                let ghost before = self.entries@;
                proof {
                    lemma_entry_maps(before, i as int);
                }
                match &mut self.entries[i].state {
                    Some(state) => {
                        state.status = RobotStatus::Offline;
                        state.health = HealthStatus::Critical;
                    },
                    None => {},
                }
                proof {
                    let entry = self.entries@[i as int];
                    if before[i as int].state is Some {
                        lemma_replace(before, i as int, entry);
                        assert(self.last_heartbeat() =~= heartbeat_map(before));
                    } else {
                        assert(self.entries@ =~= before);
                    }
                }
            },
            None => {},
        }
    }

    /// The recorded state of the unit `id`, if telemetry of it has arrived.
    pub fn get_robot(&self, id: &str) -> (r: Option<&RobotState>)
        requires
            self.wf(),
        ensures
            match r {
                Some(state) => self.robots().dom().contains(id@) && *state == self.robots()[id@],
                None => !self.robots().dom().contains(id@),
            },
    {
        let key = String::from_str(id);
        match self.find(&key) {
            Some(i) => {
                proof {
                    lemma_entry_maps(self.entries@, i as int);
                }
                self.entries[i].state.as_ref()
            },
            None => None,
        }
    }

    /// The recorded states of all units whose telemetry has arrived, each
    /// unit once.
    pub fn get_all_robots(&self) -> (r: Vec<&RobotState>)
        requires
            self.wf(),
        ensures
            forall|k: int|
                0 <= k < r.len() ==> {
                    &&& self.robots().dom().contains((#[trigger] r[k]).id@)
                    &&& self.robots()[r[k].id@] == *r[k]
                },
            forall|id: Seq<char>| #[trigger]
                self.robots().dom().contains(id) ==> exists|k: int|
                    0 <= k < r.len() && (#[trigger] r[k]).id@ == id,
            forall|i: int, j: int|
                0 <= i < j < r.len() ==> (#[trigger] r[i]).id@ != (#[trigger] r[j]).id@,
    {
        let mut out: Vec<&RobotState> = Vec::new();
        let ghost mut picked: Seq<int> = Seq::empty();
        let mut i: usize = 0;
        while i < self.entries.len()
            invariant
                well_formed(self.entries@),
                i <= self.entries.len(),
                picked.len() == out.len(),
                forall|k: int|
                    0 <= k < picked.len() ==> {
                        &&& 0 <= #[trigger] picked[k] < i
                        &&& self.entries[picked[k]].state == Some(*out[k])
                    },
                forall|k1: int, k2: int|
                    0 <= k1 < k2 < picked.len() ==> #[trigger] picked[k1] < #[trigger] picked[k2],
                forall|j: int|
                    0 <= j < i && (#[trigger] self.entries[j]).state is Some ==> exists|k: int|
                        0 <= k < picked.len() && #[trigger] picked[k] == j,
            decreases self.entries.len() - i,
        {
            match &self.entries[i].state {
                Some(state) => {
                    out.push(state);
                    proof {
                        let before = picked;
                        picked = picked.push(i as int);
                        assert forall|j: int|
                            0 <= j < i + 1 && (#[trigger] self.entries[j]).state is Some
                            implies exists|k: int|
                            0 <= k < picked.len() && #[trigger] picked[k] == j by {
                            if j < i {
                                let k = choose|k: int|
                                    0 <= k < before.len() && #[trigger] before[k] == j;
                                assert(picked[k] == j);
                            } else {
                                assert(picked[before.len() as int] == j);
                            }
                        }
                    }
                },
                None => {},
            }
            i = i + 1;
        }
        proof {
            let entries = self.entries@;
            assert forall|k: int| 0 <= k < out.len() implies {
                &&& self.robots().dom().contains((#[trigger] out[k]).id@)
                &&& self.robots()[out[k].id@] == *out[k]
            } by {
                lemma_entry_maps(entries, picked[k]);
            }
            assert forall|id: Seq<char>| #[trigger]
                self.robots().dom().contains(id) implies exists|k: int|
                0 <= k < out.len() && (#[trigger] out[k]).id@ == id by {
                let j = index_of(entries, id);
                let k = choose|k: int| 0 <= k < picked.len() && #[trigger] picked[k] == j;
                assert(filed_under_own_id(entries[j]));
                assert(out[k].id@ == id);
            }
            assert forall|i: int, j: int| 0 <= i < j < out.len() implies (#[trigger] out[i]).id@
                != (#[trigger] out[j]).id@ by {
                assert(picked[i] < picked[j]);
                assert(filed_under_own_id(entries[picked[i]]));
                assert(filed_under_own_id(entries[picked[j]]));
            }
        }
        out
    }

    /// The recorded states after a sweep at `now` over the states `robots`:
    /// every unit that is timed out is demoted, every other one is untouched.
    pub open spec fn swept(&self, now: u64) -> Map<Seq<char>, RobotState> {
        Map::new(
            |id: Seq<char>| self.robots().dom().contains(id),
            |id: Seq<char>|
                if self.is_timed_out(id, now) {
                    self.robots()[id].demoted()
                } else {
                    self.robots()[id]
                },
        )
    }

    /// One sweep of the liveness monitor: demotes every unit that is timed
    /// out at `now` and names the units that were.
    pub fn check_heartbeats(&mut self, now: u64) -> (r: Vec<String>)
        requires
            old(self).wf(),
        ensures
            final(self).wf(),
            lists(r@, old(self).timed_out_ids(now)),
            final(self).robots() == old(self).swept(now),
            final(self).last_heartbeat() == old(self).last_heartbeat(),
            final(self).timeout() == old(self).timeout(),
    {
        let timed_out = self.get_timed_out_robots(now);
        let ghost listed = self.timed_out_ids(now);
        let ghost start = *self;
        let mut k: usize = 0;
        while k < timed_out.len()
            invariant
                k <= timed_out.len(),
                self.wf(),
                lists(timed_out@, listed),
                listed == start.timed_out_ids(now),
                self.last_heartbeat() == start.last_heartbeat(),
                self.timeout() == start.timeout(),
                self.robots().dom() == start.robots().dom(),
                forall|id: Seq<char>| #[trigger]
                    self.robots().dom().contains(id) ==> self.robots()[id] == if exists|m: int|
                        0 <= m < k && #[trigger] timed_out[m]@ == id {
                        start.robots()[id].demoted()
                    } else {
                        start.robots()[id]
                    },
            decreases timed_out.len() - k,
        {
            let ghost before = *self;
            self.mark_offline(timed_out[k].as_str());
            proof {
                let marked = timed_out[k as int]@;
                assert(self.robots().dom() =~= start.robots().dom());
                assert forall|id: Seq<char>| #[trigger]
                    self.robots().dom().contains(id) implies self.robots()[id] == if exists|m: int|
                    0 <= m < k + 1 && #[trigger] timed_out[m]@ == id {
                    start.robots()[id].demoted()
                } else {
                    start.robots()[id]
                } by {
                    if id == marked {
                        // No earlier name is the one just marked.
                        assert(timed_out[k as int]@ == id);
                        assert(before.robots()[id] == start.robots()[id]);
                    } else {
                        assert(self.robots()[id] == before.robots()[id]);
                    }
                }
            }
            k = k + 1;
        }
        proof {
            assert forall|id: Seq<char>| #[trigger]
                self.robots().dom().contains(id) implies self.robots()[id] == start.swept(
                now,
            )[id] by {
                assert(listed.contains(id) == start.is_timed_out(id, now));
            }
            assert(self.robots() =~= start.swept(now));
        }
        timed_out
    }
}

impl Default for FleetManager {
    /// A tracker that has heard from no unit and allows no silence at all.
    fn default() -> (r: FleetManager)
        ensures
            r.wf(),
            r.robots() == Map::<Seq<char>, RobotState>::empty(),
            r.last_heartbeat() == Map::<Seq<char>, u64>::empty(),
            r.timeout() == 0,
    {
        FleetManager::new(0)
    }
}

/// Every recorded state belongs to a unit that has been heard from, and is
/// filed under the identifier that it carries.
pub proof fn lemma_states_belong_to_live_units(fleet: FleetManager, id: Seq<char>)
    requires
        fleet.wf(),
        fleet.robots().dom().contains(id),
    ensures
        fleet.last_heartbeat().dom().contains(id),
        fleet.robots()[id].id@ == id,
{
    let i = index_of(fleet.entries@, id);
    assert(filed_under_own_id(fleet.entries@[i]));
}

/// A unit whose state was recorded at `seen` has that state on record, and
/// is not timed out at any `now` up to the timeout after `seen`.
pub proof fn lemma_updated_unit_is_current(
    before: FleetManager,
    after: FleetManager,
    state: RobotState,
    seen: u64,
    now: u64,
)
    requires
        after.robots() == before.robots().insert(state.id@, state),
        after.last_heartbeat() == before.last_heartbeat().insert(state.id@, seen),
        now <= seen + after.timeout(),
    ensures
        after.robots().dom().contains(state.id@),
        after.robots()[state.id@] == state,
        !after.timed_out_ids(now).contains(state.id@),
{
}

/// A unit last seen at `seen` is timed out at every instant later than the
/// timeout after `seen`, and at no other instant.
pub proof fn lemma_timeout_boundary(fleet: FleetManager, id: Seq<char>, seen: u64, now: u64)
    requires
        fleet.last_heartbeat().dom().contains(id),
        fleet.last_heartbeat()[id] == seen,
    ensures
        fleet.timed_out_ids(now).contains(id) <==> now > seen + fleet.timeout(),
{
}

/// Marking a unit offline sets the status and the health of its recorded
/// state and nothing else of it. Where the unit has no recorded state,
/// nothing is recorded for it.
pub proof fn lemma_mark_offline_effect(before: FleetManager, after: FleetManager, id: Seq<char>)
    requires
        before.robots().dom().contains(id) ==> after.robots() == before.robots().insert(
            id,
            before.robots()[id].demoted(),
        ),
        !before.robots().dom().contains(id) ==> after.robots() == before.robots(),
        after.last_heartbeat() == before.last_heartbeat(),
    ensures
        after.robots().dom() == before.robots().dom(),
        after.last_heartbeat().dom() == before.last_heartbeat().dom(),
        before.robots().dom().contains(id) ==> {
            &&& after.robots()[id].status == RobotStatus::Offline
            &&& after.robots()[id].health == HealthStatus::Critical
            &&& after.robots()[id] == (RobotState {
                status: RobotStatus::Offline,
                health: HealthStatus::Critical,
                ..before.robots()[id]
            })
        },
{
    if before.robots().dom().contains(id) {
    }
}

} // verus!
