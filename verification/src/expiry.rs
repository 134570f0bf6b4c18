//! When running tasks expire: an in-memory table of deadlines, kept up to date from scans and from
//! change events.
use std::collections::{BTreeMap, HashMap, HashSet};
use std::time::Duration;

use vstd::prelude::*;
use vstd::std_specs::cmp::OrdSpec;

use crate::document::{now_millis, string_view};
use crate::object_key::{object_number_bound, ObjectKey};
use crate::time::{capped, deadline_after, duration_millis, duration_nanos};

verus! {

broadcast use {
    vstd::std_specs::hash::group_hash_axioms,
    vstd::std_specs::btree::group_btree_axioms,
    vstd::laws_cmp::group_laws_cmp,
};

/// A running task in the table: its task id, if one was ever seen, and the instant from which it
/// counts as abandoned.
#[derive(Debug)]
pub struct ExpiringTask {
    pub task_id: Option<String>,
    expires_at_ms: i64,
}

/// What the table knows of one task.
pub ghost struct TrackedTask {
    pub task_id: Option<Seq<char>>,
    pub expires_at_ms: i64,
}

impl View for ExpiringTask {
    type V = TrackedTask;

    closed spec fn view(&self) -> TrackedTask {
        TrackedTask { task_id: string_view(self.task_id), expires_at_ms: self.expires_at_ms }
    }
}

impl ExpiringTask {
    /// The instant from which the task counts as abandoned, in milliseconds since the Unix epoch.
    pub fn expires_at_ms(&self) -> (millis: Option<i64>)
        ensures
            millis == Some(self@.expires_at_ms),
    {
        Some(self.expires_at_ms)
    }

    /// The task's id, if one was ever seen.
    pub(crate) fn into_task_id(self) -> (task_id: Option<String>)
        ensures
            string_view(task_id) == self@.task_id,
    {
        self.task_id
    }
}

/// The table of running tasks, by object id and by deadline, with the switch timeouts that were set
/// for tasks that run or wait, and a hint whether ready tasks may be waiting.
#[derive(Debug)]
pub struct ExpiryTracker {
    tasks: HashMap<u128, ExpiringTask>,
    deadlines: BTreeMap<i64, HashSet<u128>>,
    own_timeouts: HashMap<u128, i64>,
    pending_may_exist: bool,
}

/// What an `ExpiryTracker` holds.
pub ghost struct TrackerState {
    pub tasks: Map<u128, TrackedTask>,
    /// The switch timeouts that were set for tasks, in milliseconds as their documents store them.
    pub own_timeouts: Map<u128, i64>,
    pub pending_may_exist: bool,
}

impl View for ExpiryTracker {
    type V = TrackerState;

    closed spec fn view(&self) -> TrackerState {
        TrackerState {
            tasks: self.tasks@.map_values(|task: ExpiringTask| task@),
            own_timeouts: self.own_timeouts@,
            pending_may_exist: self.pending_may_exist,
        }
    }
}

/// The deadline of a task with a heartbeat at `heartbeat_at` and a switch timeout of so many
/// milliseconds.
pub open spec fn deadline_in(heartbeat_at: i64, timeout_millis: nat) -> i64 {
    capped(heartbeat_at + capped(timeout_millis as int))
}

/// The deadline of a task after a heartbeat at `heartbeat_at`.
pub open spec fn deadline_of(heartbeat_at: i64, worker_switch_timeout: Duration) -> i64 {
    deadline_in(heartbeat_at, duration_millis(worker_switch_timeout))
}

/// The nanoseconds from `now_ms` to `deadline`; none where it has passed.
pub open spec fn delay_until(deadline: i64, now_ms: i64) -> int {
    if deadline <= now_ms {
        0
    } else {
        (deadline - now_ms) * 1_000_000
    }
}

/// Tasks taken out of the table, as the table saw them.
pub open spec fn due_view(due: Seq<(ObjectKey, ExpiringTask)>) -> Seq<(u128, TrackedTask)> {
    due.map_values(|entry: (ObjectKey, ExpiringTask)| (entry.0@, entry.1@))
}

impl TrackerState {
    /// The state after a heartbeat: a known task id survives a heartbeat that carries none.
    pub open spec fn upserted(
        self,
        key: u128,
        task_id: Option<Seq<char>>,
        expires_at_ms: i64,
    ) -> TrackerState {
        let known = if task_id is Some {
            task_id
        } else if self.tasks.dom().contains(key) {
            self.tasks[key].task_id
        } else {
            None
        };
        TrackerState {
            tasks: self.tasks.insert(key, TrackedTask { task_id: known, expires_at_ms }),
            ..self
        }
    }

    /// The state without one task.
    pub open spec fn removed(self, key: u128) -> TrackerState {
        TrackerState { tasks: self.tasks.remove(key), ..self }
    }

    /// The state in which nothing is known of one task.
    pub open spec fn forgotten(self, key: u128) -> TrackerState {
        TrackerState {
            tasks: self.tasks.remove(key),
            own_timeouts: self.own_timeouts.remove(key),
            ..self
        }
    }

    /// The state with the switch timeout that was set for one task, if one was.
    pub open spec fn noted(self, key: u128, own_timeout: Option<i64>) -> TrackerState {
        TrackerState {
            own_timeouts: match own_timeout {
                Some(millis) => self.own_timeouts.insert(key, millis),
                None => self.own_timeouts.remove(key),
            },
            ..self
        }
    }

    /// The switch timeout that was set for one task, as far as is known.
    pub open spec fn own_timeout(self, key: u128) -> Option<i64> {
        if self.own_timeouts.dom().contains(key) {
            Some(self.own_timeouts[key])
        } else {
            None
        }
    }

    /// The earliest deadline is `deadline`.
    pub open spec fn first_deadline(self, deadline: i64) -> bool {
        &&& exists|key: u128| #[trigger]
            self.tasks.dom().contains(key) && self.tasks[key].expires_at_ms == deadline
        &&& forall|key: u128| #[trigger]
            self.tasks.dom().contains(key) ==> deadline <= self.tasks[key].expires_at_ms
    }

    /// Whether a task is due at `now_ms`.
    pub open spec fn is_due(self, key: u128, now_ms: i64) -> bool {
        self.tasks.dom().contains(key) && self.tasks[key].expires_at_ms <= now_ms
    }

    /// `entries` are the tasks for which `taken` holds, each once, in the order of their deadlines.
    pub open spec fn lists(
        self,
        taken: spec_fn(TrackedTask) -> bool,
        entries: Seq<(u128, TrackedTask)>,
    ) -> bool {
        &&& forall|i: int|
            0 <= i < entries.len() ==> {
                let entry = #[trigger] entries[i];
                &&& self.tasks.dom().contains(entry.0)
                &&& self.tasks[entry.0] == entry.1
                &&& taken(entry.1)
            }
        &&& forall|i: int, j: int|
            0 <= i < j < entries.len() ==> (#[trigger] entries[i]).0 != (#[trigger] entries[j]).0
                && entries[i].1.expires_at_ms <= entries[j].1.expires_at_ms
        &&& forall|key: u128| #[trigger]
            self.tasks.dom().contains(key) && taken(self.tasks[key]) ==> exists|i: int|
                0 <= i < entries.len() && (#[trigger] entries[i]).0 == key
    }

    /// `entries` are the tasks that are due at `now_ms`, each once, in the order of their deadlines.
    pub open spec fn lists_due(self, now_ms: i64, entries: Seq<(u128, TrackedTask)>) -> bool {
        self.lists(|task: TrackedTask| task.expires_at_ms <= now_ms, entries)
    }

    /// The state without the tasks that are due at `now_ms`.
    pub open spec fn without_due(self, now_ms: i64) -> TrackerState {
        TrackerState {
            tasks: self.tasks.restrict(
                Set::new(
                    |key: u128| self.tasks.dom().contains(key) && !self.is_due(key, now_ms),
                ),
            ),
            ..self
        }
    }
}

impl ExpiryTracker {
    /// The two indexes agree: each task stands under its deadline, and nothing else does.
    pub closed spec fn wf(&self) -> bool {
        &&& forall|key: u128| #[trigger]
            self.tasks@.dom().contains(key) ==> key < object_number_bound(12)
        &&& forall|key: u128| #[trigger]
            self.tasks@.dom().contains(key) ==> {
                let deadline = self.tasks@[key].expires_at_ms;
                &&& self.deadlines@.dom().contains(deadline)
                &&& self.deadlines@[deadline]@.contains(key)
            }
        &&& forall|deadline: i64, key: u128|
            #![trigger self.deadlines@[deadline]@.contains(key)]
            self.deadlines@.dom().contains(deadline) && self.deadlines@[deadline]@.contains(key)
                ==> self.tasks@.dom().contains(key) && self.tasks@[key].expires_at_ms == deadline
        &&& forall|deadline: i64| #[trigger]
            self.deadlines@.dom().contains(deadline) ==> exists|key: u128|
                self.deadlines@[deadline]@.contains(key)
    }

    /// An empty table, with nothing known to be waiting.
    pub fn new() -> (tracker: ExpiryTracker)
        ensures
            tracker.wf(),
            tracker@.tasks == Map::<u128, TrackedTask>::empty(),
            tracker@.own_timeouts == Map::<u128, i64>::empty(),
            !tracker@.pending_may_exist,
    {
        let tracker = ExpiryTracker {
            tasks: HashMap::new(),
            deadlines: BTreeMap::new(),
            own_timeouts: HashMap::new(),
            pending_may_exist: false,
        };
        assert(tracker@.tasks =~= Map::<u128, TrackedTask>::empty());
        tracker
    }

    /// Empties the table. The switch timeouts that were set for tasks stay known, and the hint stays.
    pub fn clear(&mut self)
        ensures
            final(self).wf(),
            final(self)@.tasks == Map::<u128, TrackedTask>::empty(),
            final(self)@.own_timeouts == old(self)@.own_timeouts,
            final(self)@.pending_may_exist == old(self)@.pending_may_exist,
    {
        self.tasks.clear();
        self.deadlines.clear();
        assert(self@.tasks =~= Map::<u128, TrackedTask>::empty());
    }

    /// Forgets the switch timeouts that were set for tasks.
    pub fn forget_own_timeouts(&mut self)
        requires
            old(self).wf(),
        ensures
            final(self).wf(),
            final(self)@ == (TrackerState { own_timeouts: Map::empty(), ..old(self)@ }),
    {
        self.own_timeouts.clear();
    }

    /// Whether ready tasks may be waiting, as far as is known here.
    pub fn has_pending(&self) -> (pending: bool)
        ensures
            pending == self@.pending_may_exist,
    {
        self.pending_may_exist
    }

    /// Sets the hint whether ready tasks may be waiting.
    pub fn set_pending_may_exist(&mut self, pending: bool)
        requires
            old(self).wf(),
        ensures
            final(self).wf(),
            final(self)@ == (TrackerState { pending_may_exist: pending, ..old(self)@ }),
    {
        self.pending_may_exist = pending;
    }

    /// What is known of a task.
    pub fn get(&self, id: &ObjectKey) -> (task: Option<&ExpiringTask>)
        ensures
            match task {
                Some(task) => self@.tasks.dom().contains(id@) && self@.tasks[id@] == task@,
                None => !self@.tasks.dom().contains(id@),
            },
    {
        let key: u128 = id.number();
        self.tasks.get(&key)
    }

    /// The switch timeout that was set for a task, in milliseconds, as far as is known.
    pub fn own_timeout(&self, id: &ObjectKey) -> (own_timeout: Option<i64>)
        ensures
            own_timeout == self@.own_timeout(id@),
    {
        let key: u128 = id.number();
        match self.own_timeouts.get(&key) {
            Some(millis) => Some(*millis),
            None => None,
        }
    }

    /// Notes the switch timeout that was set for a task, if one was.
    pub fn note_own_timeout(&mut self, id: &ObjectKey, own_timeout: Option<i64>)
        requires
            old(self).wf(),
        ensures
            final(self).wf(),
            final(self)@ == old(self)@.noted(id@, own_timeout),
    {
        let key: u128 = id.number();
        match own_timeout {
            Some(millis) => {
                self.own_timeouts.insert(key, millis);
            },
            None => {
                self.own_timeouts.remove(&key);
            },
        }
    }

    /// Takes one task out of the table, and forgets its switch timeout as well.
    pub fn forget(&mut self, id: &ObjectKey)
        requires
            old(self).wf(),
        ensures
            final(self).wf(),
            final(self)@ == old(self)@.forgotten(id@),
    {
        self.remove(id);
        let key: u128 = id.number();
        self.own_timeouts.remove(&key);
    }

    /// Takes one task out of the table. Its own switch timeout stays known.
    pub fn remove(&mut self, id: &ObjectKey)
        requires
            old(self).wf(),
        ensures
            final(self).wf(),
            final(self)@ == old(self)@.removed(id@),
    {
        let key: u128 = id.number();
        let ghost before = *self;
        match self.tasks.remove(&key) {
            Some(existing) => {
                let deadline: i64 = existing.expires_at_ms;
                match self.deadlines.remove(&deadline) {
                    Some(ids) => {
                        let mut ids = ids;
                        ids.remove(&key);
                        if !ids.is_empty() {
                            proof {
                                if forall|other: u128| !ids@.contains(other) {
                                    assert(ids@ =~= Set::<u128>::empty());
                                }
                            }
                            self.deadlines.insert(deadline, ids);
                            assert(self.deadlines@[deadline]@ == before.deadlines@[deadline]@.remove(key));
                        } else {
                            assert(forall|other: u128| !ids@.contains(other));
                            assert(self.deadlines@ == before.deadlines@.remove(deadline));
                        }
                    },
                    None => {},
                }
            },
            None => {},
        }
        proof {
            assert(self@.tasks =~= before@.tasks.remove(key));
            assert forall|other: u128| #[trigger] self.tasks@.dom().contains(other) implies {
                let deadline = self.tasks@[other].expires_at_ms;
                &&& self.deadlines@.dom().contains(deadline)
                &&& self.deadlines@[deadline]@.contains(other)
            } by {
                assert(before.tasks@.dom().contains(other));
            }
            assert forall|deadline: i64, other: u128|
                #![trigger self.deadlines@[deadline]@.contains(other)]
                self.deadlines@.dom().contains(deadline) && self.deadlines@[deadline]@.contains(
                    other,
                ) implies self.tasks@.dom().contains(other) && self.tasks@[other].expires_at_ms
                == deadline by {
                assert(before.deadlines@[deadline]@.contains(other));
            }
            assert forall|deadline: i64| #[trigger]
                self.deadlines@.dom().contains(deadline) implies exists|other: u128|
                self.deadlines@[deadline]@.contains(other) by {
                assert(before.deadlines@.dom().contains(deadline));
            }
        }
    }

    /// Takes in a task that the table does not hold yet.
    fn insert(&mut self, key: u128, task: ExpiringTask)
        requires
            old(self).wf(),
            !old(self)@.tasks.dom().contains(key),
            key < object_number_bound(12),
        ensures
            final(self).wf(),
            final(self)@ == (TrackerState {
                tasks: old(self)@.tasks.insert(key, task@),
                ..old(self)@
            }),
    {
        let ghost before = *self;
        let deadline: i64 = task.expires_at_ms;
        let mut ids = match self.deadlines.remove(&deadline) {
            Some(ids) => ids,
            None => HashSet::new(),
        };
        ids.insert(key);
        self.deadlines.insert(deadline, ids);
        self.tasks.insert(key, task);
        proof {
            assert(self@.tasks =~= before@.tasks.insert(key, task@));
            assert(self.deadlines@[deadline]@.contains(key));
            assert forall|other: u128| #[trigger] self.tasks@.dom().contains(other) implies {
                let deadline = self.tasks@[other].expires_at_ms;
                &&& self.deadlines@.dom().contains(deadline)
                &&& self.deadlines@[deadline]@.contains(other)
            } by {
                assert(other == key || before.tasks@.dom().contains(other));
            }
            assert forall|due: i64, other: u128|
                #![trigger self.deadlines@[due]@.contains(other)]
                self.deadlines@.dom().contains(due) && self.deadlines@[due]@.contains(
                    other,
                ) implies self.tasks@.dom().contains(other) && self.tasks@[other].expires_at_ms
                == due by {
                if other != key {
                    assert(before.deadlines@[due]@.contains(other));
                }
            }
            assert forall|due: i64| #[trigger]
                self.deadlines@.dom().contains(due) implies exists|other: u128|
                self.deadlines@[due]@.contains(other) by {
                if due != deadline {
                    assert(before.deadlines@.dom().contains(due));
                    assert(self.deadlines@[due] == before.deadlines@[due]);
                } else {
                    assert(self.deadlines@[due]@.contains(key));
                }
            }
        }
    }

    /// Takes in a heartbeat: the task expires `worker_switch_timeout` after it. Where the heartbeat
    /// comes without a task id, the one known so far stays.
    pub fn upsert(
        &mut self,
        id: ObjectKey,
        task_id: Option<String>,
        heartbeat_at: i64,
        worker_switch_timeout: Duration,
    )
        requires
            old(self).wf(),
        ensures
            final(self).wf(),
            final(self)@ == old(self)@.upserted(
                id@,
                string_view(task_id),
                deadline_of(heartbeat_at, worker_switch_timeout),
            ),
    {
        let ghost before = *self;
        let expires_at_ms: i64 = deadline_after(heartbeat_at, worker_switch_timeout);
        let known = match task_id {
            Some(task_id) => Some(task_id),
            None => match self.get(&id) {
                Some(task) => task.task_id.clone(),
                None => None,
            },
        };
        self.remove(&id);
        self.insert(id.number(), ExpiringTask { task_id: known, expires_at_ms });
        proof {
            assert(self@.tasks =~= before@.upserted(
                id@,
                string_view(task_id),
                expires_at_ms,
            ).tasks);
        }
    }

    /// Puts a task back, to expire `delay` after `now_ms`.
    pub fn defer_at(&mut self, id: ObjectKey, task: ExpiringTask, delay: Duration, now_ms: i64)
        requires
            old(self).wf(),
        ensures
            final(self).wf(),
            final(self)@ == (TrackerState {
                tasks: old(self)@.tasks.insert(
                    id@,
                    TrackedTask { expires_at_ms: deadline_of(now_ms, delay), ..task@ },
                ),
                ..old(self)@
            }),
    {
        let ghost before = *self;
        let expires_at_ms: i64 = deadline_after(now_ms, delay);
        self.remove(&id);
        self.insert(id.number(), ExpiringTask { task_id: task.task_id, expires_at_ms });
        proof {
            assert(self@.tasks =~= before@.tasks.insert(
                id@,
                TrackedTask { expires_at_ms, ..task@ },
            ));
        }
    }

    /// Puts a task back, to expire `delay` from now.
    pub fn defer(&mut self, id: ObjectKey, task: ExpiringTask, delay: Duration)
        requires
            old(self).wf(),
        ensures
            final(self).wf(),
            exists|now_ms: i64|
                final(self)@ == (TrackerState {
                    tasks: old(self)@.tasks.insert(
                        id@,
                        TrackedTask {
                            expires_at_ms: #[trigger] deadline_of(now_ms, delay),
                            ..task@
                        },
                    ),
                    ..old(self)@
                }),
    {
        let now_ms: i64 = now_millis();
        self.defer_at(id, task, delay, now_ms);
        assert(deadline_of(now_ms, delay) == deadline_of(now_ms, delay));
    }

    /// The keys of the deadline index in order are the deadlines of the tasks in order.
    proof fn keys_are_the_deadlines(&self, keys: Seq<&i64>)
        requires
            self.wf(),
            keys.unref().to_set() == self.deadlines@.dom(),
            vstd::std_specs::btree::increasing_seq(keys),
        ensures
            forall|i: int, j: int| 0 <= i < j < keys.len() ==> *#[trigger] keys[i] < *#[trigger] keys[j],
            forall|i: int| 0 <= i < keys.len() ==> self.deadlines@.dom().contains(*#[trigger] keys[i]),
            keys.len() > 0 ==> self@.first_deadline(*keys[0]),
            keys.len() == 0 ==> self.deadlines@.dom() == Set::<i64>::empty(),
    {
        assert(vstd::laws_cmp::obeys_cmp::<i64>());
        assert(vstd::laws_cmp::obeys_cmp::<&i64>());
        assert forall|i: int, j: int| 0 <= i < j < keys.len() implies *#[trigger] keys[i]
            < *#[trigger] keys[j] by {
            vstd::std_specs::btree::axiom_increasing_seq_meaning(keys);
            assert(OrdSpec::cmp_spec(&keys[i], &keys[j]) is Less);
            assert(OrdSpec::cmp_spec(keys[i], keys[j]) is Less);
        }
        assert forall|i: int| 0 <= i < keys.len() implies self.deadlines@.dom().contains(
            *#[trigger] keys[i],
        ) by {
            assert(keys.unref()[i] == *keys[i]);
            assert(keys.unref().contains(*keys[i]));
        }
        if keys.len() > 0 {
            let first = *keys[0];
            let witness = choose|key: u128| self.deadlines@[first]@.contains(key);
            assert(self@.tasks.dom().contains(witness));
            assert(self@.tasks[witness].expires_at_ms == first);
            assert forall|key: u128| #[trigger] self@.tasks.dom().contains(key) implies first
                <= self@.tasks[key].expires_at_ms by {
                assert(self.tasks@.dom().contains(key));
                let deadline = self.tasks@[key].expires_at_ms;
                assert(keys.unref().to_set().contains(deadline));
                let i = choose|i: int| 0 <= i < keys.len() && keys.unref()[i] == deadline;
                assert(*keys[i] == deadline);
            }
        } else {
            assert(self.deadlines@.dom() =~= Set::<i64>::empty());
        }
    }

    /// How long from `now_ms` until the first task expires; nothing if the table is empty.
    pub fn next_delay_at(&self, now_ms: i64) -> (delay: Option<Duration>)
        requires
            self.wf(),
        ensures
            delay is None <==> self@.tasks.dom() == Set::<u128>::empty(),
            delay matches Some(delay) ==> exists|deadline: i64| #[trigger]
                self@.first_deadline(deadline) && duration_nanos(delay) == delay_until(
                    deadline,
                    now_ms,
                ),
    {
        for first in keys: self.deadlines.keys()
            invariant
                self.wf(),
                keys.index() == 0,
        {
            let next_ms: i64 = *first;
            proof {
                self.keys_are_the_deadlines(keys.seq());
                assert(keys.seq()[0] == first);
                assert(self@.first_deadline(next_ms));
            }
            if next_ms <= now_ms {
                return Some(Duration::from_millis(0));
            }
            let millis: i128 = next_ms as i128 - now_ms as i128;
            return Some(Duration::from_millis(millis as u64));
        }
        proof {
            assert forall|key: u128| !self@.tasks.dom().contains(key) by {
                if self.tasks@.dom().contains(key) {
                    assert(self.deadlines@.dom().contains(self.tasks@[key].expires_at_ms));
                }
            }
            assert(self@.tasks.dom() =~= Set::<u128>::empty());
        }
        None
    }

    /// How long until the first task expires; nothing if the table is empty.
    pub fn next_delay(&self) -> (delay: Option<Duration>)
        requires
            self.wf(),
        ensures
            delay is None <==> self@.tasks.dom() == Set::<u128>::empty(),
            delay matches Some(delay) ==> exists|deadline: i64, now_ms: i64|
                #![trigger self@.first_deadline(deadline), delay_until(deadline, now_ms)]
                self@.first_deadline(deadline) && duration_nanos(delay) == delay_until(
                    deadline,
                    now_ms,
                ),
    {
        let now_ms: i64 = now_millis();
        self.next_delay_at(now_ms)
    }

    /// Takes out the tasks of one deadline and adds them to `due`.
    fn pop_deadline(&mut self, deadline: i64, due: &mut Vec<(ObjectKey, ExpiringTask)>)
        requires
            old(self).wf(),
        ensures
            final(self).wf(),
            final(self)@.own_timeouts == old(self)@.own_timeouts,
            final(self)@.pending_may_exist == old(self)@.pending_may_exist,
            forall|key: u128| #[trigger]
                final(self)@.tasks.dom().contains(key) <==> old(self)@.tasks.dom().contains(key)
                    && old(self)@.tasks[key].expires_at_ms != deadline,
            forall|key: u128| #[trigger]
                final(self)@.tasks.dom().contains(key) ==> final(self)@.tasks[key] == old(
                    self,
                )@.tasks[key],
            old(due)@.len() <= final(due)@.len(),
            final(due)@.take(old(due)@.len() as int) == old(due)@,
            forall|i: int|
                old(due)@.len() <= i < final(due)@.len() ==> {
                    let entry = #[trigger] final(due)@[i];
                    &&& old(self)@.tasks.dom().contains(entry.0@)
                    &&& old(self)@.tasks[entry.0@] == entry.1@
                    &&& entry.1@.expires_at_ms == deadline
                },
            forall|i: int, j: int|
                old(due)@.len() <= i < j < final(due)@.len() ==> (#[trigger] final(due)@[i]).0@ != (
                #[trigger] final(due)@[j]).0@,
            forall|key: u128| #[trigger]
                old(self)@.tasks.dom().contains(key) && old(self)@.tasks[key].expires_at_ms
                    == deadline ==> exists|i: int|
                    old(due)@.len() <= i < final(due)@.len() && (#[trigger] final(due)@[i]).0@
                        == key,
    {
        let ghost before = *self;
        let ghost start = due@.len();
        let ghost mut popped: Seq<u128> = Seq::empty();
        match self.deadlines.remove(&deadline) {
            None => {
                assert(due@.take(start as int) =~= due@);
            },
            Some(ids) => {
                assert(due@.take(start as int) =~= due@);
                for id in it: ids.iter()
                    invariant
                        before.wf(),
                        before.deadlines@.dom().contains(deadline),
                        before.deadlines@[deadline] == ids,
                        it.seq().unref().to_set() == ids@,
                        it.seq().no_duplicates(),
                        popped.len() == it.index(),
                        forall|i: int| 0 <= i < it.index() ==> #[trigger] popped[i] == *it.seq()[i],
                        forall|key: u128| #[trigger]
                            ids@.contains(key) ==> popped.contains(key) || exists|j: int|
                                it.index() <= j < it.seq().len() && *#[trigger] it.seq()[j] == key,
                        forall|i: int| 0 <= i < popped.len() ==> ids@.contains(#[trigger] popped[i]),
                        popped.no_duplicates(),
                        self.deadlines@ == before.deadlines@.remove(deadline),
                        self.own_timeouts == before.own_timeouts,
                        self.pending_may_exist == before.pending_may_exist,
                        forall|key: u128| #[trigger]
                            self.tasks@.dom().contains(key) <==> before.tasks@.dom().contains(key)
                                && !popped.contains(key),
                        forall|key: u128| #[trigger]
                            self.tasks@.dom().contains(key) ==> self.tasks@[key]
                                == before.tasks@[key],
                        due@.len() == start + popped.len(),
                        due@.take(start as int) == old(due)@,
                        start == old(due)@.len(),
                        forall|i: int|
                            start <= i < due@.len() ==> (#[trigger] due@[i]).0@ == popped[i - start]
                                && due@[i].1 == before.tasks@[popped[i - start]],
                {
                    let key: u128 = *id;
                    proof {
                        assert(it.seq().unref()[it.index()] == key);
                        assert(ids@.contains(key));
                        assert(before.deadlines@[deadline]@.contains(key));
                        assert(before.tasks@.dom().contains(key));
                        assert forall|i: int| 0 <= i < popped.len() implies #[trigger] popped[i]
                            != key by {
                            assert(it.seq()[i] != it.seq()[it.index()]);
                        }
                        assert(!popped.contains(key));
                    }
                    let ghost due_before = due@;
                    let ghost popped_before = popped;
                    match self.tasks.remove(&key) {
                        Some(task) => {
                            due.push((ObjectKey::from_number(key), task));
                        },
                        None => {},
                    }
                    proof {
                        popped = popped.push(key);
                        assert(due@.take(start as int) =~= due_before.take(start as int));
                        assert(popped[popped_before.len() as int] == key);
                        assert forall|other: u128| popped_before.contains(other) || other
                            == key implies #[trigger] popped.contains(other) by {
                            if popped_before.contains(other) {
                                let i = choose|i: int|
                                    0 <= i < popped_before.len() && popped_before[i] == other;
                                assert(popped[i] == other);
                            }
                        }
                    }
                }
                proof {
                    assert forall|key: u128| #[trigger]
                        ids@.contains(key) implies popped.contains(key) by {}
                }
            },
        }
        proof {
            self.index_without(before, deadline, popped);
            assert forall|key: u128| #[trigger]
                before@.tasks.dom().contains(key) && before@.tasks[key].expires_at_ms
                    == deadline implies exists|i: int|
                start <= i < due@.len() && (#[trigger] due@[i]).0@ == key by {
                assert(before.tasks@.dom().contains(key));
                let i = choose|i: int| 0 <= i < popped.len() && popped[i] == key;
                assert(due@[start + i].0@ == key);
            }
        }
    }

    /// The two indexes still agree once the tasks of one deadline have left both.
    proof fn index_without(&self, before: ExpiryTracker, deadline: i64, popped: Seq<u128>)
        requires
            before.wf(),
            self.deadlines@ == before.deadlines@.remove(deadline),
            forall|key: u128| #[trigger]
                self.tasks@.dom().contains(key) <==> before.tasks@.dom().contains(key)
                    && !popped.contains(key),
            forall|key: u128| #[trigger]
                self.tasks@.dom().contains(key) ==> self.tasks@[key] == before.tasks@[key],
            forall|key: u128| #[trigger]
                popped.contains(key) <==> before.deadlines@.dom().contains(deadline)
                    && before.deadlines@[deadline]@.contains(key),
        ensures
            self.wf(),
            forall|key: u128| #[trigger]
                self@.tasks.dom().contains(key) <==> before@.tasks.dom().contains(key)
                    && before@.tasks[key].expires_at_ms != deadline,
            forall|key: u128| #[trigger]
                before.tasks@.dom().contains(key) && before.tasks@[key].expires_at_ms == deadline
                    ==> popped.contains(key),
    {
        assert forall|key: u128| #[trigger] self.tasks@.dom().contains(key) implies {
            let deadline = self.tasks@[key].expires_at_ms;
            &&& self.deadlines@.dom().contains(deadline)
            &&& self.deadlines@[deadline]@.contains(key)
        } by {
            assert(before.tasks@.dom().contains(key));
        }
        assert forall|due: i64, key: u128|
            #![trigger self.deadlines@[due]@.contains(key)]
            self.deadlines@.dom().contains(due) && self.deadlines@[due]@.contains(key) implies
            self.tasks@.dom().contains(key) && self.tasks@[key].expires_at_ms == due by {
            assert(before.deadlines@[due]@.contains(key));
        }
        assert forall|due: i64| #[trigger] self.deadlines@.dom().contains(due) implies exists|
            key: u128,
        |
            self.deadlines@[due]@.contains(key) by {
            assert(before.deadlines@.dom().contains(due));
            assert(self.deadlines@[due] == before.deadlines@[due]);
        }
        assert forall|key: u128| #[trigger]
            self@.tasks.dom().contains(key) <==> before@.tasks.dom().contains(key)
                && before@.tasks[key].expires_at_ms != deadline by {
            if before.tasks@.dom().contains(key) {
                assert(before@.tasks[key].expires_at_ms == before.tasks@[key].expires_at_ms);
                if popped.contains(key) {
                    assert(before.deadlines@[deadline]@.contains(key));
                }
            }
        }
    }

    /// The deadlines up to `now_ms`, in order.
    fn due_deadlines(&self, now_ms: i64) -> (due: Vec<i64>)
        requires
            self.wf(),
        ensures
            forall|i: int, j: int| 0 <= i < j < due.len() ==> #[trigger] due@[i] < #[trigger] due@[j],
            forall|i: int| 0 <= i < due.len() ==> #[trigger] due@[i] <= now_ms,
            forall|key: u128| #[trigger]
                self@.is_due(key, now_ms) ==> due@.contains(self@.tasks[key].expires_at_ms),
    {
        let mut due: Vec<i64> = Vec::new();
        for deadline in keys: self.deadlines.keys()
            invariant_except_break
                self.wf(),
                keys.seq().unref().to_set() == self.deadlines@.dom(),
                vstd::std_specs::btree::increasing_seq(keys.seq()),
                due.len() == keys.index(),
                forall|i: int| 0 <= i < due.len() ==> #[trigger] due@[i] == *keys.seq()[i],
                forall|i: int, j: int|
                    0 <= i < j < due.len() ==> #[trigger] due@[i] < #[trigger] due@[j],
                forall|i: int| 0 <= i < due.len() ==> #[trigger] due@[i] <= now_ms,
                forall|due_at: i64| #[trigger]
                    self.deadlines@.dom().contains(due_at) ==> due@.contains(due_at) || exists|
                        j: int,
                    |
                        keys.index() <= j < keys.seq().len() && *#[trigger] keys.seq()[j] == due_at,
            ensures
                forall|i: int, j: int|
                    0 <= i < j < due.len() ==> #[trigger] due@[i] < #[trigger] due@[j],
                forall|i: int| 0 <= i < due.len() ==> #[trigger] due@[i] <= now_ms,
                forall|due_at: i64| #[trigger]
                    self.deadlines@.dom().contains(due_at) && due_at <= now_ms ==> due@.contains(
                        due_at,
                    ),
        {
            proof {
                self.keys_are_the_deadlines(keys.seq());
            }
            if *deadline > now_ms {
                break;
            }
            let ghost before = due@;
            due.push(*deadline);
            proof {
                assert forall|due_at: i64| #[trigger]
                    self.deadlines@.dom().contains(due_at) implies due@.contains(due_at) || exists|
                    j: int,
                |
                    keys.index() + 1 <= j < keys.seq().len() && *#[trigger] keys.seq()[j]
                        == due_at by {
                    if before.contains(due_at) {
                        let i = choose|i: int| 0 <= i < before.len() && before[i] == due_at;
                        assert(due@[i] == due_at);
                    } else if due_at == *deadline {
                        assert(due@[before.len() as int] == due_at);
                    }
                }
            }
        }
        proof {
            assert forall|key: u128| #[trigger] self@.is_due(key, now_ms) implies due@.contains(
                self@.tasks[key].expires_at_ms,
            ) by {
                assert(self.tasks@.dom().contains(key));
            }
        }
        due
    }

    /// Takes out the tasks that are due at `now_ms`, the longest overdue first.
    pub fn pop_due_at(&mut self, now_ms: i64) -> (due: Vec<(ObjectKey, ExpiringTask)>)
        requires
            old(self).wf(),
        ensures
            final(self).wf(),
            final(self)@ == old(self)@.without_due(now_ms),
            old(self)@.lists_due(now_ms, due_view(due@)),
    {
        let ghost before = *self;
        let deadlines = self.due_deadlines(now_ms);
        let mut due: Vec<(ObjectKey, ExpiringTask)> = Vec::new();
        let mut next: usize = 0;
        proof {
            assert forall|key: u128| #[trigger] self@.tasks.dom().contains(key) implies
                !deadlines@.take(0).contains(self@.tasks[key].expires_at_ms) by {}
        }
        while next < deadlines.len()
            invariant
                next <= deadlines.len(),
                before.wf(),
                self.wf(),
                self@.own_timeouts == before@.own_timeouts,
                self@.pending_may_exist == before@.pending_may_exist,
                forall|i: int, j: int|
                    0 <= i < j < deadlines.len() ==> #[trigger] deadlines@[i]
                        < #[trigger] deadlines@[j],
                forall|i: int| 0 <= i < deadlines.len() ==> #[trigger] deadlines@[i] <= now_ms,
                forall|key: u128| #[trigger]
                    self@.tasks.dom().contains(key) <==> before@.tasks.dom().contains(key)
                        && !deadlines@.take(next as int).contains(
                        before@.tasks[key].expires_at_ms,
                    ),
                forall|key: u128| #[trigger]
                    self@.tasks.dom().contains(key) ==> self@.tasks[key] == before@.tasks[key],
                before@.lists(
                    |task: TrackedTask| deadlines@.take(next as int).contains(task.expires_at_ms),
                    due_view(due@),
                ),
            decreases deadlines.len() - next,
        {
            let ghost due_before = due@;
            let ghost state_before = *self;
            let deadline: i64 = deadlines[next];
            self.pop_deadline(deadline, &mut due);
            proof {
                let taken = deadlines@.take(next as int);
                let taken_now = deadlines@.take(next + 1);
                assert(taken_now =~= taken.push(deadline));
                assert forall|due_at: i64| #[trigger] taken_now.contains(due_at) <==> taken.contains(
                    due_at,
                ) || due_at == deadline by {
                    if taken.contains(due_at) {
                        let i = choose|i: int| 0 <= i < taken.len() && taken[i] == due_at;
                        assert(taken_now[i] == due_at);
                    }
                    assert(taken_now[taken.len() as int] == deadline);
                }
                assert(!taken.contains(deadline)) by {
                    if taken.contains(deadline) {
                        let i = choose|i: int| 0 <= i < taken.len() && taken[i] == deadline;
                        assert(deadlines@[i] < deadlines@[next as int]);
                    }
                }
                assert forall|key: u128| #[trigger]
                    self@.tasks.dom().contains(key) <==> before@.tasks.dom().contains(key)
                        && !taken_now.contains(before@.tasks[key].expires_at_ms) by {
                    assert(self@.tasks.dom().contains(key) <==> state_before@.tasks.dom().contains(key)
                        && state_before@.tasks[key].expires_at_ms != deadline);
                }
                let old_view = due_view(due_before);
                let new_view = due_view(due@);
                assert forall|i: int| 0 <= i < due_before.len() implies #[trigger] new_view[i]
                    == old_view[i] by {
                    assert(due@.take(due_before.len() as int)[i] == due_before[i]);
                }
                assert forall|i: int| 0 <= i < new_view.len() implies {
                    let entry = #[trigger] new_view[i];
                    &&& before@.tasks.dom().contains(entry.0)
                    &&& before@.tasks[entry.0] == entry.1
                    &&& taken_now.contains(entry.1.expires_at_ms)
                } by {
                    if i < due_before.len() {
                        assert(new_view[i] == old_view[i]);
                    } else {
                        let entry = due@[i];
                        assert(state_before@.tasks.dom().contains(entry.0@));
                    }
                }
                assert forall|i: int, j: int| 0 <= i < j < new_view.len() implies (
                #[trigger] new_view[i]).0 != (#[trigger] new_view[j]).0 && new_view[i].1.expires_at_ms
                    <= new_view[j].1.expires_at_ms by {
                    if j < due_before.len() {
                        assert(new_view[i] == old_view[i] && new_view[j] == old_view[j]);
                    } else if i < due_before.len() {
                        assert(new_view[i] == old_view[i]);
                        assert(taken.contains(old_view[i].1.expires_at_ms));
                        let k = choose|k: int|
                            0 <= k < taken.len() && taken[k] == old_view[i].1.expires_at_ms;
                        assert(deadlines@[k] < deadlines@[next as int]);
                        let entry = due@[j];
                        assert(state_before@.tasks.dom().contains(entry.0@));
                    } else {
                        assert(due@[i].0@ != due@[j].0@);
                    }
                }
                assert forall|key: u128| #[trigger]
                    before@.tasks.dom().contains(key) && taken_now.contains(
                        before@.tasks[key].expires_at_ms,
                    ) implies exists|i: int|
                    0 <= i < new_view.len() && (#[trigger] new_view[i]).0 == key by {
                    if taken.contains(before@.tasks[key].expires_at_ms) {
                        let i = choose|i: int|
                            0 <= i < old_view.len() && (#[trigger] old_view[i]).0 == key;
                        assert(new_view[i].0 == key);
                    } else {
                        assert(state_before@.tasks.dom().contains(key));
                        let i = choose|i: int|
                            due_before.len() <= i < due@.len() && (#[trigger] due@[i]).0@ == key;
                        assert(new_view[i].0 == key);
                    }
                }
            }
            next = next + 1;
        }
        proof {
            assert(deadlines@.take(next as int) =~= deadlines@);
            assert forall|key: u128| before@.tasks.dom().contains(key) implies (
            deadlines@.contains(before@.tasks[key].expires_at_ms) <==> #[trigger] before@.is_due(
                key,
                now_ms,
            )) by {}
            assert(self@.tasks =~= before@.without_due(now_ms).tasks);
            let entries = due_view(due@);
            assert forall|i: int| 0 <= i < entries.len() implies {
                let entry = #[trigger] entries[i];
                &&& before@.tasks.dom().contains(entry.0)
                &&& before@.tasks[entry.0] == entry.1
                &&& entry.1.expires_at_ms <= now_ms
            } by {
                assert(before@.is_due(entries[i].0, now_ms));
            }
            assert forall|key: u128| #[trigger]
                before@.tasks.dom().contains(key) && before@.tasks[key].expires_at_ms
                    <= now_ms implies exists|i: int|
                0 <= i < entries.len() && (#[trigger] entries[i]).0 == key by {
                assert(before@.is_due(key, now_ms));
            }
        }
        due
    }

    /// Takes out the tasks that are due now, the longest overdue first.
    pub fn pop_due(&mut self) -> (due: Vec<(ObjectKey, ExpiringTask)>)
        requires
            old(self).wf(),
        ensures
            final(self).wf(),
            exists|now_ms: i64|
                final(self)@ == #[trigger] old(self)@.without_due(now_ms) && old(self)@.lists_due(
                    now_ms,
                    due_view(due@),
                ),
    {
        let now_ms: i64 = now_millis();
        self.pop_due_at(now_ms)
    }
}

/// A task id once seen survives heartbeats that come without one, and each heartbeat moves the
/// deadline.
pub proof fn heartbeat_keeps_task_id(
    state: TrackerState,
    key: u128,
    task_id: Seq<char>,
    first_deadline: i64,
    second_deadline: i64,
)
    ensures
        state.upserted(key, Some(task_id), first_deadline).upserted(key, None, second_deadline)
            == state.upserted(key, Some(task_id), second_deadline),
{
    let once = state.upserted(key, Some(task_id), second_deadline);
    let twice = state.upserted(key, Some(task_id), first_deadline).upserted(
        key,
        None,
        second_deadline,
    );
    assert(once.tasks =~= twice.tasks);
}

/// Once the due tasks have left the table, nothing in it is due, and the rest is untouched.
pub proof fn nothing_due_is_left(state: TrackerState, now_ms: i64, key: u128)
    ensures
        !state.without_due(now_ms).is_due(key, now_ms),
        state.tasks.dom().contains(key) && !state.is_due(key, now_ms)
            ==> state.without_due(now_ms).tasks.dom().contains(key)
            && state.without_due(now_ms).tasks[key] == state.tasks[key],
{
}

} // verus!
