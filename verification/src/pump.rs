//! How a worker takes in tasks: one claim after the other, as long as it has room and finds some.
use std::time::Duration;

use bson::Document;
use vstd::prelude::*;

use crate::claim::{all_fields, ClaimMode, PreparedClaim};
use crate::database::DatabaseError;
use crate::document::{
    document_fields, document_get_str, now_millis, same_text, str_field, string_view, string_views, Fields,
};
use crate::error::{Failure, RequestError};
use crate::expiry::{
    deadline_in, due_view, ExpiringTask, ExpiryTracker, TrackedTask, TrackerState,
};
use crate::object_key::ObjectKey;
use crate::schedule::{schedule_expiration_from_task, scheduled};

verus! {

/// The ids of the tasks that a worker has in flight.
#[derive(Debug)]
pub struct InFlight {
    ids: Vec<String>,
}

impl View for InFlight {
    type V = Set<Seq<char>>;

    closed spec fn view(&self) -> Set<Seq<char>> {
        string_views(self.ids@).to_set()
    }
}

impl InFlight {
    /// No id is there twice.
    pub closed spec fn wf(&self) -> bool {
        string_views(self.ids@).no_duplicates()
    }

    /// No task in flight.
    pub fn new() -> (in_flight: InFlight)
        ensures
            in_flight.wf(),
            in_flight@ == Set::<Seq<char>>::empty(),
    {
        let in_flight = InFlight { ids: Vec::new() };
        assert(in_flight@ =~= Set::<Seq<char>>::empty());
        in_flight
    }

    /// Where an id stands.
    fn position(&self, task_id: &str) -> (position: Option<usize>)
        ensures
            match position {
                Some(i) => i < self.ids@.len() && self.ids@[i as int]@ == task_id@,
                None => !self@.contains(task_id@),
            },
    {
        let mut i: usize = 0;
        while i < self.ids.len()
            invariant
                i <= self.ids.len(),
                forall|k: int| 0 <= k < i ==> (#[trigger] self.ids@[k])@ != task_id@,
            decreases self.ids.len() - i,
        {
            if same_text(self.ids[i].as_str(), task_id) {
                return Some(i);
            }
            i = i + 1;
        }
        proof {
            let views = string_views(self.ids@);
            if views.contains(task_id@) {
                let k = choose|k: int| 0 <= k < views.len() && views[k] == task_id@;
                assert(self.ids@[k]@ == task_id@);
            }
        }
        None
    }

    /// Takes in an id.
    pub fn insert(&mut self, task_id: &str)
        requires
            old(self).wf(),
        ensures
            final(self).wf(),
            final(self)@ == old(self)@.insert(task_id@),
    {
        let ghost before = *self;
        match self.position(task_id) {
            Some(i) => {
                proof {
                    assert(string_views(self.ids@)[i as int] == task_id@);
                    assert(self@ =~= before@.insert(task_id@));
                }
            },
            None => {
                self.ids.push(task_id.to_owned());
                proof {
                    let views = string_views(before.ids@);
                    assert(string_views(self.ids@) =~= views.push(task_id@));
                    assert forall|id: Seq<char>| #[trigger] self@.contains(id) <==> before@.insert(
                        task_id@,
                    ).contains(id) by {
                        if views.contains(id) {
                            let k = choose|k: int| 0 <= k < views.len() && views[k] == id;
                            assert(views.push(task_id@)[k] == id);
                        }
                        assert(views.push(task_id@)[views.len() as int] == task_id@);
                    }
                    assert(self@ =~= before@.insert(task_id@));
                }
            },
        }
    }

    /// Lets go of an id.
    pub fn remove(&mut self, task_id: &str)
        requires
            old(self).wf(),
        ensures
            final(self).wf(),
            final(self)@ == old(self)@.remove(task_id@),
    {
        let ghost before = *self;
        match self.position(task_id) {
            Some(i) => {
                self.ids.remove(i);
                proof {
                    let views = string_views(before.ids@);
                    let left = string_views(self.ids@);
                    assert(left =~= views.remove(i as int));
                    assert(views[i as int] == task_id@);
                    assert forall|id: Seq<char>| #[trigger] self@.contains(id) <==> before@.remove(
                        task_id@,
                    ).contains(id) by {
                        if left.contains(id) {
                            let k = choose|k: int| 0 <= k < left.len() && left[k] == id;
                            if k < i {
                                assert(views[k] == id);
                            } else {
                                assert(views[k + 1] == id);
                            }
                        }
                        if views.contains(id) && id != task_id@ {
                            let k = choose|k: int| 0 <= k < views.len() && views[k] == id;
                            if k < i {
                                assert(left[k] == id);
                            } else {
                                assert(left[k - 1] == id);
                            }
                        }
                    }
                    assert(self@ =~= before@.remove(task_id@));
                }
            },
            None => {
                assert(self@ =~= before@.remove(task_id@));
            },
        }
    }

    /// The ids, in no particular order.
    pub fn ids(&self) -> (ids: Vec<String>)
        requires
            self.wf(),
        ensures
            string_views(ids@).to_set() == self@,
            string_views(ids@).no_duplicates(),
    {
        let mut ids: Vec<String> = Vec::new();
        let mut i: usize = 0;
        while i < self.ids.len()
            invariant
                i <= self.ids.len(),
                ids.len() == i,
                forall|k: int| 0 <= k < i ==> #[trigger] ids@[k] == self.ids@[k],
            decreases self.ids.len() - i,
        {
            ids.push(self.ids[i].clone());
            i = i + 1;
        }
        assert(ids@ =~= self.ids@);
        ids
    }
}

/// A claim on its way: the filters are tried in order until one finds a task.
#[derive(Debug)]
pub struct ClaimRun {
    claim: PreparedClaim,
    next: usize,
}

/// A `ClaimRun` as contracts speak of it.
pub ghost struct ClaimProgress {
    pub filters: Seq<Fields>,
    pub update: Fields,
    pub next: nat,
}

impl View for ClaimRun {
    type V = ClaimProgress;

    closed spec fn view(&self) -> ClaimProgress {
        ClaimProgress {
            filters: all_fields(self.claim.filters@),
            update: document_fields(self.claim.update),
            next: self.next as nat,
        }
    }
}

/// What comes of one attempt of a claim.
#[derive(Debug)]
pub enum ClaimStep {
    /// The next filter is to be tried.
    TryNext,
    /// The claim has come to its end: with a task, without one, or with an error.
    Done(Result<Option<Document>, RequestError>),
}

impl ClaimRun {
    /// A claim of which nothing has been tried yet.
    pub fn new(claim: PreparedClaim) -> (run: ClaimRun)
        ensures
            run@ == (ClaimProgress {
                filters: all_fields(claim.filters@),
                update: document_fields(claim.update),
                next: 0,
            }),
    {
        ClaimRun { claim, next: 0 }
    }

    /// The filter and the update to try now; nothing once every filter has been tried.
    pub fn attempt(&self) -> (attempt: Option<(&Document, &Document)>)
        ensures
            match attempt {
                Some((filter, update)) => {
                    &&& self@.next < self@.filters.len()
                    &&& document_fields(*filter) == self@.filters[self@.next as int]
                    &&& document_fields(*update) == self@.update
                },
                None => self@.next >= self@.filters.len(),
            },
    {
        if self.next < self.claim.filters.len() {
            Some((&self.claim.filters[self.next], &self.claim.update))
        } else {
            None
        }
    }

    /// Takes in what the attempt has found. A task or an error ends the claim; where nothing was
    /// found the next filter is tried, if there is one.
    pub fn step(&mut self, found: Result<Option<Document>, DatabaseError>) -> (step: ClaimStep)
        requires
            old(self)@.next < old(self)@.filters.len(),
        ensures
            match found {
                Ok(Some(task)) => {
                    &&& step == ClaimStep::Done(Ok(Some(task)))
                    &&& final(self)@ == old(self)@
                },
                Err(error) => {
                    &&& step matches ClaimStep::Done(Err(failure)) && failure@ == Failure::Database(
                        error.text(),
                    )
                    &&& final(self)@ == old(self)@
                },
                Ok(None) => {
                    &&& step == if old(self)@.next + 1 < old(self)@.filters.len() {
                        ClaimStep::TryNext
                    } else {
                        ClaimStep::Done(Ok(None))
                    }
                    &&& final(self)@ == (ClaimProgress {
                        next: old(self)@.next + 1,
                        ..old(self)@
                    })
                },
            },
    {
        match found {
            Ok(Some(task)) => ClaimStep::Done(Ok(Some(task))),
            Err(error) => ClaimStep::Done(Err(error.into_request_error())),
            Ok(None) => {
                let count: usize = self.claim.filters.len();
                self.next = self.next + 1;
                if self.next < count {
                    ClaimStep::TryNext
                } else {
                    ClaimStep::Done(Ok(None))
                }
            },
        }
    }
}

/// The id under which a claimed task is in flight: empty where its document has none.
pub open spec fn flight_id(task: Fields) -> Seq<char> {
    match str_field(task, "task_id"@) {
        Some(task_id) => task_id,
        None => ""@,
    }
}

/// Takes in a claimed task: its deadline goes into the table, its id among those in flight.
fn take_in(
    task: &Document,
    worker_switch_timeout: Duration,
    expiry_tracker: &mut ExpiryTracker,
    in_flight: &mut InFlight,
) -> (task_id: String)
    requires
        old(expiry_tracker).wf(),
        old(in_flight).wf(),
    ensures
        final(expiry_tracker).wf(),
        final(in_flight).wf(),
        final(expiry_tracker)@ == scheduled(
            old(expiry_tracker)@,
            document_fields(*task),
            worker_switch_timeout,
        ),
        final(in_flight)@ == old(in_flight)@.insert(flight_id(document_fields(*task))),
        task_id@ == flight_id(document_fields(*task)),
{
    schedule_expiration_from_task(task, worker_switch_timeout, expiry_tracker);
    let task_id = match document_get_str(task, "task_id") {
        Some(task_id) => task_id.to_owned(),
        None => "".to_owned(),
    };
    in_flight.insert(task_id.as_str());
    task_id
}

/// What is to be done next while a worker takes in tasks.
#[derive(Debug)]
pub enum PumpAction<P> {
    /// Make a claim.
    Claim,
    /// Run the claimed task, which is in flight under this id and holds this permit until it ends,
    /// and look for room for another.
    Spawn { task_id: String, permit: P },
    /// Stop for now.
    Finish,
}

/// One visit to the collection in which a worker claims tasks until it has no room or finds none. It
/// holds a permit to run a task while it makes a claim.
#[derive(Debug)]
pub struct AvailablePump<P> {
    mode: ClaimMode,
    permit: Option<P>,
    attempted: bool,
    claimed_count: u64,
}

/// How far a visit has come: whether it has made a claim, how many tasks it has claimed, and whether
/// it holds a permit.
pub ghost struct Visit {
    pub attempted: bool,
    pub claimed_count: u64,
    pub holds_permit: bool,
}

impl Visit {
    /// A visit that has not begun.
    pub open spec fn fresh() -> Visit {
        Visit { attempted: false, claimed_count: 0, holds_permit: false }
    }

    /// The visit once a permit was granted for a claim, or was not.
    pub open spec fn permitted(self, granted: bool) -> Visit {
        Visit { attempted: self.attempted || granted, holds_permit: granted, ..self }
    }

    /// The visit once a claim has brought a task, which takes the permit over, or none, which sets
    /// the permit free.
    pub open spec fn claimed(self, found: bool) -> Visit {
        Visit {
            claimed_count: if found {
                one_more(self.claimed_count)
            } else {
                self.claimed_count
            },
            holds_permit: false,
            ..self
        }
    }
}

/// One more, unless that is more than 64 bits can hold.
pub open spec fn one_more(count: u64) -> u64 {
    if count < u64::MAX {
        (count + 1) as u64
    } else {
        count
    }
}

fn counted(count: u64) -> (more: u64)
    ensures
        more == one_more(count),
{
    if count < u64::MAX {
        count + 1
    } else {
        count
    }
}

impl<P> AvailablePump<P> {
    /// The way of claiming.
    pub closed spec fn spec_mode(self) -> ClaimMode {
        self.mode
    }

    /// The permit that the visit holds.
    pub closed spec fn permit(self) -> Option<P> {
        self.permit
    }

    /// What the visit has come to so far.
    pub closed spec fn visit(self) -> Visit {
        Visit {
            attempted: self.attempted,
            claimed_count: self.claimed_count,
            holds_permit: self.permit is Some,
        }
    }

    /// A visit that has not begun.
    pub fn new(mode: ClaimMode) -> (pump: AvailablePump<P>)
        ensures
            pump.spec_mode() == mode,
            pump.permit() is None,
            pump.visit() == Visit::fresh(),
    {
        AvailablePump { mode, permit: None, attempted: false, claimed_count: 0 }
    }

    /// Takes in the permit to run another task, if there was one to be had.
    pub fn on_permit(&mut self, permit: Option<P>) -> (action: PumpAction<P>)
        ensures
            final(self).spec_mode() == old(self).spec_mode(),
            final(self).permit() == permit,
            final(self).visit() == old(self).visit().permitted(permit is Some),
            action == if permit is Some {
                PumpAction::<P>::Claim
            } else {
                PumpAction::<P>::Finish
            },
    {
        let granted = permit.is_some();
        self.permit = permit;
        if granted {
            self.attempted = true;
            PumpAction::Claim
        } else {
            PumpAction::Finish
        }
    }

    /// Takes in what a claim has brought. A task is taken in and run under the permit that the visit
    /// holds. Nothing found, or an error, sets the permit free and ends the visit; that no ready task
    /// was found lowers the hint that some may be waiting.
    pub fn on_claim(
        &mut self,
        found: &Result<Option<Document>, RequestError>,
        worker_switch_timeout: Duration,
        expiry_tracker: &mut ExpiryTracker,
        in_flight: &mut InFlight,
    ) -> (action: PumpAction<P>)
        requires
            old(self).permit() is Some,
            old(expiry_tracker).wf(),
            old(in_flight).wf(),
        ensures
            final(expiry_tracker).wf(),
            final(in_flight).wf(),
            final(self).spec_mode() == old(self).spec_mode(),
            final(self).permit() is None,
            final(self).visit() == old(self).visit().claimed(*found matches Ok(Some(_))),
            match *found {
                Ok(Some(task)) => {
                    &&& action matches PumpAction::Spawn { task_id, permit } && task_id@
                        == flight_id(document_fields(task)) && old(self).permit() == Some(permit)
                    &&& final(expiry_tracker)@ == scheduled(
                        old(expiry_tracker)@,
                        document_fields(task),
                        worker_switch_timeout,
                    )
                    &&& final(in_flight)@ == old(in_flight)@.insert(
                        flight_id(document_fields(task)),
                    )
                },
                Ok(None) => {
                    &&& action is Finish
                    &&& final(expiry_tracker)@ == if old(self).spec_mode() is Ready {
                        TrackerState { pending_may_exist: false, ..old(expiry_tracker)@ }
                    } else {
                        old(expiry_tracker)@
                    }
                    &&& final(in_flight)@ == old(in_flight)@
                },
                Err(_) => {
                    &&& action is Finish
                    &&& final(expiry_tracker)@ == old(expiry_tracker)@
                    &&& final(in_flight)@ == old(in_flight)@
                },
            },
    {
        let held = self.permit.take();
        match (found, held) {
            (Ok(Some(task)), Some(permit)) => {
                self.claimed_count = counted(self.claimed_count);
                let task_id = take_in(task, worker_switch_timeout, expiry_tracker, in_flight);
                PumpAction::Spawn { task_id, permit }
            },
            (Ok(None), _) => {
                match self.mode {
                    ClaimMode::Ready => {
                        expiry_tracker.set_pending_may_exist(false);
                    },
                    ClaimMode::StaleRecovery => {},
                }
                PumpAction::Finish
            },
            _ => PumpAction::Finish,
        }
    }

    /// The number of tasks claimed, for metrics; nothing where no claim was made.
    pub fn batch_size(&self) -> (size: Option<u64>)
        ensures
            size == if self.visit().attempted {
                Some(self.visit().claimed_count)
            } else {
                None
            },
    {
        if self.attempted {
            Some(self.claimed_count)
        } else {
            None
        }
    }
}

/// What is to be done next while a worker goes through expired tasks.
#[derive(Debug)]
pub enum ExpiredAction {
    /// Claim the task with this object id; its task id is given if one was ever seen.
    Claim { id: ObjectKey, task_id: Option<String> },
    /// Stop for now.
    Finish,
}

/// What comes of the claim of an expired task.
#[derive(Debug)]
pub enum ExpiredOutcome<P> {
    /// Run the claimed task, which is in flight under this id and holds this permit until it ends.
    Spawn { task_id: String, permit: P },
    /// Nothing is left to be done for the task.
    Nothing,
}

/// One visit to the collection in which a worker claims tasks whose deadline has passed. It holds a
/// permit to run a task while it makes a claim.
#[derive(Debug)]
pub struct ExpiredPump<P> {
    waiting: Vec<(ObjectKey, ExpiringTask)>,
    permit: Option<P>,
    attempted: bool,
    claimed_count: u64,
}

impl<P> ExpiredPump<P> {
    /// The tasks still to be gone through, in order.
    pub closed spec fn waiting(self) -> Seq<(u128, TrackedTask)> {
        due_view(self.waiting@).reverse()
    }

    /// The permit that the visit holds.
    pub closed spec fn permit(self) -> Option<P> {
        self.permit
    }

    /// What the visit has come to so far.
    pub closed spec fn visit(self) -> Visit {
        Visit {
            attempted: self.attempted,
            claimed_count: self.claimed_count,
            holds_permit: self.permit is Some,
        }
    }

    /// The tasks to go through, longest overdue first.
    fn over(due: Vec<(ObjectKey, ExpiringTask)>) -> (pump: ExpiredPump<P>)
        ensures
            pump.waiting() == due_view(due@),
            pump.permit() is None,
            pump.visit() == Visit::fresh(),
    {
        let ghost all = due@;
        let mut rest = due;
        let mut waiting: Vec<(ObjectKey, ExpiringTask)> = Vec::new();
        proof {
            assert(all.take(all.len() as int) =~= all);
            assert(waiting@ =~= all.skip(all.len() as int).reverse());
        }
        while rest.len() > 0
            invariant
                rest@ == all.take(rest@.len() as int),
                rest@.len() <= all.len(),
                waiting@ == all.skip(rest@.len() as int).reverse(),
            decreases rest.len(),
        {
            let ghost left = rest@.len();
            let ghost before = waiting@;
            match rest.pop() {
                Some(entry) => {
                    waiting.push(entry);
                    proof {
                        assert(rest@ =~= all.take(left - 1));
                        assert(all.skip(left - 1) =~= seq![entry] + all.skip(left as int));
                        assert(waiting@ =~= all.skip(left - 1).reverse());
                    }
                },
                None => {},
            }
        }
        let pump = ExpiredPump { waiting, permit: None, attempted: false, claimed_count: 0 };
        proof {
            assert(all.skip(0) =~= all);
            assert(pump.waiting() =~= due_view(all));
        }
        pump
    }

    /// The tasks of the table that are due at `now_ms`, which leave the table.
    pub fn new_at(expiry_tracker: &mut ExpiryTracker, now_ms: i64) -> (pump: ExpiredPump<P>)
        requires
            old(expiry_tracker).wf(),
        ensures
            final(expiry_tracker).wf(),
            final(expiry_tracker)@ == old(expiry_tracker)@.without_due(now_ms),
            old(expiry_tracker)@.lists_due(now_ms, pump.waiting()),
            pump.permit() is None,
            pump.visit() == Visit::fresh(),
    {
        Self::over(expiry_tracker.pop_due_at(now_ms))
    }

    /// The tasks of the table that are due now, which leave the table.
    pub fn new(expiry_tracker: &mut ExpiryTracker) -> (pump: ExpiredPump<P>)
        requires
            old(expiry_tracker).wf(),
        ensures
            final(expiry_tracker).wf(),
            exists|now_ms: i64|
                final(expiry_tracker)@ == #[trigger] old(expiry_tracker)@.without_due(now_ms)
                    && old(expiry_tracker)@.lists_due(now_ms, pump.waiting()),
            pump.permit() is None,
            pump.visit() == Visit::fresh(),
    {
        Self::over(expiry_tracker.pop_due())
    }

    /// Whether tasks are left to be gone through.
    pub fn has_next(&self) -> (more: bool)
        ensures
            more == (self.waiting().len() > 0),
    {
        self.waiting.len() > 0
    }

    /// Takes up the next task, for which the worker has this permit, if one was to be had. Without
    /// room for it at `now_ms`, it goes back into the table together
    /// with all the others, to expire a second later, and the visit ends.
    pub fn next_at(
        &mut self,
        permit: Option<P>,
        expiry_tracker: &mut ExpiryTracker,
        now_ms: i64,
    ) -> (action: ExpiredAction)
        requires
            old(expiry_tracker).wf(),
        ensures
            final(expiry_tracker).wf(),
            if old(self).waiting().len() > 0 && permit is Some {
                &&& action matches ExpiredAction::Claim { id, task_id } && (id@, string_view(task_id))
                    == (old(self).waiting()[0].0, old(self).waiting()[0].1.task_id)
                &&& final(expiry_tracker)@ == old(expiry_tracker)@
                &&& final(self).waiting() == old(self).waiting().drop_first()
                &&& final(self).permit() == permit
                &&& final(self).visit() == old(self).visit().permitted(true)
            } else {
                &&& action is Finish
                &&& final(expiry_tracker)@ == all_postponed(
                    old(expiry_tracker)@,
                    old(self).waiting(),
                    now_ms,
                )
                &&& final(self).waiting().len() == 0
                &&& final(self).permit() is None
                &&& final(self).visit() == old(self).visit().permitted(false)
            },
    {
        let ghost before = *self;
        let ghost state_before = expiry_tracker@;
        self.permit = None;
        if permit.is_some() {
            return match self.waiting.pop() {
                None => ExpiredAction::Finish,
                Some((id, task)) => {
                    proof {
                        assert(before.waiting()[0] == (id@, task@));
                        assert(due_view(self.waiting@) =~= due_view(before.waiting@).drop_last());
                        assert(self.waiting() =~= before.waiting().drop_first());
                    }
                    self.attempted = true;
                    self.permit = permit;
                    ExpiredAction::Claim { id, task_id: task.into_task_id() }
                },
            };
        }
        while self.waiting.len() > 0
            invariant
                expiry_tracker.wf(),
                self.permit() is None,
                self.visit() == before.visit().permitted(false),
                all_postponed(expiry_tracker@, self.waiting(), now_ms) == all_postponed(
                    state_before,
                    before.waiting(),
                    now_ms,
                ),
            decreases self.waiting.len(),
        {
            let ghost now = *self;
            if let Some((id, task)) = self.waiting.pop() {
                proof {
                    assert(now.waiting()[0] == (id@, task@));
                    assert(due_view(self.waiting@) =~= due_view(now.waiting@).drop_last());
                    assert(self.waiting() =~= now.waiting().drop_first());
                }
                expiry_tracker.defer_at(id, task, Duration::from_secs(1), now_ms);
            }
        }
        ExpiredAction::Finish
    }

    /// Takes up the next task, for which the worker has this permit, if one was to be had. Without
    /// room for it now, it goes back into the table together with all
    /// the others, to expire a second later, and the visit ends.
    pub fn next(&mut self, permit: Option<P>, expiry_tracker: &mut ExpiryTracker) -> (action:
        ExpiredAction)
        requires
            old(expiry_tracker).wf(),
        ensures
            final(expiry_tracker).wf(),
            if old(self).waiting().len() > 0 && permit is Some {
                &&& action matches ExpiredAction::Claim { id, task_id } && (id@, string_view(task_id))
                    == (old(self).waiting()[0].0, old(self).waiting()[0].1.task_id)
                &&& final(expiry_tracker)@ == old(expiry_tracker)@
                &&& final(self).waiting() == old(self).waiting().drop_first()
                &&& final(self).permit() == permit
                &&& final(self).visit() == old(self).visit().permitted(true)
            } else {
                &&& action is Finish
                &&& exists|now_ms: i64|
                    final(expiry_tracker)@ == #[trigger] all_postponed(
                        old(expiry_tracker)@,
                        old(self).waiting(),
                        now_ms,
                    )
                &&& final(self).waiting().len() == 0
                &&& final(self).permit() is None
                &&& final(self).visit() == old(self).visit().permitted(false)
            },
    {
        let now_ms: i64 = now_millis();
        self.next_at(permit, expiry_tracker, now_ms)
    }

    /// Takes in what the claim of a task has brought. A claimed task is taken in and run under the
    /// permit that the visit holds. Otherwise the permit is free again, and nothing more is done:
    /// where nothing was found, the task is in flight here, or a newer heartbeat or status came in
    /// between, whose change event brings the table up to date; where the claim failed, the rare look
    /// through the collection finds the task again.
    pub fn on_claim(
        &mut self,
        found: &Result<Option<Document>, RequestError>,
        worker_switch_timeout: Duration,
        expiry_tracker: &mut ExpiryTracker,
        in_flight: &mut InFlight,
    ) -> (outcome: ExpiredOutcome<P>)
        requires
            old(self).permit() is Some,
            old(expiry_tracker).wf(),
            old(in_flight).wf(),
        ensures
            final(expiry_tracker).wf(),
            final(in_flight).wf(),
            final(self).waiting() == old(self).waiting(),
            final(self).permit() is None,
            final(self).visit() == old(self).visit().claimed(*found matches Ok(Some(_))),
            match *found {
                Ok(Some(claimed)) => {
                    &&& outcome matches ExpiredOutcome::Spawn { task_id, permit } && task_id@
                        == flight_id(document_fields(claimed)) && old(self).permit() == Some(permit)
                    &&& final(expiry_tracker)@ == scheduled(
                        old(expiry_tracker)@,
                        document_fields(claimed),
                        worker_switch_timeout,
                    )
                    &&& final(in_flight)@ == old(in_flight)@.insert(
                        flight_id(document_fields(claimed)),
                    )
                },
                Ok(None) | Err(_) => {
                    &&& outcome is Nothing
                    &&& final(expiry_tracker)@ == old(expiry_tracker)@
                    &&& final(in_flight)@ == old(in_flight)@
                },
            },
    {
        let held = self.permit.take();
        match (found, held) {
            (Ok(Some(claimed)), Some(permit)) => {
                self.claimed_count = counted(self.claimed_count);
                let task_id = take_in(claimed, worker_switch_timeout, expiry_tracker, in_flight);
                ExpiredOutcome::Spawn { task_id, permit }
            },
            _ => ExpiredOutcome::Nothing,
        }
    }

    /// The number of tasks claimed, for metrics; nothing where no claim was made.
    pub fn batch_size(&self) -> (size: Option<u64>)
        ensures
            size == if self.visit().attempted {
                Some(self.visit().claimed_count)
            } else {
                None
            },
    {
        if self.attempted {
            Some(self.claimed_count)
        } else {
            None
        }
    }
}

/// The table once a task has been put back at `now_ms`, to expire a second later.
pub open spec fn postponed(
    state: TrackerState,
    key: u128,
    task: TrackedTask,
    now_ms: i64,
) -> TrackerState {
    TrackerState {
        tasks: state.tasks.insert(
            key,
            TrackedTask { expires_at_ms: deadline_in(now_ms, 1000), ..task },
        ),
        ..state
    }
}

/// The table once several tasks have been put back at `now_ms`, each to expire a second later.
pub open spec fn all_postponed(
    state: TrackerState,
    entries: Seq<(u128, TrackedTask)>,
    now_ms: i64,
) -> TrackerState
    decreases entries.len(),
{
    if entries.len() == 0 {
        state
    } else {
        all_postponed(
            postponed(state, entries[0].0, entries[0].1, now_ms),
            entries.drop_first(),
            now_ms,
        )
    }
}

/// What putting back several tasks does to each.
pub(crate) proof fn all_postponed_means(
    state: TrackerState,
    entries: Seq<(u128, TrackedTask)>,
    now_ms: i64,
    key: u128,
)
    requires
        forall|i: int, j: int|
            0 <= i < j < entries.len() ==> (#[trigger] entries[i]).0 != (#[trigger] entries[j]).0,
    ensures
        ({
            let after = all_postponed(state, entries, now_ms);
            &&& after.own_timeouts == state.own_timeouts
            &&& after.pending_may_exist == state.pending_may_exist
            &&& forall|i: int|
                0 <= i < entries.len() && (#[trigger] entries[i]).0 == key ==> after.tasks.dom().contains(
                    key,
                ) && after.tasks[key] == (TrackedTask {
                    expires_at_ms: deadline_in(now_ms, 1000),
                    ..entries[i].1
                })
            &&& (forall|i: int| 0 <= i < entries.len() ==> (#[trigger] entries[i]).0 != key) ==> {
                &&& after.tasks.dom().contains(key) == state.tasks.dom().contains(key)
                &&& after.tasks[key] == state.tasks[key]
            }
        }),
    decreases entries.len(),
{
    if entries.len() > 0 {
        let rest = entries.drop_first();
        let state_after = postponed(state, entries[0].0, entries[0].1, now_ms);
        assert forall|i: int, j: int| 0 <= i < j < rest.len() implies (#[trigger] rest[i]).0 != (
        #[trigger] rest[j]).0 by {
            assert(rest[i] == entries[i + 1] && rest[j] == entries[j + 1]);
        }
        all_postponed_means(state_after, rest, now_ms, key);
        let after = all_postponed(state, entries, now_ms);
        assert forall|i: int| 0 <= i < entries.len() && (#[trigger] entries[i]).0 == key implies
            after.tasks.dom().contains(key) && after.tasks[key] == (TrackedTask {
            expires_at_ms: deadline_in(now_ms, 1000),
            ..entries[i].1
        }) by {
            if i == 0 {
                assert forall|j: int| 0 <= j < rest.len() implies (#[trigger] rest[j]).0 != key by {
                    assert(rest[j] == entries[j + 1]);
                }
            } else {
                assert(rest[i - 1] == entries[i]);
            }
        }
        if forall|i: int| 0 <= i < entries.len() ==> (#[trigger] entries[i]).0 != key {
            assert(entries[0].0 != key);
            assert forall|j: int| 0 <= j < rest.len() implies (#[trigger] rest[j]).0 != key by {
                assert(rest[j] == entries[j + 1]);
            }
        }
    }
}

/// A visit without room forgets no task: whatever was due when the visit began is in the table again
/// when it ends, under its task id, to expire a second later, and all else is as it was.
pub proof fn no_room_forgets_nothing(
    state: TrackerState,
    due: Seq<(u128, TrackedTask)>,
    due_at_ms: i64,
    now_ms: i64,
    key: u128,
)
    requires
        state.lists_due(due_at_ms, due),
    ensures
        ({
            let after = all_postponed(state.without_due(due_at_ms), due, now_ms);
            &&& after.tasks.dom().contains(key) == state.tasks.dom().contains(key)
            &&& after.own_timeouts == state.own_timeouts
            &&& after.pending_may_exist == state.pending_may_exist
            &&& state.tasks.dom().contains(key) ==> after.tasks[key] == if state.is_due(
                key,
                due_at_ms,
            ) {
                TrackedTask { expires_at_ms: deadline_in(now_ms, 1000), ..state.tasks[key] }
            } else {
                state.tasks[key]
            }
        }),
{
    all_postponed_means(state.without_due(due_at_ms), due, now_ms, key);
    if state.is_due(key, due_at_ms) {
        let i = choose|i: int| 0 <= i < due.len() && (#[trigger] due[i]).0 == key;
        assert(due[i].1 == state.tasks[key]);
    } else {
        assert forall|i: int| 0 <= i < due.len() implies (#[trigger] due[i]).0 != key by {}
    }
}

} // verus!
