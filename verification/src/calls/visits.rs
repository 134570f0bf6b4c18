//! Calls by which a worker goes through what there is to claim.
use std::time::Duration;

use bson::Document;
use vstd::prelude::*;

use crate::calls::changes::{
    has_taken_in, is_after, same_entry, same_own_timeout, same_tasks,
};
use crate::claim::{all_fields, ClaimMode, PreparedClaim};
use crate::database::DatabaseError;
use crate::document::{document_fields, field, string_view, string_views, BsonValue, Fields};
use crate::error::{Failure, RequestError};
use crate::expiry::{ExpiryTracker, TrackedTask, TrackerState};
use crate::pump::{
    all_postponed, all_postponed_means, AvailablePump, ClaimRun, ClaimStep, ExpiredAction,
    ExpiredOutcome, ExpiredPump, InFlight, PumpAction,
};

verus! {

/// The id under which a claimed task is in flight: its task id, or nothing where it has none.
pub open spec fn id_in(task: Fields) -> Seq<char> {
    match field(task, "task_id"@) {
        Some(BsonValue::Str(task_id)) => task_id,
        _ => Seq::empty(),
    }
}

proof fn nothing_is_empty()
    ensures
        ""@ == Seq::<char>::empty(),
{
    reveal_strlit("");
    assert(""@ =~= Seq::<char>::empty());
}

/// At first nothing is in flight.
pub proof fn nothing_is_in_flight_at_first(in_flight: InFlight)
    requires
        call_ensures(InFlight::new, (), in_flight),
    ensures
        in_flight.wf(),
        forall|task_id: Seq<char>| !(#[trigger] in_flight@.contains(task_id)),
{
}

/// An id is in flight from when it is put there until it is let go, and no other id is touched.
pub proof fn ids_are_in_flight_until_let_go(
    starting: &mut InFlight,
    ending: &mut InFlight,
    task_id: &str,
    other: Seq<char>,
)
    requires
        old(starting).wf(),
        old(ending).wf(),
        call_ensures(InFlight::insert, (starting, task_id), ()),
        call_ensures(InFlight::remove, (ending, task_id), ()),
    ensures
        final(starting)@.contains(task_id@),
        !final(ending)@.contains(task_id@),
        other != task_id@ ==> (final(starting)@.contains(other) <==> old(starting)@.contains(
            other,
        )),
        other != task_id@ ==> (final(ending)@.contains(other) <==> old(ending)@.contains(other)),
{
}

/// The list of what is in flight has every id, each once, and no other.
pub proof fn ids_in_flight_are_listed(in_flight: InFlight, ids: Vec<String>, task_id: Seq<char>)
    requires
        in_flight.wf(),
        call_ensures(InFlight::ids, (&in_flight,), ids),
    ensures
        in_flight@.contains(task_id) <==> exists|i: int|
            0 <= i < ids@.len() && (#[trigger] ids@[i])@ == task_id,
        forall|i: int, j: int|
            0 <= i < j < ids@.len() ==> (#[trigger] ids@[i])@ != (#[trigger] ids@[j])@,
{
    let views = string_views(ids@);
    assert forall|i: int, j: int| 0 <= i < j < ids@.len() implies (#[trigger] ids@[i])@ != (
    #[trigger] ids@[j])@ by {
        assert(views[i] == ids@[i]@ && views[j] == ids@[j]@);
    }
    if in_flight@.contains(task_id) {
        assert(views.contains(task_id));
        let i = choose|i: int| 0 <= i < views.len() && views[i] == task_id;
        assert(ids@[i]@ == task_id);
    }
    if exists|i: int| 0 <= i < ids@.len() && (#[trigger] ids@[i])@ == task_id {
        let i = choose|i: int| 0 <= i < ids@.len() && (#[trigger] ids@[i])@ == task_id;
        assert(views[i] == task_id);
        assert(views.contains(task_id));
    }
}

/// A claim begins with its first filter, and every attempt carries its update.
pub proof fn claim_begins_with_its_first_filter(
    claim: PreparedClaim,
    run: ClaimRun,
    attempt: Option<(&Document, &Document)>,
)
    requires
        call_ensures(ClaimRun::new, (claim,), run),
        call_ensures(ClaimRun::attempt, (&run,), attempt),
    ensures
        attempt is Some <==> claim.filters@.len() > 0,
        attempt matches Some((filter, update)) ==> document_fields(*filter) == document_fields(
            claim.filters@[0],
        ) && document_fields(*update) == document_fields(claim.update),
{
    assert(all_fields(claim.filters@).len() == claim.filters@.len());
    if claim.filters@.len() > 0 {
        assert(all_fields(claim.filters@)[0] == document_fields(claim.filters@[0]));
    }
}

/// The filters of a claim are tried in order until one finds a task: that task, or an error, ends the
/// claim; where nothing was found the next filter has its turn, and after the last the claim ends with
/// nothing.
pub proof fn filters_are_tried_in_order(
    run: &mut ClaimRun,
    found: Result<Option<Document>, DatabaseError>,
    step: ClaimStep,
    attempt: Option<(&Document, &Document)>,
)
    requires
        old(run)@.next < old(run)@.filters.len(),
        call_ensures(ClaimRun::step, (run, found), step),
        call_ensures(ClaimRun::attempt, (&*final(run),), attempt),
    ensures
        found matches Ok(Some(task)) ==> step == ClaimStep::Done(Ok(Some(task))),
        found matches Err(error) ==> (step matches ClaimStep::Done(Err(failure)) && failure@
            == Failure::Database(
            match error {
                DatabaseError::Command { message, .. } => message@,
                DatabaseError::Write { message, .. } => message@,
                DatabaseError::Other { message } => message@,
            },
        )),
        found matches Ok(None) ==> if old(run)@.next + 1 < old(run)@.filters.len() {
            &&& step is TryNext
            &&& attempt matches Some((filter, update)) && document_fields(*filter) == old(
                run,
            )@.filters[old(run)@.next as int + 1] && document_fields(*update) == old(run)@.update
        } else {
            &&& step == ClaimStep::Done(Ok(None))
            &&& attempt is None
        },
{
}

/// A visit that has room makes a claim, and holds the permit meanwhile; one without room ends.
pub proof fn visit_claims_while_it_has_room<P>(
    mode: ClaimMode,
    fresh: AvailablePump<P>,
    size: Option<u64>,
    pump: &mut AvailablePump<P>,
    permit: Option<P>,
    action: PumpAction<P>,
)
    requires
        call_ensures(AvailablePump::<P>::new, (mode,), fresh),
        call_ensures(AvailablePump::<P>::batch_size, (&fresh,), size),
        call_ensures(AvailablePump::<P>::on_permit, (pump, permit), action),
    ensures
        fresh.spec_mode() == mode,
        fresh.permit() is None,
        size is None,
        permit is Some ==> action is Claim,
        permit is None ==> action is Finish,
        final(pump).permit() == permit,
        final(pump).spec_mode() == old(pump).spec_mode(),
{
}

/// A task that a visit has claimed is run under the permit that the visit held, is in flight from then
/// on, and is in the table with its deadline.
pub proof fn claimed_task_is_run<P>(
    pump: &mut AvailablePump<P>,
    task: Document,
    timeout: Duration,
    tracker: &mut ExpiryTracker,
    in_flight: &mut InFlight,
    action: PumpAction<P>,
    other: Seq<char>,
)
    requires
        old(pump).permit() is Some,
        old(tracker).wf(),
        old(in_flight).wf(),
        call_ensures(
            AvailablePump::<P>::on_claim,
            (
                pump,
                &Ok::<Option<Document>, RequestError>(Some(task)),
                timeout,
                tracker,
                in_flight,
            ),
            action,
        ),
    ensures
        action matches PumpAction::Spawn { task_id, permit } && task_id@ == id_in(
            document_fields(task),
        ) && old(pump).permit() == Some(permit),
        final(pump).permit() is None,
        final(in_flight)@.contains(id_in(document_fields(task))),
        other != id_in(document_fields(task)) ==> (final(in_flight)@.contains(other) <==> old(
            in_flight,
        )@.contains(other)),
        has_taken_in(old(tracker)@, final(tracker)@, document_fields(task), timeout),
        final(tracker)@.pending_may_exist == old(tracker)@.pending_may_exist,
        final(pump).spec_mode() == old(pump).spec_mode(),
{
    nothing_is_empty();
}

/// A claim that has brought no task ends the visit and sets the permit free. Where a claim for ready
/// tasks found none, the hint that some may be waiting is lowered; nothing else changes.
pub proof fn claim_without_a_task_ends_the_visit<P>(
    pump: &mut AvailablePump<P>,
    found: Result<Option<Document>, RequestError>,
    timeout: Duration,
    tracker: &mut ExpiryTracker,
    in_flight: &mut InFlight,
    action: PumpAction<P>,
)
    requires
        old(pump).permit() is Some,
        old(tracker).wf(),
        old(in_flight).wf(),
        !(found matches Ok(Some(_))),
        call_ensures(
            AvailablePump::<P>::on_claim,
            (pump, &found, timeout, tracker, in_flight),
            action,
        ),
    ensures
        action is Finish,
        final(pump).permit() is None,
        final(in_flight)@ == old(in_flight)@,
        same_tasks(old(tracker)@, final(tracker)@),
        final(tracker)@.pending_may_exist == (old(tracker)@.pending_may_exist && !(found matches Ok(
            None,
        ) && old(pump).spec_mode() is Ready)),
{
}

/// The size of a batch is the number of tasks that were claimed in the visit: it is nothing before the
/// first permit, no task then, and one more with each task.
pub proof fn batch_counts_the_claimed_tasks<P>(
    pump: &mut AvailablePump<P>,
    found: Result<Option<Document>, RequestError>,
    timeout: Duration,
    tracker: &mut ExpiryTracker,
    in_flight: &mut InFlight,
    action: PumpAction<P>,
    before: Option<u64>,
    after: Option<u64>,
)
    requires
        old(pump).permit() is Some,
        call_ensures(AvailablePump::<P>::batch_size, (&*old(pump),), before),
        call_ensures(
            AvailablePump::<P>::on_claim,
            (pump, &found, timeout, tracker, in_flight),
            action,
        ),
        call_ensures(AvailablePump::<P>::batch_size, (&*final(pump),), after),
    ensures
        before is None <==> after is None,
        before matches Some(count) ==> after == Some(
            if found matches Ok(Some(_)) && count < u64::MAX {
                (count + 1) as u64
            } else {
                count
            },
        ),
{
}

/// A permit counts as an attempt: from then on the batch has a size, and asking for a permit changes it
/// no further.
pub proof fn permit_opens_the_batch<P>(
    pump: &mut AvailablePump<P>,
    permit: Option<P>,
    action: PumpAction<P>,
    before: Option<u64>,
    after: Option<u64>,
)
    requires
        call_ensures(AvailablePump::<P>::batch_size, (&*old(pump),), before),
        call_ensures(AvailablePump::<P>::on_permit, (pump, permit), action),
        call_ensures(AvailablePump::<P>::batch_size, (&*final(pump),), after),
    ensures
        before is Some ==> after == before,
        before is None ==> (after is Some <==> permit is Some),
{
}

/// The first permit of a visit opens a batch of no task.
pub proof fn first_permit_opens_an_empty_batch<P>(
    mode: ClaimMode,
    pump: &mut AvailablePump<P>,
    permit: P,
    action: PumpAction<P>,
    size: Option<u64>,
)
    requires
        call_ensures(AvailablePump::<P>::new, (mode,), *old(pump)),
        call_ensures(AvailablePump::<P>::on_permit, (pump, Some(permit)), action),
        call_ensures(AvailablePump::<P>::batch_size, (&*final(pump),), size),
    ensures
        size == Some(0u64),
{
}

/// A visit to the expired tasks goes through those that are due, which leave the table.
pub proof fn expired_visit_takes_what_is_due<P>(
    tracker: &mut ExpiryTracker,
    now_ms: i64,
    pump: ExpiredPump<P>,
    size: Option<u64>,
    more: bool,
)
    requires
        old(tracker).wf(),
        call_ensures(ExpiredPump::<P>::new_at, (tracker, now_ms), pump),
        call_ensures(ExpiredPump::<P>::batch_size, (&pump,), size),
        call_ensures(ExpiredPump::<P>::has_next, (&pump,), more),
    ensures
        takes_due(old(tracker)@, final(tracker)@, pump.waiting(), now_ms),
        pump.permit() is None,
        size is None,
        more <==> pump.waiting().len() > 0,
{
}

/// Whether a visit has taken the due tasks out of a table: it goes through each once, by their
/// deadlines, and all else is as it was.
pub open spec fn takes_due(
    before: TrackerState,
    after: TrackerState,
    waiting: Seq<(u128, TrackedTask)>,
    now_ms: i64,
) -> bool {
    &&& forall|key: u128| #[trigger]
        after.tasks.dom().contains(key) <==> before.tasks.dom().contains(key)
            && before.tasks[key].expires_at_ms > now_ms
    &&& forall|key: u128| #[trigger]
        after.tasks.dom().contains(key) ==> after.tasks[key] == before.tasks[key]
    &&& forall|i: int|
        0 <= i < waiting.len() ==> before.tasks.dom().contains((#[trigger] waiting[i]).0)
            && before.tasks[waiting[i].0] == waiting[i].1 && waiting[i].1.expires_at_ms <= now_ms
    &&& forall|i: int, j: int|
        0 <= i < j < waiting.len() ==> (#[trigger] waiting[i]).0 != (#[trigger] waiting[j]).0
            && waiting[i].1.expires_at_ms <= waiting[j].1.expires_at_ms
    &&& forall|key: u128| #[trigger]
        before.tasks.dom().contains(key) && before.tasks[key].expires_at_ms <= now_ms
            ==> exists|i: int| 0 <= i < waiting.len() && (#[trigger] waiting[i]).0 == key
    &&& forall|key: u128| #[trigger] same_own_timeout(before, after, key)
    &&& after.pending_may_exist == before.pending_may_exist
}

/// A visit that begins now takes what is due now.
pub proof fn expired_visit_takes_what_is_due_now<P>(
    tracker: &mut ExpiryTracker,
    pump: ExpiredPump<P>,
    size: Option<u64>,
)
    requires
        old(tracker).wf(),
        call_ensures(ExpiredPump::<P>::new, (tracker,), pump),
        call_ensures(ExpiredPump::<P>::batch_size, (&pump,), size),
    ensures
        size is None,
        exists|now_ms: i64| #[trigger]
            takes_due(old(tracker)@, final(tracker)@, pump.waiting(), now_ms),
        pump.permit() is None,
{
    let now_ms = choose|now_ms: i64|
        final(tracker)@ == #[trigger] old(tracker)@.without_due(now_ms) && old(
            tracker,
        )@.lists_due(now_ms, pump.waiting());
    assert(takes_due(old(tracker)@, final(tracker)@, pump.waiting(), now_ms));
}

/// With room for it, the task that is longest overdue is claimed by what the table knew of it, and the
/// others wait on.
pub proof fn expired_task_is_claimed_in_its_turn<P>(
    pump: &mut ExpiredPump<P>,
    permit: P,
    tracker: &mut ExpiryTracker,
    now_ms: i64,
    action: ExpiredAction,
)
    requires
        old(tracker).wf(),
        old(pump).waiting().len() > 0,
        call_ensures(ExpiredPump::<P>::next_at, (pump, Some(permit), tracker, now_ms), action),
    ensures
        action matches ExpiredAction::Claim { id, task_id } && id@ == old(pump).waiting()[0].0
            && string_view(task_id) == old(pump).waiting()[0].1.task_id,
        final(pump).waiting() == old(pump).waiting().drop_first(),
        final(pump).permit() == Some(permit),
        final(tracker)@ == old(tracker)@,
{
}

/// Without room, the tasks that were still to be gone through are put back, to expire a second later
/// under the ids that they had, and the visit ends.
pub proof fn visit_without_room_puts_tasks_back<P>(
    pump: &mut ExpiredPump<P>,
    tracker: &mut ExpiryTracker,
    now_ms: i64,
    action: ExpiredAction,
    key: u128,
)
    requires
        old(tracker).wf(),
        forall|i: int, j: int|
            0 <= i < j < old(pump).waiting().len() ==> (#[trigger] old(pump).waiting()[i]).0 != (
            #[trigger] old(pump).waiting()[j]).0,
        call_ensures(ExpiredPump::<P>::next_at, (pump, None::<P>, tracker, now_ms), action),
    ensures
        action is Finish,
        final(pump).waiting().len() == 0,
        final(pump).permit() is None,
        forall|i: int|
            0 <= i < old(pump).waiting().len() && (#[trigger] old(pump).waiting()[i]).0 == key ==> {
                &&& final(tracker)@.tasks.dom().contains(key)
                &&& is_after(final(tracker)@.tasks[key].expires_at_ms, now_ms, 1000)
                &&& final(tracker)@.tasks[key].task_id == old(pump).waiting()[i].1.task_id
            },
        (forall|i: int| 0 <= i < old(pump).waiting().len() ==> (#[trigger] old(pump).waiting()[i]).0
            != key) ==> same_entry(old(tracker)@, final(tracker)@, key),
        same_own_timeout(old(tracker)@, final(tracker)@, key),
        final(tracker)@.pending_may_exist == old(tracker)@.pending_may_exist,
{
    all_postponed_means(old(tracker)@, old(pump).waiting(), now_ms, key);
}

/// An expired task that was claimed is run like any other; the visit goes on with those that wait.
pub proof fn claimed_expired_task_is_run<P>(
    pump: &mut ExpiredPump<P>,
    task: Document,
    timeout: Duration,
    tracker: &mut ExpiryTracker,
    in_flight: &mut InFlight,
    outcome: ExpiredOutcome<P>,
    other: Seq<char>,
)
    requires
        old(pump).permit() is Some,
        old(tracker).wf(),
        old(in_flight).wf(),
        call_ensures(
            ExpiredPump::<P>::on_claim,
            (
                pump,
                &Ok::<Option<Document>, RequestError>(Some(task)),
                timeout,
                tracker,
                in_flight,
            ),
            outcome,
        ),
    ensures
        outcome matches ExpiredOutcome::Spawn { task_id, permit } && task_id@ == id_in(
            document_fields(task),
        ) && old(pump).permit() == Some(permit),
        final(pump).permit() is None,
        final(pump).waiting() == old(pump).waiting(),
        final(in_flight)@.contains(id_in(document_fields(task))),
        other != id_in(document_fields(task)) ==> (final(in_flight)@.contains(other) <==> old(
            in_flight,
        )@.contains(other)),
        has_taken_in(old(tracker)@, final(tracker)@, document_fields(task), timeout),
        final(tracker)@.pending_may_exist == old(tracker)@.pending_may_exist,
{
    nothing_is_empty();
}

/// A claim of an expired task that has brought nothing sets the permit free, changes nothing, and lets
/// the visit go on.
pub proof fn vain_expired_claim_changes_nothing<P>(
    pump: &mut ExpiredPump<P>,
    found: Result<Option<Document>, RequestError>,
    timeout: Duration,
    tracker: &mut ExpiryTracker,
    in_flight: &mut InFlight,
    outcome: ExpiredOutcome<P>,
)
    requires
        old(pump).permit() is Some,
        old(tracker).wf(),
        old(in_flight).wf(),
        !(found matches Ok(Some(_))),
        call_ensures(
            ExpiredPump::<P>::on_claim,
            (pump, &found, timeout, tracker, in_flight),
            outcome,
        ),
    ensures
        outcome is Nothing,
        final(pump).permit() is None,
        final(pump).waiting() == old(pump).waiting(),
        final(in_flight)@ == old(in_flight)@,
        final(tracker)@ == old(tracker)@,
{
}

/// The size of the batch of an expired visit counts likewise.
pub proof fn expired_batch_counts_the_claimed_tasks<P>(
    pump: &mut ExpiredPump<P>,
    found: Result<Option<Document>, RequestError>,
    timeout: Duration,
    tracker: &mut ExpiryTracker,
    in_flight: &mut InFlight,
    outcome: ExpiredOutcome<P>,
    before: Option<u64>,
    after: Option<u64>,
)
    requires
        old(pump).permit() is Some,
        call_ensures(ExpiredPump::<P>::batch_size, (&*old(pump),), before),
        call_ensures(
            ExpiredPump::<P>::on_claim,
            (pump, &found, timeout, tracker, in_flight),
            outcome,
        ),
        call_ensures(ExpiredPump::<P>::batch_size, (&*final(pump),), after),
    ensures
        before is None <==> after is None,
        before matches Some(count) ==> after == Some(
            if found matches Ok(Some(_)) && count < u64::MAX {
                (count + 1) as u64
            } else {
                count
            },
        ),
{
}

/// Going on to the next expired task opens the batch, with no task in it yet.
pub proof fn expired_attempt_opens_the_batch<P>(
    pump: &mut ExpiredPump<P>,
    permit: Option<P>,
    tracker: &mut ExpiryTracker,
    now_ms: i64,
    action: ExpiredAction,
    before: Option<u64>,
    after: Option<u64>,
)
    requires
        call_ensures(ExpiredPump::<P>::batch_size, (&*old(pump),), before),
        call_ensures(ExpiredPump::<P>::next_at, (pump, permit, tracker, now_ms), action),
        call_ensures(ExpiredPump::<P>::batch_size, (&*final(pump),), after),
    ensures
        before is Some ==> after == before,
        before is None ==> (after is Some <==> permit is Some && old(pump).waiting().len() > 0),
{
}

/// The first claim of an expired visit opens a batch of no task.
pub proof fn first_expired_claim_opens_an_empty_batch<P>(
    begun: &mut ExpiryTracker,
    pump: &mut ExpiredPump<P>,
    permit: P,
    tracker: &mut ExpiryTracker,
    now_ms: i64,
    action: ExpiredAction,
    size: Option<u64>,
)
    requires
        call_ensures(ExpiredPump::<P>::new_at, (begun, now_ms), *old(pump)),
        old(pump).waiting().len() > 0,
        call_ensures(ExpiredPump::<P>::next_at, (pump, Some(permit), tracker, now_ms), action),
        call_ensures(ExpiredPump::<P>::batch_size, (&*final(pump),), size),
    ensures
        size == Some(0u64),
{
}

/// Going on now does the same as going on at an instant: with room the next task is claimed, and
/// without it those that wait are put back, to expire a second later.
pub proof fn expired_visit_goes_on_now<P>(
    pump: &mut ExpiredPump<P>,
    permit: Option<P>,
    tracker: &mut ExpiryTracker,
    action: ExpiredAction,
    key: u128,
)
    requires
        old(tracker).wf(),
        forall|i: int, j: int|
            0 <= i < j < old(pump).waiting().len() ==> (#[trigger] old(pump).waiting()[i]).0 != (
            #[trigger] old(pump).waiting()[j]).0,
        call_ensures(ExpiredPump::<P>::next, (pump, permit, tracker), action),
    ensures
        permit is Some && old(pump).waiting().len() > 0 ==> (action matches ExpiredAction::Claim {
            id,
            task_id,
        } && id@ == old(pump).waiting()[0].0 && string_view(task_id) == old(
            pump,
        ).waiting()[0].1.task_id && final(pump).waiting() == old(pump).waiting().drop_first()
            && final(pump).permit() == permit && final(tracker)@ == old(tracker)@),
        permit is None || old(pump).waiting().len() == 0 ==> {
            &&& action is Finish
            &&& final(pump).waiting().len() == 0
            &&& final(pump).permit() is None
            &&& forall|i: int|
                0 <= i < old(pump).waiting().len() && (#[trigger] old(pump).waiting()[i]).0 == key
                    ==> is_put_back(final(tracker)@, key, old(pump).waiting()[i].1.task_id)
            &&& (forall|i: int|
                0 <= i < old(pump).waiting().len() ==> (#[trigger] old(pump).waiting()[i]).0
                    != key) ==> same_entry(old(tracker)@, final(tracker)@, key)
            &&& same_own_timeout(old(tracker)@, final(tracker)@, key)
            &&& final(tracker)@.pending_may_exist == old(tracker)@.pending_may_exist
        },
{
    if permit is None || old(pump).waiting().len() == 0 {
        let now_ms = choose|now_ms: i64|
            final(tracker)@ == #[trigger] all_postponed(
                old(tracker)@,
                old(pump).waiting(),
                now_ms,
            );
        all_postponed_means(old(tracker)@, old(pump).waiting(), now_ms, key);
        assert forall|i: int|
            0 <= i < old(pump).waiting().len() && (#[trigger] old(pump).waiting()[i]).0
                == key implies is_put_back(
            final(tracker)@,
            key,
            old(pump).waiting()[i].1.task_id,
        ) by {
            assert(is_after(final(tracker)@.tasks[key].expires_at_ms, now_ms, 1000));
        }
    }
}

/// Whether a task is in the table under this id, to expire a second after some instant.
pub open spec fn is_put_back(state: TrackerState, key: u128, task_id: Option<Seq<char>>) -> bool {
    &&& state.tasks.dom().contains(key)
    &&& state.tasks[key].task_id == task_id
    &&& exists|now_ms: i64| #[trigger] is_after(state.tasks[key].expires_at_ms, now_ms, 1000)
}

} // verus!
