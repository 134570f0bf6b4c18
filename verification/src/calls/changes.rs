//! Calls by which a worker follows its collection: what it knows of running tasks, and how it learns
//! that tasks are ready.
use std::time::Duration;

use bson::Document;
use vstd::prelude::*;

use crate::calls::requests::{has_status, prepared_task_stores_the_request};
use crate::caller::{prepare_task_at, PreparedTask, Request};
use crate::document::{document_fields, field, BsonValue, Fields};
use crate::expiry::{
    deadline_of, delay_until, due_view, ExpiringTask, ExpiryTracker, TrackedTask, TrackerState,
};
use crate::names::{statuses_differ, worker_field};
use crate::object_key::{object_number, ObjectKey};
use crate::query::updates;
use crate::schedule::{
    all_scheduled, apply_change_event_to_expirations, calls_for_entry, entry_for, expiration_update_from_fields,
    heartbeat_from_task, key_of, none_tracked, object_key, refresh_pending_tasks,
    refresh_running_expirations, scan_pictures_running_tasks, schedule_expiration_from_task,
    task_switch_timeout, updated_status_is_not_running, ChangeEvent, ChangeKind,
};
use crate::time::duration_nanos;
use crate::worker::Trigger;

verus! {

/// The key of a document: its object id as a number.
pub open spec fn key_in(document: Fields) -> Option<u128> {
    match field(document, "_id"@) {
        Some(BsonValue::ObjectId(bytes)) => Some(object_number(bytes) as u128),
        _ => None,
    }
}

/// The whole milliseconds of a duration.
pub open spec fn whole_millis(duration: Duration) -> int {
    duration_nanos(duration) as int / 1_000_000
}

/// The 64-bit number that a value is, if it is one.
pub open spec fn number_in(value: Option<BsonValue>) -> Option<i64> {
    match value {
        Some(BsonValue::Int64(number)) => Some(number),
        _ => None,
    }
}

/// The instant that a value is, if it is one.
pub open spec fn instant_in(value: Option<BsonValue>) -> Option<i64> {
    match value {
        Some(BsonValue::Date(millis)) => Some(millis),
        _ => None,
    }
}

/// The milliseconds that a stored timeout stands for: a default where none is stored, or a negative
/// one.
pub open spec fn millis_or(stored: Option<i64>, default: Duration) -> int {
    if stored is Some && stored->0 >= 0 {
        stored->0 as int
    } else {
        whole_millis(default)
    }
}

/// The milliseconds for which a heartbeat of a task counts: those set for the task, or else those that
/// its claim recorded, or else a default.
pub open spec fn timeout_in(task: Fields, default: Duration) -> int {
    if number_in(field(task, "worker_switch_timeout"@)) is Some {
        millis_or(number_in(field(task, "worker_switch_timeout"@)), default)
    } else {
        millis_or(number_in(worker_field(task, "switch_timeout_ms"@)), default)
    }
}

/// Whether an instant is so many milliseconds after another. Neither goes beyond the largest number of
/// 64 bits, which stands in for what would.
pub open spec fn is_after(deadline: i64, instant: i64, millis: int) -> bool {
    let length = if millis <= i64::MAX {
        millis
    } else {
        i64::MAX as int
    };
    deadline == if instant + length <= i64::MAX {
        instant + length
    } else {
        i64::MAX as int
    }
}

/// Whether the table says the same of a task before and after.
pub open spec fn same_entry(before: TrackerState, after: TrackerState, key: u128) -> bool {
    &&& after.tasks.dom().contains(key) <==> before.tasks.dom().contains(key)
    &&& before.tasks.dom().contains(key) ==> after.tasks[key] == before.tasks[key]
}

/// Whether the same switch timeout is known to be set for a task before and after.
pub open spec fn same_own_timeout(before: TrackerState, after: TrackerState, key: u128) -> bool {
    &&& after.own_timeouts.dom().contains(key) <==> before.own_timeouts.dom().contains(key)
    &&& before.own_timeouts.dom().contains(key) ==> after.own_timeouts[key]
        == before.own_timeouts[key]
}

/// Whether nothing is known otherwise of any task but one.
pub open spec fn same_but_for(before: TrackerState, after: TrackerState, key: u128) -> bool {
    forall|other: u128| #![auto]
        other != key ==> same_entry(before, after, other) && same_own_timeout(before, after, other)
}

/// Whether nothing is known otherwise of any task.
pub open spec fn same_tasks(before: TrackerState, after: TrackerState) -> bool {
    forall|key: u128| #![auto]
        same_entry(before, after, key) && same_own_timeout(before, after, key)
}

/// Whether this is the switch timeout that is known to be set for a task.
pub open spec fn knows_own_timeout(state: TrackerState, key: u128, own: Option<i64>) -> bool {
    match own {
        Some(millis) => state.own_timeouts.dom().contains(key) && state.own_timeouts[key] == millis,
        None => !state.own_timeouts.dom().contains(key),
    }
}

/// The task id that the table knows of a task.
pub open spec fn known_id(state: TrackerState, key: u128) -> Option<Seq<char>> {
    if state.tasks.dom().contains(key) {
        state.tasks[key].task_id
    } else {
        None
    }
}

/// Whether the table has taken in the document of a task: one that runs and has had a heartbeat is
/// there, to expire when its timeout has passed since; one that does not run is not there. The timeout
/// set for a task that runs or waits is known, that of any other is not.
pub open spec fn has_taken_in(
    before: TrackerState,
    after: TrackerState,
    task: Fields,
    default: Duration,
) -> bool {
    match key_in(task) {
        None => same_tasks(before, after),
        Some(key) => {
            &&& same_but_for(before, after, key)
            &&& if has_status(task, "running"@) {
                &&& knows_own_timeout(
                    after,
                    key,
                    number_in(field(task, "worker_switch_timeout"@)),
                )
                &&& match instant_in(worker_field(task, "heartbeat_at"@)) {
                    Some(heartbeat_at) => {
                        &&& after.tasks.dom().contains(key)
                        &&& is_after(
                            after.tasks[key].expires_at_ms,
                            heartbeat_at,
                            timeout_in(task, default),
                        )
                        &&& after.tasks[key].task_id == match field(task, "task_id"@) {
                            Some(BsonValue::Str(task_id)) => Some(task_id),
                            _ => known_id(before, key),
                        }
                    },
                    None => same_entry(before, after, key),
                }
            } else {
                &&& !after.tasks.dom().contains(key)
                &&& knows_own_timeout(
                    after,
                    key,
                    if has_status(task, "pending"@) {
                        number_in(field(task, "worker_switch_timeout"@))
                    } else {
                        None
                    },
                )
            }
        },
    }
}

/// A document that is seen is taken into the table, and has no bearing on the hint.
pub proof fn document_is_taken_in(task: Document, default: Duration, tracker: &mut ExpiryTracker)
    requires
        old(tracker).wf(),
        call_ensures(schedule_expiration_from_task, (&task, default, tracker), ()),
    ensures
        has_taken_in(old(tracker)@, final(tracker)@, document_fields(task), default),
        final(tracker)@.pending_may_exist == old(tracker)@.pending_may_exist,
{
}

/// The key of the document that an event is about.
pub open spec fn key_in_event(event: ChangeEvent) -> Option<u128> {
    match event.document_key {
        Some(document) => key_in(document_fields(document)),
        None => None,
    }
}

/// Whether an event says that a task waits for a worker: a new document that waits, or an update that
/// makes one wait, whatever is known of its key.
pub open spec fn announces_ready_task(event: ChangeEvent) -> bool {
    match event.kind {
        ChangeKind::Insert | ChangeKind::Replace => event.full_document matches Some(task)
            && has_status(document_fields(task), "pending"@),
        ChangeKind::Update => event.updated_fields matches Some(fields) && has_status(
            document_fields(fields),
            "pending"@,
        ),
        ChangeKind::Delete | ChangeKind::Other => false,
    }
}

/// An event makes a task ready exactly if it says that one waits for a worker. It raises the hint
/// then, and leaves it alone otherwise.
pub proof fn ready_tasks_are_heard_of(
    event: ChangeEvent,
    default: Duration,
    tracker: &mut ExpiryTracker,
    ready: bool,
)
    requires
        old(tracker).wf(),
        call_ensures(apply_change_event_to_expirations, (&event, default, tracker), ready),
    ensures
        ready <==> announces_ready_task(event),
        ready ==> final(tracker)@.pending_may_exist,
        !ready ==> final(tracker)@.pending_may_exist == old(tracker)@.pending_may_exist,
{
}

/// The value that an update gives to a field of the state of a worker: inside a whole new state, or
/// under its dotted name where the update sets no whole state.
pub open spec fn updated_worker_field(
    fields: Fields,
    name: Seq<char>,
    dotted: Seq<char>,
) -> Option<BsonValue> {
    match field(fields, "worker_state"@) {
        Some(BsonValue::Doc(worker_state)) => field(worker_state, name),
        _ => field(fields, dotted),
    }
}

/// Whether the table has taken in an update of one task: a heartbeat moves its deadline on by the
/// timeout set for the task where that is known, or else by the one that the update records, or else
/// by a default; a task that stops running leaves.
pub open spec fn has_taken_in_update(
    before: TrackerState,
    after: TrackerState,
    key: u128,
    fields: Fields,
    default: Duration,
) -> bool {
    let own = match number_in(field(fields, "worker_switch_timeout"@)) {
        Some(millis) => Some(millis),
        None => if before.own_timeouts.dom().contains(key) {
            Some(before.own_timeouts[key])
        } else {
            None
        },
    };
    let heartbeat = instant_in(
        updated_worker_field(fields, "heartbeat_at"@, "worker_state.heartbeat_at"@),
    );
    let recorded = number_in(
        updated_worker_field(fields, "switch_timeout_ms"@, "worker_state.switch_timeout_ms"@),
    );
    &&& same_but_for(before, after, key)
    &&& if has_status(fields, "pending"@) {
        &&& !after.tasks.dom().contains(key)
        &&& knows_own_timeout(after, key, own)
    } else if field(fields, "status"@) matches Some(BsonValue::Str(_)) && !has_status(
        fields,
        "running"@,
    ) {
        &&& !after.tasks.dom().contains(key)
        &&& knows_own_timeout(after, key, None)
    } else {
        match heartbeat {
            Some(heartbeat_at) => {
                &&& after.tasks.dom().contains(key)
                &&& after.tasks[key].task_id == known_id(before, key)
                &&& is_after(
                    after.tasks[key].expires_at_ms,
                    heartbeat_at,
                    if own is Some {
                        millis_or(own, default)
                    } else {
                        millis_or(recorded, default)
                    },
                )
                &&& knows_own_timeout(after, key, own)
            },
            None => same_entry(before, after, key) && same_own_timeout(before, after, key),
        }
    }
}

/// The table follows every event: new documents are taken in, updates move deadlines, deleted tasks
/// leave, and what an event does not name stays.
pub proof fn events_are_taken_in(
    event: ChangeEvent,
    default: Duration,
    tracker: &mut ExpiryTracker,
    ready: bool,
)
    requires
        old(tracker).wf(),
        call_ensures(apply_change_event_to_expirations, (&event, default, tracker), ready),
    ensures
        match event.kind {
            ChangeKind::Insert | ChangeKind::Replace => match event.full_document {
                Some(task) => has_taken_in(
                    old(tracker)@,
                    final(tracker)@,
                    document_fields(task),
                    default,
                ),
                None => same_tasks(old(tracker)@, final(tracker)@),
            },
            ChangeKind::Update => match (key_in_event(event), event.updated_fields) {
                (Some(key), Some(fields)) => has_taken_in_update(
                    old(tracker)@,
                    final(tracker)@,
                    key,
                    document_fields(fields),
                    default,
                ),
                _ => same_tasks(old(tracker)@, final(tracker)@),
            },
            ChangeKind::Delete => match key_in_event(event) {
                Some(key) => same_but_for(old(tracker)@, final(tracker)@, key)
                    && !final(tracker)@.tasks.dom().contains(key) && knows_own_timeout(
                    final(tracker)@,
                    key,
                    None,
                ),
                None => same_tasks(old(tracker)@, final(tracker)@),
            },
            ChangeKind::Other => same_tasks(old(tracker)@, final(tracker)@),
        },
{
    statuses_differ();
}

/// A finished task that is enqueued again is heard of: the event of the update, which tells the new
/// status, makes the task ready.
pub proof fn replayed_task_is_heard_of(
    request: Request,
    task_id: String,
    now: i64,
    task: PreparedTask,
    before: Fields,
    after: Fields,
    event: ChangeEvent,
    fields: Document,
    default: Duration,
    tracker: &mut ExpiryTracker,
    ready: bool,
)
    requires
        call_ensures(prepare_task_at, (request, task_id, now), task),
        has_status(before, "succeeded"@) || has_status(before, "failed"@),
        updates(document_fields(task.update), before, after, false),
        event.kind is Update,
        event.updated_fields == Some(fields),
        field(after, "status"@) != field(before, "status"@) ==> field(
            document_fields(fields),
            "status"@,
        ) == field(after, "status"@),
        old(tracker).wf(),
        call_ensures(apply_change_event_to_expirations, (&event, default, tracker), ready),
    ensures
        ready,
        final(tracker)@.pending_may_exist,
{
    statuses_differ();
    prepared_task_stores_the_request(request, task_id, now, task, before, after, false);
}

/// What is read of a task document: its timeout, its last heartbeat and its key.
pub proof fn task_document_is_read(
    task: Document,
    default: Duration,
    timeout: Duration,
    heartbeat_at: Option<i64>,
    key: Option<ObjectKey>,
)
    requires
        call_ensures(task_switch_timeout, (&task, default), timeout),
        call_ensures(heartbeat_from_task, (&task,), heartbeat_at),
        call_ensures(object_key, (&task,), key),
    ensures
        whole_millis(timeout) == timeout_in(document_fields(task), default),
        heartbeat_at == instant_in(worker_field(document_fields(task), "heartbeat_at"@)),
        match key {
            Some(key) => key_in(document_fields(task)) == Some(key@),
            None => key_in(document_fields(task)) is None,
        },
{
}

/// What is read of the fields of an update: whether the task stops running, the heartbeat, and the
/// timeout that is recorded with it.
pub proof fn update_is_read(
    fields: Document,
    default: Duration,
    stopped: bool,
    update: Option<(i64, Duration)>,
)
    requires
        call_ensures(updated_status_is_not_running, (&fields,), stopped),
        call_ensures(expiration_update_from_fields, (&fields, default), update),
    ensures
        stopped <==> (field(document_fields(fields), "status"@) matches Some(BsonValue::Str(_))
            && !has_status(document_fields(fields), "running"@)),
        ({
            let heartbeat = instant_in(
                updated_worker_field(
                    document_fields(fields),
                    "heartbeat_at"@,
                    "worker_state.heartbeat_at"@,
                ),
            );
            match update {
                Some((heartbeat_at, timeout)) => heartbeat == Some(heartbeat_at) && whole_millis(
                    timeout,
                ) == millis_or(
                    number_in(
                        updated_worker_field(
                            document_fields(fields),
                            "switch_timeout_ms"@,
                            "worker_state.switch_timeout_ms"@,
                        ),
                    ),
                    default,
                ),
                None => heartbeat is None,
            }
        }),
{
}

/// Whether a document belongs in the table: its task runs and has had a heartbeat.
pub open spec fn belongs_in_table(task: Fields) -> bool {
    &&& has_status(task, "running"@)
    &&& key_in(task) is Some
    &&& instant_in(worker_field(task, "heartbeat_at"@)) is Some
}

/// A scan of the running tasks makes the table an exact picture of them: each is there with its own
/// deadline and its own id, and nothing else is. Nothing changes where the scan could not be made, and
/// the hint stays in any case.
pub proof fn scan_makes_the_table(
    tasks: Vec<Document>,
    default: Duration,
    tracker: &mut ExpiryTracker,
    trigger: Trigger,
)
    requires
        old(tracker).wf(),
        call_ensures(refresh_running_expirations, (Some(&tasks), default, tracker, trigger), ()),
        forall|i: int, j: int|
            0 <= i < j < tasks@.len() && key_in(document_fields(#[trigger] tasks@[i])) is Some
                ==> key_in(document_fields(tasks@[i])) != key_in(
                document_fields(#[trigger] tasks@[j]),
            ),
    ensures
        forall|i: int|
            0 <= i < tasks@.len() && belongs_in_table(document_fields(#[trigger] tasks@[i])) ==> {
                let task = document_fields(tasks@[i]);
                let key = key_in(task)->0;
                &&& final(tracker)@.tasks.dom().contains(key)
                &&& is_after(
                    final(tracker)@.tasks[key].expires_at_ms,
                    instant_in(worker_field(task, "heartbeat_at"@))->0,
                    timeout_in(task, default),
                )
                &&& final(tracker)@.tasks[key].task_id == match field(task, "task_id"@) {
                    Some(BsonValue::Str(task_id)) => Some(task_id),
                    _ => None,
                }
            },
        forall|key: u128| #[trigger]
            final(tracker)@.tasks.dom().contains(key) ==> exists|i: int|
                0 <= i < tasks@.len() && belongs_in_table(document_fields(#[trigger] tasks@[i]))
                    && key_in(document_fields(tasks@[i])) == Some(key),
        final(tracker)@.pending_may_exist == old(tracker)@.pending_may_exist,
{
    let state = old(tracker)@;
    assert forall|i: int, j: int|
        0 <= i < j < tasks@.len() && key_of(document_fields(#[trigger] tasks@[i])) is Some implies key_of(
        document_fields(tasks@[i]),
    ) != key_of(document_fields(#[trigger] tasks@[j])) by {
        assert(key_in(document_fields(tasks@[i])) is Some);
    }
    scan_pictures_running_tasks(state, tasks@, default, trigger);
    scan_keeps_the_hint(none_tracked(state, trigger), tasks@, default);
    let table = all_scheduled(none_tracked(state, trigger), tasks@, default).tasks;
    assert forall|key: u128| #[trigger] table.dom().contains(key) implies exists|i: int|
        0 <= i < tasks@.len() && belongs_in_table(document_fields(#[trigger] tasks@[i])) && key_in(
            document_fields(tasks@[i]),
        ) == Some(key) by {
        let i = choose|i: int|
            0 <= i < tasks@.len() && calls_for_entry(
                document_fields(#[trigger] tasks@[i]),
            ) && key_of(document_fields(tasks@[i])) == Some(key);
        assert(belongs_in_table(document_fields(tasks@[i])));
    }
    assert forall|i: int|
        0 <= i < tasks@.len() && belongs_in_table(document_fields(#[trigger] tasks@[i])) implies {
        let task = document_fields(tasks@[i]);
        let key = key_in(task)->0;
        &&& table.dom().contains(key)
        &&& table[key] == entry_for(task, default)
    } by {}
}

proof fn scan_keeps_the_hint(state: TrackerState, tasks: Seq<Document>, default: Duration)
    ensures
        all_scheduled(state, tasks, default).pending_may_exist == state.pending_may_exist,
    decreases tasks.len(),
{
    if tasks.len() > 0 {
        scan_keeps_the_hint(state, tasks.drop_last(), default);
    }
}

/// The timeout that was set for a task is known once a scan has read the document of the task, running
/// or waiting.
pub proof fn scan_learns_own_timeouts(
    tasks: Vec<Document>,
    default: Duration,
    tracker: &mut ExpiryTracker,
    trigger: Trigger,
    i: int,
)
    requires
        old(tracker).wf(),
        call_ensures(refresh_running_expirations, (Some(&tasks), default, tracker, trigger), ()),
        forall|i: int, j: int|
            0 <= i < j < tasks@.len() && key_in(document_fields(#[trigger] tasks@[i])) is Some
                ==> key_in(document_fields(tasks@[i])) != key_in(
                document_fields(#[trigger] tasks@[j]),
            ),
        0 <= i < tasks@.len(),
    ensures
        ({
            let task = document_fields(tasks@[i]);
            key_in(task) matches Some(key) ==> knows_own_timeout(
                final(tracker)@,
                key,
                if has_status(task, "running"@) || has_status(task, "pending"@) {
                    number_in(field(task, "worker_switch_timeout"@))
                } else {
                    None
                },
            )
        }),
{
    scan_notes_own_timeout(none_tracked(old(tracker)@, trigger), tasks@, default, i);
}

proof fn scan_notes_own_timeout(
    state: TrackerState,
    tasks: Seq<Document>,
    default: Duration,
    i: int,
)
    requires
        forall|i: int, j: int|
            0 <= i < j < tasks.len() && key_in(document_fields(#[trigger] tasks[i])) is Some
                ==> key_in(document_fields(tasks[i])) != key_in(
                document_fields(#[trigger] tasks[j]),
            ),
        0 <= i < tasks.len(),
    ensures
        ({
            let task = document_fields(tasks[i]);
            key_in(task) matches Some(key) ==> knows_own_timeout(
                all_scheduled(state, tasks, default),
                key,
                if has_status(task, "running"@) || has_status(task, "pending"@) {
                    number_in(field(task, "worker_switch_timeout"@))
                } else {
                    None
                },
            )
        }),
    decreases tasks.len(),
{
    if i < tasks.len() - 1 {
        let earlier = tasks.drop_last();
        assert forall|i: int, j: int|
            0 <= i < j < earlier.len() && key_in(
                document_fields(#[trigger] earlier[i]),
            ) is Some implies key_in(document_fields(earlier[i])) != key_in(
            document_fields(#[trigger] earlier[j]),
        ) by {
            assert(earlier[i] == tasks[i] && earlier[j] == tasks[j]);
        }
        assert(earlier[i] == tasks[i]);
        scan_notes_own_timeout(state, earlier, default, i);
        assert(tasks.last() == tasks[tasks.len() - 1]);
    } else {
        assert(tasks.last() == tasks[i]);
    }
}

/// What is known of the timeouts that were set for tasks outlives a periodic scan, as far as the scan
/// does not tell otherwise; after any other, changes may have been missed, and only what was read is
/// known.
pub proof fn scan_keeps_own_timeouts_while_nothing_was_missed(
    tasks: Vec<Document>,
    default: Duration,
    tracker: &mut ExpiryTracker,
    trigger: Trigger,
    key: u128,
)
    requires
        old(tracker).wf(),
        call_ensures(refresh_running_expirations, (Some(&tasks), default, tracker, trigger), ()),
        forall|i: int|
            0 <= i < tasks@.len() ==> key_in(document_fields(#[trigger] tasks@[i])) != Some(key),
    ensures
        trigger is Periodic ==> same_own_timeout(old(tracker)@, final(tracker)@, key),
        !(trigger is Periodic) ==> !final(tracker)@.own_timeouts.dom().contains(key),
{
    let state = none_tracked(old(tracker)@, trigger);
    scan_spares_other_keys(state, tasks@, default, key);
}

proof fn scan_spares_other_keys(
    state: TrackerState,
    tasks: Seq<Document>,
    default: Duration,
    key: u128,
)
    requires
        forall|i: int|
            0 <= i < tasks.len() ==> key_in(document_fields(#[trigger] tasks[i])) != Some(key),
    ensures
        same_own_timeout(state, all_scheduled(state, tasks, default), key),
    decreases tasks.len(),
{
    if tasks.len() > 0 {
        let earlier = tasks.drop_last();
        assert forall|i: int| 0 <= i < earlier.len() implies key_in(
            document_fields(#[trigger] earlier[i]),
        ) != Some(key) by {
            assert(earlier[i] == tasks[i]);
        }
        scan_spares_other_keys(state, earlier, default, key);
        assert(key_in(document_fields(tasks[tasks.len() - 1])) != Some(key));
    }
}

/// A scan that could not be made changes nothing.
pub proof fn failed_scan_changes_nothing(
    default: Duration,
    tracker: &mut ExpiryTracker,
    trigger: Trigger,
)
    requires
        old(tracker).wf(),
        call_ensures(
            refresh_running_expirations,
            (None::<&Vec<Document>>, default, tracker, trigger),
            (),
        ),
    ensures
        final(tracker)@ == old(tracker)@,
{
}

/// A look for ready tasks sets the hint to what it found, and changes nothing else; one that failed
/// changes nothing.
pub proof fn look_sets_the_hint(found: Option<bool>, tracker: &mut ExpiryTracker)
    requires
        old(tracker).wf(),
        call_ensures(refresh_pending_tasks, (found, tracker), ()),
    ensures
        found matches Some(found) ==> final(tracker)@.pending_may_exist == found,
        found is None ==> final(tracker)@.pending_may_exist == old(tracker)@.pending_may_exist,
        same_tasks(old(tracker)@, final(tracker)@),
{
}

/// A table begins empty, with no hint.
pub proof fn table_begins_empty(tracker: ExpiryTracker)
    requires
        call_ensures(ExpiryTracker::new, (), tracker),
    ensures
        tracker.wf(),
        forall|key: u128| !(#[trigger] tracker@.tasks.dom().contains(key)),
        forall|key: u128| !(#[trigger] tracker@.own_timeouts.dom().contains(key)),
        !tracker@.pending_may_exist,
{
}

/// A table that is cleared holds no task, and knows all else that it knew.
pub proof fn cleared_table_holds_no_task(tracker: &mut ExpiryTracker)
    requires
        call_ensures(ExpiryTracker::clear, (tracker,), ()),
    ensures
        forall|key: u128| !(#[trigger] final(tracker)@.tasks.dom().contains(key)),
        forall|key: u128| #[trigger] same_own_timeout(old(tracker)@, final(tracker)@, key),
        final(tracker)@.pending_may_exist == old(tracker)@.pending_may_exist,
{
}

/// The timeouts set for tasks are forgotten all at once, and nothing else.
pub proof fn own_timeouts_are_forgotten_together(tracker: &mut ExpiryTracker)
    requires
        old(tracker).wf(),
        call_ensures(ExpiryTracker::forget_own_timeouts, (tracker,), ()),
    ensures
        forall|key: u128| !(#[trigger] final(tracker)@.own_timeouts.dom().contains(key)),
        forall|key: u128| #[trigger] same_entry(old(tracker)@, final(tracker)@, key),
        final(tracker)@.pending_may_exist == old(tracker)@.pending_may_exist,
{
}

/// The hint is what it was last set to.
pub proof fn hint_is_read_back(tracker: &mut ExpiryTracker, pending: bool, read: bool)
    requires
        old(tracker).wf(),
        call_ensures(ExpiryTracker::set_pending_may_exist, (tracker, pending), ()),
        call_ensures(ExpiryTracker::has_pending, (&*final(tracker),), read),
    ensures
        read == pending,
        same_tasks(old(tracker)@, final(tracker)@),
{
}

/// What the table says of a task can be read: its id, its deadline, and the timeout set for it.
pub proof fn table_is_read(
    tracker: ExpiryTracker,
    id: ObjectKey,
    task: Option<&ExpiringTask>,
    own_timeout: Option<i64>,
)
    requires
        call_ensures(ExpiryTracker::get, (&tracker, &id), task),
        call_ensures(ExpiryTracker::own_timeout, (&tracker, &id), own_timeout),
    ensures
        task is Some <==> tracker@.tasks.dom().contains(id@),
        task matches Some(task) ==> task@ == tracker@.tasks[id@],
        knows_own_timeout(tracker@, id@, own_timeout),
{
}

/// The deadline of an entry can be read.
pub proof fn deadline_is_read(task: ExpiringTask, deadline: Option<i64>)
    requires
        call_ensures(ExpiringTask::expires_at_ms, (&task,), deadline),
    ensures
        deadline == Some(task@.expires_at_ms),
{
}

/// The timeout that was set for a task is noted, and nothing else changes.
pub proof fn own_timeout_is_noted(tracker: &mut ExpiryTracker, id: ObjectKey, own: Option<i64>)
    requires
        old(tracker).wf(),
        call_ensures(ExpiryTracker::note_own_timeout, (tracker, &id, own), ()),
    ensures
        knows_own_timeout(final(tracker)@, id@, own),
        same_but_for(old(tracker)@, final(tracker)@, id@),
        same_entry(old(tracker)@, final(tracker)@, id@),
        final(tracker)@.pending_may_exist == old(tracker)@.pending_may_exist,
{
}

/// A task that is taken out of the table is gone from it, and only that one; its own timeout is known
/// on unless it is forgotten as a whole.
pub proof fn task_is_taken_out(
    removing: &mut ExpiryTracker,
    forgetting: &mut ExpiryTracker,
    id: ObjectKey,
)
    requires
        old(removing).wf(),
        old(forgetting).wf(),
        call_ensures(ExpiryTracker::remove, (removing, &id), ()),
        call_ensures(ExpiryTracker::forget, (forgetting, &id), ()),
    ensures
        !final(removing)@.tasks.dom().contains(id@),
        same_but_for(old(removing)@, final(removing)@, id@),
        same_own_timeout(old(removing)@, final(removing)@, id@),
        final(removing)@.pending_may_exist == old(removing)@.pending_may_exist,
        !final(forgetting)@.tasks.dom().contains(id@),
        same_but_for(old(forgetting)@, final(forgetting)@, id@),
        knows_own_timeout(final(forgetting)@, id@, None),
        final(forgetting)@.pending_may_exist == old(forgetting)@.pending_may_exist,
{
}

/// A heartbeat moves the deadline of a task to its timeout after the heartbeat. Where it comes without
/// a task id, the one known so far stays.
pub proof fn heartbeat_moves_the_deadline(
    tracker: &mut ExpiryTracker,
    id: ObjectKey,
    task_id: Option<String>,
    heartbeat_at: i64,
    timeout: Duration,
)
    requires
        old(tracker).wf(),
        call_ensures(ExpiryTracker::upsert, (tracker, id, task_id, heartbeat_at, timeout), ()),
    ensures
        final(tracker)@.tasks.dom().contains(id@),
        is_after(final(tracker)@.tasks[id@].expires_at_ms, heartbeat_at, whole_millis(timeout)),
        final(tracker)@.tasks[id@].task_id == match task_id {
            Some(task_id) => Some(task_id@),
            None => known_id(old(tracker)@, id@),
        },
        same_but_for(old(tracker)@, final(tracker)@, id@),
        same_own_timeout(old(tracker)@, final(tracker)@, id@),
        final(tracker)@.pending_may_exist == old(tracker)@.pending_may_exist,
{
}

/// A task that is put back expires a delay later, under the id that it had.
pub proof fn task_is_put_back(
    tracker: &mut ExpiryTracker,
    id: ObjectKey,
    task: ExpiringTask,
    delay: Duration,
    now_ms: i64,
)
    requires
        old(tracker).wf(),
        call_ensures(ExpiryTracker::defer_at, (tracker, id, task, delay, now_ms), ()),
    ensures
        final(tracker)@.tasks.dom().contains(id@),
        is_after(final(tracker)@.tasks[id@].expires_at_ms, now_ms, whole_millis(delay)),
        final(tracker)@.tasks[id@].task_id == task@.task_id,
        same_but_for(old(tracker)@, final(tracker)@, id@),
        same_own_timeout(old(tracker)@, final(tracker)@, id@),
        final(tracker)@.pending_may_exist == old(tracker)@.pending_may_exist,
{
}

/// A task that is put back now expires a delay from now.
pub proof fn task_is_put_back_now(
    tracker: &mut ExpiryTracker,
    id: ObjectKey,
    task: ExpiringTask,
    delay: Duration,
)
    requires
        old(tracker).wf(),
        call_ensures(ExpiryTracker::defer, (tracker, id, task, delay), ()),
    ensures
        final(tracker)@.tasks.dom().contains(id@),
        exists|now_ms: i64| #[trigger]
            is_after(final(tracker)@.tasks[id@].expires_at_ms, now_ms, whole_millis(delay)),
        final(tracker)@.tasks[id@].task_id == task@.task_id,
        same_but_for(old(tracker)@, final(tracker)@, id@),
        same_own_timeout(old(tracker)@, final(tracker)@, id@),
        final(tracker)@.pending_may_exist == old(tracker)@.pending_may_exist,
{
    let now_ms = choose|now_ms: i64|
        final(tracker)@ == (TrackerState {
            tasks: old(tracker)@.tasks.insert(
                id@,
                TrackedTask { expires_at_ms: #[trigger] deadline_of(now_ms, delay), ..task@ },
            ),
            ..old(tracker)@
        });
    assert(is_after(final(tracker)@.tasks[id@].expires_at_ms, now_ms, whole_millis(delay)));
}

/// The table wakes the worker when its first deadline comes, at once where one has passed; where it
/// holds no task it never does.
pub proof fn worker_is_woken_at_the_first_deadline(
    tracker: ExpiryTracker,
    now_ms: i64,
    delay: Option<Duration>,
)
    requires
        tracker.wf(),
        call_ensures(ExpiryTracker::next_delay_at, (&tracker, now_ms), delay),
    ensures
        (exists|key: u128| #[trigger] tracker@.tasks.dom().contains(key)) ==> delay is Some,
        delay matches Some(delay) ==> wakes_at_the_first(tracker@, now_ms, delay),
{
}

/// The worker is woken likewise at a delay from now.
pub proof fn worker_is_woken_from_now_on(tracker: ExpiryTracker, delay: Option<Duration>)
    requires
        tracker.wf(),
        call_ensures(ExpiryTracker::next_delay, (&tracker,), delay),
    ensures
        (exists|key: u128| #[trigger] tracker@.tasks.dom().contains(key)) ==> delay is Some,
        delay matches Some(delay) ==> exists|now_ms: i64| #[trigger]
            wakes_at_the_first(tracker@, now_ms, delay),
{
    if let Some(delay) = delay {
        let (deadline, now_ms) = choose|deadline: i64, now_ms: i64|
            #![trigger tracker@.first_deadline(deadline), delay_until(deadline, now_ms)]
            tracker@.first_deadline(deadline) && duration_nanos(delay) == delay_until(
                deadline,
                now_ms,
            );
        let first = choose|key: u128| #[trigger]
            tracker@.tasks.dom().contains(key) && tracker@.tasks[key].expires_at_ms == deadline;
        assert(tracker@.tasks.dom().contains(first));
        assert(wakes_at_the_first(tracker@, now_ms, delay));
    }
}

/// Whether a delay leads from `now_ms` to the first deadline, or is none where that has passed.
pub open spec fn wakes_at_the_first(state: TrackerState, now_ms: i64, delay: Duration) -> bool {
    exists|first: u128| #[trigger]
        state.tasks.dom().contains(first) && (forall|key: u128| #[trigger]
            state.tasks.dom().contains(key) ==> state.tasks[first].expires_at_ms
                <= state.tasks[key].expires_at_ms) && duration_nanos(delay) == if state.tasks[first].expires_at_ms
            <= now_ms {
            0
        } else {
            (state.tasks[first].expires_at_ms - now_ms) * 1_000_000
        }
}

/// The tasks that leave the table as due are those whose deadline has come, each once, the longest
/// overdue first; the others stay.
pub proof fn due_tasks_leave(
    tracker: &mut ExpiryTracker,
    now_ms: i64,
    due: Vec<(ObjectKey, ExpiringTask)>,
)
    requires
        old(tracker).wf(),
        call_ensures(ExpiryTracker::pop_due_at, (tracker, now_ms), due),
    ensures
        hands_over_due(old(tracker)@, final(tracker)@, due@, now_ms),
{
    due_means(old(tracker)@, final(tracker)@, due@, now_ms);
}

/// Whether the due tasks of a table have been handed over: they are gone from it and listed, each once,
/// by their deadlines, and all else is as it was.
pub open spec fn hands_over_due(
    before: TrackerState,
    after: TrackerState,
    due: Seq<(ObjectKey, ExpiringTask)>,
    now_ms: i64,
) -> bool {
    &&& forall|key: u128| #[trigger]
        after.tasks.dom().contains(key) <==> before.tasks.dom().contains(key)
            && before.tasks[key].expires_at_ms > now_ms
    &&& forall|key: u128| #[trigger]
        after.tasks.dom().contains(key) ==> after.tasks[key] == before.tasks[key]
    &&& forall|i: int|
        0 <= i < due.len() ==> before.tasks.dom().contains((#[trigger] due[i]).0@)
            && before.tasks[due[i].0@] == due[i].1@ && due[i].1@.expires_at_ms <= now_ms
    &&& forall|i: int, j: int|
        0 <= i < j < due.len() ==> (#[trigger] due[i]).0@ != (#[trigger] due[j]).0@
            && due[i].1@.expires_at_ms <= due[j].1@.expires_at_ms
    &&& forall|key: u128| #[trigger]
        before.tasks.dom().contains(key) && before.tasks[key].expires_at_ms <= now_ms
            ==> exists|i: int| 0 <= i < due.len() && (#[trigger] due[i]).0@ == key
    &&& forall|key: u128| #[trigger] same_own_timeout(before, after, key)
    &&& after.pending_may_exist == before.pending_may_exist
}

proof fn due_means(
    before: TrackerState,
    after: TrackerState,
    due: Seq<(ObjectKey, ExpiringTask)>,
    now_ms: i64,
)
    requires
        after == before.without_due(now_ms),
        before.lists_due(now_ms, due_view(due)),
    ensures
        hands_over_due(before, after, due, now_ms),
{
    let entries = due_view(due);
    assert(entries.len() == due.len());
    assert forall|i: int| 0 <= i < due.len() implies before.tasks.dom().contains(
        (#[trigger] due[i]).0@,
    ) && before.tasks[due[i].0@] == due[i].1@ && due[i].1@.expires_at_ms <= now_ms by {
        assert(entries[i] == (due[i].0@, due[i].1@));
    }
    assert forall|i: int, j: int| 0 <= i < j < due.len() implies (#[trigger] due[i]).0@ != (
    #[trigger] due[j]).0@ && due[i].1@.expires_at_ms <= due[j].1@.expires_at_ms by {
        assert(entries[i] == (due[i].0@, due[i].1@));
        assert(entries[j] == (due[j].0@, due[j].1@));
    }
    assert forall|key: u128| #[trigger]
        before.tasks.dom().contains(key) && before.tasks[key].expires_at_ms
            <= now_ms implies exists|i: int| 0 <= i < due.len() && (#[trigger] due[i]).0@ == key by {
        let i = choose|i: int| 0 <= i < entries.len() && (#[trigger] entries[i]).0 == key;
        assert(due[i].0@ == key);
    }
}

/// The tasks that are due now leave likewise.
pub proof fn due_tasks_leave_now(
    tracker: &mut ExpiryTracker,
    due: Vec<(ObjectKey, ExpiringTask)>,
)
    requires
        old(tracker).wf(),
        call_ensures(ExpiryTracker::pop_due, (tracker,), due),
    ensures
        exists|now_ms: i64| #[trigger]
            hands_over_due(old(tracker)@, final(tracker)@, due@, now_ms),
{
    let now_ms = choose|now_ms: i64|
        final(tracker)@ == #[trigger] old(tracker)@.without_due(now_ms) && old(
            tracker,
        )@.lists_due(now_ms, due_view(due@));
    due_means(old(tracker)@, final(tracker)@, due@, now_ms);
}

} // verus!
