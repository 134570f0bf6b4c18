//! How the table of deadlines keeps up with the documents of a collection: what it holds of a task
//! is what the task's document says, from the moment at which the document was seen and through
//! every change event that follows.
use std::time::Duration;

use vstd::prelude::*;

use crate::claim::{
    claim_changes, claimed_state, expired_filter, failure_changes, heartbeat_changes, set_update,
    shutdown_changes, success_changes,
};
use crate::document::{doc_field, field, object_id_field, str_field, BsonValue, Fields};
use crate::expiry::TrackerState;
use crate::laws::{
    claim_leaves_alone, expired_claim_reaches, has_id_among, has_proper_timeouts,
    heartbeat_leaves_alone, set_update_means, stale_filter_agrees_with_deadlines,
};
use crate::names::{
    paths_lead, statuses_differ, task_names_differ, worker_field, worker_names_differ,
};
use crate::object_key::{object_bytes, object_bytes_read_back};
use crate::query::{lookup, selects, updates};
use crate::schedule::{
    deadline_of_task, heartbeat_of, is_pending, is_running, key_of, leaves_running, own_timeout_of,
    scheduled, stored_switch_timeout, timeout_millis, updated_heartbeat, updated_timeout, Change,
    ChangeKind,
};
use crate::time::{duration_millis, stored_millis};

verus! {

/// Whether the table knows of no other task id for a task than the one in its document.
pub open spec fn names_rightly(state: TrackerState, key: u128, task: Fields) -> bool {
    state.tasks.dom().contains(key) ==> (state.tasks[key].task_id matches Some(task_id)
        ==> str_field(task, "task_id"@) == Some(task_id))
}

/// Whether the table says of a task what its document says: a running task with a heartbeat is there
/// under its deadline, one that does not run is not there, and the switch timeout that was set for a
/// task that runs or waits is known.
pub open spec fn pictures(
    state: TrackerState,
    key: u128,
    task: Fields,
    fallback: Duration,
) -> bool {
    &&& names_rightly(state, key, task)
    &&& is_running(task) && heartbeat_of(task) is Some ==> state.tasks.dom().contains(key)
        && deadline_of_task(task, fallback) == Some(state.tasks[key].expires_at_ms)
    &&& !is_running(task) ==> !state.tasks.dom().contains(key)
    &&& is_running(task) || is_pending(task) ==> state.own_timeout(key) == own_timeout_of(task)
}

/// Whether these are the fields that a change event gives for an update that sets `changes`: what
/// has changed is there with its new value, what was so before may be missing, and nothing else is
/// there.
pub open spec fn tells_of(updated_fields: Fields, changes: Fields, before: Fields) -> bool {
    &&& forall|path: Seq<char>| #[trigger]
        updated_fields.dom().contains(path) ==> changes.dom().contains(path)
            && updated_fields[path] == changes[path]
    &&& forall|path: Seq<char>| #[trigger]
        changes.dom().contains(path) ==> updated_fields.dom().contains(path) || lookup(
            before,
            path,
        ) == Some(changes[path])
}

/// The event of an update of one task.
pub open spec fn update_event(key: u128, updated_fields: Fields) -> Change {
    Change {
        kind: ChangeKind::Update,
        full_document: None,
        key: Some(key),
        updated_fields: Some(updated_fields),
    }
}

/// Seeing a task's document, in a scan, in an event or after a claim, makes the table say
/// of the task what the document says.
pub proof fn document_makes_the_picture(
    state: TrackerState,
    key: u128,
    task: Fields,
    fallback: Duration,
)
    requires
        key_of(task) == Some(key),
        names_rightly(state, key, task),
    ensures
        pictures(scheduled(state, task, fallback), key, task, fallback),
{
    statuses_differ();
}

/// What the event of a claim says, and what the task's document says after the claim.
proof fn claim_event_means(
    before: Fields,
    after: Fields,
    updated_fields: Fields,
    worker_id: Seq<char>,
    claim_token: Seq<char>,
    claim_started_at: i64,
    switch_timeout_ms: i64,
)
    requires
        worker_field(before, "claim_token"@) != Some(BsonValue::Str(claim_token)),
        updates(
            set_update(claim_changes(worker_id, claim_token, claim_started_at, switch_timeout_ms)),
            before,
            after,
            false,
        ),
        tells_of(
            updated_fields,
            claim_changes(worker_id, claim_token, claim_started_at, switch_timeout_ms),
            before,
        ),
    ensures
        is_running(after),
        heartbeat_of(after) == Some(claim_started_at),
        own_timeout_of(after) == own_timeout_of(before),
        stored_switch_timeout(after) == match own_timeout_of(before) {
            Some(millis) => Some(millis),
            None => Some(switch_timeout_ms),
        },
        str_field(after, "task_id"@) == str_field(before, "task_id"@),
        !is_pending(updated_fields),
        !leaves_running(updated_fields),
        updated_heartbeat(updated_fields) == Some(claim_started_at),
        updated_timeout(updated_fields) == Some(switch_timeout_ms),
        own_timeout_of(updated_fields) is None,
{
    let changes = claim_changes(worker_id, claim_token, claim_started_at, switch_timeout_ms);
    let claimed = claimed_state(worker_id, claim_token, claim_started_at, switch_timeout_ms);
    task_names_differ();
    worker_names_differ();
    statuses_differ();
    dotted_names_differ();
    paths_lead(before);
    paths_lead(after);
    set_update_means(changes, before, after, false);
    claim_leaves_alone(worker_id, claim_token, claim_started_at, switch_timeout_ms);
    assert(changes.dom().contains("status"@));
    assert(changes.dom().contains("worker_state"@));
    assert(doc_field(after, "worker_state"@) == Some(claimed));
    assert(updated_fields.dom().contains("worker_state"@)) by {
        if !updated_fields.dom().contains("worker_state"@) {
            assert(doc_field(before, "worker_state"@) == Some(claimed));
        }
    }
    assert(doc_field(updated_fields, "worker_state"@) == Some(claimed));
    assert(!updated_fields.dom().contains("worker_switch_timeout"@));
}

/// The event of a claim keeps the table right: the task expires at the deadline that its document
/// gives it, by its own switch timeout where it has one, whatever timeout the claimant has.
pub proof fn claim_event_keeps_the_picture(
    state: TrackerState,
    key: u128,
    before: Fields,
    after: Fields,
    updated_fields: Fields,
    worker_id: Seq<char>,
    claim_token: Seq<char>,
    claim_started_at: i64,
    switch_timeout_ms: i64,
    fallback: Duration,
)
    requires
        pictures(state, key, before, fallback),
        is_running(before) || is_pending(before),
        worker_field(before, "claim_token"@) != Some(BsonValue::Str(claim_token)),
        updates(
            set_update(claim_changes(worker_id, claim_token, claim_started_at, switch_timeout_ms)),
            before,
            after,
            false,
        ),
        tells_of(
            updated_fields,
            claim_changes(worker_id, claim_token, claim_started_at, switch_timeout_ms),
            before,
        ),
    ensures
        pictures(update_event(key, updated_fields).applied(state, fallback), key, after, fallback),
{
    claim_event_means(
        before,
        after,
        updated_fields,
        worker_id,
        claim_token,
        claim_started_at,
        switch_timeout_ms,
    );
}

/// The event of a heartbeat keeps the table right: the deadline moves on by the timeout that was set
/// for the task, though the event does not carry it. (Where none was set for the task, the timeout
/// that its last claim recorded must be the listener's own: the event carries neither.)
pub proof fn heartbeat_event_keeps_the_picture(
    state: TrackerState,
    key: u128,
    before: Fields,
    after: Fields,
    updated_fields: Fields,
    now: i64,
    fallback: Duration,
)
    requires
        pictures(state, key, before, fallback),
        is_running(before),
        own_timeout_of(before) is Some || timeout_millis(stored_switch_timeout(before), fallback)
            == duration_millis(fallback),
        updates(set_update(heartbeat_changes(now)), before, after, false),
        tells_of(updated_fields, heartbeat_changes(now), before),
    ensures
        pictures(update_event(key, updated_fields).applied(state, fallback), key, after, fallback),
{
    let changes = heartbeat_changes(now);
    task_names_differ();
    statuses_differ();
    dotted_names_differ();
    paths_lead(before);
    paths_lead(after);
    set_update_means(changes, before, after, false);
    heartbeat_leaves_alone(now);
    assert(changes.dom().contains("worker_state.heartbeat_at"@));
    assert(heartbeat_of(after) == Some(now));
    assert(worker_field(after, "switch_timeout_ms"@) == worker_field(before, "switch_timeout_ms"@));
    assert(own_timeout_of(after) == own_timeout_of(before));
    assert(stored_switch_timeout(after) == stored_switch_timeout(before));
    assert(!updated_fields.dom().contains("worker_state"@));
    assert(!updated_fields.dom().contains("status"@));
    assert(!updated_fields.dom().contains("worker_switch_timeout"@));
    assert(!updated_fields.dom().contains("worker_state.switch_timeout_ms"@));
}

/// Whether an update ends a task: it succeeded, it failed, or its worker was shut down.
pub open spec fn is_ending(changes: Fields) -> bool {
    ||| exists|output: BsonValue, updated_at: i64, finished_at: i64|
        changes == #[trigger] success_changes(output, updated_at, finished_at)
    ||| exists|reason: Seq<char>, updated_at: i64, finished_at: i64|
        changes == #[trigger] failure_changes(reason, updated_at, finished_at)
    ||| exists|updated_at: i64, finished_at: i64|
        changes == #[trigger] shutdown_changes(updated_at, finished_at)
}

/// The event by which a running task ends takes it out of the table.
pub proof fn ending_event_keeps_the_picture(
    state: TrackerState,
    key: u128,
    before: Fields,
    after: Fields,
    updated_fields: Fields,
    changes: Fields,
    fallback: Duration,
)
    requires
        is_running(before),
        is_ending(changes),
        updates(set_update(changes), before, after, false),
        tells_of(updated_fields, changes, before),
    ensures
        pictures(update_event(key, updated_fields).applied(state, fallback), key, after, fallback),
        update_event(key, updated_fields).applied(state, fallback).own_timeout(key) is None,
{
    task_names_differ();
    statuses_differ();
    paths_lead(before);
    paths_lead(after);
    set_update_means(changes, before, after, false);
    assert(changes.dom().contains("status"@));
    assert(changes["status"@] == BsonValue::Str("succeeded"@) || changes["status"@]
        == BsonValue::Str("failed"@));
}

/// The dotted names in the events of heartbeats differ from the names in task documents.
proof fn dotted_names_differ()
    ensures
        "worker_state.switch_timeout_ms"@ != "worker_state.heartbeat_at"@,
        "worker_state.switch_timeout_ms"@ != "worker_state"@,
        "worker_state.switch_timeout_ms"@ != "status"@,
        "worker_state.switch_timeout_ms"@ != "updated_at"@,
{
    reveal_strlit("worker_state.switch_timeout_ms");
    reveal_strlit("worker_state.heartbeat_at");
    reveal_strlit("worker_state");
    reveal_strlit("status");
    reveal_strlit("updated_at");
    assert("worker_state.switch_timeout_ms"@.len() == 30);
    assert("worker_state.heartbeat_at"@.len() == 25);
    assert("worker_state"@.len() == 12);
    assert("status"@.len() == 6);
    assert("updated_at"@.len() == 10);
}

/// The table and the claims agree, whether an entry was made from a document or from an event: the
/// claim that a worker makes for the entry, with what the entry holds, selects the task's document
/// exactly from the entry's deadline on, unless the worker has the task in flight. So an abandoned
/// task is claimed once its deadline has come, and not before. (Deadlines must be instants that 64
/// bits can hold.)
pub proof fn entry_is_claimable_from_its_deadline_on(
    state: TrackerState,
    key: u128,
    task: Fields,
    now: i64,
    worker_switch_timeout: Duration,
    in_flight: Seq<Seq<char>>,
)
    requires
        pictures(state, key, task, worker_switch_timeout),
        key_of(task) == Some(key),
        object_id_field(task, "_id"@) matches Some(bytes) && bytes.len() == 12,
        is_running(task),
        heartbeat_of(task) is Some,
        !has_id_among(task, in_flight),
        has_proper_timeouts(task),
        duration_millis(worker_switch_timeout) <= i64::MAX,
        heartbeat_of(task)->0 + timeout_millis(stored_switch_timeout(task), worker_switch_timeout)
            <= i64::MAX,
    ensures
        selects(
            expired_filter(
                object_bytes(key),
                state.tasks[key].task_id,
                now,
                stored_millis(worker_switch_timeout),
                in_flight,
            ),
            task,
        ) <==> state.tasks[key].expires_at_ms <= now,
{
    let bytes = object_id_field(task, "_id"@)->0;
    object_bytes_read_back(bytes);
    assert(field(task, "_id"@) == Some(BsonValue::ObjectId(bytes)));
    stale_filter_agrees_with_deadlines(task, now, worker_switch_timeout, in_flight);
    expired_claim_reaches(
        task,
        bytes,
        state.tasks[key].task_id,
        now,
        stored_millis(worker_switch_timeout),
        in_flight,
    );
}

} // verus!
