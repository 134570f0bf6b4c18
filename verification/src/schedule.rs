//! What task documents and change events say about the expiry of running tasks.
use std::time::Duration;

use bson::Document;
use vstd::prelude::*;

use crate::document::{
    date_field, doc_field, document_fields, document_get_date, document_get_document,
    document_get_i64, document_get_object_id, document_get_str, i64_field, object_id_field,
    same_text, str_field, Fields,
};
use crate::expiry::{deadline_in, ExpiryTracker, TrackedTask, TrackerState};
use crate::object_key::{object_number, ObjectKey};
use crate::time::{duration_from_stored_millis, duration_millis, duration_nanos};
use crate::worker::Trigger;

verus! {

/// The switch timeout that a task document carries, in milliseconds: the one set for the task, or
/// else the one that its last claim recorded.
pub open spec fn stored_switch_timeout(task: Fields) -> Option<i64> {
    match own_timeout_of(task) {
        Some(millis) => Some(millis),
        None => match doc_field(task, "worker_state"@) {
            Some(worker_state) => i64_field(worker_state, "switch_timeout_ms"@),
            None => None,
        },
    }
}

/// The switch timeout that was set for a task.
pub open spec fn own_timeout_of(task: Fields) -> Option<i64> {
    i64_field(task, "worker_switch_timeout"@)
}

/// The switch timeout that a task document carries, in milliseconds.
fn switch_timeout_from_task(task: &Document) -> (stored: Option<i64>)
    ensures
        stored == stored_switch_timeout(document_fields(*task)),
{
    match document_get_i64(task, "worker_switch_timeout") {
        Some(millis) => Some(millis),
        None => match document_get_document(task, "worker_state") {
            Some(worker_state) => document_get_i64(worker_state, "switch_timeout_ms"),
            None => None,
        },
    }
}

/// The whole milliseconds of a timeout that a document may carry: `fallback` where it carries none
/// or a negative one.
pub open spec fn timeout_millis(stored: Option<i64>, fallback: Duration) -> nat {
    match stored {
        Some(millis) => if millis >= 0 {
            millis as nat
        } else {
            duration_millis(fallback)
        },
        None => duration_millis(fallback),
    }
}

/// Whether `timeout` is the timeout that a document may carry.
pub open spec fn is_timeout(stored: Option<i64>, fallback: Duration, timeout: Duration) -> bool {
    match stored {
        Some(millis) => if millis >= 0 {
            duration_nanos(timeout) == millis * 1_000_000
        } else {
            timeout == fallback
        },
        None => timeout == fallback,
    }
}

/// The timeout that stands for `stored` milliseconds, `fallback` where that is no timeout.
fn timeout_or(stored: Option<i64>, fallback: Duration) -> (timeout: Duration)
    ensures
        is_timeout(stored, fallback, timeout),
        duration_millis(timeout) == timeout_millis(stored, fallback),
{
    match stored {
        Some(millis) => match duration_from_stored_millis(millis) {
            Some(timeout) => timeout,
            None => fallback,
        },
        None => fallback,
    }
}

/// How long after its last heartbeat a task may be taken over.
pub fn task_switch_timeout(doc: &Document, fallback: Duration) -> (timeout: Duration)
    ensures
        is_timeout(stored_switch_timeout(document_fields(*doc)), fallback, timeout),
        duration_millis(timeout) == timeout_millis(
            stored_switch_timeout(document_fields(*doc)),
            fallback,
        ),
{
    timeout_or(switch_timeout_from_task(doc), fallback)
}

/// The last heartbeat that a task document records.
pub open spec fn heartbeat_of(task: Fields) -> Option<i64> {
    match doc_field(task, "worker_state"@) {
        Some(worker_state) => date_field(worker_state, "heartbeat_at"@),
        None => None,
    }
}

/// The last heartbeat that a task document records, in milliseconds since the Unix epoch.
pub fn heartbeat_from_task(task: &Document) -> (heartbeat_at: Option<i64>)
    ensures
        heartbeat_at == heartbeat_of(document_fields(*task)),
{
    match document_get_document(task, "worker_state") {
        Some(worker_state) => document_get_date(worker_state, "heartbeat_at"),
        None => None,
    }
}

/// The key of the object id under `_id`.
pub open spec fn key_of(document: Fields) -> Option<u128> {
    match object_id_field(document, "_id"@) {
        Some(bytes) => Some(object_number(bytes) as u128),
        None => None,
    }
}

/// The key of the object id under `_id`.
pub fn object_key(document: &Document) -> (key: Option<ObjectKey>)
    ensures
        match key {
            Some(key) => key_of(document_fields(*document)) == Some(key@),
            None => key_of(document_fields(*document)) is None,
        },
{
    match document_get_object_id(document, "_id") {
        Some(bytes) => Some(ObjectKey::from_bytes(bytes)),
        None => None,
    }
}

/// Whether the task is running.
pub open spec fn is_running(task: Fields) -> bool {
    str_field(task, "status"@) == Some("running"@)
}

/// Whether the task is waiting for a worker.
pub open spec fn is_pending(task: Fields) -> bool {
    str_field(task, "status"@) == Some("pending"@)
}

/// The instant from which a running task counts as abandoned.
pub open spec fn deadline_of_task(task: Fields, fallback: Duration) -> Option<i64> {
    match heartbeat_of(task) {
        Some(heartbeat_at) => Some(
            deadline_in(heartbeat_at, timeout_millis(stored_switch_timeout(task), fallback)),
        ),
        None => None,
    }
}

/// What is known once a task document has been seen: a running task with a heartbeat is tracked, a
/// task that does not run is not. The switch timeout that was set for a task that runs or waits is
/// noted; that of any other is forgotten.
pub open spec fn scheduled(state: TrackerState, task: Fields, fallback: Duration) -> TrackerState {
    match key_of(task) {
        None => state,
        Some(key) => if is_running(task) {
            let noted = state.noted(key, own_timeout_of(task));
            match deadline_of_task(task, fallback) {
                Some(deadline) => noted.upserted(key, str_field(task, "task_id"@), deadline),
                None => noted,
            }
        } else if is_pending(task) {
            state.removed(key).noted(key, own_timeout_of(task))
        } else {
            state.forgotten(key)
        },
    }
}

/// Brings the table up to date with a task document.
pub fn schedule_expiration_from_task(
    task: &Document,
    worker_switch_timeout: Duration,
    expiry_tracker: &mut ExpiryTracker,
)
    requires
        old(expiry_tracker).wf(),
    ensures
        final(expiry_tracker).wf(),
        final(expiry_tracker)@ == scheduled(
            old(expiry_tracker)@,
            document_fields(*task),
            worker_switch_timeout,
        ),
{
    let id = match object_key(task) {
        Some(id) => id,
        None => {
            return ;
        },
    };
    let running = match document_get_str(task, "status") {
        Some(status) => same_text(status, "running"),
        None => false,
    };
    if !running {
        if status_is_pending(task) {
            expiry_tracker.remove(&id);
            expiry_tracker.note_own_timeout(&id, document_get_i64(task, "worker_switch_timeout"));
        } else {
            expiry_tracker.forget(&id);
        }
        return ;
    }
    expiry_tracker.note_own_timeout(&id, document_get_i64(task, "worker_switch_timeout"));
    let task_id = match document_get_str(task, "task_id") {
        Some(task_id) => Some(task_id.to_owned()),
        None => None,
    };
    let heartbeat_at: i64 = match heartbeat_from_task(task) {
        Some(heartbeat_at) => heartbeat_at,
        None => {
            return ;
        },
    };
    expiry_tracker.upsert(
        id,
        task_id,
        heartbeat_at,
        task_switch_timeout(task, worker_switch_timeout),
    );
}

/// Whether an update sets the status to something other than running.
pub open spec fn leaves_running(updated_fields: Fields) -> bool {
    str_field(updated_fields, "status"@) is Some && !is_running(updated_fields)
}

/// Whether an update sets the status to something other than running.
pub fn updated_status_is_not_running(updated_fields: &Document) -> (not_running: bool)
    ensures
        not_running == leaves_running(document_fields(*updated_fields)),
{
    match document_get_str(updated_fields, "status") {
        Some(status) => !same_text(status, "running"),
        None => false,
    }
}

/// The heartbeat in the fields of an update: in a whole `worker_state` document or else, where the
/// update sets no such document, under the dotted name.
pub open spec fn updated_heartbeat(updated_fields: Fields) -> Option<i64> {
    match doc_field(updated_fields, "worker_state"@) {
        Some(worker_state) => date_field(worker_state, "heartbeat_at"@),
        None => date_field(updated_fields, "worker_state.heartbeat_at"@),
    }
}

/// The switch timeout in the fields of an update, likewise.
pub open spec fn updated_timeout(updated_fields: Fields) -> Option<i64> {
    match doc_field(updated_fields, "worker_state"@) {
        Some(worker_state) => i64_field(worker_state, "switch_timeout_ms"@),
        None => i64_field(updated_fields, "worker_state.switch_timeout_ms"@),
    }
}

/// The heartbeat, in milliseconds since the Unix epoch, and the switch timeout that the fields of an
/// update carry; nothing where they carry no heartbeat.
pub fn expiration_update_from_fields(updated_fields: &Document, fallback_timeout: Duration) -> (
    update: Option<(i64, Duration)>)
    ensures
        match update {
            Some((heartbeat_at, timeout)) => {
                &&& updated_heartbeat(document_fields(*updated_fields)) == Some(heartbeat_at)
                &&& is_timeout(
                    updated_timeout(document_fields(*updated_fields)),
                    fallback_timeout,
                    timeout,
                )
                &&& duration_millis(timeout) == timeout_millis(
                    updated_timeout(document_fields(*updated_fields)),
                    fallback_timeout,
                )
            },
            None => updated_heartbeat(document_fields(*updated_fields)) is None,
        },
{
    match document_get_document(updated_fields, "worker_state") {
        Some(worker_state) => match document_get_date(worker_state, "heartbeat_at") {
            Some(heartbeat_at) => {
                let stored = document_get_i64(worker_state, "switch_timeout_ms");
                Some((heartbeat_at, timeout_or(stored, fallback_timeout)))
            },
            None => None,
        },
        None => match document_get_date(updated_fields, "worker_state.heartbeat_at") {
            Some(heartbeat_at) => {
                let stored = document_get_i64(updated_fields, "worker_state.switch_timeout_ms");
                Some((heartbeat_at, timeout_or(stored, fallback_timeout)))
            },
            None => None,
        },
    }
}

/// The switch timeout that was set for a task, as far as is known after an update with these fields.
pub open spec fn own_timeout_after(known: Option<i64>, updated_fields: Fields) -> Option<i64> {
    match own_timeout_of(updated_fields) {
        Some(millis) => Some(millis),
        None => known,
    }
}

/// What a change event reports.
#[derive(Clone, Copy, Debug, PartialEq, Eq, Structural)]
pub enum ChangeKind {
    Insert,
    Replace,
    Update,
    Delete,
    Other,
}

/// A change of a task document: the whole new document, where the event carries it; the document's
/// key; the fields that an update has set.
#[derive(Debug)]
pub struct ChangeEvent {
    pub kind: ChangeKind,
    pub full_document: Option<Document>,
    pub document_key: Option<Document>,
    pub updated_fields: Option<Document>,
}

/// What a change event says.
pub ghost struct Change {
    pub kind: ChangeKind,
    pub full_document: Option<Fields>,
    pub key: Option<u128>,
    pub updated_fields: Option<Fields>,
}

/// The fields of an optional document.
pub open spec fn optional_fields(document: Option<Document>) -> Option<Fields> {
    match document {
        Some(document) => Some(document_fields(document)),
        None => None,
    }
}

impl View for ChangeEvent {
    type V = Change;

    open spec fn view(&self) -> Change {
        Change {
            kind: self.kind,
            full_document: optional_fields(self.full_document),
            key: match optional_fields(self.document_key) {
                Some(fields) => key_of(fields),
                None => None,
            },
            updated_fields: optional_fields(self.updated_fields),
        }
    }
}

impl Change {
    /// Whether the change makes a task ready for a worker.
    pub open spec fn makes_ready(self) -> bool {
        match self.kind {
            ChangeKind::Insert | ChangeKind::Replace => match self.full_document {
                Some(task) => is_pending(task),
                None => false,
            },
            ChangeKind::Update => match self.updated_fields {
                Some(fields) => is_pending(fields),
                None => false,
            },
            ChangeKind::Delete | ChangeKind::Other => false,
        }
    }

    /// What is known of running tasks after the change. A heartbeat counts for as long as the
    /// timeout that was set for the task, where that is known, or else for as long as the update
    /// says, or else for as long as `fallback`.
    pub open spec fn expirations(self, state: TrackerState, fallback: Duration) -> TrackerState {
        match self.kind {
            ChangeKind::Insert | ChangeKind::Replace => match self.full_document {
                Some(task) => scheduled(state, task, fallback),
                None => state,
            },
            ChangeKind::Update => match (self.key, self.updated_fields) {
                (Some(key), Some(fields)) => {
                    let own_timeout = own_timeout_after(state.own_timeout(key), fields);
                    if is_pending(fields) {
                        state.removed(key).noted(key, own_timeout)
                    } else if leaves_running(fields) {
                        state.forgotten(key)
                    } else {
                        match updated_heartbeat(fields) {
                            Some(heartbeat_at) => {
                                let stored = match own_timeout {
                                    Some(millis) => Some(millis),
                                    None => updated_timeout(fields),
                                };
                                state.noted(key, own_timeout).upserted(
                                    key,
                                    None,
                                    deadline_in(heartbeat_at, timeout_millis(stored, fallback)),
                                )
                            },
                            None => state,
                        }
                    }
                },
                _ => state,
            },
            ChangeKind::Delete => match self.key {
                Some(key) => state.forgotten(key),
                None => state,
            },
            ChangeKind::Other => state,
        }
    }

    /// What is known after the change: a task that became ready raises the hint.
    pub open spec fn applied(self, state: TrackerState, fallback: Duration) -> TrackerState {
        if self.makes_ready() {
            TrackerState { pending_may_exist: true, ..self.expirations(state, fallback) }
        } else {
            self.expirations(state, fallback)
        }
    }
}

fn event_key(event: &ChangeEvent) -> (key: Option<ObjectKey>)
    ensures
        match key {
            Some(key) => event@.key == Some(key@),
            None => event@.key is None,
        },
{
    match &event.document_key {
        Some(document) => object_key(document),
        None => None,
    }
}

fn status_is_pending(document: &Document) -> (pending: bool)
    ensures
        pending == is_pending(document_fields(*document)),
{
    match document_get_str(document, "status") {
        Some(status) => same_text(status, "pending"),
        None => false,
    }
}

/// Brings the table up to date with the fields that an update of a task has set.
fn apply_update(
    id: &ObjectKey,
    updated_fields: &Document,
    worker_switch_timeout: Duration,
    expiry_tracker: &mut ExpiryTracker,
)
    requires
        old(expiry_tracker).wf(),
    ensures
        final(expiry_tracker).wf(),
        final(expiry_tracker)@ == (Change {
            kind: ChangeKind::Update,
            full_document: None,
            key: Some(id@),
            updated_fields: Some(document_fields(*updated_fields)),
        }).expirations(old(expiry_tracker)@, worker_switch_timeout),
{
    proof {
        reveal_strlit("pending");
        reveal_strlit("running");
        assert("pending"@[0] != "running"@[0]);
    }
    let own_timeout = match document_get_i64(updated_fields, "worker_switch_timeout") {
        Some(millis) => Some(millis),
        None => expiry_tracker.own_timeout(id),
    };
    if status_is_pending(updated_fields) {
        expiry_tracker.remove(id);
        expiry_tracker.note_own_timeout(id, own_timeout);
    } else if updated_status_is_not_running(updated_fields) {
        expiry_tracker.forget(id);
    } else if let Some((heartbeat_at, update_timeout)) = expiration_update_from_fields(
        updated_fields,
        worker_switch_timeout,
    ) {
        let timeout = match own_timeout {
            Some(millis) => timeout_or(Some(millis), worker_switch_timeout),
            None => update_timeout,
        };
        expiry_tracker.note_own_timeout(id, own_timeout);
        expiry_tracker.upsert(*id, None, heartbeat_at, timeout);
    }
}

/// Brings the table up to date with a change event, and says whether the event makes a task ready.
pub fn apply_change_event_to_expirations(
    event: &ChangeEvent,
    worker_switch_timeout: Duration,
    expiry_tracker: &mut ExpiryTracker,
) -> (ready: bool)
    requires
        old(expiry_tracker).wf(),
    ensures
        final(expiry_tracker).wf(),
        ready == event@.makes_ready(),
        final(expiry_tracker)@ == event@.applied(old(expiry_tracker)@, worker_switch_timeout),
{
    let ready = match event.kind {
        ChangeKind::Insert | ChangeKind::Replace => match &event.full_document {
            Some(task) => {
                schedule_expiration_from_task(task, worker_switch_timeout, expiry_tracker);
                status_is_pending(task)
            },
            None => false,
        },
        ChangeKind::Update => match &event.updated_fields {
            Some(updated_fields) => {
                if let Some(id) = event_key(event) {
                    apply_update(&id, updated_fields, worker_switch_timeout, expiry_tracker);
                }
                status_is_pending(updated_fields)
            },
            None => false,
        },
        ChangeKind::Delete => {
            if let Some(id) = event_key(event) {
                expiry_tracker.forget(&id);
            }
            false
        },
        ChangeKind::Other => false,
    };
    if ready {
        expiry_tracker.set_pending_may_exist(true);
    }
    ready
}

/// What is known once several task documents have been seen in turn.
pub open spec fn all_scheduled(
    state: TrackerState,
    tasks: Seq<Document>,
    fallback: Duration,
) -> TrackerState
    decreases tasks.len(),
{
    if tasks.len() == 0 {
        state
    } else {
        scheduled(
            all_scheduled(state, tasks.drop_last(), fallback),
            document_fields(tasks.last()),
            fallback,
        )
    }
}

/// The state with an empty table. The switch timeouts that were set for tasks stay known as long as
/// change events came in without a gap.
pub open spec fn none_tracked(state: TrackerState, trigger: Trigger) -> TrackerState {
    TrackerState {
        tasks: Map::empty(),
        own_timeouts: if trigger is Periodic {
            state.own_timeouts
        } else {
            Map::empty()
        },
        ..state
    }
}

/// Builds the table anew from a scan of the running tasks. `scan` holds the documents that were
/// read before the scan ended or broke off, nothing if it could not be started; in that case the
/// table stays as it is. Unless the scan is a periodic one, changes may have been missed, and the
/// switch timeouts that were set for tasks are forgotten.
pub fn refresh_running_expirations(
    scan: Option<&Vec<Document>>,
    worker_switch_timeout: Duration,
    expiry_tracker: &mut ExpiryTracker,
    trigger: Trigger,
)
    requires
        old(expiry_tracker).wf(),
    ensures
        final(expiry_tracker).wf(),
        final(expiry_tracker)@ == match scan {
            Some(tasks) => all_scheduled(
                none_tracked(old(expiry_tracker)@, trigger),
                tasks@,
                worker_switch_timeout,
            ),
            None => old(expiry_tracker)@,
        },
{
    match scan {
        None => {},
        Some(tasks) => {
            let ghost before = expiry_tracker@;
            expiry_tracker.clear();
            match trigger {
                Trigger::Periodic => {},
                Trigger::Startup | Trigger::Reconnect => {
                    expiry_tracker.forget_own_timeouts();
                },
            }
            let mut next: usize = 0;
            proof {
                assert(tasks@.take(0) =~= Seq::<Document>::empty());
                assert(expiry_tracker@ == none_tracked(before, trigger));
            }
            while next < tasks.len()
                invariant
                    next <= tasks.len(),
                    expiry_tracker.wf(),
                    expiry_tracker@ == all_scheduled(
                        none_tracked(before, trigger),
                        tasks@.take(next as int),
                        worker_switch_timeout,
                    ),
                decreases tasks.len() - next,
            {
                schedule_expiration_from_task(&tasks[next], worker_switch_timeout, expiry_tracker);
                proof {
                    let seen = tasks@.take(next + 1);
                    assert(seen.drop_last() =~= tasks@.take(next as int));
                    assert(seen.last() == tasks@[next as int]);
                }
                next = next + 1;
            }
            proof {
                assert(tasks@.take(next as int) =~= tasks@);
            }
        },
    }
}

/// Takes in what a look for ready tasks has found; nothing changes where the look failed.
pub fn refresh_pending_tasks(found: Option<bool>, expiry_tracker: &mut ExpiryTracker)
    requires
        old(expiry_tracker).wf(),
    ensures
        final(expiry_tracker).wf(),
        final(expiry_tracker)@ == match found {
            Some(found) => (TrackerState { pending_may_exist: found, ..old(expiry_tracker)@ }),
            None => old(expiry_tracker)@,
        },
{
    if let Some(found) = found {
        expiry_tracker.set_pending_may_exist(found);
    }
}

/// Whether no two documents have the same object id.
pub open spec fn has_distinct_keys(tasks: Seq<Document>) -> bool {
    forall|i: int, j: int|
        0 <= i < j < tasks.len() && key_of(document_fields(#[trigger] tasks[i])) is Some
            ==> key_of(document_fields(tasks[i])) != key_of(document_fields(#[trigger] tasks[j]))
}

/// Whether a document calls for an entry in the table: the task runs and has a heartbeat.
pub open spec fn calls_for_entry(task: Fields) -> bool {
    is_running(task) && key_of(task) is Some && heartbeat_of(task) is Some
}

/// The entry for a task document.
pub open spec fn entry_for(task: Fields, fallback: Duration) -> TrackedTask {
    TrackedTask {
        task_id: str_field(task, "task_id"@),
        expires_at_ms: deadline_of_task(task, fallback)->0,
    }
}

/// A scan makes the table an exact picture of what it has read: each running task with a heartbeat
/// is there under its own deadline, and nothing else is.
pub proof fn scan_pictures_running_tasks(
    state: TrackerState,
    tasks: Seq<Document>,
    fallback: Duration,
    trigger: Trigger,
)
    requires
        has_distinct_keys(tasks),
    ensures
        ({
            let table = all_scheduled(none_tracked(state, trigger), tasks, fallback).tasks;
            &&& forall|i: int|
                0 <= i < tasks.len() && calls_for_entry(document_fields(#[trigger] tasks[i])) ==> {
                    let key = key_of(document_fields(tasks[i]))->0;
                    &&& table.dom().contains(key)
                    &&& table[key] == entry_for(document_fields(tasks[i]), fallback)
                }
            &&& forall|key: u128| #[trigger]
                table.dom().contains(key) ==> exists|i: int|
                    0 <= i < tasks.len() && calls_for_entry(document_fields(#[trigger] tasks[i]))
                        && key_of(document_fields(tasks[i])) == Some(key)
        }),
    decreases tasks.len(),
{
    if tasks.len() > 0 {
        let earlier = tasks.drop_last();
        let last = document_fields(tasks.last());
        assert forall|i: int, j: int|
            0 <= i < j < earlier.len() && key_of(
                document_fields(#[trigger] earlier[i]),
            ) is Some implies key_of(document_fields(earlier[i])) != key_of(
            document_fields(#[trigger] earlier[j]),
        ) by {
            assert(earlier[i] == tasks[i] && earlier[j] == tasks[j]);
        }
        scan_pictures_running_tasks(state, earlier, fallback, trigger);
        let before = all_scheduled(none_tracked(state, trigger), earlier, fallback).tasks;
        let table = all_scheduled(none_tracked(state, trigger), tasks, fallback).tasks;
        assert forall|i: int|
            0 <= i < tasks.len() && calls_for_entry(document_fields(#[trigger] tasks[i])) implies {
            let key = key_of(document_fields(tasks[i]))->0;
            &&& table.dom().contains(key)
            &&& table[key] == entry_for(document_fields(tasks[i]), fallback)
        } by {
            if i < earlier.len() {
                assert(earlier[i] == tasks[i]);
                assert(key_of(document_fields(tasks[i])) != key_of(
                    document_fields(tasks[tasks.len() - 1]),
                ));
            } else {
                assert(tasks[i] == tasks.last());
                let key = key_of(last)->0;
                if before.dom().contains(key) {
                    let k = choose|k: int|
                        0 <= k < earlier.len() && calls_for_entry(
                            document_fields(#[trigger] earlier[k]),
                        ) && key_of(document_fields(earlier[k])) == Some(key);
                    assert(earlier[k] == tasks[k]);
                    assert(key_of(document_fields(tasks[k])) != key_of(
                        document_fields(tasks[tasks.len() - 1]),
                    ));
                }
            }
        }
        assert forall|key: u128| #[trigger] table.dom().contains(key) implies exists|i: int|
            0 <= i < tasks.len() && calls_for_entry(document_fields(#[trigger] tasks[i]))
                && key_of(document_fields(tasks[i])) == Some(key) by {
            if calls_for_entry(last) && key_of(last) == Some(key) {
                assert(tasks[tasks.len() - 1] == tasks.last());
            } else {
                assert(before.dom().contains(key));
                let i = choose|i: int|
                    0 <= i < earlier.len() && calls_for_entry(
                        document_fields(#[trigger] earlier[i]),
                    ) && key_of(document_fields(earlier[i])) == Some(key);
                assert(tasks[i] == earlier[i]);
            }
        }
    }
}

} // verus!
