//! The names of the fields of a task document, as paths.
use vstd::prelude::*;

use crate::document::{doc_field, field, BsonValue, Fields};
use crate::query::{is_plain, lookup, lookup_inside, lookup_plain};

verus! {

/// A field of the `worker_state` of a task document.
pub open spec fn worker_field(task: Fields, name: Seq<char>) -> Option<BsonValue> {
    match doc_field(task, "worker_state"@) {
        Some(worker_state) => field(worker_state, name),
        None => None,
    }
}

/// The names of the fields of a task document have no dots.
pub(crate) proof fn names_are_plain()
    ensures
        is_plain("_id"@),
        is_plain("status"@),
        is_plain("task_id"@),
        is_plain("task_input"@),
        is_plain("task_output"@),
        is_plain("error_reason"@),
        is_plain("updated_at"@),
        is_plain("created_at"@),
        is_plain("trace_context"@),
        is_plain("worker_switch_timeout"@),
        is_plain("worker_state"@),
        is_plain("worker_id"@),
        is_plain("claim_token"@),
        is_plain("started_at"@),
        is_plain("heartbeat_at"@),
        is_plain("finished_at"@),
        is_plain("switch_timeout_ms"@),
        is_plain("shutdown_reason"@),
{
    reveal_strlit("_id");
    reveal_strlit("status");
    reveal_strlit("task_id");
    reveal_strlit("task_input");
    reveal_strlit("task_output");
    reveal_strlit("error_reason");
    reveal_strlit("updated_at");
    reveal_strlit("created_at");
    reveal_strlit("trace_context");
    reveal_strlit("worker_switch_timeout");
    reveal_strlit("worker_state");
    reveal_strlit("worker_id");
    reveal_strlit("claim_token");
    reveal_strlit("started_at");
    reveal_strlit("heartbeat_at");
    reveal_strlit("finished_at");
    reveal_strlit("switch_timeout_ms");
    reveal_strlit("shutdown_reason");
}

/// The dotted paths of a task document lead into its `worker_state`.
pub(crate) proof fn paths_are_dotted()
    ensures
        "worker_state.worker_id"@ == "worker_state"@ + seq!['.'] + "worker_id"@,
        "worker_state.claim_token"@ == "worker_state"@ + seq!['.'] + "claim_token"@,
        "worker_state.heartbeat_at"@ == "worker_state"@ + seq!['.'] + "heartbeat_at"@,
        "worker_state.finished_at"@ == "worker_state"@ + seq!['.'] + "finished_at"@,
        "worker_state.switch_timeout_ms"@ == "worker_state"@ + seq!['.'] + "switch_timeout_ms"@,
        "worker_state.shutdown_reason"@ == "worker_state"@ + seq!['.'] + "shutdown_reason"@,
{
    reveal_strlit("worker_state");
    reveal_strlit("worker_id");
    reveal_strlit("claim_token");
    reveal_strlit("heartbeat_at");
    reveal_strlit("finished_at");
    reveal_strlit("switch_timeout_ms");
    reveal_strlit("shutdown_reason");
    reveal_strlit("worker_state.worker_id");
    reveal_strlit("worker_state.claim_token");
    reveal_strlit("worker_state.heartbeat_at");
    reveal_strlit("worker_state.finished_at");
    reveal_strlit("worker_state.switch_timeout_ms");
    reveal_strlit("worker_state.shutdown_reason");
    assert("worker_state.worker_id"@ =~= "worker_state"@ + seq!['.'] + "worker_id"@);
    assert("worker_state.claim_token"@ =~= "worker_state"@ + seq!['.'] + "claim_token"@);
    assert("worker_state.heartbeat_at"@ =~= "worker_state"@ + seq!['.'] + "heartbeat_at"@);
    assert("worker_state.finished_at"@ =~= "worker_state"@ + seq!['.'] + "finished_at"@);
    assert("worker_state.switch_timeout_ms"@ =~= "worker_state"@ + seq!['.']
        + "switch_timeout_ms"@);
    assert("worker_state.shutdown_reason"@ =~= "worker_state"@ + seq!['.'] + "shutdown_reason"@);
}

/// Where the paths of a task document lead.
pub(crate) proof fn paths_lead(task: Fields)
    ensures
        lookup(task, "_id"@) == field(task, "_id"@),
        lookup(task, "status"@) == field(task, "status"@),
        lookup(task, "task_id"@) == field(task, "task_id"@),
        lookup(task, "task_input"@) == field(task, "task_input"@),
        lookup(task, "task_output"@) == field(task, "task_output"@),
        lookup(task, "error_reason"@) == field(task, "error_reason"@),
        lookup(task, "updated_at"@) == field(task, "updated_at"@),
        lookup(task, "created_at"@) == field(task, "created_at"@),
        lookup(task, "trace_context"@) == field(task, "trace_context"@),
        lookup(task, "worker_switch_timeout"@) == field(task, "worker_switch_timeout"@),
        lookup(task, "worker_state"@) == field(task, "worker_state"@),
        lookup(task, "worker_state.worker_id"@) == worker_field(task, "worker_id"@),
        lookup(task, "worker_state.claim_token"@) == worker_field(task, "claim_token"@),
        lookup(task, "worker_state.heartbeat_at"@) == worker_field(task, "heartbeat_at"@),
        lookup(task, "worker_state.finished_at"@) == worker_field(task, "finished_at"@),
        lookup(task, "worker_state.switch_timeout_ms"@) == worker_field(
            task,
            "switch_timeout_ms"@,
        ),
        lookup(task, "worker_state.shutdown_reason"@) == worker_field(task, "shutdown_reason"@),
{
    names_are_plain();
    paths_are_dotted();
    lookup_plain(task, "_id"@);
    lookup_plain(task, "status"@);
    lookup_plain(task, "task_id"@);
    lookup_plain(task, "task_input"@);
    lookup_plain(task, "task_output"@);
    lookup_plain(task, "error_reason"@);
    lookup_plain(task, "updated_at"@);
    lookup_plain(task, "created_at"@);
    lookup_plain(task, "trace_context"@);
    lookup_plain(task, "worker_switch_timeout"@);
    lookup_plain(task, "worker_state"@);
    worker_path_leads(task, "worker_state.worker_id"@, "worker_id"@);
    worker_path_leads(task, "worker_state.claim_token"@, "claim_token"@);
    worker_path_leads(task, "worker_state.heartbeat_at"@, "heartbeat_at"@);
    worker_path_leads(task, "worker_state.finished_at"@, "finished_at"@);
    worker_path_leads(task, "worker_state.switch_timeout_ms"@, "switch_timeout_ms"@);
    worker_path_leads(task, "worker_state.shutdown_reason"@, "shutdown_reason"@);
}

proof fn worker_path_leads(task: Fields, path: Seq<char>, name: Seq<char>)
    requires
        is_plain(name),
        path == "worker_state"@ + seq!['.'] + name,
    ensures
        lookup(task, path) == worker_field(task, name),
{
    names_are_plain();
    lookup_inside(task, path, "worker_state"@, name);
    match doc_field(task, "worker_state"@) {
        Some(worker_state) => lookup_plain(worker_state, name),
        None => {},
    }
}

/// The names and paths in the filters and updates of task documents differ.
pub(crate) proof fn task_names_differ()
    ensures
        "_id"@ != "status"@,
        "_id"@ != "task_id"@,
        "_id"@ != "task_input"@,
        "_id"@ != "task_output"@,
        "_id"@ != "error_reason"@,
        "_id"@ != "updated_at"@,
        "_id"@ != "created_at"@,
        "_id"@ != "trace_context"@,
        "_id"@ != "worker_switch_timeout"@,
        "_id"@ != "worker_state"@,
        "_id"@ != "worker_state.worker_id"@,
        "_id"@ != "worker_state.claim_token"@,
        "_id"@ != "worker_state.heartbeat_at"@,
        "_id"@ != "worker_state.finished_at"@,
        "_id"@ != "worker_state.shutdown_reason"@,
        "_id"@ != "$expr"@,
        "_id"@ != "$or"@,
        "status"@ != "task_id"@,
        "status"@ != "task_input"@,
        "status"@ != "task_output"@,
        "status"@ != "error_reason"@,
        "status"@ != "updated_at"@,
        "status"@ != "created_at"@,
        "status"@ != "trace_context"@,
        "status"@ != "worker_switch_timeout"@,
        "status"@ != "worker_state"@,
        "status"@ != "worker_state.worker_id"@,
        "status"@ != "worker_state.claim_token"@,
        "status"@ != "worker_state.heartbeat_at"@,
        "status"@ != "worker_state.finished_at"@,
        "status"@ != "worker_state.shutdown_reason"@,
        "status"@ != "$expr"@,
        "status"@ != "$or"@,
        "task_id"@ != "task_input"@,
        "task_id"@ != "task_output"@,
        "task_id"@ != "error_reason"@,
        "task_id"@ != "updated_at"@,
        "task_id"@ != "created_at"@,
        "task_id"@ != "trace_context"@,
        "task_id"@ != "worker_switch_timeout"@,
        "task_id"@ != "worker_state"@,
        "task_id"@ != "worker_state.worker_id"@,
        "task_id"@ != "worker_state.claim_token"@,
        "task_id"@ != "worker_state.heartbeat_at"@,
        "task_id"@ != "worker_state.finished_at"@,
        "task_id"@ != "worker_state.shutdown_reason"@,
        "task_id"@ != "$expr"@,
        "task_id"@ != "$or"@,
        "task_input"@ != "task_output"@,
        "task_input"@ != "error_reason"@,
        "task_input"@ != "updated_at"@,
        "task_input"@ != "created_at"@,
        "task_input"@ != "trace_context"@,
        "task_input"@ != "worker_switch_timeout"@,
        "task_input"@ != "worker_state"@,
        "task_input"@ != "worker_state.worker_id"@,
        "task_input"@ != "worker_state.claim_token"@,
        "task_input"@ != "worker_state.heartbeat_at"@,
        "task_input"@ != "worker_state.finished_at"@,
        "task_input"@ != "worker_state.shutdown_reason"@,
        "task_input"@ != "$expr"@,
        "task_input"@ != "$or"@,
        "task_output"@ != "error_reason"@,
        "task_output"@ != "updated_at"@,
        "task_output"@ != "created_at"@,
        "task_output"@ != "trace_context"@,
        "task_output"@ != "worker_switch_timeout"@,
        "task_output"@ != "worker_state"@,
        "task_output"@ != "worker_state.worker_id"@,
        "task_output"@ != "worker_state.claim_token"@,
        "task_output"@ != "worker_state.heartbeat_at"@,
        "task_output"@ != "worker_state.finished_at"@,
        "task_output"@ != "worker_state.shutdown_reason"@,
        "task_output"@ != "$expr"@,
        "task_output"@ != "$or"@,
        "error_reason"@ != "updated_at"@,
        "error_reason"@ != "created_at"@,
        "error_reason"@ != "trace_context"@,
        "error_reason"@ != "worker_switch_timeout"@,
        "error_reason"@ != "worker_state"@,
        "error_reason"@ != "worker_state.worker_id"@,
        "error_reason"@ != "worker_state.claim_token"@,
        "error_reason"@ != "worker_state.heartbeat_at"@,
        "error_reason"@ != "worker_state.finished_at"@,
        "error_reason"@ != "worker_state.shutdown_reason"@,
        "error_reason"@ != "$expr"@,
        "error_reason"@ != "$or"@,
        "updated_at"@ != "created_at"@,
        "updated_at"@ != "trace_context"@,
        "updated_at"@ != "worker_switch_timeout"@,
        "updated_at"@ != "worker_state"@,
        "updated_at"@ != "worker_state.worker_id"@,
        "updated_at"@ != "worker_state.claim_token"@,
        "updated_at"@ != "worker_state.heartbeat_at"@,
        "updated_at"@ != "worker_state.finished_at"@,
        "updated_at"@ != "worker_state.shutdown_reason"@,
        "updated_at"@ != "$expr"@,
        "updated_at"@ != "$or"@,
        "created_at"@ != "trace_context"@,
        "created_at"@ != "worker_switch_timeout"@,
        "created_at"@ != "worker_state"@,
        "created_at"@ != "worker_state.worker_id"@,
        "created_at"@ != "worker_state.claim_token"@,
        "created_at"@ != "worker_state.heartbeat_at"@,
        "created_at"@ != "worker_state.finished_at"@,
        "created_at"@ != "worker_state.shutdown_reason"@,
        "created_at"@ != "$expr"@,
        "created_at"@ != "$or"@,
        "trace_context"@ != "worker_switch_timeout"@,
        "trace_context"@ != "worker_state"@,
        "trace_context"@ != "worker_state.worker_id"@,
        "trace_context"@ != "worker_state.claim_token"@,
        "trace_context"@ != "worker_state.heartbeat_at"@,
        "trace_context"@ != "worker_state.finished_at"@,
        "trace_context"@ != "worker_state.shutdown_reason"@,
        "trace_context"@ != "$expr"@,
        "trace_context"@ != "$or"@,
        "worker_switch_timeout"@ != "worker_state"@,
        "worker_switch_timeout"@ != "worker_state.worker_id"@,
        "worker_switch_timeout"@ != "worker_state.claim_token"@,
        "worker_switch_timeout"@ != "worker_state.heartbeat_at"@,
        "worker_switch_timeout"@ != "worker_state.finished_at"@,
        "worker_switch_timeout"@ != "worker_state.shutdown_reason"@,
        "worker_switch_timeout"@ != "$expr"@,
        "worker_switch_timeout"@ != "$or"@,
        "worker_state"@ != "worker_state.worker_id"@,
        "worker_state"@ != "worker_state.claim_token"@,
        "worker_state"@ != "worker_state.heartbeat_at"@,
        "worker_state"@ != "worker_state.finished_at"@,
        "worker_state"@ != "worker_state.shutdown_reason"@,
        "worker_state"@ != "$expr"@,
        "worker_state"@ != "$or"@,
        "worker_state.worker_id"@ != "worker_state.claim_token"@,
        "worker_state.worker_id"@ != "worker_state.heartbeat_at"@,
        "worker_state.worker_id"@ != "worker_state.finished_at"@,
        "worker_state.worker_id"@ != "worker_state.shutdown_reason"@,
        "worker_state.worker_id"@ != "$expr"@,
        "worker_state.worker_id"@ != "$or"@,
        "worker_state.claim_token"@ != "worker_state.heartbeat_at"@,
        "worker_state.claim_token"@ != "worker_state.finished_at"@,
        "worker_state.claim_token"@ != "worker_state.shutdown_reason"@,
        "worker_state.claim_token"@ != "$expr"@,
        "worker_state.claim_token"@ != "$or"@,
        "worker_state.heartbeat_at"@ != "worker_state.finished_at"@,
        "worker_state.heartbeat_at"@ != "worker_state.shutdown_reason"@,
        "worker_state.heartbeat_at"@ != "$expr"@,
        "worker_state.heartbeat_at"@ != "$or"@,
        "worker_state.finished_at"@ != "worker_state.shutdown_reason"@,
        "worker_state.finished_at"@ != "$expr"@,
        "worker_state.finished_at"@ != "$or"@,
        "worker_state.shutdown_reason"@ != "$expr"@,
        "worker_state.shutdown_reason"@ != "$or"@,
        "$expr"@ != "$or"@,
{
    reveal_strlit("_id");
    assert("_id"@.len() == 3);
    reveal_strlit("status");
    assert("status"@.len() == 6);
    reveal_strlit("task_id");
    assert("task_id"@.len() == 7);
    reveal_strlit("task_input");
    assert("task_input"@.len() == 10);
    reveal_strlit("task_output");
    assert("task_output"@.len() == 11);
    reveal_strlit("error_reason");
    assert("error_reason"@.len() == 12);
    reveal_strlit("updated_at");
    assert("updated_at"@.len() == 10);
    reveal_strlit("created_at");
    assert("created_at"@.len() == 10);
    reveal_strlit("trace_context");
    assert("trace_context"@.len() == 13);
    reveal_strlit("worker_switch_timeout");
    assert("worker_switch_timeout"@.len() == 21);
    reveal_strlit("worker_state");
    assert("worker_state"@.len() == 12);
    reveal_strlit("worker_state.worker_id");
    assert("worker_state.worker_id"@.len() == 22);
    reveal_strlit("worker_state.claim_token");
    assert("worker_state.claim_token"@.len() == 24);
    reveal_strlit("worker_state.heartbeat_at");
    assert("worker_state.heartbeat_at"@.len() == 25);
    reveal_strlit("worker_state.finished_at");
    assert("worker_state.finished_at"@.len() == 24);
    reveal_strlit("worker_state.shutdown_reason");
    assert("worker_state.shutdown_reason"@.len() == 28);
    reveal_strlit("$expr");
    assert("$expr"@.len() == 5);
    reveal_strlit("$or");
    assert("$or"@.len() == 3);
    assert("_id"@[0] != "$or"@[0]);
    assert("task_input"@[0] != "updated_at"@[0]);
    assert("task_input"@[0] != "created_at"@[0]);
    assert("error_reason"@[0] != "worker_state"@[0]);
    assert("updated_at"@[0] != "created_at"@[0]);
    assert("worker_state.claim_token"@[13] != "worker_state.finished_at"@[13]);
}

/// The names of the fields that a request alone sets differ from the others, and from each other.
pub(crate) proof fn request_names_differ()
    ensures
        "idempotency_key"@ != "task_id"@,
        "idempotency_key"@ != "task_input"@,
        "idempotency_key"@ != "status"@,
        "idempotency_key"@ != "updated_at"@,
        "idempotency_key"@ != "worker_switch_timeout"@,
        "idempotency_key"@ != "request_timeout"@,
        "idempotency_key"@ != "trace_context"@,
        "request_timeout"@ != "task_id"@,
        "request_timeout"@ != "task_input"@,
        "request_timeout"@ != "status"@,
        "request_timeout"@ != "updated_at"@,
        "request_timeout"@ != "worker_switch_timeout"@,
        "request_timeout"@ != "trace_context"@,
{
    reveal_strlit("idempotency_key");
    assert("idempotency_key"@.len() == 15);
    reveal_strlit("request_timeout");
    assert("request_timeout"@.len() == 15);
    reveal_strlit("task_id");
    assert("task_id"@.len() == 7);
    reveal_strlit("task_input");
    assert("task_input"@.len() == 10);
    reveal_strlit("status");
    assert("status"@.len() == 6);
    reveal_strlit("updated_at");
    assert("updated_at"@.len() == 10);
    reveal_strlit("worker_switch_timeout");
    assert("worker_switch_timeout"@.len() == 21);
    reveal_strlit("trace_context");
    assert("trace_context"@.len() == 13);
    assert("idempotency_key"@[0] != "request_timeout"@[0]);
}

/// Where the paths of the fields that a request alone sets lead.
pub(crate) proof fn request_paths_lead(task: Fields)
    ensures
        lookup(task, "idempotency_key"@) == field(task, "idempotency_key"@),
        lookup(task, "request_timeout"@) == field(task, "request_timeout"@),
{
    reveal_strlit("idempotency_key");
    reveal_strlit("request_timeout");
    lookup_plain(task, "idempotency_key"@);
    lookup_plain(task, "request_timeout"@);
}

/// The names of the fields of a `worker_state` differ.
pub(crate) proof fn worker_names_differ()
    ensures
        "worker_id"@ != "claim_token"@,
        "worker_id"@ != "started_at"@,
        "worker_id"@ != "heartbeat_at"@,
        "worker_id"@ != "switch_timeout_ms"@,
        "claim_token"@ != "started_at"@,
        "claim_token"@ != "heartbeat_at"@,
        "claim_token"@ != "switch_timeout_ms"@,
        "started_at"@ != "heartbeat_at"@,
        "started_at"@ != "switch_timeout_ms"@,
        "heartbeat_at"@ != "switch_timeout_ms"@,
{
    reveal_strlit("worker_id");
    assert("worker_id"@.len() == 9);
    reveal_strlit("claim_token");
    assert("claim_token"@.len() == 11);
    reveal_strlit("started_at");
    assert("started_at"@.len() == 10);
    reveal_strlit("heartbeat_at");
    assert("heartbeat_at"@.len() == 12);
    reveal_strlit("switch_timeout_ms");
    assert("switch_timeout_ms"@.len() == 17);
}

/// The names of the parts of an update differ.
pub(crate) proof fn update_names_differ()
    ensures
        "$set"@ != "$unset"@,
        "$set"@ != "$setOnInsert"@,
        "$unset"@ != "$setOnInsert"@,
{
    reveal_strlit("$set");
    assert("$set"@.len() == 4);
    reveal_strlit("$unset");
    assert("$unset"@.len() == 6);
    reveal_strlit("$setOnInsert");
    assert("$setOnInsert"@.len() == 12);
}

/// The names of the operators in conditions differ.
pub(crate) proof fn condition_names_differ()
    ensures
        "$eq"@ != "$in"@,
        "$eq"@ != "$nin"@,
        "$eq"@ != "$exists"@,
        "$eq"@ != "$type"@,
        "$in"@ != "$nin"@,
        "$in"@ != "$exists"@,
        "$in"@ != "$type"@,
        "$nin"@ != "$exists"@,
        "$nin"@ != "$type"@,
        "$exists"@ != "$type"@,
{
    reveal_strlit("$eq");
    assert("$eq"@.len() == 3);
    reveal_strlit("$in");
    assert("$in"@.len() == 3);
    assert("$eq"@[1] != "$in"@[1]);
    reveal_strlit("$nin");
    assert("$nin"@.len() == 4);
    reveal_strlit("$exists");
    assert("$exists"@.len() == 7);
    reveal_strlit("$type");
    assert("$type"@.len() == 5);
}

/// The names of the operators in expressions differ.
pub(crate) proof fn expression_names_differ()
    ensures
        "$add"@ != "$ifNull"@,
        "$add"@ != "$lte"@,
        "$add"@ != "$ne"@,
        "$add"@ != "$type"@,
        "$add"@ != "$getField"@,
        "$ifNull"@ != "$lte"@,
        "$ifNull"@ != "$ne"@,
        "$ifNull"@ != "$type"@,
        "$ifNull"@ != "$getField"@,
        "$lte"@ != "$ne"@,
        "$lte"@ != "$type"@,
        "$lte"@ != "$getField"@,
        "$ne"@ != "$type"@,
        "$ne"@ != "$getField"@,
        "$type"@ != "$getField"@,
{
    reveal_strlit("$add");
    assert("$add"@.len() == 4);
    reveal_strlit("$ifNull");
    assert("$ifNull"@.len() == 7);
    reveal_strlit("$lte");
    assert("$lte"@.len() == 4);
    reveal_strlit("$ne");
    assert("$ne"@.len() == 3);
    reveal_strlit("$type");
    assert("$type"@.len() == 5);
    reveal_strlit("$getField");
    assert("$getField"@.len() == 9);
    assert("$add"@[1] != "$lte"@[1]);
}

/// The states of a task differ.
pub(crate) proof fn statuses_differ()
    ensures
        "pending"@ != "running"@,
        "pending"@ != "succeeded"@,
        "pending"@ != "failed"@,
        "running"@ != "succeeded"@,
        "running"@ != "failed"@,
        "succeeded"@ != "failed"@,
{
    reveal_strlit("pending");
    assert("pending"@.len() == 7);
    reveal_strlit("running");
    assert("running"@.len() == 7);
    reveal_strlit("succeeded");
    assert("succeeded"@.len() == 9);
    reveal_strlit("failed");
    assert("failed"@.len() == 6);
    assert("pending"@[0] != "running"@[0]);
}

} // verus!
