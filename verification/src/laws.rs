//! What holds of the task documents in a collection when callers and workers write to it with the
//! filters and updates of this library.
use std::time::Duration;

use vstd::prelude::*;

use crate::caller::{
    enqueue_changes, enqueue_filter, enqueue_removals, enqueue_update, evaluation, finished_status,
    no_status, Evaluation,
};
use crate::claim::{
    binary, claim_changes, claim_filters, claimed_state, expired_filter, expiry_expression,
    failure_changes, heartbeat_changes, is_and_not_in, not_in, operator, own_running_filter,
    ownership, pending_filter, running_under, set_update, shutdown_changes, stale_filter,
    success_changes, ClaimMode,
};
use crate::document::{
    doc_field, field, i64_field, no_fields, str_field, str_values, BsonValue, Fields,
};
use crate::error::Failure;
use crate::expiry::deadline_in;
use crate::names::{
    condition_names_differ, expression_names_differ, paths_lead, request_names_differ,
    request_paths_lead, statuses_differ, task_names_differ, update_names_differ, worker_field,
    worker_names_differ,
};
use crate::query::{
    alternative_selects, condition_holds, date_sum, evaluate, is_related, is_untouched, lookup,
    nesting, one_selects, operator_holds, operators_hold, selects, selects_plainly, update_part,
    updates, whole_number,
};
use crate::schedule::{
    deadline_of_task, heartbeat_of, is_pending, is_running, stored_switch_timeout, timeout_millis,
};
use crate::task::{started, TaskInput, TaskState, TaskStep};
use crate::time::{duration_millis, stored_millis};
use crate::trace::TraceIds;
use crate::wait::decides;

verus! {

/// A filter without alternatives selects what meets its conditions.
pub(crate) proof fn selects_without_alternatives(filter: Fields, task: Fields)
    requires
        !filter.dom().contains("$or"@),
    ensures
        selects(filter, task) == selects_plainly(filter, task),
{
    assert(filter.remove("$or"@) =~= filter);
}

/// Paths that differ at some place before either ends do not touch each other.
pub(crate) proof fn unrelated_at(left: Seq<char>, right: Seq<char>, at: int)
    requires
        0 <= at < left.len(),
        at < right.len(),
        left[at] != right[at],
    ensures
        !is_related(left, right),
{
    if (left + seq!['.']).is_prefix_of(right) {
        assert((left + seq!['.'])[at] == right[at]);
    }
    if (right + seq!['.']).is_prefix_of(left) {
        assert((right + seq!['.'])[at] == left[at]);
    }
}

/// What the ownership filter means.
pub proof fn ownership_means(
    task: Fields,
    task_id: Seq<char>,
    worker_id: Seq<char>,
    claim_token: Seq<char>,
)
    ensures
        selects(ownership(task_id, worker_id, claim_token), task) <==> {
            &&& field(task, "task_id"@) == Some(BsonValue::Str(task_id))
            &&& field(task, "status"@) == Some(BsonValue::Str("running"@))
            &&& worker_field(task, "worker_id"@) == Some(BsonValue::Str(worker_id))
            &&& worker_field(task, "claim_token"@) == Some(BsonValue::Str(claim_token))
        },
{
    let filter = ownership(task_id, worker_id, claim_token);
    task_names_differ();
    paths_lead(task);
    selects_without_alternatives(filter, task);
    assert(filter.dom().contains("task_id"@));
    assert(filter.dom().contains("status"@));
    assert(filter.dom().contains("worker_state.worker_id"@));
    assert(filter.dom().contains("worker_state.claim_token"@));
}

/// At most one claim owns a task: whoever's ownership filter selects the document, it is the same
/// task under the same worker and the same token.
pub proof fn ownership_is_exclusive(
    task: Fields,
    task_id: Seq<char>,
    worker_id: Seq<char>,
    claim_token: Seq<char>,
    other_task_id: Seq<char>,
    other_worker_id: Seq<char>,
    other_token: Seq<char>,
)
    requires
        selects(ownership(task_id, worker_id, claim_token), task),
        selects(ownership(other_task_id, other_worker_id, other_token), task),
    ensures
        task_id == other_task_id,
        worker_id == other_worker_id,
        claim_token == other_token,
{
    ownership_means(task, task_id, worker_id, claim_token);
    ownership_means(task, other_task_id, other_worker_id, other_token);
}

/// What an update that only sets fields does to the paths that it sets and to those that it does
/// not touch.
pub(crate) proof fn set_update_means(changes: Fields, before: Fields, after: Fields, inserting: bool)
    requires
        updates(set_update(changes), before, after, inserting),
    ensures
        forall|path: Seq<char>| #[trigger]
            changes.dom().contains(path) ==> lookup(after, path) == Some(changes[path]),
        forall|path: Seq<char>|
            is_untouched(path, changes) ==> #[trigger] lookup(after, path) == lookup(before, path),
{
    update_names_differ();
    let update = set_update(changes);
    assert(update_part(update, "$set"@) == changes);
    assert(update_part(update, "$unset"@) == no_fields());
    assert(update_part(update, "$setOnInsert"@) == no_fields());
}

/// A claim leaves the rest of the document alone.
pub(crate) proof fn claim_leaves_alone(
    worker_id: Seq<char>,
    claim_token: Seq<char>,
    claim_started_at: i64,
    switch_timeout_ms: i64,
)
    ensures
        ({
            let changes = claim_changes(worker_id, claim_token, claim_started_at, switch_timeout_ms);
            &&& is_untouched("task_id"@, changes)
            &&& is_untouched("task_input"@, changes)
            &&& is_untouched("_id"@, changes)
            &&& is_untouched("worker_switch_timeout"@, changes)
        }),
{
    let changes = claim_changes(worker_id, claim_token, claim_started_at, switch_timeout_ms);
    reveal_strlit("_id");
    reveal_strlit("task_id");
    reveal_strlit("task_input");
    reveal_strlit("worker_switch_timeout");
    reveal_strlit("status");
    reveal_strlit("updated_at");
    reveal_strlit("worker_state");
    unrelated_at("task_id"@, "status"@, 0);
    unrelated_at("task_id"@, "updated_at"@, 0);
    unrelated_at("task_id"@, "worker_state"@, 0);
    unrelated_at("task_input"@, "status"@, 0);
    unrelated_at("task_input"@, "updated_at"@, 0);
    unrelated_at("task_input"@, "worker_state"@, 0);
    unrelated_at("_id"@, "status"@, 0);
    unrelated_at("_id"@, "updated_at"@, 0);
    unrelated_at("_id"@, "worker_state"@, 0);
    unrelated_at("worker_switch_timeout"@, "status"@, 0);
    unrelated_at("worker_switch_timeout"@, "updated_at"@, 0);
    unrelated_at("worker_switch_timeout"@, "worker_state"@, 8);
}

/// A claim makes the claimant the owner of the task, for which the payload and the id stay what they
/// were: the ownership filter with the new token selects the document, which runs and had its last
/// heartbeat when the claim was made.
pub proof fn claim_grants_ownership(
    before: Fields,
    after: Fields,
    task_id: Seq<char>,
    worker_id: Seq<char>,
    claim_token: Seq<char>,
    claim_started_at: i64,
    switch_timeout_ms: i64,
)
    requires
        updates(
            set_update(claim_changes(worker_id, claim_token, claim_started_at, switch_timeout_ms)),
            before,
            after,
            false,
        ),
        field(before, "task_id"@) == Some(BsonValue::Str(task_id)),
    ensures
        selects(ownership(task_id, worker_id, claim_token), after),
        is_running(after),
        heartbeat_of(after) == Some(claim_started_at),
        field(after, "task_input"@) == field(before, "task_input"@),
{
    let changes = claim_changes(worker_id, claim_token, claim_started_at, switch_timeout_ms);
    task_names_differ();
    worker_names_differ();
    paths_lead(before);
    paths_lead(after);
    set_update_means(changes, before, after, false);
    claim_leaves_alone(worker_id, claim_token, claim_started_at, switch_timeout_ms);
    assert(changes.dom().contains("status"@));
    assert(changes.dom().contains("worker_state"@));
    assert(doc_field(after, "worker_state"@) == Some(
        claimed_state(worker_id, claim_token, claim_started_at, switch_timeout_ms),
    ));
    ownership_means(after, task_id, worker_id, claim_token);
}

/// A claim ends every other claim: afterwards no ownership filter with another token selects the
/// document, so no write of an earlier claimant reaches the task.
pub proof fn claim_supersedes_others(
    before: Fields,
    after: Fields,
    worker_id: Seq<char>,
    claim_token: Seq<char>,
    claim_started_at: i64,
    switch_timeout_ms: i64,
    other_task_id: Seq<char>,
    other_worker_id: Seq<char>,
    other_token: Seq<char>,
)
    requires
        updates(
            set_update(claim_changes(worker_id, claim_token, claim_started_at, switch_timeout_ms)),
            before,
            after,
            false,
        ),
        other_token != claim_token,
    ensures
        !selects(ownership(other_task_id, other_worker_id, other_token), after),
{
    let changes = claim_changes(worker_id, claim_token, claim_started_at, switch_timeout_ms);
    task_names_differ();
    worker_names_differ();
    paths_lead(after);
    set_update_means(changes, before, after, false);
    assert(changes.dom().contains("worker_state"@));
    ownership_means(after, other_task_id, other_worker_id, other_token);
}

/// A heartbeat leaves the claim alone.
pub(crate) proof fn heartbeat_leaves_alone(now: i64)
    ensures
        is_untouched("task_id"@, heartbeat_changes(now)),
        is_untouched("status"@, heartbeat_changes(now)),
        is_untouched("worker_state.worker_id"@, heartbeat_changes(now)),
        is_untouched("worker_state.claim_token"@, heartbeat_changes(now)),
        is_untouched("worker_state.switch_timeout_ms"@, heartbeat_changes(now)),
        is_untouched("worker_switch_timeout"@, heartbeat_changes(now)),
{
    reveal_strlit("task_id");
    reveal_strlit("status");
    reveal_strlit("worker_state.worker_id");
    reveal_strlit("worker_state.claim_token");
    reveal_strlit("worker_state.heartbeat_at");
    unrelated_at("task_id"@, "worker_state.heartbeat_at"@, 0);
    unrelated_at("status"@, "worker_state.heartbeat_at"@, 0);
    unrelated_at("worker_state.worker_id"@, "worker_state.heartbeat_at"@, 13);
    unrelated_at("worker_state.claim_token"@, "worker_state.heartbeat_at"@, 13);
    reveal_strlit("worker_state.switch_timeout_ms");
    reveal_strlit("worker_switch_timeout");
    unrelated_at("worker_state.switch_timeout_ms"@, "worker_state.heartbeat_at"@, 13);
    unrelated_at("worker_switch_timeout"@, "worker_state.heartbeat_at"@, 8);
}

/// A heartbeat keeps its claim and moves the last heartbeat to `now`.
pub proof fn heartbeat_keeps_ownership(
    before: Fields,
    after: Fields,
    task_id: Seq<char>,
    worker_id: Seq<char>,
    claim_token: Seq<char>,
    now: i64,
)
    requires
        selects(ownership(task_id, worker_id, claim_token), before),
        updates(set_update(heartbeat_changes(now)), before, after, false),
    ensures
        selects(ownership(task_id, worker_id, claim_token), after),
        heartbeat_of(after) == Some(now),
{
    let changes = heartbeat_changes(now);
    paths_lead(before);
    paths_lead(after);
    set_update_means(changes, before, after, false);
    assert(changes.dom().contains("worker_state.heartbeat_at"@));
    heartbeat_leaves_alone(now);
    ownership_means(before, task_id, worker_id, claim_token);
    ownership_means(after, task_id, worker_id, claim_token);
}

/// A task that does not run has no owner.
proof fn no_owner_unless_running(
    task: Fields,
    task_id: Seq<char>,
    worker_id: Seq<char>,
    claim_token: Seq<char>,
)
    requires
        !is_running(task),
    ensures
        !selects(ownership(task_id, worker_id, claim_token), task),
{
    ownership_means(task, task_id, worker_id, claim_token);
}

/// What a caller reads of a task that has succeeded is the output that the worker wrote, and the
/// task has no owner any more.
pub proof fn success_is_read_back(
    before: Fields,
    after: Fields,
    output: BsonValue,
    updated_at: i64,
    finished_at: i64,
    task_id: Seq<char>,
    worker_id: Seq<char>,
    claim_token: Seq<char>,
)
    requires
        updates(set_update(success_changes(output, updated_at, finished_at)), before, after, false),
    ensures
        evaluation(after) == Evaluation::Succeeded(output),
        !selects(ownership(task_id, worker_id, claim_token), after),
{
    let changes = success_changes(output, updated_at, finished_at);
    task_names_differ();
    statuses_differ();
    paths_lead(after);
    set_update_means(changes, before, after, false);
    assert(changes.dom().contains("status"@));
    assert(changes.dom().contains("task_output"@));
    no_owner_unless_running(after, task_id, worker_id, claim_token);
}

/// A task that has succeeded keeps what it was asked with and the mark of the claim under which it was
/// run.
pub proof fn success_leaves_the_request_alone(
    before: Fields,
    after: Fields,
    output: BsonValue,
    updated_at: i64,
    finished_at: i64,
)
    requires
        updates(set_update(success_changes(output, updated_at, finished_at)), before, after, false),
    ensures
        field(after, "_id"@) == field(before, "_id"@),
        field(after, "task_id"@) == field(before, "task_id"@),
        field(after, "task_input"@) == field(before, "task_input"@),
        field(after, "trace_context"@) == field(before, "trace_context"@),
        field(after, "created_at"@) == field(before, "created_at"@),
        field(after, "worker_switch_timeout"@) == field(before, "worker_switch_timeout"@),
        worker_field(after, "worker_id"@) == worker_field(before, "worker_id"@),
        worker_field(after, "claim_token"@) == worker_field(before, "claim_token"@),
{
    let changes = success_changes(output, updated_at, finished_at);
    reveal_strlit("_id");
    reveal_strlit("task_id");
    reveal_strlit("task_input");
    reveal_strlit("trace_context");
    reveal_strlit("created_at");
    reveal_strlit("worker_switch_timeout");
    reveal_strlit("worker_state.worker_id");
    reveal_strlit("worker_state.claim_token");
    reveal_strlit("status");
    reveal_strlit("task_output");
    reveal_strlit("updated_at");
    reveal_strlit("worker_state.finished_at");
    let starts_apart = |path: Seq<char>|
        path.len() > 0 && path[0] != 's' && path[0] != 't' && path[0] != 'u' && path[0] != 'w';
    assert forall|path: Seq<char>| #[trigger] starts_apart(path) implies is_untouched(
        path,
        changes,
    ) by {
        unrelated_at(path, "status"@, 0);
        unrelated_at(path, "task_output"@, 0);
        unrelated_at(path, "updated_at"@, 0);
        unrelated_at(path, "worker_state.finished_at"@, 0);
    }
    assert(starts_apart("_id"@));
    assert(starts_apart("created_at"@));
    assert(is_untouched("task_id"@, changes)) by {
        unrelated_at("task_id"@, "status"@, 0);
        unrelated_at("task_id"@, "task_output"@, 5);
        unrelated_at("task_id"@, "updated_at"@, 0);
        unrelated_at("task_id"@, "worker_state.finished_at"@, 0);
    }
    assert(is_untouched("task_input"@, changes)) by {
        unrelated_at("task_input"@, "status"@, 0);
        unrelated_at("task_input"@, "task_output"@, 5);
        unrelated_at("task_input"@, "updated_at"@, 0);
        unrelated_at("task_input"@, "worker_state.finished_at"@, 0);
    }
    assert(is_untouched("trace_context"@, changes)) by {
        unrelated_at("trace_context"@, "status"@, 0);
        unrelated_at("trace_context"@, "task_output"@, 1);
        unrelated_at("trace_context"@, "updated_at"@, 0);
        unrelated_at("trace_context"@, "worker_state.finished_at"@, 0);
    }
    assert(is_untouched("worker_switch_timeout"@, changes)) by {
        unrelated_at("worker_switch_timeout"@, "status"@, 0);
        unrelated_at("worker_switch_timeout"@, "task_output"@, 0);
        unrelated_at("worker_switch_timeout"@, "updated_at"@, 0);
        unrelated_at("worker_switch_timeout"@, "worker_state.finished_at"@, 8);
    }
    assert(is_untouched("worker_state.worker_id"@, changes)) by {
        unrelated_at("worker_state.worker_id"@, "status"@, 0);
        unrelated_at("worker_state.worker_id"@, "task_output"@, 0);
        unrelated_at("worker_state.worker_id"@, "updated_at"@, 0);
        unrelated_at("worker_state.worker_id"@, "worker_state.finished_at"@, 13);
    }
    assert(is_untouched("worker_state.claim_token"@, changes)) by {
        unrelated_at("worker_state.claim_token"@, "status"@, 0);
        unrelated_at("worker_state.claim_token"@, "task_output"@, 0);
        unrelated_at("worker_state.claim_token"@, "updated_at"@, 0);
        unrelated_at("worker_state.claim_token"@, "worker_state.finished_at"@, 13);
    }
    paths_lead(before);
    paths_lead(after);
    set_update_means(changes, before, after, false);
}

/// What a caller reads of a task that has failed is the reason that the worker wrote, and the task
/// has no owner any more.
pub proof fn failure_is_read_back(
    before: Fields,
    after: Fields,
    reason: Seq<char>,
    updated_at: i64,
    finished_at: i64,
    task_id: Seq<char>,
    worker_id: Seq<char>,
    claim_token: Seq<char>,
)
    requires
        updates(set_update(failure_changes(reason, updated_at, finished_at)), before, after, false),
    ensures
        evaluation(after) == Evaluation::Failed(reason),
        !selects(ownership(task_id, worker_id, claim_token), after),
{
    let changes = failure_changes(reason, updated_at, finished_at);
    task_names_differ();
    statuses_differ();
    paths_lead(after);
    set_update_means(changes, before, after, false);
    assert(changes.dom().contains("status"@));
    assert(changes.dom().contains("error_reason"@));
    no_owner_unless_running(after, task_id, worker_id, claim_token);
}

/// The sweep of a worker that shuts down selects exactly the tasks that run under its id, those that
/// it has in flight among them, and each of them becomes one that has failed because of the shutdown.
pub proof fn shutdown_fails_what_runs(
    before: Fields,
    after: Fields,
    worker_id: Seq<char>,
    updated_at: i64,
    finished_at: i64,
    task_id: Seq<char>,
    claim_token: Seq<char>,
)
    requires
        updates(set_update(shutdown_changes(updated_at, finished_at)), before, after, false),
    ensures
        selects(running_under(worker_id), before) <==> is_running(before) && worker_field(
            before,
            "worker_id"@,
        ) == Some(BsonValue::Str(worker_id)),
        selects(ownership(task_id, worker_id, claim_token), before) ==> selects(
            running_under(worker_id),
            before,
        ),
        evaluation(after) == Evaluation::Failed("worker shut down"@),
        worker_field(after, "shutdown_reason"@) == Some(BsonValue::Str("worker shut down"@)),
{
    let changes = shutdown_changes(updated_at, finished_at);
    let filter = running_under(worker_id);
    task_names_differ();
    statuses_differ();
    paths_lead(before);
    paths_lead(after);
    set_update_means(changes, before, after, false);
    assert(changes.dom().contains("status"@));
    assert(changes.dom().contains("error_reason"@));
    assert(changes.dom().contains("worker_state.shutdown_reason"@));
    selects_without_alternatives(filter, before);
    ownership_means(before, task_id, worker_id, claim_token);
    assert(filter.dom().contains("status"@));
    assert(filter.dom().contains("worker_state.worker_id"@));
}

/// A task that has ended is out of everyone's reach but that of a caller who enqueues it again: no
/// write of a claimant, no claim and no sweep selects its document. So a handler that outlives the
/// shutdown of its worker cannot undo that its task was failed.
pub proof fn ended_task_is_out_of_reach(
    task: Fields,
    task_id: Seq<char>,
    worker_id: Seq<char>,
    claim_token: Seq<char>,
    now: i64,
    default_timeout_ms: i64,
    excluded: Seq<Seq<char>>,
    id: Seq<u8>,
    known: Option<Seq<char>>,
)
    requires
        is_finished(task),
    ensures
        !selects(ownership(task_id, worker_id, claim_token), task),
        !selects(pending_filter(), task),
        !selects(own_running_filter(worker_id, excluded), task),
        !selects(stale_filter(now, default_timeout_ms, excluded), task),
        !selects(expired_filter(id, known, now, default_timeout_ms, excluded), task),
        !selects(running_under(worker_id), task),
        !selects(enqueue_filter(task_id, false), task),
{
    let sweep = running_under(worker_id);
    statuses_differ();
    task_names_differ();
    paths_lead(task);
    no_owner_unless_running(task, task_id, worker_id, claim_token);
    pending_means(task);
    own_running_means(task, worker_id, excluded);
    stale_means(task, now, default_timeout_ms, excluded);
    expired_claim_reaches(task, id, known, now, default_timeout_ms, excluded);
    enqueue_reaches(task, task_id, false);
    selects_without_alternatives(sweep, task);
    assert(sweep.dom().contains("status"@));
}

/// Whether a filter is one by which workers and callers write to tasks, but for the reset of finished
/// ones.
pub open spec fn is_filter_without_reset(filter: Fields) -> bool {
    ||| exists|task_id: Seq<char>, worker_id: Seq<char>, claim_token: Seq<char>|
        filter == #[trigger] ownership(task_id, worker_id, claim_token)
    ||| filter == pending_filter()
    ||| exists|worker_id: Seq<char>, excluded: Seq<Seq<char>>|
        filter == #[trigger] own_running_filter(worker_id, excluded)
    ||| exists|now: i64, default_timeout_ms: i64, excluded: Seq<Seq<char>>|
        filter == #[trigger] stale_filter(now, default_timeout_ms, excluded)
    ||| exists|
        id: Seq<u8>,
        known: Option<Seq<char>>,
        now: i64,
        default_timeout_ms: i64,
        excluded: Seq<Seq<char>>,
    |
        filter == #[trigger] expired_filter(id, known, now, default_timeout_ms, excluded)
    ||| exists|worker_id: Seq<char>| filter == #[trigger] running_under(worker_id)
    ||| exists|task_id: Seq<char>| filter == #[trigger] enqueue_filter(task_id, false)
}

/// Whether a document may become another by a write of a worker or a caller, short of the reset of a
/// finished task: it was selected by such a write, or it is as it was.
pub open spec fn may_become(before: Fields, after: Fields) -> bool {
    before == after || exists|filter: Fields| #[trigger]
        is_filter_without_reset(filter) && selects(filter, before)
}

/// A finished task stays as it is.
proof fn finished_stays(before: Fields, after: Fields)
    requires
        is_finished(before),
        may_become(before, after),
    ensures
        after == before,
{
    assert forall|filter: Fields| #[trigger] is_filter_without_reset(filter) implies !selects(
        filter,
        before,
    ) by {
        assert forall|
            task_id: Seq<char>,
            worker_id: Seq<char>,
            claim_token: Seq<char>,
        | !selects(#[trigger] ownership(task_id, worker_id, claim_token), before) by {
            ended_task_is_out_of_reach(
                before,
                task_id,
                worker_id,
                claim_token,
                0,
                0,
                Seq::empty(),
                Seq::empty(),
                None,
            );
        }
        assert forall|worker_id: Seq<char>, excluded: Seq<Seq<char>>|
            !selects(#[trigger] own_running_filter(worker_id, excluded), before) && !selects(
                pending_filter(),
                before,
            ) && !selects(running_under(worker_id), before) by {
            ended_task_is_out_of_reach(
                before,
                worker_id,
                worker_id,
                worker_id,
                0,
                0,
                excluded,
                Seq::empty(),
                None,
            );
        }
        assert forall|now: i64, default_timeout_ms: i64, excluded: Seq<Seq<char>>|
            !selects(#[trigger] stale_filter(now, default_timeout_ms, excluded), before) by {
            ended_task_is_out_of_reach(
                before,
                Seq::empty(),
                Seq::empty(),
                Seq::empty(),
                now,
                default_timeout_ms,
                excluded,
                Seq::empty(),
                None,
            );
        }
        assert forall|
            id: Seq<u8>,
            known: Option<Seq<char>>,
            now: i64,
            default_timeout_ms: i64,
            excluded: Seq<Seq<char>>,
        |
            !selects(
                #[trigger] expired_filter(id, known, now, default_timeout_ms, excluded),
                before,
            ) by {
            ended_task_is_out_of_reach(
                before,
                Seq::empty(),
                Seq::empty(),
                Seq::empty(),
                now,
                default_timeout_ms,
                excluded,
                id,
                known,
            );
        }
        assert forall|worker_id: Seq<char>| !selects(#[trigger] running_under(worker_id), before) by {
            assert(!selects(own_running_filter(worker_id, Seq::empty()), before));
        }
        assert forall|task_id: Seq<char>|
            !selects(#[trigger] enqueue_filter(task_id, false), before) by {
            enqueue_reaches(before, task_id, false);
        }
        assert(!selects(own_running_filter(Seq::empty(), Seq::empty()), before));
    }
}

/// A task that runs under a worker's id when the worker is told to stop, in flight or not, has failed
/// with a shutdown reason when the worker's loop ends: the sweep selects it and makes it so, and
/// through everything that workers and callers write to it until then, its own handler among them, it
/// stays so, unless a caller enqueues it again. `history` holds the document from the sweep on.
pub proof fn running_task_has_failed_after_shutdown(
    before: Fields,
    history: Seq<Fields>,
    worker_id: Seq<char>,
    updated_at: i64,
    finished_at: i64,
)
    requires
        is_running(before),
        worker_field(before, "worker_id"@) == Some(BsonValue::Str(worker_id)),
        history.len() > 0,
        updates(set_update(shutdown_changes(updated_at, finished_at)), before, history[0], false),
        forall|i: int| 0 <= i < history.len() - 1 ==> may_become(#[trigger] history[i], history[i + 1]),
    ensures
        selects(running_under(worker_id), before),
        str_field(history.last(), "status"@) == Some("failed"@),
        evaluation(history.last()) == Evaluation::Failed("worker shut down"@),
        worker_field(history.last(), "shutdown_reason"@) == Some(
            BsonValue::Str("worker shut down"@),
        ),
    decreases history.len(),
{
    shutdown_fails_what_runs(
        before,
        history[0],
        worker_id,
        updated_at,
        finished_at,
        worker_id,
        worker_id,
    );
    statuses_differ();
    assert(is_finished(history[0]));
    if history.len() > 1 {
        let earlier = history.drop_last();
        let n = history.len() as int;
        assert(earlier[0] == history[0]);
        assert forall|i: int| 0 <= i < earlier.len() - 1 implies may_become(
            #[trigger] earlier[i],
            earlier[i + 1],
        ) by {
            assert(earlier[i] == history[i] && earlier[i + 1] == history[i + 1]);
        }
        running_task_has_failed_after_shutdown(
            before,
            earlier,
            worker_id,
            updated_at,
            finished_at,
        );
        assert(earlier.last() == history[n - 2]);
        assert(may_become(history[n - 2], history[n - 1]));
        finished_stays(history[n - 2], history[n - 1]);
    }
}

/// A condition with one operator holds where the operator does.
pub(crate) proof fn one_operator(value: Option<BsonValue>, name: Seq<char>, operand: BsonValue)
    ensures
        condition_holds(value, operator(name, operand)) == operator_holds(value, name, operand),
{
    let operators = no_fields().insert(name, operand);
    assert(operators.dom().contains(name));
    assert(operators[name] == operand);
    if operator_holds(value, name, operand) {
        assert forall|other: Seq<char>| #[trigger] operators.dom().contains(other) implies
            operator_holds(value, other, operators[other]) by {
            assert(other == name);
        }
    }
    assert(operators_hold(value, operators) == operator_holds(value, name, operand));
}

/// Whether a task id is one of several.
pub open spec fn has_id_among(task: Fields, task_ids: Seq<Seq<char>>) -> bool {
    str_field(task, "task_id"@) matches Some(task_id) && task_ids.contains(task_id)
}

/// What the condition on excluded ids means.
proof fn not_in_means(task: Fields, task_ids: Seq<Seq<char>>)
    ensures
        condition_holds(lookup(task, "task_id"@), not_in(task_ids)) <==> !has_id_among(
            task,
            task_ids,
        ),
{
    condition_names_differ();
    paths_lead(task);
    let values = str_values(task_ids);
    one_operator(lookup(task, "task_id"@), "$nin"@, BsonValue::Array(values));
    if has_id_among(task, task_ids) {
        let task_id = str_field(task, "task_id"@)->0;
        let i = choose|i: int| 0 <= i < task_ids.len() && task_ids[i] == task_id;
        assert(values[i] == BsonValue::Str(task_id));
    } else {
        match field(task, "task_id"@) {
            Some(value) => {
                if values.contains(value) {
                    let i = choose|i: int| 0 <= i < values.len() && values[i] == value;
                    assert(values[i] == BsonValue::Str(task_ids[i]));
                }
            },
            None => {},
        }
    }
}

/// The filter for a worker's own tasks selects those that run under its id and that it does not have
/// in flight.
pub proof fn own_running_means(task: Fields, worker_id: Seq<char>, excluded: Seq<Seq<char>>)
    ensures
        selects(own_running_filter(worker_id, excluded), task) <==> is_running(task)
            && worker_field(task, "worker_id"@) == Some(BsonValue::Str(worker_id)) && !has_id_among(
            task,
            excluded,
        ),
{
    let filter = own_running_filter(worker_id, excluded);
    task_names_differ();
    paths_lead(task);
    not_in_means(task, excluded);
    selects_without_alternatives(filter, task);
    assert(filter.dom().contains("status"@));
    assert(filter.dom().contains("worker_state.worker_id"@));
    assert(filter.dom().contains("task_id"@));
}

/// The filter for waiting tasks selects those.
pub proof fn pending_means(task: Fields)
    ensures
        selects(pending_filter(), task) <==> is_pending(task),
{
    let filter = pending_filter();
    task_names_differ();
    paths_lead(task);
    selects_without_alternatives(filter, task);
    assert(filter.dom().contains("status"@));
}

/// The claims of ready tasks reach a task that waits, and a task left running under the worker's own
/// id that the worker does not have in flight; they reach no other task, in particular none that
/// runs under another worker's id, however old its heartbeat.
pub proof fn ready_claims_reach(
    task: Fields,
    worker_id: Seq<char>,
    now: i64,
    default_timeout_ms: i64,
    excluded: Seq<Seq<char>>,
)
    ensures
        ({
            let filters = claim_filters(
                ClaimMode::Ready,
                worker_id,
                now,
                default_timeout_ms,
                excluded,
            );
            (exists|i: int| 0 <= i < filters.len() && selects(#[trigger] filters[i], task))
                <==> is_pending(task) || (is_running(task) && worker_field(task, "worker_id"@)
                == Some(BsonValue::Str(worker_id)) && !has_id_among(task, excluded))
        }),
{
    let filters = claim_filters(ClaimMode::Ready, worker_id, now, default_timeout_ms, excluded);
    pending_means(task);
    own_running_means(task, worker_id, excluded);
    assert(filters[0] == pending_filter());
    assert(filters[1] == own_running_filter(worker_id, excluded));
}

/// The number of milliseconds that a stale claim adds to the last heartbeat, as a value.
pub open spec fn stale_timeout(task: Fields, default_timeout_ms: i64) -> Option<BsonValue> {
    match field(task, "worker_switch_timeout"@) {
        None | Some(BsonValue::Null) => match worker_field(task, "switch_timeout_ms"@) {
            None | Some(BsonValue::Null) => Some(BsonValue::Int64(default_timeout_ms)),
            recorded => recorded,
        },
        own => own,
    }
}

/// The filter for stale tasks selects the running tasks that are not excluded and whose heartbeat
/// plus timeout has passed.
pub proof fn stale_means(
    task: Fields,
    now: i64,
    default_timeout_ms: i64,
    excluded: Seq<Seq<char>>,
)
    ensures
        selects(stale_filter(now, default_timeout_ms, excluded), task) <==> {
            &&& is_running(task)
            &&& !has_id_among(task, excluded)
            &&& match (
                heartbeat_of(task),
                whole_number(stale_timeout(task, default_timeout_ms)),
            ) {
                (Some(heartbeat_at), Some(millis)) => i64::MIN <= heartbeat_at + millis <= now,
                _ => false,
            }
        },
{
    let filter = stale_filter(now, default_timeout_ms, excluded);
    task_names_differ();
    condition_names_differ();
    paths_lead(task);
    not_in_means(task, excluded);
    selects_without_alternatives(filter, task);
    assert(filter.dom().contains("status"@));
    assert(filter.dom().contains("task_id"@));
    assert(filter.dom().contains("worker_state.heartbeat_at"@));
    assert(filter.dom().contains("$expr"@));
    one_operator(
        lookup(task, "worker_state.heartbeat_at"@),
        "$type"@,
        BsonValue::Str("date"@),
    );
    assert(condition_holds(
        lookup(task, "worker_state.heartbeat_at"@),
        filter["worker_state.heartbeat_at"@],
    ) <==> heartbeat_of(task) is Some);
    stale_expression_means(task, now, default_timeout_ms);
}

/// The value of the expression in the filter for stale tasks.
proof fn stale_expression_means(task: Fields, now: i64, default_timeout_ms: i64)
    ensures
        ({
            let expression = binary(
                "$lte"@,
                expiry_expression(default_timeout_ms),
                BsonValue::Date(now),
            );
            evaluate(expression, task, nesting()) == Some(BsonValue::Bool(true)) <==> match (
                heartbeat_of(task),
                whole_number(stale_timeout(task, default_timeout_ms)),
            ) {
                (Some(heartbeat_at), Some(millis)) => i64::MIN <= heartbeat_at + millis <= now,
                _ => false,
            }
        }),
{
    paths_lead(task);
    field_expressions_mean(task);
    let heartbeat = BsonValue::Str("$worker_state.heartbeat_at"@);
    let recorded = binary(
        "$ifNull"@,
        BsonValue::Str("$worker_state.switch_timeout_ms"@),
        BsonValue::Int64(default_timeout_ms),
    );
    let own = binary("$ifNull"@, BsonValue::Str("$worker_switch_timeout"@), recorded);
    if_null_means(
        BsonValue::Str("$worker_state.switch_timeout_ms"@),
        BsonValue::Int64(default_timeout_ms),
        task,
        2,
    );
    if_null_means(BsonValue::Str("$worker_switch_timeout"@), recorded, task, 3);
    add_means(heartbeat, own, task, 4);
    lte_means(expiry_expression(default_timeout_ms), BsonValue::Date(now), task, 5);
}

/// Strings that stand for fields in the expression of the filter for stale tasks.
proof fn field_expressions_mean(task: Fields)
    ensures
        forall|depth: nat| #[trigger]
            evaluate(BsonValue::Str("$worker_state.heartbeat_at"@), task, depth) == lookup(
                task,
                "worker_state.heartbeat_at"@,
            ),
        forall|depth: nat| #[trigger]
            evaluate(BsonValue::Str("$worker_switch_timeout"@), task, depth) == lookup(
                task,
                "worker_switch_timeout"@,
            ),
        forall|depth: nat| #[trigger]
            evaluate(BsonValue::Str("$worker_state.switch_timeout_ms"@), task, depth) == lookup(
                task,
                "worker_state.switch_timeout_ms"@,
            ),
{
    reveal_strlit("$worker_state.heartbeat_at");
    reveal_strlit("$worker_switch_timeout");
    reveal_strlit("$worker_state.switch_timeout_ms");
    reveal_strlit("worker_state.heartbeat_at");
    reveal_strlit("worker_switch_timeout");
    reveal_strlit("worker_state.switch_timeout_ms");
    assert("$worker_state.heartbeat_at"@.skip(1) =~= "worker_state.heartbeat_at"@);
    assert("$worker_switch_timeout"@.skip(1) =~= "worker_switch_timeout"@);
    assert("$worker_state.switch_timeout_ms"@.skip(1) =~= "worker_state.switch_timeout_ms"@);
}

/// The value of `$ifNull`.
proof fn if_null_means(first: BsonValue, second: BsonValue, task: Fields, depth: nat)
    requires
        depth > 0,
    ensures
        evaluate(binary("$ifNull"@, first, second), task, depth) == match evaluate(
            first,
            task,
            (depth - 1) as nat,
        ) {
            None | Some(BsonValue::Null) => evaluate(second, task, (depth - 1) as nat),
            value => value,
        },
{
    expression_names_differ();
    let operators = no_fields().insert("$ifNull"@, BsonValue::Array(seq![first, second]));
    assert(operators.dom().contains("$ifNull"@));
    assert(!operators.dom().contains("$add"@));
}

/// The value of `$add`.
proof fn add_means(first: BsonValue, second: BsonValue, task: Fields, depth: nat)
    requires
        depth > 0,
    ensures
        evaluate(binary("$add"@, first, second), task, depth) == date_sum(
            evaluate(first, task, (depth - 1) as nat),
            evaluate(second, task, (depth - 1) as nat),
        ),
{
    let operators = no_fields().insert("$add"@, BsonValue::Array(seq![first, second]));
    assert(operators.dom().contains("$add"@));
}

/// The value of `$lte`.
proof fn lte_means(first: BsonValue, second: BsonValue, task: Fields, depth: nat)
    requires
        depth > 0,
    ensures
        evaluate(binary("$lte"@, first, second), task, depth) == match (
            evaluate(first, task, (depth - 1) as nat),
            evaluate(second, task, (depth - 1) as nat),
        ) {
            (Some(BsonValue::Date(left)), Some(BsonValue::Date(right))) => Some(
                BsonValue::Bool(left <= right),
            ),
            _ => None,
        },
{
    expression_names_differ();
    let operators = no_fields().insert("$lte"@, BsonValue::Array(seq![first, second]));
    assert(operators.dom().contains("$lte"@));
    assert(!operators.dom().contains("$add"@));
    assert(!operators.dom().contains("$ifNull"@));
}

/// A condition with an id and excluded ids holds where the task has that id and it is none of those.
proof fn is_and_not_in_means(task: Fields, task_id: Seq<char>, task_ids: Seq<Seq<char>>)
    ensures
        condition_holds(lookup(task, "task_id"@), is_and_not_in(task_id, task_ids)) <==> field(
            task,
            "task_id"@,
        ) == Some(BsonValue::Str(task_id)) && !has_id_among(task, task_ids),
{
    condition_names_differ();
    paths_lead(task);
    not_in_means(task, task_ids);
    let value = lookup(task, "task_id"@);
    let excluded = BsonValue::Array(str_values(task_ids));
    one_operator(value, "$nin"@, excluded);
    let operators = no_fields().insert("$eq"@, BsonValue::Str(task_id)).insert("$nin"@, excluded);
    assert(operators.dom().contains("$eq"@));
    assert(operators.dom().contains("$nin"@));
    assert(operators["$eq"@] == BsonValue::Str(task_id));
    assert(operators["$nin"@] == excluded);
    assert forall|name: Seq<char>| #[trigger] operators.dom().contains(name) implies name == "$eq"@
        || name == "$nin"@ by {}
    assert(operators_hold(value, operators) <==> operator_holds(
        value,
        "$eq"@,
        BsonValue::Str(task_id),
    ) && operator_holds(value, "$nin"@, excluded));
}

/// The claim for one expired task selects a document where the stale filter does, with the same ids
/// excluded, and where it is that document, under that task id if one is known.
pub proof fn expired_claim_reaches(
    task: Fields,
    id: Seq<u8>,
    known: Option<Seq<char>>,
    now: i64,
    default_timeout_ms: i64,
    in_flight: Seq<Seq<char>>,
)
    ensures
        selects(expired_filter(id, known, now, default_timeout_ms, in_flight), task) <==> {
            &&& selects(stale_filter(now, default_timeout_ms, in_flight), task)
            &&& field(task, "_id"@) == Some(BsonValue::ObjectId(id))
            &&& known matches Some(task_id) ==> field(task, "task_id"@) == Some(
                BsonValue::Str(task_id),
            )
        },
{
    task_names_differ();
    paths_lead(task);
    let stale = stale_filter(now, default_timeout_ms, in_flight);
    let expired = expired_filter(id, known, now, default_timeout_ms, in_flight);
    selects_without_alternatives(stale, task);
    selects_without_alternatives(expired, task);
    not_in_means(task, in_flight);
    if let Some(task_id) = known {
        is_and_not_in_means(task, task_id, in_flight);
    }
    assert(stale.dom().contains("task_id"@));
    assert(expired.dom().contains("_id"@));
    assert(expired.dom().contains("task_id"@));
    assert forall|path: Seq<char>| #[trigger]
        stale.dom().contains(path) && path != "task_id"@ implies expired.dom().contains(path)
        && expired[path] == stale[path] by {}
    assert forall|path: Seq<char>| #[trigger]
        expired.dom().contains(path) && path != "task_id"@ && path
            != "_id"@ implies stale.dom().contains(path) && expired[path] == stale[path] by {}
}

/// No claim goes for a task that the worker has in flight, however old its heartbeat: neither that
/// for the next ready or stale task nor that for an expired one, whether its id is known or not.
pub proof fn claims_spare_tasks_in_flight(
    task: Fields,
    worker_id: Seq<char>,
    now: i64,
    default_timeout_ms: i64,
    in_flight: Seq<Seq<char>>,
    id: Seq<u8>,
    known: Option<Seq<char>>,
)
    requires
        is_running(task),
        has_id_among(task, in_flight),
    ensures
        !selects(pending_filter(), task),
        !selects(own_running_filter(worker_id, in_flight), task),
        !selects(stale_filter(now, default_timeout_ms, in_flight), task),
        !selects(expired_filter(id, known, now, default_timeout_ms, in_flight), task),
{
    statuses_differ();
    pending_means(task);
    own_running_means(task, worker_id, in_flight);
    stale_means(task, now, default_timeout_ms, in_flight);
    expired_claim_reaches(task, id, known, now, default_timeout_ms, in_flight);
}

/// Whether the timeouts that a task document carries are absent or stored as this library stores
/// them.
pub open spec fn has_proper_timeouts(task: Fields) -> bool {
    &&& field(task, "worker_switch_timeout"@) matches Some(value) ==> (value matches
        BsonValue::Int64(millis) && millis >= 0)
    &&& worker_field(task, "switch_timeout_ms"@) matches Some(value) ==> (value matches
        BsonValue::Int64(millis) && millis >= 0)
}

/// The table of deadlines and the stale filter agree: a running task that is not excluded is
/// selected by the filter exactly from the deadline on under which the table holds it. So a wake-up
/// at a deadline finds its task claimable unless a newer heartbeat came in between, and a stale task
/// that is not in flight can always be claimed. (Deadlines must be instants that 64 bits can hold.)
pub proof fn stale_filter_agrees_with_deadlines(
    task: Fields,
    now: i64,
    worker_switch_timeout: Duration,
    excluded: Seq<Seq<char>>,
)
    requires
        has_proper_timeouts(task),
        duration_millis(worker_switch_timeout) <= i64::MAX,
        heartbeat_of(task) matches Some(heartbeat_at) ==> heartbeat_at + timeout_millis(
            stored_switch_timeout(task),
            worker_switch_timeout,
        ) <= i64::MAX,
    ensures
        selects(stale_filter(now, stored_millis(worker_switch_timeout), excluded), task) <==> {
            &&& is_running(task)
            &&& !has_id_among(task, excluded)
            &&& deadline_of_task(task, worker_switch_timeout) matches Some(deadline) && deadline
                <= now
        },
{
    stale_means(task, now, stored_millis(worker_switch_timeout), excluded);
}

/// A task's own switch timeout is the one that counts once the task is claimed, whatever timeout the
/// worker has: the task expires that long after the claim.
pub proof fn own_timeout_counts(
    before: Fields,
    after: Fields,
    own_timeout_ms: i64,
    worker_id: Seq<char>,
    claim_token: Seq<char>,
    claim_started_at: i64,
    switch_timeout_ms: i64,
    fallback: Duration,
)
    requires
        updates(
            set_update(claim_changes(worker_id, claim_token, claim_started_at, switch_timeout_ms)),
            before,
            after,
            false,
        ),
        i64_field(before, "worker_switch_timeout"@) == Some(own_timeout_ms),
        own_timeout_ms >= 0,
    ensures
        deadline_of_task(after, fallback) == Some(
            deadline_in(claim_started_at, own_timeout_ms as nat),
        ),
{
    let changes = claim_changes(worker_id, claim_token, claim_started_at, switch_timeout_ms);
    task_names_differ();
    worker_names_differ();
    paths_lead(before);
    paths_lead(after);
    set_update_means(changes, before, after, false);
    claim_leaves_alone(worker_id, claim_token, claim_started_at, switch_timeout_ms);
    assert(changes.dom().contains("worker_state"@));
    assert(doc_field(after, "worker_state"@) == Some(
        claimed_state(worker_id, claim_token, claim_started_at, switch_timeout_ms),
    ));
}

/// Whether a task has finished.
pub open spec fn is_finished(task: Fields) -> bool {
    str_field(task, "status"@) == Some("succeeded"@) || str_field(task, "status"@) == Some(
        "failed"@,
    )
}

/// What the filter for enqueuing means: it reaches a task of that id only where finished tasks may
/// be reset and the task has finished. Whatever has a status and is not so is out of its reach: a
/// request under a taken id leaves the task that holds it as it is.
pub proof fn enqueue_reaches(task: Fields, task_id: Seq<char>, allow_reset: bool)
    ensures
        selects(enqueue_filter(task_id, allow_reset), task) <==> field(task, "task_id"@) == Some(
            BsonValue::Str(task_id),
        ) && (field(task, "status"@) is None || (allow_reset && is_finished(task))),
{
    let filter = enqueue_filter(task_id, allow_reset);
    task_names_differ();
    condition_names_differ();
    paths_lead(task);
    let status = lookup(task, "status"@);
    one_operator(status, "$exists"@, BsonValue::Bool(false));
    if !allow_reset {
        selects_without_alternatives(filter, task);
        assert(filter.dom().contains("task_id"@));
        assert(filter.dom().contains("status"@));
    } else {
        let plain = filter.remove("$or"@);
        assert(plain =~= no_fields().insert("task_id"@, BsonValue::Str(task_id)));
        assert(plain.dom().contains("task_id"@));
        assert(filter.dom().contains("$or"@));
        let finished = seq![BsonValue::Str("succeeded"@), BsonValue::Str("failed"@)];
        one_operator(status, "$in"@, BsonValue::Array(finished));
        assert(finished[0] == BsonValue::Str("succeeded"@));
        assert(finished[1] == BsonValue::Str("failed"@));
        assert(operator_holds(status, "$in"@, BsonValue::Array(finished)) <==> is_finished(task));
        assert(no_status().dom().contains("status"@));
        assert(finished_status().dom().contains("status"@));
        let alternatives = seq![BsonValue::Doc(no_status()), BsonValue::Doc(finished_status())];
        assert(alternative_selects(alternatives[0], task) <==> field(task, "status"@) is None);
        assert(alternative_selects(alternatives[1], task) <==> is_finished(task));
        assert(filter["$or"@] == BsonValue::Array(alternatives));
        assert(one_selects(alternatives, task) <==> (field(task, "status"@) is None || is_finished(
            task,
        ))) by {
            if one_selects(alternatives, task) {
                let i = choose|i: int|
                    0 <= i < alternatives.len() && #[trigger] alternative_selects(
                        alternatives[i],
                        task,
                    );
                assert(i == 0 || i == 1);
            }
        }
    }
}

/// A task that has been enqueued, for the first time or again, waits for a worker with the payload of
/// the request; nothing is left of an earlier life: no outcome, no worker, no failure.
pub proof fn enqueued_task_is_ready(
    before: Fields,
    after: Fields,
    inserting: bool,
    task_id: Seq<char>,
    payload: BsonValue,
    now: i64,
    worker_switch_timeout_ms: i64,
    request_timeout_ms: Option<i64>,
    trace_context: Option<TraceIds>,
)
    requires
        updates(
            enqueue_update(
                task_id,
                payload,
                now,
                worker_switch_timeout_ms,
                request_timeout_ms,
                trace_context,
            ),
            before,
            after,
            inserting,
        ),
    ensures
        is_pending(after),
        selects(pending_filter(), after),
        evaluation(after) == Evaluation::Undecided,
        field(after, "task_id"@) == Some(BsonValue::Str(task_id)),
        field(after, "idempotency_key"@) == Some(BsonValue::Str(task_id)),
        field(after, "request_timeout"@) == Some(
            match request_timeout_ms {
                Some(millis) => BsonValue::Int64(millis),
                None => BsonValue::Null,
            },
        ),
        field(after, "task_input"@) == Some(payload),
        field(after, "updated_at"@) == Some(BsonValue::Date(now)),
        i64_field(after, "worker_switch_timeout"@) == Some(worker_switch_timeout_ms),
        field(after, "trace_context"@) == Some(
            match trace_context {
                Some(ids) => BsonValue::Doc(ids.stored()),
                None => BsonValue::Null,
            },
        ),
        field(after, "task_output"@) is None,
        field(after, "error_reason"@) is None,
        field(after, "worker_state"@) is None,
        inserting ==> field(after, "created_at"@) == Some(BsonValue::Date(now)),
{
    let update = enqueue_update(
        task_id,
        payload,
        now,
        worker_switch_timeout_ms,
        request_timeout_ms,
        trace_context,
    );
    let changes = enqueue_changes(
        task_id,
        payload,
        now,
        worker_switch_timeout_ms,
        request_timeout_ms,
        trace_context,
    );
    let removals = enqueue_removals();
    let on_insert = no_fields().insert("created_at"@, BsonValue::Date(now));
    update_names_differ();
    task_names_differ();
    statuses_differ();
    paths_lead(after);
    assert(update_part(update, "$set"@) == changes);
    assert(update_part(update, "$unset"@) == removals);
    assert(update_part(update, "$setOnInsert"@) == on_insert);
    request_names_differ();
    request_paths_lead(after);
    assert(changes.dom().contains("task_id"@));
    assert(changes.dom().contains("idempotency_key"@));
    assert(changes.dom().contains("request_timeout"@));
    assert(changes.dom().contains("task_input"@));
    assert(changes.dom().contains("status"@));
    assert(changes.dom().contains("updated_at"@));
    assert(changes.dom().contains("worker_switch_timeout"@));
    assert(changes.dom().contains("trace_context"@));
    assert(removals.dom().contains("task_output"@));
    assert(removals.dom().contains("error_reason"@));
    assert(removals.dom().contains("worker_state"@));
    assert(on_insert.dom().contains("created_at"@));
    pending_means(after);
}

/// A task that is enqueued again is the same document still: it keeps its object id and the instant
/// at which it was first enqueued.
pub proof fn reset_keeps_the_document(
    before: Fields,
    after: Fields,
    task_id: Seq<char>,
    payload: BsonValue,
    now: i64,
    worker_switch_timeout_ms: i64,
    request_timeout_ms: Option<i64>,
    trace_context: Option<TraceIds>,
)
    requires
        updates(
            enqueue_update(
                task_id,
                payload,
                now,
                worker_switch_timeout_ms,
                request_timeout_ms,
                trace_context,
            ),
            before,
            after,
            false,
        ),
    ensures
        field(after, "_id"@) == field(before, "_id"@),
        field(after, "created_at"@) == field(before, "created_at"@),
{
    let update = enqueue_update(
        task_id,
        payload,
        now,
        worker_switch_timeout_ms,
        request_timeout_ms,
        trace_context,
    );
    let changes = enqueue_changes(
        task_id,
        payload,
        now,
        worker_switch_timeout_ms,
        request_timeout_ms,
        trace_context,
    );
    let removals = enqueue_removals();
    update_names_differ();
    assert(update_part(update, "$set"@) == changes);
    assert(update_part(update, "$unset"@) == removals);
    reveal_strlit("_id");
    reveal_strlit("created_at");
    reveal_strlit("task_id");
    reveal_strlit("idempotency_key");
    reveal_strlit("task_input");
    reveal_strlit("status");
    reveal_strlit("updated_at");
    reveal_strlit("worker_switch_timeout");
    reveal_strlit("request_timeout");
    reveal_strlit("trace_context");
    reveal_strlit("task_output");
    reveal_strlit("error_reason");
    reveal_strlit("worker_state");
    assert forall|path: Seq<char>|
        path.len() > 0 && (path[0] == '_' || path[0] == 'c') implies #[trigger] is_untouched(
        path,
        changes,
    ) && is_untouched(path, removals) by {
        unrelated_at(path, "task_id"@, 0);
        unrelated_at(path, "idempotency_key"@, 0);
        unrelated_at(path, "task_input"@, 0);
        unrelated_at(path, "status"@, 0);
        unrelated_at(path, "updated_at"@, 0);
        unrelated_at(path, "worker_switch_timeout"@, 0);
        unrelated_at(path, "request_timeout"@, 0);
        unrelated_at(path, "trace_context"@, 0);
        unrelated_at(path, "task_output"@, 0);
        unrelated_at(path, "error_reason"@, 0);
        unrelated_at(path, "worker_state"@, 0);
    }
    assert(is_untouched("_id"@, changes) && is_untouched("_id"@, removals));
    assert(is_untouched("created_at"@, changes) && is_untouched("created_at"@, removals));
    paths_lead(before);
    paths_lead(after);
}

/// A request under an id that is taken is refused, and the task that holds the id stays as it is:
/// its document is out of the reach of the upsert, whatever id the request names. Only a task that
/// has finished gives its id back, and only where that is allowed.
pub proof fn taken_id_is_out_of_reach(task: Fields, task_id: Seq<char>, allow_reset: bool)
    requires
        field(task, "status"@) is Some,
    ensures
        !(allow_reset && is_finished(task)) ==> !selects(
            enqueue_filter(task_id, allow_reset),
            task,
        ),
        allow_reset && is_finished(task) && field(task, "task_id"@) == Some(
            BsonValue::Str(task_id),
        ) ==> selects(enqueue_filter(task_id, allow_reset), task),
{
    enqueue_reaches(task, task_id, allow_reset);
}

/// What a handler returns is what the caller gets: once the write with which the worker answers a
/// successful handler has found the task, the caller's wait ends with that output.
pub proof fn handler_output_reaches_caller(
    state: TaskState,
    before: Fields,
    after: Fields,
    output: BsonValue,
    updated_at: i64,
    finished_at: i64,
)
    requires
        state.phase is Running,
        state.next(
            TaskInput::HandlerSucceeded(Some(output)),
            updated_at,
            finished_at,
        ).1 matches TaskStep::Complete { update, .. } && updates(update, before, after, false),
    ensures
        decides(state.task_id, Some(after)) == Some(Ok::<BsonValue, Failure>(output)),
{
    success_is_read_back(
        before,
        after,
        output,
        updated_at,
        finished_at,
        state.task_id,
        state.worker_id,
        state.claim_token,
    );
}

/// The error of a handler reaches the caller: once the write with which the worker answers it has
/// found the task, the caller's wait ends with a failure that gives the error in words.
pub proof fn handler_error_reaches_caller(
    state: TaskState,
    before: Fields,
    after: Fields,
    failure: Failure,
    updated_at: i64,
    finished_at: i64,
)
    requires
        state.phase is Running,
        state.next(
            TaskInput::HandlerFailed(failure),
            updated_at,
            finished_at,
        ).1 matches TaskStep::MarkFailed { update, .. } && updates(update, before, after, false),
    ensures
        decides(state.task_id, Some(after)) == Some(
            Err::<BsonValue, Failure>(
                Failure::TaskFailed("handler error: "@ + failure.message()),
            ),
        ),
{
    failure_is_read_back(
        before,
        after,
        "handler error: "@ + failure.message(),
        updated_at,
        finished_at,
        state.task_id,
        state.worker_id,
        state.claim_token,
    );
}

/// A payload that the worker cannot read fails the task, and the caller learns that the payload was
/// the reason.
pub proof fn unreadable_payload_reaches_caller(
    state: TaskState,
    before: Fields,
    after: Fields,
    updated_at: i64,
    finished_at: i64,
)
    requires
        state.phase is Decoding,
        state.next(TaskInput::Decoded(false), updated_at, finished_at).1 matches
            TaskStep::MarkFailed { update, .. } && updates(update, before, after, false),
    ensures
        decides(state.task_id, Some(after)) == Some(
            Err::<BsonValue, Failure>(
                Failure::TaskFailed(
                    "infrastructure error: "@ + ("payload format mismatch in "@ + "task_input"@),
                ),
            ),
        ),
{
    failure_is_read_back(
        before,
        after,
        "infrastructure error: "@ + Failure::PayloadFormat("task_input"@).message(),
        updated_at,
        finished_at,
        state.task_id,
        state.worker_id,
        state.claim_token,
    );
}

/// Whether an update is one that callers and workers send, other than a claim with this token.
pub open spec fn is_update_without(update: Fields, claim_token: Seq<char>) -> bool {
    ||| exists|now: i64| update == set_update(#[trigger] heartbeat_changes(now))
    ||| exists|output: BsonValue, updated_at: i64, finished_at: i64|
        update == set_update(#[trigger] success_changes(output, updated_at, finished_at))
    ||| exists|reason: Seq<char>, updated_at: i64, finished_at: i64|
        update == set_update(#[trigger] failure_changes(reason, updated_at, finished_at))
    ||| exists|updated_at: i64, finished_at: i64|
        update == set_update(#[trigger] shutdown_changes(updated_at, finished_at))
    ||| exists|worker_id: Seq<char>, token: Seq<char>, started_at: i64, timeout_ms: i64|
        token != claim_token && update == set_update(
            #[trigger] claim_changes(worker_id, token, started_at, timeout_ms),
        )
    ||| exists|
        task_id: Seq<char>,
        payload: BsonValue,
        now: i64,
        timeout_ms: i64,
        request_timeout_ms: Option<i64>,
        trace_context: Option<TraceIds>,
    |
        update == #[trigger] enqueue_update(
            task_id,
            payload,
            now,
            timeout_ms,
            request_timeout_ms,
            trace_context,
        )
}

/// Ownership that was lost stays lost: whatever callers and workers write to the document, short of a
/// claim with the very token, the claim does not come to own the task again.
pub proof fn lost_ownership_stays_lost(
    before: Fields,
    after: Fields,
    update: Fields,
    inserting: bool,
    task_id: Seq<char>,
    worker_id: Seq<char>,
    claim_token: Seq<char>,
)
    requires
        !selects(ownership(task_id, worker_id, claim_token), before),
        updates(update, before, after, inserting),
        is_update_without(update, claim_token),
    ensures
        !selects(ownership(task_id, worker_id, claim_token), after),
{
    task_names_differ();
    worker_names_differ();
    statuses_differ();
    paths_lead(before);
    paths_lead(after);
    ownership_means(before, task_id, worker_id, claim_token);
    ownership_means(after, task_id, worker_id, claim_token);
    if exists|now: i64| update == set_update(#[trigger] heartbeat_changes(now)) {
        let now = choose|now: i64| update == set_update(#[trigger] heartbeat_changes(now));
        set_update_means(heartbeat_changes(now), before, after, inserting);
        heartbeat_leaves_alone(now);
    } else if exists|
        task_id: Seq<char>,
        payload: BsonValue,
        now: i64,
        timeout_ms: i64,
        request_timeout_ms: Option<i64>,
        trace_context: Option<TraceIds>,
    |
        update == #[trigger] enqueue_update(
            task_id,
            payload,
            now,
            timeout_ms,
            request_timeout_ms,
            trace_context,
        ) {
        let (enqueued_id, payload, now, timeout_ms, request_timeout_ms, trace_context) = choose|
            task_id: Seq<char>,
            payload: BsonValue,
            now: i64,
            timeout_ms: i64,
            request_timeout_ms: Option<i64>,
            trace_context: Option<TraceIds>,
        |
            update == #[trigger] enqueue_update(
                task_id,
                payload,
                now,
                timeout_ms,
                request_timeout_ms,
                trace_context,
            );
        enqueued_task_is_ready(
            before,
            after,
            inserting,
            enqueued_id,
            payload,
            now,
            timeout_ms,
            request_timeout_ms,
            trace_context,
        );
    } else {
        let changes = update_part(update, "$set"@);
        assert(update == set_update(changes));
        set_update_means(changes, before, after, inserting);
        assert(changes.dom().contains("status"@));
        if exists|worker_id: Seq<char>, token: Seq<char>, started_at: i64, timeout_ms: i64|
            token != claim_token && update == set_update(
                #[trigger] claim_changes(worker_id, token, started_at, timeout_ms),
            ) {
            assert(changes.dom().contains("worker_state"@));
        }
    }
}

/// A task's whole way: what a caller enqueues is what a worker finds, the claim that finds it owns
/// the task, the handler receives the caller's payload, and what the worker writes is what the
/// caller reads.
pub proof fn task_goes_round(
    absent: Fields,
    enqueued: Fields,
    claimed: Fields,
    completed: Fields,
    inserting: bool,
    task_id: Seq<char>,
    payload: BsonValue,
    enqueued_at: i64,
    own_timeout_ms: i64,
    request_timeout_ms: Option<i64>,
    trace_context: Option<TraceIds>,
    worker_id: Seq<char>,
    claim_token: Seq<char>,
    claimed_at: i64,
    switch_timeout_ms: i64,
    switch_timeout: Duration,
    output: BsonValue,
    updated_at: i64,
    finished_at: i64,
)
    requires
        updates(
            enqueue_update(
                task_id,
                payload,
                enqueued_at,
                own_timeout_ms,
                request_timeout_ms,
                trace_context,
            ),
            absent,
            enqueued,
            inserting,
        ),
        updates(
            set_update(claim_changes(worker_id, claim_token, claimed_at, switch_timeout_ms)),
            enqueued,
            claimed,
            false,
        ),
        updates(
            set_update(success_changes(output, updated_at, finished_at)),
            claimed,
            completed,
            false,
        ),
    ensures
        selects(pending_filter(), enqueued),
        selects(ownership(task_id, worker_id, claim_token), claimed),
        started(claimed, worker_id, switch_timeout, updated_at, finished_at) matches Some(
            (state, step),
        ) && step == TaskStep::Decode(payload) && state.fence() == ownership(
            task_id,
            worker_id,
            claim_token,
        ),
        evaluation(completed) == Evaluation::Succeeded(output),
{
    enqueued_task_is_ready(
        absent,
        enqueued,
        inserting,
        task_id,
        payload,
        enqueued_at,
        own_timeout_ms,
        request_timeout_ms,
        trace_context,
    );
    claim_grants_ownership(
        enqueued,
        claimed,
        task_id,
        worker_id,
        claim_token,
        claimed_at,
        switch_timeout_ms,
    );
    success_is_read_back(
        claimed,
        completed,
        output,
        updated_at,
        finished_at,
        task_id,
        worker_id,
        claim_token,
    );
    ownership_means(claimed, task_id, worker_id, claim_token);
}

} // verus!
