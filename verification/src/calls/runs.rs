//! Calls by which a worker runs a task that it has claimed.
use std::time::Duration;

use bson::{Bson, Document};
use vstd::prelude::*;

use crate::calls::changes::number_in;
use crate::calls::claims::{
    beating_means, failing_means, failure_spares, has_failed, has_succeeded, is_kept_alive,
    runs_under, succeeding_means,
};
use crate::calls::waits::description;
use crate::claim::{failure_changes, heartbeat_changes, set_update, success_changes};
use crate::database::DatabaseError;
use crate::document::{bson_value, document_fields, field, BsonValue, Fields};
use crate::error::{Failure, RequestError};
use crate::laws::ownership_means;
use crate::names::worker_field;
use crate::query::{selects, updates};
use crate::task::{
    started, stored_trace_context, Phase, TaskAction, TaskEvent, TaskRun, TaskState, WorkerJob,
};
use crate::time::duration_nanos;
use crate::trace::TraceContext;

verus! {

/// The words for a failure.
pub open spec fn words_for(failure: Failure) -> Seq<char> {
    match failure {
        Failure::Duplicate(task_id) => "duplicate idempotency key for task "@ + task_id,
        Failure::Timeout => "caller timed out waiting for response"@,
        Failure::WorkerGone => "worker crashed or disconnected before responding"@,
        Failure::WorkerTimeout => "no worker picked up the task before timeout"@,
        Failure::PayloadFormat(name) => "payload format mismatch in "@ + name,
        Failure::TaskFailed(reason) => "task failed: "@ + reason,
        Failure::Database(reason) => "database error: "@ + reason,
    }
}

/// An error describes itself in the words for its failure.
pub proof fn error_describes_itself(error: RequestError, text: String)
    requires
        call_ensures(RequestError::message, (&error,), text),
    ensures
        text@ == words_for(error@),
{
}

/// Whether a filter selects the task of a run while it runs under the claim of that run, and nothing
/// else.
pub open spec fn guards(filter: Fields, state: TaskState) -> bool {
    forall|task: Fields| #[trigger]
        selects(filter, task) <==> field(task, "task_id"@) == Some(BsonValue::Str(state.task_id))
            && runs_under(task, state.worker_id) && worker_field(task, "claim_token"@) == Some(
            BsonValue::Str(state.claim_token),
        )
}

/// Whether an update fails a task for a reason.
pub open spec fn fails_with(
    update: Fields,
    reason: Seq<char>,
    updated_at: i64,
    finished_at: i64,
) -> bool {
    forall|before: Fields, after: Fields| #[trigger]
        updates(update, before, after, false) ==> has_failed(after, reason, updated_at, finished_at)
            && failure_spares(before, after)
}

/// Whether an update stores an output.
pub open spec fn succeeds_with(
    update: Fields,
    output: BsonValue,
    updated_at: i64,
    finished_at: i64,
) -> bool {
    forall|before: Fields, after: Fields| #[trigger]
        updates(update, before, after, false) ==> has_succeeded(
            before,
            after,
            output,
            updated_at,
            finished_at,
        )
}

/// Whether an update is a heartbeat at `now`.
pub open spec fn beats(update: Fields, now: i64) -> bool {
    forall|before: Fields, after: Fields| #[trigger]
        updates(update, before, after, false) ==> is_kept_alive(before, after, now)
}

proof fn fence_guards(state: TaskState)
    ensures
        guards(state.fence(), state),
{
    assert forall|task: Fields| #[trigger]
        selects(state.fence(), task) <==> field(task, "task_id"@) == Some(
            BsonValue::Str(state.task_id),
        ) && runs_under(task, state.worker_id) && worker_field(task, "claim_token"@) == Some(
            BsonValue::Str(state.claim_token),
        ) by {
        ownership_means(task, state.task_id, state.worker_id, state.claim_token);
    }
}

proof fn failure_fails(reason: Seq<char>, updated_at: i64, finished_at: i64)
    ensures
        fails_with(
            set_update(failure_changes(reason, updated_at, finished_at)),
            reason,
            updated_at,
            finished_at,
        ),
{
    let changes = failure_changes(reason, updated_at, finished_at);
    assert forall|before: Fields, after: Fields| #[trigger]
        updates(set_update(changes), before, after, false) implies has_failed(
        after,
        reason,
        updated_at,
        finished_at,
    ) && failure_spares(before, after) by {
        failing_means(before, after, changes, reason, updated_at, finished_at);
    }
}

proof fn success_succeeds(output: BsonValue, updated_at: i64, finished_at: i64)
    ensures
        succeeds_with(
            set_update(success_changes(output, updated_at, finished_at)),
            output,
            updated_at,
            finished_at,
        ),
{
    let changes = success_changes(output, updated_at, finished_at);
    assert forall|before: Fields, after: Fields| #[trigger]
        updates(set_update(changes), before, after, false) implies has_succeeded(
        before,
        after,
        output,
        updated_at,
        finished_at,
    ) by {
        succeeding_means(before, after, output, updated_at, finished_at);
    }
}

proof fn heartbeat_beats(now: i64)
    ensures
        beats(set_update(heartbeat_changes(now)), now),
{
    let changes = heartbeat_changes(now);
    assert forall|before: Fields, after: Fields| #[trigger]
        updates(set_update(changes), before, after, false) implies is_kept_alive(
        before,
        after,
        now,
    ) by {
        beating_means(now, before, after);
    }
}

/// Whether an action writes a failure, guarded by the claim of the run.
pub open spec fn marks_failed(
    action: TaskAction,
    state: TaskState,
    reason: Seq<char>,
    updated_at: i64,
    finished_at: i64,
) -> bool {
    action matches TaskAction::MarkFailed { filter, update } && guards(
        document_fields(filter),
        state,
    ) && fails_with(document_fields(update), reason, updated_at, finished_at)
}

/// Whether a run is of the same task under the same claim.
pub open spec fn same_claim(left: TaskState, right: TaskState) -> bool {
    &&& left.task_id == right.task_id
    &&& left.worker_id == right.worker_id
    &&& left.claim_token == right.claim_token
    &&& left.switch_timeout == right.switch_timeout
}

/// Whether a run is of the task of a document, under the claim that the document records, with the
/// timeout that the document carries or else a default.
pub open spec fn is_run_of(
    state: TaskState,
    task: Fields,
    worker_id: Seq<char>,
    default: Duration,
) -> bool {
    let stored = if number_in(field(task, "worker_switch_timeout"@)) is Some {
        number_in(field(task, "worker_switch_timeout"@))
    } else {
        number_in(worker_field(task, "switch_timeout_ms"@))
    };
    &&& field(task, "task_id"@) == Some(BsonValue::Str(state.task_id))
    &&& state.worker_id == worker_id
    &&& state.claim_token == match worker_field(task, "claim_token"@) {
        Some(BsonValue::Str(token)) => token,
        _ => ""@,
    }
    &&& if stored is Some && stored->0 >= 0 {
        duration_nanos(state.switch_timeout) == stored->0 * 1_000_000
    } else {
        state.switch_timeout == default
    }
}

/// A claimed task is run where it has an id: its payload is decoded, and a task without one is failed.
pub proof fn claimed_task_starts_with_its_payload(
    doc: Document,
    worker_id: &str,
    default: Duration,
    updated_at: i64,
    finished_at: i64,
    start: Result<(TaskRun, TaskAction), RequestError>,
)
    requires
        call_ensures(TaskRun::start_at, (&doc, worker_id, default, updated_at, finished_at), start),
    ensures
        match (start, field(document_fields(doc), "task_id"@)) {
            (Ok((run, action)), Some(BsonValue::Str(_))) => {
                &&& is_run_of(run@, document_fields(doc), worker_id@, default)
                &&& match field(document_fields(doc), "task_input"@) {
                    Some(payload) => run@.phase is Decoding && (action matches TaskAction::Decode {
                        payload: value,
                    } && bson_value(value) == payload),
                    None => run@.phase == Phase::Failing(Failure::PayloadFormat("task_input"@))
                        && marks_failed(
                        action,
                        run@,
                        "infrastructure error: "@ + words_for(Failure::PayloadFormat("task_input"@)),
                        updated_at,
                        finished_at,
                    ),
                }
            },
            (Err(error), Some(BsonValue::Str(_))) => false,
            (Err(error), _) => error@ == Failure::PayloadFormat("task_id"@),
            (Ok(_), _) => false,
        },
{
    if let Ok((run, action)) = start {
        fence_guards(run@);
        failure_fails(
            "infrastructure error: "@ + words_for(Failure::PayloadFormat("task_input"@)),
            updated_at,
            finished_at,
        );
    }
}

/// A task that was claimed just now starts likewise.
pub proof fn claimed_task_starts_now(
    doc: Document,
    worker_id: &str,
    default: Duration,
    start: Result<(TaskRun, TaskAction), RequestError>,
)
    requires
        call_ensures(TaskRun::start, (&doc, worker_id, default), start),
    ensures
        start is Ok <==> (field(document_fields(doc), "task_id"@) matches Some(BsonValue::Str(_))),
        start matches Err(error) ==> error@ == Failure::PayloadFormat("task_id"@),
        start matches Ok((run, action)) ==> is_run_of(
            run@,
            document_fields(doc),
            worker_id@,
            default,
        ) && match field(document_fields(doc), "task_input"@) {
            Some(payload) => run@.phase is Decoding && (action matches TaskAction::Decode {
                payload: value,
            } && bson_value(value) == payload),
            None => run@.phase == Phase::Failing(Failure::PayloadFormat("task_input"@)) && exists|
                updated_at: i64,
                finished_at: i64,
            | #[trigger]
                marks_failed(
                    action,
                    run@,
                    "infrastructure error: "@ + words_for(Failure::PayloadFormat("task_input"@)),
                    updated_at,
                    finished_at,
                ),
        },
{
    if let Ok((run, action)) = start {
        let (updated_at, finished_at) = choose|updated_at: i64, finished_at: i64| #[trigger]
            started(
                document_fields(doc),
                worker_id@,
                run@.switch_timeout,
                updated_at,
                finished_at,
            ) == Some((run@, action@));
        let reason = "infrastructure error: "@ + words_for(Failure::PayloadFormat("task_input"@));
        fence_guards(run@);
        failure_fails(reason, updated_at, finished_at);
        if field(document_fields(doc), "task_input"@) is None {
            assert(marks_failed(action, run@, reason, updated_at, finished_at));
        }
    }
}

/// A payload that was decoded leads to a heartbeat under the claim, before the handler runs; one that
/// could not be decoded fails the task.
pub proof fn decoded_payload_leads_to_a_heartbeat(
    run: &mut TaskRun,
    decoded: bool,
    updated_at: i64,
    finished_at: i64,
    action: TaskAction,
)
    requires
        old(run)@.phase is Decoding,
        call_ensures(
            TaskRun::step_at,
            (run, TaskEvent::Decoded(decoded), updated_at, finished_at),
            action,
        ),
    ensures
        same_claim(old(run)@, final(run)@),
        decoded ==> final(run)@.phase is Confirming && (action matches TaskAction::Heartbeat {
            filter,
            update,
        } && guards(document_fields(filter), old(run)@) && beats(
            document_fields(update),
            updated_at,
        )),
        !decoded ==> final(run)@.phase == Phase::Failing(Failure::PayloadFormat("task_input"@))
            && marks_failed(
            action,
            old(run)@,
            "infrastructure error: "@ + words_for(Failure::PayloadFormat("task_input"@)),
            updated_at,
            finished_at,
        ),
{
    fence_guards(old(run)@);
    heartbeat_beats(updated_at);
    failure_fails(
        "infrastructure error: "@ + words_for(Failure::PayloadFormat("task_input"@)),
        updated_at,
        finished_at,
    );
}

/// The handler runs once a heartbeat has found the task under the claim, with three heartbeats to each
/// switch timeout. A heartbeat that found nothing ends the run, and one that failed fails the task.
pub proof fn handler_runs_once_the_claim_is_confirmed(
    run: &mut TaskRun,
    written: Result<u64, DatabaseError>,
    updated_at: i64,
    finished_at: i64,
    action: TaskAction,
)
    requires
        old(run)@.phase is Confirming,
        call_ensures(
            TaskRun::step_at,
            (run, TaskEvent::Written(written), updated_at, finished_at),
            action,
        ),
    ensures
        same_claim(old(run)@, final(run)@),
        match written {
            Ok(count) => if count > 0 {
                final(run)@.phase is Running && (action matches TaskAction::RunHandler {
                    heartbeat_interval,
                } && duration_nanos(heartbeat_interval) == duration_nanos(old(run)@.switch_timeout)
                    / 3)
            } else {
                final(run)@.phase is Finished && (action matches TaskAction::Finish(Err(error))
                    && error@ == Failure::WorkerGone)
            },
            Err(error) => final(run)@.phase == Phase::Failing(Failure::Database(description(error)))
                && marks_failed(
                action,
                old(run)@,
                "infrastructure error: "@ + words_for(Failure::Database(description(error))),
                updated_at,
                finished_at,
            ),
        },
{
    fence_guards(old(run)@);
    if let Err(error) = written {
        failure_fails(
            "infrastructure error: "@ + words_for(Failure::Database(description(error))),
            updated_at,
            finished_at,
        );
    }
}

/// The output of a handler is written under the claim; an output that could not be serialized ends the
/// run with an error that says so.
pub proof fn output_of_the_handler_is_written(
    run: &mut TaskRun,
    output: Option<Bson>,
    updated_at: i64,
    finished_at: i64,
    action: TaskAction,
)
    requires
        old(run)@.phase is Running,
        call_ensures(
            TaskRun::step_at,
            (run, TaskEvent::HandlerSucceeded(output), updated_at, finished_at),
            action,
        ),
    ensures
        same_claim(old(run)@, final(run)@),
        match output {
            Some(output) => final(run)@.phase is Completing && (action matches TaskAction::Complete {
                filter,
                update,
            } && guards(document_fields(filter), old(run)@) && succeeds_with(
                document_fields(update),
                bson_value(output),
                updated_at,
                finished_at,
            )),
            None => final(run)@.phase is Finished && (action matches TaskAction::Finish(Err(error))
                && error@ == Failure::PayloadFormat("task_output"@)),
        },
{
    fence_guards(old(run)@);
    if let Some(output) = output {
        success_succeeds(bson_value(output), updated_at, finished_at);
    }
}

/// The error of a handler is written under the claim, in words that say where it came from.
pub proof fn error_of_the_handler_is_written(
    run: &mut TaskRun,
    error: RequestError,
    updated_at: i64,
    finished_at: i64,
    action: TaskAction,
)
    requires
        old(run)@.phase is Running,
        call_ensures(
            TaskRun::step_at,
            (run, TaskEvent::HandlerFailed(error), updated_at, finished_at),
            action,
        ),
    ensures
        same_claim(old(run)@, final(run)@),
        final(run)@.phase == Phase::Failing(error@),
        marks_failed(
            action,
            old(run)@,
            "handler error: "@ + words_for(error@),
            updated_at,
            finished_at,
        ),
{
    fence_guards(old(run)@);
    failure_fails("handler error: "@ + words_for(error@), updated_at, finished_at);
}

/// A handler whose task was lost is given up, without another write.
pub proof fn lost_task_is_given_up(
    run: &mut TaskRun,
    event: TaskEvent,
    updated_at: i64,
    finished_at: i64,
    action: TaskAction,
)
    requires
        old(run)@.phase is Running,
        event is OwnershipLost,
        call_ensures(TaskRun::step_at, (run, event, updated_at, finished_at), action),
    ensures
        final(run)@.phase is Finished,
        action matches TaskAction::Finish(Err(error)) && error@ == Failure::WorkerGone,
{
}

/// A run ends well once its output was written, and with the loss of its task where the write found
/// nothing; a write that failed ends it with the error of the database.
pub proof fn run_ends_with_its_last_write(
    run: &mut TaskRun,
    written: Result<u64, DatabaseError>,
    updated_at: i64,
    finished_at: i64,
    action: TaskAction,
)
    requires
        call_ensures(
            TaskRun::step_at,
            (run, TaskEvent::Written(written), updated_at, finished_at),
            action,
        ),
    ensures
        old(run)@.phase is Completing ==> final(run)@.phase is Finished && match written {
            Ok(count) => if count > 0 {
                action matches TaskAction::Finish(Ok(_))
            } else {
                action matches TaskAction::Finish(Err(error)) && error@ == Failure::WorkerGone
            },
            Err(failure) => action matches TaskAction::Finish(Err(error)) && error@
                == Failure::Database(description(failure)),
        },
        old(run)@.phase matches Phase::Failing(failure) ==> final(run)@.phase is Finished && (action
            matches TaskAction::Finish(Err(error)) && error@ == failure),
{
}

/// Whether a run in this phase has asked for something that this event can answer.
pub open spec fn answers(phase: Phase, event: TaskEvent) -> bool {
    match phase {
        Phase::Decoding => event is Decoded,
        Phase::Confirming | Phase::Completing | Phase::Failing(_) => event is Written,
        Phase::Running => event is HandlerSucceeded || event is HandlerFailed || event
            is OwnershipLost,
        Phase::Finished => false,
    }
}

/// What a run has not asked for leaves it as it is; in particular a run that has ended stays so.
pub proof fn unasked_events_change_nothing(
    run: &mut TaskRun,
    event: TaskEvent,
    updated_at: i64,
    finished_at: i64,
    action: TaskAction,
)
    requires
        call_ensures(TaskRun::step_at, (run, event, updated_at, finished_at), action),
        !answers(old(run)@.phase, event),
    ensures
        action is Nothing,
        final(run)@ == old(run)@,
{
}

/// A step taken now is a step taken at some instants: phase and claim, what is asked for, and the end
/// of the run come out the same.
pub proof fn step_of_the_moment(run: &mut TaskRun, event: TaskEvent, action: TaskAction)
    requires
        call_ensures(TaskRun::step, (run, event), action),
    ensures
        same_claim(old(run)@, final(run)@),
        !answers(old(run)@.phase, event) ==> action is Nothing && final(run)@ == old(run)@,
        old(run)@.phase is Decoding && event == TaskEvent::Decoded(true) ==> final(run)@.phase
            is Confirming && (action matches TaskAction::Heartbeat { filter, update } && guards(
            document_fields(filter),
            old(run)@,
        ) && exists|now: i64| beats(document_fields(update), now)),
        old(run)@.phase is Decoding && event == TaskEvent::Decoded(false) ==> fails_now(
            action,
            old(run)@,
            "infrastructure error: "@ + words_for(Failure::PayloadFormat("task_input"@)),
        ) && final(run)@.phase == Phase::Failing(Failure::PayloadFormat("task_input"@)),
        old(run)@.phase is Confirming ==> (event matches TaskEvent::Written(Err(error))
            ==> fails_now(
            action,
            old(run)@,
            "infrastructure error: "@ + words_for(Failure::Database(description(error))),
        ) && final(run)@.phase == Phase::Failing(Failure::Database(description(error)))),
        old(run)@.phase is Confirming ==> (event matches TaskEvent::Written(Ok(count)) ==> if count
            > 0 {
            final(run)@.phase is Running && (action matches TaskAction::RunHandler {
                heartbeat_interval,
            } && duration_nanos(heartbeat_interval) == duration_nanos(old(run)@.switch_timeout) / 3)
        } else {
            final(run)@.phase is Finished && (action matches TaskAction::Finish(Err(error))
                && error@ == Failure::WorkerGone)
        }),
        old(run)@.phase is Running ==> (event matches TaskEvent::HandlerFailed(error) ==> fails_now(
            action,
            old(run)@,
            "handler error: "@ + words_for(error@),
        ) && final(run)@.phase == Phase::Failing(error@)),
        old(run)@.phase is Running ==> (event matches TaskEvent::HandlerSucceeded(Some(output))
            ==> final(run)@.phase is Completing && (action matches TaskAction::Complete {
            filter,
            update,
        } && guards(document_fields(filter), old(run)@) && exists|updated_at: i64, finished_at: i64|
         succeeds_with(document_fields(update), bson_value(output), updated_at, finished_at))),
        old(run)@.phase is Running && event == TaskEvent::HandlerSucceeded(None)
            ==> final(run)@.phase is Finished && (action matches TaskAction::Finish(Err(error))
            && error@ == Failure::PayloadFormat("task_output"@)),
        old(run)@.phase is Running && event is OwnershipLost ==> final(run)@.phase is Finished && (
        action matches TaskAction::Finish(Err(error)) && error@ == Failure::WorkerGone),
        old(run)@.phase is Completing ==> (event matches TaskEvent::Written(Ok(count)) ==> if count
            > 0 {
            final(run)@.phase is Finished && (action matches TaskAction::Finish(Ok(_)))
        } else {
            final(run)@.phase is Finished && (action matches TaskAction::Finish(Err(error))
                && error@ == Failure::WorkerGone)
        }),
        old(run)@.phase is Completing ==> (event matches TaskEvent::Written(Err(failure))
            ==> final(run)@.phase is Finished && (action matches TaskAction::Finish(Err(error))
            && error@ == Failure::Database(description(failure)))),
        old(run)@.phase matches Phase::Failing(failure) ==> (event is Written ==> final(run)@.phase
            is Finished && (action matches TaskAction::Finish(Err(error)) && error@ == failure)),
{
    let (updated_at, finished_at) = choose|updated_at: i64, finished_at: i64|
        (final(run)@, action@) == #[trigger] old(run)@.next(event@, updated_at, finished_at);
    fence_guards(old(run)@);
    heartbeat_beats(updated_at);
    match event {
        TaskEvent::Decoded(false) => {
            let reason = "infrastructure error: "@ + words_for(
                Failure::PayloadFormat("task_input"@),
            );
            failure_fails(reason, updated_at, finished_at);
            if old(run)@.phase is Decoding {
                assert(marks_failed(action, old(run)@, reason, updated_at, finished_at));
            }
        },
        TaskEvent::Written(Err(error)) => {
            let reason = "infrastructure error: "@ + words_for(Failure::Database(description(error)));
            failure_fails(reason, updated_at, finished_at);
            if old(run)@.phase is Confirming {
                assert(marks_failed(action, old(run)@, reason, updated_at, finished_at));
            }
        },
        TaskEvent::HandlerFailed(error) => {
            let reason = "handler error: "@ + words_for(error@);
            failure_fails(reason, updated_at, finished_at);
            if old(run)@.phase is Running {
                assert(marks_failed(action, old(run)@, reason, updated_at, finished_at));
            }
        },
        TaskEvent::HandlerSucceeded(Some(output)) => {
            success_succeeds(bson_value(output), updated_at, finished_at);
        },
        _ => {},
    }
}

/// Whether an action writes a failure now, guarded by the claim of the run.
pub open spec fn fails_now(action: TaskAction, state: TaskState, reason: Seq<char>) -> bool {
    exists|updated_at: i64, finished_at: i64| #[trigger]
        marks_failed(action, state, reason, updated_at, finished_at)
}

/// The heartbeats of a run move the heartbeat of its task, under its claim alone.
pub proof fn heartbeats_are_guarded(
    run: TaskRun,
    now: i64,
    at: (Document, Document),
    current: (Document, Document),
)
    requires
        call_ensures(TaskRun::heartbeat_at, (&run, now), at),
        call_ensures(TaskRun::heartbeat, (&run,), current),
    ensures
        guards(document_fields(at.0), run@),
        beats(document_fields(at.1), now),
        guards(document_fields(current.0), run@),
        exists|instant: i64| beats(document_fields(current.1), instant),
{
    fence_guards(run@);
    heartbeat_beats(now);
    let instant = choose|instant: i64|
        document_fields(current.1) == set_update(#[trigger] heartbeat_changes(instant));
    heartbeat_beats(instant);
    assert(beats(document_fields(current.1), instant));
}

/// A handler receives the id of its task, the payload and the tracing identifiers.
pub proof fn handler_receives_its_job<TInput>(
    run: TaskRun,
    payload: TInput,
    context: Option<TraceContext>,
    job: WorkerJob<TInput>,
    task_id: &str,
)
    requires
        call_ensures(TaskRun::job::<TInput>, (&run, payload, context), job),
        call_ensures(TaskRun::task_id, (&run,), task_id),
    ensures
        job.task_id@ == run@.task_id,
        job.payload == payload,
        job.trace_context == context,
        task_id@ == run@.task_id,
{
}

/// The tracing identifiers that a task document stores are found, unless it stores none.
pub proof fn stored_trace_is_found(doc: Document, raw: Option<Bson>)
    requires
        call_ensures(stored_trace_context, (&doc,), raw),
    ensures
        raw is Some <==> field(document_fields(doc), "trace_context"@) is Some && field(
            document_fields(doc),
            "trace_context"@,
        ) != Some(BsonValue::Null),
        raw matches Some(raw) ==> field(document_fields(doc), "trace_context"@) == Some(
            bson_value(raw),
        ),
{
}

} // verus!
