//! Calls by which a request is configured, made and sent, and by which its outcome is read.
use std::time::Duration;

use bson::{Bson, Document};
use opentelemetry::trace::SpanContext;
use serde_json::Value;
use vstd::prelude::*;

use crate::caller::{
    decoded_output, enqueue_changes, enqueue_outcome, enqueue_removals, enqueue_update,
    evaluate_document, inspect_found, json_as_bson, prepare_task, prepare_task_at, result_pipeline,
    task_filter, PreparedTask, Request, SendBuilder, TaskOutcome, UpsertReport,
};
use crate::claim::{all_fields, is_random_uuid};
use crate::config::{converts, Config, ConfigBuilder};
use crate::database::DatabaseError;
use crate::document::{bson_value, doc_field, document_fields, field, no_fields, BsonValue, Fields};
use crate::error::{Failure, RequestError};
use crate::laws::{
    enqueue_reaches, enqueued_task_is_ready, reset_keeps_the_document, selects_without_alternatives,
};
use crate::names::{paths_lead, statuses_differ, task_names_differ, update_names_differ};
use crate::query::{
    is_plain, is_related, is_untouched, lookup, lookup_inside, lookup_plain, selects, update_part,
    updates,
};
use crate::time::duration_nanos;
use crate::trace::{
    hex_bytes, hex_text, hex_text_read_back, is_active_span, is_nonzero, span_flag_bits,
    span_span_id, span_trace_id, TraceContext, TraceIds,
};

verus! {

/// The whole milliseconds of a duration, cut to 64 bits.
pub open spec fn millis_in_64_bits(duration: Duration) -> i64 {
    ((duration_nanos(duration) / 1_000_000) as u128) as i64
}

/// A duration of less than 2^63 milliseconds is stored as its whole milliseconds.
pub proof fn millis_are_whole(duration: Duration)
    requires
        duration_nanos(duration) / 1_000_000 <= i64::MAX,
    ensures
        millis_in_64_bits(duration) == duration_nanos(duration) / 1_000_000,
{
}

/// Whether a document has this status.
pub open spec fn has_status(document: Fields, status: Seq<char>) -> bool {
    field(document, "status"@) == Some(BsonValue::Str(status))
}

/// Whether tracing identifiers are those of a context.
pub open spec fn ids_are(ids: Option<TraceIds>, context: Option<TraceContext>) -> bool {
    match (ids, context) {
        (Some(ids), Some(context)) => {
            &&& ids.trace_id == context.trace_id@
            &&& ids.span_id == context.span_id@
            &&& ids.trace_flags == context.trace_flags
        },
        (None, None) => true,
        _ => false,
    }
}

/// A request made from a payload and a captured context holds both, and nothing else is set; one whose
/// payload could not be serialized holds the error for that.
pub proof fn new_request_holds_payload_and_context(
    payload: Option<Bson>,
    context: Option<TraceContext>,
    request: SendBuilder,
)
    requires
        call_ensures(SendBuilder::with_captured, (payload, context), request),
    ensures
        ids_are(request@.trace_context, context),
        match payload {
            Some(payload) => request@.payload == Some(bson_value(payload))
                && request@.payload_err is None,
            None => request@.payload is None && request@.payload_err == Some(
                Failure::PayloadFormat("task_input"@),
            ),
        },
        request@.timeout is None,
        request@.worker_switch_timeout is None,
        request@.idempotency_key is None,
{
}

/// A request made in a valid active span carries the identifiers of that span, and one made outside of
/// any carries none. Its payload is the JSON value as BSON.
pub proof fn new_request_carries_the_active_span(value: Option<Value>, request: SendBuilder)
    requires
        call_ensures(SendBuilder::from_json, (value,), request),
    ensures
        exists|span: SpanContext| #[trigger]
            is_active_span(span) && if is_nonzero(span_trace_id(span)) && is_nonzero(
                span_span_id(span),
            ) {
                &&& request@.trace_context is Some
                &&& hex_bytes(request@.trace_context->0.trace_id) == Some(span_trace_id(span))
                &&& hex_bytes(request@.trace_context->0.span_id) == Some(span_span_id(span))
                &&& request@.trace_context->0.trace_flags == span_flag_bits(span)
            } else {
                request@.trace_context is None
            },
        value is None ==> request@.payload is None,
        value matches Some(value) ==> request@.payload == json_as_bson(value),
        request@.payload_err is None <==> request@.payload is Some,
        request@.timeout is None,
        request@.worker_switch_timeout is None,
        request@.idempotency_key is None,
{
    assert forall|bytes: Seq<u8>| hex_bytes(#[trigger] hex_text(bytes)) == Some(bytes) by {
        hex_text_read_back(bytes);
    }
}

/// What a caller sets for one request is set, and all else stays.
pub proof fn options_are_set_one_by_one(
    before: SendBuilder,
    timeout: Duration,
    trace: TraceContext,
    timed: SendBuilder,
    switched: SendBuilder,
    traced: SendBuilder,
)
    requires
        call_ensures(SendBuilder::with_timeout, (before, timeout), timed),
        call_ensures(SendBuilder::with_worker_switch_timeout, (before, timeout), switched),
        call_ensures(SendBuilder::with_trace_context, (before, trace), traced),
    ensures
        timed@.timeout == Some(timeout),
        timed@.worker_switch_timeout == before@.worker_switch_timeout,
        timed@.trace_context == before@.trace_context,
        switched@.worker_switch_timeout == Some(timeout),
        switched@.timeout == before@.timeout,
        switched@.trace_context == before@.trace_context,
        ids_are(traced@.trace_context, Some(trace)),
        traced@.timeout == before@.timeout,
        traced@.worker_switch_timeout == before@.worker_switch_timeout,
        timed@.payload == before@.payload && timed@.payload_err == before@.payload_err,
        switched@.payload == before@.payload && switched@.payload_err == before@.payload_err,
        traced@.payload == before@.payload && traced@.payload_err == before@.payload_err,
        timed@.idempotency_key == before@.idempotency_key,
        switched@.idempotency_key == before@.idempotency_key,
        traced@.idempotency_key == before@.idempotency_key,
{
}

/// The idempotency key is set likewise.
pub proof fn idempotency_key_is_set<T: Into<String>>(before: SendBuilder, key: T, keyed: SendBuilder)
    requires
        call_ensures(SendBuilder::with_idempotency_key::<T>, (before, key), keyed),
    ensures
        exists|text: String| #[trigger]
            converts(key, text) && keyed@.idempotency_key == Some(text@),
        keyed@.payload == before@.payload && keyed@.payload_err == before@.payload_err,
        keyed@.timeout == before@.timeout,
        keyed@.worker_switch_timeout == before@.worker_switch_timeout,
        keyed@.trace_context == before@.trace_context,
{
}

/// A request goes out with what the caller has set; the configuration fills in what was not set, and
/// says whether a finished task may be reset.
pub proof fn request_goes_out_with_what_was_set(
    builder: &mut SendBuilder,
    config: Config,
    request: Request,
)
    requires
        call_ensures(
            SendBuilder::take_request,
            (builder, &config),
            Ok::<Request, RequestError>(request),
        ),
    ensures
        old(builder)@.timeout matches Some(timeout) ==> request.timeout == Some(timeout),
        old(builder)@.timeout is None ==> request.timeout == config.request_timeout,
        old(builder)@.worker_switch_timeout matches Some(timeout)
            ==> request.worker_switch_timeout == timeout,
        old(builder)@.worker_switch_timeout is None ==> request.worker_switch_timeout
            == config.worker_switch_timeout,
        old(builder)@.payload == Some(bson_value(request.payload)),
        ids_are(old(builder)@.trace_context, request.trace_context),
        match request.idempotency_key {
            Some(key) => old(builder)@.idempotency_key == Some(key@),
            None => old(builder)@.idempotency_key is None,
        },
        request.allow_reset == config.allow_reset_finished_tasks,
{
}

/// A switch timeout that the caller sets wins over that of the configuration, whichever is longer.
pub proof fn own_switch_timeout_wins(
    before: SendBuilder,
    timeout: Duration,
    builder: &mut SendBuilder,
    config: Config,
    request: Request,
)
    requires
        call_ensures(SendBuilder::with_worker_switch_timeout, (before, timeout), *old(builder)),
        call_ensures(
            SendBuilder::take_request,
            (builder, &config),
            Ok::<Request, RequestError>(request),
        ),
    ensures
        request.worker_switch_timeout == timeout,
{
}

/// A waiting time that the caller sets wins over that of the configuration.
pub proof fn own_timeout_wins(
    before: SendBuilder,
    timeout: Duration,
    builder: &mut SendBuilder,
    config: Config,
    request: Request,
)
    requires
        call_ensures(SendBuilder::with_timeout, (before, timeout), *old(builder)),
        call_ensures(
            SendBuilder::take_request,
            (builder, &config),
            Ok::<Request, RequestError>(request),
        ),
    ensures
        request.timeout == Some(timeout),
{
}

/// A request goes out exactly if it has a payload and no error stands for one, and then once: with the
/// payload gone, the next attempt is refused. An error that stands for the payload is handed out once.
pub proof fn request_goes_out_once(
    builder: &mut SendBuilder,
    config: Config,
    result: Result<Request, RequestError>,
)
    requires
        call_ensures(SendBuilder::take_request, (builder, &config), result),
    ensures
        result is Ok <==> old(builder)@.payload is Some && old(builder)@.payload_err is None,
        result is Ok ==> final(builder)@.payload is None && final(builder)@.payload_err is None,
        result matches Err(error) ==> error@ == match old(builder)@.payload_err {
            Some(failure) => failure,
            None => Failure::PayloadFormat("task_input"@),
        },
        old(builder)@.payload_err is Some ==> final(builder)@.payload_err is None
            && final(builder)@.payload == old(builder)@.payload,
        final(builder)@.timeout == old(builder)@.timeout,
        final(builder)@.worker_switch_timeout == old(builder)@.worker_switch_timeout,
        final(builder)@.idempotency_key == old(builder)@.idempotency_key,
        final(builder)@.trace_context == old(builder)@.trace_context,
{
}

/// Whether the document of a task stores tracing identifiers, or nothing where there are none.
pub open spec fn stores_trace(task: Fields, context: Option<TraceContext>) -> bool {
    match context {
        Some(context) => {
            &&& doc_field(task, "trace_context"@) matches Some(stored) && {
                &&& field(stored, "trace_id"@) == Some(BsonValue::Str(context.trace_id@))
                &&& field(stored, "span_id"@) == Some(BsonValue::Str(context.span_id@))
                &&& field(stored, "trace_flags"@) == Some(
                    BsonValue::Int32(context.trace_flags as i32),
                )
            }
        },
        None => field(task, "trace_context"@) == Some(BsonValue::Null),
    }
}

/// Whether a document is what enqueuing a request makes of a document: it waits for a worker with
/// everything that the request asks for, and nothing is left of an earlier life.
pub open spec fn is_enqueued(
    before: Fields,
    after: Fields,
    inserting: bool,
    request: Request,
    task_id: Seq<char>,
    now: i64,
) -> bool {
    &&& field(after, "task_id"@) == Some(BsonValue::Str(task_id))
    &&& field(after, "idempotency_key"@) == Some(BsonValue::Str(task_id))
    &&& field(after, "task_input"@) == Some(bson_value(request.payload))
    &&& has_status(after, "pending"@)
    &&& field(after, "updated_at"@) == Some(BsonValue::Date(now))
    &&& field(after, "worker_switch_timeout"@) == Some(
        BsonValue::Int64(millis_in_64_bits(request.worker_switch_timeout)),
    )
    &&& field(after, "request_timeout"@) == Some(
        match request.timeout {
            Some(timeout) => BsonValue::Int64(millis_in_64_bits(timeout)),
            None => BsonValue::Null,
        },
    )
    &&& stores_trace(after, request.trace_context)
    &&& field(after, "task_output"@) is None
    &&& field(after, "error_reason"@) is None
    &&& field(after, "worker_state"@) is None
    &&& inserting ==> field(after, "created_at"@) == Some(BsonValue::Date(now))
    &&& !inserting ==> field(after, "created_at"@) == field(before, "created_at"@)
    &&& !inserting ==> field(after, "_id"@) == field(before, "_id"@)
    &&& enqueuing_spares(before, after)
}

/// Whether enqueuing has left the rest of a document as it was.
pub open spec fn enqueuing_spares(before: Fields, after: Fields) -> bool {
    forall|path: Seq<char>|
        !is_related(path, "task_id"@) && !is_related(path, "idempotency_key"@) && !is_related(
            path,
            "task_input"@,
        ) && !is_related(path, "status"@) && !is_related(path, "updated_at"@) && !is_related(
            path,
            "worker_switch_timeout"@,
        ) && !is_related(path, "request_timeout"@) && !is_related(path, "trace_context"@)
            && !is_related(path, "task_output"@) && !is_related(path, "error_reason"@)
            && !is_related(path, "worker_state"@) && !is_related(path, "created_at"@)
            ==> #[trigger] lookup(after, path) == lookup(before, path)
}

proof fn enqueuing_leaves_the_rest(
    before: Fields,
    after: Fields,
    inserting: bool,
    task_id: Seq<char>,
    payload: BsonValue,
    now: i64,
    worker_switch_timeout_ms: i64,
    request_timeout_ms: Option<i64>,
    trace_context: Option<TraceIds>,
)
    requires
        updates(
            enqueue_update(
                task_id,
                payload,
                now,
                worker_switch_timeout_ms,
                request_timeout_ms,
                trace_context,
            ),
            before,
            after,
            inserting,
        ),
    ensures
        enqueuing_spares(before, after),
{
    let update = enqueue_update(
        task_id,
        payload,
        now,
        worker_switch_timeout_ms,
        request_timeout_ms,
        trace_context,
    );
    update_names_differ();
    let set = update_part(update, "$set"@);
    let unset = update_part(update, "$unset"@);
    let on_insert = update_part(update, "$setOnInsert"@);
    assert(set == enqueue_changes(
        task_id,
        payload,
        now,
        worker_switch_timeout_ms,
        request_timeout_ms,
        trace_context,
    ));
    assert(unset == enqueue_removals());
    assert(on_insert == no_fields().insert("created_at"@, BsonValue::Date(now)));
    assert forall|path: Seq<char>|
        !is_related(path, "task_id"@) && !is_related(path, "idempotency_key"@) && !is_related(
            path,
            "task_input"@,
        ) && !is_related(path, "status"@) && !is_related(path, "updated_at"@) && !is_related(
            path,
            "worker_switch_timeout"@,
        ) && !is_related(path, "request_timeout"@) && !is_related(path, "trace_context"@)
            && !is_related(path, "task_output"@) && !is_related(path, "error_reason"@)
            && !is_related(path, "worker_state"@) && !is_related(
            path,
            "created_at"@,
        ) implies #[trigger] lookup(after, path) == lookup(before, path) by {
        assert(is_untouched(path, set));
        assert(is_untouched(path, unset));
        assert(is_untouched(path, on_insert));
    }
}

/// Whether the upsert of a request may touch a document: one with that task id, and with no status, as
/// no task document has it, or with that of a finished task where those may be reset.
pub open spec fn may_be_enqueued_over(document: Fields, task_id: Seq<char>, allow_reset: bool) -> bool {
    &&& field(document, "task_id"@) == Some(BsonValue::Str(task_id))
    &&& field(document, "status"@) is None || (allow_reset && (has_status(document, "succeeded"@)
        || has_status(document, "failed"@)))
}

/// A prepared task stores what its request asks for, under its id, and reaches no document but one
/// that it may take the place of.
pub proof fn prepared_task_stores_the_request(
    request: Request,
    task_id: String,
    now: i64,
    task: PreparedTask,
    before: Fields,
    after: Fields,
    inserting: bool,
)
    requires
        call_ensures(prepare_task_at, (request, task_id, now), task),
        updates(document_fields(task.update), before, after, inserting),
    ensures
        task.task_id@ == task_id@,
        is_enqueued(before, after, inserting, request, task_id@, now),
        selects(document_fields(task.filter), before) <==> may_be_enqueued_over(
            before,
            task_id@,
            request.allow_reset,
        ),
{
    enqueuing_means(request, task_id@, now, task, before, after, inserting);
}

/// A task prepared now goes out under the idempotency key of its request, or under a random UUID where
/// the request has none.
pub proof fn task_is_prepared_under_its_key(
    request: Request,
    task: PreparedTask,
    before: Fields,
    after: Fields,
    inserting: bool,
)
    requires
        call_ensures(prepare_task, (request,), task),
        updates(document_fields(task.update), before, after, inserting),
    ensures
        match request.idempotency_key {
            Some(key) => task.task_id@ == key@,
            None => is_random_uuid(task.task_id@),
        },
        exists|now: i64| #[trigger]
            is_enqueued(before, after, inserting, request, task.task_id@, now),
        selects(document_fields(task.filter), before) <==> may_be_enqueued_over(
            before,
            task.task_id@,
            request.allow_reset,
        ),
{
    let now = choose|now: i64| #[trigger] task.enqueues(request@, task.task_id@, now);
    enqueuing_means(request, task.task_id@, now, task, before, after, inserting);
}

proof fn enqueuing_means(
    request: Request,
    task_id: Seq<char>,
    now: i64,
    task: PreparedTask,
    before: Fields,
    after: Fields,
    inserting: bool,
)
    requires
        task.enqueues(request@, task_id, now),
        updates(document_fields(task.update), before, after, inserting),
    ensures
        task.task_id@ == task_id,
        is_enqueued(before, after, inserting, request, task_id, now),
        selects(document_fields(task.filter), before) <==> may_be_enqueued_over(
            before,
            task_id,
            request.allow_reset,
        ),
{
    let sent = request@;
    enqueued_task_is_ready(
        before,
        after,
        inserting,
        task_id,
        sent.payload,
        now,
        millis_in_64_bits(request.worker_switch_timeout),
        match request.timeout {
            Some(timeout) => Some(millis_in_64_bits(timeout)),
            None => None,
        },
        sent.trace_context,
    );
    if !inserting {
        reset_keeps_the_document(
            before,
            after,
            task_id,
            sent.payload,
            now,
            millis_in_64_bits(request.worker_switch_timeout),
            match request.timeout {
                Some(timeout) => Some(millis_in_64_bits(timeout)),
                None => None,
            },
            sent.trace_context,
        );
    }
    enqueuing_leaves_the_rest(
        before,
        after,
        inserting,
        task_id,
        sent.payload,
        now,
        millis_in_64_bits(request.worker_switch_timeout),
        match request.timeout {
            Some(timeout) => Some(millis_in_64_bits(timeout)),
            None => None,
        },
        sent.trace_context,
    );
    enqueue_reaches(before, task_id, request.allow_reset);
    statuses_differ();
    trace_names_differ();
}

proof fn trace_names_differ()
    ensures
        "trace_id"@ != "span_id"@,
        "trace_id"@ != "trace_flags"@,
        "span_id"@ != "trace_flags"@,
{
    reveal_strlit("trace_id");
    reveal_strlit("span_id");
    reveal_strlit("trace_flags");
    assert("trace_id"@.len() == 8);
    assert("span_id"@.len() == 7);
    assert("trace_flags"@.len() == 11);
}

/// The tracing identifiers that were captured when the request was made are stored with the task.
pub proof fn captured_context_is_stored(
    payload: Option<Bson>,
    context: Option<TraceContext>,
    builder: &mut SendBuilder,
    config: Config,
    request: Request,
    task_id: String,
    now: i64,
    task: PreparedTask,
    before: Fields,
    after: Fields,
    inserting: bool,
)
    requires
        call_ensures(SendBuilder::with_captured, (payload, context), *old(builder)),
        call_ensures(
            SendBuilder::take_request,
            (builder, &config),
            Ok::<Request, RequestError>(request),
        ),
        call_ensures(prepare_task_at, (request, task_id, now), task),
        updates(document_fields(task.update), before, after, inserting),
    ensures
        stores_trace(after, context),
        payload matches Some(payload) && field(after, "task_input"@) == Some(bson_value(payload)),
{
    prepared_task_stores_the_request(request, task_id, now, task, before, after, inserting);
}

/// An upsert that inserted a document or found one to reset gives the task id; one that did neither,
/// or that found the key taken, is a duplicate; any other error is the database's.
pub proof fn upsert_gives_the_task_id_or_says_why_not(
    task_id: String,
    result: Result<UpsertReport, DatabaseError>,
    outcome: Result<String, RequestError>,
)
    requires
        call_ensures(enqueue_outcome, (task_id, result), outcome),
    ensures
        outcome is Ok <==> (result matches Ok(report) && (report.inserted || report.matched_count
            > 0)),
        outcome matches Ok(id) ==> id@ == task_id@,
        outcome matches Err(error) ==> match result {
            Ok(_) => error@ == Failure::Duplicate(task_id@),
            Err(DatabaseError::Write { code, message }) => if code == 11000 {
                error@ == Failure::Duplicate(task_id@)
            } else {
                error@ == Failure::Database(message@)
            },
            Err(DatabaseError::Command { message, .. }) => error@ == Failure::Database(message@),
            Err(DatabaseError::Other { message }) => error@ == Failure::Database(message@),
        },
{
}

/// The filter for a task selects the documents with its id.
pub proof fn task_filter_selects_the_task(task_id: &str, filter: Document, document: Fields)
    requires
        call_ensures(task_filter, (task_id,), filter),
    ensures
        selects(document_fields(filter), document) <==> field(document, "task_id"@) == Some(
            BsonValue::Str(task_id@),
        ),
{
    let filter = document_fields(filter);
    task_names_differ();
    paths_lead(document);
    selects_without_alternatives(filter, document);
    assert(filter.dom().contains("task_id"@));
}

/// The stream on which a caller listens reports an event exactly if it carries a document with the id
/// of the task.
pub proof fn caller_hears_of_its_task(task_id: &str, pipeline: Vec<Document>, event: Fields)
    requires
        call_ensures(result_pipeline, (task_id,), pipeline),
    ensures
        pipeline@.len() == 1,
        doc_field(document_fields(pipeline@[0]), "$match"@) matches Some(filter) && (selects(
            filter,
            event,
        ) <==> (doc_field(event, "fullDocument"@) matches Some(document) && field(
            document,
            "task_id"@,
        ) == Some(BsonValue::Str(task_id@)))),
{
    let path = "fullDocument.task_id"@;
    let filter = no_fields().insert(path, BsonValue::Str(task_id@));
    let stage = no_fields().insert("$match"@, BsonValue::Doc(filter));
    assert(all_fields(pipeline@).len() == seq![stage].len());
    assert(all_fields(pipeline@)[0] == document_fields(pipeline@[0]));
    assert(stage.dom().contains("$match"@));
    reveal_strlit("fullDocument.task_id");
    reveal_strlit("fullDocument");
    reveal_strlit("task_id");
    reveal_strlit("$or");
    reveal_strlit("$expr");
    assert(path[0] != "$or"@[0]);
    assert(path[0] != "$expr"@[0]);
    assert(is_plain("fullDocument"@));
    assert(is_plain("task_id"@));
    assert(path =~= "fullDocument"@ + seq!['.'] + "task_id"@);
    lookup_inside(event, path, "fullDocument"@, "task_id"@);
    match doc_field(event, "fullDocument"@) {
        Some(document) => lookup_plain(document, "task_id"@),
        None => {},
    }
    selects_without_alternatives(filter, event);
    assert(filter.dom().contains(path));
}

/// Whether a result is what the document of a task says of its outcome: the output of a task that has
/// succeeded, the reason of one that has failed, nothing for a task with any other status, and an error
/// for a document that lacks what it must have.
pub open spec fn tells_the_outcome(
    result: Result<Option<TaskOutcome>, RequestError>,
    document: Fields,
) -> bool {
    match field(document, "status"@) {
        Some(BsonValue::Str(status)) => if status == "succeeded"@ {
            match field(document, "task_output"@) {
                Some(output) => result matches Ok(Some(TaskOutcome::Succeeded(value)))
                    && bson_value(value) == output,
                None => result matches Err(error) && error@ == Failure::PayloadFormat(
                    "task_output"@,
                ),
            }
        } else if status == "failed"@ {
            result matches Ok(Some(TaskOutcome::Failed(error))) && error@ == Failure::TaskFailed(
                match field(document, "error_reason"@) {
                    Some(BsonValue::Str(reason)) => reason,
                    _ => "worker failed"@,
                },
            )
        } else {
            result matches Ok(None)
        },
        _ => result matches Err(error) && error@ == Failure::PayloadFormat("status"@),
    }
}

/// The outcome of a task is what its document says, and a task that is not there has failed.
pub proof fn outcome_is_read_from_the_document(
    document: Document,
    task_id: &str,
    evaluated: Result<Option<TaskOutcome>, RequestError>,
    inspected: Result<Option<TaskOutcome>, RequestError>,
    missing: Result<Option<TaskOutcome>, RequestError>,
)
    requires
        call_ensures(evaluate_document, (&document,), evaluated),
        call_ensures(inspect_found, (task_id, Some(&document)), inspected),
        call_ensures(inspect_found, (task_id, None::<&Document>), missing),
    ensures
        tells_the_outcome(evaluated, document_fields(document)),
        tells_the_outcome(inspected, document_fields(document)),
        missing matches Ok(Some(TaskOutcome::Failed(error))) && error@ == Failure::TaskFailed(
            "task "@ + task_id@ + " missing"@,
        ),
{
}

/// A task that waits or runs has no outcome yet.
pub proof fn unfinished_task_has_no_outcome(
    document: Document,
    evaluated: Result<Option<TaskOutcome>, RequestError>,
)
    requires
        call_ensures(evaluate_document, (&document,), evaluated),
        has_status(document_fields(document), "pending"@) || has_status(
            document_fields(document),
            "running"@,
        ),
    ensures
        evaluated matches Ok(None),
{
    statuses_differ();
}

/// An output of the caller's own type is the result; where there is none, the output had another type.
pub proof fn decoded_output_is_the_result<T>(output: Option<T>, result: Result<T, RequestError>)
    requires
        call_ensures(decoded_output::<T>, (output,), result),
    ensures
        match output {
            Some(output) => result == Ok::<T, RequestError>(output),
            None => result matches Err(error) && error@ == Failure::PayloadFormat("task_output"@),
        },
{
}

/// A configuration has what was set, and the defaults for what was not: the database `getitdone`, the
/// collection `tasks`, callers that wait forever, ten seconds until a task may be taken over, finished
/// tasks that keep their ids, a worker without a name, no metrics and no sorted claims.
pub proof fn configuration_has_what_was_set(builder: ConfigBuilder, built: Config, finalized: Config)
    requires
        builder@.mongo_uri is Some,
        call_ensures(ConfigBuilder::build, (builder,), built),
        call_ensures(ConfigBuilder::finalize, (builder,), finalized),
    ensures
        is_configured(builder, built),
        is_configured(builder, finalized),
{
}

/// Whether a configuration has what was set, and the defaults for what was not.
pub open spec fn is_configured(builder: ConfigBuilder, config: Config) -> bool {
    &&& builder@.mongo_uri == Some(config.mongo_uri@)
    &&& builder@.database matches Some(database) ==> config.database@ == database
    &&& builder@.database is None ==> config.database@ == "getitdone"@
    &&& builder@.collection matches Some(collection) ==> config.collection@ == collection
    &&& builder@.collection is None ==> config.collection@ == "tasks"@
    &&& builder@.request_timeout matches Some(timeout) ==> config.request_timeout == timeout
    &&& builder@.request_timeout is None ==> config.request_timeout is None
    &&& builder@.worker_switch_timeout matches Some(timeout) ==> config.worker_switch_timeout
        == timeout
    &&& builder@.worker_switch_timeout is None ==> duration_nanos(config.worker_switch_timeout)
        == 10_000_000_000
    &&& config.allow_reset_finished_tasks == builder@.reset_finished_tasks
    &&& config.worker_id is None
    &&& !config.enable_metrics
    &&& config.claim_sort is None
}

/// A fresh configuration has nothing set.
pub proof fn fresh_configuration_has_nothing_set(fresh: ConfigBuilder, default: ConfigBuilder)
    requires
        call_ensures(Config::builder, (), fresh),
        call_ensures(<ConfigBuilder as Default>::default, (), default),
    ensures
        fresh@.mongo_uri is None && default@.mongo_uri is None,
        fresh@.database is None && default@.database is None,
        fresh@.collection is None && default@.collection is None,
        fresh@.request_timeout is None && default@.request_timeout is None,
        fresh@.worker_switch_timeout is None && default@.worker_switch_timeout is None,
        !fresh@.reset_finished_tasks && !default@.reset_finished_tasks,
{
}

/// What is set in a configuration is set, and all else stays.
pub proof fn settings_are_made_one_by_one(
    before: ConfigBuilder,
    timeout: Duration,
    waiting: Option<Duration>,
    enable: bool,
    timed: ConfigBuilder,
    switched: ConfigBuilder,
    resetting: ConfigBuilder,
)
    requires
        call_ensures(ConfigBuilder::request_timeout, (before, waiting), timed),
        call_ensures(ConfigBuilder::worker_switch_timeout, (before, timeout), switched),
        call_ensures(ConfigBuilder::reset_finished_tasks, (before, enable), resetting),
    ensures
        timed@.request_timeout == Some(waiting),
        timed@.worker_switch_timeout == before@.worker_switch_timeout,
        timed@.reset_finished_tasks == before@.reset_finished_tasks,
        same_places(before, timed),
        switched@.worker_switch_timeout == Some(timeout),
        switched@.request_timeout == before@.request_timeout,
        switched@.reset_finished_tasks == before@.reset_finished_tasks,
        same_places(before, switched),
        resetting@.reset_finished_tasks == enable,
        resetting@.request_timeout == before@.request_timeout,
        resetting@.worker_switch_timeout == before@.worker_switch_timeout,
        same_places(before, resetting),
{
}

/// Whether two configurations in the making name the same deployment, database and collection.
pub open spec fn same_places(left: ConfigBuilder, right: ConfigBuilder) -> bool {
    &&& left@.mongo_uri == right@.mongo_uri
    &&& left@.database == right@.database
    &&& left@.collection == right@.collection
}

/// Whether two configurations in the making agree but for the places that they name.
pub open spec fn same_knobs(left: ConfigBuilder, right: ConfigBuilder) -> bool {
    &&& left@.request_timeout == right@.request_timeout
    &&& left@.worker_switch_timeout == right@.worker_switch_timeout
    &&& left@.reset_finished_tasks == right@.reset_finished_tasks
}

/// The deployment, the database and the collection are set likewise.
pub proof fn places_are_named_one_by_one<T: Into<String>>(
    before: ConfigBuilder,
    name: T,
    deployed: ConfigBuilder,
    based: ConfigBuilder,
    collected: ConfigBuilder,
)
    requires
        call_ensures(ConfigBuilder::mongo_uri::<T>, (before, name), deployed),
        call_ensures(ConfigBuilder::database::<T>, (before, name), based),
        call_ensures(ConfigBuilder::collection::<T>, (before, name), collected),
    ensures
        exists|text: String| #[trigger] converts(name, text) && deployed@.mongo_uri == Some(text@),
        exists|text: String| #[trigger] converts(name, text) && based@.database == Some(text@),
        exists|text: String| #[trigger] converts(name, text) && collected@.collection == Some(text@),
        deployed@.database == before@.database && deployed@.collection == before@.collection,
        based@.mongo_uri == before@.mongo_uri && based@.collection == before@.collection,
        collected@.mongo_uri == before@.mongo_uri && collected@.database == before@.database,
        same_knobs(before, deployed),
        same_knobs(before, based),
        same_knobs(before, collected),
{
}

/// A copy of a configuration is the same configuration.
pub proof fn copied_configuration_is_the_same(config: Config, copy: Config)
    requires
        call_ensures(<Config as Clone>::clone, (&config,), copy),
    ensures
        copy == config,
{
}

} // verus!
