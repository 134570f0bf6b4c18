//! Calls that read and write what goes with tasks: instants and durations, heartbeats, tracing
//! identifiers, errors of the database, indexes, and the figures of the connection pool.
use std::time::Duration;

use bson::Document;
use opentelemetry::trace::{SpanContext, TraceFlags};
use vstd::prelude::*;

use crate::calls::changes::{is_after, whole_millis};
use crate::calls::requests::millis_in_64_bits;
use crate::calls::waits::description;
use crate::claim::all_fields;
use crate::config::converts;
use crate::database::{
    change_stream_opening, contains_text, same_ignoring_case, DatabaseError, StreamOpening,
};
use crate::document::{doc_field, document_fields, field, BsonValue, Fields};
use crate::error::{Failure, RequestError};
use crate::heartbeat::{
    classify_heartbeat_result, heartbeat_interval, heartbeat_result, sends_heartbeats,
    stale_recovery_interval, HeartbeatOutcome, HeartbeatReaction,
};
use crate::indexes::{
    has_kind, has_unique_task_id, index_kind, is_kind, is_unique, kind_of, one_key, status_and,
    warn_if_missing_indexes, warned_if, warnings_about, warnings_about_missing, IndexInfo, IndexKind, IndexListing, IndexWarning,
};
use crate::names::task_names_differ;
use crate::object_key::{object_number_is_injective, ObjectKey};
use crate::pool::{pool_change, PoolChange, PoolEvent};
use crate::stream::{change_stream_means, one_reports, sets_what_matters};
use crate::time::{
    deadline_after, duration_from_stored_millis, duration_nanos, duration_to_stored_millis,
};
use crate::trace::{
    captures, flag_bits, hex_bytes, hex_text_read_back, is_active_span, is_nonzero, span_flag_bits,
    span_is_remote, span_span_id, span_trace_id, TraceContext,
};
use crate::worker::{change_stream_stage, expiry_change_stream_pipeline};

verus! {

/// A duration is stored as its whole milliseconds, and read back as so many milliseconds; a negative
/// number stands for none. A deadline lies a duration after an instant.
pub proof fn durations_are_stored_in_milliseconds(
    duration: Duration,
    stored: i64,
    millis: i64,
    read: Option<Duration>,
    instant: i64,
    deadline: i64,
)
    requires
        call_ensures(duration_to_stored_millis, (duration,), stored),
        call_ensures(duration_from_stored_millis, (millis,), read),
        call_ensures(deadline_after, (instant, duration), deadline),
    ensures
        stored == millis_in_64_bits(duration),
        read is Some <==> millis >= 0,
        read matches Some(read) ==> duration_nanos(read) == millis * 1_000_000,
        is_after(deadline, instant, whole_millis(duration)),
{
}

/// A duration that was stored is read back to the millisecond.
pub proof fn stored_duration_is_read_back(
    duration: Duration,
    stored: i64,
    read: Option<Duration>,
)
    requires
        whole_millis(duration) <= i64::MAX,
        call_ensures(duration_to_stored_millis, (duration,), stored),
        call_ensures(duration_from_stored_millis, (stored,), read),
    ensures
        read matches Some(read) && duration_nanos(read) == whole_millis(duration) * 1_000_000,
{
}

/// A heartbeat that found its task keeps the heartbeats going; one that found nothing says that the
/// task was lost, and aborts the handler; one that failed says neither.
pub proof fn heartbeat_decides_on_ownership(
    matched: Result<u64, DatabaseError>,
    result: Result<bool, RequestError>,
    outcome: HeartbeatOutcome,
    reaction: HeartbeatReaction,
    label: &'static str,
)
    requires
        call_ensures(heartbeat_result, (matched,), result),
        call_ensures(classify_heartbeat_result, (result,), outcome),
        call_ensures(HeartbeatOutcome::reaction, (outcome,), reaction),
        call_ensures(HeartbeatOutcome::label, (outcome,), label),
    ensures
        match matched {
            Ok(count) => if count > 0 {
                outcome is Alive && reaction is Continue && label@ == "alive"@
            } else {
                outcome is Superseded && reaction is AbortHandler && label@ == "superseded"@
            },
            Err(error) => outcome is TransientError && reaction is Stop && label@
                == "transient_error"@ && (result matches Err(failure) && failure@
                == Failure::Database(description(error))),
        },
{
}

/// What the result of a heartbeat says about ownership.
pub proof fn heartbeat_result_is_classified(
    result: Result<bool, RequestError>,
    outcome: HeartbeatOutcome,
)
    requires
        call_ensures(classify_heartbeat_result, (result,), outcome),
    ensures
        result == Ok::<bool, RequestError>(true) <==> outcome is Alive,
        result == Ok::<bool, RequestError>(false) <==> outcome is Superseded,
        result is Err <==> outcome is TransientError,
{
}

/// Three heartbeats fit into a switch timeout, and four do not by more than the rounding; heartbeats
/// are sent wherever that leaves time between them; abandoned tasks are looked for every ten minutes.
pub proof fn heartbeats_come_in_time(
    timeout: Duration,
    interval: Duration,
    sends: bool,
    recovery: Duration,
)
    requires
        call_ensures(heartbeat_interval, (timeout,), interval),
        call_ensures(sends_heartbeats, (interval,), sends),
        call_ensures(stale_recovery_interval, (), recovery),
    ensures
        3 * duration_nanos(interval) <= duration_nanos(timeout) < 3 * duration_nanos(interval) + 3,
        sends <==> duration_nanos(timeout) >= 3,
        duration_nanos(recovery) == 600_000_000_000,
{
}

/// Object ids keep their bytes as keys of a table.
pub proof fn object_ids_keep_their_bytes(bytes: [u8; 12], key: ObjectKey, read: [u8; 12])
    requires
        call_ensures(ObjectKey::from_bytes, (bytes,), key),
        call_ensures(ObjectKey::bytes, (&key,), read),
    ensures
        read@ == bytes@,
{
    object_number_is_injective(read@, bytes@);
}

/// Different object ids have different keys.
pub proof fn object_ids_have_their_own_keys(
    left: [u8; 12],
    right: [u8; 12],
    left_key: ObjectKey,
    right_key: ObjectKey,
)
    requires
        call_ensures(ObjectKey::from_bytes, (left,), left_key),
        call_ensures(ObjectKey::from_bytes, (right,), right_key),
    ensures
        left_key@ == right_key@ <==> left@ == right@,
{
    if left_key@ == right_key@ {
        object_number_is_injective(left@, right@);
    }
}

/// A trace context that is put together has its parts, and is sampled unless it is told otherwise.
pub proof fn trace_context_has_its_parts<T: Into<String>, S: Into<String>>(
    trace_id: T,
    span_id: S,
    flags: TraceFlags,
    sampled: TraceContext,
    flagged: TraceContext,
    default: u8,
)
    requires
        call_ensures(TraceContext::from_parts::<T, S>, (trace_id, span_id), sampled),
        call_ensures(
            TraceContext::from_parts_with_flags::<T, S>,
            (trace_id, span_id, flags),
            flagged,
        ),
        call_ensures(TraceContext::default_trace_flags, (), default),
    ensures
        converts(trace_id, sampled.trace_id) && converts(span_id, sampled.span_id),
        sampled.trace_flags == 1,
        converts(trace_id, flagged.trace_id) && converts(span_id, flagged.span_id),
        flagged.trace_flags == flag_bits(flags),
        default == 1,
{
}

/// Whether a context holds what a span goes by, in hexadecimal, or is nothing where the span is
/// invalid.
pub open spec fn is_context_of(context: Option<TraceContext>, span: SpanContext) -> bool {
    if is_nonzero(span_trace_id(span)) && is_nonzero(span_span_id(span)) {
        context matches Some(context) && hex_bytes(context.trace_id@) == Some(span_trace_id(span))
            && hex_bytes(context.span_id@) == Some(span_span_id(span)) && context.trace_flags
            == span_flag_bits(span)
    } else {
        context is None
    }
}

/// A valid span is captured with its ids and flags, an invalid one is not; the active span is captured
/// like any other.
pub proof fn spans_are_captured(
    span: SpanContext,
    context: Option<TraceContext>,
    current: Option<TraceContext>,
)
    requires
        call_ensures(TraceContext::from_span_context, (&span,), context),
        call_ensures(TraceContext::capture_current, (), current),
    ensures
        is_context_of(context, span),
        exists|active: SpanContext| #[trigger] is_active_span(active) && is_context_of(
            current,
            active,
        ),
{
    hex_text_read_back(span_trace_id(span));
    hex_text_read_back(span_span_id(span));
    let active = choose|active: SpanContext| #[trigger]
        captures(current, active) && is_active_span(active);
    hex_text_read_back(span_trace_id(active));
    hex_text_read_back(span_span_id(active));
    assert(is_active_span(active) && is_context_of(current, active));
}

/// A stored context names a span if both of its ids are bytes in hexadecimal of the right number: that
/// span, with those flags, of another process.
pub proof fn stored_context_names_its_span(context: TraceContext, span: Option<SpanContext>)
    requires
        call_ensures(TraceContext::to_span_context, (&context,), span),
    ensures
        span is Some <==> (hex_bytes(context.trace_id@) matches Some(bytes) && bytes.len() == 16)
            && (hex_bytes(context.span_id@) matches Some(bytes) && bytes.len() == 8),
        span matches Some(span) ==> hex_bytes(context.trace_id@) == Some(span_trace_id(span))
            && hex_bytes(context.span_id@) == Some(span_span_id(span)) && span_flag_bits(span)
            == context.trace_flags && span_is_remote(span),
{
}

/// A context is stored field by field, and a copy of it is the same.
pub proof fn context_is_stored_field_by_field(
    context: TraceContext,
    document: Document,
    copy: TraceContext,
)
    requires
        call_ensures(TraceContext::to_document, (&context,), document),
        call_ensures(<TraceContext as Clone>::clone, (&context,), copy),
    ensures
        field(document_fields(document), "trace_id"@) == Some(BsonValue::Str(context.trace_id@)),
        field(document_fields(document), "span_id"@) == Some(BsonValue::Str(context.span_id@)),
        field(document_fields(document), "trace_flags"@) == Some(
            BsonValue::Int32(context.trace_flags as i32),
        ),
        copy == context,
{
    reveal_strlit("trace_id");
    reveal_strlit("span_id");
    reveal_strlit("trace_flags");
    assert("trace_id"@.len() == 8);
    assert("span_id"@.len() == 7);
    assert("trace_flags"@.len() == 11);
}

/// Whether an error says that the deployment has no change streams.
pub open spec fn lacks_change_streams(error: DatabaseError) -> bool {
    match error {
        DatabaseError::Command { code, code_name, .. } => code == 40573 || code == 40574 || code
            == 40615 || same_ignoring_case(code_name@, "ChangeStreamNotSupported"@)
            || same_ignoring_case(code_name@, "Location40573"@),
        DatabaseError::Write { message, .. } => contains_text(
            message@,
            "$changeStream stage is only supported"@,
        ) || contains_text(message@, "ChangeStreamNotSupported"@),
        DatabaseError::Other { message } => contains_text(
            message@,
            "$changeStream stage is only supported"@,
        ) || contains_text(message@, "ChangeStreamNotSupported"@),
    }
}

/// What the errors of the database mean, and how callers see them.
pub proof fn database_errors_are_understood(
    error: DatabaseError,
    unsupported: bool,
    not_found: bool,
    duplicate: bool,
    seen: RequestError,
)
    requires
        call_ensures(DatabaseError::is_change_stream_unsupported, (&error,), unsupported),
        call_ensures(DatabaseError::is_namespace_not_found, (&error,), not_found),
        call_ensures(DatabaseError::is_duplicate_key, (&error,), duplicate),
        call_ensures(DatabaseError::into_request_error, (error,), seen),
    ensures
        unsupported <==> lacks_change_streams(error),
        not_found <==> (error matches DatabaseError::Command { code, .. } && code == 26),
        duplicate <==> (error matches DatabaseError::Write { code, .. } && code == 11000),
        seen@ == Failure::Database(description(error)),
{
}

/// An attempt to open the change stream of a worker succeeds, is worth another, or shows that the
/// deployment has none.
pub proof fn stream_opens_or_says_why_not(
    result: Result<(), DatabaseError>,
    opening: StreamOpening,
)
    requires
        call_ensures(change_stream_opening, (result,), opening),
    ensures
        opening is Open <==> result is Ok,
        opening is Retry <==> (result matches Err(error) && !lacks_change_streams(error)),
        opening matches StreamOpening::Unsupported(failure) ==> (result matches Err(error)
            && lacks_change_streams(error)) && failure@ == Failure::Database(
            "change streams unsupported; MongoDB must be a replica set or sharded cluster"@,
        ),
{
}

/// Whether a pipeline is one stage that lets an event through.
pub open spec fn lets_through(pipeline: Seq<Document>, event: Fields) -> bool {
    &&& pipeline.len() == 1
    &&& doc_field(document_fields(pipeline[0]), "$match"@) matches Some(filter) && (field(
        filter,
        "$or"@,
    ) matches Some(BsonValue::Array(alternatives)) && one_reports(alternatives, event))
}

/// The change stream of a worker reports new, replaced and removed documents, and the updates that set
/// the status, the state of the worker, the heartbeat or the switch timeout; it reports nothing else.
pub proof fn worker_hears_of_what_matters(pipeline: Vec<Document>, event: Fields)
    requires
        call_ensures(expiry_change_stream_pipeline, (), pipeline),
    ensures
        lets_through(pipeline@, event) <==> {
            ||| field(event, "operationType"@) == Some(BsonValue::Str("insert"@))
            ||| field(event, "operationType"@) == Some(BsonValue::Str("replace"@))
            ||| field(event, "operationType"@) == Some(BsonValue::Str("delete"@))
            ||| field(event, "operationType"@) == Some(BsonValue::Str("update"@))
                && sets_what_matters(event)
        },
{
    change_stream_means(event);
    assert(all_fields(pipeline@).len() == seq![change_stream_stage()].len());
    assert(all_fields(pipeline@)[0] == document_fields(pipeline@[0]));
}

/// Each event of the connection pool changes one figure by one, or none.
pub proof fn pool_events_are_counted(
    created: PoolChange,
    closed: PoolChange,
    taken: PoolChange,
    returned: PoolChange,
    other: PoolChange,
)
    requires
        call_ensures(pool_change, (PoolEvent::Created,), created),
        call_ensures(pool_change, (PoolEvent::Closed,), closed),
        call_ensures(pool_change, (PoolEvent::CheckedOut,), taken),
        call_ensures(pool_change, (PoolEvent::CheckedIn,), returned),
        call_ensures(pool_change, (PoolEvent::Other,), other),
    ensures
        created.size == 1 && created.checked_out == 0,
        closed.size == -1 && closed.checked_out == 0,
        taken.size == 0 && taken.checked_out == 1,
        returned.size == 0 && returned.checked_out == -1,
        other.size == 0 && other.checked_out == 0,
{
}

/// Whether the keys of an index are this field alone, ascending.
pub open spec fn is_on(keys: Fields, name: Seq<char>) -> bool {
    &&& forall|key: Seq<char>| #[trigger] keys.dom().contains(key) <==> key == name
    &&& keys[name] == BsonValue::Int32(1)
}

/// Whether the keys of an index are the status, ascending, and this field in this direction.
pub open spec fn is_on_status_and(keys: Fields, name: Seq<char>, direction: i32) -> bool {
    &&& forall|key: Seq<char>| #[trigger]
        keys.dom().contains(key) <==> key == "status"@ || key == name
    &&& keys["status"@] == BsonValue::Int32(1)
    &&& keys[name] == BsonValue::Int32(direction)
}

proof fn keys_mean(keys: Fields)
    ensures
        keys == one_key("task_id"@, 1) <==> is_on(keys, "task_id"@),
        keys == one_key("worker_state.worker_id"@, 1) <==> is_on(keys, "worker_state.worker_id"@),
        keys == status_and("updated_at"@, 1) <==> is_on_status_and(keys, "updated_at"@, 1),
        keys == status_and("created_at"@, -1i32) <==> is_on_status_and(keys, "created_at"@, -1i32),
        keys == status_and("created_at"@, 1) <==> is_on_status_and(keys, "created_at"@, 1),
{
    task_names_differ();
    one_key_means(keys, "task_id"@);
    one_key_means(keys, "worker_state.worker_id"@);
    status_and_means(keys, "updated_at"@, 1);
    status_and_means(keys, "created_at"@, -1i32);
    status_and_means(keys, "created_at"@, 1);
}

proof fn one_key_means(keys: Fields, name: Seq<char>)
    ensures
        keys == one_key(name, 1) <==> is_on(keys, name),
{
    let expected = one_key(name, 1);
    assert(is_on(expected, name)) by {
        assert(expected.dom().contains(name));
    }
    if is_on(keys, name) {
        assert(keys.dom().contains(name));
        assert(keys =~= expected);
    }
}

proof fn status_and_means(keys: Fields, name: Seq<char>, direction: i32)
    requires
        name != "status"@,
    ensures
        keys == status_and(name, direction) <==> is_on_status_and(keys, name, direction),
{
    let expected = status_and(name, direction);
    assert(is_on_status_and(expected, name, direction)) by {
        assert(expected.dom().contains(name));
        assert(expected.dom().contains("status"@));
    }
    if is_on_status_and(keys, name, direction) {
        assert(keys.dom().contains(name));
        assert(keys.dom().contains("status"@));
        assert(keys =~= expected);
    }
}

/// Whether keys are those of an index that matters here, of this kind.
pub open spec fn are_keys_of(keys: Fields, kind: IndexKind) -> bool {
    match kind {
        IndexKind::TaskId => is_on(keys, "task_id"@),
        IndexKind::StatusUpdated => is_on_status_and(keys, "updated_at"@, 1),
        IndexKind::WorkerState => is_on(keys, "worker_state.worker_id"@),
        IndexKind::StatusCreated => is_on_status_and(keys, "created_at"@, -1i32)
            || is_on_status_and(keys, "created_at"@, 1),
        IndexKind::Other => false,
    }
}

proof fn kinds_mean(keys: Fields)
    ensures
        forall|kind: IndexKind|
            !(kind is Other) ==> (kind_of(keys) == kind <==> #[trigger] are_keys_of(keys, kind)),
        kind_of(keys) is Other <==> !are_keys_of(keys, IndexKind::TaskId) && !are_keys_of(
            keys,
            IndexKind::StatusUpdated,
        ) && !are_keys_of(keys, IndexKind::WorkerState) && !are_keys_of(
            keys,
            IndexKind::StatusCreated,
        ),
{
    keys_mean(keys);
    task_names_differ();
    assert("task_id"@ != "status"@ && "task_id"@ != "worker_state.worker_id"@);
    assert("updated_at"@ != "created_at"@);
    if is_on(keys, "task_id"@) {
        assert(keys.dom().contains("task_id"@));
        assert(!keys.dom().contains("status"@));
        assert(!keys.dom().contains("worker_state.worker_id"@));
    }
    if is_on(keys, "worker_state.worker_id"@) {
        assert(keys.dom().contains("worker_state.worker_id"@));
        assert(!keys.dom().contains("status"@));
    }
    if is_on_status_and(keys, "updated_at"@, 1) {
        assert(keys.dom().contains("status"@));
        assert(keys.dom().contains("updated_at"@));
        assert(!keys.dom().contains("created_at"@));
    }
    if is_on_status_and(keys, "created_at"@, -1i32) || is_on_status_and(keys, "created_at"@, 1) {
        assert(keys.dom().contains("status"@));
        assert(keys.dom().contains("created_at"@));
        assert(!keys.dom().contains("updated_at"@));
    }
}

/// The kind of an index is told by its keys.
pub proof fn index_kind_is_told_by_its_keys(keys: Document, kind: IndexKind)
    requires
        call_ensures(index_kind, (&keys,), kind),
    ensures
        !(kind is Other) ==> are_keys_of(document_fields(keys), kind),
        forall|other: IndexKind|
            !(other is Other) && #[trigger] are_keys_of(document_fields(keys), other) ==> kind
                == other,
{
    kinds_mean(document_fields(keys));
}

/// Whether one of the indexes is of this kind.
pub open spec fn has_index(indexes: Seq<IndexInfo>, kind: IndexKind) -> bool {
    exists|i: int|
        0 <= i < indexes.len() && are_keys_of(document_fields((#[trigger] indexes[i]).keys), kind)
}

/// Whether one of the indexes keeps task ids unique.
pub open spec fn keeps_ids_unique(indexes: Seq<IndexInfo>) -> bool {
    exists|i: int|
        0 <= i < indexes.len() && are_keys_of(
            document_fields((#[trigger] indexes[i]).keys),
            IndexKind::TaskId,
        ) && indexes[i].unique == Some(true)
}

/// The number of indexes on the task id that do not keep it unique.
pub open spec fn loose_indexes(indexes: Seq<IndexInfo>) -> nat
    decreases indexes.len(),
{
    if indexes.len() == 0 {
        0
    } else {
        let earlier = loose_indexes(indexes.drop_last());
        if are_keys_of(document_fields(indexes.last().keys), IndexKind::TaskId)
            && indexes.last().unique != Some(true) {
            earlier + 1
        } else {
            earlier
        }
    }
}

/// The warnings begin with one for each index on the task id that does not keep it unique.
pub open spec fn begins_with_loose(warnings: Seq<IndexWarning>, count: nat) -> bool {
    &&& count <= warnings.len()
    &&& forall|i: int|
        0 <= i < count ==> #[trigger] warnings[i] == IndexWarning::TaskIdNotUnique
    &&& forall|i: int|
        count <= i < warnings.len() ==> #[trigger] warnings[i] != IndexWarning::TaskIdNotUnique
}

proof fn loose_indexes_are_warned_of(indexes: Seq<IndexInfo>)
    ensures
        warnings_about(indexes).len() == loose_indexes(indexes),
        forall|i: int|
            0 <= i < loose_indexes(indexes) ==> #[trigger] warnings_about(indexes)[i]
                == IndexWarning::TaskIdNotUnique,
    decreases indexes.len(),
{
    if indexes.len() > 0 {
        kinds_mean(document_fields(indexes.last().keys));
        assert(are_keys_of(document_fields(indexes.last().keys), IndexKind::TaskId) <==> is_kind(
            indexes.last(),
            IndexKind::TaskId,
        ));
        loose_indexes_are_warned_of(indexes.drop_last());
    }
}

proof fn listing_means(indexes: Seq<IndexInfo>)
    ensures
        has_unique_task_id(indexes) <==> keeps_ids_unique(indexes),
        has_kind(indexes, IndexKind::StatusUpdated) <==> has_index(
            indexes,
            IndexKind::StatusUpdated,
        ),
        has_kind(indexes, IndexKind::WorkerState) <==> has_index(
            indexes,
            IndexKind::WorkerState,
        ),
        has_kind(indexes, IndexKind::StatusCreated) <==> has_index(
            indexes,
            IndexKind::StatusCreated,
        ),
{
    assert forall|i: int, kind: IndexKind|
        0 <= i < indexes.len() && !(kind is Other) implies (#[trigger] is_kind(indexes[i], kind)
        <==> are_keys_of(document_fields(indexes[i].keys), kind)) by {
        kinds_mean(document_fields(indexes[i].keys));
    }
    if keeps_ids_unique(indexes) {
        let i = choose|i: int|
            0 <= i < indexes.len() && are_keys_of(
                document_fields((#[trigger] indexes[i]).keys),
                IndexKind::TaskId,
            ) && indexes[i].unique == Some(true);
        assert(is_kind(indexes[i], IndexKind::TaskId) && is_unique(indexes[i]));
    }
    index_means(indexes, IndexKind::StatusUpdated);
    index_means(indexes, IndexKind::WorkerState);
    index_means(indexes, IndexKind::StatusCreated);
}

proof fn index_means(indexes: Seq<IndexInfo>, kind: IndexKind)
    requires
        !(kind is Other),
    ensures
        has_kind(indexes, kind) <==> has_index(indexes, kind),
{
    assert forall|i: int| 0 <= i < indexes.len() implies (#[trigger] is_kind(indexes[i], kind)
        <==> are_keys_of(document_fields(indexes[i].keys), kind)) by {
        kinds_mean(document_fields(indexes[i].keys));
    }
    if has_index(indexes, kind) {
        let i = choose|i: int|
            0 <= i < indexes.len() && are_keys_of(
                document_fields((#[trigger] indexes[i]).keys),
                kind,
            );
        assert(is_kind(indexes[i], kind));
    }
}

/// The place of a warning among those about what is missing.
pub open spec fn place(warning: IndexWarning) -> int {
    match warning {
        IndexWarning::MissingTaskId => 0,
        IndexWarning::MissingStatusUpdated => 1,
        IndexWarning::MissingWorkerState => 2,
        IndexWarning::MissingStatusCreated => 3,
        _ => -1,
    }
}

/// The operator of a collection is told of every index that is missing, and of every one on the task
/// id that does not keep it unique; and of nothing else.
pub proof fn missing_indexes_are_told_of(
    indexes: Vec<IndexInfo>,
    claim_sort_configured: bool,
    warnings: Vec<IndexWarning>,
)
    requires
        call_ensures(
            warn_if_missing_indexes,
            (&IndexListing::Complete(indexes), claim_sort_configured),
            warnings,
        ),
    ensures
        begins_with_loose(warnings@, loose_indexes(indexes@)),
        warnings@.contains(IndexWarning::MissingTaskId) <==> !keeps_ids_unique(indexes@),
        warnings@.contains(IndexWarning::MissingStatusUpdated) <==> !has_index(
            indexes@,
            IndexKind::StatusUpdated,
        ),
        warnings@.contains(IndexWarning::MissingWorkerState) <==> !has_index(
            indexes@,
            IndexKind::WorkerState,
        ),
        warnings@.contains(IndexWarning::MissingStatusCreated) <==> claim_sort_configured
            && !has_index(indexes@, IndexKind::StatusCreated),
        forall|i: int, j: int|
            loose_indexes(indexes@) <= i < j < warnings@.len() ==> 0 <= place(
                #[trigger] warnings@[i],
            ) < place(#[trigger] warnings@[j]),
        !warnings@.contains(IndexWarning::CannotInspect),
        !warnings@.contains(IndexWarning::ListingBroken),
{
    let loose = warnings_about(indexes@);
    let missing = warnings_about_missing(indexes@, claim_sort_configured);
    loose_indexes_are_warned_of(indexes@);
    listing_means(indexes@);
    missing_means(indexes@, claim_sort_configured);
    assert(warnings@ == loose + missing);
    assert forall|warning: IndexWarning| #[trigger] warnings@.contains(warning) <==> loose.contains(
        warning,
    ) || missing.contains(warning) by {
        if loose.contains(warning) {
            let i = choose|i: int| 0 <= i < loose.len() && loose[i] == warning;
            assert(warnings@[i] == warning);
        }
        if missing.contains(warning) {
            let i = choose|i: int| 0 <= i < missing.len() && missing[i] == warning;
            assert(warnings@[loose.len() + i] == warning);
        }
    }
    assert forall|i: int| loose.len() <= i < warnings@.len() implies #[trigger] warnings@[i]
        == missing[i - loose.len()] by {}
}

proof fn missing_means(indexes: Seq<IndexInfo>, claim_sort_configured: bool)
    ensures
        ({
            let missing = warnings_about_missing(indexes, claim_sort_configured);
            &&& missing.contains(IndexWarning::MissingTaskId)
                <==> !has_unique_task_id(indexes)
            &&& missing.contains(IndexWarning::MissingStatusUpdated) <==> !has_kind(
                indexes,
                IndexKind::StatusUpdated,
            )
            &&& missing.contains(IndexWarning::MissingWorkerState) <==> !has_kind(
                indexes,
                IndexKind::WorkerState,
            )
            &&& missing.contains(IndexWarning::MissingStatusCreated) <==> claim_sort_configured
                && !has_kind(indexes, IndexKind::StatusCreated)
            &&& forall|i: int| 0 <= i < missing.len() ==> 0 <= place(#[trigger] missing[i])
            &&& forall|i: int, j: int|
                0 <= i < j < missing.len() ==> place(#[trigger] missing[i]) < place(
                    #[trigger] missing[j],
                )
        }),
{
    let first = warned_if(
        !has_unique_task_id(indexes),
        IndexWarning::MissingTaskId,
    );
    let second = warned_if(
        !has_kind(indexes, IndexKind::StatusUpdated),
        IndexWarning::MissingStatusUpdated,
    );
    let third = warned_if(
        !has_kind(indexes, IndexKind::WorkerState),
        IndexWarning::MissingWorkerState,
    );
    let fourth = warned_if(
        claim_sort_configured && !has_kind(indexes, IndexKind::StatusCreated),
        IndexWarning::MissingStatusCreated,
    );
    let missing = first + second + third + fourth;
    assert(missing == warnings_about_missing(indexes, claim_sort_configured));
    if first.len() > 0 {
        assert(missing[0] == IndexWarning::MissingTaskId);
    }
    if second.len() > 0 {
        assert(missing[first.len() as int] == IndexWarning::MissingStatusUpdated);
    }
    if third.len() > 0 {
        assert(missing[(first.len() + second.len()) as int] == IndexWarning::MissingWorkerState);
    }
    if fourth.len() > 0 {
        assert(missing[(first.len() + second.len() + third.len()) as int]
            == IndexWarning::MissingStatusCreated);
    }
}

/// Where the listing of the indexes broke off, the operator is told that, and of nothing that may stand
/// in the rest; where it could not be had, they are told so, unless the collection does not exist yet.
pub proof fn unread_indexes_are_told_of(
    indexes: Vec<IndexInfo>,
    error: DatabaseError,
    claim_sort_configured: bool,
    broken: Vec<IndexWarning>,
    unavailable: Vec<IndexWarning>,
)
    requires
        call_ensures(
            warn_if_missing_indexes,
            (&IndexListing::Broken(indexes), claim_sort_configured),
            broken,
        ),
        call_ensures(
            warn_if_missing_indexes,
            (&IndexListing::Unavailable(error), claim_sort_configured),
            unavailable,
        ),
    ensures
        broken@.len() == loose_indexes(indexes@) + 1,
        begins_with_loose(broken@, loose_indexes(indexes@)),
        broken@.last() == IndexWarning::ListingBroken,
        if error matches DatabaseError::Command { code, .. } && code == 26 {
            unavailable@.len() == 0
        } else {
            unavailable@.len() == 1 && unavailable@[0] == IndexWarning::CannotInspect
        },
{
    loose_indexes_are_warned_of(indexes@);
}

/// The warnings in words.
pub proof fn warnings_are_put_in_words(warning: IndexWarning, message: &'static str)
    requires
        call_ensures(IndexWarning::message, (warning,), message),
    ensures
        message@ == match warning {
            IndexWarning::CannotInspect =>
                "unable to inspect indexes; make sure task_id/status/worker_state indexes exist"@,
            IndexWarning::ListingBroken => "error iterating indexes"@,
            IndexWarning::TaskIdNotUnique =>
                "task_id index exists but is not unique; idempotency keys may break"@,
            IndexWarning::MissingTaskId =>
                "missing unique index on task_id; create one to enforce idempotency (db.collection.createIndex({ task_id: 1 }, { unique: true }))"@,
            IndexWarning::MissingStatusUpdated =>
                "missing index on { status: 1, updated_at: 1 }; fallback stale detection may require a scan"@,
            IndexWarning::MissingWorkerState =>
                "missing index on worker_state.worker_id; shutdown is slower"@,
            IndexWarning::MissingStatusCreated =>
                "Config.claim_sort is set but no { status: 1, created_at: -1/1 } index was found; sorted claims may require an in-memory sort at scale (db.collection.createIndex({ status: 1, created_at: -1 }))"@,
        },
{
}

} // verus!
