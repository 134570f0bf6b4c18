//! The caller's side: how a request becomes a task document, and how its outcome is read back.
use std::time::Duration;

use bson::{Bson, Document};
use opentelemetry::trace::SpanContext;
use serde_json::Value;
use vstd::prelude::*;

use crate::claim::{all_fields, is_random_uuid, operator, random_uuid};
use crate::config::{converts, Config};
use crate::database::DatabaseError;
use crate::document::{
    bson_array, bson_bool, bson_date, bson_doc, bson_i64, bson_null, bson_str, bson_value,
    bson_values, document_fields, document_get, document_get_str, field, no_fields, now_millis,
    one_field, same_text, str_field, string_view, with_field, BsonValue, Fields,
};
use crate::error::{joined, Failure, RequestError};
use crate::time::{duration_to_stored_millis, stored_millis};
use crate::trace::{captures, is_active_span, TraceContext, TraceIds};

verus! {

/// A request in the making: the payload, and what the caller sets in place of the configuration.
#[derive(Debug)]
pub struct SendBuilder {
    payload: Option<Bson>,
    payload_err: Option<RequestError>,
    timeout: Option<Duration>,
    worker_switch_timeout: Option<Duration>,
    idempotency_key: Option<String>,
    trace_context: Option<TraceContext>,
}

/// A `SendBuilder` as contracts speak of it.
pub ghost struct SendOptions {
    pub payload: Option<BsonValue>,
    pub payload_err: Option<Failure>,
    pub timeout: Option<Duration>,
    pub worker_switch_timeout: Option<Duration>,
    pub idempotency_key: Option<Seq<char>>,
    pub trace_context: Option<TraceIds>,
}

/// What an optional BSON value holds.
pub open spec fn optional_value(value: Option<Bson>) -> Option<BsonValue> {
    match value {
        Some(value) => Some(bson_value(value)),
        None => None,
    }
}

/// The view of an optional error.
pub open spec fn optional_failure(error: Option<RequestError>) -> Option<Failure> {
    match error {
        Some(error) => Some(error@),
        None => None,
    }
}

/// The view of an optional trace context.
pub open spec fn optional_ids(context: Option<TraceContext>) -> Option<TraceIds> {
    match context {
        Some(context) => Some(context@),
        None => None,
    }
}

impl View for SendBuilder {
    type V = SendOptions;

    closed spec fn view(&self) -> SendOptions {
        SendOptions {
            payload: optional_value(self.payload),
            payload_err: optional_failure(self.payload_err),
            timeout: self.timeout,
            worker_switch_timeout: self.worker_switch_timeout,
            idempotency_key: string_view(self.idempotency_key),
            trace_context: optional_ids(self.trace_context),
        }
    }
}

/// A request with nothing set: `payload` is nothing where the caller's value could not be
/// serialized.
pub open spec fn new_request(
    payload: Option<BsonValue>,
    trace_context: Option<TraceIds>,
) -> SendOptions {
    SendOptions {
        payload,
        payload_err: if payload is Some {
            None
        } else {
            Some(Failure::PayloadFormat("task_input"@))
        },
        timeout: None,
        worker_switch_timeout: None,
        idempotency_key: None,
        trace_context,
    }
}

/// A JSON value as BSON; nothing where BSON has no such value.
pub uninterp spec fn json_as_bson(value: Value) -> Option<BsonValue>;

#[verifier::external_type_specification]
#[verifier::external_body]
pub struct ExValue(Value);

/// `bson::serialize_to_bson`, on a JSON value: the value as BSON, an error where BSON has no such
/// value.
#[verifier::external_body]
fn json_to_bson(value: &Value) -> (bson: Option<Bson>)
    ensures
        optional_value(bson) == json_as_bson(*value),
{
    bson::serialize_to_bson(value).ok()
}

/// The payload that a JSON value stands for; nothing where there is no value, or none that can be
/// stored.
pub open spec fn payload_of(value: Option<Value>) -> Option<BsonValue> {
    match value {
        Some(value) => json_as_bson(value),
        None => None,
    }
}

impl SendBuilder {
    /// A request for a payload in JSON, nothing where the caller's value could not be serialized,
    /// with the tracing identifiers of the active span.
    pub fn from_json(value: Option<Value>) -> (request: SendBuilder)
        ensures
            exists|context: Option<TraceContext>, span_context: SpanContext| #[trigger]
                captures(context, span_context) && is_active_span(span_context) && request@
                    == new_request(payload_of(value), optional_ids(context)),
    {
        let payload = match &value {
            Some(value) => json_to_bson(value),
            None => None,
        };
        let context = TraceContext::capture_current();
        SendBuilder::with_captured(payload, context)
    }

    /// A request for `payload`, nothing where the caller's value could not be serialized, with these
    /// tracing identifiers.
    pub fn with_captured(payload: Option<Bson>, trace_context: Option<TraceContext>) -> (request:
        SendBuilder)
        ensures
            request@ == new_request(optional_value(payload), optional_ids(trace_context)),
    {
        let payload_err = match &payload {
            Some(_) => None,
            None => Some(RequestError::PayloadFormat { field: "task_input" }),
        };
        SendBuilder {
            payload,
            payload_err,
            timeout: None,
            worker_switch_timeout: None,
            idempotency_key: None,
            trace_context,
        }
    }

    /// Sets how long this caller waits, in place of what the configuration says.
    pub fn with_timeout(self, timeout: Duration) -> (request: SendBuilder)
        ensures
            request@ == (SendOptions { timeout: Some(timeout), ..self@ }),
    {
        let mut request = self;
        request.timeout = Some(timeout);
        request
    }

    /// Sets how long after its last heartbeat the task may be taken over, in place of what the
    /// configuration says.
    pub fn with_worker_switch_timeout(self, timeout: Duration) -> (request: SendBuilder)
        ensures
            request@ == (SendOptions { worker_switch_timeout: Some(timeout), ..self@ }),
    {
        let mut request = self;
        request.worker_switch_timeout = Some(timeout);
        request
    }

    /// Sets the task's id, by which repeated requests are told apart from new ones. Without it the
    /// id is a random UUID.
    pub fn with_idempotency_key<T: Into<String>>(self, key: T) -> (request: SendBuilder)
        ensures
            exists|text: String| #[trigger]
                converts(key, text) && request@ == (SendOptions {
                    idempotency_key: Some(text@),
                    ..self@
                }),
    {
        let mut request = self;
        let text: String = key.into();
        assert(converts(key, text));
        request.idempotency_key = Some(text);
        request
    }

    /// Sets the tracing identifiers, in place of those of the span that was active.
    pub fn with_trace_context(self, trace: TraceContext) -> (request: SendBuilder)
        ensures
            request@ == (SendOptions { trace_context: Some(trace@), ..self@ }),
    {
        let mut request = self;
        request.trace_context = Some(trace);
        request
    }

    /// The request as it goes out under `config`. It goes out once: the payload, or the error that
    /// stands for it, leaves the builder.
    pub fn take_request(&mut self, config: &Config) -> (request: Result<Request, RequestError>)
        ensures
            match old(self)@.payload_err {
                Some(failure) => {
                    &&& request matches Err(error) && error@ == failure
                    &&& final(self)@ == (SendOptions { payload_err: None, ..old(self)@ })
                },
                None => {
                    &&& final(self)@ == (SendOptions { payload: None, ..old(self)@ })
                    &&& match old(self)@.payload {
                        Some(payload) => request matches Ok(request) && request@
                            == old(self)@.sent(payload, *config),
                        None => request matches Err(error) && error@ == Failure::PayloadFormat(
                            "task_input"@,
                        ),
                    }
                },
            },
    {
        if let Some(error) = self.payload_err.take() {
            return Err(error);
        }
        let payload = match self.payload.take() {
            Some(payload) => payload,
            None => {
                return Err(RequestError::PayloadFormat { field: "task_input" });
            },
        };
        let trace_context = match &self.trace_context {
            Some(context) => Some(context.clone()),
            None => None,
        };
        let idempotency_key = match &self.idempotency_key {
            Some(key) => Some(key.clone()),
            None => None,
        };
        Ok(
            Request {
                payload,
                timeout: match self.timeout {
                    Some(timeout) => Some(timeout),
                    None => config.request_timeout,
                },
                worker_switch_timeout: match self.worker_switch_timeout {
                    Some(timeout) => timeout,
                    None => config.worker_switch_timeout,
                },
                idempotency_key,
                trace_context,
                allow_reset: config.allow_reset_finished_tasks,
            },
        )
    }
}

impl SendOptions {
    /// The request with this payload, the configuration filling in what was not set.
    pub open spec fn sent(self, payload: BsonValue, config: Config) -> SentRequest {
        SentRequest {
            payload,
            timeout: if self.timeout is Some {
                self.timeout
            } else {
                config.request_timeout
            },
            worker_switch_timeout: match self.worker_switch_timeout {
                Some(timeout) => timeout,
                None => config.worker_switch_timeout,
            },
            idempotency_key: self.idempotency_key,
            trace_context: self.trace_context,
            allow_reset: config.allow_reset_finished_tasks,
        }
    }
}

/// A request with everything settled.
#[derive(Debug)]
pub struct Request {
    pub payload: Bson,
    /// How long the caller waits for the outcome; `None` waits forever.
    pub timeout: Option<Duration>,
    pub worker_switch_timeout: Duration,
    pub idempotency_key: Option<String>,
    pub trace_context: Option<TraceContext>,
    /// Whether the id of a finished task may be used again.
    pub allow_reset: bool,
}

/// A `Request` as contracts speak of it.
pub ghost struct SentRequest {
    pub payload: BsonValue,
    pub timeout: Option<Duration>,
    pub worker_switch_timeout: Duration,
    pub idempotency_key: Option<Seq<char>>,
    pub trace_context: Option<TraceIds>,
    pub allow_reset: bool,
}

impl View for Request {
    type V = SentRequest;

    open spec fn view(&self) -> SentRequest {
        SentRequest {
            payload: bson_value(self.payload),
            timeout: self.timeout,
            worker_switch_timeout: self.worker_switch_timeout,
            idempotency_key: string_view(self.idempotency_key),
            trace_context: optional_ids(self.trace_context),
            allow_reset: self.allow_reset,
        }
    }
}

/// The condition that a document has no status: no task document meets it, so a filter with it can
/// only lead to an insertion.
pub open spec fn no_status() -> Fields {
    no_fields().insert("status"@, operator("$exists"@, BsonValue::Bool(false)))
}

/// The condition that a task has finished.
pub open spec fn finished_status() -> Fields {
    no_fields().insert(
        "status"@,
        operator(
            "$in"@,
            BsonValue::Array(seq![BsonValue::Str("succeeded"@), BsonValue::Str("failed"@)]),
        ),
    )
}

/// The filter by which a request is enqueued: it selects a finished task with that id where those
/// may be reset, and otherwise nothing.
pub open spec fn enqueue_filter(task_id: Seq<char>, allow_reset: bool) -> Fields {
    let filter = no_fields().insert("task_id"@, BsonValue::Str(task_id));
    if allow_reset {
        filter.insert(
            "$or"@,
            BsonValue::Array(
                seq![BsonValue::Doc(no_status()), BsonValue::Doc(finished_status())],
            ),
        )
    } else {
        filter.insert("status"@, operator("$exists"@, BsonValue::Bool(false)))
    }
}

/// An optional duration as a task document stores it.
pub open spec fn optional_millis(duration: Option<Duration>) -> Option<i64> {
    match duration {
        Some(duration) => Some(stored_millis(duration)),
        None => None,
    }
}

/// What enqueuing sets. The idempotency key is the task's id; the caller's own timeout is there for
/// reference.
pub open spec fn enqueue_changes(
    task_id: Seq<char>,
    payload: BsonValue,
    now: i64,
    worker_switch_timeout_ms: i64,
    request_timeout_ms: Option<i64>,
    trace_context: Option<TraceIds>,
) -> Fields {
    no_fields().insert("task_id"@, BsonValue::Str(task_id)).insert(
        "idempotency_key"@,
        BsonValue::Str(task_id),
    ).insert("task_input"@, payload).insert("status"@, BsonValue::Str("pending"@)).insert("updated_at"@, BsonValue::Date(now)).insert(
        "worker_switch_timeout"@,
        BsonValue::Int64(worker_switch_timeout_ms),
    ).insert(
        "request_timeout"@,
        match request_timeout_ms {
            Some(millis) => BsonValue::Int64(millis),
            None => BsonValue::Null,
        },
    ).insert(
        "trace_context"@,
        match trace_context {
            Some(ids) => BsonValue::Doc(ids.stored()),
            None => BsonValue::Null,
        },
    )
}

/// What enqueuing removes of an earlier life of the task.
pub open spec fn enqueue_removals() -> Fields {
    no_fields().insert("task_output"@, BsonValue::Str(""@)).insert(
        "error_reason"@,
        BsonValue::Str(""@),
    ).insert("worker_state"@, BsonValue::Str(""@))
}

/// The update by which a request is enqueued.
pub open spec fn enqueue_update(
    task_id: Seq<char>,
    payload: BsonValue,
    now: i64,
    worker_switch_timeout_ms: i64,
    request_timeout_ms: Option<i64>,
    trace_context: Option<TraceIds>,
) -> Fields {
    no_fields().insert(
        "$set"@,
        BsonValue::Doc(
            enqueue_changes(
                task_id,
                payload,
                now,
                worker_switch_timeout_ms,
                request_timeout_ms,
                trace_context,
            ),
        ),
    ).insert(
        "$setOnInsert"@,
        BsonValue::Doc(no_fields().insert("created_at"@, BsonValue::Date(now))),
    ).insert("$unset"@, BsonValue::Doc(enqueue_removals()))
}

/// A task ready to be enqueued: the filter and the update of an upsert.
#[derive(Debug)]
pub struct PreparedTask {
    pub task_id: String,
    pub filter: Document,
    pub update: Document,
}

impl PreparedTask {
    /// Whether this enqueues `request` under `task_id` at `now`.
    pub open spec fn enqueues(self, request: SentRequest, task_id: Seq<char>, now: i64) -> bool {
        &&& self.task_id@ == task_id
        &&& document_fields(self.filter) == enqueue_filter(task_id, request.allow_reset)
        &&& document_fields(self.update) == enqueue_update(
            task_id,
            request.payload,
            now,
            stored_millis(request.worker_switch_timeout),
            optional_millis(request.timeout),
            request.trace_context,
        )
    }
}

fn enqueue_filter_document(task_id: &str, allow_reset: bool) -> (filter: Document)
    ensures
        document_fields(filter) == enqueue_filter(task_id@, allow_reset),
{
    let filter = one_field("task_id", bson_str(task_id));
    let absent = bson_doc(one_field("$exists", bson_bool(false)));
    if !allow_reset {
        return with_field(filter, "status", absent);
    }
    let mut finished: Vec<Bson> = Vec::new();
    finished.push(bson_str("succeeded"));
    finished.push(bson_str("failed"));
    proof {
        assert(bson_values(finished@) =~= seq![
            BsonValue::Str("succeeded"@),
            BsonValue::Str("failed"@),
        ]);
    }
    let finished = bson_doc(one_field("$in", bson_array(finished)));
    let mut alternatives: Vec<Bson> = Vec::new();
    alternatives.push(bson_doc(one_field("status", absent)));
    alternatives.push(bson_doc(one_field("status", finished)));
    proof {
        assert(bson_values(alternatives@) =~= seq![
            BsonValue::Doc(no_status()),
            BsonValue::Doc(finished_status()),
        ]);
    }
    with_field(filter, "$or", bson_array(alternatives))
}

/// The task that enqueues `request` under `task_id` at `now`.
pub fn prepare_task_at(request: Request, task_id: String, now: i64) -> (task: PreparedTask)
    ensures
        task.enqueues(request@, task_id@, now),
{
    let filter = enqueue_filter_document(task_id.as_str(), request.allow_reset);
    let changes = one_field("task_id", bson_str(task_id.as_str()));
    let changes = with_field(changes, "idempotency_key", bson_str(task_id.as_str()));
    let changes = with_field(changes, "task_input", request.payload);
    let changes = with_field(changes, "status", bson_str("pending"));
    let changes = with_field(changes, "updated_at", bson_date(now));
    let changes = with_field(
        changes,
        "worker_switch_timeout",
        bson_i64(duration_to_stored_millis(request.worker_switch_timeout)),
    );
    let timeout_bson = match request.timeout {
        Some(timeout) => bson_i64(duration_to_stored_millis(timeout)),
        None => bson_null(),
    };
    let changes = with_field(changes, "request_timeout", timeout_bson);
    let trace_bson = match &request.trace_context {
        Some(context) => bson_doc(context.to_document()),
        None => bson_null(),
    };
    let changes = with_field(changes, "trace_context", trace_bson);
    let removals = one_field("task_output", bson_str(""));
    let removals = with_field(removals, "error_reason", bson_str(""));
    let removals = with_field(removals, "worker_state", bson_str(""));
    let update = one_field("$set", bson_doc(changes));
    let update = with_field(
        update,
        "$setOnInsert",
        bson_doc(one_field("created_at", bson_date(now))),
    );
    let update = with_field(update, "$unset", bson_doc(removals));
    PreparedTask { task_id, filter, update }
}

/// The task that enqueues `request` now: under its idempotency key, or under a random UUID where it
/// has none.
pub fn prepare_task(request: Request) -> (task: PreparedTask)
    ensures
        exists|now: i64| #[trigger] task.enqueues(request@, task.task_id@, now),
        match request@.idempotency_key {
            Some(key) => task.task_id@ == key,
            None => is_random_uuid(task.task_id@),
        },
{
    let ghost sent = request@;
    let mut request = request;
    let task_id = match request.idempotency_key.take() {
        Some(key) => key,
        None => random_uuid(),
    };
    let now: i64 = now_millis();
    let task = prepare_task_at(request, task_id, now);
    assert(task.enqueues(sent, task_id@, now));
    task
}

/// What an upsert reports.
#[derive(Debug)]
pub struct UpsertReport {
    /// Whether a document was inserted.
    pub inserted: bool,
    /// How many documents the filter selected.
    pub matched_count: u64,
}

/// What a caller learns of an upsert. That a document was neither inserted nor selected, or that its
/// key is taken, says that the task exists and may not be reset.
pub fn enqueue_outcome(task_id: String, result: Result<UpsertReport, DatabaseError>) -> (outcome:
    Result<String, RequestError>)
    ensures
        match result {
            Ok(report) => if report.inserted || report.matched_count > 0 {
                outcome == Ok::<String, RequestError>(task_id)
            } else {
                outcome matches Err(error) && error@ == Failure::Duplicate(task_id@)
            },
            Err(error) => if error matches DatabaseError::Write { code, .. } && code == 11000 {
                outcome matches Err(failure) && failure@ == Failure::Duplicate(task_id@)
            } else {
                outcome matches Err(failure) && failure@ == Failure::Database(error.text())
            },
        },
{
    match result {
        Ok(report) => if report.inserted || report.matched_count > 0 {
            Ok(task_id)
        } else {
            Err(RequestError::Duplicate { task_id })
        },
        Err(error) => if error.is_duplicate_key() {
            Err(RequestError::Duplicate { task_id })
        } else {
            Err(error.into_request_error())
        },
    }
}

/// The filter for the task with this id.
pub fn task_filter(task_id: &str) -> (filter: Document)
    ensures
        document_fields(filter) == no_fields().insert("task_id"@, BsonValue::Str(task_id@)),
{
    one_field("task_id", bson_str(task_id))
}

/// The pipeline of a change stream that reports every change of the task with this id.
pub fn result_pipeline(task_id: &str) -> (pipeline: Vec<Document>)
    ensures
        all_fields(pipeline@) == seq![
            no_fields().insert(
                "$match"@,
                BsonValue::Doc(
                    no_fields().insert("fullDocument.task_id"@, BsonValue::Str(task_id@)),
                ),
            ),
        ],
{
    let stage = one_field("$match", bson_doc(one_field("fullDocument.task_id", bson_str(task_id))));
    let mut pipeline: Vec<Document> = Vec::new();
    pipeline.push(stage);
    proof {
        assert(all_fields(pipeline@) =~= seq![document_fields(stage)]);
    }
    pipeline
}

/// How a task ended.
#[derive(Debug)]
pub enum TaskOutcome {
    /// With this output.
    Succeeded(Bson),
    /// For this reason.
    Failed(RequestError),
}

/// What a task document says about the outcome.
pub ghost enum Evaluation {
    /// The document lacks a field that it must have, or the field has the wrong type.
    Malformed(Seq<char>),
    /// The task has not ended.
    Undecided,
    /// The task has succeeded with this output.
    Succeeded(BsonValue),
    /// The task has failed for this reason.
    Failed(Seq<char>),
}

/// What a task document says about the outcome.
pub open spec fn evaluation(task: Fields) -> Evaluation {
    match str_field(task, "status"@) {
        None => Evaluation::Malformed("status"@),
        Some(status) => if status == "succeeded"@ {
            match field(task, "task_output"@) {
                Some(output) => Evaluation::Succeeded(output),
                None => Evaluation::Malformed("task_output"@),
            }
        } else if status == "failed"@ {
            Evaluation::Failed(
                match str_field(task, "error_reason"@) {
                    Some(reason) => reason,
                    None => "worker failed"@,
                },
            )
        } else {
            Evaluation::Undecided
        },
    }
}

/// Whether a result says what the evaluation says.
pub open spec fn reports(
    result: Result<Option<TaskOutcome>, RequestError>,
    evaluation: Evaluation,
) -> bool {
    match evaluation {
        Evaluation::Malformed(name) => result matches Err(error) && error@
            == Failure::PayloadFormat(name),
        Evaluation::Undecided => result matches Ok(None),
        Evaluation::Succeeded(output) => result matches Ok(Some(TaskOutcome::Succeeded(value)))
            && bson_value(value) == output,
        Evaluation::Failed(reason) => result matches Ok(Some(TaskOutcome::Failed(error))) && error@
            == Failure::TaskFailed(reason),
    }
}

/// Reads the outcome of a task from its document; nothing while the task has not ended.
pub fn evaluate_document(doc: &Document) -> (outcome: Result<Option<TaskOutcome>, RequestError>)
    ensures
        reports(outcome, evaluation(document_fields(*doc))),
{
    proof {
        reveal_strlit("pending");
        reveal_strlit("succeeded");
        reveal_strlit("failed");
        assert("pending"@.len() != "succeeded"@.len());
        assert("pending"@.len() != "failed"@.len());
    }
    let status = match document_get_str(doc, "status") {
        Some(status) => status,
        None => {
            return Err(RequestError::PayloadFormat { field: "status" });
        },
    };
    if same_text(status, "pending") {
        return Ok(None);
    }
    if same_text(status, "succeeded") {
        return match document_get(doc, "task_output") {
            Some(output) => Ok(Some(TaskOutcome::Succeeded(output))),
            None => Err(RequestError::PayloadFormat { field: "task_output" }),
        };
    }
    if same_text(status, "failed") {
        let reason = match document_get_str(doc, "error_reason") {
            Some(reason) => reason.to_owned(),
            None => "worker failed".to_owned(),
        };
        return Ok(Some(TaskOutcome::Failed(RequestError::TaskFailed { reason })));
    }
    Ok(None)
}

/// Reads the outcome of a task from what was found under its id. A task that is not there counts as
/// failed.
pub fn inspect_found(task_id: &str, found: Option<&Document>) -> (outcome: Result<
    Option<TaskOutcome>,
    RequestError,
>)
    ensures
        match found {
            Some(doc) => reports(outcome, evaluation(document_fields(*doc))),
            None => outcome matches Ok(Some(TaskOutcome::Failed(error))) && error@
                == Failure::TaskFailed("task "@ + task_id@ + " missing"@),
        },
{
    match found {
        Some(doc) => evaluate_document(doc),
        None => {
            let front = joined("task ", task_id);
            let reason = joined(front.as_str(), " missing");
            Ok(Some(TaskOutcome::Failed(RequestError::TaskFailed { reason })))
        },
    }
}

/// The output as the caller's own type, or the error for an output that is not of that type.
pub fn decoded_output<TOutput>(output: Option<TOutput>) -> (result: Result<TOutput, RequestError>)
    ensures
        match output {
            Some(output) => result == Ok::<TOutput, RequestError>(output),
            None => result matches Err(error) && error@ == Failure::PayloadFormat("task_output"@),
        },
{
    match output {
        Some(output) => Ok(output),
        None => Err(RequestError::PayloadFormat { field: "task_output" }),
    }
}

} // verus!
