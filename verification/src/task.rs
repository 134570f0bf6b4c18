//! The life of one claimed task inside a worker.
use std::time::Duration;

use bson::{Bson, Document};
use vstd::prelude::*;

use crate::claim::{
    failure_changes, failure_update_at, heartbeat_changes, heartbeat_update_at, ownership,
    ownership_filter, set_update, success_changes, success_update_at,
};
use crate::database::DatabaseError;
use crate::document::{
    bson_is_null, bson_value, doc_field, document_fields, document_get, document_get_document,
    document_get_str, field, now_millis, str_field, BsonValue, Fields,
};
use crate::error::{joined, Failure, RequestError};
use crate::heartbeat::heartbeat_interval;
use crate::schedule::{is_timeout, stored_switch_timeout, task_switch_timeout};
use crate::time::duration_nanos;
use crate::trace::TraceContext;

verus! {

/// What a handler receives: the task id, which is also the idempotency key, the caller's tracing
/// identifiers, and the payload.
#[derive(Debug)]
pub struct WorkerJob<TInput> {
    pub task_id: String,
    pub trace_context: Option<TraceContext>,
    pub payload: TInput,
}

/// The claim that a task document records, as far as it records one.
pub open spec fn recorded_token(task: Fields) -> Seq<char> {
    match doc_field(task, "worker_state"@) {
        Some(worker_state) => match str_field(worker_state, "claim_token"@) {
            Some(token) => token,
            None => ""@,
        },
        None => ""@,
    }
}

fn claim_token_of(doc: &Document) -> (token: String)
    ensures
        token@ == recorded_token(document_fields(*doc)),
{
    match document_get_document(doc, "worker_state") {
        Some(worker_state) => match document_get_str(worker_state, "claim_token") {
            Some(token) => token.to_owned(),
            None => "".to_owned(),
        },
        None => "".to_owned(),
    }
}

/// The caller's tracing identifiers as a task document stores them; nothing where it stores none.
pub fn stored_trace_context(doc: &Document) -> (raw: Option<Bson>)
    ensures
        match raw {
            Some(raw) => field(document_fields(*doc), "trace_context"@) == Some(bson_value(raw))
                && bson_value(raw) != BsonValue::Null,
            None => field(document_fields(*doc), "trace_context"@) is None || field(
                document_fields(*doc),
                "trace_context"@,
            ) == Some(BsonValue::Null),
        },
{
    match document_get(doc, "trace_context") {
        Some(raw) => if bson_is_null(&raw) {
            None
        } else {
            Some(raw)
        },
        None => None,
    }
}

/// How far a task has come.
#[derive(Debug)]
enum TaskPhase {
    /// The payload is being turned into the handler's input.
    Decoding,
    /// A first heartbeat shows whether the claim still holds.
    Confirming,
    /// The handler runs.
    Running,
    /// The output is being written.
    Completing,
    /// The failure is being written, after which the task ends with this error.
    Failing(RequestError),
    /// The task has ended.
    Finished,
}

/// A `TaskPhase` as contracts speak of it.
pub ghost enum Phase {
    Decoding,
    Confirming,
    Running,
    Completing,
    Failing(Failure),
    Finished,
}

/// One claimed task on its way from the claim to its end.
#[derive(Debug)]
pub struct TaskRun {
    task_id: String,
    worker_id: String,
    claim_token: String,
    switch_timeout: Duration,
    phase: TaskPhase,
}

/// A `TaskRun` as contracts speak of it.
pub ghost struct TaskState {
    pub task_id: Seq<char>,
    pub worker_id: Seq<char>,
    pub claim_token: Seq<char>,
    pub switch_timeout: Duration,
    pub phase: Phase,
}

impl View for TaskRun {
    type V = TaskState;

    closed spec fn view(&self) -> TaskState {
        TaskState {
            task_id: self.task_id@,
            worker_id: self.worker_id@,
            claim_token: self.claim_token@,
            switch_timeout: self.switch_timeout,
            phase: match self.phase {
                TaskPhase::Decoding => Phase::Decoding,
                TaskPhase::Confirming => Phase::Confirming,
                TaskPhase::Running => Phase::Running,
                TaskPhase::Completing => Phase::Completing,
                TaskPhase::Failing(error) => Phase::Failing(error@),
                TaskPhase::Finished => Phase::Finished,
            },
        }
    }
}

/// What is to be done next for a task.
#[derive(Debug)]
pub enum TaskAction {
    /// Turn the payload into the handler's input.
    Decode { payload: Bson },
    /// Write a heartbeat.
    Heartbeat { filter: Document, update: Document },
    /// Run the handler, with a heartbeat at this interval.
    RunHandler { heartbeat_interval: Duration },
    /// Write the output.
    Complete { filter: Document, update: Document },
    /// Write the failure.
    MarkFailed { filter: Document, update: Document },
    /// The task has ended.
    Finish(Result<(), RequestError>),
    /// Nothing: what happened has no bearing on the task as it stands.
    Nothing,
}

/// A `TaskAction` as contracts speak of it.
pub ghost enum TaskStep {
    Decode(BsonValue),
    Heartbeat { filter: Fields, update: Fields },
    RunHandler { heartbeat_nanos: nat },
    Complete { filter: Fields, update: Fields },
    MarkFailed { filter: Fields, update: Fields },
    Finish(Result<(), Failure>),
    Nothing,
}

impl View for TaskAction {
    type V = TaskStep;

    open spec fn view(&self) -> TaskStep {
        match *self {
            TaskAction::Decode { payload } => TaskStep::Decode(bson_value(payload)),
            TaskAction::Heartbeat { filter, update } => TaskStep::Heartbeat {
                filter: document_fields(filter),
                update: document_fields(update),
            },
            TaskAction::RunHandler { heartbeat_interval } => TaskStep::RunHandler {
                heartbeat_nanos: duration_nanos(heartbeat_interval),
            },
            TaskAction::Complete { filter, update } => TaskStep::Complete {
                filter: document_fields(filter),
                update: document_fields(update),
            },
            TaskAction::MarkFailed { filter, update } => TaskStep::MarkFailed {
                filter: document_fields(filter),
                update: document_fields(update),
            },
            TaskAction::Finish(Ok(_)) => TaskStep::Finish(Ok(())),
            TaskAction::Finish(Err(error)) => TaskStep::Finish(Err(error@)),
            TaskAction::Nothing => TaskStep::Nothing,
        }
    }
}

/// What has happened to a task.
#[derive(Debug)]
pub enum TaskEvent {
    /// The payload was turned into the handler's input, or could not be.
    Decoded(bool),
    /// A write went through, with the number of documents that it found, or failed.
    Written(Result<u64, DatabaseError>),
    /// The handler succeeded; its output is here unless it could not be serialized.
    HandlerSucceeded(Option<Bson>),
    /// The handler failed.
    HandlerFailed(RequestError),
    /// A heartbeat found the task under another claim, or ended.
    OwnershipLost,
}

/// A `TaskEvent` as contracts speak of it.
pub ghost enum TaskInput {
    Decoded(bool),
    Written(Result<u64, Seq<char>>),
    HandlerSucceeded(Option<BsonValue>),
    HandlerFailed(Failure),
    OwnershipLost,
}

impl View for TaskEvent {
    type V = TaskInput;

    open spec fn view(&self) -> TaskInput {
        match *self {
            TaskEvent::Decoded(decoded) => TaskInput::Decoded(decoded),
            TaskEvent::Written(Ok(count)) => TaskInput::Written(Ok(count)),
            TaskEvent::Written(Err(error)) => TaskInput::Written(Err(error.text())),
            TaskEvent::HandlerSucceeded(Some(output)) => TaskInput::HandlerSucceeded(
                Some(bson_value(output)),
            ),
            TaskEvent::HandlerSucceeded(None) => TaskInput::HandlerSucceeded(None),
            TaskEvent::HandlerFailed(error) => TaskInput::HandlerFailed(error@),
            TaskEvent::OwnershipLost => TaskInput::OwnershipLost,
        }
    }
}

impl TaskState {
    /// The filter that confines a write to this claim.
    pub open spec fn fence(self) -> Fields {
        ownership(self.task_id, self.worker_id, self.claim_token)
    }

    /// The task in another phase.
    pub open spec fn at(self, phase: Phase) -> TaskState {
        TaskState { phase, ..self }
    }

    /// The task on its way out with a failure, and the write that records it.
    pub open spec fn failing(
        self,
        origin: Seq<char>,
        failure: Failure,
        updated_at: i64,
        finished_at: i64,
    ) -> (TaskState, TaskStep) {
        (
            self.at(Phase::Failing(failure)),
            TaskStep::MarkFailed {
                filter: self.fence(),
                update: set_update(
                    failure_changes(origin + failure.message(), updated_at, finished_at),
                ),
            },
        )
    }

    /// The task at its end.
    pub open spec fn finished(self, result: Result<(), Failure>) -> (TaskState, TaskStep) {
        (self.at(Phase::Finished), TaskStep::Finish(result))
    }

    /// What an event makes of the task, and what is to be done next. Writes carry the instants
    /// `updated_at` and `finished_at`.
    pub open spec fn next(self, input: TaskInput, updated_at: i64, finished_at: i64) -> (
        TaskState,
        TaskStep,
    ) {
        match (self.phase, input) {
            (Phase::Decoding, TaskInput::Decoded(true)) => (
                self.at(Phase::Confirming),
                TaskStep::Heartbeat {
                    filter: self.fence(),
                    update: set_update(heartbeat_changes(updated_at)),
                },
            ),
            (Phase::Decoding, TaskInput::Decoded(false)) => self.failing(
                "infrastructure error: "@,
                Failure::PayloadFormat("task_input"@),
                updated_at,
                finished_at,
            ),
            (Phase::Confirming, TaskInput::Written(Ok(count))) => if count > 0 {
                (
                    self.at(Phase::Running),
                    TaskStep::RunHandler {
                        heartbeat_nanos: duration_nanos(self.switch_timeout) / 3,
                    },
                )
            } else {
                self.finished(Err(Failure::WorkerGone))
            },
            (Phase::Confirming, TaskInput::Written(Err(text))) => self.failing(
                "infrastructure error: "@,
                Failure::Database(text),
                updated_at,
                finished_at,
            ),
            (Phase::Running, TaskInput::HandlerSucceeded(Some(output))) => (
                self.at(Phase::Completing),
                TaskStep::Complete {
                    filter: self.fence(),
                    update: set_update(success_changes(output, updated_at, finished_at)),
                },
            ),
            (Phase::Running, TaskInput::HandlerSucceeded(None)) => self.finished(
                Err(Failure::PayloadFormat("task_output"@)),
            ),
            (Phase::Running, TaskInput::HandlerFailed(failure)) => self.failing(
                "handler error: "@,
                failure,
                updated_at,
                finished_at,
            ),
            (Phase::Running, TaskInput::OwnershipLost) => self.finished(Err(Failure::WorkerGone)),
            (Phase::Completing, TaskInput::Written(Ok(count))) => if count > 0 {
                self.finished(Ok(()))
            } else {
                self.finished(Err(Failure::WorkerGone))
            },
            (Phase::Completing, TaskInput::Written(Err(text))) => self.finished(
                Err(Failure::Database(text)),
            ),
            (Phase::Failing(failure), TaskInput::Written(_)) => self.finished(Err(failure)),
            _ => (self, TaskStep::Nothing),
        }
    }
}

/// The task that a claim has won, and what is to be done first. Nothing can be done for a document
/// without a task id.
pub open spec fn started(
    task: Fields,
    worker_id: Seq<char>,
    switch_timeout: Duration,
    updated_at: i64,
    finished_at: i64,
) -> Option<(TaskState, TaskStep)> {
    match str_field(task, "task_id"@) {
        None => None,
        Some(task_id) => {
            let state = TaskState {
                task_id,
                worker_id,
                claim_token: recorded_token(task),
                switch_timeout,
                phase: Phase::Decoding,
            };
            match field(task, "task_input"@) {
                Some(payload) => Some((state, TaskStep::Decode(payload))),
                None => Some(
                    state.failing(
                        "infrastructure error: "@,
                        Failure::PayloadFormat("task_input"@),
                        updated_at,
                        finished_at,
                    ),
                ),
            }
        },
    }
}

impl TaskRun {
    /// Starts a task that a claim has won. Writes carry the instants `updated_at` and
    /// `finished_at`.
    pub fn start_at(
        doc: &Document,
        worker_id: &str,
        worker_switch_timeout: Duration,
        updated_at: i64,
        finished_at: i64,
    ) -> (start: Result<(TaskRun, TaskAction), RequestError>)
        ensures
            match start {
                Ok((run, action)) => {
                    &&& is_timeout(
                        stored_switch_timeout(document_fields(*doc)),
                        worker_switch_timeout,
                        run@.switch_timeout,
                    )
                    &&& started(
                        document_fields(*doc),
                        worker_id@,
                        run@.switch_timeout,
                        updated_at,
                        finished_at,
                    ) == Some((run@, action@))
                },
                Err(error) => {
                    &&& error@ == Failure::PayloadFormat("task_id"@)
                    &&& str_field(document_fields(*doc), "task_id"@) is None
                },
            },
    {
        let task_id = match document_get_str(doc, "task_id") {
            Some(task_id) => task_id.to_owned(),
            None => {
                return Err(RequestError::PayloadFormat { field: "task_id" });
            },
        };
        let mut run = TaskRun {
            task_id,
            worker_id: worker_id.to_owned(),
            claim_token: claim_token_of(doc),
            switch_timeout: task_switch_timeout(doc, worker_switch_timeout),
            phase: TaskPhase::Decoding,
        };
        let action = match document_get(doc, "task_input") {
            Some(payload) => TaskAction::Decode { payload },
            None => run.fail(
                "infrastructure error: ",
                RequestError::PayloadFormat { field: "task_input" },
                updated_at,
                finished_at,
            ),
        };
        Ok((run, action))
    }

    /// Starts a task that a claim has just won.
    pub fn start(doc: &Document, worker_id: &str, worker_switch_timeout: Duration) -> (start:
        Result<(TaskRun, TaskAction), RequestError>)
        ensures
            match start {
                Ok((run, action)) => {
                    &&& is_timeout(
                        stored_switch_timeout(document_fields(*doc)),
                        worker_switch_timeout,
                        run@.switch_timeout,
                    )
                    &&& exists|updated_at: i64, finished_at: i64| #[trigger]
                        started(
                            document_fields(*doc),
                            worker_id@,
                            run@.switch_timeout,
                            updated_at,
                            finished_at,
                        ) == Some((run@, action@))
                },
                Err(error) => {
                    &&& error@ == Failure::PayloadFormat("task_id"@)
                    &&& str_field(document_fields(*doc), "task_id"@) is None
                },
            },
    {
        let updated_at: i64 = now_millis();
        let finished_at: i64 = now_millis();
        TaskRun::start_at(doc, worker_id, worker_switch_timeout, updated_at, finished_at)
    }

    /// The filter that confines a write to this claim.
    fn fence(&self) -> (filter: Document)
        ensures
            document_fields(filter) == self@.fence(),
    {
        ownership_filter(self.task_id.as_str(), self.worker_id.as_str(), self.claim_token.as_str())
    }

    /// Sends the task on its way out with a failure.
    fn fail(
        &mut self,
        origin: &str,
        error: RequestError,
        updated_at: i64,
        finished_at: i64,
    ) -> (action: TaskAction)
        ensures
            (final(self)@, action@) == old(self)@.failing(
                origin@,
                error@,
                updated_at,
                finished_at,
            ),
    {
        let message = error.message();
        let reason = joined(origin, message.as_str());
        let update = failure_update_at(reason.as_str(), updated_at, finished_at);
        let filter = self.fence();
        self.phase = TaskPhase::Failing(error);
        TaskAction::MarkFailed { filter, update }
    }

    /// Takes in what has happened and says what is to be done next. Writes carry the instants
    /// `updated_at` and `finished_at`.
    pub fn step_at(&mut self, event: TaskEvent, updated_at: i64, finished_at: i64) -> (action:
        TaskAction)
        ensures
            (final(self)@, action@) == old(self)@.next(event@, updated_at, finished_at),
    {
        let mut phase = TaskPhase::Finished;
        std::mem::swap(&mut phase, &mut self.phase);
        match phase {
            TaskPhase::Decoding => match event {
                TaskEvent::Decoded(decoded) => if decoded {
                    self.phase = TaskPhase::Confirming;
                    TaskAction::Heartbeat {
                        filter: self.fence(),
                        update: heartbeat_update_at(updated_at),
                    }
                } else {
                    self.fail(
                        "infrastructure error: ",
                        RequestError::PayloadFormat { field: "task_input" },
                        updated_at,
                        finished_at,
                    )
                },
                _ => {
                    self.phase = TaskPhase::Decoding;
                    TaskAction::Nothing
                },
            },
            TaskPhase::Confirming => match event {
                TaskEvent::Written(Ok(count)) => if count > 0 {
                    self.phase = TaskPhase::Running;
                    TaskAction::RunHandler {
                        heartbeat_interval: heartbeat_interval(self.switch_timeout),
                    }
                } else {
                    TaskAction::Finish(Err(RequestError::WorkerGone))
                },
                TaskEvent::Written(Err(error)) => self.fail(
                    "infrastructure error: ",
                    error.into_request_error(),
                    updated_at,
                    finished_at,
                ),
                _ => {
                    self.phase = TaskPhase::Confirming;
                    TaskAction::Nothing
                },
            },
            TaskPhase::Running => match event {
                TaskEvent::HandlerSucceeded(Some(output)) => {
                    self.phase = TaskPhase::Completing;
                    TaskAction::Complete {
                        filter: self.fence(),
                        update: success_update_at(output, updated_at, finished_at),
                    }
                },
                TaskEvent::HandlerSucceeded(None) => TaskAction::Finish(
                    Err(RequestError::PayloadFormat { field: "task_output" }),
                ),
                TaskEvent::HandlerFailed(error) => self.fail(
                    "handler error: ",
                    error,
                    updated_at,
                    finished_at,
                ),
                TaskEvent::OwnershipLost => TaskAction::Finish(Err(RequestError::WorkerGone)),
                _ => {
                    self.phase = TaskPhase::Running;
                    TaskAction::Nothing
                },
            },
            TaskPhase::Completing => match event {
                TaskEvent::Written(Ok(count)) => if count > 0 {
                    TaskAction::Finish(Ok(()))
                } else {
                    TaskAction::Finish(Err(RequestError::WorkerGone))
                },
                TaskEvent::Written(Err(error)) => TaskAction::Finish(
                    Err(error.into_request_error()),
                ),
                _ => {
                    self.phase = TaskPhase::Completing;
                    TaskAction::Nothing
                },
            },
            TaskPhase::Failing(error) => match event {
                TaskEvent::Written(_) => TaskAction::Finish(Err(error)),
                _ => {
                    self.phase = TaskPhase::Failing(error);
                    TaskAction::Nothing
                },
            },
            TaskPhase::Finished => TaskAction::Nothing,
        }
    }

    /// Takes in what has just happened and says what is to be done next.
    pub fn step(&mut self, event: TaskEvent) -> (action: TaskAction)
        ensures
            exists|updated_at: i64, finished_at: i64|
                (final(self)@, action@) == #[trigger] old(self)@.next(
                    event@,
                    updated_at,
                    finished_at,
                ),
    {
        let updated_at: i64 = now_millis();
        let finished_at: i64 = now_millis();
        self.step_at(event, updated_at, finished_at)
    }

    /// The task's id.
    pub fn task_id(&self) -> (task_id: &str)
        ensures
            task_id@ == self@.task_id,
    {
        self.task_id.as_str()
    }

    /// The filter and the update of a heartbeat at `now`.
    pub fn heartbeat_at(&self, now: i64) -> (write: (Document, Document))
        ensures
            document_fields(write.0) == self@.fence(),
            document_fields(write.1) == set_update(heartbeat_changes(now)),
    {
        (self.fence(), heartbeat_update_at(now))
    }

    /// The filter and the update of a heartbeat.
    pub fn heartbeat(&self) -> (write: (Document, Document))
        ensures
            document_fields(write.0) == self@.fence(),
            exists|now: i64|
                document_fields(write.1) == set_update(#[trigger] heartbeat_changes(now)),
    {
        self.heartbeat_at(now_millis())
    }

    /// What the handler receives.
    pub fn job<TInput>(&self, payload: TInput, trace_context: Option<TraceContext>) -> (job:
        WorkerJob<TInput>)
        ensures
            job.task_id@ == self@.task_id,
            job.trace_context == trace_context,
            job.payload == payload,
    {
        WorkerJob { task_id: self.task_id.clone(), trace_context, payload }
    }
}

/// Every write that a task makes is confined to its own claim: whatever happens, the filter of the
/// next write is the ownership filter.
pub proof fn writes_are_fenced(
    state: TaskState,
    input: TaskInput,
    updated_at: i64,
    finished_at: i64,
)
    ensures
        match state.next(input, updated_at, finished_at).1 {
            TaskStep::Heartbeat { filter, .. }
            | TaskStep::Complete { filter, .. }
            | TaskStep::MarkFailed { filter, .. } => filter == state.fence(),
            _ => true,
        },
        state.next(input, updated_at, finished_at).0.fence() == state.fence(),
{
}

/// A task whose ownership was lost ends with `WorkerGone` and writes nothing more: neither a write
/// that found no document nor a heartbeat that found the claim taken over leads to another write.
pub proof fn lost_ownership_writes_nothing(
    state: TaskState,
    input: TaskInput,
    updated_at: i64,
    finished_at: i64,
)
    requires
        (state.phase is Running && input is OwnershipLost) || ((state.phase is Confirming
            || state.phase is Completing) && input == TaskInput::Written(Ok(0))),
    ensures
        state.next(input, updated_at, finished_at) == state.finished(Err(Failure::WorkerGone)),
{
}

/// A task that has ended stays ended and asks for nothing.
pub proof fn finished_task_is_silent(
    state: TaskState,
    input: TaskInput,
    updated_at: i64,
    finished_at: i64,
)
    requires
        state.phase is Finished,
    ensures
        state.next(input, updated_at, finished_at) == (state, TaskStep::Nothing),
{
}

/// A running handler is cut short by the loss of ownership alone: any other event that ends the
/// running phase comes from the handler itself.
pub proof fn only_lost_ownership_aborts(
    state: TaskState,
    input: TaskInput,
    updated_at: i64,
    finished_at: i64,
)
    requires
        state.phase is Running,
        !(state.next(input, updated_at, finished_at).0.phase is Running),
    ensures
        input is OwnershipLost || input is HandlerSucceeded || input is HandlerFailed,
{
}

} // verus!
