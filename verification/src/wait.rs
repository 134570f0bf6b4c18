//! How a caller waits for the outcome of a task: it looks at the task, listens to its changes, and
//! looks again and again where it cannot listen.
use std::time::Duration;

use bson::{Bson, Document};
use vstd::prelude::*;

use crate::caller::{evaluate_document, evaluation, inspect_found, Evaluation, TaskOutcome};
use crate::database::DatabaseError;
use crate::document::{bson_value, document_fields, BsonValue, Fields};
use crate::error::{Failure, RequestError};
use crate::time::duration_nanos;

verus! {

/// How far the wait has come.
#[derive(Debug)]
enum WaitPhase {
    /// The task is being looked at.
    Inspecting,
    /// The change stream is being opened.
    Opening,
    /// The caller listens.
    Listening,
    /// The caller cannot listen, for this reason, and looks at the task.
    Polling(RequestError),
    /// The caller cannot listen, for this reason, and waits before it looks at the task again.
    Pausing(RequestError),
    /// The wait is over.
    Done,
}

/// A `WaitPhase` as contracts speak of it.
pub ghost enum Waiting {
    Inspecting,
    Opening,
    Listening,
    Polling(Failure),
    Pausing(Failure),
    Done,
}

/// The wait for the outcome of one task.
#[derive(Debug)]
pub struct WaitRun {
    task_id: String,
    phase: WaitPhase,
}

/// A `WaitRun` as contracts speak of it.
pub ghost struct WaitState {
    pub task_id: Seq<char>,
    pub phase: Waiting,
}

impl View for WaitRun {
    type V = WaitState;

    closed spec fn view(&self) -> WaitState {
        WaitState {
            task_id: self.task_id@,
            phase: match self.phase {
                WaitPhase::Inspecting => Waiting::Inspecting,
                WaitPhase::Opening => Waiting::Opening,
                WaitPhase::Listening => Waiting::Listening,
                WaitPhase::Polling(error) => Waiting::Polling(error@),
                WaitPhase::Pausing(error) => Waiting::Pausing(error@),
                WaitPhase::Done => Waiting::Done,
            },
        }
    }
}

/// What is to be done next for the wait.
#[derive(Debug)]
pub enum WaitAction {
    /// Look up the task.
    Inspect,
    /// Open a change stream on the task.
    OpenStream,
    /// Wait for the next change.
    NextEvent,
    /// Wait for the time between two looks.
    Pause,
    /// The wait is over, with the output or an error.
    Finish(Result<Bson, RequestError>),
    /// Nothing: what happened has no bearing on the wait as it stands.
    Nothing,
}

/// A `WaitAction` as contracts speak of it.
pub ghost enum WaitStep {
    Inspect,
    OpenStream,
    NextEvent,
    Pause,
    Finish(Result<BsonValue, Failure>),
    Nothing,
}

impl View for WaitAction {
    type V = WaitStep;

    open spec fn view(&self) -> WaitStep {
        match *self {
            WaitAction::Inspect => WaitStep::Inspect,
            WaitAction::OpenStream => WaitStep::OpenStream,
            WaitAction::NextEvent => WaitStep::NextEvent,
            WaitAction::Pause => WaitStep::Pause,
            WaitAction::Finish(Ok(output)) => WaitStep::Finish(Ok(bson_value(output))),
            WaitAction::Finish(Err(error)) => WaitStep::Finish(Err(error@)),
            WaitAction::Nothing => WaitStep::Nothing,
        }
    }
}

/// What has happened to the wait.
#[derive(Debug)]
pub enum WaitEvent {
    /// The task was looked up, and this is its document, if there is one.
    Found(Option<Document>),
    /// The change stream is open.
    StreamOpened,
    /// A change came, with the task's new document unless that was gone by then.
    Changed(Option<Document>),
    /// The lookup or the change stream failed.
    Failed(DatabaseError),
    /// The change stream ended.
    StreamClosed,
    /// The time between two looks is over.
    Paused,
}

/// A `WaitEvent` as contracts speak of it.
pub ghost enum WaitInput {
    Found(Option<Fields>),
    StreamOpened,
    Changed(Option<Fields>),
    Failed(Seq<char>),
    StreamClosed,
    Paused,
}

impl View for WaitEvent {
    type V = WaitInput;

    open spec fn view(&self) -> WaitInput {
        match *self {
            WaitEvent::Found(Some(task)) => WaitInput::Found(Some(document_fields(task))),
            WaitEvent::Found(None) => WaitInput::Found(None),
            WaitEvent::StreamOpened => WaitInput::StreamOpened,
            WaitEvent::Changed(Some(task)) => WaitInput::Changed(Some(document_fields(task))),
            WaitEvent::Changed(None) => WaitInput::Changed(None),
            WaitEvent::Failed(error) => WaitInput::Failed(error.text()),
            WaitEvent::StreamClosed => WaitInput::StreamClosed,
            WaitEvent::Paused => WaitInput::Paused,
        }
    }
}

/// What a document of the task, or its absence, decides: the result of the wait, or nothing yet.
pub open spec fn decides(task_id: Seq<char>, found: Option<Fields>) -> Option<
    Result<BsonValue, Failure>,
> {
    match found {
        None => Some(Err(Failure::TaskFailed("task "@ + task_id + " missing"@))),
        Some(task) => match evaluation(task) {
            Evaluation::Malformed(name) => Some(Err(Failure::PayloadFormat(name))),
            Evaluation::Undecided => None,
            Evaluation::Succeeded(output) => Some(Ok(output)),
            Evaluation::Failed(reason) => Some(Err(Failure::TaskFailed(reason))),
        },
    }
}

impl WaitState {
    /// The wait in another phase.
    pub open spec fn at(self, phase: Waiting) -> WaitState {
        WaitState { phase, ..self }
    }

    /// The wait at its end.
    pub open spec fn finished(self, result: Result<BsonValue, Failure>) -> (WaitState, WaitStep) {
        (self.at(Waiting::Done), WaitStep::Finish(result))
    }

    /// The wait with a look ahead, for want of a change stream.
    pub open spec fn polling(self, failure: Failure) -> (WaitState, WaitStep) {
        (self.at(Waiting::Polling(failure)), WaitStep::Inspect)
    }

    /// What an event makes of the wait, and what is to be done next.
    pub open spec fn next(self, input: WaitInput) -> (WaitState, WaitStep) {
        match (self.phase, input) {
            (Waiting::Inspecting, WaitInput::Found(found)) => match decides(self.task_id, found) {
                Some(result) => self.finished(result),
                None => (self.at(Waiting::Opening), WaitStep::OpenStream),
            },
            (Waiting::Inspecting, WaitInput::Failed(text)) => self.finished(
                Err(Failure::Database(text)),
            ),
            (Waiting::Opening, WaitInput::StreamOpened) => (
                self.at(Waiting::Listening),
                WaitStep::NextEvent,
            ),
            (Waiting::Opening, WaitInput::Failed(text)) => self.polling(Failure::Database(text)),
            (Waiting::Listening, WaitInput::Changed(None)) => (self, WaitStep::NextEvent),
            (Waiting::Listening, WaitInput::Changed(Some(task))) => match decides(
                self.task_id,
                Some(task),
            ) {
                Some(result) => self.finished(result),
                None => (self, WaitStep::NextEvent),
            },
            (Waiting::Listening, WaitInput::Failed(text)) => self.polling(Failure::Database(text)),
            (Waiting::Listening, WaitInput::StreamClosed) => self.polling(
                Failure::Database("change stream closed"@),
            ),
            (Waiting::Polling(failure), WaitInput::Found(found)) => match decides(
                self.task_id,
                found,
            ) {
                Some(result) => self.finished(result),
                None => (self.at(Waiting::Pausing(failure)), WaitStep::Pause),
            },
            (Waiting::Polling(failure), WaitInput::Failed(_)) => self.finished(Err(failure)),
            (Waiting::Pausing(failure), WaitInput::Paused) => self.polling(failure),
            _ => (self, WaitStep::Nothing),
        }
    }
}

/// The time between two looks of a caller that cannot listen: a second.
pub fn poll_interval() -> (interval: Duration)
    ensures
        duration_nanos(interval) == 1_000_000_000,
{
    Duration::from_secs(1)
}

/// The result of the wait that an inspected document stands for, or nothing yet.
fn decision(outcome: Result<Option<TaskOutcome>, RequestError>) -> (decision: Option<
    Result<Bson, RequestError>,
>)
    ensures
        match outcome {
            Ok(None) => decision is None,
            Ok(Some(TaskOutcome::Succeeded(output))) => decision == Some(
                Ok::<Bson, RequestError>(output),
            ),
            Ok(Some(TaskOutcome::Failed(error))) => decision == Some(
                Err::<Bson, RequestError>(error),
            ),
            Err(error) => decision == Some(Err::<Bson, RequestError>(error)),
        },
{
    match outcome {
        Ok(None) => None,
        Ok(Some(TaskOutcome::Succeeded(output))) => Some(Ok(output)),
        Ok(Some(TaskOutcome::Failed(error))) => Some(Err(error)),
        Err(error) => Some(Err(error)),
    }
}

impl WaitRun {
    /// A wait that begins, and what it does first.
    pub fn start(task_id: &str) -> (start: (WaitRun, WaitAction))
        ensures
            start.0@ == (WaitState { task_id: task_id@, phase: Waiting::Inspecting }),
            start.1@ == WaitStep::Inspect,
    {
        (
            WaitRun { task_id: task_id.to_owned(), phase: WaitPhase::Inspecting },
            WaitAction::Inspect,
        )
    }

    /// Takes in what has happened and says what is to be done next.
    pub fn step(&mut self, event: WaitEvent) -> (action: WaitAction)
        ensures
            (final(self)@, action@) == old(self)@.next(event@),
    {
        let mut phase = WaitPhase::Done;
        std::mem::swap(&mut phase, &mut self.phase);
        match phase {
            WaitPhase::Inspecting => match event {
                WaitEvent::Found(found) => match decision(
                    inspect_found(self.task_id.as_str(), found.as_ref()),
                ) {
                    Some(result) => WaitAction::Finish(result),
                    None => {
                        self.phase = WaitPhase::Opening;
                        WaitAction::OpenStream
                    },
                },
                WaitEvent::Failed(error) => WaitAction::Finish(Err(error.into_request_error())),
                _ => {
                    self.phase = WaitPhase::Inspecting;
                    WaitAction::Nothing
                },
            },
            WaitPhase::Opening => match event {
                WaitEvent::StreamOpened => {
                    self.phase = WaitPhase::Listening;
                    WaitAction::NextEvent
                },
                WaitEvent::Failed(error) => {
                    self.phase = WaitPhase::Polling(error.into_request_error());
                    WaitAction::Inspect
                },
                _ => {
                    self.phase = WaitPhase::Opening;
                    WaitAction::Nothing
                },
            },
            WaitPhase::Listening => match event {
                WaitEvent::Changed(None) => {
                    self.phase = WaitPhase::Listening;
                    WaitAction::NextEvent
                },
                WaitEvent::Changed(Some(task)) => match decision(evaluate_document(&task)) {
                    Some(result) => WaitAction::Finish(result),
                    None => {
                        self.phase = WaitPhase::Listening;
                        WaitAction::NextEvent
                    },
                },
                WaitEvent::Failed(error) => {
                    self.phase = WaitPhase::Polling(error.into_request_error());
                    WaitAction::Inspect
                },
                WaitEvent::StreamClosed => {
                    self.phase = WaitPhase::Polling(
                        RequestError::Database("change stream closed".to_owned()),
                    );
                    WaitAction::Inspect
                },
                _ => {
                    self.phase = WaitPhase::Listening;
                    WaitAction::Nothing
                },
            },
            WaitPhase::Polling(error) => match event {
                WaitEvent::Found(found) => match decision(
                    inspect_found(self.task_id.as_str(), found.as_ref()),
                ) {
                    Some(result) => WaitAction::Finish(result),
                    None => {
                        self.phase = WaitPhase::Pausing(error);
                        WaitAction::Pause
                    },
                },
                WaitEvent::Failed(_) => WaitAction::Finish(Err(error)),
                _ => {
                    self.phase = WaitPhase::Polling(error);
                    WaitAction::Nothing
                },
            },
            WaitPhase::Pausing(error) => match event {
                WaitEvent::Paused => {
                    self.phase = WaitPhase::Polling(error);
                    WaitAction::Inspect
                },
                _ => {
                    self.phase = WaitPhase::Pausing(error);
                    WaitAction::Nothing
                },
            },
            WaitPhase::Done => WaitAction::Nothing,
        }
    }
}

/// A caller returns an output only if a document of the task said that the task has succeeded with
/// it.
pub proof fn output_comes_from_the_task(state: WaitState, input: WaitInput, output: BsonValue)
    requires
        state.next(input).1 == WaitStep::Finish(Ok(output)),
    ensures
        exists|task: Fields| #[trigger]
            evaluation(task) == Evaluation::Succeeded(output) && (input == WaitInput::Found(
                Some(task),
            ) || input == WaitInput::Changed(Some(task))),
{
    match input {
        WaitInput::Found(Some(task)) => {
            assert(evaluation(task) == Evaluation::Succeeded(output));
        },
        WaitInput::Changed(Some(task)) => {
            assert(evaluation(task) == Evaluation::Succeeded(output));
        },
        _ => {},
    }
}

/// A document that says that the task has ended ends the wait, wherever the caller sees it.
pub proof fn ended_task_ends_the_wait(state: WaitState, task: Fields)
    requires
        !(evaluation(task) is Undecided),
    ensures
        state.phase is Inspecting || state.phase is Polling ==> state.next(
            WaitInput::Found(Some(task)),
        ) == state.finished(decides(state.task_id, Some(task))->0),
        state.phase is Listening ==> state.next(WaitInput::Changed(Some(task))) == state.finished(
            decides(state.task_id, Some(task))->0,
        ),
{
}

/// A caller that cannot listen falls back on looking: the loss of the change stream does not end the
/// wait, nor does a look at a task that has not ended, after which the caller waits and looks again.
pub proof fn wait_goes_on_without_a_stream(state: WaitState, text: Seq<char>, task: Fields)
    requires
        evaluation(task) is Undecided,
    ensures
        state.phase is Opening || state.phase is Listening ==> state.next(
            WaitInput::Failed(text),
        ).1 is Inspect,
        state.phase is Listening ==> state.next(WaitInput::StreamClosed).1 is Inspect,
        state.phase is Polling ==> ({
            let pausing = state.next(WaitInput::Found(Some(task))).0;
            &&& state.next(WaitInput::Found(Some(task))).1 is Pause
            &&& pausing.next(WaitInput::Paused) == (state, WaitStep::Inspect)
        }),
{
}

} // verus!
