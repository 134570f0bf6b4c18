//! What can go wrong with a request.
use vstd::prelude::*;

verus! {

/// Why a request failed.
#[derive(Debug)]
pub enum RequestError {
    /// The idempotency key is taken; the task that holds it stays as it is.
    Duplicate { task_id: String },
    /// The caller stopped waiting; the task goes on.
    Timeout,
    /// The worker lost the task, or went away.
    WorkerGone,
    /// No worker came in time.
    WorkerTimeout,
    /// A payload does not have the expected form.
    PayloadFormat { field: &'static str },
    /// The worker reported a failure.
    TaskFailed { reason: String },
    /// The database reported an error.
    Database(String),
}

/// A `RequestError` as contracts speak of it.
pub ghost enum Failure {
    Duplicate(Seq<char>),
    Timeout,
    WorkerGone,
    WorkerTimeout,
    PayloadFormat(Seq<char>),
    TaskFailed(Seq<char>),
    Database(Seq<char>),
}

impl View for RequestError {
    type V = Failure;

    open spec fn view(&self) -> Failure {
        match *self {
            RequestError::Duplicate { task_id } => Failure::Duplicate(task_id@),
            RequestError::Timeout => Failure::Timeout,
            RequestError::WorkerGone => Failure::WorkerGone,
            RequestError::WorkerTimeout => Failure::WorkerTimeout,
            RequestError::PayloadFormat { field } => Failure::PayloadFormat(field@),
            RequestError::TaskFailed { reason } => Failure::TaskFailed(reason@),
            RequestError::Database(reason) => Failure::Database(reason@),
        }
    }
}

impl Failure {
    /// The text that describes the failure to a person.
    pub open spec fn message(self) -> Seq<char> {
        match self {
            Failure::Duplicate(task_id) => "duplicate idempotency key for task "@ + task_id,
            Failure::Timeout => "caller timed out waiting for response"@,
            Failure::WorkerGone => "worker crashed or disconnected before responding"@,
            Failure::WorkerTimeout => "no worker picked up the task before timeout"@,
            Failure::PayloadFormat(field) => "payload format mismatch in "@ + field,
            Failure::TaskFailed(reason) => "task failed: "@ + reason,
            Failure::Database(reason) => "database error: "@ + reason,
        }
    }
}

/// Two texts joined.
pub(crate) fn joined(front: &str, back: &str) -> (text: String)
    ensures
        text@ == front@ + back@,
{
    let mut text = front.to_owned();
    text.append(back);
    text
}

impl RequestError {
    /// The text that describes the error to a person.
    pub fn message(&self) -> (text: String)
        ensures
            text@ == self@.message(),
    {
        match self {
            RequestError::Duplicate { task_id } => joined(
                "duplicate idempotency key for task ",
                task_id.as_str(),
            ),
            RequestError::Timeout => "caller timed out waiting for response".to_owned(),
            RequestError::WorkerGone => "worker crashed or disconnected before responding".to_owned(),
            RequestError::WorkerTimeout => "no worker picked up the task before timeout".to_owned(),
            RequestError::PayloadFormat { field } => joined("payload format mismatch in ", field),
            RequestError::TaskFailed { reason } => joined("task failed: ", reason.as_str()),
            RequestError::Database(reason) => joined("database error: ", reason.as_str()),
        }
    }
}

} // verus!
