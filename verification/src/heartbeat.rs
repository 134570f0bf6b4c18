//! Heartbeats: how often they come, and what their outcome says about the ownership of a task.
use std::time::Duration;

use vstd::prelude::*;

use crate::database::DatabaseError;
use crate::error::{Failure, RequestError};
use crate::time::duration_nanos;

verus! {

/// What one heartbeat says about ownership.
#[derive(Clone, Copy, Debug, PartialEq, Eq, Structural)]
pub enum HeartbeatOutcome {
    /// The write found the task under this claim: the claim still owns it.
    Alive,
    /// The write found no such task: the claim was taken over, or the task has ended.
    Superseded,
    /// The write itself failed, which says nothing about ownership.
    TransientError,
}

/// The result of a heartbeat write: whether it found the task under its claim.
pub fn heartbeat_result(matched: Result<u64, DatabaseError>) -> (result: Result<bool, RequestError>)
    ensures
        match matched {
            Ok(count) => result == Ok::<bool, RequestError>(count > 0),
            Err(error) => result matches Err(failure) && failure@ == Failure::Database(
                error.text(),
            ),
        },
{
    match matched {
        Ok(count) => Ok(count > 0),
        Err(error) => Err(error.into_request_error()),
    }
}

/// What the result of a heartbeat says about ownership.
pub fn classify_heartbeat_result(result: Result<bool, RequestError>) -> (outcome: HeartbeatOutcome)
    ensures
        outcome == match result {
            Ok(true) => HeartbeatOutcome::Alive,
            Ok(false) => HeartbeatOutcome::Superseded,
            Err(_) => HeartbeatOutcome::TransientError,
        },
{
    match result {
        Ok(true) => HeartbeatOutcome::Alive,
        Ok(false) => HeartbeatOutcome::Superseded,
        Err(_) => HeartbeatOutcome::TransientError,
    }
}

/// What the heartbeats of a task do after one of them.
#[derive(Clone, Copy, Debug, PartialEq, Eq, Structural)]
pub enum HeartbeatReaction {
    /// They go on.
    Continue,
    /// They stop, and the handler is aborted: the task belongs to another claim.
    AbortHandler,
    /// They stop, and the handler runs on: its last write will show who owns the task.
    Stop,
}

impl HeartbeatOutcome {
    /// The name of the outcome in metrics.
    pub fn label(self) -> (label: &'static str)
        ensures
            label@ == match self {
                HeartbeatOutcome::Alive => "alive"@,
                HeartbeatOutcome::Superseded => "superseded"@,
                HeartbeatOutcome::TransientError => "transient_error"@,
            },
    {
        match self {
            HeartbeatOutcome::Alive => "alive",
            HeartbeatOutcome::Superseded => "superseded",
            HeartbeatOutcome::TransientError => "transient_error",
        }
    }

    /// What the heartbeats do next. Only the certain loss of ownership aborts the handler.
    pub fn reaction(self) -> (reaction: HeartbeatReaction)
        ensures
            reaction is AbortHandler <==> self is Superseded,
            reaction is Continue <==> self is Alive,
    {
        match self {
            HeartbeatOutcome::Alive => HeartbeatReaction::Continue,
            HeartbeatOutcome::Superseded => HeartbeatReaction::AbortHandler,
            HeartbeatOutcome::TransientError => HeartbeatReaction::Stop,
        }
    }
}

/// The time between two heartbeats: a third of the switch timeout, so that three of them fit before
/// the task can be taken over.
pub fn heartbeat_interval(worker_switch_timeout: Duration) -> (interval: Duration)
    ensures
        duration_nanos(interval) == duration_nanos(worker_switch_timeout) / 3,
        3 * duration_nanos(interval) <= duration_nanos(worker_switch_timeout),
{
    let third: u128 = worker_switch_timeout.as_nanos() / 3;
    let secs: u128 = third / 1_000_000_000;
    let nanos: u128 = third % 1_000_000_000;
    Duration::new(secs as u64, nanos as u32)
}

/// Whether heartbeats can be sent at this interval. A task that may be taken over at once has no
/// interval to keep, and gets none.
pub fn sends_heartbeats(interval: Duration) -> (sends: bool)
    ensures
        sends == (duration_nanos(interval) > 0),
{
    interval.as_nanos() > 0
}

/// The time between two looks for abandoned tasks that no change event announced: ten minutes.
pub fn stale_recovery_interval() -> (interval: Duration)
    ensures
        duration_nanos(interval) == 600_000_000_000,
{
    Duration::from_secs(10 * 60)
}

} // verus!
