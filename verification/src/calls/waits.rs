//! Calls by which a caller waits for the outcome of its task.
use std::time::Duration;

use bson::Document;
use vstd::prelude::*;

use crate::calls::requests::has_status;
use crate::database::DatabaseError;
use crate::document::{bson_value, document_fields, field, BsonValue, Fields};
use crate::error::Failure;
use crate::names::statuses_differ;
use crate::time::duration_nanos;
use crate::wait::{poll_interval, WaitAction, WaitEvent, WaitRun, Waiting};

verus! {

/// A wait begins with a look at its task.
pub proof fn wait_begins_with_a_look(task_id: &str, run: WaitRun, action: WaitAction)
    requires
        call_ensures(WaitRun::start, (task_id,), (run, action)),
    ensures
        action is Inspect,
        run@.phase is Inspecting,
        run@.task_id == task_id@,
{
}

/// Whether an event brings a document of the task to a wait that has use for it: one that looked gets
/// what it found, one that listens gets what has changed.
pub open spec fn brings(phase: Waiting, event: WaitEvent, document: Document) -> bool {
    ||| (phase is Inspecting || phase is Polling) && event == WaitEvent::Found(Some(document))
    ||| phase is Listening && event == WaitEvent::Changed(Some(document))
}

/// Whether a document says that its task goes on: it has a status, and not that of a task that has
/// ended.
pub open spec fn goes_on(document: Fields) -> bool {
    &&& field(document, "status"@) matches Some(BsonValue::Str(_))
    &&& !has_status(document, "succeeded"@)
    &&& !has_status(document, "failed"@)
}

/// A task that waits or runs goes on.
pub proof fn unfinished_task_goes_on(document: Fields)
    requires
        has_status(document, "pending"@) || has_status(document, "running"@),
    ensures
        goes_on(document),
{
    statuses_differ();
}

/// A document of a task that goes on does not end the wait. After the first look the caller opens a
/// stream; while it listens it waits for the next change, and while it cannot listen it pauses before
/// it looks again.
pub proof fn unfinished_task_keeps_the_caller_waiting(
    run: &mut WaitRun,
    event: WaitEvent,
    document: Document,
    action: WaitAction,
)
    requires
        call_ensures(WaitRun::step, (run, event), action),
        brings(old(run)@.phase, event, document),
        goes_on(document_fields(document)),
    ensures
        old(run)@.phase is Inspecting ==> action is OpenStream && final(run)@.phase is Opening,
        old(run)@.phase is Listening ==> action is NextEvent && final(run)@.phase is Listening,
        old(run)@.phase matches Waiting::Polling(failure) ==> action is Pause && final(run)@.phase
            == Waiting::Pausing(failure),
        final(run)@.task_id == old(run)@.task_id,
{
}

/// A document of a task that has succeeded ends the wait with the task's output.
pub proof fn success_ends_the_wait_with_the_output(
    run: &mut WaitRun,
    event: WaitEvent,
    document: Document,
    action: WaitAction,
)
    requires
        call_ensures(WaitRun::step, (run, event), action),
        brings(old(run)@.phase, event, document),
        has_status(document_fields(document), "succeeded"@),
    ensures
        final(run)@.phase is Done,
        match field(document_fields(document), "task_output"@) {
            Some(output) => action matches WaitAction::Finish(Ok(value)) && bson_value(value)
                == output,
            None => action matches WaitAction::Finish(Err(error)) && error@
                == Failure::PayloadFormat("task_output"@),
        },
{
}

/// A document of a task that has failed ends the wait with the reason for the failure.
pub proof fn failure_ends_the_wait_with_the_reason(
    run: &mut WaitRun,
    event: WaitEvent,
    document: Document,
    action: WaitAction,
)
    requires
        call_ensures(WaitRun::step, (run, event), action),
        brings(old(run)@.phase, event, document),
        has_status(document_fields(document), "failed"@),
    ensures
        final(run)@.phase is Done,
        action matches WaitAction::Finish(Err(error)) && error@ == Failure::TaskFailed(
            match field(document_fields(document), "error_reason"@) {
                Some(BsonValue::Str(reason)) => reason,
                _ => "worker failed"@,
            },
        ),
{
    statuses_differ();
}

/// A document without a status ends the wait with an error that says so.
pub proof fn malformed_document_ends_the_wait(
    run: &mut WaitRun,
    event: WaitEvent,
    document: Document,
    action: WaitAction,
)
    requires
        call_ensures(WaitRun::step, (run, event), action),
        brings(old(run)@.phase, event, document),
        !(field(document_fields(document), "status"@) matches Some(BsonValue::Str(_))),
    ensures
        final(run)@.phase is Done,
        action matches WaitAction::Finish(Err(error)) && error@ == Failure::PayloadFormat(
            "status"@,
        ),
{
}

/// A task that a look does not find has failed; a change without a document says nothing.
pub proof fn missing_task_ends_the_wait(run: &mut WaitRun, event: WaitEvent, action: WaitAction)
    requires
        call_ensures(WaitRun::step, (run, event), action),
    ensures
        (old(run)@.phase is Inspecting || old(run)@.phase is Polling) && event == WaitEvent::Found(
            None,
        ) ==> final(run)@.phase is Done && (action matches WaitAction::Finish(Err(error)) && error@
            == Failure::TaskFailed("task "@ + old(run)@.task_id + " missing"@)),
        old(run)@.phase is Listening && event == WaitEvent::Changed(None) ==> action is NextEvent
            && final(run)@ == old(run)@,
{
}

/// Once the stream is open the caller listens.
pub proof fn open_stream_is_listened_to(run: &mut WaitRun, event: WaitEvent, action: WaitAction)
    requires
        call_ensures(WaitRun::step, (run, event), action),
        old(run)@.phase is Opening,
        event is StreamOpened,
    ensures
        action is NextEvent,
        final(run)@.phase is Listening,
        final(run)@.task_id == old(run)@.task_id,
{
}

/// The description of an error of the database.
pub open spec fn description(error: DatabaseError) -> Seq<char> {
    match error {
        DatabaseError::Command { message, .. } => message@,
        DatabaseError::Write { message, .. } => message@,
        DatabaseError::Other { message } => message@,
    }
}

/// A caller that cannot open its stream, or loses it, looks at the task instead; the first look fails
/// for good where the database does.
pub proof fn lost_stream_is_replaced_by_looks(
    run: &mut WaitRun,
    error: DatabaseError,
    action: WaitAction,
)
    requires
        call_ensures(WaitRun::step, (run, WaitEvent::Failed(error)), action),
    ensures
        old(run)@.phase is Opening || old(run)@.phase is Listening ==> action is Inspect
            && final(run)@.phase == Waiting::Polling(Failure::Database(description(error)))
            && final(run)@.task_id == old(run)@.task_id,
        old(run)@.phase is Inspecting ==> final(run)@.phase is Done && (action matches
            WaitAction::Finish(Err(failure)) && failure@ == Failure::Database(description(error))),
        old(run)@.phase matches Waiting::Polling(first) ==> final(run)@.phase is Done && (action
            matches WaitAction::Finish(Err(failure)) && failure@ == first),
{
}

/// A stream that ends counts as lost.
pub proof fn closed_stream_is_replaced_by_looks(
    run: &mut WaitRun,
    event: WaitEvent,
    action: WaitAction,
)
    requires
        call_ensures(WaitRun::step, (run, event), action),
        old(run)@.phase is Listening,
        event is StreamClosed,
    ensures
        action is Inspect,
        final(run)@.phase == Waiting::Polling(Failure::Database("change stream closed"@)),
        final(run)@.task_id == old(run)@.task_id,
{
}

/// After each pause the caller looks again.
pub proof fn pause_is_followed_by_a_look(run: &mut WaitRun, event: WaitEvent, action: WaitAction)
    requires
        call_ensures(WaitRun::step, (run, event), action),
        old(run)@.phase is Pausing,
        event is Paused,
    ensures
        action is Inspect,
        old(run)@.phase matches Waiting::Pausing(failure) ==> final(run)@.phase
            == Waiting::Polling(failure),
        final(run)@.task_id == old(run)@.task_id,
{
}

/// Whether a wait in this phase has asked for something that this event can answer.
pub open spec fn answers(phase: Waiting, event: WaitEvent) -> bool {
    match phase {
        Waiting::Inspecting | Waiting::Polling(_) => event is Found || event is Failed,
        Waiting::Opening => event is StreamOpened || event is Failed,
        Waiting::Listening => event is Changed || event is Failed || event is StreamClosed,
        Waiting::Pausing(_) => event is Paused,
        Waiting::Done => false,
    }
}

/// What the wait has not asked for leaves it as it is; in particular a wait that is over stays over.
pub proof fn unasked_events_change_nothing(run: &mut WaitRun, event: WaitEvent, action: WaitAction)
    requires
        call_ensures(WaitRun::step, (run, event), action),
        !answers(old(run)@.phase, event),
    ensures
        action is Nothing,
        final(run)@ == old(run)@,
{
}

/// With a document of the task in hand, the wait ends exactly if the document says that the task has
/// ended, or lacks what it must have.
pub proof fn wait_ends_with_the_task(
    run: &mut WaitRun,
    event: WaitEvent,
    document: Document,
    action: WaitAction,
)
    requires
        call_ensures(WaitRun::step, (run, event), action),
        brings(old(run)@.phase, event, document),
    ensures
        action is Finish <==> !goes_on(document_fields(document)),
{
}

/// A caller that cannot listen looks once a second.
pub proof fn looks_are_a_second_apart(interval: Duration)
    requires
        call_ensures(poll_interval, (), interval),
    ensures
        duration_nanos(interval) == 1_000_000_000,
{
}

} // verus!
