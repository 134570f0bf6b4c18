use std::time::Duration;

use bson::{Bson, DateTime, Document};
use getitdone::database::DatabaseError;
use getitdone::heartbeat::{
    heartbeat_interval, heartbeat_result, sends_heartbeats, HeartbeatOutcome, HeartbeatReaction,
};
use getitdone::task::{stored_trace_context, TaskAction, TaskEvent, TaskRun};
use getitdone::{RequestError, TraceContext};

fn document(fields: Vec<(&str, Bson)>) -> Document {
    let mut document = Document::new();
    for (name, value) in fields {
        document.insert(name, value);
    }
    document
}

fn claimed_task() -> Document {
    document(vec![
        ("task_id", Bson::from("task-a")),
        ("status", Bson::from("running")),
        ("task_input", Bson::from("payload")),
        ("worker_switch_timeout", Bson::Int64(300)),
        (
            "worker_state",
            Bson::Document(document(vec![
                ("worker_id", Bson::from("worker-1")),
                ("claim_token", Bson::from("token")),
            ])),
        ),
    ])
}

fn broken() -> DatabaseError {
    DatabaseError::Other {
        message: "connection reset".into(),
    }
}

fn start() -> TaskRun {
    let (run, action) =
        TaskRun::start(&claimed_task(), "worker-1", Duration::from_secs(10)).unwrap();
    assert!(matches!(action, TaskAction::Decode { payload } if payload == Bson::from("payload")));
    run
}

fn running() -> TaskRun {
    let mut run = start();
    run.step(TaskEvent::Decoded(true));
    match run.step(TaskEvent::Written(Ok(1))) {
        TaskAction::RunHandler { heartbeat_interval } => {
            assert_eq!(heartbeat_interval, Duration::from_millis(100))
        }
        other => panic!("unexpected {other:?}"),
    }
    run
}

fn assert_fenced(filter: &Document) {
    assert_eq!(filter.get_str("task_id").unwrap(), "task-a");
    assert_eq!(filter.get_str("status").unwrap(), "running");
    assert_eq!(filter.get_str("worker_state.worker_id").unwrap(), "worker-1");
    assert_eq!(filter.get_str("worker_state.claim_token").unwrap(), "token");
    assert_eq!(filter.len(), 4);
}

fn assert_failure(action: TaskAction, reason: &str) {
    match action {
        TaskAction::MarkFailed { filter, update } => {
            assert_fenced(&filter);
            let changes = update.get_document("$set").unwrap();
            assert_eq!(changes.get_str("status").unwrap(), "failed");
            assert_eq!(changes.get_str("error_reason").unwrap(), reason);
            assert!(changes.get_datetime("updated_at").is_ok());
            assert!(changes.get_datetime("worker_state.finished_at").is_ok());
        }
        other => panic!("unexpected {other:?}"),
    }
}

#[test]
fn task_runs_to_success() {
    let mut run = start();
    match run.step_at(TaskEvent::Decoded(true), 5_000, 6_000) {
        TaskAction::Heartbeat { filter, update } => {
            assert_fenced(&filter);
            let changes = update.get_document("$set").unwrap();
            assert_eq!(
                changes.get("worker_state.heartbeat_at"),
                Some(&Bson::DateTime(DateTime::from_millis(5_000)))
            );
            assert_eq!(changes.len(), 1);
        }
        other => panic!("unexpected {other:?}"),
    }
    assert!(matches!(run.step(TaskEvent::Decoded(true)), TaskAction::Nothing));
    assert!(matches!(
        run.step(TaskEvent::Written(Ok(1))),
        TaskAction::RunHandler { .. }
    ));
    match run.step_at(TaskEvent::HandlerSucceeded(Some(Bson::from("olleh"))), 7_000, 8_000) {
        TaskAction::Complete { filter, update } => {
            assert_fenced(&filter);
            let changes = update.get_document("$set").unwrap();
            assert_eq!(changes.get_str("status").unwrap(), "succeeded");
            assert_eq!(changes.get_str("task_output").unwrap(), "olleh");
            assert_eq!(
                changes.get("updated_at"),
                Some(&Bson::DateTime(DateTime::from_millis(7_000)))
            );
            assert_eq!(
                changes.get("worker_state.finished_at"),
                Some(&Bson::DateTime(DateTime::from_millis(8_000)))
            );
        }
        other => panic!("unexpected {other:?}"),
    }
    assert!(matches!(run.step(TaskEvent::Written(Ok(1))), TaskAction::Finish(Ok(()))));
    assert!(matches!(run.step(TaskEvent::Written(Ok(1))), TaskAction::Nothing));
}

#[test]
fn document_without_a_task_id_cannot_be_run() {
    let mut task = claimed_task();
    task.remove("task_id");
    assert!(matches!(
        TaskRun::start(&task, "worker-1", Duration::from_secs(10)),
        Err(RequestError::PayloadFormat { field }) if field == "task_id"
    ));
}

#[test]
fn missing_or_unreadable_payload_fails_the_task() {
    let mut task = claimed_task();
    task.remove("task_input");
    let (mut run, action) = TaskRun::start(&task, "worker-1", Duration::from_secs(10)).unwrap();
    assert_failure(action, "infrastructure error: payload format mismatch in task_input");
    assert!(matches!(
        run.step(TaskEvent::Written(Err(broken()))),
        TaskAction::Finish(Err(RequestError::PayloadFormat { field })) if field == "task_input"
    ));

    let mut run = start();
    let action = run.step(TaskEvent::Decoded(false));
    assert_failure(action, "infrastructure error: payload format mismatch in task_input");
    assert!(matches!(
        run.step(TaskEvent::Written(Ok(0))),
        TaskAction::Finish(Err(RequestError::PayloadFormat { .. }))
    ));
}

#[test]
fn claim_lost_before_the_handler_ends_the_task_without_a_write() {
    let mut run = start();
    run.step(TaskEvent::Decoded(true));
    assert!(matches!(
        run.step(TaskEvent::Written(Ok(0))),
        TaskAction::Finish(Err(RequestError::WorkerGone))
    ));
}

#[test]
fn heartbeat_error_before_the_handler_fails_the_task() {
    let mut run = start();
    run.step(TaskEvent::Decoded(true));
    let action = run.step(TaskEvent::Written(Err(broken())));
    assert_failure(action, "infrastructure error: database error: connection reset");
    assert!(matches!(
        run.step(TaskEvent::Written(Ok(1))),
        TaskAction::Finish(Err(RequestError::Database(text))) if text == "connection reset"
    ));
}

#[test]
fn handler_error_fails_the_task() {
    let mut run = running();
    let action = run.step(TaskEvent::HandlerFailed(RequestError::TaskFailed {
        reason: "oops".into(),
    }));
    assert_failure(action, "handler error: task failed: oops");
    assert!(matches!(run.step(TaskEvent::OwnershipLost), TaskAction::Nothing));
    assert!(matches!(
        run.step(TaskEvent::Written(Ok(1))),
        TaskAction::Finish(Err(RequestError::TaskFailed { reason })) if reason == "oops"
    ));
}

#[test]
fn lost_ownership_ends_the_handler_without_a_write() {
    let mut run = running();
    assert!(matches!(
        run.step(TaskEvent::OwnershipLost),
        TaskAction::Finish(Err(RequestError::WorkerGone))
    ));
    assert!(matches!(
        run.step(TaskEvent::HandlerSucceeded(Some(Bson::Null))),
        TaskAction::Nothing
    ));
}

#[test]
fn unserializable_output_ends_the_task() {
    let mut run = running();
    assert!(matches!(
        run.step(TaskEvent::HandlerSucceeded(None)),
        TaskAction::Finish(Err(RequestError::PayloadFormat { field })) if field == "task_output"
    ));
}

#[test]
fn completion_that_finds_no_task_or_fails_is_an_error() {
    let mut run = running();
    run.step(TaskEvent::HandlerSucceeded(Some(Bson::Null)));
    assert!(matches!(
        run.step(TaskEvent::Written(Ok(0))),
        TaskAction::Finish(Err(RequestError::WorkerGone))
    ));
    let mut run = running();
    run.step(TaskEvent::HandlerSucceeded(Some(Bson::Null)));
    assert!(matches!(
        run.step(TaskEvent::Written(Err(broken()))),
        TaskAction::Finish(Err(RequestError::Database(text))) if text == "connection reset"
    ));
}

#[test]
fn heartbeats_stay_within_the_claim() {
    let run = running();
    let (filter, update) = run.heartbeat_at(9_000);
    assert_fenced(&filter);
    assert_eq!(
        update.get_document("$set").unwrap().get("worker_state.heartbeat_at"),
        Some(&Bson::DateTime(DateTime::from_millis(9_000)))
    );
    let before = DateTime::now();
    let (_, update) = run.heartbeat();
    let beat = update
        .get_document("$set")
        .unwrap()
        .get_datetime("worker_state.heartbeat_at")
        .unwrap();
    assert!(*beat >= before);
}

#[test]
fn handler_receives_id_trace_and_payload() {
    let run = running();
    let trace = TraceContext::from_parts("aa", "bb");
    let job = run.job(42, Some(trace.clone()));
    assert_eq!(job.task_id, "task-a");
    assert_eq!(run.task_id(), "task-a");
    assert_eq!(job.trace_context, Some(trace));
    assert_eq!(job.payload, 42);
}

#[test]
fn null_trace_context_counts_as_none() {
    let mut task = claimed_task();
    assert_eq!(stored_trace_context(&task), None);
    task.insert("trace_context", Bson::Null);
    assert_eq!(stored_trace_context(&task), None);
    task.insert("trace_context", "x");
    assert_eq!(stored_trace_context(&task), Some(Bson::from("x")));
}

#[test]
fn only_a_superseded_claim_aborts_the_handler() {
    assert_eq!(
        HeartbeatOutcome::Superseded.reaction(),
        HeartbeatReaction::AbortHandler
    );
    assert_eq!(
        HeartbeatOutcome::Alive.reaction(),
        HeartbeatReaction::Continue
    );
    assert_eq!(
        HeartbeatOutcome::TransientError.reaction(),
        HeartbeatReaction::Stop
    );
    assert_eq!(HeartbeatOutcome::Alive.label(), "alive");
    assert_eq!(HeartbeatOutcome::Superseded.label(), "superseded");
    assert_eq!(HeartbeatOutcome::TransientError.label(), "transient_error");
}

#[test]
fn heartbeat_write_counts_documents() {
    assert!(matches!(heartbeat_result(Ok(1)), Ok(true)));
    assert!(matches!(heartbeat_result(Ok(0)), Ok(false)));
    assert!(matches!(
        heartbeat_result(Err(broken())),
        Err(RequestError::Database(text)) if text == "connection reset"
    ));
}

#[test]
fn task_that_may_be_taken_over_at_once_gets_no_heartbeats() {
    assert!(!sends_heartbeats(heartbeat_interval(Duration::ZERO)));
    assert!(!sends_heartbeats(heartbeat_interval(Duration::from_nanos(2))));
    assert!(sends_heartbeats(heartbeat_interval(Duration::from_nanos(3))));
}
