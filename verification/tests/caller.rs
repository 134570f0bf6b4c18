use std::time::Duration;

use bson::{Bson, Document};
use getitdone::caller::{
    decoded_output, enqueue_outcome, evaluate_document, inspect_found, prepare_task, result_pipeline,
    task_filter, Request, TaskOutcome, UpsertReport,
};
use getitdone::database::DatabaseError;
use getitdone::wait::{poll_interval, WaitAction, WaitEvent, WaitRun};
use getitdone::{Config, RequestError, SendBuilder, TraceContext};
use serde_json::Value;

fn document(fields: Vec<(&str, Bson)>) -> Document {
    let mut document = Document::new();
    for (name, value) in fields {
        document.insert(name, value);
    }
    document
}

fn config() -> Config {
    Config::builder()
        .mongo_uri("mongodb://localhost:27017")
        .request_timeout(Some(Duration::from_secs(7)))
        .worker_switch_timeout(Duration::from_millis(200))
        .build()
}

fn succeeded() -> Document {
    document(vec![
        ("task_id", Bson::from("success_case")),
        ("status", Bson::from("succeeded")),
        (
            "task_output",
            Bson::Document(document(vec![("value", Bson::from("done"))])),
        ),
    ])
}

fn failed() -> Document {
    document(vec![
        ("task_id", Bson::from("failure_case")),
        ("status", Bson::from("failed")),
        ("error_reason", Bson::from("boom")),
    ])
}

fn pending() -> Document {
    document(vec![("status", Bson::from("pending"))])
}

fn broken() -> DatabaseError {
    DatabaseError::Other {
        message: "connection reset".into(),
    }
}

#[test]
fn unserializable_payload_is_a_format_error() {
    let mut request = SendBuilder::from_json(None);
    let err = request.take_request(&config()).unwrap_err();
    assert!(matches!(err, RequestError::PayloadFormat { field } if field == "task_input"));
    let err = request.take_request(&config()).unwrap_err();
    assert!(matches!(err, RequestError::PayloadFormat { field } if field == "task_input"));
}

#[test]
fn json_number_that_bson_cannot_hold_is_a_format_error() {
    let mut request = SendBuilder::from_json(Some(Value::from(u64::MAX)));
    let err = request.take_request(&config()).unwrap_err();
    assert!(matches!(err, RequestError::PayloadFormat { field } if field == "task_input"));
}

#[test]
fn json_payload_becomes_bson() {
    let mut fields = serde_json::Map::new();
    fields.insert("text".into(), Value::from("hello"));
    fields.insert("count".into(), Value::from(5));
    let mut request = SendBuilder::from_json(Some(Value::Object(fields)));
    let request = request.take_request(&config()).unwrap();
    let payload = request.payload.as_document().expect("document").clone();
    assert_eq!(payload.get_str("text").unwrap(), "hello");
    assert_eq!(payload.len(), 2);
    assert!(request.trace_context.is_none());
}

#[test]
fn configuration_fills_in_what_a_request_leaves_open() {
    let mut request = SendBuilder::with_captured(Some(Bson::Int32(1)), None);
    let sent = request.take_request(&config()).unwrap();
    assert_eq!(sent.payload, Bson::Int32(1));
    assert_eq!(sent.timeout, Some(Duration::from_secs(7)));
    assert_eq!(sent.worker_switch_timeout, Duration::from_millis(200));
    assert_eq!(sent.idempotency_key, None);
    assert!(!sent.allow_reset);
    assert!(request.take_request(&config()).is_err());
}

#[test]
fn request_overrides_the_configuration() {
    let trace = TraceContext::from_parts("00112233445566778899aabbccddeeff", "0011223344556677");
    let mut request = SendBuilder::with_captured(Some(Bson::Null), None)
        .with_timeout(Duration::from_secs(1))
        .with_worker_switch_timeout(Duration::from_millis(321))
        .with_idempotency_key("img_42")
        .with_trace_context(trace.clone());
    let sent = request.take_request(&config()).unwrap();
    assert_eq!(sent.timeout, Some(Duration::from_secs(1)));
    assert_eq!(sent.worker_switch_timeout, Duration::from_millis(321));
    assert_eq!(sent.idempotency_key.as_deref(), Some("img_42"));
    assert_eq!(sent.trace_context, Some(trace));
}

fn request(key: Option<&str>) -> Request {
    Request {
        payload: Bson::Null,
        timeout: None,
        worker_switch_timeout: Duration::from_secs(1),
        idempotency_key: key.map(String::from),
        trace_context: None,
        allow_reset: true,
    }
}

#[test]
fn task_id_is_the_idempotency_key_or_a_random_one() {
    assert_eq!(prepare_task(request(Some("my_key"))).task_id, "my_key");
    let first = prepare_task(request(None)).task_id;
    let second = prepare_task(request(None)).task_id;
    assert_ne!(first, second);
    assert_eq!(uuid::Uuid::parse_str(&first).unwrap().get_version_num(), 4);
}

#[test]
fn reset_filter_has_both_alternatives() {
    let task = prepare_task(request(Some("my_key")));
    let alternatives = task.filter.get_array("$or").unwrap();
    assert_eq!(alternatives.len(), 2);
    assert_eq!(task.filter.get_str("task_id").unwrap(), "my_key");
    assert!(task.filter.get("status").is_none());
    let finished = alternatives[1].as_document().unwrap();
    let finished = finished.get_document("status").unwrap().get_array("$in").unwrap();
    assert_eq!(finished, &vec![Bson::from("succeeded"), Bson::from("failed")]);
    assert_eq!(
        task.update.get_document("$set").unwrap().get("trace_context"),
        Some(&Bson::Null)
    );
    let unset = task.update.get_document("$unset").unwrap();
    assert!(unset.contains_key("task_output"));
    assert!(unset.contains_key("error_reason"));
    assert!(unset.contains_key("worker_state"));
}

#[test]
fn upsert_reports_become_outcomes() {
    let outcome = |inserted, matched_count| {
        enqueue_outcome(
            "id".into(),
            Ok(UpsertReport {
                inserted,
                matched_count,
            }),
        )
    };
    assert_eq!(outcome(true, 0).unwrap(), "id");
    assert_eq!(outcome(false, 1).unwrap(), "id");
    assert!(matches!(outcome(false, 0), Err(RequestError::Duplicate { task_id }) if task_id == "id"));
    let duplicate = DatabaseError::Write {
        code: 11000,
        message: "E11000".into(),
    };
    assert!(matches!(
        enqueue_outcome("id".into(), Err(duplicate)),
        Err(RequestError::Duplicate { task_id }) if task_id == "id"
    ));
    assert!(matches!(
        enqueue_outcome("id".into(), Err(broken())),
        Err(RequestError::Database(text)) if text == "connection reset"
    ));
}

#[test]
fn documents_are_evaluated() {
    match evaluate_document(&succeeded()) {
        Ok(Some(TaskOutcome::Succeeded(output))) => {
            assert_eq!(output.as_document().unwrap().get_str("value").unwrap(), "done")
        }
        other => panic!("unexpected {other:?}"),
    }
    assert!(matches!(
        evaluate_document(&failed()),
        Ok(Some(TaskOutcome::Failed(RequestError::TaskFailed { reason }))) if reason.contains("boom")
    ));
    let silent = document(vec![("status", Bson::from("failed"))]);
    assert!(matches!(
        evaluate_document(&silent),
        Ok(Some(TaskOutcome::Failed(RequestError::TaskFailed { reason }))) if reason == "worker failed"
    ));
    assert!(matches!(evaluate_document(&pending()), Ok(None)));
    let running = document(vec![("status", Bson::from("running"))]);
    assert!(matches!(evaluate_document(&running), Ok(None)));
    assert!(matches!(
        evaluate_document(&Document::new()),
        Err(RequestError::PayloadFormat { field }) if field == "status"
    ));
    let no_output = document(vec![("status", Bson::from("succeeded"))]);
    assert!(matches!(
        evaluate_document(&no_output),
        Err(RequestError::PayloadFormat { field }) if field == "task_output"
    ));
    let null_output = document(vec![
        ("status", Bson::from("succeeded")),
        ("task_output", Bson::Null),
    ]);
    assert!(matches!(
        evaluate_document(&null_output),
        Ok(Some(TaskOutcome::Succeeded(Bson::Null)))
    ));
}

#[test]
fn missing_task_counts_as_failed() {
    assert!(matches!(
        inspect_found("missing", None),
        Ok(Some(TaskOutcome::Failed(RequestError::TaskFailed { reason }))) if reason == "task missing missing"
    ));
    assert!(matches!(inspect_found("x", Some(&pending())), Ok(None)));
}

#[test]
fn undecodable_output_is_a_format_error() {
    assert_eq!(decoded_output(Some(5)).unwrap(), 5);
    assert!(matches!(
        decoded_output::<i32>(None),
        Err(RequestError::PayloadFormat { field }) if field == "task_output"
    ));
}

#[test]
fn pipeline_listens_to_one_task() {
    let pipeline = result_pipeline("task-1");
    assert_eq!(pipeline.len(), 1);
    let stage = pipeline[0].get_document("$match").unwrap();
    assert_eq!(stage.get_str("fullDocument.task_id").unwrap(), "task-1");
    assert_eq!(task_filter("task-1").get_str("task_id").unwrap(), "task-1");
}

#[test]
fn wait_listens_until_the_task_has_ended() {
    let (mut wait, action) = WaitRun::start("task-1");
    assert!(matches!(action, WaitAction::Inspect));
    assert!(matches!(wait.step(WaitEvent::StreamOpened), WaitAction::Nothing));
    assert!(matches!(wait.step(WaitEvent::Found(Some(pending()))), WaitAction::OpenStream));
    assert!(matches!(wait.step(WaitEvent::Changed(None)), WaitAction::Nothing));
    assert!(matches!(wait.step(WaitEvent::StreamOpened), WaitAction::NextEvent));
    assert!(matches!(wait.step(WaitEvent::Found(Some(succeeded()))), WaitAction::Nothing));
    assert!(matches!(wait.step(WaitEvent::Changed(None)), WaitAction::NextEvent));
    assert!(matches!(wait.step(WaitEvent::Changed(Some(pending()))), WaitAction::NextEvent));
    match wait.step(WaitEvent::Changed(Some(succeeded()))) {
        WaitAction::Finish(Ok(output)) => assert!(output.as_document().is_some()),
        other => panic!("unexpected {other:?}"),
    }
    assert!(matches!(wait.step(WaitEvent::StreamClosed), WaitAction::Nothing));
}

#[test]
fn wait_ends_at_once_for_an_ended_or_missing_task() {
    let (mut wait, _) = WaitRun::start("task-1");
    assert!(matches!(
        wait.step(WaitEvent::Found(Some(failed()))),
        WaitAction::Finish(Err(RequestError::TaskFailed { reason })) if reason == "boom"
    ));
    let (mut wait, _) = WaitRun::start("task-1");
    assert!(matches!(
        wait.step(WaitEvent::Found(None)),
        WaitAction::Finish(Err(RequestError::TaskFailed { reason })) if reason == "task task-1 missing"
    ));
    let (mut wait, _) = WaitRun::start("task-1");
    assert!(matches!(
        wait.step(WaitEvent::Failed(broken())),
        WaitAction::Finish(Err(RequestError::Database(text))) if text == "connection reset"
    ));
}

fn listening() -> WaitRun {
    let (mut wait, _) = WaitRun::start("task-1");
    wait.step(WaitEvent::Found(Some(pending())));
    wait.step(WaitEvent::StreamOpened);
    wait
}

#[test]
fn wait_polls_where_it_cannot_listen() {
    let mut wait = listening();
    assert!(matches!(wait.step(WaitEvent::StreamClosed), WaitAction::Inspect));
    for _ in 0..3 {
        assert!(matches!(
            wait.step(WaitEvent::Found(Some(pending()))),
            WaitAction::Pause
        ));
        assert!(matches!(wait.step(WaitEvent::StreamOpened), WaitAction::Nothing));
        assert!(matches!(wait.step(WaitEvent::Paused), WaitAction::Inspect));
    }
    assert!(matches!(
        wait.step(WaitEvent::Failed(broken())),
        WaitAction::Finish(Err(RequestError::Database(text))) if text == "change stream closed"
    ));

    let mut wait = listening();
    assert!(matches!(wait.step(WaitEvent::Failed(broken())), WaitAction::Inspect));
    assert!(matches!(
        wait.step(WaitEvent::Found(Some(pending()))),
        WaitAction::Pause
    ));
    assert!(matches!(wait.step(WaitEvent::Paused), WaitAction::Inspect));
    assert!(matches!(
        wait.step(WaitEvent::Found(Some(succeeded()))),
        WaitAction::Finish(Ok(_))
    ));

    let (mut wait, _) = WaitRun::start("task-1");
    wait.step(WaitEvent::Found(Some(pending())));
    assert!(matches!(wait.step(WaitEvent::Failed(broken())), WaitAction::Inspect));
    let later = DatabaseError::Other {
        message: "later".into(),
    };
    assert!(matches!(
        wait.step(WaitEvent::Failed(later)),
        WaitAction::Finish(Err(RequestError::Database(text))) if text == "connection reset"
    ));

    let mut wait = listening();
    assert!(matches!(
        wait.step(WaitEvent::Changed(Some(Document::new()))),
        WaitAction::Finish(Err(RequestError::PayloadFormat { field })) if field == "status"
    ));
    assert_eq!(poll_interval(), Duration::from_secs(1));
}
