//! Callers and workers at work on one collection in memory, which keeps what they write under the
//! filters that they write it with.
use std::time::Duration;

use bson::oid::ObjectId;
use bson::{Bson, DateTime, Document};
use getitdone::caller::{enqueue_outcome, prepare_task, task_filter, UpsertReport};
use getitdone::claim::{
    prepare_claim, prepare_expired_claim, shutdown_filter, shutdown_update, ClaimMode,
    PreparedClaim,
};
use getitdone::database::DatabaseError;
use getitdone::expiry::ExpiryTracker;
use getitdone::pump::{
    AvailablePump, ClaimRun, ClaimStep, ExpiredAction, ExpiredOutcome, ExpiredPump, InFlight,
    PumpAction,
};
use getitdone::schedule::refresh_running_expirations;
use getitdone::task::{stored_trace_context, TaskAction, TaskEvent, TaskRun};
use getitdone::wait::{WaitAction, WaitEvent, WaitRun};
use getitdone::worker::Trigger;
use getitdone::{Config, RequestError, SendBuilder, TraceContext};
use serde_json::Value;

fn lookup<'a>(document: &'a Document, path: &str) -> Option<&'a Bson> {
    match path.split_once('.') {
        None => document.get(path),
        Some((outer, inner)) => lookup(document.get_document(outer).ok()?, inner),
    }
}

fn expires_at(expression: &Bson, task: &Document) -> i64 {
    let add = expression.as_document().unwrap().get_array("$add").unwrap();
    let heartbeat = lookup(task, "worker_state.heartbeat_at").unwrap();
    assert_eq!(add[0], Bson::from("$worker_state.heartbeat_at"));
    let mut timeout = &add[1];
    loop {
        match timeout {
            Bson::Document(choice) => {
                let choices = choice.get_array("$ifNull").unwrap();
                timeout = match lookup(task, &choices[0].as_str().unwrap()[1..]) {
                    Some(found) => found,
                    None => &choices[1],
                };
            }
            millis => {
                let heartbeat = heartbeat.as_datetime().unwrap().timestamp_millis();
                return heartbeat + millis.as_i64().unwrap();
            }
        }
    }
}

fn holds(value: Option<&Bson>, condition: &Bson) -> bool {
    match condition {
        Bson::Document(operators) => operators.iter().all(|(name, operand)| match name.as_str() {
            "$eq" => value == Some(operand),
            "$in" => value.is_some_and(|value| operand.as_array().unwrap().contains(value)),
            "$nin" => !value.is_some_and(|value| operand.as_array().unwrap().contains(value)),
            "$exists" => operand.as_bool().unwrap() == value.is_some(),
            "$type" => matches!(value, Some(Bson::DateTime(_))),
            other => panic!("unknown operator {other}"),
        }),
        literal => value == Some(literal),
    }
}

fn selects(filter: &Document, task: &Document) -> bool {
    filter.iter().all(|(path, condition)| match path.as_str() {
        "$or" => condition
            .as_array()
            .unwrap()
            .iter()
            .any(|alternative| selects(alternative.as_document().unwrap(), task)),
        "$expr" => {
            let lte = condition.as_document().unwrap().get_array("$lte").unwrap();
            lookup(task, "worker_state.heartbeat_at").is_some()
                && expires_at(&lte[0], task) <= lte[1].as_datetime().unwrap().timestamp_millis()
        }
        path => holds(lookup(task, path), condition),
    })
}

fn set(document: &mut Document, path: &str, value: &Bson) {
    match path.split_once('.') {
        None => {
            document.insert(path, value.clone());
        }
        Some((outer, inner)) => set(document.get_document_mut(outer).unwrap(), inner, value),
    }
}

#[derive(Default)]
struct Collection {
    documents: Vec<Document>,
}

impl Collection {
    fn find(&self, filter: &Document) -> Option<Document> {
        self.documents
            .iter()
            .find(|document| selects(filter, document))
            .cloned()
    }

    fn write(&mut self, filter: &Document, update: &Document) -> Option<Document> {
        let document = self
            .documents
            .iter_mut()
            .find(|document| selects(filter, document))?;
        for (path, value) in update.get_document("$set").unwrap() {
            set(document, path, value);
        }
        if let Ok(removals) = update.get_document("$unset") {
            for path in removals.keys() {
                document.remove(path);
            }
        }
        Some(document.clone())
    }

    fn upsert(&mut self, filter: &Document, update: &Document) -> Result<UpsertReport, DatabaseError> {
        if self.write(filter, update).is_some() {
            return Ok(UpsertReport {
                inserted: false,
                matched_count: 1,
            });
        }
        if self
            .find(&task_filter(filter.get_str("task_id").unwrap()))
            .is_some()
        {
            return Err(DatabaseError::Write {
                code: 11000,
                message: "E11000 duplicate key error".into(),
            });
        }
        let mut document = update.get_document("$set").unwrap().clone();
        document.insert("_id", ObjectId::new());
        for (name, value) in update.get_document("$setOnInsert").unwrap() {
            document.insert(name, value.clone());
        }
        self.documents.push(document);
        Ok(UpsertReport {
            inserted: true,
            matched_count: 0,
        })
    }

    fn enqueue(&mut self, mut request: SendBuilder, config: &Config) -> Result<String, RequestError> {
        let task = prepare_task(request.take_request(config)?);
        let result = self.upsert(&task.filter, &task.update);
        enqueue_outcome(task.task_id, result)
    }

    fn claim(&mut self, claim: PreparedClaim) -> Result<Option<Document>, RequestError> {
        let mut run = ClaimRun::new(claim);
        loop {
            let (filter, update) = run.attempt().expect("a filter is left");
            let found = self.write(&filter.clone(), &update.clone());
            match run.step(Ok(found)) {
                ClaimStep::TryNext => {}
                ClaimStep::Done(result) => return result,
            }
        }
    }
}

/// A worker with room for one task at a time.
struct Worker {
    worker_id: &'static str,
    timeout: Duration,
    tracker: ExpiryTracker,
    in_flight: InFlight,
}

impl Worker {
    fn start(worker_id: &'static str, timeout: Duration, collection: &Collection) -> Worker {
        let mut tracker = ExpiryTracker::new();
        refresh_running_expirations(
            Some(&collection.documents),
            timeout,
            &mut tracker,
            Trigger::Startup,
        );
        Worker {
            worker_id,
            timeout,
            tracker,
            in_flight: InFlight::new(),
        }
    }

    fn claim_ready(&mut self, collection: &mut Collection) -> Option<Document> {
        let mut pump = AvailablePump::<()>::new(ClaimMode::Ready);
        assert!(matches!(pump.on_permit(Some(())), PumpAction::Claim));
        let excluded = self.in_flight.ids();
        let claim = prepare_claim(self.worker_id, self.timeout, &excluded, ClaimMode::Ready);
        let found = collection.claim(claim);
        let action = pump.on_claim(&found, self.timeout, &mut self.tracker, &mut self.in_flight);
        let task = found.expect("no error");
        assert_eq!(matches!(action, PumpAction::Spawn { .. }), task.is_some());
        task
    }

    fn claim_expired(&mut self, collection: &mut Collection) -> Option<Document> {
        let mut pump = ExpiredPump::<()>::new(&mut self.tracker);
        while pump.has_next() {
            let (id, task_id) = match pump.next(Some(()), &mut self.tracker) {
                ExpiredAction::Claim { id, task_id } => (id, task_id),
                ExpiredAction::Finish => return None,
            };
            let excluded = self.in_flight.ids();
            let claim = prepare_expired_claim(
                id,
                self.worker_id,
                self.timeout,
                task_id.as_deref(),
                &excluded,
            );
            let found = collection.claim(claim);
            let outcome = pump.on_claim(
                &found,
                self.timeout,
                &mut self.tracker,
                &mut self.in_flight,
            );
            if matches!(outcome, ExpiredOutcome::Spawn { .. }) {
                return found.expect("no error");
            }
        }
        None
    }

    /// Runs a claimed task: `decode` reads the payload, `handler` answers it.
    fn run<T>(
        &mut self,
        collection: &mut Collection,
        task: &Document,
        decode: fn(&Bson) -> Option<T>,
        handler: fn(T) -> Result<Bson, RequestError>,
    ) -> Result<(), RequestError> {
        let (mut run, mut action) = TaskRun::start(task, self.worker_id, self.timeout)?;
        let mut payload = None;
        let result = loop {
            let event = match action {
                TaskAction::Decode { payload: stored } => {
                    payload = decode(&stored);
                    TaskEvent::Decoded(payload.is_some())
                }
                TaskAction::RunHandler { .. } => match handler(payload.take().unwrap()) {
                    Ok(output) => TaskEvent::HandlerSucceeded(Some(output)),
                    Err(error) => TaskEvent::HandlerFailed(error),
                },
                TaskAction::Heartbeat { filter, update }
                | TaskAction::Complete { filter, update }
                | TaskAction::MarkFailed { filter, update } => {
                    let found = collection.write(&filter, &update);
                    TaskEvent::Written(Ok(found.is_some() as u64))
                }
                TaskAction::Finish(result) => break result,
                TaskAction::Nothing => unreachable!("each action has its event"),
            };
            action = run.step(event);
        };
        self.in_flight.remove(run.task_id());
        result
    }
}

fn await_response(collection: &Collection, task_id: &str) -> Result<Bson, RequestError> {
    let (mut wait, action) = WaitRun::start(task_id);
    assert!(matches!(action, WaitAction::Inspect));
    match wait.step(WaitEvent::Found(collection.find(&task_filter(task_id)))) {
        WaitAction::Finish(result) => result,
        other => panic!("the task has not ended: {other:?}"),
    }
}

fn config() -> Config {
    Config::builder()
        .mongo_uri("mongodb://localhost:27017")
        .database("getitdone_test")
        .collection("exchange")
        .build()
}

fn echo_input(msg: &str) -> Option<Value> {
    let mut fields = serde_json::Map::new();
    fields.insert("msg".into(), Value::from(msg));
    Some(Value::Object(fields))
}

fn msg_of(payload: &Bson) -> Option<String> {
    Some(payload.as_document()?.get_str("msg").ok()?.to_string())
}

fn echo_output(msg: String) -> Bson {
    let mut document = Document::new();
    document.insert("msg", msg);
    Bson::Document(document)
}

fn received(output: Bson) -> String {
    msg_of(&output).expect("output has a msg")
}

#[test]
fn test_happy_path() {
    let mut collection = Collection::default();
    let mut worker = Worker::start("worker-1", Duration::from_secs(10), &collection);
    let task_id = collection
        .enqueue(SendBuilder::from_json(echo_input("hello")), &config())
        .unwrap();
    let task = worker.claim_ready(&mut collection).expect("claim");
    worker
        .run(&mut collection, &task, msg_of, |msg| {
            Ok(echo_output(msg.chars().rev().collect()))
        })
        .unwrap();
    let result = await_response(&collection, &task_id).unwrap();
    assert_eq!(received(result), "olleh");
    assert!(worker.claim_ready(&mut collection).is_none());
}

#[test]
fn test_worker_stealing() {
    let timeout = Duration::from_millis(500);
    let mut config = config();
    config.worker_switch_timeout = timeout;
    let mut collection = Collection::default();
    let mut worker_a = Worker::start("worker-a", timeout, &collection);
    let task_id = collection
        .enqueue(SendBuilder::from_json(echo_input("stolen")), &config)
        .unwrap();
    let held = worker_a.claim_ready(&mut collection).expect("claim");

    let mut worker_b = Worker::start("worker-b", timeout, &collection);
    assert!(worker_b.claim_ready(&mut collection).is_none());
    assert!(worker_b.claim_expired(&mut collection).is_none());

    let long_ago = DateTime::from_millis(DateTime::now().timestamp_millis() - 1_500);
    set(
        &mut collection.documents[0],
        "worker_state.heartbeat_at",
        &Bson::DateTime(long_ago),
    );
    let mut worker_b = Worker::start("worker-b", timeout, &collection);
    assert_eq!(worker_b.tracker.next_delay(), Some(Duration::ZERO));
    let task = worker_b.claim_expired(&mut collection).expect("claim");
    worker_b
        .run(&mut collection, &task, msg_of, |_| {
            Ok(echo_output("recovered".into()))
        })
        .unwrap();
    let result = await_response(&collection, &task_id).unwrap();
    assert_eq!(received(result), "recovered");

    let late = worker_a.run(&mut collection, &held, msg_of, |msg| Ok(echo_output(msg)));
    assert!(matches!(late, Err(RequestError::WorkerGone)));
    let result = await_response(&collection, &task_id).unwrap();
    assert_eq!(received(result), "recovered");
}

#[test]
fn test_task_failure() {
    let mut collection = Collection::default();
    let mut worker = Worker::start("worker-1", Duration::from_secs(10), &collection);
    let task_id = collection
        .enqueue(SendBuilder::from_json(echo_input("fail")), &config())
        .unwrap();
    let task = worker.claim_ready(&mut collection).expect("claim");
    let ended = worker.run(&mut collection, &task, msg_of, |_| {
        Err(RequestError::TaskFailed {
            reason: "oops".into(),
        })
    });
    assert!(ended.is_err());
    match await_response(&collection, &task_id) {
        Err(RequestError::TaskFailed { reason }) => {
            assert!(reason.contains("oops"));
            assert_eq!(reason, "handler error: task failed: oops");
        }
        other => panic!("Expected TaskFailed, got {other:?}"),
    }
}

#[test]
fn test_idempotency() {
    let mut collection = Collection::default();
    let send = || SendBuilder::from_json(echo_input("idempotent")).with_idempotency_key("my_key");
    let result1 = collection.enqueue(send(), &config());
    assert!(result1.is_ok());
    let result2 = collection.enqueue(send(), &config());
    match result2 {
        Err(RequestError::Duplicate { .. }) => (),
        _ => panic!("Expected Duplicate error, got {:?}", result2),
    }
}

#[test]
fn test_payload_mismatch() {
    let mut collection = Collection::default();
    let mut worker = Worker::start("worker-1", Duration::from_secs(10), &collection);
    let mut wrong_input = serde_json::Map::new();
    wrong_input.insert("number".into(), Value::from(42));
    let task_id = collection
        .enqueue(
            SendBuilder::from_json(Some(Value::Object(wrong_input))),
            &config(),
        )
        .unwrap();
    let task = worker.claim_ready(&mut collection).expect("claim");
    let ended = worker.run(&mut collection, &task, msg_of, |_| {
        Ok(echo_output("ok".into()))
    });
    assert!(matches!(ended, Err(RequestError::PayloadFormat { field }) if field == "task_input"));
    match await_response(&collection, &task_id) {
        Err(RequestError::TaskFailed { reason }) => assert!(reason.contains("task_input")),
        other => panic!("Expected TaskFailed due to format, got {other:?}"),
    }
}

#[test]
fn test_reset_finished_tasks() {
    let config = Config::builder()
        .mongo_uri("mongodb://localhost:27017")
        .database("getitdone_test")
        .collection("exchange")
        .reset_finished_tasks(true)
        .build();
    let mut collection = Collection::default();
    let mut worker = Worker::start("worker-1", Duration::from_secs(10), &collection);
    for _ in 0..2 {
        let request =
            SendBuilder::from_json(echo_input("replay")).with_idempotency_key("replay_task");
        let id = collection.enqueue(request, &config).unwrap();
        assert_eq!(id, "replay_task");
        let task = worker.claim_ready(&mut collection).expect("claim");
        worker
            .run(&mut collection, &task, msg_of, |msg| Ok(echo_output(msg)))
            .unwrap();
        let result = await_response(&collection, &id).unwrap();
        assert_eq!(received(result), "replay");
    }
    assert_eq!(collection.documents.len(), 1);
}

#[test]
fn test_worker_links_custom_trace_context() {
    let mut collection = Collection::default();
    let mut worker = Worker::start("worker-1", Duration::from_secs(10), &collection);
    let custom_trace =
        TraceContext::from_parts("00112233445566778899aabbccddeeff", "0011223344556677");
    let request =
        SendBuilder::from_json(echo_input("trace")).with_trace_context(custom_trace.clone());
    collection.enqueue(request, &config()).unwrap();
    let task = worker.claim_ready(&mut collection).expect("claim");
    let stored = stored_trace_context(&task).expect("trace context present");
    let stored = stored.as_document().expect("document");
    assert_eq!(stored.get_str("trace_id").unwrap(), custom_trace.trace_id);
    assert_eq!(stored.get_str("span_id").unwrap(), custom_trace.span_id);
    assert_eq!(stored.get_i32("trace_flags").unwrap(), 1);
}

#[test]
fn single_worker_goes_on_to_the_tasks_that_came_meanwhile() {
    let mut collection = Collection::default();
    let mut worker = Worker::start("worker-1", Duration::from_secs(10), &collection);
    collection
        .enqueue(SendBuilder::from_json(echo_input("first")), &config())
        .unwrap();
    let first = worker.claim_ready(&mut collection).expect("claim");
    assert!(worker.claim_ready(&mut collection).is_none());
    assert!(!worker.tracker.has_pending());
    let second_id = collection
        .enqueue(SendBuilder::from_json(echo_input("second")), &config())
        .unwrap();
    worker
        .run(&mut collection, &first, msg_of, |msg| Ok(echo_output(msg)))
        .unwrap();
    let second = worker.claim_ready(&mut collection).expect("claim");
    assert_eq!(second.get_str("task_id").unwrap(), second_id);
}

#[test]
fn stale_task_in_flight_is_not_claimed_again() {
    let timeout = Duration::from_millis(50);
    let mut collection = Collection::default();
    let mut worker = Worker::start("worker-1", timeout, &collection);
    let request =
        SendBuilder::from_json(echo_input("slow")).with_worker_switch_timeout(timeout);
    collection.enqueue(request, &config()).unwrap();
    worker.claim_ready(&mut collection).expect("claim");
    let long_ago = DateTime::from_millis(DateTime::now().timestamp_millis() - 60_000);
    set(
        &mut collection.documents[0],
        "worker_state.heartbeat_at",
        &Bson::DateTime(long_ago),
    );
    let before = collection.documents.clone();
    refresh_running_expirations(
        Some(&collection.documents),
        timeout,
        &mut worker.tracker,
        Trigger::Periodic,
    );
    assert_eq!(worker.tracker.next_delay(), Some(Duration::ZERO));
    assert!(worker.claim_expired(&mut collection).is_none());
    assert_eq!(collection.documents, before);
}

#[test]
fn shutdown_fails_the_task_in_flight_for_good() {
    let mut collection = Collection::default();
    let mut worker = Worker::start("worker-1", Duration::from_secs(10), &collection);
    let task_id = collection
        .enqueue(SendBuilder::from_json(echo_input("cut short")), &config())
        .unwrap();
    let task = worker.claim_ready(&mut collection).expect("claim");
    let (mut run, _) = TaskRun::start(&task, "worker-1", Duration::from_secs(10)).unwrap();
    let beat = run.step(TaskEvent::Decoded(true));
    match beat {
        TaskAction::Heartbeat { filter, update } => {
            assert!(collection.write(&filter, &update).is_some())
        }
        other => panic!("unexpected {other:?}"),
    }
    run.step(TaskEvent::Written(Ok(1)));

    assert!(collection.write(&shutdown_filter("worker-1"), &shutdown_update()).is_some());

    match run.step(TaskEvent::HandlerSucceeded(Some(echo_output("too late".into())))) {
        TaskAction::Complete { filter, update } => {
            assert!(collection.write(&filter, &update).is_none())
        }
        other => panic!("unexpected {other:?}"),
    }
    assert!(matches!(
        run.step(TaskEvent::Written(Ok(0))),
        TaskAction::Finish(Err(RequestError::WorkerGone))
    ));
    let stored = collection.find(&task_filter(&task_id)).unwrap();
    assert_eq!(stored.get_str("status").unwrap(), "failed");
    assert_eq!(
        lookup(&stored, "worker_state.shutdown_reason"),
        Some(&Bson::from("worker shut down"))
    );
    match await_response(&collection, &task_id) {
        Err(RequestError::TaskFailed { reason }) => assert_eq!(reason, "worker shut down"),
        other => panic!("Expected TaskFailed, got {other:?}"),
    }
}
