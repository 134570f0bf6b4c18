//! The rules at work on documents: a small collection in memory that understands the filters and
//! updates which the library writes.
use std::time::Duration;

use bson::oid::ObjectId;
use bson::{Bson, DateTime, Document};
use getitdone::caller::{
    enqueue_outcome, evaluate_document, prepare_task, prepare_task_at, task_filter, Request,
    TaskOutcome, UpsertReport,
};
use getitdone::claim::{
    failure_update, heartbeat_update_at, ownership_filter, prepare_claim, prepare_claim_at,
    prepare_expired_claim, prepare_expired_claim_at, shutdown_filter, shutdown_update,
    success_update, ClaimMode, PreparedClaim,
};
use getitdone::database::DatabaseError;
use getitdone::expiry::ExpiryTracker;
use getitdone::object_key::ObjectKey;
use getitdone::pump::{ClaimRun, ClaimStep};
use getitdone::schedule::schedule_expiration_from_task;
use getitdone::{RequestError, TraceContext};

fn document(fields: Vec<(&str, Bson)>) -> Document {
    let mut document = Document::new();
    for (name, value) in fields {
        document.insert(name, value);
    }
    document
}

fn date(millis: i64) -> Bson {
    Bson::DateTime(DateTime::from_millis(millis))
}

fn now() -> i64 {
    DateTime::now().timestamp_millis()
}

fn lookup(document: &Document, path: &str) -> Option<Bson> {
    match path.split_once('.') {
        None => document.get(path).cloned(),
        Some((outer, inner)) => match document.get(outer) {
            Some(Bson::Document(nested)) => lookup(nested, inner),
            _ => None,
        },
    }
}

fn evaluate(expression: &Bson, document: &Document) -> Option<Bson> {
    match expression {
        Bson::String(text) if text.starts_with('$') => lookup(document, &text[1..]),
        Bson::Document(operators) => {
            let (name, operands) = operators.iter().next().expect("operator");
            let operands = operands.as_array().expect("operands");
            let first = evaluate(&operands[0], document);
            let second = evaluate(&operands[1], document);
            match (name.as_str(), first, second) {
                ("$ifNull", None | Some(Bson::Null), second) => second,
                ("$ifNull", first, _) => first,
                ("$add", Some(Bson::DateTime(from)), Some(Bson::Int64(millis))) => {
                    Some(date(from.timestamp_millis() + millis))
                }
                ("$lte", Some(Bson::DateTime(left)), Some(Bson::DateTime(right))) => {
                    Some(Bson::Boolean(left <= right))
                }
                other => panic!("unknown expression {other:?}"),
            }
        }
        literal => Some(literal.clone()),
    }
}

fn holds(value: Option<Bson>, condition: &Bson) -> bool {
    match condition {
        Bson::Document(operators) => operators.iter().all(|(name, operand)| match name.as_str() {
            "$eq" => value.as_ref() == Some(operand),
            "$in" => value
                .as_ref()
                .is_some_and(|value| operand.as_array().unwrap().contains(value)),
            "$nin" => !value
                .as_ref()
                .is_some_and(|value| operand.as_array().unwrap().contains(value)),
            "$exists" => operand.as_bool().unwrap() == value.is_some(),
            "$type" => operand.as_str() == Some("date") && matches!(value, Some(Bson::DateTime(_))),
            other => panic!("unknown operator {other}"),
        }),
        literal => value.as_ref() == Some(literal),
    }
}

fn selects(filter: &Document, document: &Document) -> bool {
    filter.iter().all(|(path, condition)| match path.as_str() {
        "$or" => condition
            .as_array()
            .unwrap()
            .iter()
            .any(|alternative| selects(alternative.as_document().unwrap(), document)),
        "$expr" => evaluate(condition, document) == Some(Bson::Boolean(true)),
        path => holds(lookup(document, path), condition),
    })
}

fn set(document: &mut Document, path: &str, value: Bson) {
    match path.split_once('.') {
        None => {
            document.insert(path, value);
        }
        Some((outer, inner)) => {
            if !matches!(document.get(outer), Some(Bson::Document(_))) {
                document.insert(outer, Document::new());
            }
            set(document.get_document_mut(outer).unwrap(), inner, value);
        }
    }
}

#[derive(Default)]
struct Collection {
    documents: Vec<Document>,
}

impl Collection {
    fn apply(document: &mut Document, update: &Document, inserting: bool) {
        for (operator, fields) in update {
            for (path, value) in fields.as_document().unwrap() {
                match operator.as_str() {
                    "$set" => set(document, path, value.clone()),
                    "$setOnInsert" if inserting => set(document, path, value.clone()),
                    "$setOnInsert" => {}
                    "$unset" => {
                        document.remove(path);
                    }
                    other => panic!("unknown update {other}"),
                }
            }
        }
    }

    fn find(&self, filter: &Document) -> Option<&Document> {
        self.documents.iter().find(|document| selects(filter, document))
    }

    fn update_one(&mut self, filter: &Document, update: &Document) -> u64 {
        for document in &mut self.documents {
            if selects(filter, document) {
                Collection::apply(document, update, false);
                return 1;
            }
        }
        0
    }

    fn update_many(&mut self, filter: &Document, update: &Document) -> u64 {
        let mut count = 0;
        for document in &mut self.documents {
            if selects(filter, document) {
                Collection::apply(document, update, false);
                count += 1;
            }
        }
        count
    }

    fn upsert(&mut self, filter: &Document, update: &Document) -> Result<UpsertReport, DatabaseError> {
        if self.update_one(filter, update) > 0 {
            return Ok(UpsertReport {
                inserted: false,
                matched_count: 1,
            });
        }
        let task_id = filter.get_str("task_id").unwrap();
        if self.find(&task_filter(task_id)).is_some() {
            return Err(DatabaseError::Write {
                code: 11000,
                message: "E11000 duplicate key".into(),
            });
        }
        let mut document = document(vec![("_id", Bson::ObjectId(ObjectId::new()))]);
        Collection::apply(&mut document, update, true);
        self.documents.push(document);
        Ok(UpsertReport {
            inserted: true,
            matched_count: 0,
        })
    }

    fn claim(&mut self, claim: PreparedClaim) -> Option<Document> {
        let mut run = ClaimRun::new(claim);
        loop {
            let found = {
                let (filter, update) = run.attempt().expect("a filter is left");
                let id = self.find(filter).map(|document| document.get("_id").cloned());
                match id {
                    Some(id) => {
                        let by_id = document(vec![("_id", id.unwrap())]);
                        self.update_one(&by_id, update);
                        self.find(&by_id).cloned()
                    }
                    None => None,
                }
            };
            match run.step(Ok(found)) {
                ClaimStep::TryNext => {}
                ClaimStep::Done(result) => return result.expect("no error"),
            }
        }
    }

    fn enqueue(&mut self, task_id: &str, payload: Bson, allow_reset: bool) -> Result<String, RequestError> {
        let task = prepare_task(Request {
            payload,
            timeout: None,
            worker_switch_timeout: Duration::from_secs(10),
            idempotency_key: Some(task_id.into()),
            trace_context: None,
            allow_reset,
        });
        let result = self.upsert(&task.filter, &task.update);
        enqueue_outcome(task.task_id, result)
    }

    fn insert_stale_running_task(&mut self, task_id: &str, worker_id: &str) -> ObjectId {
        let id = ObjectId::new();
        let stale = now() - 60_000;
        self.documents.push(document(vec![
            ("_id", Bson::ObjectId(id)),
            ("task_id", Bson::from(task_id)),
            ("status", Bson::from("running")),
            ("task_input", Bson::Document(Document::new())),
            ("updated_at", date(now())),
            (
                "worker_state",
                Bson::Document(document(vec![
                    ("worker_id", Bson::from(worker_id)),
                    ("started_at", date(stale)),
                    ("heartbeat_at", date(stale)),
                    ("switch_timeout_ms", Bson::Int64(50)),
                ])),
            ),
        ]));
        id
    }

    fn insert_running_task(&mut self, task_id: &str, worker_id: &str, claim_token: &str) {
        self.documents.push(document(vec![
            ("_id", Bson::ObjectId(ObjectId::new())),
            ("task_id", Bson::from(task_id)),
            ("status", Bson::from("running")),
            ("task_input", Bson::Document(Document::new())),
            ("updated_at", date(now())),
            (
                "worker_state",
                Bson::Document(document(vec![
                    ("worker_id", Bson::from(worker_id)),
                    ("claim_token", Bson::from(claim_token)),
                    ("started_at", date(now())),
                    ("heartbeat_at", date(now())),
                    ("switch_timeout_ms", Bson::Int64(50)),
                ])),
            ),
        ]));
    }

    fn status(&self, task_id: &str) -> String {
        let task = self.find(&task_filter(task_id)).expect("task");
        task.get_str("status").unwrap().to_string()
    }
}

fn claim_next(
    collection: &mut Collection,
    worker_id: &str,
    excluded: &[&str],
    mode: ClaimMode,
) -> Option<Document> {
    let excluded: Vec<String> = excluded.iter().map(|id| id.to_string()).collect();
    collection.claim(prepare_claim(
        worker_id,
        Duration::from_millis(50),
        &excluded,
        mode,
    ))
}

#[test]
fn stale_heartbeat_does_not_reclaim_own_in_flight_task() {
    let mut collection = Collection::default();
    let task_id = "in-flight-task";
    let worker_id = "worker-1";
    collection.insert_stale_running_task(task_id, worker_id);

    let result = claim_next(&mut collection, worker_id, &[task_id], ClaimMode::StaleRecovery);

    assert!(
        result.is_none(),
        "worker re-claimed a task it already has in flight"
    );
}

#[test]
fn stale_heartbeat_still_reclaims_when_not_in_flight() {
    let mut collection = Collection::default();
    let task_id = "abandoned-task";
    let worker_id = "worker-1";
    collection.insert_stale_running_task(task_id, worker_id);

    let result = claim_next(&mut collection, worker_id, &[], ClaimMode::StaleRecovery);

    assert!(
        result.is_some(),
        "worker failed to reclaim a genuinely stale, non-in-flight task"
    );
}

#[test]
fn ready_mode_does_not_reclaim_abandoned_running_tasks() {
    let mut collection = Collection::default();
    let worker_id = "worker-1";
    collection.insert_stale_running_task("legacy-stale-task", "dead-worker");

    let result = claim_next(&mut collection, worker_id, &[], ClaimMode::Ready);

    assert!(
        result.is_none(),
        "change-stream ready claims must not do stale recovery work"
    );
}

#[test]
fn heartbeat_rejects_superseded_claim_token() {
    let mut collection = Collection::default();
    let task_id = "task-a";
    let worker_id = "worker-1";
    collection.insert_running_task(task_id, worker_id, "current-token");

    let stale = collection.update_one(
        &ownership_filter(task_id, worker_id, "old-superseded-token"),
        &heartbeat_update_at(now()),
    );
    assert_eq!(stale, 0, "heartbeat matched a superseded claim_token");

    let beat_at = now() + 5;
    let current = collection.update_one(
        &ownership_filter(task_id, worker_id, "current-token"),
        &heartbeat_update_at(beat_at),
    );
    assert_eq!(current, 1, "heartbeat rejected the current claim_token");
    let task = collection.find(&task_filter(task_id)).unwrap();
    assert_eq!(lookup(task, "worker_state.heartbeat_at"), Some(date(beat_at)));
}

#[test]
fn mark_task_failed_ignores_superseded_claim_token() {
    let mut collection = Collection::default();
    let task_id = "task-b";
    let worker_id = "worker-1";
    collection.insert_running_task(task_id, worker_id, "current-token");

    collection.update_one(
        &ownership_filter(task_id, worker_id, "old-superseded-token"),
        &failure_update("stale handler error"),
    );

    assert_eq!(
        collection.status(task_id),
        "running",
        "superseded claim was able to overwrite the current claim's status"
    );
}

#[test]
fn own_tasks_of_an_earlier_life_are_ready_unless_in_flight() {
    let mut collection = Collection::default();
    collection.insert_running_task("mine", "worker-1", "earlier-token");
    assert!(claim_next(&mut collection, "worker-2", &[], ClaimMode::Ready).is_none());
    assert!(claim_next(&mut collection, "worker-1", &["mine"], ClaimMode::Ready).is_none());
    let task = claim_next(&mut collection, "worker-1", &[], ClaimMode::Ready).expect("own task");
    let token = lookup(&task, "worker_state.claim_token").unwrap();
    assert_ne!(token, Bson::from("earlier-token"));
}

#[test]
fn waiting_tasks_come_before_own_running_ones() {
    let mut collection = Collection::default();
    collection.insert_running_task("mine", "worker-1", "earlier-token");
    collection.enqueue("fresh", Bson::Int32(1), false).unwrap();
    let task = claim_next(&mut collection, "worker-1", &[], ClaimMode::Ready).expect("task");
    assert_eq!(task.get_str("task_id").unwrap(), "fresh");
}

#[test]
fn task_goes_from_caller_to_worker_and_back() {
    let mut collection = Collection::default();
    let payload = Bson::Document(document(vec![("text", Bson::from("hello"))]));
    let task_id = collection.enqueue("my_key", payload.clone(), false).unwrap();
    assert_eq!(task_id, "my_key");
    let waiting = collection.find(&task_filter("my_key")).unwrap();
    assert!(matches!(evaluate_document(waiting), Ok(None)));

    let claimed = claim_next(&mut collection, "worker-1", &[], ClaimMode::Ready).expect("claim");
    assert_eq!(claimed.get("task_input"), Some(&payload));
    assert_eq!(claimed.get_str("status").unwrap(), "running");
    let token = lookup(&claimed, "worker_state.claim_token").unwrap();
    let token = token.as_str().unwrap();
    assert!(claim_next(&mut collection, "worker-2", &[], ClaimMode::Ready).is_none());

    let output = Bson::Document(document(vec![("length", Bson::Int64(5))]));
    let fence = ownership_filter("my_key", "worker-1", token);
    assert_eq!(collection.update_one(&fence, &success_update(output.clone())), 1);
    let done = collection.find(&task_filter("my_key")).unwrap();
    match evaluate_document(done) {
        Ok(Some(TaskOutcome::Succeeded(value))) => assert_eq!(value, output),
        other => panic!("unexpected {other:?}"),
    }
    assert_eq!(collection.update_one(&fence, &failure_update("too late")), 0);
    assert_eq!(collection.status("my_key"), "succeeded");
}

#[test]
fn failed_task_tells_the_caller_why() {
    let mut collection = Collection::default();
    collection.enqueue("my_key", Bson::from("oops"), false).unwrap();
    let claimed = claim_next(&mut collection, "worker-1", &[], ClaimMode::Ready).expect("claim");
    let token = lookup(&claimed, "worker_state.claim_token").unwrap();
    let fence = ownership_filter("my_key", "worker-1", token.as_str().unwrap());
    assert_eq!(
        collection.update_one(&fence, &failure_update("handler error: task failed: oops")),
        1
    );
    let failed = collection.find(&task_filter("my_key")).unwrap();
    match evaluate_document(failed) {
        Ok(Some(TaskOutcome::Failed(RequestError::TaskFailed { reason }))) => {
            assert_eq!(reason, "handler error: task failed: oops")
        }
        other => panic!("unexpected {other:?}"),
    }
}

#[test]
fn taken_key_is_refused_and_its_task_untouched() {
    let mut collection = Collection::default();
    collection.enqueue("my_key", Bson::from("idempotent"), false).unwrap();
    let before = collection.documents.clone();
    for allow_reset in [false, true] {
        match collection.enqueue("my_key", Bson::from("other"), allow_reset) {
            Err(RequestError::Duplicate { task_id }) => assert_eq!(task_id, "my_key"),
            other => panic!("Expected Duplicate error, got {other:?}"),
        }
        assert_eq!(collection.documents, before);
    }
    claim_next(&mut collection, "worker-1", &[], ClaimMode::Ready).expect("claim");
    let before = collection.documents.clone();
    assert!(collection.enqueue("my_key", Bson::from("other"), true).is_err());
    assert_eq!(collection.documents, before);
}

#[test]
fn finished_task_can_be_replayed_where_that_is_allowed() {
    let mut collection = Collection::default();
    collection.enqueue("replay_task", Bson::from("replay"), true).unwrap();
    let claimed = claim_next(&mut collection, "worker-1", &[], ClaimMode::Ready).expect("claim");
    let token = lookup(&claimed, "worker_state.claim_token").unwrap();
    let fence = ownership_filter("replay_task", "worker-1", token.as_str().unwrap());
    collection.update_one(&fence, &success_update(Bson::from("done")));
    let ended = collection.find(&task_filter("replay_task")).unwrap();
    for path in [
        "_id",
        "task_id",
        "task_input",
        "trace_context",
        "worker_state.worker_id",
        "worker_state.claim_token",
    ] {
        assert_eq!(lookup(ended, path), lookup(&claimed, path), "{path}");
    }
    let created_at = lookup(ended, "created_at");
    let object_id = lookup(ended, "_id");

    assert!(collection.enqueue("replay_task", Bson::from("again"), false).is_err());
    assert_eq!(collection.status("replay_task"), "succeeded");

    collection.enqueue("replay_task", Bson::from("again"), true).unwrap();
    let task = collection.find(&task_filter("replay_task")).unwrap();
    assert_eq!(task.get_str("status").unwrap(), "pending");
    assert_eq!(task.get("task_input"), Some(&Bson::from("again")));
    assert!(task.get("task_output").is_none());
    assert!(task.get("worker_state").is_none());
    assert_eq!(lookup(task, "created_at"), created_at);
    assert_eq!(lookup(task, "_id"), object_id);
    assert_eq!(collection.documents.len(), 1);
}

#[test]
fn new_claim_ends_the_old_one() {
    let mut collection = Collection::default();
    collection.insert_stale_running_task("task", "worker-1");
    let first = claim_next(&mut collection, "worker-1", &[], ClaimMode::StaleRecovery).expect("claim");
    let old_token = lookup(&first, "worker_state.claim_token").unwrap();
    let old_fence = ownership_filter("task", "worker-1", old_token.as_str().unwrap());
    assert_eq!(collection.update_one(&old_fence, &heartbeat_update_at(now() - 60_000)), 1);

    let second = claim_next(&mut collection, "worker-1", &[], ClaimMode::StaleRecovery).expect("claim");
    let new_token = lookup(&second, "worker_state.claim_token").unwrap();
    assert_ne!(old_token, new_token);
    assert_eq!(collection.update_one(&old_fence, &heartbeat_update_at(now())), 0);
    assert_eq!(collection.update_one(&old_fence, &success_update(Bson::Null)), 0);
    let new_fence = ownership_filter("task", "worker-1", new_token.as_str().unwrap());
    assert_eq!(collection.update_one(&new_fence, &heartbeat_update_at(now())), 1);
}

#[test]
fn stale_filter_and_deadlines_agree() {
    let timeout = Duration::from_millis(40);
    for (own, recorded, expected) in [
        (Some(100i64), Some(7i64), 100i64),
        (None, Some(7), 7),
        (None, None, 40),
    ] {
        let mut collection = Collection::default();
        let id = ObjectId::new();
        let mut state = document(vec![("heartbeat_at", date(10_000))]);
        if let Some(recorded) = recorded {
            state.insert("switch_timeout_ms", recorded);
        }
        let mut task = document(vec![
            ("_id", Bson::ObjectId(id)),
            ("task_id", Bson::from("task")),
            ("status", Bson::from("running")),
            ("worker_state", Bson::Document(state)),
        ]);
        if let Some(own) = own {
            task.insert("worker_switch_timeout", own);
        }
        let mut tracker = ExpiryTracker::new();
        schedule_expiration_from_task(&task, timeout, &mut tracker);
        let key = ObjectKey::from_bytes(id.bytes());
        let deadline = tracker.get(&key).unwrap().expires_at_ms().unwrap();
        assert_eq!(deadline, 10_000 + expected);
        collection.documents.push(task);
        for (at, claimable) in [(deadline - 1, false), (deadline, true)] {
            let claim = prepare_claim_at(
                "worker-1",
                timeout,
                &Vec::new(),
                ClaimMode::StaleRecovery,
                at,
                "token",
                at,
            );
            assert_eq!(selects(&claim.filters[0], &collection.documents[0]), claimable);
            let claim = prepare_expired_claim_at(
                key,
                "worker-1",
                timeout,
                Some("task"),
                &Vec::new(),
                at,
                "token",
                at,
            );
            assert_eq!(selects(&claim.filters[0], &collection.documents[0]), claimable);
        }
    }
}

#[test]
fn expired_claim_goes_for_one_document() {
    let mut collection = Collection::default();
    let id = collection.insert_stale_running_task("task", "worker-1");
    let other = ObjectKey::from_bytes(ObjectId::new().bytes());
    let key = ObjectKey::from_bytes(id.bytes());
    let timeout = Duration::from_millis(50);
    let none: Vec<String> = Vec::new();
    let in_flight = vec!["task".to_string()];
    assert!(collection
        .claim(prepare_expired_claim(other, "worker-2", timeout, Some("task"), &none))
        .is_none());
    assert!(collection
        .claim(prepare_expired_claim(key, "worker-2", timeout, Some("other"), &none))
        .is_none());
    assert!(collection
        .claim(prepare_expired_claim(key, "worker-2", timeout, None, &in_flight))
        .is_none());
    assert!(collection
        .claim(prepare_expired_claim(key, "worker-2", timeout, Some("task"), &in_flight))
        .is_none());
    let task = collection
        .claim(prepare_expired_claim(key, "worker-2", timeout, Some("task"), &none))
        .expect("claim");
    assert_eq!(lookup(&task, "worker_state.worker_id"), Some(Bson::from("worker-2")));
    assert!(collection
        .claim(prepare_expired_claim(key, "worker-3", timeout, None, &none))
        .is_none());
}

#[test]
fn shutdown_fails_what_still_runs_under_the_worker() {
    let mut collection = Collection::default();
    collection.insert_running_task("mine", "worker-1", "token-1");
    collection.insert_running_task("theirs", "worker-2", "token-2");
    collection.enqueue("waiting", Bson::Null, false).unwrap();
    let failed = collection.update_many(&shutdown_filter("worker-1"), &shutdown_update());
    assert_eq!(failed, 1);
    assert_eq!(collection.status("mine"), "failed");
    assert_eq!(collection.status("theirs"), "running");
    assert_eq!(collection.status("waiting"), "pending");
    let task = collection.find(&task_filter("mine")).unwrap();
    assert_eq!(
        lookup(task, "worker_state.shutdown_reason"),
        Some(Bson::from("worker shut down"))
    );
    assert!(lookup(task, "worker_state.finished_at").is_some());
    match evaluate_document(task) {
        Ok(Some(TaskOutcome::Failed(RequestError::TaskFailed { reason }))) => {
            assert_eq!(reason, "worker shut down")
        }
        other => panic!("unexpected {other:?}"),
    }
}

#[test]
fn enqueued_document_has_the_fields_of_the_request() {
    let mut collection = Collection::default();
    let trace = TraceContext::from_parts("00112233445566778899aabbccddeeff", "0011223344556677");
    let task = prepare_task_at(
        Request {
            payload: Bson::from("trace"),
            timeout: Some(Duration::from_secs(1)),
            worker_switch_timeout: Duration::from_millis(321),
            idempotency_key: None,
            trace_context: Some(trace.clone()),
            allow_reset: false,
        },
        "task-1".into(),
        5_000,
    );
    collection.upsert(&task.filter, &task.update).unwrap();
    let stored = &collection.documents[0];
    assert_eq!(stored.get_i64("worker_switch_timeout").unwrap(), 321);
    let stored_trace = stored.get_document("trace_context").unwrap();
    assert_eq!(stored_trace.get_str("trace_id").unwrap(), trace.trace_id);
    assert_eq!(stored.get("created_at"), Some(&date(5_000)));
    assert_eq!(stored.get("updated_at"), Some(&date(5_000)));
    assert_eq!(stored.get("task_input"), Some(&Bson::from("trace")));
    assert_eq!(stored.get_str("task_id").unwrap(), "task-1");
    assert_eq!(stored.get_str("idempotency_key").unwrap(), "task-1");
    assert_eq!(stored.get("request_timeout"), Some(&Bson::Int64(1_000)));
    assert_eq!(stored.len(), 10);
}
