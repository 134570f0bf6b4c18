use std::sync::Arc;
use std::time::Duration;

use bson::oid::ObjectId;
use bson::{Bson, DateTime, Document};
use getitdone::claim::{
    claim_update, ownership_filter, prepare_claim, stale_claim_filter, ClaimMode,
};
use getitdone::database::{DatabaseError, StreamOpening};
use getitdone::expiry::ExpiryTracker;
use getitdone::indexes::{
    index_kind, warn_if_missing_indexes, IndexInfo, IndexKind, IndexListing, IndexWarning,
};
use getitdone::object_key::ObjectKey;
use getitdone::pump::{
    AvailablePump, ClaimRun, ClaimStep, ExpiredAction, ExpiredOutcome, ExpiredPump, InFlight,
    PumpAction,
};
use getitdone::schedule::{
    apply_change_event_to_expirations, refresh_running_expirations, ChangeEvent, ChangeKind,
};
use getitdone::worker::{
    expiry_change_stream_pipeline, LoopAction, LoopEvent, Trigger, WorkerLoop,
};
use getitdone::{Config, RequestError, Worker, WorkerStats};
use tokio::sync::{OwnedSemaphorePermit, Semaphore};

fn document(fields: Vec<(&str, Bson)>) -> Document {
    let mut document = Document::new();
    for (name, value) in fields {
        document.insert(name, value);
    }
    document
}

fn date(millis: i64) -> Bson {
    Bson::DateTime(DateTime::from_millis(millis))
}

#[test]
fn expiry_change_stream_includes_deletes_for_tracker_cleanup() {
    let pipeline = expiry_change_stream_pipeline();
    let alternatives = pipeline[0]
        .get_document("$match")
        .expect("match stage")
        .get_array("$or")
        .expect("operation alternatives");
    assert!(alternatives.iter().any(|condition| {
        condition
            .as_document()
            .and_then(|condition| condition.get_document("operationType").ok())
            .and_then(|operation| operation.get_array("$in").ok())
            .is_some_and(|operations| {
                operations
                    .iter()
                    .any(|operation| operation.as_str() == Some("delete"))
            })
    }));
}

#[test]
fn expiry_change_stream_pipeline_reads_dotted_heartbeat_update_key_literally() {
    let rendered = format!("{:?}", expiry_change_stream_pipeline());

    assert!(rendered.contains("$getField"));
    assert!(rendered.contains("worker_state.heartbeat_at"));
    assert!(rendered.contains("worker_state.switch_timeout_ms"));
    assert!(!rendered.contains("updateDescription.updatedFields.worker_state.heartbeat_at"));
    assert!(!rendered.contains("updateDescription.updatedFields.worker_state.switch_timeout_ms"));
}

#[test]
fn change_stream_pipeline_listens_to_relevant_updates() {
    let pipeline = expiry_change_stream_pipeline();
    assert_eq!(pipeline.len(), 1);
    let alternatives = pipeline[0].get_document("$match").unwrap().get_array("$or").unwrap();
    assert_eq!(alternatives.len(), 2);
    let update = alternatives[1].as_document().unwrap();
    assert_eq!(update.get_str("operationType").unwrap(), "update");
    let conditions = update.get_array("$or").unwrap();
    assert_eq!(conditions.len(), 4);
    let exists = |i: usize, path: &str| {
        let condition = conditions[i].as_document().unwrap().get_document(path).unwrap();
        assert!(condition.get_bool("$exists").unwrap());
    };
    exists(0, "updateDescription.updatedFields.status");
    exists(1, "updateDescription.updatedFields.worker_state");
    let compared = conditions[2]
        .as_document()
        .unwrap()
        .get_document("$expr")
        .unwrap()
        .get_array("$ne")
        .unwrap();
    assert_eq!(compared[1], Bson::from("missing"));
    let get_field = compared[0]
        .as_document()
        .unwrap()
        .get_document("$type")
        .unwrap()
        .get_document("$getField")
        .unwrap();
    assert_eq!(get_field.get_str("input").unwrap(), "$updateDescription.updatedFields");
    assert_eq!(get_field.get_str("field").unwrap(), "worker_state.heartbeat_at");
}

#[test]
fn loop_starts_looks_claims_and_waits() {
    let (mut worker, action) = WorkerLoop::start();
    assert!(matches!(action, LoopAction::OpenStream(Trigger::Startup)));
    assert!(matches!(
        worker.step(LoopEvent::Opening(StreamOpening::Open)),
        LoopAction::ScanRunning(Trigger::Startup)
    ));
    assert!(matches!(worker.step(LoopEvent::Ticked), LoopAction::Nothing));
    assert!(matches!(
        worker.step(LoopEvent::Scanned),
        LoopAction::ProbePending(Trigger::Startup)
    ));
    assert!(matches!(
        worker.step(LoopEvent::Probed),
        LoopAction::PumpAvailable(ClaimMode::Ready)
    ));
    assert!(matches!(worker.step(LoopEvent::Pumped), LoopAction::Wait));
    assert!(matches!(
        worker.step(LoopEvent::DeadlineReached),
        LoopAction::PumpExpired
    ));
    assert!(matches!(worker.step(LoopEvent::Pumped), LoopAction::Wait));
    assert!(matches!(
        worker.step(LoopEvent::Changed { ready: false }),
        LoopAction::Wait
    ));
    assert!(matches!(
        worker.step(LoopEvent::Changed { ready: true }),
        LoopAction::PumpAvailable(ClaimMode::Ready)
    ));
}

fn waiting() -> WorkerLoop {
    let (mut worker, _) = WorkerLoop::start();
    worker.step(LoopEvent::Opening(StreamOpening::Open));
    worker.step(LoopEvent::Scanned);
    worker.step(LoopEvent::Probed);
    assert!(matches!(worker.step(LoopEvent::Pumped), LoopAction::Wait));
    worker
}

#[test]
fn end_of_a_task_always_claims_ready_ones() {
    let mut worker = waiting();
    for _ in 0..3 {
        assert!(matches!(
            worker.step(LoopEvent::TaskEnded),
            LoopAction::PumpAvailable(ClaimMode::Ready)
        ));
        assert!(matches!(worker.step(LoopEvent::Pumped), LoopAction::Wait));
    }
}

#[test]
fn periodic_tick_recovers_stale_tasks() {
    let mut worker = waiting();
    assert!(matches!(
        worker.step(LoopEvent::Ticked),
        LoopAction::ScanRunning(Trigger::Periodic)
    ));
    assert!(matches!(
        worker.step(LoopEvent::Scanned),
        LoopAction::ProbePending(Trigger::Periodic)
    ));
    assert!(matches!(
        worker.step(LoopEvent::Probed),
        LoopAction::PumpAvailable(ClaimMode::StaleRecovery)
    ));
}

#[test]
fn lost_stream_is_opened_again_before_the_loop_waits() {
    let mut worker = waiting();
    assert!(matches!(
        worker.step(LoopEvent::StreamLost),
        LoopAction::OpenStream(Trigger::Reconnect)
    ));
    assert!(matches!(
        worker.step(LoopEvent::Opening(StreamOpening::Retry)),
        LoopAction::ScanRunning(Trigger::Reconnect)
    ));
    worker.step(LoopEvent::Scanned);
    assert!(matches!(
        worker.step(LoopEvent::Probed),
        LoopAction::PumpAvailable(ClaimMode::Ready)
    ));
    assert!(matches!(
        worker.step(LoopEvent::Pumped),
        LoopAction::OpenStream(Trigger::Reconnect)
    ));
    worker.step(LoopEvent::Opening(StreamOpening::Open));
    worker.step(LoopEvent::Scanned);
    worker.step(LoopEvent::Probed);
    assert!(matches!(worker.step(LoopEvent::Pumped), LoopAction::Wait));
}

#[test]
fn loop_ends_where_change_streams_are_unsupported() {
    let (mut worker, _) = WorkerLoop::start();
    let error = RequestError::Database("unsupported".into());
    assert!(matches!(
        worker.step(LoopEvent::Opening(StreamOpening::Unsupported(error))),
        LoopAction::Exit(Err(RequestError::Database(text))) if text == "unsupported"
    ));
    assert!(matches!(worker.step(LoopEvent::Scanned), LoopAction::Nothing));
}

#[test]
fn stopped_loop_sweeps_drains_and_ends() {
    let mut worker = waiting();
    assert!(matches!(worker.step(LoopEvent::Stopped), LoopAction::FailRunning));
    assert!(matches!(worker.step(LoopEvent::Drained), LoopAction::Nothing));
    assert!(matches!(
        worker.step(LoopEvent::RunningFailed),
        LoopAction::JoinNext
    ));
    assert!(matches!(worker.step(LoopEvent::Ticked), LoopAction::Nothing));
    assert!(matches!(worker.step(LoopEvent::TaskEnded), LoopAction::JoinNext));
    assert!(matches!(
        worker.step(LoopEvent::Drained),
        LoopAction::Exit(Ok(()))
    ));
    assert!(matches!(
        worker.step(LoopEvent::Changed { ready: true }),
        LoopAction::Nothing
    ));
}

#[test]
fn triggers_and_claims_have_names() {
    assert_eq!(Trigger::Startup.label(), "startup");
    assert_eq!(Trigger::Reconnect.label(), "reconnect");
    assert_eq!(Trigger::Periodic.label(), "periodic");
    assert_eq!(ClaimMode::Ready.metric_source(), "ready");
    assert_eq!(ClaimMode::StaleRecovery.metric_source(), "stale_recovery");
}

#[test]
fn claim_update_records_the_claim() {
    let update = claim_update("worker-1", "token", 1_000, Duration::from_millis(50));
    let expected = document(vec![(
        "$set",
        Bson::Document(document(vec![
            ("status", Bson::from("running")),
            ("updated_at", date(1_000)),
            (
                "worker_state",
                Bson::Document(document(vec![
                    ("worker_id", Bson::from("worker-1")),
                    ("claim_token", Bson::from("token")),
                    ("started_at", date(1_000)),
                    ("heartbeat_at", date(1_000)),
                    ("switch_timeout_ms", Bson::Int64(50)),
                ])),
            ),
        ])),
    )]);
    assert_eq!(update, expected);
    let endless = claim_update("worker-1", "token", 1_000, Duration::MAX);
    let millis = Duration::MAX.as_millis() as i64;
    let state = endless.get_document("$set").unwrap().get_document("worker_state").unwrap();
    assert_eq!(state.get_i64("switch_timeout_ms").unwrap(), millis);
}

#[test]
fn stale_filter_is_spelled_out() {
    let excluded = vec!["a".to_string(), "b".to_string()];
    let filter = stale_claim_filter(5_000, Duration::from_millis(50), &excluded);
    assert_eq!(filter.get_str("status").unwrap(), "running");
    assert_eq!(
        filter.get_document("worker_state.heartbeat_at").unwrap().get_str("$type").unwrap(),
        "date"
    );
    assert_eq!(
        filter.get_document("task_id").unwrap().get_array("$nin").unwrap(),
        &vec![Bson::from("a"), Bson::from("b")]
    );
    let lte = filter.get_document("$expr").unwrap().get_array("$lte").unwrap();
    assert_eq!(lte[1], date(5_000));
    let add = lte[0].as_document().unwrap().get_array("$add").unwrap();
    assert_eq!(add[0], Bson::from("$worker_state.heartbeat_at"));
    let own = add[1].as_document().unwrap().get_array("$ifNull").unwrap();
    assert_eq!(own[0], Bson::from("$worker_switch_timeout"));
    let recorded = own[1].as_document().unwrap().get_array("$ifNull").unwrap();
    assert_eq!(recorded[0], Bson::from("$worker_state.switch_timeout_ms"));
    assert_eq!(recorded[1], Bson::Int64(50));
    assert_eq!(filter.len(), 4);
    assert_eq!(ownership_filter("t", "w", "c").len(), 4);
}

#[test]
fn claims_carry_fresh_tokens() {
    let token = |claim: &getitdone::claim::PreparedClaim| {
        let changes = claim.update.get_document("$set").unwrap();
        let state = changes.get_document("worker_state").unwrap();
        state.get_str("claim_token").unwrap().to_string()
    };
    let timeout = Duration::from_secs(1);
    let first = prepare_claim("worker-1", timeout, &Vec::new(), ClaimMode::Ready);
    let second = prepare_claim("worker-1", timeout, &Vec::new(), ClaimMode::Ready);
    assert_ne!(token(&first), token(&second));
    assert!(uuid::Uuid::parse_str(&token(&first)).is_ok());
    assert_eq!(first.filters.len(), 2);
    let stale = prepare_claim("worker-1", timeout, &Vec::new(), ClaimMode::StaleRecovery);
    assert_eq!(stale.filters.len(), 1);
}

#[test]
fn claim_tries_its_filters_in_order() {
    let claim = prepare_claim("worker-1", Duration::from_secs(1), &Vec::new(), ClaimMode::Ready);
    let mut run = ClaimRun::new(claim);
    assert_eq!(run.attempt().unwrap().0.get_str("status").unwrap(), "pending");
    assert!(matches!(run.step(Ok(None)), ClaimStep::TryNext));
    assert_eq!(run.attempt().unwrap().0.get_str("status").unwrap(), "running");
    assert!(matches!(run.step(Ok(None)), ClaimStep::Done(Ok(None))));
    assert!(run.attempt().is_none());

    let claim = prepare_claim("worker-1", Duration::from_secs(1), &Vec::new(), ClaimMode::Ready);
    let mut run = ClaimRun::new(claim);
    let error = DatabaseError::Other {
        message: "gone".into(),
    };
    assert!(matches!(
        run.step(Err(error)),
        ClaimStep::Done(Err(RequestError::Database(text))) if text == "gone"
    ));
    assert!(matches!(
        run.step(Ok(Some(Document::new()))),
        ClaimStep::Done(Ok(Some(_)))
    ));
}

#[test]
fn ids_in_flight_form_a_set() {
    let mut in_flight = InFlight::new();
    in_flight.insert("a");
    in_flight.insert("b");
    in_flight.insert("a");
    let mut ids = in_flight.ids();
    ids.sort();
    assert_eq!(ids, vec!["a", "b"]);
    in_flight.remove("a");
    in_flight.remove("c");
    assert_eq!(in_flight.ids(), vec!["b"]);
}

fn claimed(id: ObjectId, task_id: &str) -> Document {
    document(vec![
        ("_id", Bson::ObjectId(id)),
        ("task_id", Bson::from(task_id)),
        ("status", Bson::from("running")),
        (
            "worker_state",
            Bson::Document(document(vec![("heartbeat_at", date(1_000))])),
        ),
    ])
}

#[test]
fn pump_takes_in_tasks_until_none_is_left() {
    let timeout = Duration::from_millis(100);
    let mut tracker = ExpiryTracker::new();
    tracker.set_pending_may_exist(true);
    let mut in_flight = InFlight::new();
    let mut pump = AvailablePump::<()>::new(ClaimMode::Ready);
    assert_eq!(pump.batch_size(), None);
    assert!(matches!(pump.on_permit(Some(())), PumpAction::Claim));
    let id = ObjectId::new();
    let found = Ok(Some(claimed(id, "task-a")));
    match pump.on_claim(&found, timeout, &mut tracker, &mut in_flight) {
        PumpAction::Spawn { task_id, .. } => assert_eq!(task_id, "task-a"),
        other => panic!("unexpected {other:?}"),
    }
    assert_eq!(in_flight.ids(), vec!["task-a"]);
    let key = ObjectKey::from_bytes(id.bytes());
    assert_eq!(tracker.get(&key).unwrap().expires_at_ms(), Some(1_100));
    assert!(tracker.has_pending());

    assert!(matches!(pump.on_permit(Some(())), PumpAction::Claim));
    assert!(matches!(
        pump.on_claim(&Ok(None), timeout, &mut tracker, &mut in_flight),
        PumpAction::Finish
    ));
    assert!(!tracker.has_pending());
    assert_eq!(pump.batch_size(), Some(1));
}

#[test]
fn pump_stops_without_room_or_on_errors() {
    let timeout = Duration::from_millis(100);
    let mut tracker = ExpiryTracker::new();
    tracker.set_pending_may_exist(true);
    let mut in_flight = InFlight::new();
    let mut pump = AvailablePump::<()>::new(ClaimMode::StaleRecovery);
    assert!(matches!(pump.on_permit(None), PumpAction::Finish));
    assert_eq!(pump.batch_size(), None);
    assert!(matches!(pump.on_permit(Some(())), PumpAction::Claim));
    assert!(matches!(
        pump.on_claim(&Err(RequestError::Timeout), timeout, &mut tracker, &mut in_flight),
        PumpAction::Finish
    ));
    assert!(matches!(pump.on_permit(Some(())), PumpAction::Claim));
    assert!(matches!(
        pump.on_claim(&Ok(None), timeout, &mut tracker, &mut in_flight),
        PumpAction::Finish
    ));
    assert!(tracker.has_pending());
    assert_eq!(pump.batch_size(), Some(0));
    assert!(matches!(pump.on_permit(Some(())), PumpAction::Claim));
    let nameless = Ok(Some(Document::new()));
    match pump.on_claim(&nameless, timeout, &mut tracker, &mut in_flight) {
        PumpAction::Spawn { task_id, .. } => assert_eq!(task_id, ""),
        other => panic!("unexpected {other:?}"),
    }
    assert_eq!(in_flight.ids(), vec![""]);
}

fn expired_claim(action: ExpiredAction) -> (ObjectKey, Option<String>) {
    match action {
        ExpiredAction::Claim { id, task_id } => (id, task_id),
        other => panic!("unexpected {other:?}"),
    }
}

fn keys(count: usize) -> Vec<ObjectKey> {
    (0..count)
        .map(|_| ObjectKey::from_bytes(ObjectId::new().bytes()))
        .collect()
}

#[test]
fn expired_tasks_are_claimed_one_by_one() {
    let timeout = Duration::from_millis(100);
    let mut tracker = ExpiryTracker::new();
    let mut in_flight = InFlight::new();
    let ids = keys(2);
    tracker.upsert(ids[0], Some("a".into()), 2_000, Duration::ZERO);
    tracker.upsert(ids[1], None, 1_000, Duration::ZERO);
    let mut pump = ExpiredPump::<()>::new_at(&mut tracker, 5_000);
    assert!(pump.has_next());
    let (id, task_id) = expired_claim(pump.next_at(Some(()), &mut tracker, 5_000));
    assert_eq!(id, ids[1]);
    assert_eq!(task_id, None);
    let outcome = pump.on_claim(&Ok(None), timeout, &mut tracker, &mut in_flight);
    assert!(matches!(outcome, ExpiredOutcome::Nothing));
    assert!(tracker.get(&ids[1]).is_none());

    let (id, task_id) = expired_claim(pump.next_at(Some(()), &mut tracker, 5_000));
    assert_eq!(id, ids[0]);
    assert_eq!(task_id.as_deref(), Some("a"));
    let found = Ok(Some(claimed(ObjectId::new(), "a")));
    let outcome = pump.on_claim(&found, timeout, &mut tracker, &mut in_flight);
    assert!(matches!(outcome, ExpiredOutcome::Spawn { task_id, .. } if task_id == "a"));
    assert!(!pump.has_next());
    assert!(matches!(
        pump.next(Some(()), &mut tracker),
        ExpiredAction::Finish
    ));
    assert_eq!(pump.batch_size(), Some(1));
    assert_eq!(in_flight.ids(), vec!["a"]);
}

#[test]
fn visit_without_room_forgets_no_task() {
    let mut tracker = ExpiryTracker::new();
    let mut in_flight = InFlight::new();
    let ids = keys(4);
    tracker.upsert(ids[0], Some("a".into()), 1_000, Duration::ZERO);
    tracker.upsert(ids[1], Some("b".into()), 2_000, Duration::ZERO);
    tracker.upsert(ids[2], None, 2_000, Duration::ZERO);
    tracker.upsert(ids[3], Some("later".into()), 9_000, Duration::ZERO);
    let mut pump = ExpiredPump::<()>::new_at(&mut tracker, 5_000);
    assert!(matches!(
        pump.next_at(None, &mut tracker, 5_000),
        ExpiredAction::Finish
    ));
    for (id, task_id, deadline) in [
        (ids[0], Some("a"), 6_000),
        (ids[1], Some("b"), 6_000),
        (ids[2], None, 6_000),
        (ids[3], Some("later"), 9_000),
    ] {
        let task = tracker.get(&id).expect("tracked");
        assert_eq!(task.task_id.as_deref(), task_id);
        assert_eq!(task.expires_at_ms(), Some(deadline));
    }
    assert!(!pump.has_next());
    assert_eq!(pump.batch_size(), None);

    let mut pump = ExpiredPump::<()>::new_at(&mut tracker, 6_000);
    expired_claim(pump.next_at(Some(()), &mut tracker, 6_000));
    let found = Ok(Some(claimed(ObjectId::new(), "a")));
    pump.on_claim(&found, Duration::ZERO, &mut tracker, &mut in_flight);
    assert!(matches!(
        pump.next_at(None, &mut tracker, 7_000),
        ExpiredAction::Finish
    ));
    let back = ids[..3].iter().filter(|id| tracker.get(id).is_some()).count();
    assert_eq!(back, 2);
    assert_eq!(pump.batch_size(), Some(1));
}

#[test]
fn failed_claim_leaves_the_task_to_the_rare_look() {
    let mut tracker = ExpiryTracker::new();
    let mut in_flight = InFlight::new();
    let ids = keys(2);
    tracker.upsert(ids[0], Some("a".into()), 1_000, Duration::ZERO);
    tracker.upsert(ids[1], Some("b".into()), 2_000, Duration::ZERO);
    let mut pump = ExpiredPump::<()>::new_at(&mut tracker, 5_000);
    let (id, _) = expired_claim(pump.next_at(Some(()), &mut tracker, 5_000));
    assert_eq!(id, ids[0]);
    let outcome = pump.on_claim(
        &Err(RequestError::Database("gone".into())),
        Duration::ZERO,
        &mut tracker,
        &mut in_flight,
    );
    assert!(matches!(outcome, ExpiredOutcome::Nothing));
    assert!(tracker.get(&ids[0]).is_none());
    assert_eq!(pump.batch_size(), Some(0));
    assert!(in_flight.ids().is_empty());
    let (id, _) = expired_claim(pump.next_at(Some(()), &mut tracker, 5_000));
    assert_eq!(id, ids[1]);
}

#[test]
fn obsolete_deadline_is_not_looked_into() {
    let timeout = Duration::from_millis(100);
    let key = keys(1)[0];
    let mut tracker = ExpiryTracker::new();
    let mut in_flight = InFlight::new();
    tracker.upsert(key, None, 1_000, timeout);
    let mut pump = ExpiredPump::<()>::new_at(&mut tracker, 1_100);
    expired_claim(pump.next_at(Some(()), &mut tracker, 1_100));
    let outcome = pump.on_claim(&Ok(None), timeout, &mut tracker, &mut in_flight);
    assert!(matches!(outcome, ExpiredOutcome::Nothing));
    assert!(tracker.get(&key).is_none());
    assert_eq!(tracker.own_timeout(&key), None);
}

#[test]
fn tasks_run_only_under_permits() {
    let timeout = Duration::from_millis(100);
    let worker = Worker::new(Config::builder().mongo_uri("mongodb://localhost:27017").build())
        .with_max_inflight(2);
    let semaphore = Arc::new(Semaphore::new(worker.max_inflight));
    let figures = || WorkerStats::new(worker.max_inflight, semaphore.available_permits());
    let mut tracker = ExpiryTracker::new();
    let mut in_flight = InFlight::new();
    let mut running = Vec::new();
    let mut pump = AvailablePump::<OwnedSemaphorePermit>::new(ClaimMode::Ready);
    for (name, count) in [("a", 1), ("b", 2)] {
        let permit = semaphore.clone().try_acquire_owned().ok();
        assert!(matches!(pump.on_permit(permit), PumpAction::Claim));
        let found = Ok(Some(claimed(ObjectId::new(), name)));
        match pump.on_claim(&found, timeout, &mut tracker, &mut in_flight) {
            PumpAction::Spawn { task_id, permit } => running.push((task_id, permit)),
            other => panic!("unexpected {other:?}"),
        }
        assert_eq!(figures().get_running_task_cnt(), count);
        assert_eq!(figures().get_max_inflight(), 2);
    }
    let permit = semaphore.clone().try_acquire_owned().ok();
    assert!(matches!(pump.on_permit(permit), PumpAction::Finish));

    // A task that ends makes room, for an expired task just as well.
    running.pop();
    assert_eq!(figures().get_running_task_cnt(), 1);
    let late = keys(2);
    tracker.upsert(late[0], None, -2_000, Duration::ZERO);
    tracker.upsert(late[1], None, -1_000, Duration::ZERO);
    let mut pump = ExpiredPump::<OwnedSemaphorePermit>::new_at(&mut tracker, 0);
    let permit = semaphore.clone().try_acquire_owned().ok();
    expired_claim(pump.next_at(permit, &mut tracker, 0));
    assert_eq!(figures().get_running_task_cnt(), 2);
    let outcome = pump.on_claim(&Ok(None), timeout, &mut tracker, &mut in_flight);
    assert!(matches!(outcome, ExpiredOutcome::Nothing));
    assert_eq!(figures().get_running_task_cnt(), 1);
    let permit = semaphore.clone().try_acquire_owned().ok();
    expired_claim(pump.next_at(permit, &mut tracker, 0));
    let found = Ok(Some(claimed(ObjectId::new(), "c")));
    match pump.on_claim(&found, timeout, &mut tracker, &mut in_flight) {
        ExpiredOutcome::Spawn { task_id, permit } => running.push((task_id, permit)),
        other => panic!("unexpected {other:?}"),
    }
    assert_eq!(running.len(), 2);
    assert_eq!(figures().get_running_task_cnt(), 2);
    assert!(semaphore.clone().try_acquire_owned().is_err());
}

fn update(key: ObjectId, fields: Vec<(&str, Bson)>) -> ChangeEvent {
    ChangeEvent {
        kind: ChangeKind::Update,
        full_document: None,
        document_key: Some(document(vec![("_id", Bson::ObjectId(key))])),
        updated_fields: Some(document(fields)),
    }
}

#[test]
fn own_timeout_survives_change_events() {
    let default = Duration::from_secs(10);
    let object_id = ObjectId::new();
    let key = ObjectKey::from_bytes(object_id.bytes());
    let deadline = |tracker: &ExpiryTracker| tracker.get(&key).unwrap().expires_at_ms().unwrap();
    let mut tracker = ExpiryTracker::new();
    let inserted = ChangeEvent {
        kind: ChangeKind::Insert,
        full_document: Some(document(vec![
            ("_id", Bson::ObjectId(object_id)),
            ("task_id", Bson::from("a")),
            ("status", Bson::from("pending")),
            ("worker_switch_timeout", Bson::Int64(60_000)),
        ])),
        document_key: None,
        updated_fields: None,
    };
    assert!(apply_change_event_to_expirations(&inserted, default, &mut tracker));
    assert!(tracker.get(&key).is_none());

    let claim = update(
        object_id,
        vec![
            ("status", Bson::from("running")),
            ("updated_at", date(1_000)),
            (
                "worker_state",
                Bson::Document(document(vec![
                    ("worker_id", Bson::from("other")),
                    ("heartbeat_at", date(1_000)),
                    ("switch_timeout_ms", Bson::Int64(5_000)),
                ])),
            ),
        ],
    );
    assert!(!apply_change_event_to_expirations(&claim, default, &mut tracker));
    assert_eq!(deadline(&tracker), 61_000);

    let heartbeat = update(object_id, vec![("worker_state.heartbeat_at", date(2_000))]);
    apply_change_event_to_expirations(&heartbeat, default, &mut tracker);
    assert_eq!(deadline(&tracker), 62_000);

    assert_eq!(tracker.pop_due_at(70_000).len(), 1);
    let heartbeat = update(object_id, vec![("worker_state.heartbeat_at", date(3_000))]);
    apply_change_event_to_expirations(&heartbeat, default, &mut tracker);
    assert_eq!(deadline(&tracker), 63_000);

    let ended = update(object_id, vec![("status", Bson::from("succeeded"))]);
    apply_change_event_to_expirations(&ended, default, &mut tracker);
    assert!(tracker.get(&key).is_none());
    assert_eq!(tracker.own_timeout(&key), None);
}

#[test]
fn heartbeat_without_a_timeout_counts_by_the_default() {
    let default = Duration::from_secs(10);
    let object_id = ObjectId::new();
    let key = ObjectKey::from_bytes(object_id.bytes());
    let mut tracker = ExpiryTracker::new();
    let claim = update(
        object_id,
        vec![(
            "worker_state",
            Bson::Document(document(vec![
                ("heartbeat_at", date(1_000)),
                ("switch_timeout_ms", Bson::Int64(5_000)),
            ])),
        )],
    );
    apply_change_event_to_expirations(&claim, default, &mut tracker);
    assert_eq!(tracker.get(&key).unwrap().expires_at_ms(), Some(6_000));
    let heartbeat = update(object_id, vec![("worker_state.heartbeat_at", date(2_000))]);
    apply_change_event_to_expirations(&heartbeat, default, &mut tracker);
    assert_eq!(tracker.get(&key).unwrap().expires_at_ms(), Some(12_000));
    assert_eq!(tracker.own_timeout(&key), None);
}

#[test]
fn expired_pump_takes_what_is_due_now() {
    let mut tracker = ExpiryTracker::new();
    let past = ObjectKey::from_bytes(ObjectId::new().bytes());
    let future = ObjectKey::from_bytes(ObjectId::new().bytes());
    tracker.upsert(past, None, 0, Duration::ZERO);
    tracker.upsert(future, None, i64::MAX, Duration::ZERO);
    let mut pump = ExpiredPump::<()>::new(&mut tracker);
    assert!(tracker.get(&past).is_none());
    assert!(tracker.get(&future).is_some());
    let before = DateTime::now().timestamp_millis();
    assert!(matches!(pump.next(None, &mut tracker), ExpiredAction::Finish));
    let after = DateTime::now().timestamp_millis();
    let deadline = tracker.get(&past).unwrap().expires_at_ms().unwrap();
    assert!(before + 1_000 <= deadline && deadline <= after + 1_000);
    assert_eq!(pump.batch_size(), None);
}

fn index(keys: Vec<(&str, i32)>, unique: Option<bool>) -> IndexInfo {
    IndexInfo {
        keys: document(keys.into_iter().map(|(name, way)| (name, Bson::Int32(way))).collect()),
        unique,
    }
}

#[test]
fn bare_collection_lacks_every_index() {
    let listing = IndexListing::Complete(vec![index(vec![("_id", 1)], None)]);
    assert_eq!(
        warn_if_missing_indexes(&listing, false),
        vec![
            IndexWarning::MissingTaskId,
            IndexWarning::MissingStatusUpdated,
            IndexWarning::MissingWorkerState,
        ]
    );
    assert_eq!(
        warn_if_missing_indexes(&listing, true).last(),
        Some(&IndexWarning::MissingStatusCreated)
    );
}

#[test]
fn recommended_indexes_leave_nothing_to_say() {
    let indexes = || {
        vec![
            index(vec![("task_id", 1)], Some(true)),
            index(vec![("updated_at", 1), ("status", 1)], None),
            index(vec![("worker_state.worker_id", 1)], Some(false)),
        ]
    };
    let listing = IndexListing::Complete(indexes());
    assert!(warn_if_missing_indexes(&listing, false).is_empty());
    assert_eq!(
        warn_if_missing_indexes(&listing, true),
        vec![IndexWarning::MissingStatusCreated]
    );
    for way in [-1, 1] {
        let mut sorted = indexes();
        sorted.push(index(vec![("status", 1), ("created_at", way)], None));
        assert!(warn_if_missing_indexes(&IndexListing::Complete(sorted), true).is_empty());
    }
}

#[test]
fn task_id_index_must_be_unique() {
    let listing = IndexListing::Complete(vec![
        index(vec![("task_id", 1)], Some(false)),
        index(vec![("task_id", 1)], None),
        index(vec![("status", 1), ("updated_at", 1)], None),
        index(vec![("worker_state.worker_id", 1)], None),
    ]);
    assert_eq!(
        warn_if_missing_indexes(&listing, false),
        vec![
            IndexWarning::TaskIdNotUnique,
            IndexWarning::TaskIdNotUnique,
            IndexWarning::MissingTaskId,
        ]
    );
}

#[test]
fn broken_listings_are_reported_and_absent_collections_are_not() {
    let listing = IndexListing::Broken(vec![index(vec![("task_id", 1)], None)]);
    assert_eq!(
        warn_if_missing_indexes(&listing, true),
        vec![IndexWarning::TaskIdNotUnique, IndexWarning::ListingBroken]
    );
    let absent = IndexListing::Unavailable(DatabaseError::Command {
        code: 26,
        code_name: "NamespaceNotFound".into(),
        message: "ns does not exist".into(),
    });
    assert!(warn_if_missing_indexes(&absent, true).is_empty());
    let unreachable = IndexListing::Unavailable(DatabaseError::Other {
        message: "timed out".into(),
    });
    assert_eq!(
        warn_if_missing_indexes(&unreachable, true),
        vec![IndexWarning::CannotInspect]
    );
}

#[test]
fn index_kinds_are_told_by_their_keys() {
    assert_eq!(index_kind(&index(vec![("task_id", 1)], None).keys), IndexKind::TaskId);
    assert_eq!(index_kind(&index(vec![("task_id", -1)], None).keys), IndexKind::Other);
    assert_eq!(index_kind(&Document::new()), IndexKind::Other);
    let as_double = document(vec![("task_id", Bson::Double(1.0))]);
    assert_eq!(index_kind(&as_double), IndexKind::Other);
    assert!(IndexWarning::MissingTaskId
        .message()
        .contains("createIndex({ task_id: 1 }, { unique: true })"));
    assert!(IndexWarning::MissingStatusUpdated
        .message()
        .contains("{ status: 1, updated_at: 1 }"));
}

#[test]
fn switch_timeouts_stay_known_unless_changes_were_missed() {
    let key = keys(1)[0];
    let none = Vec::new();
    let mut tracker = ExpiryTracker::new();
    tracker.note_own_timeout(&key, Some(60_000));
    for (trigger, known) in [
        (Trigger::Periodic, true),
        (Trigger::Reconnect, false),
        (Trigger::Startup, false),
    ] {
        refresh_running_expirations(Some(&none), Duration::ZERO, &mut tracker, trigger);
        assert_eq!(tracker.own_timeout(&key), known.then_some(60_000));
    }
}
