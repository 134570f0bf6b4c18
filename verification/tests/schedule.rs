use std::time::Duration;

use bson::oid::ObjectId;
use bson::{Bson, DateTime, Document};
use getitdone::expiry::ExpiryTracker;
use getitdone::object_key::ObjectKey;
use getitdone::schedule::{
    apply_change_event_to_expirations, expiration_update_from_fields, heartbeat_from_task,
    object_key, refresh_pending_tasks, refresh_running_expirations, schedule_expiration_from_task,
    task_switch_timeout, updated_status_is_not_running, ChangeEvent, ChangeKind,
};
use getitdone::worker::Trigger;

fn document(fields: Vec<(&str, Bson)>) -> Document {
    let mut document = Document::new();
    for (name, value) in fields {
        document.insert(name, value);
    }
    document
}

fn date(millis: i64) -> Bson {
    Bson::DateTime(DateTime::from_millis(millis))
}

fn key(id: ObjectId) -> ObjectKey {
    ObjectKey::from_bytes(id.bytes())
}

fn running_task(id: ObjectId, task_id: &str, heartbeat_at: i64, timeout_ms: i64) -> Document {
    document(vec![
        ("_id", Bson::ObjectId(id)),
        ("task_id", Bson::from(task_id)),
        ("status", Bson::from("running")),
        (
            "worker_state",
            Bson::Document(document(vec![
                ("heartbeat_at", date(heartbeat_at)),
                ("switch_timeout_ms", Bson::Int64(timeout_ms)),
            ])),
        ),
    ])
}

fn event(kind: ChangeKind) -> ChangeEvent {
    ChangeEvent {
        kind,
        full_document: None,
        document_key: None,
        updated_fields: None,
    }
}

fn deadline(tracker: &ExpiryTracker, id: ObjectId) -> Option<i64> {
    tracker.get(&key(id)).and_then(|task| task.expires_at_ms())
}

#[test]
fn expiry_tracker_preserves_task_id_across_heartbeat_updates() {
    let mut tracker = ExpiryTracker::new();
    let id = key(ObjectId::new());
    let first_heartbeat = DateTime::from_millis(1_000).timestamp_millis();
    let second_heartbeat = DateTime::from_millis(2_000).timestamp_millis();

    tracker.upsert(
        id,
        Some("task-a".to_string()),
        first_heartbeat,
        Duration::from_millis(50),
    );
    tracker.upsert(id, None, second_heartbeat, Duration::from_millis(50));

    let task = tracker.get(&id).expect("task should be there");
    assert_eq!(task.task_id.as_deref(), Some("task-a"));
    assert_eq!(task.expires_at_ms(), Some(2_050));
}

#[test]
fn expiration_update_reads_whole_or_dotted_worker_state() {
    let whole = document(vec![(
        "worker_state",
        Bson::Document(document(vec![
            ("heartbeat_at", date(1_000)),
            ("switch_timeout_ms", Bson::Int64(25)),
        ])),
    )]);
    let dotted = document(vec![
        ("worker_state.heartbeat_at", date(2_000)),
        ("worker_state.switch_timeout_ms", Bson::Int64(50)),
    ]);

    let (whole_heartbeat, whole_timeout) =
        expiration_update_from_fields(&whole, Duration::from_millis(100))
            .expect("whole worker_state should be parsed");
    let (dotted_heartbeat, dotted_timeout) =
        expiration_update_from_fields(&dotted, Duration::from_millis(100))
            .expect("dotted worker_state should be parsed");

    assert_eq!(whole_heartbeat, 1_000);
    assert_eq!(whole_timeout, Duration::from_millis(25));
    assert_eq!(dotted_heartbeat, 2_000);
    assert_eq!(dotted_timeout, Duration::from_millis(50));
}

#[test]
fn updates_without_a_heartbeat_bring_no_expiration() {
    let fallback = Duration::from_millis(100);
    assert!(expiration_update_from_fields(&Document::new(), fallback).is_none());
    let state_without_heartbeat = document(vec![
        (
            "worker_state",
            Bson::Document(document(vec![("switch_timeout_ms", Bson::Int64(25))])),
        ),
        ("worker_state.heartbeat_at", date(2_000)),
    ]);
    assert!(expiration_update_from_fields(&state_without_heartbeat, fallback).is_none());
    let negative = document(vec![
        ("worker_state.heartbeat_at", date(2_000)),
        ("worker_state.switch_timeout_ms", Bson::Int64(-1)),
    ]);
    assert_eq!(
        expiration_update_from_fields(&negative, fallback),
        Some((2_000, fallback))
    );
}

#[test]
fn task_timeout_comes_before_the_recorded_one_and_the_fallback() {
    let fallback = Duration::from_secs(9);
    let id = ObjectId::new();
    let mut task = running_task(id, "task", 1_000, 25);
    assert_eq!(task_switch_timeout(&task, fallback), Duration::from_millis(25));
    task.insert("worker_switch_timeout", Bson::Int64(70));
    assert_eq!(task_switch_timeout(&task, fallback), Duration::from_millis(70));
    task.insert("worker_switch_timeout", Bson::Int64(-70));
    assert_eq!(task_switch_timeout(&task, fallback), fallback);
    task.insert("worker_switch_timeout", Bson::Int32(70));
    assert_eq!(task_switch_timeout(&task, fallback), Duration::from_millis(25));
    assert_eq!(task_switch_timeout(&Document::new(), fallback), fallback);
}

#[test]
fn heartbeat_is_read_from_the_worker_state() {
    let id = ObjectId::new();
    assert_eq!(heartbeat_from_task(&running_task(id, "task", 1_234, 5)), Some(1_234));
    assert_eq!(heartbeat_from_task(&Document::new()), None);
    assert_eq!(object_key(&running_task(id, "task", 0, 0)), Some(key(id)));
    assert_eq!(object_key(&Document::new()), None);
}

#[test]
fn only_another_status_takes_a_task_out_of_running() {
    assert!(!updated_status_is_not_running(&Document::new()));
    assert!(!updated_status_is_not_running(&document(vec![(
        "status",
        Bson::from("running")
    )])));
    assert!(updated_status_is_not_running(&document(vec![(
        "status",
        Bson::from("failed")
    )])));
    assert!(!updated_status_is_not_running(&document(vec![(
        "status",
        Bson::Int32(3)
    )])));
}

#[test]
fn running_documents_are_scheduled_and_others_forgotten() {
    let fallback = Duration::from_secs(10);
    let id = ObjectId::new();
    let mut tracker = ExpiryTracker::new();
    schedule_expiration_from_task(&running_task(id, "task", 1_000, 50), fallback, &mut tracker);
    assert_eq!(deadline(&tracker, id), Some(1_050));

    let mut without_heartbeat = running_task(id, "task", 9_000, 50);
    without_heartbeat.remove("worker_state");
    schedule_expiration_from_task(&without_heartbeat, fallback, &mut tracker);
    assert_eq!(deadline(&tracker, id), Some(1_050));

    let mut finished = running_task(id, "task", 9_000, 50);
    finished.insert("status", "succeeded");
    schedule_expiration_from_task(&finished, fallback, &mut tracker);
    assert_eq!(deadline(&tracker, id), None);
}

#[test]
fn deadlines_beyond_the_last_instant_are_capped() {
    let id = ObjectId::new();
    let mut tracker = ExpiryTracker::new();
    tracker.upsert(key(id), None, 5, Duration::MAX);
    assert_eq!(deadline(&tracker, id), Some(i64::MAX));
    tracker.upsert(key(id), None, i64::MAX - 10, Duration::from_millis(20));
    assert_eq!(deadline(&tracker, id), Some(i64::MAX));
    tracker.upsert(key(id), None, i64::MIN, Duration::MAX);
    assert_eq!(deadline(&tracker, id), Some(-1));
}

#[test]
fn change_events_keep_the_table_up_to_date() {
    let fallback = Duration::from_millis(100);
    let id = ObjectId::new();
    let mut tracker = ExpiryTracker::new();
    let key_document = || Some(document(vec![("_id", Bson::ObjectId(id))]));

    let mut insert = event(ChangeKind::Insert);
    insert.full_document = Some(document(vec![
        ("_id", Bson::ObjectId(id)),
        ("status", Bson::from("pending")),
    ]));
    assert!(!tracker.has_pending());
    assert!(apply_change_event_to_expirations(&insert, fallback, &mut tracker));
    assert!(tracker.has_pending());
    assert_eq!(deadline(&tracker, id), None);

    let mut claim = event(ChangeKind::Update);
    claim.document_key = key_document();
    claim.updated_fields = Some(document(vec![
        ("status", Bson::from("running")),
        (
            "worker_state",
            Bson::Document(document(vec![("heartbeat_at", date(1_000))])),
        ),
    ]));
    assert!(!apply_change_event_to_expirations(&claim, fallback, &mut tracker));
    assert_eq!(deadline(&tracker, id), Some(1_100));

    let mut heartbeat = event(ChangeKind::Update);
    heartbeat.document_key = key_document();
    heartbeat.updated_fields = Some(document(vec![("worker_state.heartbeat_at", date(5_000))]));
    assert!(!apply_change_event_to_expirations(&heartbeat, fallback, &mut tracker));
    assert_eq!(deadline(&tracker, id), Some(5_100));

    let mut unknown_key = event(ChangeKind::Update);
    unknown_key.updated_fields = Some(document(vec![("status", Bson::from("pending"))]));
    assert!(apply_change_event_to_expirations(&unknown_key, fallback, &mut tracker));
    assert_eq!(deadline(&tracker, id), Some(5_100));

    let mut done = event(ChangeKind::Update);
    done.document_key = key_document();
    done.updated_fields = Some(document(vec![("status", Bson::from("succeeded"))]));
    assert!(!apply_change_event_to_expirations(&done, fallback, &mut tracker));
    assert_eq!(deadline(&tracker, id), None);

    let mut replace = event(ChangeKind::Replace);
    replace.full_document = Some(running_task(id, "task", 7_000, 1));
    assert!(!apply_change_event_to_expirations(&replace, fallback, &mut tracker));
    assert_eq!(deadline(&tracker, id), Some(7_001));

    let mut delete = event(ChangeKind::Delete);
    delete.document_key = key_document();
    assert!(!apply_change_event_to_expirations(&delete, fallback, &mut tracker));
    assert_eq!(deadline(&tracker, id), None);

    assert!(!apply_change_event_to_expirations(
        &event(ChangeKind::Other),
        fallback,
        &mut tracker
    ));
    assert!(!apply_change_event_to_expirations(
        &event(ChangeKind::Insert),
        fallback,
        &mut tracker
    ));
}

#[test]
fn scan_replaces_what_the_table_held() {
    let fallback = Duration::from_millis(100);
    let stale = ObjectId::new();
    let first = ObjectId::new();
    let second = ObjectId::new();
    let mut tracker = ExpiryTracker::new();
    tracker.set_pending_may_exist(true);
    tracker.upsert(key(stale), None, 0, fallback);
    refresh_running_expirations(None, fallback, &mut tracker, Trigger::Reconnect);
    assert_eq!(deadline(&tracker, stale), Some(100));

    let scanned = vec![
        running_task(first, "first", 1_000, 10),
        running_task(second, "second", 2_000, 20),
    ];
    refresh_running_expirations(Some(&scanned), fallback, &mut tracker, Trigger::Reconnect);
    assert_eq!(deadline(&tracker, stale), None);
    assert_eq!(deadline(&tracker, first), Some(1_010));
    assert_eq!(deadline(&tracker, second), Some(2_020));
    assert!(tracker.has_pending());

    refresh_pending_tasks(None, &mut tracker);
    assert!(tracker.has_pending());
    refresh_pending_tasks(Some(false), &mut tracker);
    assert!(!tracker.has_pending());
    refresh_pending_tasks(Some(true), &mut tracker);
    assert!(tracker.has_pending());
}

#[test]
fn due_tasks_come_out_longest_overdue_first() {
    let mut tracker = ExpiryTracker::new();
    let ids: Vec<ObjectId> = (0..4).map(|_| ObjectId::new()).collect();
    tracker.upsert(key(ids[0]), None, 3_000, Duration::ZERO);
    tracker.upsert(key(ids[1]), Some("b".into()), 1_000, Duration::ZERO);
    tracker.upsert(key(ids[2]), None, 2_000, Duration::ZERO);
    tracker.upsert(key(ids[3]), None, 1_000, Duration::ZERO);

    assert!(tracker.pop_due_at(999).is_empty());
    let due = tracker.pop_due_at(2_000);
    assert_eq!(due.len(), 3);
    assert_eq!(due[2].0, key(ids[2]));
    let mut first_two = vec![due[0].0, due[1].0];
    first_two.sort_by_key(|key| key.bytes());
    let mut expected = vec![key(ids[1]), key(ids[3])];
    expected.sort_by_key(|key| key.bytes());
    assert_eq!(first_two, expected);
    for (id, task) in &due {
        if *id == key(ids[1]) {
            assert_eq!(task.task_id.as_deref(), Some("b"));
        }
    }
    assert!(tracker.pop_due_at(2_000).is_empty());
    assert_eq!(deadline(&tracker, ids[0]), Some(3_000));
    assert_eq!(tracker.pop_due().len(), 1);
    assert!(tracker.pop_due().is_empty());
}

#[test]
fn next_delay_leads_to_the_first_deadline() {
    let mut tracker = ExpiryTracker::new();
    assert_eq!(tracker.next_delay_at(0), None);
    assert_eq!(tracker.next_delay(), None);
    tracker.upsert(key(ObjectId::new()), None, 5_000, Duration::from_millis(1));
    tracker.upsert(key(ObjectId::new()), None, 4_000, Duration::from_millis(1));
    assert_eq!(tracker.next_delay_at(1_000), Some(Duration::from_millis(3_001)));
    assert_eq!(tracker.next_delay_at(4_001), Some(Duration::ZERO));
    assert_eq!(tracker.next_delay_at(9_000), Some(Duration::ZERO));
    assert_eq!(tracker.next_delay(), Some(Duration::ZERO));
    let mut far = ExpiryTracker::new();
    far.upsert(key(ObjectId::new()), None, i64::MAX, Duration::ZERO);
    assert_eq!(
        far.next_delay_at(i64::MIN),
        Some(Duration::from_millis(u64::MAX))
    );
}

#[test]
fn deferred_task_expires_after_the_delay() {
    let mut tracker = ExpiryTracker::new();
    let id = ObjectId::new();
    tracker.upsert(key(id), Some("task".into()), 1_000, Duration::ZERO);
    let mut due = tracker.pop_due_at(1_000);
    let (popped, task) = due.remove(0);
    tracker.defer_at(popped, task, Duration::from_secs(1), 10_000);
    assert_eq!(deadline(&tracker, id), Some(11_000));
    assert!(tracker.pop_due_at(10_999).is_empty());
    let mut due = tracker.pop_due_at(11_000);
    let (popped, task) = due.remove(0);
    assert_eq!(task.task_id.as_deref(), Some("task"));
    tracker.defer(popped, task, Duration::from_secs(3_600));
    assert!(tracker.pop_due().is_empty());
    tracker.remove(&key(id));
    assert_eq!(tracker.next_delay(), None);
}

#[test]
fn cleared_table_keeps_the_hint() {
    let mut tracker = ExpiryTracker::new();
    tracker.set_pending_may_exist(true);
    tracker.upsert(key(ObjectId::new()), None, 0, Duration::ZERO);
    tracker.clear();
    assert_eq!(tracker.next_delay_at(0), None);
    assert!(tracker.has_pending());
}

#[test]
fn object_ids_survive_the_way_through_a_key() {
    for bytes in [
        [0u8; 12],
        [255u8; 12],
        [1, 2, 3, 4, 5, 6, 7, 8, 9, 10, 11, 12],
        ObjectId::new().bytes(),
    ] {
        assert_eq!(ObjectKey::from_bytes(bytes).bytes(), bytes);
    }
    assert_ne!(
        ObjectKey::from_bytes([1, 0, 0, 0, 0, 0, 0, 0, 0, 0, 0, 0]),
        ObjectKey::from_bytes([0, 0, 0, 0, 0, 0, 0, 0, 0, 0, 0, 1])
    );
}
