use std::time::Duration;

use getitdone::database::{change_stream_opening, DatabaseError, StreamOpening};
use getitdone::pool::{pool_change, PoolEvent};
use getitdone::{Config, ConfigBuilder, RequestError, Worker, WorkerStats};

#[test]
fn settings_left_out_get_their_defaults() {
    let config = Config::builder().mongo_uri("mongodb://localhost:27017").build();
    assert_eq!(config.mongo_uri, "mongodb://localhost:27017");
    assert_eq!(config.database, "getitdone");
    assert_eq!(config.collection, "tasks");
    assert_eq!(config.request_timeout, None);
    assert_eq!(config.worker_switch_timeout, Duration::from_secs(10));
    assert!(!config.allow_reset_finished_tasks);
    assert_eq!(config.worker_id, None);
    assert!(!config.enable_metrics);
    assert_eq!(config.claim_sort, None);
}

#[test]
fn settings_made_are_kept() {
    let name = String::from("image_resize");
    let config = ConfigBuilder::default()
        .mongo_uri(String::from("mongodb://db"))
        .database("getitdone_test")
        .collection(&name)
        .request_timeout(Some(Duration::from_secs(3)))
        .worker_switch_timeout(Duration::from_millis(50))
        .reset_finished_tasks(true)
        .build();
    let copy = config.clone();
    assert_eq!(copy.mongo_uri, "mongodb://db");
    assert_eq!(copy.database, "getitdone_test");
    assert_eq!(copy.collection, "image_resize");
    assert_eq!(copy.request_timeout, Some(Duration::from_secs(3)));
    assert_eq!(copy.worker_switch_timeout, Duration::from_millis(50));
    assert!(copy.allow_reset_finished_tasks);
    let waits_forever = Config::builder()
        .mongo_uri("mongodb://db")
        .request_timeout(Some(Duration::from_secs(3)))
        .request_timeout(None)
        .build();
    assert_eq!(waits_forever.request_timeout, None);
}

#[test]
fn errors_describe_themselves() {
    let texts = [
        (
            RequestError::Duplicate { task_id: "a".into() },
            "duplicate idempotency key for task a",
        ),
        (RequestError::Timeout, "caller timed out waiting for response"),
        (
            RequestError::WorkerGone,
            "worker crashed or disconnected before responding",
        ),
        (
            RequestError::WorkerTimeout,
            "no worker picked up the task before timeout",
        ),
        (
            RequestError::PayloadFormat { field: "task_input" },
            "payload format mismatch in task_input",
        ),
        (
            RequestError::TaskFailed { reason: "boom".into() },
            "task failed: boom",
        ),
        (RequestError::Database("gone".into()), "database error: gone"),
    ];
    for (error, text) in texts {
        assert_eq!(error.message(), text);
    }
}

#[test]
fn worker_has_a_name_and_room_for_32_tasks() {
    let mut config = Config::builder().mongo_uri("mongodb://db").build();
    let worker = Worker::new(config.clone());
    assert_eq!(worker.max_inflight, 32);
    let uuid = worker.worker_id.strip_prefix("worker-").expect("prefix");
    let parsed = uuid::Uuid::parse_str(uuid).expect("uuid");
    assert_eq!(parsed.get_version_num(), 4);
    assert_eq!(parsed.to_string(), uuid);
    assert_ne!(Worker::new(config.clone()).worker_id, worker.worker_id);
    assert_eq!(worker.with_max_inflight(1).max_inflight, 1);

    config.worker_id = Some("worker-1".into());
    assert_eq!(Worker::new(config).worker_id, "worker-1");
}

#[test]
fn stats_count_running_tasks() {
    let stats = WorkerStats::new(32, 30);
    assert_eq!(stats.get_running_task_cnt(), 2);
    assert_eq!(stats.get_max_inflight(), 32);
    assert_eq!(WorkerStats::new(0, 0).get_running_task_cnt(), 0);
}

fn command(code: i32, code_name: &str) -> DatabaseError {
    DatabaseError::Command {
        code,
        code_name: code_name.into(),
        message: "Command failed".into(),
    }
}

#[test]
fn missing_change_streams_are_recognized() {
    for error in [
        command(40573, ""),
        command(40574, ""),
        command(40615, ""),
        command(1, "ChangeStreamNotSupported"),
        command(1, "changestreamNOTsupported"),
        command(1, "LOCATION40573"),
        DatabaseError::Other {
            message: "x: The $changeStream stage is only supported on replica sets".into(),
        },
        DatabaseError::Other {
            message: "ChangeStreamNotSupported".into(),
        },
        DatabaseError::Write {
            code: 1,
            message: "ChangeStreamNotSupported".into(),
        },
    ] {
        assert!(error.is_change_stream_unsupported(), "{error:?}");
        match change_stream_opening(Err(error)) {
            StreamOpening::Unsupported(RequestError::Database(text)) => assert_eq!(
                text,
                "change streams unsupported; MongoDB must be a replica set or sharded cluster"
            ),
            other => panic!("unexpected {other:?}"),
        }
    }
    for error in [
        command(1, "Unauthorized"),
        command(1, "ChangeStreamNotSupporte"),
        DatabaseError::Other {
            message: "changestreamnotsupported".into(),
        },
        DatabaseError::Other {
            message: String::new(),
        },
    ] {
        assert!(!error.is_change_stream_unsupported(), "{error:?}");
        assert!(matches!(
            change_stream_opening(Err(error)),
            StreamOpening::Retry
        ));
    }
    assert!(matches!(change_stream_opening(Ok(())), StreamOpening::Open));
}

#[test]
fn missing_collections_and_taken_keys_are_recognized() {
    assert!(command(26, "NamespaceNotFound").is_namespace_not_found());
    assert!(!command(27, "NamespaceNotFound").is_namespace_not_found());
    let write = DatabaseError::Write {
        code: 26,
        message: String::new(),
    };
    assert!(!write.is_namespace_not_found());
    assert!(!write.is_duplicate_key());
    let duplicate = DatabaseError::Write {
        code: 11000,
        message: "E11000 duplicate key".into(),
    };
    assert!(duplicate.is_duplicate_key());
    assert!(!command(11000, "").is_duplicate_key());
    assert!(matches!(
        duplicate.into_request_error(),
        RequestError::Database(text) if text == "E11000 duplicate key"
    ));
}

#[test]
fn pool_events_cancel_each_other() {
    let events = [
        PoolEvent::Created,
        PoolEvent::Created,
        PoolEvent::CheckedOut,
        PoolEvent::Other,
        PoolEvent::CheckedIn,
        PoolEvent::Closed,
    ];
    let size: i64 = events.iter().map(|event| pool_change(*event).size).sum();
    let in_use: i64 = events.iter().map(|event| pool_change(*event).checked_out).sum();
    assert_eq!(size, 1);
    assert_eq!(in_use, 0);
    assert_eq!(pool_change(PoolEvent::CheckedOut).checked_out, 1);
    assert_eq!(pool_change(PoolEvent::CheckedOut).size, 0);
}
