use vlog::persist::FsOp;
use vlog::task::{Task, TaskStatus, Timestamp};
use vlog::task_store::{
    migrate, read_legacy_document, Document, LegacyTask, RawLegacy, StoreError, TaskRepository,
    EMPTY_DOCUMENT,
};

fn ts(secs: i64) -> Timestamp {
    Timestamp { secs, nanos: 0 }
}

fn same(a: &Task, b: &Task) -> bool {
    a.id == b.id
        && a.created_at == b.created_at
        && a.status == b.status
        && a.task_type == b.task_type
        && a.file_paths == b.file_paths
}

#[test]
fn status_names_round_trip() {
    for s in [TaskStatus::Pending, TaskStatus::Processing, TaskStatus::Completed, TaskStatus::Failed] {
        assert_eq!(TaskStatus::parse(s.as_str()), Some(s));
    }
    assert_eq!(TaskStatus::Pending.as_str(), "pending");
    assert_eq!(TaskStatus::Processing.as_str(), "processing");
    assert_eq!(TaskStatus::Completed.as_str(), "completed");
    assert_eq!(TaskStatus::Failed.as_str(), "failed");
    assert_eq!(TaskStatus::parse("Pending"), None);
    assert_eq!(TaskStatus::parse(""), None);
}

#[test]
fn status_moves_forward_only() {
    assert!(TaskStatus::Pending.can_become(TaskStatus::Processing));
    assert!(!TaskStatus::Pending.can_become(TaskStatus::Completed));
    assert!(TaskStatus::Processing.can_become(TaskStatus::Completed));
    assert!(TaskStatus::Processing.can_become(TaskStatus::Failed));
    assert!(!TaskStatus::Processing.can_become(TaskStatus::Pending));
    assert!(!TaskStatus::Completed.can_become(TaskStatus::Pending));
    assert!(!TaskStatus::Failed.can_become(TaskStatus::Pending));
    assert!(TaskStatus::Completed.is_terminal());
    assert!(TaskStatus::Failed.is_terminal());
    assert!(!TaskStatus::Pending.is_terminal());
    assert!(!TaskStatus::Processing.is_terminal());
}

#[test]
fn timestamps_order_by_seconds_then_nanos() {
    let a = Timestamp { secs: 10, nanos: 5 };
    let b = Timestamp { secs: 10, nanos: 6 };
    let c = Timestamp { secs: 11, nanos: 0 };
    assert!(a.is_not_after(&a));
    assert!(a.is_not_after(&b));
    assert!(!b.is_not_after(&a));
    assert!(b.is_not_after(&c));
    assert!(!c.is_not_after(&a));
}

#[test]
fn add_then_load_round_trips_every_field() {
    let mut repo = TaskRepository::new("data/tasks.json");
    assert_eq!(repo.path(), "data/tasks.json");
    assert_eq!(repo.len(), 0);
    let added = repo.insert(
        "0190-a".to_string(),
        Timestamp { secs: 1700000000, nanos: 123 },
        "process_session",
        vec!["rec/a.wav".to_string(), "rec/b.wav".to_string()],
    );
    assert_eq!(added.id, "0190-a");
    assert_eq!(added.created_at, Timestamp { secs: 1700000000, nanos: 123 });
    assert_eq!(added.status, TaskStatus::Pending);
    assert_eq!(added.task_type, "process_session");
    assert_eq!(added.file_paths, vec!["rec/a.wav".to_string(), "rec/b.wav".to_string()]);
    let loaded = repo.load();
    assert_eq!(loaded.len(), 1);
    assert!(same(&loaded[0], &added));
}

#[test]
fn add_allocates_id_and_time_and_appends() {
    let mut repo = TaskRepository::new("t.json");
    let a = repo.add("process_session", vec!["x.wav".to_string()]);
    let b = repo.add("sync_activity", vec!["y.jsonl".to_string()]);
    assert!(!a.id.is_empty());
    assert_ne!(a.id, b.id);
    assert!(a.id < b.id);
    assert!(a.created_at.secs > 1_600_000_000);
    assert!(a.created_at.is_not_after(&b.created_at));
    assert_eq!(a.status, TaskStatus::Pending);
    assert_eq!(b.task_type, "sync_activity");
    let loaded = repo.load();
    assert_eq!(loaded.len(), 2);
    assert!(same(&loaded[0], &a));
    assert!(same(&loaded[1], &b));
}

#[test]
fn update_status_changes_only_the_matching_task() {
    let mut repo = TaskRepository::new("t.json");
    repo.insert("a".to_string(), ts(1), "process_session", vec!["1".to_string()]);
    repo.insert("b".to_string(), ts(2), "sync_activity", vec!["2".to_string()]);
    repo.insert("b".to_string(), ts(3), "sync_activity", vec!["3".to_string()]);
    assert_eq!(repo.update_status("b", TaskStatus::Processing), Ok(()));
    let loaded = repo.load();
    assert_eq!(loaded[0].status, TaskStatus::Pending);
    assert_eq!(loaded[1].status, TaskStatus::Processing);
    assert_eq!(loaded[2].status, TaskStatus::Pending);
    assert_eq!(loaded[1].id, "b");
    assert_eq!(loaded[1].created_at, ts(2));
    assert_eq!(loaded[1].task_type, "sync_activity");
    assert_eq!(loaded[1].file_paths, vec!["2".to_string()]);
    assert_eq!(repo.find("b"), Some(1));
    assert_eq!(repo.find("zz"), None);
}

#[test]
fn update_status_of_missing_id_is_not_found() {
    let mut repo = TaskRepository::new("t.json");
    assert_eq!(repo.update_status("nope", TaskStatus::Failed), Err(StoreError::NotFound));
    repo.insert("a".to_string(), ts(1), "process_session", vec![]);
    assert_eq!(repo.update_status("nope", TaskStatus::Failed), Err(StoreError::NotFound));
    assert_eq!(repo.load()[0].status, TaskStatus::Pending);
    assert_eq!(repo.len(), 1);
}

#[test]
fn open_absent_document_is_an_empty_store() {
    let repo = TaskRepository::open("t.json", Document::Absent).unwrap();
    assert_eq!(repo.len(), 0);
    assert_eq!(repo.path(), "t.json");
    assert_eq!(EMPTY_DOCUMENT, "[]");
}

#[test]
fn open_unreadable_document_is_a_hard_failure() {
    let out = TaskRepository::open("t.json", Document::Unreadable);
    assert!(matches!(out, Err(StoreError::Corrupt)));
}

#[test]
fn open_with_tasks_keeps_them_in_order() {
    let tasks = vec![
        Task::new("a".to_string(), ts(1), "process_session", vec!["1".to_string()]),
        Task::new("b".to_string(), ts(2), "sync_activity", vec![]),
    ];
    let repo = TaskRepository::open("t.json", Document::Tasks(tasks)).unwrap();
    let loaded = repo.load();
    assert_eq!(loaded.len(), 2);
    assert_eq!(loaded[0].id, "a");
    assert_eq!(loaded[1].id, "b");
    assert_eq!(repo.get(1).task_type, "sync_activity");
}

#[test]
fn migrate_fills_in_what_a_legacy_record_lacks() {
    let legacy = LegacyTask { id: None, status: None, task_type: None, file_paths: vec!["p".to_string()] };
    let t = migrate(legacy, "fresh".to_string(), ts(42)).unwrap();
    assert_eq!(t.id, "fresh");
    assert_eq!(t.status, TaskStatus::Pending);
    assert_eq!(t.task_type, "legacy");
    assert_eq!(t.created_at, ts(42));
    assert_eq!(t.file_paths, vec!["p".to_string()]);
    let legacy = LegacyTask {
        id: Some("old".to_string()),
        status: Some("failed".to_string()),
        task_type: Some("sync_activity".to_string()),
        file_paths: vec![],
    };
    let t = migrate(legacy, "fresh".to_string(), ts(43)).unwrap();
    assert_eq!(t.id, "old");
    assert_eq!(t.status, TaskStatus::Failed);
    assert_eq!(t.task_type, "sync_activity");
}

#[test]
fn migrate_refuses_a_status_that_is_none() {
    let legacy = LegacyTask { id: None, status: Some("done".to_string()), task_type: None, file_paths: vec![] };
    assert!(matches!(migrate(legacy, "fresh".to_string(), ts(1)), Err(StoreError::Corrupt)));
}

#[test]
fn save_replaces_the_document_atomically() {
    let repo = TaskRepository::new("data/tasks.json");
    let plan = repo.save("[]".to_string());
    assert_eq!(plan.len(), 2);
    assert!(matches!(&plan[0], FsOp::Write { path, content } if path == "data/tasks.json.tmp" && content == "[]"));
    assert!(matches!(&plan[1], FsOp::Rename { from, to } if from == "data/tasks.json.tmp" && to == "data/tasks.json"));
}

#[test]
fn legacy_document_is_read_record_by_record() {
    let text = "[{\"id\":\"old-1\",\"status\":\"completed\",\"task_type\":\"sync_activity\",\"file_paths\":[\"a\",5,\"b\",null]},{\"file_paths\":\"none\"},{\"id\":7,\"status\":\"processing\"}]";
    let tasks = read_legacy_document(text).unwrap();
    assert_eq!(tasks.len(), 3);
    assert_eq!(tasks[0].id, "old-1");
    assert_eq!(tasks[0].status, TaskStatus::Completed);
    assert_eq!(tasks[0].task_type, "sync_activity");
    assert_eq!(tasks[0].file_paths, vec!["a".to_string(), "b".to_string()]);
    assert_eq!(tasks[1].id.len(), 36);
    assert_eq!(tasks[1].status, TaskStatus::Pending);
    assert_eq!(tasks[1].task_type, "legacy");
    assert!(tasks[1].file_paths.is_empty());
    assert!(tasks[1].created_at.secs > 1_600_000_000);
    assert_eq!(tasks[2].id.len(), 36);
    assert_eq!(tasks[2].status, TaskStatus::Processing);
    assert!(read_legacy_document("[]").unwrap().is_empty());
    assert_eq!(read_legacy_document("[1, \"x\"]").unwrap().len(), 2);
}

#[test]
fn legacy_document_that_is_no_list_or_names_no_status_is_corrupt() {
    assert!(matches!(read_legacy_document("{\"id\":\"a\"}"), Err(StoreError::Corrupt)));
    assert!(matches!(read_legacy_document("[{\"id\":"), Err(StoreError::Corrupt)));
    assert!(matches!(read_legacy_document(""), Err(StoreError::Corrupt)));
    assert!(matches!(
        read_legacy_document("[{\"id\":\"a\"},{\"status\":\"done\"}]"),
        Err(StoreError::Corrupt)
    ));
}

#[test]
fn raw_legacy_record_keeps_the_paths_that_are_strings() {
    let raw = RawLegacy {
        id: Some("i".to_string()),
        status: None,
        task_type: Some("t".to_string()),
        file_paths: Some(vec![None, Some("p".to_string()), None, Some("q".to_string())]),
    };
    let legacy = raw.to_legacy();
    assert_eq!(legacy.id, Some("i".to_string()));
    assert_eq!(legacy.status, None);
    assert_eq!(legacy.task_type, Some("t".to_string()));
    assert_eq!(legacy.file_paths, vec!["p".to_string(), "q".to_string()]);
    let raw = RawLegacy { id: None, status: None, task_type: None, file_paths: None };
    assert!(raw.to_legacy().file_paths.is_empty());
}

#[test]
fn insert_of_a_new_id_leaves_exactly_one_task_with_it() {
    let mut repo = TaskRepository::new("t.json");
    repo.insert("a".to_string(), ts(1), "process_session", vec![]);
    let t = repo.insert("b".to_string(), ts(2), "process_session", vec![]);
    let with_id: Vec<usize> = repo.load().iter().enumerate().filter(|(_, x)| x.id == t.id).map(|(i, _)| i).collect();
    assert_eq!(with_id, vec![1]);
    let t = repo.add("process_session", vec![]);
    assert_eq!(repo.load().iter().filter(|x| x.id == t.id).count(), 1);
}
