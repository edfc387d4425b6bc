use vlog::task::{TaskStatus, Timestamp};
use vlog::task_store::TaskRepository;
use vlog::worker::{handler_for, Handler, Job, TaskRunner, TASK_LOOP_INTERVAL_SECS};

fn repo() -> TaskRepository {
    let mut r = TaskRepository::new("t.json");
    let t = Timestamp { secs: 1, nanos: 0 };
    r.insert("a".to_string(), t, "process_session", vec!["a.wav".to_string()]);
    r.insert("b".to_string(), t, "sync_activity", vec!["b1.jsonl".to_string(), "b2.jsonl".to_string()]);
    r.insert("c".to_string(), t, "mystery", vec![]);
    r
}

#[test]
fn handler_by_task_type() {
    assert_eq!(handler_for("process_session"), Handler::ProcessSession);
    assert_eq!(handler_for("sync_activity"), Handler::SyncActivity);
    assert_eq!(handler_for("legacy"), Handler::Unknown);
    assert_eq!(handler_for(""), Handler::Unknown);
    assert_eq!(handler_for("Process_Session"), Handler::Unknown);
}

#[test]
fn pending_lists_pending_ids_in_order() {
    let runner = TaskRunner::new();
    assert_eq!(runner.poll_interval_secs(), 30);
    assert_eq!(TASK_LOOP_INTERVAL_SECS, 30);
    let mut r = repo();
    assert_eq!(runner.pending(&r), vec!["a".to_string(), "b".to_string(), "c".to_string()]);
    r.update_status("b", TaskStatus::Processing).unwrap();
    assert_eq!(runner.pending(&r), vec!["a".to_string(), "c".to_string()]);
    r.update_status("a", TaskStatus::Completed).unwrap();
    r.update_status("c", TaskStatus::Failed).unwrap();
    assert!(runner.pending(&r).is_empty());
}

#[test]
fn begin_marks_pending_task_processing_and_returns_job() {
    let runner = TaskRunner::new();
    let mut r = repo();
    let job = runner.begin(&mut r, "b").expect("b is pending");
    assert_eq!(job.id, "b");
    assert_eq!(job.handler, Handler::SyncActivity);
    assert_eq!(job.file_paths, vec!["b1.jsonl".to_string(), "b2.jsonl".to_string()]);
    let loaded = r.load();
    assert_eq!(loaded[0].status, TaskStatus::Pending);
    assert_eq!(loaded[1].status, TaskStatus::Processing);
    assert_eq!(loaded[2].status, TaskStatus::Pending);
}

#[test]
fn begin_leaves_missing_and_non_pending_tasks_alone() {
    let runner = TaskRunner::new();
    let mut r = repo();
    assert!(runner.begin(&mut r, "zz").is_none());
    assert!(runner.begin(&mut r, "a").is_some());
    assert!(runner.begin(&mut r, "a").is_none());
    r.update_status("b", TaskStatus::Failed).unwrap();
    assert!(runner.begin(&mut r, "b").is_none());
    assert_eq!(r.load()[1].status, TaskStatus::Failed);
    assert_eq!(r.load()[0].status, TaskStatus::Processing);
}

#[test]
fn finish_maps_success_to_completed_and_error_to_failed() {
    let runner = TaskRunner::new();
    let mut r = repo();
    let a = runner.begin(&mut r, "a").unwrap();
    let b = runner.begin(&mut r, "b").unwrap();
    assert_eq!(runner.finish(&mut r, &a, true), Some(TaskStatus::Completed));
    assert_eq!(runner.finish(&mut r, &b, false), Some(TaskStatus::Failed));
    let loaded = r.load();
    assert_eq!(loaded[0].status, TaskStatus::Completed);
    assert_eq!(loaded[1].status, TaskStatus::Failed);
    assert_eq!(loaded[2].status, TaskStatus::Pending);
    assert_eq!(runner.finish(&mut r, &a, false), None);
    assert_eq!(r.load()[0].status, TaskStatus::Completed);
}

#[test]
fn unknown_task_type_stays_processing() {
    let runner = TaskRunner::new();
    let mut r = repo();
    let c = runner.begin(&mut r, "c").unwrap();
    assert_eq!(c.handler, Handler::Unknown);
    assert_eq!(runner.finish(&mut r, &c, true), None);
    assert_eq!(runner.finish(&mut r, &c, false), None);
    assert_eq!(r.load()[2].status, TaskStatus::Processing);
    assert!(runner.pending(&r).iter().all(|id| id != "c"));
}

#[test]
fn finish_of_a_job_that_was_never_begun_changes_nothing() {
    let runner = TaskRunner::new();
    let mut r = repo();
    let job = Job { id: "a".to_string(), handler: Handler::ProcessSession, file_paths: vec![] };
    assert_eq!(runner.finish(&mut r, &job, true), None);
    assert_eq!(r.load()[0].status, TaskStatus::Pending);
    let ghost = Job { id: "zz".to_string(), handler: Handler::ProcessSession, file_paths: vec![] };
    assert_eq!(runner.finish(&mut r, &ghost, true), None);
}
