use vlog::activity::{ActivityRecord, ActivitySyncUseCase};
use vlog::domain::SourceType;
use vlog::task::Timestamp;

#[test]
fn line_becomes_window_activity_event() {
    let a = ActivitySyncUseCase::new();
    let e = a
        .event_for_line("{\"timestamp\":\"2024-01-01T12:00:00Z\",\"type\":\"WindowFocus\",\"data\":{\"app\":\"x\"}}")
        .expect("a JSON line");
    assert_eq!(e.source, SourceType::WindowsActivity);
    assert_eq!(e.payload, "{\"app\":\"x\"}");
    assert_eq!(e.timestamp, Timestamp { secs: 1704110400, nanos: 0 });
    assert!(!e.id.is_empty());
}

#[test]
fn time_stamp_with_offset_and_fraction() {
    let a = ActivitySyncUseCase::new();
    let e = a
        .event_for_line("{\"timestamp\":\"2024-01-01T12:00:00.25+09:00\",\"data\":1}")
        .unwrap();
    assert_eq!(e.timestamp, Timestamp { secs: 1704078000, nanos: 250_000_000 });
    assert_eq!(e.payload, "1");
}

#[test]
fn missing_or_bad_time_stamp_falls_back_to_now() {
    let a = ActivitySyncUseCase::new();
    let e = a.event_for_line("{\"type\":\"MediaPlaying\"}").unwrap();
    assert!(e.timestamp.secs > 1_600_000_000);
    assert_eq!(e.payload, "null");
    let e = a.event_for_line("{\"timestamp\":\"yesterday\",\"data\":\"d\"}").unwrap();
    assert!(e.timestamp.secs > 1_600_000_000);
    assert_eq!(e.payload, "\"d\"");
    let e = a.event_for_line("{\"timestamp\":5,\"data\":[1,2]}").unwrap();
    assert!(e.timestamp.secs > 1_600_000_000);
    assert_eq!(e.payload, "[1,2]");
}

#[test]
fn blank_and_broken_lines_give_no_event() {
    let a = ActivitySyncUseCase::new();
    assert!(a.event_for_line("").is_none());
    assert!(a.event_for_line("   \t").is_none());
    assert!(a.event_for_line("{not json").is_none());
    assert!(a.is_blank(" \u{3000} "));
    assert!(!a.is_blank(" x "));
}

#[test]
fn a_line_that_is_json_but_no_object_still_gives_an_event() {
    let a = ActivitySyncUseCase::new();
    let e = a.event_for_line("[1,2,3]").unwrap();
    assert_eq!(e.payload, "null");
}

#[test]
fn time_of_and_event_from_a_record() {
    let a = ActivitySyncUseCase::new();
    let now = Timestamp { secs: 77, nanos: 1 };
    let r = ActivityRecord { kind: None, timestamp: Some("1970-01-01T00:01:00Z".to_string()), data: "{}".to_string() };
    assert_eq!(a.time_of(&r, now), Timestamp { secs: 60, nanos: 0 });
    let e = a.event(r, "id-1".to_string(), now);
    assert_eq!(e.id, "id-1");
    assert_eq!(e.timestamp, now);
    assert_eq!(e.payload, "{}");
    let r = ActivityRecord { kind: None, timestamp: None, data: "{}".to_string() };
    assert_eq!(a.time_of(&r, now), now);
}

#[test]
fn archive_path_adds_processed() {
    let a = ActivitySyncUseCase::new();
    assert_eq!(a.archive_path("data/cloud_sync/log.jsonl"), "data/cloud_sync/log.jsonl.processed");
}
