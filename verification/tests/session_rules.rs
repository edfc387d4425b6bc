use vlog::domain::{LifeEvent, SourceType};
use vlog::preprocessor::TranscriptPreprocessor;
use vlog::session::{
    ProcessUseCase, SessionAction, SessionEvent, SessionRun, Stage, SESSION_WINDOW_SECS,
};
use vlog::task::Timestamp;

fn ts(secs: i64) -> Timestamp {
    Timestamp { secs, nanos: 0 }
}

#[test]
fn stem_stamp_and_date_of_a_capture() {
    let p = ProcessUseCase::new();
    assert_eq!(p.stem("data/recordings/20240101_120000.wav"), "20240101_120000");
    assert_eq!(p.stem("recording_20240101_120000.wav"), "recording_20240101_120000");
    assert_eq!(p.stamp("20240101_120000"), "20240101_120000");
    assert_eq!(p.stamp("20240101_120000_extra_x"), "20240101_120000");
    assert_eq!(p.stamp("20240101"), "20240101");
    assert_eq!(p.stamp("a_"), "a_");
    assert_eq!(p.stamp("_"), "_");
    assert_eq!(p.stamp(""), "");
    assert_eq!(p.date("20240101_120000"), "20240101");
    assert_eq!(p.date("20240101"), "20240101");
    assert_eq!(p.date("_x"), "");
    assert_eq!(p.summary_path("20240101"), "data/summaries/20240101_summary.txt");
}

#[test]
fn window_is_half_an_hour_from_the_start() {
    let p = ProcessUseCase::new();
    assert_eq!(SESSION_WINDOW_SECS, 1800);
    assert_eq!(p.window(Some(1000), ts(99999)), (ts(1000), ts(2800)));
    let now = Timestamp { secs: 5000, nanos: 77 };
    assert_eq!(
        p.window(None, now),
        (Timestamp { secs: 3200, nanos: 77 }, Timestamp { secs: 5000, nanos: 77 })
    );
    assert_eq!(p.window(Some(i64::MAX), ts(0)), (ts(i64::MAX), ts(i64::MAX)));
    assert_eq!(p.window(None, ts(i64::MIN)), (ts(i64::MIN), ts(i64::MIN + 1800)));
}

#[test]
fn window_for_reads_the_start_from_the_file_name() {
    let p = ProcessUseCase::new();
    assert_eq!(
        p.window_for("data/recordings/20240101_120000.wav", ts(5)),
        (ts(1704110400), ts(1704112200))
    );
    assert_eq!(
        p.window_for("rec/19700101_000000_tail.flac", ts(5)),
        (ts(0), ts(1800))
    );
    assert_eq!(p.window_for("rec/garbage.wav", ts(10000)), (ts(8200), ts(10000)));
    assert_eq!(p.window_for("rec/20241340_999999.wav", ts(10000)), (ts(8200), ts(10000)));
}

#[test]
fn activity_context_lists_window_activity_only() {
    let p = ProcessUseCase::new();
    let events = vec![
        LifeEvent::with_id("1".to_string(), ts(1704110400 + 3723), SourceType::WindowsActivity, "{\"app\":\"x\"}".to_string()),
        LifeEvent::with_id("2".to_string(), ts(1704110400), SourceType::System, "ignored".to_string()),
        LifeEvent::with_id("3".to_string(), ts(86399), SourceType::WindowsActivity, "late".to_string()),
        LifeEvent::with_id("4".to_string(), ts(-1), SourceType::WindowsActivity, "before".to_string()),
    ];
    assert_eq!(
        p.activity_context(&events),
        "[13:02:03] {\"app\":\"x\"}\n[23:59:59] late\n[23:59:59] before\n"
    );
    assert_eq!(p.activity_context(&Vec::new()), "");
}

#[test]
fn activity_context_shows_leap_second_as_sixty() {
    let p = ProcessUseCase::new();
    let e = LifeEvent::with_id(
        "1".to_string(),
        Timestamp { secs: 59, nanos: 1_500_000_000 },
        SourceType::WindowsActivity,
        "x".to_string(),
    );
    assert_eq!(p.activity_context(&vec![e]), "[00:00:60] x\n");
}

#[test]
fn summary_prompt_embeds_both_logs() {
    let p = ProcessUseCase::new();
    assert_eq!(
        p.summary_prompt("ACT", "TALK"),
        "以下の会話ログと、その間のアクティビティログを元に、このセッションの要約を作成してください。\n\n### アクティビティログ\nACT\n\n### 会話ログ\nTALK\n\n要約は箇条書きで、重要なトピックを抽出してください。"
    );
}

#[test]
fn lossless_or_raw_by_extension() {
    let p = ProcessUseCase::new();
    assert!(p.is_lossless_or_raw("a/b.wav"));
    assert!(p.is_lossless_or_raw("a/b.WAV"));
    assert!(p.is_lossless_or_raw("a/b.Flac"));
    assert!(!p.is_lossless_or_raw("a/b.opus"));
    assert!(!p.is_lossless_or_raw("a/b"));
    assert!(!p.is_lossless_or_raw("a.wav/b"));
    assert!(!p.is_lossless_or_raw(".wav"));
}

fn run_for(files: &[&str]) -> SessionRun {
    let files: Vec<String> = files.iter().map(|f| f.to_string()).collect();
    SessionRun::new(&files, TranscriptPreprocessor::new())
}

#[test]
fn session_run_walks_the_steps_in_order() {
    let mut run = run_for(&["rec/20240101_120000.wav", "rec/20240102_080000.opus"]);
    assert_eq!(run.stage(), Stage::Ready);
    match run.advance(SessionEvent::Begin, ts(0)) {
        SessionAction::Transcribe { file_path } => assert_eq!(file_path, "rec/20240101_120000.wav"),
        other => panic!("unexpected: {:?}", other),
    }
    let raw = "えー 今日は いい天気 いい天気".to_string();
    match run.advance(SessionEvent::Transcribed { transcript: Some(raw) }, ts(0)) {
        SessionAction::FindActivity { start, end } => {
            assert_eq!((start, end), (ts(1704110400), ts(1704112200)));
        }
        other => panic!("unexpected: {:?}", other),
    }
    let events = vec![LifeEvent::with_id("1".to_string(), ts(1704110400), SourceType::WindowsActivity, "P".to_string())];
    let prompt = match run.advance(SessionEvent::ActivityFound { events: Some(events) }, ts(0)) {
        SessionAction::Summarize { prompt } => prompt,
        other => panic!("unexpected: {:?}", other),
    };
    assert_eq!(prompt, ProcessUseCase::new().summary_prompt("[12:00:00] P\n", "今日は いい天気"));
    match run.advance(SessionEvent::Summarized { summary: Some("SUMMARY".to_string()) }, ts(0)) {
        SessionAction::Verify { summary, transcript, activities } => {
            assert_eq!(summary, "SUMMARY");
            assert_eq!(transcript, "今日は いい天気");
            assert_eq!(activities, "[12:00:00] P\n");
        }
        other => panic!("unexpected: {:?}", other),
    }
    match run.advance(SessionEvent::Verified, ts(0)) {
        SessionAction::SaveSummary { path, content } => {
            assert_eq!(path, "data/summaries/20240101_summary.txt");
            assert_eq!(content, "SUMMARY");
        }
        other => panic!("unexpected: {:?}", other),
    }
    match run.advance(SessionEvent::Saved { ok: true }, ts(0)) {
        SessionAction::Transcode { file_path } => assert_eq!(file_path, "rec/20240101_120000.wav"),
        other => panic!("unexpected: {:?}", other),
    }
    match run.advance(SessionEvent::Transcoded { ok: false }, ts(0)) {
        SessionAction::Transcribe { file_path } => assert_eq!(file_path, "rec/20240102_080000.opus"),
        other => panic!("unexpected: {:?}", other),
    }
    run.advance(SessionEvent::Transcribed { transcript: Some("t".to_string()) }, ts(0));
    run.advance(SessionEvent::ActivityFound { events: Some(Vec::new()) }, ts(0));
    run.advance(SessionEvent::Summarized { summary: Some("s".to_string()) }, ts(0));
    run.advance(SessionEvent::Verified, ts(0));
    assert!(matches!(run.advance(SessionEvent::Saved { ok: true }, ts(0)), SessionAction::Complete));
    assert_eq!(run.stage(), Stage::Finished);
    assert!(matches!(run.advance(SessionEvent::Begin, ts(0)), SessionAction::Complete));
}

#[test]
fn session_run_without_files_completes_at_once() {
    let mut run = run_for(&[]);
    assert!(matches!(run.advance(SessionEvent::Begin, ts(0)), SessionAction::Complete));
    assert_eq!(run.stage(), Stage::Finished);
}

#[test]
fn session_run_fails_on_a_failed_call() {
    let mut run = run_for(&["a.wav"]);
    run.advance(SessionEvent::Begin, ts(0));
    assert!(matches!(run.advance(SessionEvent::Transcribed { transcript: None }, ts(0)), SessionAction::Fail));
    assert_eq!(run.stage(), Stage::Failed);
    assert!(matches!(run.advance(SessionEvent::Verified, ts(0)), SessionAction::Fail));

    let mut run = run_for(&["a.wav"]);
    run.advance(SessionEvent::Begin, ts(0));
    run.advance(SessionEvent::Transcribed { transcript: Some("t".to_string()) }, ts(0));
    assert!(matches!(run.advance(SessionEvent::ActivityFound { events: None }, ts(0)), SessionAction::Fail));

    let mut run = run_for(&["a.wav"]);
    run.advance(SessionEvent::Begin, ts(0));
    run.advance(SessionEvent::Transcribed { transcript: Some("t".to_string()) }, ts(0));
    run.advance(SessionEvent::ActivityFound { events: Some(Vec::new()) }, ts(0));
    assert!(matches!(run.advance(SessionEvent::Summarized { summary: None }, ts(0)), SessionAction::Fail));

    let mut run = run_for(&["a.wav"]);
    run.advance(SessionEvent::Begin, ts(0));
    run.advance(SessionEvent::Transcribed { transcript: Some("t".to_string()) }, ts(0));
    run.advance(SessionEvent::ActivityFound { events: Some(Vec::new()) }, ts(0));
    run.advance(SessionEvent::Summarized { summary: Some("s".to_string()) }, ts(0));
    run.advance(SessionEvent::Verified, ts(0));
    assert!(matches!(run.advance(SessionEvent::Saved { ok: false }, ts(0)), SessionAction::Fail));
}

#[test]
fn session_run_fails_on_an_event_out_of_turn() {
    let mut run = run_for(&["a.wav"]);
    assert!(matches!(run.advance(SessionEvent::Verified, ts(0)), SessionAction::Fail));
    let mut run = run_for(&["a.wav"]);
    run.advance(SessionEvent::Begin, ts(0));
    assert!(matches!(run.advance(SessionEvent::Saved { ok: true }, ts(0)), SessionAction::Fail));
    assert_eq!(run.stage(), Stage::Failed);
}
