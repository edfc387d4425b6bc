use vlog::ai::chapter_prompt;
use vlog::doctor::{DoctorUseCase, Finding};
use vlog::domain::{ContentGenerator, Curator, LifeEvent, SourceType};
use vlog::health::{HealthMonitor, HealthVerdict, HEALTH_CHECK_INTERVAL_SECS, HEALTH_THRESHOLD_PERCENT};
use vlog::image::{PythonImageGenerator, UV_CMD};
use vlog::llm::{endpoint, mime_type_for, strip_code_fence, NoopGemini};
use vlog::novel::{BuildNovelUseCase, ChapterVerdict};
use vlog::pending::PendingUseCase;
use vlog::prompts::{CuratorPrompts, NovelizerPrompts, Prompts};
use vlog::settings::{components, database_url, host_path, PathSettings, ProcessSettings};
use vlog::setup::{LocalEnvironment, CONFIG_PATH};
use vlog::status::{FileStat, StatusReport, StatusUseCase};
use vlog::task::{Task, TaskStatus, Timestamp};
use vlog::task_store::TaskRepository;
use vlog::transcode::{AfterEncoding, TranscodeUseCase, FFMPEG_CMD};
use vlog::transcription::{Transcriber, TranscriptionError};
use vlog::trigger::TriggerSettings;
use vlog::watcher::FileWatcher;

#[test]
fn source_type_names() {
    for s in [SourceType::WindowsAudio, SourceType::WindowsActivity, SourceType::UbuntuMonitor, SourceType::System] {
        assert_eq!(SourceType::from_name(s.name()), s);
    }
    assert_eq!(SourceType::WindowsActivity.name(), "WindowsActivity");
    assert_eq!(SourceType::from_name("windowsactivity"), SourceType::System);
    assert_eq!(SourceType::from_name(""), SourceType::System);
}

#[test]
fn new_life_event_gets_id_and_time() {
    let e = LifeEvent::new(SourceType::UbuntuMonitor, "{\"k\":1}".to_string());
    assert_eq!(e.source, SourceType::UbuntuMonitor);
    assert_eq!(e.payload, "{\"k\":1}");
    assert_eq!(e.id.len(), 36);
    assert!(e.timestamp.secs > 1_600_000_000);
}

#[test]
fn noop_model_generates_nothing() {
    let g = NoopGemini::new();
    assert_eq!(g.generate_content("prompt"), "");
    assert_eq!(g.transcribe("a.wav"), "");
    assert_eq!(g.summarize_session("t", "a"), "");
    let e = g.evaluate("s", "n");
    assert_eq!((e.faithfulness_score, e.quality_score, e.reasoning.as_str()), (0, 0, "Gemini disabled"));
    let e = g.verify_summary("s", "t", "a");
    assert_eq!((e.faithfulness_score, e.quality_score, e.reasoning.as_str()), (0, 0, "Gemini disabled"));
}

#[test]
fn mime_type_by_extension() {
    assert_eq!(mime_type_for("a/b.wav"), "audio/wav");
    assert_eq!(mime_type_for("a/b.flac"), "audio/flac");
    assert_eq!(mime_type_for("a/b.mp3"), "audio/mp3");
    assert_eq!(mime_type_for("a/b.ogg"), "audio/wav");
    assert_eq!(mime_type_for("a/b"), "audio/wav");
    assert_eq!(mime_type_for("a/b.FLAC"), "audio/wav");
}

#[test]
fn code_fence_is_stripped() {
    assert_eq!(strip_code_fence("```json\n{\"a\":1}\n```"), "{\"a\":1}");
    assert_eq!(strip_code_fence("{\"a\":1}"), "{\"a\":1}");
    assert_eq!(strip_code_fence("```json```json x ``````"), "x");
    assert_eq!(strip_code_fence("  ```json x```"), "```json x");
    assert_eq!(strip_code_fence(""), "");
}

#[test]
fn endpoint_address() {
    assert_eq!(
        endpoint("gemini-pro", "KEY"),
        "https://generativelanguage.googleapis.com/v1beta/models/gemini-pro:generateContent?key=KEY"
    );
}

#[test]
fn templates_are_filled_in() {
    let n = NovelizerPrompts { template: "A {novel_so_far} B {today_summary} C {novel_so_far}".to_string() };
    assert_eq!(n.chapter_prompt("SUM", "CTX"), "A CTX B SUM C CTX");
    let c = CuratorPrompts { evaluate: "{summary}|{novel}".to_string(), session_summary: "{transcript}/{activity_context}".to_string() };
    assert_eq!(c.evaluate_prompt("s", "n"), "s|n");
    assert_eq!(c.evaluate_prompt("{novel}", "n"), "n|n");
    assert_eq!(c.session_summary_prompt("t", "a"), "t/a");
    let p = Prompts { curator: c, novelizer: n, transcription: "x".to_string(), summary_verification: "{summary}{transcript}{activities}{other}".to_string() };
    assert_eq!(p.verification_prompt("1", "2", "3"), "123{other}");
}

#[test]
fn built_in_chapter_prompt() {
    assert_eq!(
        chapter_prompt("SUM", "SOFAR"),
        "これまでのあらすじ:\nSOFAR\n\n今日の出来事要約:\nSUM\n\nこれらを元に、日常系VLogの一部として小説の1章を執筆してください。読者が情景を思い浮かべられるよう、情緒豊かな表現を心がけてください。"
    );
}

#[test]
fn watcher_classifies_new_files() {
    let w = FileWatcher::new("data/cloud_sync");
    assert_eq!(w.path(), "data/cloud_sync");
    assert_eq!(w.task_type_for("in/a.wav"), Some("process_session"));
    assert_eq!(w.task_type_for("in/a.FLAC"), Some("process_session"));
    assert_eq!(w.task_type_for("in/A.Wav"), Some("process_session"));
    assert_eq!(w.task_type_for("in/log.JSONL"), Some("sync_activity"));
    assert_eq!(w.task_type_for("in/log.json"), None);
    assert_eq!(w.task_type_for("in/wav"), None);
    assert_eq!(w.task_type_for("in/a.wav.part"), None);
}

#[test]
fn watcher_queues_one_task_per_input_file() {
    let w = FileWatcher::new("data/cloud_sync");
    let mut repo = TaskRepository::new("t.json");
    let t = w.on_created(&mut repo, "in/a.WAV").unwrap();
    assert_eq!(t.task_type, "process_session");
    assert_eq!(t.file_paths, vec!["in/a.WAV".to_string()]);
    assert_eq!(t.status, TaskStatus::Pending);
    let t = w.on_created(&mut repo, "in/log.jsonl").unwrap();
    assert_eq!(t.task_type, "sync_activity");
    assert!(w.on_created(&mut repo, "in/readme.md").is_none());
    assert_eq!(repo.len(), 2);
}

#[test]
fn status_report_counts() {
    let s = StatusUseCase::new();
    let mk = |id: &str, secs: i64, status: TaskStatus| {
        let mut t = Task::new(id.to_string(), Timestamp { secs, nanos: 0 }, "process_session", vec![]);
        t.status = status;
        t
    };
    let tasks = vec![
        mk("a", 100, TaskStatus::Pending),
        mk("b", 200, TaskStatus::Processing),
        mk("c", 300, TaskStatus::Pending),
        mk("d", 50, TaskStatus::Completed),
        mk("e", 199, TaskStatus::Failed),
    ];
    assert_eq!(
        s.summarize(&tasks, Timestamp { secs: 200, nanos: 0 }),
        StatusReport { pending: 2, processing: 1, created_recently: 2 }
    );
    assert_eq!(
        s.summarize(&tasks, Timestamp { secs: 200, nanos: 1 }),
        StatusReport { pending: 2, processing: 1, created_recently: 1 }
    );
    assert_eq!(
        s.summarize(&Vec::new(), Timestamp { secs: 0, nanos: 0 }),
        StatusReport { pending: 0, processing: 0, created_recently: 0 }
    );
}

#[test]
fn status_counts_recent_files_and_bytes() {
    let s = StatusUseCase::new();
    let files = vec![
        FileStat { modified_secs: 100, len: 10, is_file: true },
        FileStat { modified_secs: 99, len: 20, is_file: true },
        FileStat { modified_secs: 500, len: 40, is_file: false },
        FileStat { modified_secs: 500, len: 80, is_file: true },
    ];
    assert_eq!(s.count_recent_files(&files, 100), 3);
    assert_eq!(s.recent_capture_bytes(&files, 100), Some(90));
    assert_eq!(s.recent_capture_bytes(&files, 501), Some(0));
    let big = vec![
        FileStat { modified_secs: 1, len: u64::MAX, is_file: true },
        FileStat { modified_secs: 1, len: 1, is_file: true },
    ];
    assert_eq!(s.recent_capture_bytes(&big, 0), None);
    assert_eq!(s.recent_capture_bytes(&big[..1].to_vec(), 0), Some(u64::MAX));
}

#[test]
fn pending_chapter_paths() {
    let p = PendingUseCase::new();
    assert_eq!(p.novel_path("20240101"), "data/novels/20240101.md");
    assert_eq!(p.chapter_path("data/summaries/20240101_summary.txt"), Some("data/novels/20240101.md".to_string()));
    assert_eq!(p.chapter_path("data/summaries/20240101.txt"), Some("data/novels/20240101.md".to_string()));
    assert_eq!(p.chapter_path("data/summaries/20240101_summary.md"), None);
    assert_eq!(p.chapter_path("data/summaries/txt"), None);
}

#[test]
fn transcode_paths_and_arguments() {
    let t = TranscodeUseCase::new();
    assert_eq!(FFMPEG_CMD, "ffmpeg");
    assert_eq!(t.output_path("rec/a.wav"), "rec/a.opus");
    assert_eq!(t.output_path("rec.d/a"), "rec.d/a.opus");
    assert_eq!(t.output_path("a.tar.gz"), "a.tar.opus");
    assert_eq!(t.output_path("rec/.hidden"), "rec/.hidden.opus");
    assert_eq!(
        t.arguments("in.wav", "out.opus"),
        vec![
            "-y", "-i", "in.wav", "-c:a", "libopus", "-ar", "16000", "-ac", "1", "-application",
            "voip", "-vbr", "on", "-compression_level", "10", "-b:a", "24k", "out.opus"
        ]
    );
    assert_eq!(t.after_encoding(true), AfterEncoding::DeleteSource);
    assert_eq!(t.after_encoding(false), AfterEncoding::KeepSource);
}

#[test]
fn transcriber_media_types() {
    let t = Transcriber::new();
    assert_eq!(t.media_type("a.wav"), Ok("audio/wav"));
    assert_eq!(t.media_type("a.mp3"), Ok("audio/mpeg"));
    assert_eq!(t.media_type("a.m4a"), Ok("audio/mp4"));
    assert_eq!(t.media_type("a.flac"), Ok("audio/flac"));
    assert_eq!(t.media_type("a.ogg"), Err(TranscriptionError::UnsupportedFileType));
    assert_eq!(t.media_type("a"), Err(TranscriptionError::UnsupportedFileType));
    assert_eq!(t.transcript_path("rec/20240101_120000.wav"), "data/transcripts/20240101_120000.txt");
}

#[test]
fn setup_answers_and_config() {
    let e = LocalEnvironment::new();
    assert_eq!(CONFIG_PATH, "data/config.yaml");
    assert_eq!(e.answer("  vrchat \n", "d"), "vrchat");
    assert_eq!(e.answer("\n", "d"), "d");
    assert_eq!(e.answer("", ""), "");
    assert_eq!(
        e.directories(),
        vec![
            "data/recordings", "data/transcripts", "data/summaries", "data/novels", "data/photos",
            "data/archives", "data/recordings/partial", "data/cloud_sync", "logs", "journals",
            "data/tasks"
        ]
    );
    assert_eq!(
        e.config_text("VRChat,Discord", "5", ""),
        "process:\n  names: \"VRChat,Discord\"\n  check_interval: 5\npaths:\n  recording_dir: \"data/recordings\"\naudio:\n  device_name: null\n  silence_threshold: 0.02\ntrigger:\n  start_debounce_secs: 2\n  stop_grace_secs: 10\n  min_recording_secs: 60\n"
    );
    assert_eq!(
        e.config_text("a", "7", "USB Mic"),
        "process:\n  names: \"a\"\n  check_interval: 7\npaths:\n  recording_dir: \"data/recordings\"\naudio:\n  device_name: \"USB Mic\"\n  silence_threshold: 0.02\ntrigger:\n  start_debounce_secs: 2\n  stop_grace_secs: 10\n  min_recording_secs: 60\n"
    );
}

#[test]
fn health_verdicts() {
    let h = HealthMonitor::new();
    assert_eq!(HEALTH_CHECK_INTERVAL_SECS, 30);
    assert_eq!(HEALTH_THRESHOLD_PERCENT, 90);
    assert!(h.memory_high(90, 100));
    assert!(!h.memory_high(89, 100));
    assert!(h.memory_high(9, 10));
    assert!(!h.memory_high(899, 1000));
    assert!(!h.memory_high(0, 0));
    assert!(!h.memory_high(5, 0));
    assert!(h.memory_high(u64::MAX, u64::MAX));
    assert!(!h.memory_high(u64::MAX / 2, u64::MAX));
    assert_eq!(h.judge(false, 10, 100), HealthVerdict::Healthy);
    assert_eq!(h.judge(true, 10, 100), HealthVerdict::Restart);
    assert_eq!(h.judge(false, 95, 100), HealthVerdict::Restart);
}

#[test]
fn doctor_findings() {
    let d = DoctorUseCase::new();
    assert_eq!(
        d.directories(),
        vec!["data/recordings", "data/tasks", "data/summaries", "data/novels", "data/photos", "logs", "journals"]
    );
    assert_eq!(d.directory_finding(true), Finding::Passed);
    assert_eq!(d.directory_finding(false), Finding::Warned);
    assert_eq!(d.tool_finding(true), Finding::Passed);
    assert_eq!(d.tool_finding(false), Finding::Failed);
}

#[test]
fn novel_rules() {
    let b = BuildNovelUseCase::new();
    assert!(b.has_prohibited_word("I put on my HMD today"));
    assert!(b.has_prohibited_word("a Virtual world"));
    assert!(b.has_prohibited_word("the controller broke"));
    assert!(b.has_prohibited_word("un livre"));
    assert!(!b.has_prohibited_word("over"));
    assert!(!b.has_prohibited_word("今日は晴れ"));
    assert!(!b.has_prohibited_word(""));
    assert_eq!(b.judge(1, false, 3), ChapterVerdict::Accept);
    assert_eq!(b.judge(3, false, 5), ChapterVerdict::Accept);
    assert_eq!(b.judge(1, false, 2), ChapterVerdict::Retry);
    assert_eq!(b.judge(2, true, 5), ChapterVerdict::Retry);
    assert_eq!(b.judge(3, true, 5), ChapterVerdict::KeepLast);
    assert_eq!(b.judge(3, false, 0), ChapterVerdict::KeepLast);
    assert_eq!(b.novel_content("", "ch1"), "ch1");
    assert_eq!(b.novel_content("ch1", "ch2"), "ch1\n\nch2");
    assert_eq!(b.photo_path("20240101"), "data/photos/20240101.png");
}

#[test]
fn image_script_arguments() {
    let g = PythonImageGenerator::new();
    assert_eq!(UV_CMD, "uv");
    assert_eq!(
        g.arguments("a cat", "data/photos/x.png"),
        vec!["run", "src/scripts/image_gen.py", "--prompt", "a cat", "--output", "data/photos/x.png"]
    );
}

#[test]
fn settings_defaults_and_names() {
    let p = ProcessSettings::defaults();
    assert_eq!(p.names, "VRChat,Discord");
    assert_eq!(p.check_interval, 5);
    assert_eq!(p.process_names(), vec!["VRChat", "Discord"]);
    let p = ProcessSettings { names: " a , b,, c ".to_string(), check_interval: 1 };
    assert_eq!(p.process_names(), vec!["a", "b", "", "c"]);
    let p = ProcessSettings { names: "".to_string(), check_interval: 1 };
    assert_eq!(p.process_names(), vec![""]);
    let d = PathSettings::defaults();
    assert_eq!(d.recording_dir, "data/recordings");
    assert_eq!(d.db_path, "vlog.db");
    assert_eq!(
        TriggerSettings::defaults(),
        TriggerSettings { start_debounce_secs: 2, stop_grace_secs: 10, min_recording_secs: 60 }
    );
}

#[test]
fn database_url_keeps_sqlite_addresses() {
    assert_eq!(database_url("sqlite:vlog.db"), "sqlite:vlog.db");
    assert_eq!(database_url("sqlite::memory:"), "sqlite::memory:");
    assert_eq!(database_url("vlog.db"), "sqlite::memory:");
    assert_eq!(database_url(""), "sqlite::memory:");
}

#[test]
fn host_path_on_windows() {
    assert_eq!(host_path("/mnt/c/Users/me/rec", true, None), "C:\\Users\\me\\rec");
    assert_eq!(host_path("/mnt/d", true, None), "D:\\");
    assert_eq!(host_path("/mnt//e//x/", true, None), "E:\\x");
    assert_eq!(host_path("/mnt/", true, None), "/mnt/");
    assert_eq!(host_path("/home/kafka/data/x.db", true, Some("c:\\work")), "C:\\Users\\kafka\\data\\x.db");
    assert_eq!(host_path("/home/kafka/data", true, None), "/home/kafka/data");
    assert_eq!(host_path("data/recordings", true, Some("c:\\work")), "data/recordings");
}

#[test]
fn host_path_elsewhere_is_the_path() {
    assert_eq!(host_path("/mnt/c/Users/me/rec", false, None), "/mnt/c/Users/me/rec");
    assert_eq!(host_path("/home/kafka/data", false, Some("c:\\work")), "/home/kafka/data");
}

#[test]
fn path_components_skip_empty_pieces() {
    let c: Vec<String> = components(&"/a//b/c/".chars().collect()).into_iter().map(|v| v.into_iter().collect()).collect();
    assert_eq!(c, vec!["a", "b", "c"]);
    assert!(components(&"///".chars().collect()).is_empty());
}

#[test]
fn transcriber_normalizes_and_picks_the_source() {
    let t = Transcriber::new();
    assert_eq!(
        t.normalize_arguments("in.mp3", "/tmp/n.wav"),
        vec!["-y", "-i", "in.mp3", "-ar", "16000", "-ac", "1", "-c:a", "libopus", "-b:a", "24k", "/tmp/n.wav"]
    );
    assert_eq!(t.source("a.xyz", Some("/tmp/n.wav")), Ok(("/tmp/n.wav".to_string(), "audio/wav")));
    assert_eq!(t.source("a.mp3", None), Ok(("a.mp3".to_string(), "audio/mpeg")));
    assert_eq!(t.source("a.xyz", None), Err(TranscriptionError::UnsupportedFileType));
}
