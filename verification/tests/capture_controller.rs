use vlog::capture::{
    provisional_path, select_config, select_device, CaptureController, CaptureError,
    CaptureRequest, SampleFormat, StartOutcome, SupportedConfig,
};

fn config(channels: u16, min: u32, max: u32, format: SampleFormat) -> SupportedConfig {
    SupportedConfig { channels, min_sample_rate: min, max_sample_rate: max, format }
}

fn request() -> CaptureRequest {
    CaptureRequest { sample_rate: 16000, channels: 1 }
}

fn good_configs() -> Vec<SupportedConfig> {
    vec![
        config(2, 8000, 48000, SampleFormat::F32),
        config(1, 44100, 48000, SampleFormat::I16),
        config(1, 8000, 48000, SampleFormat::Other),
        config(1, 8000, 16000, SampleFormat::I16),
        config(1, 16000, 16000, SampleFormat::F32),
    ]
}

#[test]
fn select_config_takes_first_that_serves() {
    assert_eq!(select_config(&good_configs(), &request()), Ok(3));
}

#[test]
fn select_config_fails_fast_without_fallback() {
    let configs = vec![
        config(2, 8000, 48000, SampleFormat::F32),
        config(1, 44100, 48000, SampleFormat::I16),
        config(1, 8000, 48000, SampleFormat::Other),
    ];
    assert_eq!(
        select_config(&configs, &request()),
        Err(CaptureError::UnsupportedConfig { sample_rate: 16000, channels: 1 })
    );
    assert_eq!(
        select_config(&Vec::new(), &request()),
        Err(CaptureError::UnsupportedConfig { sample_rate: 16000, channels: 1 })
    );
}

#[test]
fn select_config_rate_bounds_are_inclusive() {
    let r = request();
    assert_eq!(select_config(&vec![config(1, 16000, 16000, SampleFormat::I16)], &r), Ok(0));
    assert!(select_config(&vec![config(1, 16001, 48000, SampleFormat::I16)], &r).is_err());
    assert!(select_config(&vec![config(1, 8000, 15999, SampleFormat::I16)], &r).is_err());
}

#[test]
fn select_device_prefers_name_match_then_default() {
    let names = vec!["Speakers".to_string(), "USB Microphone".to_string(), "Microphone 2".to_string()];
    assert_eq!(select_device(&names, Some("Microphone"), Some(0)), Some(1));
    assert_eq!(select_device(&names, Some("Headset"), Some(0)), Some(0));
    assert_eq!(select_device(&names, Some("Headset"), None), None);
    assert_eq!(select_device(&names, None, Some(2)), Some(2));
    assert_eq!(select_device(&names, None, None), None);
    assert_eq!(select_device(&names, Some(""), Some(2)), Some(0));
}

#[test]
fn provisional_path_adds_part_suffix() {
    assert_eq!(provisional_path("data/recordings/20240101_120000.wav"), "data/recordings/20240101_120000.wav.part");
    assert_eq!(provisional_path(""), ".part");
}

#[test]
fn start_twice_while_active_spawns_one_producer() {
    let mut c = CaptureController::new();
    assert!(!c.is_active());
    let first = c.start("rec/a.wav", 100, &request(), &good_configs());
    match first {
        Ok(StartOutcome::Spawn { provisional_path, config_index }) => {
            assert_eq!(provisional_path, "rec/a.wav.part");
            assert_eq!(config_index, 3);
        }
        other => panic!("unexpected: {:?}", other),
    }
    assert!(c.is_active());
    assert_eq!(c.current_file(), Some("rec/a.wav".to_string()));
    let second = c.start("rec/b.wav", 200, &request(), &Vec::new());
    assert!(matches!(second, Ok(StartOutcome::AlreadyActive)));
    assert!(c.is_active());
    assert_eq!(c.current_file(), Some("rec/a.wav".to_string()));
}

#[test]
fn start_with_unsupported_config_fails_and_stays_idle() {
    let mut c = CaptureController::new();
    let out = c.start("rec/a.wav", 100, &request(), &Vec::new());
    assert!(matches!(
        out,
        Err(CaptureError::UnsupportedConfig { sample_rate: 16000, channels: 1 })
    ));
    assert!(!c.is_active());
    assert_eq!(c.current_file(), None);
}

#[test]
fn stop_returns_none_when_nothing_is_active() {
    let mut c = CaptureController::new();
    assert!(c.stop().is_none());
}

#[test]
fn stop_names_the_rename_and_ends_the_session() {
    let mut c = CaptureController::new();
    c.start("rec/a.wav", 100, &request(), &good_configs()).unwrap();
    let f = c.stop().expect("a session was active");
    assert_eq!(f.provisional_path, "rec/a.wav.part");
    assert_eq!(f.output_path, "rec/a.wav");
    assert!(!c.is_active());
    assert!(c.stop().is_none());
    assert!(matches!(
        c.start("rec/c.wav", 300, &request(), &good_configs()),
        Ok(StartOutcome::Spawn { .. })
    ));
}
