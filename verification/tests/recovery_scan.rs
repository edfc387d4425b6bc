use vlog::recovery::{enqueue_recovered, is_provisional_path, recover_path, recovery_plan};
use vlog::task::TaskStatus;
use vlog::task_store::TaskRepository;

#[test]
fn provisional_names_end_in_wav_part_or_flac_part() {
    assert!(is_provisional_path("rec/20240101_120000.wav.part"));
    assert!(is_provisional_path("rec/x.flac.part"));
    assert!(is_provisional_path(".wav.part"));
    assert!(!is_provisional_path("rec/x.wav"));
    assert!(!is_provisional_path("rec/x.part"));
    assert!(!is_provisional_path("rec/x.mp3.part"));
    assert!(!is_provisional_path("rec/x.wav.part.bak"));
    assert!(!is_provisional_path("wav.part"));
    assert!(!is_provisional_path(""));
}

#[test]
fn recover_path_strips_the_part_suffix() {
    let f = recover_path("rec/20240101_120000.wav.part").unwrap();
    assert_eq!(f.provisional_path, "rec/20240101_120000.wav.part");
    assert_eq!(f.output_path, "rec/20240101_120000.wav");
    let f = recover_path("録音.flac.part").unwrap();
    assert_eq!(f.output_path, "録音.flac");
    assert!(recover_path("rec/x.wav").is_none());
}

#[test]
fn one_provisional_file_yields_exactly_one_task() {
    let listing = vec![
        "rec/a.wav".to_string(),
        "rec/b.wav.part".to_string(),
        "rec/notes.txt".to_string(),
    ];
    let plan = recovery_plan(&listing);
    assert_eq!(plan.len(), 1);
    assert_eq!(plan[0].provisional_path, "rec/b.wav.part");
    assert_eq!(plan[0].output_path, "rec/b.wav");
    let mut repo = TaskRepository::new("t.json");
    for step in &plan {
        let task = enqueue_recovered(&mut repo, step);
        assert_eq!(task.task_type, "process_session");
        assert_eq!(task.file_paths, vec!["rec/b.wav".to_string()]);
        assert_eq!(task.status, TaskStatus::Pending);
    }
    let loaded = repo.load();
    assert_eq!(loaded.len(), 1);
    assert_eq!(loaded[0].file_paths, vec!["rec/b.wav".to_string()]);
    assert_eq!(loaded[0].task_type, "process_session");
}

#[test]
fn recovery_plan_keeps_listing_order_and_skips_the_rest() {
    let listing = vec![
        "z.flac.part".to_string(),
        "a.wav".to_string(),
        "m.wav.part".to_string(),
        "a.wav.part".to_string(),
    ];
    let plan = recovery_plan(&listing);
    let outs: Vec<&str> = plan.iter().map(|f| f.output_path.as_str()).collect();
    assert_eq!(outs, vec!["z.flac", "m.wav", "a.wav"]);
    assert!(recovery_plan(&Vec::new()).is_empty());
    assert!(recovery_plan(&vec!["a.wav".to_string()]).is_empty());
}
