use vlog::trigger::{shutdown, step, TriggerAction, TriggerSettings, TriggerState};

fn settings(start: u64, grace: u64, min: u64) -> TriggerSettings {
    TriggerSettings { start_debounce_secs: start, stop_grace_secs: grace, min_recording_secs: min }
}

/// Runs the trigger over `(second, present)` samples and returns the seconds
/// at which a capture started and stopped, and the state at the end.
fn run(s: &TriggerSettings, samples: &[(u64, bool)]) -> (Vec<u64>, Vec<u64>, TriggerState) {
    let mut state = TriggerState::Idle;
    let mut starts = Vec::new();
    let mut stops = Vec::new();
    for &(sec, present) in samples {
        let (next, action) = step(s, state, sec * 1000, present);
        state = next;
        match action {
            TriggerAction::StartCapture => starts.push(sec),
            TriggerAction::StopCapture => stops.push(sec),
            TriggerAction::Hold => {}
        }
    }
    (starts, stops, state)
}

#[test]
fn flicker_shorter_than_debounce_starts_nothing() {
    let s = settings(5, 10, 60);
    let samples = [(0, true), (1, true), (2, true), (3, false), (4, false), (5, false), (6, false)];
    let (starts, stops, state) = run(&s, &samples);
    assert!(starts.is_empty());
    assert!(stops.is_empty());
    assert_eq!(state, TriggerState::Idle);
}

#[test]
fn start_after_debounce_and_stop_after_grace() {
    let s = settings(2, 3, 5);
    let mut samples = Vec::new();
    for t in 0..10 {
        samples.push((t, true));
    }
    for t in 10..16 {
        samples.push((t, false));
    }
    let (starts, stops, state) = run(&s, &samples);
    assert_eq!(starts, vec![2]);
    assert_eq!(stops, vec![13]);
    assert_eq!(state, TriggerState::Idle);
}

#[test]
fn presence_back_before_grace_keeps_recording() {
    let s = settings(2, 3, 5);
    let mut samples = Vec::new();
    for t in 0..4 {
        samples.push((t, true));
    }
    samples.push((4, false));
    samples.push((5, false));
    for t in 6..12 {
        samples.push((t, true));
    }
    let (starts, stops, state) = run(&s, &samples);
    assert_eq!(starts, vec![2]);
    assert!(stops.is_empty());
    assert_eq!(state, TriggerState::Recording { since: 2000 });
}

#[test]
fn stop_waits_for_minimum_duration() {
    let s = settings(0, 1, 10);
    let samples = [(0, true), (1, true), (2, false), (3, false), (4, false), (11, false)];
    let (starts, stops, _) = run(&s, &samples);
    assert_eq!(starts, vec![1]);
    assert_eq!(stops, vec![11]);
}

#[test]
fn idle_arms_on_presence_and_stays_on_absence() {
    let s = settings(2, 3, 5);
    assert_eq!(step(&s, TriggerState::Idle, 7000, false), (TriggerState::Idle, TriggerAction::Hold));
    assert_eq!(
        step(&s, TriggerState::Idle, 7000, true),
        (TriggerState::ArmedForStart { since: 7000 }, TriggerAction::Hold)
    );
}

#[test]
fn elapsed_time_counts_whole_seconds() {
    let s = settings(2, 3, 5);
    let armed = TriggerState::ArmedForStart { since: 1000 };
    assert_eq!(step(&s, armed, 2999, true), (armed, TriggerAction::Hold));
    assert_eq!(
        step(&s, armed, 3000, true),
        (TriggerState::Recording { since: 3000 }, TriggerAction::StartCapture)
    );
    assert_eq!(step(&s, armed, 500, true), (armed, TriggerAction::Hold));
}

#[test]
fn shutdown_stops_a_running_capture_without_checks() {
    assert_eq!(
        shutdown(TriggerState::Recording { since: 10 }),
        (TriggerState::Idle, TriggerAction::StopCapture)
    );
    assert_eq!(
        shutdown(TriggerState::ArmedForStop { since: 20, recording_since: 10 }),
        (TriggerState::Idle, TriggerAction::StopCapture)
    );
    assert_eq!(shutdown(TriggerState::Idle), (TriggerState::Idle, TriggerAction::Hold));
    assert_eq!(
        shutdown(TriggerState::ArmedForStart { since: 10 }),
        (TriggerState::Idle, TriggerAction::Hold)
    );
}
