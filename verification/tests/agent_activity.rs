use vlog::agent::{Activity, Agent, Transitions, HEARTBEAT_INTERVAL_SECS};

fn activity(ts: &str, app: &str) -> Activity {
    Activity {
        timestamp: ts.to_string(),
        app_name: app.to_string(),
        window_title: "w".to_string(),
        is_discord: false,
        is_vrchat: false,
    }
}

#[test]
fn annotate_marks_targets_by_executable_name() {
    let agent = Agent::new();
    let a = agent.annotate(activity("t", "Discord.exe"));
    assert!(a.is_discord && !a.is_vrchat);
    assert_eq!(agent.match_tag(&a), "DISCORD");
    let a = agent.annotate(activity("t", "C:\\Games\\VRCHAT.EXE"));
    assert!(!a.is_discord && a.is_vrchat);
    assert_eq!(agent.match_tag(&a), "VRCHAT");
    let a = agent.annotate(activity("t", "discord"));
    assert!(!a.is_discord && !a.is_vrchat);
    assert_eq!(agent.match_tag(&a), "NONE");
    assert_eq!(a.app_name, "discord");
    assert_eq!(a.timestamp, "t");
    assert_eq!(HEARTBEAT_INTERVAL_SECS, 60);
}

#[test]
fn idle_activity_has_no_window() {
    let a = Agent::idle_activity("now".to_string());
    assert_eq!(a.app_name, "Idle");
    assert_eq!(a.window_title, "No Active Window");
    assert_eq!(a.timestamp, "now");
    assert!(!a.is_discord && !a.is_vrchat);
}

#[test]
fn observe_reports_targets_found_and_lost() {
    let mut agent = Agent::new();
    let quiet = Transitions { lost_discord: false, lost_vrchat: false, found_discord: false, found_vrchat: false };
    let a = agent.annotate(activity("1", "notepad.exe"));
    assert_eq!(agent.observe(a), (quiet, true));
    let a = agent.annotate(activity("2", "Discord.exe"));
    assert_eq!(agent.observe(a), (Transitions { found_discord: true, ..quiet }, true));
    let a = agent.annotate(activity("2", "Discord.exe"));
    assert!(!agent.is_new(&a));
    assert_eq!(agent.observe(a), (quiet, false));
    let a = agent.annotate(activity("3", "VRChat.exe"));
    assert_eq!(
        agent.observe(a),
        (Transitions { lost_discord: true, found_vrchat: true, ..quiet }, true)
    );
    let a = agent.annotate(activity("4", "explorer.exe"));
    assert_eq!(agent.observe(a), (Transitions { lost_vrchat: true, ..quiet }, true));
}
