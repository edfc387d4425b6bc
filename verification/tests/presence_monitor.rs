use vlog::presence::{first_match, is_before, same_match, PresenceEdge, ProcessInfo, ProcessMonitor};

fn monitor() -> ProcessMonitor {
    ProcessMonitor::new(vec!["VRChat".to_string(), "Discord".to_string()])
}

fn process(name: &str, pid: u32, exe: Option<&str>) -> ProcessInfo {
    ProcessInfo { name: name.to_string(), pid, exe: exe.map(str::to_string) }
}

fn names(v: Vec<Vec<char>>) -> Vec<String> {
    v.into_iter().map(|w| w.into_iter().collect()).collect()
}

#[test]
fn targets_are_matched_in_lower_case() {
    let m = monitor();
    assert!(m.matches("vrchat.exe"));
    assert!(m.matches("my discord client"));
    assert!(!m.matches("VRChat"));
    assert!(!m.matches("firefox"));
    assert!(!ProcessMonitor::new(Vec::new()).matches("vrchat"));
}

#[test]
fn check_process_by_name_then_by_executable() {
    let m = monitor();
    assert_eq!(
        m.check_process(&process("VRChat.exe", 4242, Some("/games/vrchat/VRChat.exe"))),
        Some("linux:VRChat.exe (pid=4242)".to_string())
    );
    assert_eq!(
        m.check_process(&process("wine64", 7, Some("/opt/Discord/app"))),
        Some("linux:wine64 (pid=7, exe=/opt/Discord/app)".to_string())
    );
    assert_eq!(m.check_process(&process("bash", 1, Some("/bin/bash"))), None);
    assert_eq!(m.check_process(&process("bash", 1, None)), None);
    assert_eq!(
        m.check_process(&process("discord", 0, None)),
        Some("linux:discord (pid=0)".to_string())
    );
    assert_eq!(
        m.check_process(&process("discord", u32::MAX, None)),
        Some("linux:discord (pid=4294967295)".to_string())
    );
}

#[test]
fn check_processes_returns_first_match_in_table_order() {
    let m = monitor();
    let table = vec![
        process("bash", 1, None),
        process("Discord", 20, None),
        process("VRChat", 30, None),
    ];
    assert_eq!(m.check_processes(&table), Some("linux:Discord (pid=20)".to_string()));
    assert_eq!(m.check_processes(&Vec::new()), None);
    assert_eq!(m.check_processes(&vec![process("bash", 1, None)]), None);
}

#[test]
fn windows_targets_are_normalized_sorted_and_unique() {
    let m = ProcessMonitor::new(vec![
        "VRChat.exe".to_string(),
        "vrchat".to_string(),
        "C:\\Apps\\Discord.exe".to_string(),
        " /opt/zoom.exe.exe ".to_string(),
        ".exe".to_string(),
        "".to_string(),
        "abc".to_string(),
    ]);
    assert_eq!(names(m.normalized_windows_targets()), vec!["abc", "discord", "vrchat", "zoom"]);
    assert_eq!(
        m.host_query(),
        Some("Get-Process -Name abc,discord,vrchat,zoom -ErrorAction SilentlyContinue | Select-Object -ExpandProperty ProcessName".to_string())
    );
    assert_eq!(ProcessMonitor::new(vec![".exe".to_string()]).host_query(), None);
    assert_eq!(ProcessMonitor::new(Vec::new()).host_query(), None);
}

#[test]
fn dictionary_order_of_names() {
    let v = |s: &str| s.chars().collect::<Vec<char>>();
    assert!(is_before(&v("abc"), &v("abd")));
    assert!(is_before(&v("ab"), &v("abc")));
    assert!(is_before(&v(""), &v("a")));
    assert!(!is_before(&v("abc"), &v("abc")));
    assert!(!is_before(&v("b"), &v("abc")));
    assert!(!is_before(&v("a"), &v("")));
}

#[test]
fn host_answer_gives_first_process_name() {
    let m = monitor();
    assert_eq!(m.check_windows_output("\r\n  \r\nVRChat\r\nDiscord\r\n"), Some("windows:VRChat".to_string()));
    assert_eq!(m.check_windows_output("Discord"), Some("windows:Discord".to_string()));
    assert_eq!(m.check_windows_output(""), None);
    assert_eq!(m.check_windows_output(" \n\t\n"), None);
}

#[test]
fn foreground_window_matches_by_file_name() {
    let m = monitor();
    assert_eq!(
        m.check_native_windows("C:\\Program Files\\VRChat\\VRChat.exe"),
        Some("windows-native:vrchat.exe".to_string())
    );
    assert_eq!(m.check_native_windows("C:\\discord\\notepad.exe"), None);
}

#[test]
fn first_match_follows_priority_order() {
    assert_eq!(first_match(&vec![None, Some("b".to_string()), Some("c".to_string())]), Some("b".to_string()));
    assert_eq!(first_match(&vec![None, None]), None);
    assert_eq!(first_match(&Vec::new()), None);
}

#[test]
fn observe_reports_edges_and_switches() {
    let mut m = monitor();
    let (s, e) = m.observe(None);
    assert!(!s.present);
    assert_eq!(s.descriptor, None);
    assert_eq!(e, PresenceEdge::Steady);
    let (s, e) = m.observe(Some("linux:VRChat (pid=1)".to_string()));
    assert!(s.present);
    assert_eq!(s.descriptor, Some("linux:VRChat (pid=1)".to_string()));
    assert_eq!(e, PresenceEdge::Detected);
    let (_, e) = m.observe(Some("linux:VRChat (pid=1)".to_string()));
    assert_eq!(e, PresenceEdge::Steady);
    let (s, e) = m.observe(Some("linux:Discord (pid=2)".to_string()));
    assert!(s.present);
    assert_eq!(e, PresenceEdge::Switched);
    let (_, e) = m.observe(Some("linux:Discord (pid=2)".to_string()));
    assert_eq!(e, PresenceEdge::Steady);
    let (s, e) = m.observe(None);
    assert!(!s.present);
    assert_eq!(e, PresenceEdge::Lost);
    let (_, e) = m.observe(None);
    assert_eq!(e, PresenceEdge::Steady);
    let (_, e) = m.observe(Some("linux:Discord (pid=2)".to_string()));
    assert_eq!(e, PresenceEdge::Detected);
}

#[test]
fn same_match_compares_descriptors() {
    assert!(same_match(&None, &None));
    assert!(same_match(&Some("a".to_string()), &Some("a".to_string())));
    assert!(!same_match(&Some("a".to_string()), &Some("b".to_string())));
    assert!(!same_match(&Some("a".to_string()), &None));
    assert!(!same_match(&None, &Some("a".to_string())));
}
