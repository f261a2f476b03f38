use cfph_launcher::process::{
    build_summary, classify_service_state, clean_exe_name, collect_vanguard_processes,
    is_vanguard_process, vanguard_detected, ProcessEntry, ServiceState, SERVICE_RUNNING_STATE,
    SERVICE_STOPPED_STATE,
};

/// A name as the process snapshot stores it: UTF-16 in a 260-unit buffer.
fn exe_buffer(name: &str) -> Vec<u16> {
    let mut v: Vec<u16> = name.encode_utf16().collect();
    v.resize(260, 0);
    v
}

#[test]
fn vanguard_executables_are_recognised() {
    assert!(is_vanguard_process(&exe_buffer("vgc.exe")));
    assert!(is_vanguard_process(&exe_buffer("vgtray.exe")));
    assert!(is_vanguard_process(&exe_buffer("VGC.EXE")));
    assert!(is_vanguard_process(&exe_buffer("VgTray.Exe")));
}

#[test]
fn trailing_whitespace_before_the_terminator_is_ignored() {
    assert!(is_vanguard_process(&exe_buffer("vgc.exe \t")));
}

#[test]
fn other_executables_are_not_vanguard() {
    assert!(!is_vanguard_process(&exe_buffer("explorer.exe")));
    assert!(!is_vanguard_process(&exe_buffer("svgc.exe")));
    assert!(!is_vanguard_process(&exe_buffer("vgc.exe2")));
    assert!(!is_vanguard_process(&exe_buffer(" vgc.exe")));
    assert!(!is_vanguard_process(&exe_buffer("vgk.exe")));
    assert!(!is_vanguard_process(&exe_buffer("")));
}

#[test]
fn leftovers_after_the_terminator_are_ignored() {
    let mut buf = exe_buffer("vgc.exe");
    buf[8] = 'x' as u16;
    assert!(is_vanguard_process(&buf));
    let mut stale = exe_buffer("vgtray.exe");
    for (i, u) in "vgc.exe".encode_utf16().chain(std::iter::once(0)).enumerate() {
        stale[i] = u;
    }
    assert!(is_vanguard_process(&stale));
    let mut before = exe_buffer("svchost.exe");
    before[3] = 0;
    assert!(!is_vanguard_process(&before));
}

#[test]
fn clean_name_matches_std_processing() {
    for name in ["vgtray.exe  ", "System", "a\u{1F600}b.exe"] {
        let buf = exe_buffer(name);
        let end = buf.iter().position(|u| *u == 0).unwrap_or(buf.len());
        let expected = String::from_utf16_lossy(&buf[..end]);
        let expected = expected.trim_end();
        let ours: String = clean_exe_name(&buf).iter().collect();
        assert_eq!(ours, expected);
    }
}

#[test]
fn collected_processes_keep_snapshot_order_and_clean_names() {
    let entries = vec![
        ProcessEntry { pid: 4, exe_file: exe_buffer("System") },
        ProcessEntry { pid: 812, exe_file: exe_buffer("VGTRAY.EXE ") },
        ProcessEntry { pid: 900, exe_file: exe_buffer("notepad.exe") },
        ProcessEntry { pid: 77, exe_file: exe_buffer("vgc.exe") },
    ];
    let found = collect_vanguard_processes(&entries);
    assert_eq!(found, vec![(812, "VGTRAY.EXE".to_string()), (77, "vgc.exe".to_string())]);
}

#[test]
fn no_entries_no_processes() {
    assert!(collect_vanguard_processes(&Vec::new()).is_empty());
}

#[test]
fn service_state_constants_match_win32() {
    assert_eq!(SERVICE_STOPPED_STATE, 1);
    assert_eq!(SERVICE_RUNNING_STATE, 4);
}

#[test]
fn only_a_stopped_service_counts_as_stopped() {
    assert_eq!(classify_service_state(1), ServiceState::Stopped);
    assert_eq!(classify_service_state(4), ServiceState::Running);
    assert_eq!(classify_service_state(2), ServiceState::Running);
    assert_eq!(classify_service_state(3), ServiceState::Running);
    assert_eq!(classify_service_state(7), ServiceState::Running);
    assert_eq!(classify_service_state(0), ServiceState::Running);
}

#[test]
fn detection_needs_a_process_or_a_running_driver() {
    let none: Vec<(u32, String)> = Vec::new();
    let one = vec![(12u32, "vgc.exe".to_string())];
    assert!(!vanguard_detected(&none, None));
    assert!(!vanguard_detected(&none, Some(ServiceState::Stopped)));
    assert!(vanguard_detected(&none, Some(ServiceState::Running)));
    assert!(vanguard_detected(&one, None));
    assert!(vanguard_detected(&one, Some(ServiceState::Stopped)));
}

#[test]
fn summary_lists_processes_then_the_driver() {
    let procs = vec![(1234u32, "vgc.exe".to_string()), (5678u32, "vgtray.exe".to_string())];
    assert_eq!(
        build_summary(&procs, Some(ServiceState::Running)),
        vec![
            "  Process: vgc.exe (PID 1234)".to_string(),
            "  Process: vgtray.exe (PID 5678)".to_string(),
            "  Kernel driver: vgk (active)".to_string(),
        ]
    );
    assert_eq!(build_summary(&procs[..1], Some(ServiceState::Stopped)), vec![
        "  Process: vgc.exe (PID 1234)".to_string()
    ]);
    assert!(build_summary(&[], None).is_empty());
    assert_eq!(build_summary(&[], Some(ServiceState::Running)), vec![
        "  Kernel driver: vgk (active)".to_string()
    ]);
}
