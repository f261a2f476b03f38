use cfph_launcher::launcher::{
    error_dialog_text, error_title, game_exe_name, is_error_line, launch_failure_text,
    launcher_step, line_text, resolve_game_path, service_name, warning_accepted, warning_text,
    window_title, GameLocation, GamePathProbe, LauncherAction, LauncherEvent, LauncherLine,
    LauncherPhase, VanguardService,
};
use cfph_launcher::process::ServiceState;

fn run(events: &[LauncherEvent]) -> (LauncherPhase, Vec<LauncherAction>) {
    let mut phase = LauncherPhase::Scanning;
    let mut all = Vec::new();
    for e in events {
        let (next, actions) = launcher_step(phase, *e);
        phase = next;
        all.extend(actions);
    }
    (phase, all)
}

#[test]
fn nothing_found_launches_at_once() {
    let (phase, actions) = run(&[LauncherEvent::Scanned { process_count: 0, vgk: Some(ServiceState::Stopped) }]);
    assert_eq!(phase, LauncherPhase::Finished);
    assert_eq!(actions, vec![
        LauncherAction::Print { line: LauncherLine::NoVanguard },
        LauncherAction::Print { line: LauncherLine::LaunchHeading },
        LauncherAction::LaunchGame,
    ]);
    let (_, actions) = run(&[LauncherEvent::Scanned { process_count: 0, vgk: None }]);
    assert!(actions.contains(&LauncherAction::LaunchGame));
}

#[test]
fn unreadable_process_list_ends_the_launcher() {
    let (phase, actions) = run(&[LauncherEvent::ScanFailed]);
    assert_eq!(phase, LauncherPhase::Finished);
    assert_eq!(actions, vec![LauncherAction::ReportScanError]);
}

#[test]
fn vanguard_found_goes_through_stop_warning_and_guide() {
    let (phase, actions) = run(&[
        LauncherEvent::Scanned { process_count: 2, vgk: Some(ServiceState::Running) },
        LauncherEvent::ServiceStopFinished,
        LauncherEvent::ServiceStopFinished,
        LauncherEvent::WarningAnswered { accepted: true },
        LauncherEvent::GuideClosed { launch: true },
    ]);
    assert_eq!(phase, LauncherPhase::Finished);
    assert_eq!(actions, vec![
        LauncherAction::Print { line: LauncherLine::VanguardDetected },
        LauncherAction::PrintSummary,
        LauncherAction::Print { line: LauncherLine::ServiceStopHeading },
        LauncherAction::StopService { service: VanguardService::Vgc },
        LauncherAction::StopService { service: VanguardService::Vgk },
        LauncherAction::Print { line: LauncherLine::GuideHeading },
        LauncherAction::ShowWarning,
        LauncherAction::RunGuide,
        LauncherAction::Print { line: LauncherLine::LaunchHeadingAfterGap },
        LauncherAction::LaunchGame,
    ]);
}

#[test]
fn running_driver_alone_counts_as_detection() {
    let (phase, _) = run(&[LauncherEvent::Scanned { process_count: 0, vgk: Some(ServiceState::Running) }]);
    assert_eq!(phase, LauncherPhase::StoppingVgc);
}

#[test]
fn declined_warning_exits_without_launch() {
    let (phase, actions) = run(&[
        LauncherEvent::Scanned { process_count: 1, vgk: None },
        LauncherEvent::ServiceStopFinished,
        LauncherEvent::ServiceStopFinished,
        LauncherEvent::WarningAnswered { accepted: false },
        LauncherEvent::GuideClosed { launch: true },
    ]);
    assert_eq!(phase, LauncherPhase::Finished);
    assert!(!actions.contains(&LauncherAction::LaunchGame));
    assert!(!actions.contains(&LauncherAction::RunGuide));
    assert_eq!(&actions[actions.len() - 2..], &[
        LauncherAction::Print { line: LauncherLine::UserCancelled },
        LauncherAction::Exit,
    ]);
}

#[test]
fn guide_closed_without_launch_exits() {
    let (_, actions) = run(&[
        LauncherEvent::Scanned { process_count: 1, vgk: None },
        LauncherEvent::ServiceStopFinished,
        LauncherEvent::ServiceStopFinished,
        LauncherEvent::WarningAnswered { accepted: true },
        LauncherEvent::GuideClosed { launch: false },
    ]);
    assert_eq!(actions.last(), Some(&LauncherAction::Exit));
    assert!(!actions.contains(&LauncherAction::LaunchGame));
}

#[test]
fn events_out_of_turn_change_nothing() {
    let (next, actions) = launcher_step(LauncherPhase::Warning, LauncherEvent::ServiceStopFinished);
    assert_eq!(next, LauncherPhase::Warning);
    assert!(actions.is_empty());
    let (next, actions) = launcher_step(LauncherPhase::Finished, LauncherEvent::Scanned { process_count: 0, vgk: None });
    assert_eq!(next, LauncherPhase::Finished);
    assert!(actions.is_empty());
}

#[test]
fn game_is_launched_at_most_once() {
    let events = [
        LauncherEvent::Scanned { process_count: 0, vgk: None },
        LauncherEvent::Scanned { process_count: 0, vgk: None },
        LauncherEvent::GuideClosed { launch: true },
    ];
    let (_, actions) = run(&events);
    assert_eq!(actions.iter().filter(|a| **a == LauncherAction::LaunchGame).count(), 1);
}

#[test]
fn fixed_lines() {
    assert_eq!(line_text(LauncherLine::NoVanguard), "No Vanguard detected. Launching...");
    assert_eq!(line_text(LauncherLine::LaunchHeading), "\u{2500}\u{2500} Launch \u{2500}\u{2500}");
    assert_eq!(line_text(LauncherLine::LaunchHeadingAfterGap), "\n\u{2500}\u{2500} Launch \u{2500}\u{2500}");
    assert_eq!(line_text(LauncherLine::VanguardDetected), "Vanguard detected:");
    assert_eq!(line_text(LauncherLine::ServiceStopHeading), "\n\u{2500}\u{2500} Service Stop \u{2500}\u{2500}");
    assert_eq!(line_text(LauncherLine::GuideHeading), "\n\u{2500}\u{2500} GUI Dialog \u{2500}\u{2500}");
    assert_eq!(line_text(LauncherLine::UserCancelled), "User cancelled.");
    assert!(is_error_line(LauncherLine::UserCancelled));
    assert!(!is_error_line(LauncherLine::NoVanguard));
}

#[test]
fn dialog_texts() {
    assert_eq!(
        warning_text(),
        "Vanguard is preventing CrossFire PH from starting.\n\n\
         If you want to play League of Legends or Valorant afterwards,\n\
         you must restart this PC after exiting Vanguard.\n\n\
         Click OK to open the step-by-step guide, or Cancel to exit."
    );
    assert_eq!(window_title(), "CrossFire PH Launcher");
    assert_eq!(error_title(), "CrossFire PH Launcher - Error");
    assert_eq!(
        error_dialog_text("boom"),
        "Please contact management and tell them about this error. If possible, you may send this as screenshot accordingly.\n\nboom"
    );
    assert_eq!(launch_failure_text("D:\\Games\\patcher_cf2.exe", "denied"), "Failed to launch D:\\Games\\patcher_cf2.exe:\ndenied");
    assert_eq!(game_exe_name(), "patcher_cf2.exe");
    assert_eq!(service_name(VanguardService::Vgc), "vgc");
    assert_eq!(service_name(VanguardService::Vgk), "vgk");
}

#[test]
fn only_ok_accepts_the_warning() {
    assert!(warning_accepted(1));
    assert!(!warning_accepted(2));
    assert!(!warning_accepted(0));
}

#[test]
fn argument_path_wins_or_fails_on_its_own() {
    let ok = GamePathProbe::Argument { shown: "D:\\Games\\CrossFire PH\\patcher_cf2.exe".to_string(), exists: true };
    assert_eq!(resolve_game_path(&ok), Ok(GameLocation::Argument));
    let missing = GamePathProbe::Argument { shown: "E:\\nothing.exe".to_string(), exists: false };
    assert_eq!(resolve_game_path(&missing), Err("Specified path not found:\nE:\\nothing.exe".to_string()));
}

#[test]
fn fallback_beside_the_launcher() {
    let ok = GamePathProbe::BesideLauncher { shown: "C:\\cf\\patcher_cf2.exe".to_string(), exists: true };
    assert_eq!(resolve_game_path(&ok), Ok(GameLocation::BesideLauncher));
    let missing = GamePathProbe::BesideLauncher { shown: "C:\\cf\\patcher_cf2.exe".to_string(), exists: false };
    assert_eq!(
        resolve_game_path(&missing),
        Err("patcher_cf2.exe not found at:\nC:\\cf\\patcher_cf2.exe\n\nPlace cf_launcher.exe in the same directory as \
             patcher_cf2.exe, or pass the full path as a command-line argument."
            .to_string())
    );
    assert_eq!(
        resolve_game_path(&GamePathProbe::LauncherUnknown { reason: "gone".to_string() }),
        Err("Cannot determine launcher path: gone".to_string())
    );
    assert_eq!(
        resolve_game_path(&GamePathProbe::NoLauncherDirectory),
        Err("Cannot determine launcher directory".to_string())
    );
}
