use cfph_launcher::service_stop::{
    is_error_notice, notice_line, stop_begin, stop_step, StopAction, StopEvent, StopNotice,
    StopStage, ERROR_CANNOT_ACCEPT_STOP, STOP_POLL_LIMIT,
};

/// Runs the routine on the given events; returns the notices and the final action.
fn run(events: &[StopEvent]) -> (Vec<StopNotice>, StopAction) {
    let first = stop_begin();
    assert_eq!(first.action, StopAction::OpenServiceManager);
    let mut stage = first.stage;
    let mut notices = Vec::new();
    let mut action = first.action;
    for e in events {
        let step = stop_step(stage, *e);
        if let Some(n) = step.notice {
            notices.push(n);
        }
        stage = step.stage;
        action = step.action;
    }
    (notices, action)
}

#[test]
fn running_service_stopped_on_second_poll() {
    let (notices, action) = run(&[
        StopEvent::ManagerOpened,
        StopEvent::ServiceOpened,
        StopEvent::StatusRead { state: 4 },
        StopEvent::StopAccepted,
        StopEvent::StatusRead { state: 3 },
        StopEvent::StatusRead { state: 1 },
    ]);
    assert_eq!(notices, vec![StopNotice::StopRequested, StopNotice::Stopped]);
    assert_eq!(action, StopAction::Done { result: true });
}

#[test]
fn missing_service_counts_as_success() {
    let (notices, action) = run(&[StopEvent::ManagerOpened, StopEvent::ServiceMissing]);
    assert_eq!(notices, vec![StopNotice::NotFound]);
    assert_eq!(action, StopAction::Done { result: true });
}

#[test]
fn manager_failure_fails() {
    let (notices, action) = run(&[StopEvent::ManagerFailed]);
    assert_eq!(notices, vec![StopNotice::ManagerError]);
    assert_eq!(action, StopAction::Done { result: false });
}

#[test]
fn unreadable_status_fails() {
    let (notices, action) =
        run(&[StopEvent::ManagerOpened, StopEvent::ServiceOpened, StopEvent::StatusUnreadable]);
    assert_eq!(notices, vec![StopNotice::QueryFailed]);
    assert_eq!(action, StopAction::Done { result: false });
}

#[test]
fn already_stopped_and_other_states_succeed_without_stopping() {
    let (notices, action) =
        run(&[StopEvent::ManagerOpened, StopEvent::ServiceOpened, StopEvent::StatusRead { state: 1 }]);
    assert_eq!(notices, vec![StopNotice::AlreadyStopped]);
    assert_eq!(action, StopAction::Done { result: true });
    let (notices, action) =
        run(&[StopEvent::ManagerOpened, StopEvent::ServiceOpened, StopEvent::StatusRead { state: 7 }]);
    assert_eq!(notices, vec![StopNotice::OtherState { state: 7 }]);
    assert_eq!(action, StopAction::Done { result: true });
}

#[test]
fn tamper_resistant_service_fails_quietly() {
    assert_eq!(ERROR_CANNOT_ACCEPT_STOP, 1061);
    let (notices, action) = run(&[
        StopEvent::ManagerOpened,
        StopEvent::ServiceOpened,
        StopEvent::StatusRead { state: 4 },
        StopEvent::StopRejected { code: 1061 },
    ]);
    assert_eq!(notices, vec![StopNotice::StopRequested, StopNotice::TamperResistant]);
    assert_eq!(action, StopAction::Done { result: false });
    let (notices, _) = run(&[
        StopEvent::ManagerOpened,
        StopEvent::ServiceOpened,
        StopEvent::StatusRead { state: 4 },
        StopEvent::StopRejected { code: 5 },
    ]);
    assert_eq!(notices, vec![StopNotice::StopRequested, StopNotice::StopFailed]);
}

#[test]
fn polling_gives_up_after_fifty_tries() {
    let mut events = vec![
        StopEvent::ManagerOpened,
        StopEvent::ServiceOpened,
        StopEvent::StatusRead { state: 4 },
        StopEvent::StopAccepted,
    ];
    for _ in 0..STOP_POLL_LIMIT - 1 {
        events.push(StopEvent::StatusRead { state: 3 });
    }
    let (_, action) = run(&events);
    assert_eq!(action, StopAction::WaitThenQuery);
    events.push(StopEvent::StatusRead { state: 3 });
    let (notices, action) = run(&events);
    assert_eq!(notices, vec![StopNotice::StopRequested, StopNotice::Timeout]);
    assert_eq!(action, StopAction::Done { result: false });
}

#[test]
fn poll_failure_ends_without_notice() {
    let (notices, action) = run(&[
        StopEvent::ManagerOpened,
        StopEvent::ServiceOpened,
        StopEvent::StatusRead { state: 4 },
        StopEvent::StopAccepted,
        StopEvent::StatusUnreadable,
    ]);
    assert_eq!(notices, vec![StopNotice::StopRequested]);
    assert_eq!(action, StopAction::Done { result: false });
}

#[test]
fn unexpected_events_change_nothing() {
    let step = stop_step(StopStage::Querying, StopEvent::ManagerOpened);
    assert_eq!(step.stage, StopStage::Querying);
    assert_eq!(step.action, StopAction::QueryStatus);
    assert_eq!(step.notice, None);
    let done = stop_step(StopStage::Finished { result: true }, StopEvent::StatusRead { state: 4 });
    assert_eq!(done.action, StopAction::Done { result: true });
}

#[test]
fn notice_lines() {
    assert_eq!(notice_line(StopNotice::ManagerError, "vgc", "Access is denied."), "  \u{2717} SCM: Access is denied.");
    assert_eq!(notice_line(StopNotice::NotFound, "vgc", ""), "  \u{2139}  vgc not found.");
    assert_eq!(notice_line(StopNotice::QueryFailed, "vgk", ""), "  \u{2717} Failed to query vgk status.");
    assert_eq!(notice_line(StopNotice::AlreadyStopped, "vgk", ""), "  \u{2139}  vgk already stopped.");
    assert_eq!(notice_line(StopNotice::OtherState { state: 3 }, "vgk", ""), "  \u{2139}  vgk state=3.");
    assert_eq!(notice_line(StopNotice::StopRequested, "vgc", ""), "  \u{23f9}  Stopping vgc ...");
    assert_eq!(notice_line(StopNotice::Stopped, "vgc", ""), "  \u{2713} vgc stopped.");
    assert_eq!(notice_line(StopNotice::Timeout, "vgc", ""), "  \u{26a0}  vgc stop timeout.");
    assert_eq!(notice_line(StopNotice::TamperResistant, "vgk", ""), "  \u{26a0}  vgk is tamper-resistant.");
    assert_eq!(notice_line(StopNotice::StopFailed, "vgc", "oops"), "  \u{2717} Failed to stop vgc: oops");
}

#[test]
fn error_notices_go_to_stderr() {
    assert!(is_error_notice(StopNotice::ManagerError));
    assert!(is_error_notice(StopNotice::QueryFailed));
    assert!(is_error_notice(StopNotice::Timeout));
    assert!(is_error_notice(StopNotice::StopFailed));
    assert!(!is_error_notice(StopNotice::NotFound));
    assert!(!is_error_notice(StopNotice::TamperResistant));
    assert!(!is_error_notice(StopNotice::Stopped));
}
