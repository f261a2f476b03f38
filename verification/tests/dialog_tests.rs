use cfph_launcher::dialog::{
    centered_origin, font_height, guide_layout, handle_message, hi_word, lo_word, skip_button,
    static_text_color, waiting_text, ControlKind, DialogAction, DialogState, FontSize,
    MessageResult, ScanOutcome, ScanPurpose, WindowMessage, COLOR_AMBER, COLOR_DARK,
    COLOR_LIGHT, COLOR_RED, ID_CANCEL, ID_SKIP, ID_WAITING, TIMER_AUTOCHECK, TIMER_SHOW_SKIP,
    WINDOW_H, WINDOW_W,
};

fn click(id: u32) -> WindowMessage {
    WindowMessage::Command { wparam: id as usize }
}

#[test]
fn words_of_a_parameter() {
    assert_eq!(lo_word(0x0001_03E9), 0x03E9);
    assert_eq!(hi_word(0x0001_03E9), 0x0001);
    assert_eq!(lo_word(0xFFFF_FFFF_1234_5678), 0x5678);
    assert_eq!(hi_word(0xFFFF_FFFF_1234_5678), 0x1234);
    let v: usize = 0xBEEF_CAFE;
    assert_eq!(((hi_word(v) as usize) << 16) | lo_word(v) as usize, v);
}

#[test]
fn create_starts_both_timers_and_shows_the_waiting_text() {
    let mut s = DialogState::new();
    s.waiting = false;
    let reply = handle_message(&mut s, WindowMessage::Create);
    assert_eq!(reply.actions, vec![
        DialogAction::BuildControls,
        DialogAction::ShowWaitingText,
        DialogAction::StartTimer { timer_id: 2002, interval_ms: 2000 },
        DialogAction::StartTimer { timer_id: 2003, interval_ms: 10000 },
    ]);
    assert_eq!(reply.result, MessageResult::Zero);
    assert!(s.waiting);
    assert_eq!(
        waiting_text(),
        "Waiting for Vanguard to exit \u{2014} CrossFire PH will launch as soon as Vanguard is terminated."
    );
}

#[test]
fn cancel_closes_without_launching() {
    let mut s = DialogState::new();
    let reply = handle_message(&mut s, click(ID_CANCEL));
    assert_eq!(reply.actions, vec![DialogAction::SignalLaunch { launch: false }, DialogAction::DestroyWindow]);
    assert_eq!(reply.result, MessageResult::Zero);
}

#[test]
fn non_click_notifications_are_ignored() {
    let mut s = DialogState::new();
    let reply = handle_message(&mut s, WindowMessage::Command { wparam: (1 << 16) | ID_CANCEL as usize });
    assert!(reply.actions.is_empty());
    let reply = handle_message(&mut s, click(1022));
    assert!(reply.actions.is_empty());
}

#[test]
fn autocheck_launches_when_vanguard_is_gone() {
    let mut s = DialogState::new();
    let reply = handle_message(&mut s, WindowMessage::Timer { timer_id: TIMER_AUTOCHECK });
    assert_eq!(reply.actions, vec![DialogAction::ScanForVanguard { purpose: ScanPurpose::AutoCheck }]);
    let reply = handle_message(
        &mut s,
        WindowMessage::ScanFinished { purpose: ScanPurpose::AutoCheck, outcome: ScanOutcome::Present },
    );
    assert!(reply.actions.is_empty());
    let reply = handle_message(
        &mut s,
        WindowMessage::ScanFinished { purpose: ScanPurpose::AutoCheck, outcome: ScanOutcome::Failed },
    );
    assert!(reply.actions.is_empty());
    let reply = handle_message(
        &mut s,
        WindowMessage::ScanFinished { purpose: ScanPurpose::AutoCheck, outcome: ScanOutcome::Clear },
    );
    assert_eq!(reply.actions, vec![
        DialogAction::KillTimer { timer_id: TIMER_AUTOCHECK },
        DialogAction::KillTimer { timer_id: TIMER_SHOW_SKIP },
        DialogAction::SignalLaunch { launch: true },
        DialogAction::DestroyWindow,
    ]);
}

#[test]
fn skip_button_appears_once_after_the_delay() {
    let mut s = DialogState::new();
    let reply = handle_message(&mut s, WindowMessage::Timer { timer_id: TIMER_SHOW_SKIP });
    assert_eq!(reply.actions, vec![
        DialogAction::KillTimer { timer_id: TIMER_SHOW_SKIP },
        DialogAction::ClearStatus,
        DialogAction::RemoveWaitingButton,
        DialogAction::AddSkipButton,
        DialogAction::Repaint,
    ]);
    assert!(s.skip_shown);
    assert!(!s.waiting);
    assert_eq!(s.status_msg, "");
    let again = handle_message(&mut s, WindowMessage::Timer { timer_id: TIMER_SHOW_SKIP });
    assert_eq!(again.actions, vec![DialogAction::KillTimer { timer_id: TIMER_SHOW_SKIP }]);
}

#[test]
fn skip_with_vanguard_running_reports_and_stays_open() {
    let mut s = DialogState::new();
    let reply = handle_message(&mut s, click(ID_SKIP));
    assert_eq!(reply.actions, vec![DialogAction::ScanForVanguard { purpose: ScanPurpose::SkipCheck }]);
    assert!(!s.waiting);
    let reply = handle_message(
        &mut s,
        WindowMessage::ScanFinished { purpose: ScanPurpose::SkipCheck, outcome: ScanOutcome::Present },
    );
    assert_eq!(reply.actions, vec![DialogAction::ShowStatus, DialogAction::Repaint]);
    assert_eq!(s.status_msg, "Vanguard is still running. Try again shortly.");
    assert!(!s.status_error);
    assert_eq!(static_text_color(1022, Some(&s)), COLOR_LIGHT);
}

#[test]
fn skip_with_vanguard_gone_launches() {
    let mut s = DialogState::new();
    let reply = handle_message(
        &mut s,
        WindowMessage::ScanFinished { purpose: ScanPurpose::SkipCheck, outcome: ScanOutcome::Clear },
    );
    assert_eq!(reply.actions, vec![
        DialogAction::SignalLaunch { launch: true },
        DialogAction::KillTimer { timer_id: TIMER_AUTOCHECK },
        DialogAction::DestroyWindow,
    ]);
}

#[test]
fn background_close_destroy_and_others() {
    let mut s = DialogState::new();
    let r = handle_message(&mut s, WindowMessage::EraseBackground);
    assert_eq!(r.actions, vec![DialogAction::FillBackground { color: COLOR_DARK }]);
    assert_eq!(r.result, MessageResult::One);
    let r = handle_message(&mut s, WindowMessage::Close);
    assert_eq!(r.actions, vec![DialogAction::DestroyWindow]);
    let r = handle_message(&mut s, WindowMessage::Destroy);
    assert_eq!(r.actions, vec![
        DialogAction::KillTimer { timer_id: TIMER_AUTOCHECK },
        DialogAction::KillTimer { timer_id: TIMER_SHOW_SKIP },
        DialogAction::ReleaseResources,
        DialogAction::PostQuit,
    ]);
    let r = handle_message(&mut s, WindowMessage::Other);
    assert!(r.actions.is_empty());
    assert_eq!(r.result, MessageResult::Default);
    let r = handle_message(&mut s, WindowMessage::Timer { timer_id: 7 });
    assert!(r.actions.is_empty());
}

#[test]
fn label_colours() {
    let mut s = DialogState::new();
    assert_eq!(static_text_color(1020, None), COLOR_AMBER);
    assert_eq!(static_text_color(1021, Some(&s)), COLOR_AMBER);
    assert_eq!(static_text_color(1022, None), COLOR_LIGHT);
    assert_eq!(static_text_color(1022, Some(&s)), COLOR_AMBER);
    s.waiting = false;
    s.set_status("failed", true);
    assert_eq!(static_text_color(1022, Some(&s)), COLOR_RED);
    assert_eq!(static_text_color(1031, Some(&s)), COLOR_LIGHT);
    assert_eq!(static_text_color(42, Some(&s)), COLOR_LIGHT);
    let r = handle_message(&mut s, WindowMessage::ColorStatic { control_id: 1022 });
    assert_eq!(r.actions, vec![DialogAction::UseTextColor { color: COLOR_RED }]);
    assert_eq!(r.result, MessageResult::NullBrush);
}

#[test]
fn layout_of_the_guide() {
    let l = guide_layout();
    assert_eq!(l.len(), 13);
    assert_eq!((l[0].kind, l[0].id, l[0].x, l[0].y, l[0].width, l[0].height), (ControlKind::Picture, 1010, 30, 100, 210, 97));
    assert_eq!((l[3].id, l[3].x, l[3].width, l[3].height), (1013, 706, 405, 183));
    assert_eq!((l[4].id, l[4].x, l[4].y, l[4].width, l[4].height), (1030, 5, 201, 260, 48));
    assert_eq!(l[4].text, "Click the ^ to show\nhidden icons");
    assert_eq!((l[7].id, l[7].y), (1033, 287));
    assert_eq!(l[7].kind, ControlKind::Label { font: FontSize::Caption });
    assert_eq!(l[8].text, "Riot Vanguard is running. CrossFire PH cannot start while Vanguard is active.");
    assert_eq!(l[8].kind, ControlKind::Label { font: FontSize::Large });
    assert_eq!((l[10].id, l[10].x, l[10].y, l[10].text.as_str()), (ID_CANCEL, 600, 480, "Cancel"));
    assert_eq!((l[11].id, l[11].x, l[11].kind), (ID_WAITING, 340, ControlKind::Button { enabled: false }));
    assert_eq!((l[12].id, l[12].y, l[12].text.as_str()), (1022, 440, ""));
    for c in &l {
        assert!(c.x >= 0 && c.x + c.width <= WINDOW_W);
        assert!(c.y >= 0 && c.y + c.height <= WINDOW_H);
    }
    let b = skip_button();
    assert_eq!((b.id, b.x, b.y, b.width, b.height), (ID_SKIP, 340, 480, 220, 36));
    assert_eq!(b.text, "Skip, Launch CrossFire PH");
    assert_eq!((font_height(FontSize::Large), font_height(FontSize::Small), font_height(FontSize::Caption)), (-20, -14, -12));
}

#[test]
fn window_is_centred_and_clamped() {
    assert_eq!(centered_origin(1920, 1080), (380, 240));
    assert_eq!(centered_origin(1161, 601), (0, 0));
    assert_eq!(centered_origin(1163, 603), (1, 1));
    assert_eq!(centered_origin(800, 600), (0, 0));
    assert_eq!(centered_origin(-5, 0), (0, 0));
}
