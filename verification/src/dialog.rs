//! The guide window: its layout, the colours of its labels, and the
//! decisions its window procedure takes on each message. The caller owns
//! the window and carries out the actions that each message yields.
use vstd::prelude::*;

verus! {

pub const WINDOW_W: i32 = 1160;
pub const WINDOW_H: i32 = 600;

pub const ID_SKIP: u32 = 1001;
pub const ID_CANCEL: u32 = 1002;
pub const ID_WAITING: u32 = 1003;
pub const ID_HEADER: u32 = 1020;
pub const ID_DISCLAIMER: u32 = 1021;
pub const ID_STATUS: u32 = 1022;
pub const ID_FIRST_CAPTION: u32 = 1030;

pub const TIMER_AUTOCHECK: usize = 2002;
pub const TIMER_SHOW_SKIP: usize = 2003;
pub const AUTOCHECK_INTERVAL_MS: u32 = 2000;
pub const SHOW_SKIP_DELAY_MS: u32 = 10000;

/// The notification code of a clicked button (`BN_CLICKED`).
pub const BN_CLICKED: u32 = 0;

/// Colours as `0x00BBGGRR`.
pub const COLOR_DARK: u32 = 0x001e1e1e;
pub const COLOR_AMBER: u32 = 0x0014b7e2;
pub const COLOR_LIGHT: u32 = 0x00cccccc;
pub const COLOR_RED: u32 = 0x004444ff;

/// The low 16 bits of a message parameter.
pub open spec fn low_word_of(val: usize) -> u16 {
    (val % 0x10000) as u16
}

/// Bits 16 to 31 of a message parameter.
pub open spec fn high_word_of(val: usize) -> u16 {
    ((val / 0x10000) % 0x10000) as u16
}

/// The low 16 bits of `val`.
pub fn lo_word(val: usize) -> (w: u16)
    ensures
        w == low_word_of(val),
{
    let r = val & 0xFFFF;
    assert(val & 0xFFFF == val % 0x10000) by (bit_vector);
    r as u16
}

/// Bits 16 to 31 of `val`.
pub fn hi_word(val: usize) -> (w: u16)
    ensures
        w == high_word_of(val),
{
    let r = (val >> 16) & 0xFFFF;
    assert((val >> 16) & 0xFFFF == (val / 0x10000) % 0x10000) by (bit_vector);
    r as u16
}

/// A 32-bit message parameter is its low word plus its high word times 0x10000.
pub proof fn lemma_words_recombine(val: usize)
    requires
        val < 0x1_0000_0000,
    ensures
        high_word_of(val) as int * 0x10000 + low_word_of(val) as int == val,
{
    assert(val / 0x10000 < 0x10000) by (nonlinear_arith)
        requires val < 0x1_0000_0000;
    assert((val / 0x10000) * 0x10000 + val % 0x10000 == val) by (nonlinear_arith);
}


/// What the guide window remembers between messages.
pub struct DialogState {
    pub skip_shown: bool,
    pub waiting: bool,
    pub status_msg: String,
    pub status_error: bool,
}

/// The remembered state as plain values.
#[verifier::ext_equal]
pub struct DialogModel {
    pub skip_shown: bool,
    pub waiting: bool,
    pub status_msg: Seq<char>,
    pub status_error: bool,
}

impl View for DialogState {
    type V = DialogModel;

    open spec fn view(&self) -> DialogModel {
        DialogModel {
            skip_shown: self.skip_shown,
            waiting: self.waiting,
            status_msg: self.status_msg@,
            status_error: self.status_error,
        }
    }
}

impl DialogState {
    /// The state before the window is created: waiting, no skip button, no status.
    pub fn new() -> (s: Self)
        ensures
            s@ == (DialogModel {
                skip_shown: false,
                waiting: true,
                status_msg: Seq::empty(),
                status_error: false,
            }),
    {
        DialogState { skip_shown: false, waiting: true, status_msg: String::new(), status_error: false }
    }

    /// Sets the status message and whether it reports an error.
    pub fn set_status(&mut self, msg: &str, is_error: bool)
        ensures
            final(self)@ == (DialogModel { status_msg: msg@, status_error: is_error, ..old(self)@ }),
    {
        self.status_msg = String::from_str(msg);
        self.status_error = is_error;
    }
}

/// Why the caller is asked to look for Vanguard processes.
#[derive(Debug, Clone, Copy, PartialEq, Eq, Structural)]
pub enum ScanPurpose {
    /// The periodic check.
    AutoCheck,
    /// The user clicked the skip button.
    SkipCheck,
}

/// What a look for Vanguard processes found.
#[derive(Debug, Clone, Copy, PartialEq, Eq, Structural)]
pub enum ScanOutcome {
    /// The process list was read and holds no Vanguard process.
    Clear,
    /// A Vanguard process runs.
    Present,
    /// The process list could not be read.
    Failed,
}

/// The messages that the window procedure handles, with the parts of their
/// parameters that matter.
#[derive(Debug, Clone, Copy, PartialEq, Eq, Structural)]
pub enum WindowMessage {
    Create,
    Command { wparam: usize },
    Timer { timer_id: usize },
    /// The result of a look for Vanguard that an earlier action asked for.
    ScanFinished { purpose: ScanPurpose, outcome: ScanOutcome },
    EraseBackground,
    ColorStatic { control_id: u32 },
    Close,
    Destroy,
    Other,
}

/// What the window procedure has the caller do, in order.
#[derive(Debug, Clone, Copy, PartialEq, Eq, Structural)]
pub enum DialogAction {
    /// Load the bitmaps and create the controls of `guide_layout`.
    BuildControls,
    /// Put the waiting text into the status label.
    ShowWaitingText,
    StartTimer { timer_id: usize, interval_ms: u32 },
    KillTimer { timer_id: usize },
    /// Look for Vanguard processes and report back with `ScanFinished`.
    ScanForVanguard { purpose: ScanPurpose },
    /// Record whether the game is to be launched when the window closes.
    SignalLaunch { launch: bool },
    DestroyWindow,
    RemoveWaitingButton,
    AddSkipButton,
    /// Put the state's status message into the status label.
    ShowStatus,
    /// Empty the status label.
    ClearStatus,
    Repaint,
    FillBackground { color: u32 },
    /// Draw the label's text in this colour on a transparent background.
    UseTextColor { color: u32 },
    /// Free the bitmaps and the state.
    ReleaseResources,
    PostQuit,
}

/// What the window procedure returns.
#[derive(Debug, Clone, Copy, PartialEq, Eq, Structural)]
pub enum MessageResult {
    Zero,
    One,
    /// The stock null brush.
    NullBrush,
    /// The result of the default window procedure.
    Default,
}

/// The actions and return value of one message.
pub struct Reply {
    pub actions: Vec<DialogAction>,
    pub result: MessageResult,
}

/// The status text of a failed skip: Vanguard still runs.
pub open spec fn still_running_text() -> Seq<char> {
    "Vanguard is still running. Try again shortly."@
}

/// The colour of the text of static control `control_id`; `state` is the
/// window's state where it has one.
pub open spec fn text_color_for(control_id: u32, state: Option<DialogModel>) -> u32 {
    if control_id == ID_HEADER || control_id == ID_DISCLAIMER {
        COLOR_AMBER
    } else if control_id == ID_STATUS {
        match state {
            Some(s) => if s.waiting {
                COLOR_AMBER
            } else if s.status_error {
                COLOR_RED
            } else {
                COLOR_LIGHT
            },
            None => COLOR_LIGHT,
        }
    } else {
        COLOR_LIGHT
    }
}

/// The effect of one message: the next state, the actions, the return value.
pub open spec fn dialog_transition(s: DialogModel, msg: WindowMessage) -> (DialogModel, Seq<DialogAction>, MessageResult) {
    match msg {
        WindowMessage::Create => (
            DialogModel { waiting: true, ..s },
            seq![
                DialogAction::BuildControls,
                DialogAction::ShowWaitingText,
                DialogAction::StartTimer { timer_id: TIMER_AUTOCHECK, interval_ms: AUTOCHECK_INTERVAL_MS },
                DialogAction::StartTimer { timer_id: TIMER_SHOW_SKIP, interval_ms: SHOW_SKIP_DELAY_MS },
            ],
            MessageResult::Zero,
        ),
        WindowMessage::Command { wparam } => {
            let id = low_word_of(wparam) as u32;
            let code = high_word_of(wparam) as u32;
            if code == BN_CLICKED && id == ID_SKIP {
                (
                    DialogModel { waiting: false, ..s },
                    seq![DialogAction::ScanForVanguard { purpose: ScanPurpose::SkipCheck }],
                    MessageResult::Zero,
                )
            } else if code == BN_CLICKED && id == ID_CANCEL {
                (
                    s,
                    seq![DialogAction::SignalLaunch { launch: false }, DialogAction::DestroyWindow],
                    MessageResult::Zero,
                )
            } else {
                (s, Seq::empty(), MessageResult::Zero)
            }
        },
        WindowMessage::Timer { timer_id } => {
            if timer_id == TIMER_AUTOCHECK {
                (
                    s,
                    seq![DialogAction::ScanForVanguard { purpose: ScanPurpose::AutoCheck }],
                    MessageResult::Zero,
                )
            } else if timer_id == TIMER_SHOW_SKIP {
                if !s.skip_shown {
                    (
                        DialogModel { skip_shown: true, waiting: false, status_msg: Seq::empty(), ..s },
                        seq![
                            DialogAction::KillTimer { timer_id: TIMER_SHOW_SKIP },
                            DialogAction::ClearStatus,
                            DialogAction::RemoveWaitingButton,
                            DialogAction::AddSkipButton,
                            DialogAction::Repaint,
                        ],
                        MessageResult::Zero,
                    )
                } else {
                    (s, seq![DialogAction::KillTimer { timer_id: TIMER_SHOW_SKIP }], MessageResult::Zero)
                }
            } else {
                (s, Seq::empty(), MessageResult::Zero)
            }
        },
        WindowMessage::ScanFinished { purpose, outcome } => {
            match purpose {
                ScanPurpose::AutoCheck => if outcome == ScanOutcome::Clear {
                    (
                        s,
                        seq![
                            DialogAction::KillTimer { timer_id: TIMER_AUTOCHECK },
                            DialogAction::KillTimer { timer_id: TIMER_SHOW_SKIP },
                            DialogAction::SignalLaunch { launch: true },
                            DialogAction::DestroyWindow,
                        ],
                        MessageResult::Zero,
                    )
                } else {
                    (s, Seq::empty(), MessageResult::Zero)
                },
                ScanPurpose::SkipCheck => if outcome == ScanOutcome::Clear {
                    (
                        s,
                        seq![
                            DialogAction::SignalLaunch { launch: true },
                            DialogAction::KillTimer { timer_id: TIMER_AUTOCHECK },
                            DialogAction::DestroyWindow,
                        ],
                        MessageResult::Zero,
                    )
                } else {
                    (
                        DialogModel { status_msg: still_running_text(), status_error: false, ..s },
                        seq![DialogAction::ShowStatus, DialogAction::Repaint],
                        MessageResult::Zero,
                    )
                },
            }
        },
        WindowMessage::EraseBackground => (
            s,
            seq![DialogAction::FillBackground { color: COLOR_DARK }],
            MessageResult::One,
        ),
        WindowMessage::ColorStatic { control_id } => (
            s,
            seq![DialogAction::UseTextColor { color: text_color_for(control_id, Some(s)) }],
            MessageResult::NullBrush,
        ),
        WindowMessage::Close => (s, seq![DialogAction::DestroyWindow], MessageResult::Zero),
        WindowMessage::Destroy => (
            s,
            seq![
                DialogAction::KillTimer { timer_id: TIMER_AUTOCHECK },
                DialogAction::KillTimer { timer_id: TIMER_SHOW_SKIP },
                DialogAction::ReleaseResources,
                DialogAction::PostQuit,
            ],
            MessageResult::Zero,
        ),
        WindowMessage::Other => (s, Seq::empty(), MessageResult::Default),
    }
}

/// The colour of the text of static control `control_id`; `state` is the
/// window's state where the window has one yet.
pub fn static_text_color(control_id: u32, state: Option<&DialogState>) -> (color: u32)
    ensures
        color == text_color_for(
            control_id,
            match state {
                Some(s) => Some(s@),
                None => None,
            },
        ),
{
    if control_id == ID_HEADER || control_id == ID_DISCLAIMER {
        COLOR_AMBER
    } else if control_id == ID_STATUS {
        match state {
            Some(s) => if s.waiting {
                COLOR_AMBER
            } else if s.status_error {
                COLOR_RED
            } else {
                COLOR_LIGHT
            },
            None => COLOR_LIGHT,
        }
    } else {
        COLOR_LIGHT
    }
}

/// Handles one message: updates the state and says what the caller does.
pub fn handle_message(state: &mut DialogState, msg: WindowMessage) -> (reply: Reply)
    ensures
        (final(state)@, reply.actions@, reply.result) == dialog_transition(old(state)@, msg),
{
    let mut actions: Vec<DialogAction> = Vec::new();
    let result = match msg {
        WindowMessage::Create => {
            actions.push(DialogAction::BuildControls);
            actions.push(DialogAction::ShowWaitingText);
            actions.push(DialogAction::StartTimer { timer_id: TIMER_AUTOCHECK, interval_ms: AUTOCHECK_INTERVAL_MS });
            actions.push(DialogAction::StartTimer { timer_id: TIMER_SHOW_SKIP, interval_ms: SHOW_SKIP_DELAY_MS });
            state.waiting = true;
            MessageResult::Zero
        },
        WindowMessage::Command { wparam } => {
            let id = lo_word(wparam) as u32;
            let code = hi_word(wparam) as u32;
            if code == BN_CLICKED {
                if id == ID_SKIP {
                    state.waiting = false;
                    actions.push(DialogAction::ScanForVanguard { purpose: ScanPurpose::SkipCheck });
                } else if id == ID_CANCEL {
                    actions.push(DialogAction::SignalLaunch { launch: false });
                    actions.push(DialogAction::DestroyWindow);
                }
            }
            MessageResult::Zero
        },
        WindowMessage::Timer { timer_id } => {
            if timer_id == TIMER_AUTOCHECK {
                actions.push(DialogAction::ScanForVanguard { purpose: ScanPurpose::AutoCheck });
            } else if timer_id == TIMER_SHOW_SKIP {
                actions.push(DialogAction::KillTimer { timer_id: TIMER_SHOW_SKIP });
                if !state.skip_shown {
                    state.skip_shown = true;
                    state.waiting = false;
                    state.status_msg = String::new();
                    actions.push(DialogAction::ClearStatus);
                    actions.push(DialogAction::RemoveWaitingButton);
                    actions.push(DialogAction::AddSkipButton);
                    actions.push(DialogAction::Repaint);
                }
            }
            MessageResult::Zero
        },
        WindowMessage::ScanFinished { purpose, outcome } => {
            let clear = match outcome {
                ScanOutcome::Clear => true,
                _ => false,
            };
            match purpose {
                ScanPurpose::AutoCheck => {
                    if clear {
                        actions.push(DialogAction::KillTimer { timer_id: TIMER_AUTOCHECK });
                        actions.push(DialogAction::KillTimer { timer_id: TIMER_SHOW_SKIP });
                        actions.push(DialogAction::SignalLaunch { launch: true });
                        actions.push(DialogAction::DestroyWindow);
                    }
                },
                ScanPurpose::SkipCheck => {
                    if clear {
                        actions.push(DialogAction::SignalLaunch { launch: true });
                        actions.push(DialogAction::KillTimer { timer_id: TIMER_AUTOCHECK });
                        actions.push(DialogAction::DestroyWindow);
                    } else {
                        state.set_status("Vanguard is still running. Try again shortly.", false);
                        actions.push(DialogAction::ShowStatus);
                        actions.push(DialogAction::Repaint);
                    }
                },
            }
            MessageResult::Zero
        },
        WindowMessage::EraseBackground => {
            actions.push(DialogAction::FillBackground { color: COLOR_DARK });
            MessageResult::One
        },
        WindowMessage::ColorStatic { control_id } => {
            let color = static_text_color(control_id, Some(&*state));
            actions.push(DialogAction::UseTextColor { color });
            MessageResult::NullBrush
        },
        WindowMessage::Close => {
            actions.push(DialogAction::DestroyWindow);
            MessageResult::Zero
        },
        WindowMessage::Destroy => {
            actions.push(DialogAction::KillTimer { timer_id: TIMER_AUTOCHECK });
            actions.push(DialogAction::KillTimer { timer_id: TIMER_SHOW_SKIP });
            actions.push(DialogAction::ReleaseResources);
            actions.push(DialogAction::PostQuit);
            MessageResult::Zero
        },
        WindowMessage::Other => MessageResult::Default,
    };
    assert(actions@ =~= dialog_transition(old(state)@, msg).1);
    Reply { actions, result }
}


/// The game is marked for launch only when a look for Vanguard came back
/// clear; and whenever the window records a launch decision, either way,
/// it closes itself in the same message, with the decision before the close.
pub proof fn lemma_launch_only_after_clear_scan(s: DialogModel, msg: WindowMessage, i: int)
    requires
        0 <= i < dialog_transition(s, msg).1.len(),
        dialog_transition(s, msg).1[i] is SignalLaunch,
    ensures
        dialog_transition(s, msg).1[i] == (DialogAction::SignalLaunch { launch: true }) ==> (
        msg matches WindowMessage::ScanFinished { outcome, .. } && outcome == ScanOutcome::Clear),
        dialog_transition(s, msg).1.last() == DialogAction::DestroyWindow,
        i < dialog_transition(s, msg).1.len() - 1,
{
}

/// A click on the cancel button records "do not launch" and closes the
/// window, whatever the state.
pub proof fn lemma_cancel_closes_without_launch(s: DialogModel, wparam: usize)
    requires
        low_word_of(wparam) as u32 == ID_CANCEL,
        high_word_of(wparam) as u32 == BN_CLICKED,
    ensures
        dialog_transition(s, WindowMessage::Command { wparam }).1 == seq![
            DialogAction::SignalLaunch { launch: false },
            DialogAction::DestroyWindow,
        ],
        dialog_transition(s, WindowMessage::Command { wparam }).0 == s,
{
}

/// How many times `actions` adds the skip button.
pub open spec fn skip_buttons_added(actions: Seq<DialogAction>) -> nat
    decreases actions.len(),
{
    if actions.len() == 0 {
        0
    } else {
        skip_buttons_added(actions.drop_last()) + if actions.last() == DialogAction::AddSkipButton {
            1nat
        } else {
            0nat
        }
    }
}

/// The state after a run of messages and all the actions they yield, in order.
pub open spec fn dialog_run(s: DialogModel, msgs: Seq<WindowMessage>) -> (DialogModel, Seq<DialogAction>)
    decreases msgs.len(),
{
    if msgs.len() == 0 {
        (s, Seq::empty())
    } else {
        let (before, acts) = dialog_run(s, msgs.drop_last());
        let (after, more, _result) = dialog_transition(before, msgs.last());
        (after, acts + more)
    }
}

proof fn lemma_skip_buttons_concat(a: Seq<DialogAction>, b: Seq<DialogAction>)
    ensures
        skip_buttons_added(a + b) == skip_buttons_added(a) + skip_buttons_added(b),
    decreases b.len(),
{
    if b.len() == 0 {
        assert(a + b =~= a);
    } else {
        lemma_skip_buttons_concat(a, b.drop_last());
        assert((a + b).drop_last() =~= a + b.drop_last());
    }
}

proof fn lemma_step_skip_buttons(s: DialogModel, msg: WindowMessage)
    ensures
        s.skip_shown ==> dialog_transition(s, msg).0.skip_shown,
        skip_buttons_added(dialog_transition(s, msg).1) == if !s.skip_shown
            && dialog_transition(s, msg).0.skip_shown {
            1nat
        } else {
            0nat
        },
{
    reveal_with_fuel(skip_buttons_added, 6);
}

/// Once shown, the skip button stays: over any run of messages the window
/// adds it at most once, and never when it was already shown.
pub proof fn lemma_skip_button_added_at_most_once(s: DialogModel, msgs: Seq<WindowMessage>)
    ensures
        skip_buttons_added(dialog_run(s, msgs).1) <= 1,
        s.skip_shown ==> skip_buttons_added(dialog_run(s, msgs).1) == 0,
        skip_buttons_added(dialog_run(s, msgs).1) == 1 ==> dialog_run(s, msgs).0.skip_shown,
        s.skip_shown ==> dialog_run(s, msgs).0.skip_shown,
        skip_buttons_added(dialog_run(s, msgs).1) == 0 ==> dialog_run(s, msgs).0.skip_shown == s.skip_shown,
    decreases msgs.len(),
{
    if msgs.len() > 0 {
        lemma_skip_button_added_at_most_once(s, msgs.drop_last());
        let (before, acts) = dialog_run(s, msgs.drop_last());
        lemma_step_skip_buttons(before, msgs.last());
        lemma_skip_buttons_concat(acts, dialog_transition(before, msgs.last()).1);
    }
}


/// The fonts of the guide window, by their character height.
#[derive(Debug, Clone, Copy, PartialEq, Eq, Structural)]
pub enum FontSize {
    /// Height 20: the header.
    Large,
    /// Height 14: the disclaimer and the status line.
    Small,
    /// Height 12: the captions under the pictures.
    Caption,
}

/// The logical font height that `CreateFontW` takes for a font.
pub open spec fn font_height_of(f: FontSize) -> i32 {
    match f {
        FontSize::Large => -20i32,
        FontSize::Small => -14i32,
        FontSize::Caption => -12i32,
    }
}

/// The logical font height that `CreateFontW` takes for `f`.
pub fn font_height(f: FontSize) -> (h: i32)
    ensures
        h == font_height_of(f),
{
    match f {
        FontSize::Large => -20,
        FontSize::Small => -14,
        FontSize::Caption => -12,
    }
}

/// The kinds of control in the guide window.
#[derive(Debug, Clone, Copy, PartialEq, Eq, Structural)]
pub enum ControlKind {
    /// A bordered static control that shows the bitmap resource of the same id.
    Picture,
    /// A centred, transparent static label in the given font.
    Label { font: FontSize },
    /// A push button.
    Button { enabled: bool },
}

/// One control: its kind, id, position, size and text.
pub struct ControlSpec {
    pub kind: ControlKind,
    pub id: u32,
    pub x: i32,
    pub y: i32,
    pub width: i32,
    pub height: i32,
    pub text: String,
}

pub struct ControlView {
    pub kind: ControlKind,
    pub id: u32,
    pub x: i32,
    pub y: i32,
    pub width: i32,
    pub height: i32,
    pub text: Seq<char>,
}

impl View for ControlSpec {
    type V = ControlView;

    open spec fn view(&self) -> ControlView {
        ControlView {
            kind: self.kind,
            id: self.id,
            x: self.x,
            y: self.y,
            width: self.width,
            height: self.height,
            text: self.text@,
        }
    }
}

pub open spec fn control(kind: ControlKind, id: u32, x: i32, y: i32, width: i32, height: i32, text: Seq<char>) -> ControlView {
    ControlView { kind, id, x, y, width, height, text }
}

/// The pictures of the four steps, left to right.
pub open spec fn picture_controls() -> Seq<ControlView> {
    seq![
        control(ControlKind::Picture, 1010, 30, 100, 210, 97, Seq::empty()),
        control(ControlKind::Picture, 1011, 256, 100, 208, 145, Seq::empty()),
        control(ControlKind::Picture, 1012, 480, 100, 210, 182, Seq::empty()),
        control(ControlKind::Picture, 1013, 706, 100, 405, 183, Seq::empty()),
    ]
}

/// The captions, each 4 pixels under its picture.
pub open spec fn caption_controls() -> Seq<ControlView> {
    let f = ControlKind::Label { font: FontSize::Caption };
    seq![
        control(f, 1030, 5, 201, 260, 48, "Click the ^ to show\nhidden icons"@),
        control(f, 1031, 230, 249, 260, 48, "Right-click the\nVanguard icon"@),
        control(f, 1032, 455, 286, 260, 48, "Click 'Exit Vanguard'\nin the menu"@),
        control(f, 1033, 706, 287, 405, 48, "Click 'Yes'\nto confirm"@),
    ]
}

/// The header, disclaimer, buttons and status line.
pub open spec fn frame_controls() -> Seq<ControlView> {
    seq![
        control(
            ControlKind::Label { font: FontSize::Large },
            ID_HEADER,
            0,
            16,
            WINDOW_W,
            28,
            "Riot Vanguard is running. CrossFire PH cannot start while Vanguard is active."@,
        ),
        control(
            ControlKind::Label { font: FontSize::Small },
            ID_DISCLAIMER,
            0,
            48,
            WINDOW_W,
            24,
            "If you want to play League of Legends or Valorant afterwards, you must restart this PC."@,
        ),
        control(ControlKind::Button { enabled: true }, ID_CANCEL, 600, 480, 110, 36, "Cancel"@),
        control(
            ControlKind::Button { enabled: false },
            ID_WAITING,
            340,
            480,
            220,
            36,
            "Waiting for Vanguard..."@,
        ),
        control(ControlKind::Label { font: FontSize::Small }, ID_STATUS, 0, 440, WINDOW_W, 28, Seq::empty()),
    ]
}

/// The controls that the window creates when it opens, in creation order.
pub open spec fn guide_layout_spec() -> Seq<ControlView> {
    picture_controls() + caption_controls() + frame_controls()
}

/// The skip button that replaces the waiting button.
pub open spec fn skip_button_spec() -> ControlView {
    control(ControlKind::Button { enabled: true }, ID_SKIP, 340, 480, 220, 36, "Skip, Launch CrossFire PH"@)
}

fn make_control(kind: ControlKind, id: u32, x: i32, y: i32, width: i32, height: i32, text: &str) -> (c: ControlSpec)
    ensures
        c@ == control(kind, id, x, y, width, height, text@),
{
    ControlSpec { kind, id, x, y, width, height, text: String::from_str(text) }
}

fn make_blank(kind: ControlKind, id: u32, x: i32, y: i32, width: i32, height: i32) -> (c: ControlSpec)
    ensures
        c@ == control(kind, id, x, y, width, height, Seq::empty()),
{
    ControlSpec { kind, id, x, y, width, height, text: String::new() }
}

pub open spec fn controls_view(cs: Seq<ControlSpec>) -> Seq<ControlView> {
    cs.map_values(|c: ControlSpec| c@)
}

/// The controls that the window creates when it opens, in creation order:
/// four pictures, a caption under each, the header, the disclaimer, the
/// cancel and waiting buttons, and the status line.
pub fn guide_layout() -> (controls: Vec<ControlSpec>)
    ensures
        controls_view(controls@) == guide_layout_spec(),
{
    let picture_ids: [u32; 4] = [1010, 1011, 1012, 1013];
    let picture_x: [i32; 4] = [30, 256, 480, 706];
    let picture_sizes: [(i32, i32); 4] = [(210, 97), (208, 145), (210, 182), (405, 183)];
    let caption_x: [i32; 4] = [5, 230, 455, 706];
    let caption_widths: [i32; 4] = [260, 260, 260, 405];
    let caption_texts: [&str; 4] = [
        "Click the ^ to show\nhidden icons",
        "Right-click the\nVanguard icon",
        "Click 'Exit Vanguard'\nin the menu",
        "Click 'Yes'\nto confirm",
    ];
    let mut controls: Vec<ControlSpec> = Vec::new();
    let mut i: usize = 0;
    while i < 4
        invariant
            i <= 4,
            picture_ids@ == seq![1010u32, 1011, 1012, 1013],
            picture_x@ == seq![30i32, 256, 480, 706],
            picture_sizes@ == seq![(210i32, 97i32), (208i32, 145i32), (210i32, 182i32), (405i32, 183i32)],
            controls_view(controls@) == picture_controls().take(i as int),
        decreases 4 - i,
    {
        let (w, h) = picture_sizes[i];
        let c = make_blank(ControlKind::Picture, picture_ids[i], picture_x[i], 100, w, h);
        proof {
            let pc = picture_controls();
            if i == 0 {
                assert(c@ == pc[0]);
            } else if i == 1 {
                assert(c@ == pc[1]);
            } else if i == 2 {
                assert(c@ == pc[2]);
            } else {
                assert(c@ == pc[3]);
            }
        }
        let ghost before = controls@;
        controls.push(c);
        assert(controls_view(controls@) =~= controls_view(before).push(c@));
        assert(controls_view(controls@) =~= picture_controls().take(i + 1));
        i = i + 1;
    }
    assert(picture_controls().take(4) =~= picture_controls());
    let ghost pictures = controls_view(controls@);
    i = 0;
    while i < 4
        invariant
            i <= 4,
            picture_sizes@ == seq![(210i32, 97i32), (208i32, 145i32), (210i32, 182i32), (405i32, 183i32)],
            caption_x@ == seq![5i32, 230, 455, 706],
            caption_widths@ == seq![260i32, 260, 260, 405],
            caption_texts@ == seq![
                "Click the ^ to show\nhidden icons",
                "Right-click the\nVanguard icon",
                "Click 'Exit Vanguard'\nin the menu",
                "Click 'Yes'\nto confirm",
            ],
            pictures == picture_controls(),
            controls_view(controls@) == pictures + caption_controls().take(i as int),
        decreases 4 - i,
    {
        let (_, h) = picture_sizes[i];
        let c = make_control(
            ControlKind::Label { font: FontSize::Caption },
            ID_FIRST_CAPTION + i as u32,
            caption_x[i],
            100 + h + 4,
            caption_widths[i],
            48,
            caption_texts[i],
        );
        proof {
            let cc = caption_controls();
            if i == 0 {
                assert(c@ == cc[0]);
            } else if i == 1 {
                assert(c@ == cc[1]);
            } else if i == 2 {
                assert(c@ == cc[2]);
            } else {
                assert(c@ == cc[3]);
            }
        }
        let ghost before = controls@;
        controls.push(c);
        assert(controls_view(controls@) =~= controls_view(before).push(c@));
        assert(controls_view(controls@) =~= pictures + caption_controls().take(i + 1));
        i = i + 1;
    }
    assert(caption_controls().take(4) =~= caption_controls());
    let ghost upper = controls_view(controls@);
    controls.push(
        make_control(
            ControlKind::Label { font: FontSize::Large },
            ID_HEADER,
            0,
            16,
            WINDOW_W,
            28,
            "Riot Vanguard is running. CrossFire PH cannot start while Vanguard is active.",
        ),
    );
    controls.push(
        make_control(
            ControlKind::Label { font: FontSize::Small },
            ID_DISCLAIMER,
            0,
            48,
            WINDOW_W,
            24,
            "If you want to play League of Legends or Valorant afterwards, you must restart this PC.",
        ),
    );
    controls.push(make_control(ControlKind::Button { enabled: true }, ID_CANCEL, WINDOW_W / 2 + 20, 480, 110, 36, "Cancel"));
    controls.push(
        make_control(
            ControlKind::Button { enabled: false },
            ID_WAITING,
            WINDOW_W / 2 - 240,
            480,
            220,
            36,
            "Waiting for Vanguard...",
        ),
    );
    controls.push(make_blank(ControlKind::Label { font: FontSize::Small }, ID_STATUS, 0, 440, WINDOW_W, 28));
    assert(controls_view(controls@) =~= upper + frame_controls());
    controls
}

/// The skip button that replaces the waiting button after the delay.
pub fn skip_button() -> (c: ControlSpec)
    ensures
        c@ == skip_button_spec(),
{
    make_control(ControlKind::Button { enabled: true }, ID_SKIP, WINDOW_W / 2 - 240, 480, 220, 36, "Skip, Launch CrossFire PH")
}


/// The guide window's layout holds together: every control lies inside the
/// window, no two controls share an id (the skip button included), each
/// caption sits 4 pixels under its picture, and the skip button takes
/// exactly the place of the waiting button.
pub proof fn lemma_layout_well_formed()
    ensures
        forall|i: int|
            0 <= i < guide_layout_spec().len() ==> {
                let c = #[trigger] guide_layout_spec()[i];
                &&& 0 <= c.x && c.x + c.width <= WINDOW_W
                &&& 0 <= c.y && c.y + c.height <= WINDOW_H
            },
        forall|i: int, j: int|
            0 <= i < j < guide_layout_spec().len() ==> #[trigger] guide_layout_spec()[i].id
                != #[trigger] guide_layout_spec()[j].id,
        forall|i: int|
            0 <= i < guide_layout_spec().len() ==> #[trigger] guide_layout_spec()[i].id != ID_SKIP,
        forall|i: int|
            0 <= i < 4 ==> #[trigger] caption_controls()[i].y == picture_controls()[i].y
                + picture_controls()[i].height + 4,
        ({
            let s = skip_button_spec();
            let w = guide_layout_spec()[11];
            &&& w.id == ID_WAITING
            &&& s.x == w.x && s.y == w.y && s.width == w.width && s.height == w.height
        }),
{
    let l = guide_layout_spec();
    assert(l.len() == 13);
    assert(l =~= seq![
        picture_controls()[0], picture_controls()[1], picture_controls()[2], picture_controls()[3],
        caption_controls()[0], caption_controls()[1], caption_controls()[2], caption_controls()[3],
        frame_controls()[0], frame_controls()[1], frame_controls()[2], frame_controls()[3],
        frame_controls()[4],
    ]);
}

/// Where a window of the guide's size is put on a screen of the given size:
/// centred, and never left of or above the screen's origin.
pub open spec fn centered_origin_spec(screen_w: int, screen_h: int) -> (int, int) {
    (
        (if screen_w - WINDOW_W > 0 { screen_w - WINDOW_W } else { 0 }) / 2,
        (if screen_h - WINDOW_H > 0 { screen_h - WINDOW_H } else { 0 }) / 2,
    )
}

/// The top-left corner that centres the guide window on a screen of
/// `screen_w` by `screen_h` pixels, clamped to the screen's origin.
pub fn centered_origin(screen_w: i32, screen_h: i32) -> (origin: (i32, i32))
    requires
        screen_w >= i32::MIN + WINDOW_W,
        screen_h >= i32::MIN + WINDOW_H,
    ensures
        origin.0 as int == centered_origin_spec(screen_w as int, screen_h as int).0,
        origin.1 as int == centered_origin_spec(screen_w as int, screen_h as int).1,
{
    let dx = screen_w - WINDOW_W;
    let dy = screen_h - WINDOW_H;
    let x = if dx > 0 { dx } else { 0 };
    let y = if dy > 0 { dy } else { 0 };
    (x / 2, y / 2)
}

/// On a screen at least as large as the window, the centred window lies
/// wholly on the screen and its left and right margins (and top and bottom
/// margins) differ by at most one pixel.
pub proof fn lemma_centered_window_fits(screen_w: int, screen_h: int)
    requires
        screen_w >= WINDOW_W,
        screen_h >= WINDOW_H,
    ensures
        ({
            let (x, y) = centered_origin_spec(screen_w, screen_h);
            &&& 0 <= x && x + WINDOW_W <= screen_w
            &&& 0 <= y && y + WINDOW_H <= screen_h
            &&& 0 <= (screen_w - (x + WINDOW_W)) - x <= 1
            &&& 0 <= (screen_h - (y + WINDOW_H)) - y <= 1
        }),
{
}


/// The status text shown while the window waits for Vanguard to exit.
pub open spec fn waiting_text_spec() -> Seq<char> {
    "Waiting for Vanguard to exit \u{2014} CrossFire PH will launch as soon as Vanguard is terminated."@
}

/// The status text shown while the window waits for Vanguard to exit.
pub fn waiting_text() -> (t: String)
    ensures
        t@ == waiting_text_spec(),
{
    String::from_str("Waiting for Vanguard to exit \u{2014} CrossFire PH will launch as soon as Vanguard is terminated.")
}


/// A click on the skip button always starts one look for Vanguard and only
/// marks the window as no longer waiting, whether or not the button was
/// already shown.
pub proof fn lemma_skip_click_checks_once(s: DialogModel, wparam: usize)
    requires
        low_word_of(wparam) == 1001,
        high_word_of(wparam) == 0,
    ensures
        dialog_transition(s, WindowMessage::Command { wparam }).1 == seq![
            DialogAction::ScanForVanguard { purpose: ScanPurpose::SkipCheck },
        ],
        dialog_transition(s, WindowMessage::Command { wparam }).0 == (DialogModel {
            skip_shown: s.skip_shown,
            waiting: false,
            status_msg: s.status_msg,
            status_error: s.status_error,
        }),
        dialog_transition(s, WindowMessage::Command { wparam }).2 == MessageResult::Zero,
{
}

/// What a look for Vanguard leads to: gone means "launch" and closing the
/// window; otherwise the periodic check does nothing, and the skip check
/// says, as no error, that Vanguard is still running, and stays open.
pub proof fn lemma_scan_results(s: DialogModel, outcome: ScanOutcome)
    ensures
        outcome == ScanOutcome::Clear ==> dialog_transition(
            s,
            WindowMessage::ScanFinished { purpose: ScanPurpose::AutoCheck, outcome },
        ).1 == seq![
            DialogAction::KillTimer { timer_id: 2002 },
            DialogAction::KillTimer { timer_id: 2003 },
            DialogAction::SignalLaunch { launch: true },
            DialogAction::DestroyWindow,
        ],
        outcome == ScanOutcome::Clear ==> dialog_transition(
            s,
            WindowMessage::ScanFinished { purpose: ScanPurpose::SkipCheck, outcome },
        ).1 == seq![
            DialogAction::SignalLaunch { launch: true },
            DialogAction::KillTimer { timer_id: 2002 },
            DialogAction::DestroyWindow,
        ],
        outcome != ScanOutcome::Clear ==> dialog_transition(
            s,
            WindowMessage::ScanFinished { purpose: ScanPurpose::AutoCheck, outcome },
        ).1.len() == 0,
        outcome != ScanOutcome::Clear ==> dialog_transition(
            s,
            WindowMessage::ScanFinished { purpose: ScanPurpose::SkipCheck, outcome },
        ).1 == seq![DialogAction::ShowStatus, DialogAction::Repaint],
        outcome != ScanOutcome::Clear ==> dialog_transition(
            s,
            WindowMessage::ScanFinished { purpose: ScanPurpose::SkipCheck, outcome },
        ).0 == (DialogModel {
            skip_shown: s.skip_shown,
            waiting: s.waiting,
            status_msg: "Vanguard is still running. Try again shortly."@,
            status_error: false,
        }),
        dialog_transition(s, WindowMessage::ScanFinished { purpose: ScanPurpose::AutoCheck, outcome }).0
            == s,
{
}

/// Opening the window starts the check every 2 seconds and the 10-second
/// delay of the skip button; each tick of the first timer looks for
/// Vanguard; the second, the first time it fires, swaps the waiting button
/// for the skip button and empties the status line.
pub proof fn lemma_timers(s: DialogModel)
    ensures
        dialog_transition(s, WindowMessage::Create).1 == seq![
            DialogAction::BuildControls,
            DialogAction::ShowWaitingText,
            DialogAction::StartTimer { timer_id: 2002, interval_ms: 2000 },
            DialogAction::StartTimer { timer_id: 2003, interval_ms: 10000 },
        ],
        dialog_transition(s, WindowMessage::Create).0.waiting,
        dialog_transition(s, WindowMessage::Timer { timer_id: 2002 }).1 == seq![
            DialogAction::ScanForVanguard { purpose: ScanPurpose::AutoCheck },
        ],
        !s.skip_shown ==> dialog_transition(s, WindowMessage::Timer { timer_id: 2003 }).1 == seq![
            DialogAction::KillTimer { timer_id: 2003 },
            DialogAction::ClearStatus,
            DialogAction::RemoveWaitingButton,
            DialogAction::AddSkipButton,
            DialogAction::Repaint,
        ],
        !s.skip_shown ==> dialog_transition(s, WindowMessage::Timer { timer_id: 2003 }).0 == (
        DialogModel {
            skip_shown: true,
            waiting: false,
            status_msg: Seq::empty(),
            status_error: s.status_error,
        }),
        s.skip_shown ==> dialog_transition(s, WindowMessage::Timer { timer_id: 2003 }).1 == seq![
            DialogAction::KillTimer { timer_id: 2003 },
        ],
{
}

/// The label colours: header and disclaimer amber; the status line amber
/// while waiting, red for an error, light grey otherwise (and without a
/// state); every other label light grey.
pub proof fn lemma_label_colors(id: u32, state: Option<DialogModel>)
    ensures
        (id == 1020 || id == 1021) ==> text_color_for(id, state) == 0x0014b7e2,
        (id != 1020 && id != 1021 && id != 1022) ==> text_color_for(id, state) == 0x00cccccc,
        id == 1022 ==> text_color_for(id, state) == match state {
            None => 0x00cccccc,
            Some(s) => if s.waiting {
                0x0014b7e2u32
            } else if s.status_error {
                0x004444ffu32
            } else {
                0x00ccccccu32
            },
        },
{
}

/// The captions under the pictures give the four steps in order: caption
/// `1030 + i` holds step `i` and sits under picture `1010 + i`, starting 4
/// pixels below it and spanning it horizontally.
pub proof fn lemma_captions_give_the_steps()
    ensures
        guide_layout_spec().len() == 13,
        forall|i: int|
            0 <= i < 4 ==> {
                let p = #[trigger] guide_layout_spec()[i];
                let c = guide_layout_spec()[i + 4];
                &&& p.kind == ControlKind::Picture
                &&& p.id == 1010 + i
                &&& c.id == 1030 + i
                &&& c.kind == (ControlKind::Label { font: FontSize::Caption })
                &&& c.y == p.y + p.height + 4
                &&& c.x <= p.x && p.x + p.width <= c.x + c.width
            },
        guide_layout_spec()[4].text == "Click the ^ to show\nhidden icons"@,
        guide_layout_spec()[5].text == "Right-click the\nVanguard icon"@,
        guide_layout_spec()[6].text == "Click 'Exit Vanguard'\nin the menu"@,
        guide_layout_spec()[7].text == "Click 'Yes'\nto confirm"@,
        guide_layout_spec()[8].text
            == "Riot Vanguard is running. CrossFire PH cannot start while Vanguard is active."@,
        guide_layout_spec()[9].text
            == "If you want to play League of Legends or Valorant afterwards, you must restart this PC."@,
        guide_layout_spec()[10].text == "Cancel"@ && guide_layout_spec()[10].id == 1002,
        guide_layout_spec()[11].text == "Waiting for Vanguard..."@ && guide_layout_spec()[11].kind == (
        ControlKind::Button { enabled: false }),
        guide_layout_spec()[12].id == 1022 && guide_layout_spec()[12].text.len() == 0,
        skip_button_spec().text == "Skip, Launch CrossFire PH"@ && skip_button_spec().id == 1001,
{
    let l = guide_layout_spec();
    assert(l =~= seq![
        picture_controls()[0], picture_controls()[1], picture_controls()[2], picture_controls()[3],
        caption_controls()[0], caption_controls()[1], caption_controls()[2], caption_controls()[3],
        frame_controls()[0], frame_controls()[1], frame_controls()[2], frame_controls()[3],
        frame_controls()[4],
    ]);
}


/// The other messages: erasing the background paints it dark and reports
/// it done; a static label gets its colour and the null brush; closing
/// destroys the window; destruction stops both timers, frees the window's
/// resources and ends the message loop; anything else goes to the default
/// procedure. None of them changes the state.
pub proof fn lemma_other_messages(s: DialogModel, control_id: u32)
    ensures
        dialog_transition(s, WindowMessage::EraseBackground) == (
            s,
            seq![DialogAction::FillBackground { color: 0x001e1e1e }],
            MessageResult::One,
        ),
        dialog_transition(s, WindowMessage::ColorStatic { control_id }) == (
            s,
            seq![DialogAction::UseTextColor { color: text_color_for(control_id, Some(s)) }],
            MessageResult::NullBrush,
        ),
        dialog_transition(s, WindowMessage::Close) == (s, seq![DialogAction::DestroyWindow], MessageResult::Zero),
        dialog_transition(s, WindowMessage::Destroy) == (
            s,
            seq![
                DialogAction::KillTimer { timer_id: 2002 },
                DialogAction::KillTimer { timer_id: 2003 },
                DialogAction::ReleaseResources,
                DialogAction::PostQuit,
            ],
            MessageResult::Zero,
        ),
        dialog_transition(s, WindowMessage::Other) == (s, Seq::<DialogAction>::empty(), MessageResult::Default),
{
}

/// A command that is not a click on the skip or cancel button, and a timer
/// other than the two of the window, do nothing.
pub proof fn lemma_ignored_commands(s: DialogModel, wparam: usize, timer_id: usize)
    requires
        high_word_of(wparam) != 0 || (low_word_of(wparam) != 1001 && low_word_of(wparam) != 1002),
        timer_id != 2002 && timer_id != 2003,
    ensures
        dialog_transition(s, WindowMessage::Command { wparam }) == (s, Seq::<DialogAction>::empty(), MessageResult::Zero),
        dialog_transition(s, WindowMessage::Timer { timer_id }) == (s, Seq::<DialogAction>::empty(), MessageResult::Zero),
{
}

/// The pictures of the four steps, their places and sizes; the window's
/// size; the fonts; and the status texts.
pub proof fn lemma_pictures_and_texts()
    ensures
        guide_layout_spec()[0] == control(ControlKind::Picture, 1010, 30, 100, 210, 97, Seq::empty()),
        guide_layout_spec()[1] == control(ControlKind::Picture, 1011, 256, 100, 208, 145, Seq::empty()),
        guide_layout_spec()[2] == control(ControlKind::Picture, 1012, 480, 100, 210, 182, Seq::empty()),
        guide_layout_spec()[3] == control(ControlKind::Picture, 1013, 706, 100, 405, 183, Seq::empty()),
        guide_layout_spec()[8].kind == (ControlKind::Label { font: FontSize::Large }),
        guide_layout_spec()[9].kind == (ControlKind::Label { font: FontSize::Small }),
        guide_layout_spec()[12].kind == (ControlKind::Label { font: FontSize::Small }),
        WINDOW_W == 1160 && WINDOW_H == 600,
        font_height_of(FontSize::Large) == -20 && font_height_of(FontSize::Small) == -14
            && font_height_of(FontSize::Caption) == -12,
        waiting_text_spec()
            == "Waiting for Vanguard to exit \u{2014} CrossFire PH will launch as soon as Vanguard is terminated."@,
        still_running_text() == "Vanguard is still running. Try again shortly."@,
{
    let l = guide_layout_spec();
    assert(l[0] == picture_controls()[0]);
    assert(l[1] == picture_controls()[1]);
    assert(l[2] == picture_controls()[2]);
    assert(l[3] == picture_controls()[3]);
    assert(l[8] == frame_controls()[0]);
    assert(l[9] == frame_controls()[1]);
    assert(l[12] == frame_controls()[4]);
}

/// On a screen smaller than the window in one direction, the window starts
/// at the screen's edge in that direction.
pub proof fn lemma_small_screen_clamped(screen_w: int, screen_h: int)
    ensures
        screen_w <= 1160 ==> centered_origin_spec(screen_w, screen_h).0 == 0,
        screen_h <= 600 ==> centered_origin_spec(screen_w, screen_h).1 == 0,
        centered_origin_spec(screen_w, screen_h).0 >= 0 && centered_origin_spec(screen_w, screen_h).1 >= 0,
{
}

} // verus!
