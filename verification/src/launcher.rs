//! The launcher's course from the first look for Vanguard to the launch of
//! the game, as a state machine, and the texts and path decisions around
//! the launch.
use vstd::prelude::*;
use crate::process::{vanguard_present, ServiceState};

verus! {

/// The game's patcher, which the launcher starts.
pub open spec fn game_exe_name_spec() -> Seq<char> {
    "patcher_cf2.exe"@
}

/// The file name of the game's patcher.
pub fn game_exe_name() -> (name: String)
    ensures
        name@ == game_exe_name_spec(),
{
    String::from_str("patcher_cf2.exe")
}

/// The two Vanguard services that the launcher stops, in this order.
#[derive(Debug, Clone, Copy, PartialEq, Eq, Structural)]
pub enum VanguardService {
    /// The user-mode client service `vgc`.
    Vgc,
    /// The kernel driver `vgk`.
    Vgk,
}

pub open spec fn service_name_spec(s: VanguardService) -> Seq<char> {
    match s {
        VanguardService::Vgc => "vgc"@,
        VanguardService::Vgk => "vgk"@,
    }
}

/// The service-manager name of a Vanguard service.
pub fn service_name(s: VanguardService) -> (name: String)
    ensures
        name@ == service_name_spec(s),
{
    match s {
        VanguardService::Vgc => String::from_str("vgc"),
        VanguardService::Vgk => String::from_str("vgk"),
    }
}

/// Where the launcher stands.
#[derive(Debug, Clone, Copy, PartialEq, Eq, Structural)]
pub enum LauncherPhase {
    /// Looking for Vanguard processes and the `vgk` service.
    Scanning,
    /// Stopping the `vgc` service.
    StoppingVgc,
    /// Stopping the `vgk` service.
    StoppingVgk,
    /// The warning dialog is open.
    Warning,
    /// The step-by-step guide window is open.
    Guide,
    /// Nothing more to do.
    Finished,
}

/// What happened after the launcher's last actions.
#[derive(Debug, Clone, Copy, PartialEq, Eq, Structural)]
pub enum LauncherEvent {
    /// The process list could not be read.
    ScanFailed,
    /// The process list was read: this many Vanguard processes, and this
    /// state of `vgk` where the service could be queried.
    Scanned { process_count: usize, vgk: Option<ServiceState> },
    /// The stop routine of the current service ended (whatever its result).
    ServiceStopFinished,
    /// The user answered the warning: OK or not.
    WarningAnswered { accepted: bool },
    /// The guide window closed, deciding whether to launch.
    GuideClosed { launch: bool },
}

/// A fixed line that the launcher prints.
#[derive(Debug, Clone, Copy, PartialEq, Eq, Structural)]
pub enum LauncherLine {
    NoVanguard,
    LaunchHeading,
    LaunchHeadingAfterGap,
    VanguardDetected,
    ServiceStopHeading,
    GuideHeading,
    UserCancelled,
}

/// What the launcher has the caller do, in order.
#[derive(Debug, Clone, Copy, PartialEq, Eq, Structural)]
pub enum LauncherAction {
    /// Report that the process list could not be read.
    ReportScanError,
    Print { line: LauncherLine },
    /// Print the summary of what was found.
    PrintSummary,
    /// Run the stop routine for a service.
    StopService { service: VanguardService },
    /// Show the warning dialog and report the answer.
    ShowWarning,
    /// Open the guide window and report its decision.
    RunGuide,
    /// Resolve the game's path and start it, reporting failures in an error dialog.
    LaunchGame,
    /// End the process.
    Exit,
}

/// The transition of the launcher from `phase` on `event`. An event that
/// the phase does not wait for changes nothing and asks for nothing.
pub open spec fn launcher_transition(phase: LauncherPhase, event: LauncherEvent) -> (LauncherPhase, Seq<LauncherAction>) {
    match (phase, event) {
        (LauncherPhase::Scanning, LauncherEvent::ScanFailed) => (
            LauncherPhase::Finished,
            seq![LauncherAction::ReportScanError],
        ),
        (LauncherPhase::Scanning, LauncherEvent::Scanned { process_count, vgk }) => {
            if vanguard_present(process_count as nat, vgk) {
                (
                    LauncherPhase::StoppingVgc,
                    seq![
                        LauncherAction::Print { line: LauncherLine::VanguardDetected },
                        LauncherAction::PrintSummary,
                        LauncherAction::Print { line: LauncherLine::ServiceStopHeading },
                        LauncherAction::StopService { service: VanguardService::Vgc },
                    ],
                )
            } else {
                (
                    LauncherPhase::Finished,
                    seq![
                        LauncherAction::Print { line: LauncherLine::NoVanguard },
                        LauncherAction::Print { line: LauncherLine::LaunchHeading },
                        LauncherAction::LaunchGame,
                    ],
                )
            }
        },
        (LauncherPhase::StoppingVgc, LauncherEvent::ServiceStopFinished) => (
            LauncherPhase::StoppingVgk,
            seq![LauncherAction::StopService { service: VanguardService::Vgk }],
        ),
        (LauncherPhase::StoppingVgk, LauncherEvent::ServiceStopFinished) => (
            LauncherPhase::Warning,
            seq![LauncherAction::Print { line: LauncherLine::GuideHeading }, LauncherAction::ShowWarning],
        ),
        (LauncherPhase::Warning, LauncherEvent::WarningAnswered { accepted }) => {
            if accepted {
                (LauncherPhase::Guide, seq![LauncherAction::RunGuide])
            } else {
                (
                    LauncherPhase::Finished,
                    seq![LauncherAction::Print { line: LauncherLine::UserCancelled }, LauncherAction::Exit],
                )
            }
        },
        (LauncherPhase::Guide, LauncherEvent::GuideClosed { launch }) => {
            if launch {
                (
                    LauncherPhase::Finished,
                    seq![
                        LauncherAction::Print { line: LauncherLine::LaunchHeadingAfterGap },
                        LauncherAction::LaunchGame,
                    ],
                )
            } else {
                (LauncherPhase::Finished, seq![LauncherAction::Exit])
            }
        },
        _ => (phase, Seq::empty()),
    }
}

/// Advances the launcher by one event.
pub fn launcher_step(phase: LauncherPhase, event: LauncherEvent) -> (next: (LauncherPhase, Vec<LauncherAction>))
    ensures
        (next.0, next.1@) == launcher_transition(phase, event),
{
    let mut actions: Vec<LauncherAction> = Vec::new();
    let next_phase = match (phase, event) {
        (LauncherPhase::Scanning, LauncherEvent::ScanFailed) => {
            actions.push(LauncherAction::ReportScanError);
            LauncherPhase::Finished
        },
        (LauncherPhase::Scanning, LauncherEvent::Scanned { process_count, vgk }) => {
            let running = match vgk {
                Some(ServiceState::Running) => true,
                _ => false,
            };
            if process_count > 0 || running {
                actions.push(LauncherAction::Print { line: LauncherLine::VanguardDetected });
                actions.push(LauncherAction::PrintSummary);
                actions.push(LauncherAction::Print { line: LauncherLine::ServiceStopHeading });
                actions.push(LauncherAction::StopService { service: VanguardService::Vgc });
                LauncherPhase::StoppingVgc
            } else {
                actions.push(LauncherAction::Print { line: LauncherLine::NoVanguard });
                actions.push(LauncherAction::Print { line: LauncherLine::LaunchHeading });
                actions.push(LauncherAction::LaunchGame);
                LauncherPhase::Finished
            }
        },
        (LauncherPhase::StoppingVgc, LauncherEvent::ServiceStopFinished) => {
            actions.push(LauncherAction::StopService { service: VanguardService::Vgk });
            LauncherPhase::StoppingVgk
        },
        (LauncherPhase::StoppingVgk, LauncherEvent::ServiceStopFinished) => {
            actions.push(LauncherAction::Print { line: LauncherLine::GuideHeading });
            actions.push(LauncherAction::ShowWarning);
            LauncherPhase::Warning
        },
        (LauncherPhase::Warning, LauncherEvent::WarningAnswered { accepted }) => {
            if accepted {
                actions.push(LauncherAction::RunGuide);
                LauncherPhase::Guide
            } else {
                actions.push(LauncherAction::Print { line: LauncherLine::UserCancelled });
                actions.push(LauncherAction::Exit);
                LauncherPhase::Finished
            }
        },
        (LauncherPhase::Guide, LauncherEvent::GuideClosed { launch }) => {
            if launch {
                actions.push(LauncherAction::Print { line: LauncherLine::LaunchHeadingAfterGap });
                actions.push(LauncherAction::LaunchGame);
            } else {
                actions.push(LauncherAction::Exit);
            }
            LauncherPhase::Finished
        },
        _ => phase,
    };
    assert(actions@ =~= launcher_transition(phase, event).1);
    (next_phase, actions)
}


/// With nothing of Vanguard found the game is launched at once and no
/// service is touched; with Vanguard found the launcher turns to stopping
/// `vgc` and launches nothing yet.
pub proof fn lemma_scan_decides_direct_launch(process_count: usize, vgk: Option<ServiceState>)
    ensures
        ({
            let (next, actions) = launcher_transition(
                LauncherPhase::Scanning,
                LauncherEvent::Scanned { process_count, vgk },
            );
            &&& actions.contains(LauncherAction::LaunchGame) <==> !vanguard_present(process_count as nat, vgk)
            &&& actions.contains(LauncherAction::StopService { service: VanguardService::Vgc })
                <==> vanguard_present(process_count as nat, vgk)
            &&& next == (if vanguard_present(process_count as nat, vgk) {
                LauncherPhase::StoppingVgc
            } else {
                LauncherPhase::Finished
            })
        }),
{
    let (next, actions) = launcher_transition(
        LauncherPhase::Scanning,
        LauncherEvent::Scanned { process_count, vgk },
    );
    if vanguard_present(process_count as nat, vgk) {
        assert(actions[3] == LauncherAction::StopService { service: VanguardService::Vgc });
    } else {
        assert(actions[2] == LauncherAction::LaunchGame);
    }
}

/// Once Vanguard was found, the guide opens only after the user accepted
/// the warning, and the game is launched only when the guide closed with
/// the decision to launch.
pub proof fn lemma_launch_after_detection_needs_consent(phase: LauncherPhase, event: LauncherEvent)
    requires
        phase != LauncherPhase::Scanning,
    ensures
        launcher_transition(phase, event).1.contains(LauncherAction::LaunchGame) ==> (phase
            == LauncherPhase::Guide && event == (LauncherEvent::GuideClosed { launch: true })),
        launcher_transition(phase, event).1.contains(LauncherAction::RunGuide) ==> (phase
            == LauncherPhase::Warning && event == (LauncherEvent::WarningAnswered { accepted: true })),
{
}

/// How far a phase is from the end.
pub open spec fn launcher_rank(phase: LauncherPhase) -> int {
    match phase {
        LauncherPhase::Scanning => 5,
        LauncherPhase::StoppingVgc => 4,
        LauncherPhase::StoppingVgk => 3,
        LauncherPhase::Warning => 2,
        LauncherPhase::Guide => 1,
        LauncherPhase::Finished => 0,
    }
}

/// The launcher only moves forward: an event either changes nothing and
/// asks for nothing, or moves to a phase nearer the end.
pub proof fn lemma_launcher_moves_forward(phase: LauncherPhase, event: LauncherEvent)
    ensures
        ({
            let (next, actions) = launcher_transition(phase, event);
            ||| (next == phase && actions.len() == 0)
            ||| (0 <= launcher_rank(next) < launcher_rank(phase))
        }),
{
}

/// The phase after a run of events and all the actions they ask for, in order.
pub open spec fn launcher_run(phase: LauncherPhase, events: Seq<LauncherEvent>) -> (LauncherPhase, Seq<LauncherAction>)
    decreases events.len(),
{
    if events.len() == 0 {
        (phase, Seq::empty())
    } else {
        let (mid, acts) = launcher_run(phase, events.drop_last());
        let (next, more) = launcher_transition(mid, events.last());
        (next, acts + more)
    }
}

/// How many times `actions` launches the game.
pub open spec fn launches(actions: Seq<LauncherAction>) -> nat
    decreases actions.len(),
{
    if actions.len() == 0 {
        0
    } else {
        launches(actions.drop_last()) + if actions.last() == LauncherAction::LaunchGame {
            1nat
        } else {
            0nat
        }
    }
}

proof fn lemma_launches_concat(a: Seq<LauncherAction>, b: Seq<LauncherAction>)
    ensures
        launches(a + b) == launches(a) + launches(b),
    decreases b.len(),
{
    if b.len() == 0 {
        assert(a + b =~= a);
    } else {
        lemma_launches_concat(a, b.drop_last());
        assert((a + b).drop_last() =~= a + b.drop_last());
    }
}

proof fn lemma_step_launches(phase: LauncherPhase, event: LauncherEvent)
    ensures
        launches(launcher_transition(phase, event).1) <= 1,
        launches(launcher_transition(phase, event).1) == 1 ==> launcher_transition(phase, event).0
            == LauncherPhase::Finished,
        phase == LauncherPhase::Finished ==> launcher_transition(phase, event).1.len() == 0,
{
    reveal_with_fuel(launches, 5);
}

/// Whatever events come, the launcher starts the game at most once, and
/// once it has it does nothing more.
pub proof fn lemma_game_launched_at_most_once(events: Seq<LauncherEvent>)
    ensures
        launches(launcher_run(LauncherPhase::Scanning, events).1) <= 1,
        launches(launcher_run(LauncherPhase::Scanning, events).1) == 1 ==> launcher_run(
            LauncherPhase::Scanning,
            events,
        ).0 == LauncherPhase::Finished,
    decreases events.len(),
{
    if events.len() > 0 {
        lemma_game_launched_at_most_once(events.drop_last());
        let (mid, acts) = launcher_run(LauncherPhase::Scanning, events.drop_last());
        lemma_step_launches(mid, events.last());
        lemma_launches_concat(acts, launcher_transition(mid, events.last()).1);
        if mid == LauncherPhase::Finished {
            assert(launcher_transition(mid, events.last()).1 =~= Seq::<LauncherAction>::empty());
        }
    }
}


/// Whether a line goes to the error stream.
pub open spec fn line_is_error(line: LauncherLine) -> bool {
    line == LauncherLine::UserCancelled
}

pub open spec fn line_text_spec(line: LauncherLine) -> Seq<char> {
    match line {
        LauncherLine::NoVanguard => "No Vanguard detected. Launching..."@,
        LauncherLine::LaunchHeading => "\u{2500}\u{2500} Launch \u{2500}\u{2500}"@,
        LauncherLine::LaunchHeadingAfterGap => "\n\u{2500}\u{2500} Launch \u{2500}\u{2500}"@,
        LauncherLine::VanguardDetected => "Vanguard detected:"@,
        LauncherLine::ServiceStopHeading => "\n\u{2500}\u{2500} Service Stop \u{2500}\u{2500}"@,
        LauncherLine::GuideHeading => "\n\u{2500}\u{2500} GUI Dialog \u{2500}\u{2500}"@,
        LauncherLine::UserCancelled => "User cancelled."@,
    }
}

/// The text of a fixed line.
pub fn line_text(line: LauncherLine) -> (t: String)
    ensures
        t@ == line_text_spec(line),
{
    match line {
        LauncherLine::NoVanguard => String::from_str("No Vanguard detected. Launching..."),
        LauncherLine::LaunchHeading => String::from_str("\u{2500}\u{2500} Launch \u{2500}\u{2500}"),
        LauncherLine::LaunchHeadingAfterGap => String::from_str("\n\u{2500}\u{2500} Launch \u{2500}\u{2500}"),
        LauncherLine::VanguardDetected => String::from_str("Vanguard detected:"),
        LauncherLine::ServiceStopHeading => String::from_str("\n\u{2500}\u{2500} Service Stop \u{2500}\u{2500}"),
        LauncherLine::GuideHeading => String::from_str("\n\u{2500}\u{2500} GUI Dialog \u{2500}\u{2500}"),
        LauncherLine::UserCancelled => String::from_str("User cancelled."),
    }
}

/// Whether `line` goes to the error stream rather than the output stream.
pub fn is_error_line(line: LauncherLine) -> (r: bool)
    ensures
        r == line_is_error(line),
{
    match line {
        LauncherLine::UserCancelled => true,
        _ => false,
    }
}

/// The button id with which a message box reports OK (`IDOK`).
pub const IDOK_ANSWER: i32 = 1;

/// Whether the answer to the warning dialog is OK: only that opens the guide.
pub fn warning_accepted(answer: i32) -> (r: bool)
    ensures
        r == (answer == IDOK_ANSWER),
{
    answer == IDOK_ANSWER
}

pub open spec fn warning_text_spec() -> Seq<char> {
    "Vanguard is preventing CrossFire PH from starting.\n\nIf you want to play League of Legends or Valorant afterwards,\nyou must restart this PC after exiting Vanguard.\n\nClick OK to open the step-by-step guide, or Cancel to exit."@
}

/// The text of the warning dialog.
pub fn warning_text() -> (t: String)
    ensures
        t@ == warning_text_spec(),
{
    String::from_str(
        "Vanguard is preventing CrossFire PH from starting.\n\nIf you want to play League of Legends or Valorant afterwards,\nyou must restart this PC after exiting Vanguard.\n\nClick OK to open the step-by-step guide, or Cancel to exit.",
    )
}

pub open spec fn window_title_spec() -> Seq<char> {
    "CrossFire PH Launcher"@
}

/// The title of the launcher's dialogs and window.
pub fn window_title() -> (t: String)
    ensures
        t@ == window_title_spec(),
{
    String::from_str("CrossFire PH Launcher")
}

pub open spec fn error_title_spec() -> Seq<char> {
    "CrossFire PH Launcher - Error"@
}

/// The title of the error dialog.
pub fn error_title() -> (t: String)
    ensures
        t@ == error_title_spec(),
{
    String::from_str("CrossFire PH Launcher - Error")
}

pub open spec fn error_dialog_text_spec(msg: Seq<char>) -> Seq<char> {
    "Please contact management and tell them about this error. If possible, you may send this as screenshot accordingly.\n\n"@ + msg
}

/// The text of the error dialog: a request to contact the management, then `msg`.
pub fn error_dialog_text(msg: &str) -> (t: String)
    ensures
        t@ == error_dialog_text_spec(msg@),
{
    let mut t = String::from_str(
        "Please contact management and tell them about this error. If possible, you may send this as screenshot accordingly.\n\n",
    );
    t.append(msg);
    t
}

pub open spec fn launch_failure_text_spec(path: Seq<char>, reason: Seq<char>) -> Seq<char> {
    "Failed to launch "@ + path + ":\n"@ + reason
}

/// The message when starting the game at `path` failed for `reason`.
pub fn launch_failure_text(path: &str, reason: &str) -> (t: String)
    ensures
        t@ == launch_failure_text_spec(path@, reason@),
{
    let mut t = String::from_str("Failed to launch ");
    t.append(path);
    t.append(":\n");
    t.append(reason);
    t
}

/// Where the game's path came from.
#[derive(Debug, Clone, Copy, PartialEq, Eq, Structural)]
pub enum GameLocation {
    /// The first command-line argument.
    Argument,
    /// `patcher_cf2.exe` in the launcher's own directory.
    BesideLauncher,
}

/// What the caller found out about the game's path. When the launcher was
/// given a command-line argument the caller reports only on that path;
/// otherwise on the patcher beside the launcher.
pub enum GamePathProbe {
    /// The first argument, as displayed, and whether that path exists.
    Argument { shown: String, exists: bool },
    /// The launcher's own path could not be determined, for `reason`.
    LauncherUnknown { reason: String },
    /// The launcher's path has no parent directory.
    NoLauncherDirectory,
    /// The patcher's path beside the launcher, as displayed, and whether it exists.
    BesideLauncher { shown: String, exists: bool },
}

pub open spec fn not_found_beside_text_spec(shown: Seq<char>) -> Seq<char> {
    "patcher_cf2.exe not found at:\n"@ + shown
        + "\n\nPlace cf_launcher.exe in the same directory as patcher_cf2.exe, or pass the full path as a command-line argument."@
}

/// The outcome of resolving the game's path from what was found out.
pub open spec fn game_path_outcome(probe: GamePathProbe) -> Result<GameLocation, Seq<char>> {
    match probe {
        GamePathProbe::Argument { shown, exists } => if exists {
            Ok(GameLocation::Argument)
        } else {
            Err("Specified path not found:\n"@ + shown@)
        },
        GamePathProbe::LauncherUnknown { reason } => Err(
            "Cannot determine launcher path: "@ + reason@,
        ),
        GamePathProbe::NoLauncherDirectory => Err("Cannot determine launcher directory"@),
        GamePathProbe::BesideLauncher { shown, exists } => if exists {
            Ok(GameLocation::BesideLauncher)
        } else {
            Err(not_found_beside_text_spec(shown@))
        },
    }
}

pub open spec fn outcome_view(r: Result<GameLocation, String>) -> Result<GameLocation, Seq<char>> {
    match r {
        Ok(l) => Ok(l),
        Err(e) => Err(e@),
    }
}

/// Decides the game's path: an existing path given as argument, else an
/// existing patcher beside the launcher; otherwise the message that says why not.
pub fn resolve_game_path(probe: &GamePathProbe) -> (r: Result<GameLocation, String>)
    ensures
        outcome_view(r) == game_path_outcome(*probe),
{
    match probe {
        GamePathProbe::Argument { shown, exists } => {
            if *exists {
                Ok(GameLocation::Argument)
            } else {
                let mut m = String::from_str("Specified path not found:\n");
                m.append(shown.as_str());
                Err(m)
            }
        },
        GamePathProbe::LauncherUnknown { reason } => {
            let mut m = String::from_str("Cannot determine launcher path: ");
            m.append(reason.as_str());
            Err(m)
        },
        GamePathProbe::NoLauncherDirectory => Err(String::from_str("Cannot determine launcher directory")),
        GamePathProbe::BesideLauncher { shown, exists } => {
            if *exists {
                Ok(GameLocation::BesideLauncher)
            } else {
                let mut m = String::from_str("patcher_cf2.exe not found at:\n");
                m.append(shown.as_str());
                m.append(
                    "\n\nPlace cf_launcher.exe in the same directory as patcher_cf2.exe, or pass the full path as a command-line argument.",
                );
                Err(m)
            }
        },
    }
}


/// After the scan, the first line says what was found: "Vanguard detected"
/// exactly when a Vanguard process runs or the `vgk` driver runs, and "No
/// Vanguard detected" exactly otherwise. With Vanguard found the launcher
/// prints the summary and starts stopping `vgc`; otherwise it prints the
/// launch heading and launches.
pub proof fn lemma_scan_report(process_count: usize, vgk: Option<ServiceState>)
    ensures
        ({
            let found = process_count > 0 || vgk == Some(ServiceState::Running);
            let (next, actions) = launcher_transition(
                LauncherPhase::Scanning,
                LauncherEvent::Scanned { process_count, vgk },
            );
            &&& actions.len() > 0
            &&& (actions[0] == LauncherAction::Print { line: LauncherLine::VanguardDetected }) == found
            &&& (actions[0] == LauncherAction::Print { line: LauncherLine::NoVanguard }) == !found
            &&& actions.contains(LauncherAction::Print { line: LauncherLine::NoVanguard }) == !found
            &&& actions.contains(LauncherAction::Print { line: LauncherLine::VanguardDetected }) == found
            &&& found ==> (next == LauncherPhase::StoppingVgc && actions == seq![
                LauncherAction::Print { line: LauncherLine::VanguardDetected },
                LauncherAction::PrintSummary,
                LauncherAction::Print { line: LauncherLine::ServiceStopHeading },
                LauncherAction::StopService { service: VanguardService::Vgc },
            ])
            &&& !found ==> (next == LauncherPhase::Finished && actions == seq![
                LauncherAction::Print { line: LauncherLine::NoVanguard },
                LauncherAction::Print { line: LauncherLine::LaunchHeading },
                LauncherAction::LaunchGame,
            ])
        }),
{
    let found = process_count > 0 || vgk == Some(ServiceState::Running);
    let (next, actions) = launcher_transition(
        LauncherPhase::Scanning,
        LauncherEvent::Scanned { process_count, vgk },
    );
    if found {
        assert(actions[0] == LauncherAction::Print { line: LauncherLine::VanguardDetected });
        assert(!actions.contains(LauncherAction::Print { line: LauncherLine::NoVanguard }));
    } else {
        assert(actions[0] == LauncherAction::Print { line: LauncherLine::NoVanguard });
        assert(!actions.contains(LauncherAction::Print { line: LauncherLine::VanguardDetected }));
    }
}

/// After the scan: an unreadable process list is reported and ends the
/// launcher; `vgc` is stopped, then `vgk`, then the warning is shown; OK
/// opens the guide and anything else prints "User cancelled." and exits;
/// the guide's decision to launch launches, otherwise the launcher exits.
pub proof fn lemma_course_after_scan(accepted: bool, launch: bool)
    ensures
        launcher_transition(LauncherPhase::Scanning, LauncherEvent::ScanFailed) == (
        LauncherPhase::Finished, seq![LauncherAction::ReportScanError]),
        launcher_transition(LauncherPhase::StoppingVgc, LauncherEvent::ServiceStopFinished) == (
        LauncherPhase::StoppingVgk, seq![LauncherAction::StopService { service: VanguardService::Vgk }]),
        launcher_transition(LauncherPhase::StoppingVgk, LauncherEvent::ServiceStopFinished) == (
        LauncherPhase::Warning, seq![
            LauncherAction::Print { line: LauncherLine::GuideHeading },
            LauncherAction::ShowWarning,
        ]),
        launcher_transition(LauncherPhase::Warning, LauncherEvent::WarningAnswered { accepted }) == if accepted {
            (LauncherPhase::Guide, seq![LauncherAction::RunGuide])
        } else {
            (
                LauncherPhase::Finished,
                seq![LauncherAction::Print { line: LauncherLine::UserCancelled }, LauncherAction::Exit],
            )
        },
        launcher_transition(LauncherPhase::Guide, LauncherEvent::GuideClosed { launch }) == if launch {
            (
                LauncherPhase::Finished,
                seq![
                    LauncherAction::Print { line: LauncherLine::LaunchHeadingAfterGap },
                    LauncherAction::LaunchGame,
                ],
            )
        } else {
            (LauncherPhase::Finished, seq![LauncherAction::Exit])
        },
        service_name_spec(VanguardService::Vgc) == "vgc"@,
        service_name_spec(VanguardService::Vgk) == "vgk"@,
        IDOK_ANSWER == 1,
{
}

/// The printed lines, and which go to the error stream.
pub proof fn lemma_line_texts(line: LauncherLine)
    ensures
        line_text_spec(LauncherLine::NoVanguard) == "No Vanguard detected. Launching..."@,
        line_text_spec(LauncherLine::LaunchHeading) == "\u{2500}\u{2500} Launch \u{2500}\u{2500}"@,
        line_text_spec(LauncherLine::LaunchHeadingAfterGap) == "\n\u{2500}\u{2500} Launch \u{2500}\u{2500}"@,
        line_text_spec(LauncherLine::VanguardDetected) == "Vanguard detected:"@,
        line_text_spec(LauncherLine::ServiceStopHeading) == "\n\u{2500}\u{2500} Service Stop \u{2500}\u{2500}"@,
        line_text_spec(LauncherLine::GuideHeading) == "\n\u{2500}\u{2500} GUI Dialog \u{2500}\u{2500}"@,
        line_text_spec(LauncherLine::UserCancelled) == "User cancelled."@,
        line_is_error(line) == (line == LauncherLine::UserCancelled),
{
}

/// The game's path: a given argument is used when it exists and otherwise
/// refused with its own text, never replaced by the launcher's directory;
/// without an argument the patcher beside the launcher is used when it
/// exists; every refusal says why.
pub proof fn lemma_game_path(shown: String, present: bool, reason: String)
    ensures
        game_path_outcome((GamePathProbe::Argument { shown, exists: present })) == if present {
            Ok::<GameLocation, Seq<char>>(GameLocation::Argument)
        } else {
            Err("Specified path not found:\n"@ + shown@)
        },
        game_path_outcome((GamePathProbe::BesideLauncher { shown, exists: present })) == if present {
            Ok::<GameLocation, Seq<char>>(GameLocation::BesideLauncher)
        } else {
            Err("patcher_cf2.exe not found at:\n"@ + shown@
                + "\n\nPlace cf_launcher.exe in the same directory as patcher_cf2.exe, or pass the full path as a command-line argument."@)
        },
        game_path_outcome((GamePathProbe::LauncherUnknown { reason })) == Err::<GameLocation, Seq<char>>(
            "Cannot determine launcher path: "@ + reason@,
        ),
        game_path_outcome(GamePathProbe::NoLauncherDirectory) == Err::<GameLocation, Seq<char>>(
            "Cannot determine launcher directory"@,
        ),
        game_exe_name_spec() == "patcher_cf2.exe"@,
{
}

/// The dialog texts around the launch.
pub proof fn lemma_dialog_texts(msg: Seq<char>, path: Seq<char>, reason: Seq<char>)
    ensures
        error_dialog_text_spec(msg)
            == "Please contact management and tell them about this error. If possible, you may send this as screenshot accordingly.\n\n"@
            + msg,
        launch_failure_text_spec(path, reason) == "Failed to launch "@ + path + ":\n"@ + reason,
        window_title_spec() == "CrossFire PH Launcher"@,
        error_title_spec() == "CrossFire PH Launcher - Error"@,
        warning_text_spec()
            == "Vanguard is preventing CrossFire PH from starting.\n\nIf you want to play League of Legends or Valorant afterwards,\nyou must restart this PC after exiting Vanguard.\n\nClick OK to open the step-by-step guide, or Cancel to exit."@,
{
}

} // verus!
