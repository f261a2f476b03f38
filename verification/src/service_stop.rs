//! The routine that stops a Windows service gracefully, as a state machine:
//! the caller performs each action against the service manager and feeds
//! back what happened.
use vstd::prelude::*;
use crate::process::{SERVICE_RUNNING_STATE, SERVICE_STOPPED_STATE};
use crate::text::{decimal_text, push_decimal};

verus! {

/// The last-error code of a service that does not accept a stop request
/// (`ERROR_SERVICE_CANNOT_ACCEPT_CTRL`).
pub const ERROR_CANNOT_ACCEPT_STOP: u32 = 1061;

/// How many times the status is polled after the stop request.
pub const STOP_POLL_LIMIT: u32 = 50;

/// Milliseconds to wait before each poll.
pub const STOP_POLL_INTERVAL_MS: u64 = 100;

/// Where the routine stands.
#[derive(Debug, Clone, Copy, PartialEq, Eq, Structural)]
pub enum StopStage {
    /// Waiting for the service manager to open.
    Connecting,
    /// Waiting for the service to open.
    OpeningService,
    /// Waiting for the first status query.
    Querying,
    /// Waiting for the answer to the stop request.
    Stopping,
    /// Waiting for status poll number `attempt` (counted from 0).
    Polling { attempt: u32 },
    /// Done; `result` is what the routine reports.
    Finished { result: bool },
}

/// What the caller observed after performing the last action.
#[derive(Debug, Clone, Copy, PartialEq, Eq, Structural)]
pub enum StopEvent {
    ManagerOpened,
    ManagerFailed,
    ServiceOpened,
    ServiceMissing,
    /// The service's `dwCurrentState`.
    StatusRead { state: u32 },
    StatusUnreadable,
    StopAccepted,
    /// The stop request failed with this last-error code.
    StopRejected { code: u32 },
}

/// What the caller does next.
#[derive(Debug, Clone, Copy, PartialEq, Eq, Structural)]
pub enum StopAction {
    OpenServiceManager,
    OpenService,
    QueryStatus,
    SendStop,
    /// Wait `STOP_POLL_INTERVAL_MS`, then query the status.
    WaitThenQuery,
    /// Stop; the routine's result.
    Done { result: bool },
}

/// A line the routine reports.
#[derive(Debug, Clone, Copy, PartialEq, Eq, Structural)]
pub enum StopNotice {
    ManagerError,
    NotFound,
    QueryFailed,
    AlreadyStopped,
    OtherState { state: u32 },
    StopRequested,
    Stopped,
    Timeout,
    TamperResistant,
    StopFailed,
}

/// One transition of the routine.
#[derive(Debug, Clone, Copy, PartialEq, Eq, Structural)]
pub struct StopStep {
    pub stage: StopStage,
    pub notice: Option<StopNotice>,
    pub action: StopAction,
}

/// A stage that the routine can reach: polls are numbered below the limit.
pub open spec fn stop_stage_valid(stage: StopStage) -> bool {
    match stage {
        StopStage::Polling { attempt } => attempt < STOP_POLL_LIMIT,
        _ => true,
    }
}

/// The action that a stage waits on.
pub open spec fn pending_action(stage: StopStage) -> StopAction {
    match stage {
        StopStage::Connecting => StopAction::OpenServiceManager,
        StopStage::OpeningService => StopAction::OpenService,
        StopStage::Querying => StopAction::QueryStatus,
        StopStage::Stopping => StopAction::SendStop,
        StopStage::Polling { .. } => StopAction::WaitThenQuery,
        StopStage::Finished { result } => StopAction::Done { result },
    }
}

pub open spec fn finish(result: bool, notice: Option<StopNotice>) -> StopStep {
    StopStep { stage: StopStage::Finished { result }, notice, action: StopAction::Done { result } }
}

/// The transition of the routine from `stage` on `event`. An event that the
/// stage does not wait for changes nothing and repeats the pending action.
pub open spec fn stop_transition(stage: StopStage, event: StopEvent) -> StopStep {
    let unchanged = StopStep { stage, notice: None, action: pending_action(stage) };
    match (stage, event) {
        (StopStage::Connecting, StopEvent::ManagerOpened) => StopStep {
            stage: StopStage::OpeningService,
            notice: None,
            action: StopAction::OpenService,
        },
        (StopStage::Connecting, StopEvent::ManagerFailed) => finish(false, Some(StopNotice::ManagerError)),
        (StopStage::OpeningService, StopEvent::ServiceOpened) => StopStep {
            stage: StopStage::Querying,
            notice: None,
            action: StopAction::QueryStatus,
        },
        (StopStage::OpeningService, StopEvent::ServiceMissing) => finish(true, Some(StopNotice::NotFound)),
        (StopStage::Querying, StopEvent::StatusUnreadable) => finish(false, Some(StopNotice::QueryFailed)),
        (StopStage::Querying, StopEvent::StatusRead { state }) => {
            if state == SERVICE_STOPPED_STATE {
                finish(true, Some(StopNotice::AlreadyStopped))
            } else if state != SERVICE_RUNNING_STATE {
                finish(true, Some(StopNotice::OtherState { state }))
            } else {
                StopStep {
                    stage: StopStage::Stopping,
                    notice: Some(StopNotice::StopRequested),
                    action: StopAction::SendStop,
                }
            }
        },
        (StopStage::Stopping, StopEvent::StopAccepted) => StopStep {
            stage: StopStage::Polling { attempt: 0 },
            notice: None,
            action: StopAction::WaitThenQuery,
        },
        (StopStage::Stopping, StopEvent::StopRejected { code }) => {
            if code == ERROR_CANNOT_ACCEPT_STOP {
                finish(false, Some(StopNotice::TamperResistant))
            } else {
                finish(false, Some(StopNotice::StopFailed))
            }
        },
        (StopStage::Polling { .. }, StopEvent::StatusUnreadable) => finish(false, None),
        (StopStage::Polling { attempt }, StopEvent::StatusRead { state }) => {
            if state == SERVICE_STOPPED_STATE {
                finish(true, Some(StopNotice::Stopped))
            } else if attempt + 1 >= STOP_POLL_LIMIT {
                finish(false, Some(StopNotice::Timeout))
            } else {
                StopStep {
                    stage: StopStage::Polling { attempt: (attempt + 1) as u32 },
                    notice: None,
                    action: StopAction::WaitThenQuery,
                }
            }
        },
        _ => unchanged,
    }
}

/// The first stage and action of the routine.
pub fn stop_begin() -> (step: StopStep)
    ensures
        step == (StopStep {
            stage: StopStage::Connecting,
            notice: None,
            action: StopAction::OpenServiceManager,
        }),
{
    StopStep { stage: StopStage::Connecting, notice: None, action: StopAction::OpenServiceManager }
}

fn finish_with(result: bool, notice: Option<StopNotice>) -> (step: StopStep)
    ensures
        step == finish(result, notice),
{
    StopStep { stage: StopStage::Finished { result }, notice, action: StopAction::Done { result } }
}

/// Advances the routine by one event.
pub fn stop_step(stage: StopStage, event: StopEvent) -> (step: StopStep)
    requires
        stop_stage_valid(stage),
    ensures
        step == stop_transition(stage, event),
        stop_stage_valid(step.stage),
{
    match (stage, event) {
        (StopStage::Connecting, StopEvent::ManagerOpened) => StopStep {
            stage: StopStage::OpeningService,
            notice: None,
            action: StopAction::OpenService,
        },
        (StopStage::Connecting, StopEvent::ManagerFailed) => finish_with(false, Some(StopNotice::ManagerError)),
        (StopStage::OpeningService, StopEvent::ServiceOpened) => StopStep {
            stage: StopStage::Querying,
            notice: None,
            action: StopAction::QueryStatus,
        },
        (StopStage::OpeningService, StopEvent::ServiceMissing) => finish_with(true, Some(StopNotice::NotFound)),
        (StopStage::Querying, StopEvent::StatusUnreadable) => finish_with(false, Some(StopNotice::QueryFailed)),
        (StopStage::Querying, StopEvent::StatusRead { state }) => {
            if state == SERVICE_STOPPED_STATE {
                finish_with(true, Some(StopNotice::AlreadyStopped))
            } else if state != SERVICE_RUNNING_STATE {
                finish_with(true, Some(StopNotice::OtherState { state }))
            } else {
                StopStep {
                    stage: StopStage::Stopping,
                    notice: Some(StopNotice::StopRequested),
                    action: StopAction::SendStop,
                }
            }
        },
        (StopStage::Stopping, StopEvent::StopAccepted) => StopStep {
            stage: StopStage::Polling { attempt: 0 },
            notice: None,
            action: StopAction::WaitThenQuery,
        },
        (StopStage::Stopping, StopEvent::StopRejected { code }) => {
            if code == ERROR_CANNOT_ACCEPT_STOP {
                finish_with(false, Some(StopNotice::TamperResistant))
            } else {
                finish_with(false, Some(StopNotice::StopFailed))
            }
        },
        (StopStage::Polling { .. }, StopEvent::StatusUnreadable) => finish_with(false, None),
        (StopStage::Polling { attempt }, StopEvent::StatusRead { state }) => {
            if state == SERVICE_STOPPED_STATE {
                finish_with(true, Some(StopNotice::Stopped))
            } else if attempt + 1 >= STOP_POLL_LIMIT {
                finish_with(false, Some(StopNotice::Timeout))
            } else {
                StopStep {
                    stage: StopStage::Polling { attempt: attempt + 1 },
                    notice: None,
                    action: StopAction::WaitThenQuery,
                }
            }
        },
        _ => {
            let action = match stage {
                StopStage::Connecting => StopAction::OpenServiceManager,
                StopStage::OpeningService => StopAction::OpenService,
                StopStage::Querying => StopAction::QueryStatus,
                StopStage::Stopping => StopAction::SendStop,
                StopStage::Polling { .. } => StopAction::WaitThenQuery,
                StopStage::Finished { result } => StopAction::Done { result },
            };
            StopStep { stage, notice: None, action }
        },
    }
}


/// How far a stage is from the end: every event that the stage waits for
/// lowers it.
pub open spec fn stop_rank(stage: StopStage) -> int {
    match stage {
        StopStage::Connecting => STOP_POLL_LIMIT + 4,
        StopStage::OpeningService => STOP_POLL_LIMIT + 3,
        StopStage::Querying => STOP_POLL_LIMIT + 2,
        StopStage::Stopping => STOP_POLL_LIMIT + 1,
        StopStage::Polling { attempt } => STOP_POLL_LIMIT - attempt,
        StopStage::Finished { .. } => 0,
    }
}

/// The routine always ends: each event either leaves the stage and its
/// pending action as they were, or moves to a stage of lower rank, and the
/// rank is never negative. So it performs at most `STOP_POLL_LIMIT` polls.
pub proof fn lemma_stop_routine_terminates(stage: StopStage, event: StopEvent)
    requires
        stop_stage_valid(stage),
    ensures
        0 <= stop_rank(stage),
        ({
            let step = stop_transition(stage, event);
            ||| (step.stage == stage && step.action == pending_action(stage) && step.notice is None)
            ||| (0 <= stop_rank(step.stage) < stop_rank(stage))
        }),
{
}

/// The routine reports success only when the service could not be opened
/// (it does not exist), was not running when first queried, or was seen
/// stopped while polling.
pub proof fn lemma_stop_success_only_when_not_running(stage: StopStage, event: StopEvent)
    requires
        stop_stage_valid(stage),
        !(stage is Finished),
        stop_transition(stage, event).action == (StopAction::Done { result: true }),
    ensures
        ({
            ||| (stage == StopStage::OpeningService && event == StopEvent::ServiceMissing)
            ||| (stage == StopStage::Querying && (event matches StopEvent::StatusRead { state }
                && state != SERVICE_RUNNING_STATE))
            ||| (stage is Polling && event == (StopEvent::StatusRead { state: SERVICE_STOPPED_STATE }))
        }),
{
}

/// A stop request is sent only right after the first query found the
/// service running.
pub proof fn lemma_stop_sent_only_when_running(stage: StopStage, event: StopEvent)
    requires
        stop_stage_valid(stage),
        stage != StopStage::Stopping,
        stop_transition(stage, event).action == StopAction::SendStop,
    ensures
        stage == StopStage::Querying,
        event == (StopEvent::StatusRead { state: SERVICE_RUNNING_STATE }),
{
}

/// Whether a notice goes to the error stream.
pub open spec fn notice_is_error(notice: StopNotice) -> bool {
    match notice {
        StopNotice::ManagerError | StopNotice::QueryFailed | StopNotice::Timeout
        | StopNotice::StopFailed => true,
        _ => false,
    }
}

/// The text of a notice about service `name`; `detail` is the system's
/// description of the failure, used by the notices that report one.
pub open spec fn notice_text(notice: StopNotice, name: Seq<char>, detail: Seq<char>) -> Seq<char> {
    match notice {
        StopNotice::ManagerError => "  \u{2717} SCM: "@ + detail,
        StopNotice::NotFound => "  \u{2139}  "@ + name + " not found."@,
        StopNotice::QueryFailed => "  \u{2717} Failed to query "@ + name + " status."@,
        StopNotice::AlreadyStopped => "  \u{2139}  "@ + name + " already stopped."@,
        StopNotice::OtherState { state } => "  \u{2139}  "@ + name + " state="@ + decimal_text(
            state as nat,
        ) + "."@,
        StopNotice::StopRequested => "  \u{23f9}  Stopping "@ + name + " ..."@,
        StopNotice::Stopped => "  \u{2713} "@ + name + " stopped."@,
        StopNotice::Timeout => "  \u{26a0}  "@ + name + " stop timeout."@,
        StopNotice::TamperResistant => "  \u{26a0}  "@ + name + " is tamper-resistant."@,
        StopNotice::StopFailed => "  \u{2717} Failed to stop "@ + name + ": "@ + detail,
    }
}

/// Whether `notice` goes to the error stream rather than the output stream.
pub fn is_error_notice(notice: StopNotice) -> (r: bool)
    ensures
        r == notice_is_error(notice),
{
    match notice {
        StopNotice::ManagerError | StopNotice::QueryFailed | StopNotice::Timeout
        | StopNotice::StopFailed => true,
        _ => false,
    }
}

/// The line reported for `notice` about service `name`.
pub fn notice_line(notice: StopNotice, name: &str, detail: &str) -> (line: String)
    ensures
        line@ == notice_text(notice, name@, detail@),
{
    match notice {
        StopNotice::ManagerError => {
            let mut l = String::from_str("  \u{2717} SCM: ");
            l.append(detail);
            l
        },
        StopNotice::NotFound => {
            let mut l = String::from_str("  \u{2139}  ");
            l.append(name);
            l.append(" not found.");
            l
        },
        StopNotice::QueryFailed => {
            let mut l = String::from_str("  \u{2717} Failed to query ");
            l.append(name);
            l.append(" status.");
            l
        },
        StopNotice::AlreadyStopped => {
            let mut l = String::from_str("  \u{2139}  ");
            l.append(name);
            l.append(" already stopped.");
            l
        },
        StopNotice::OtherState { state } => {
            let mut l = String::from_str("  \u{2139}  ");
            l.append(name);
            l.append(" state=");
            push_decimal(&mut l, state);
            l.append(".");
            l
        },
        StopNotice::StopRequested => {
            let mut l = String::from_str("  \u{23f9}  Stopping ");
            l.append(name);
            l.append(" ...");
            l
        },
        StopNotice::Stopped => {
            let mut l = String::from_str("  \u{2713} ");
            l.append(name);
            l.append(" stopped.");
            l
        },
        StopNotice::Timeout => {
            let mut l = String::from_str("  \u{26a0}  ");
            l.append(name);
            l.append(" stop timeout.");
            l
        },
        StopNotice::TamperResistant => {
            let mut l = String::from_str("  \u{26a0}  ");
            l.append(name);
            l.append(" is tamper-resistant.");
            l
        },
        StopNotice::StopFailed => {
            let mut l = String::from_str("  \u{2717} Failed to stop ");
            l.append(name);
            l.append(": ");
            l.append(detail);
            l
        },
    }
}


/// While polling, a status of stopped always ends the routine in success
/// with the "stopped" notice, whatever the poll number; any other status
/// waits for the next poll, except at the 50th poll, which gives up with
/// the timeout notice; an unreadable status ends it in failure, silently.
pub proof fn lemma_polling(attempt: u32, state: u32)
    requires
        attempt < 50,
    ensures
        stop_transition(StopStage::Polling { attempt }, StopEvent::StatusRead { state: 1 }) == (StopStep {
            stage: StopStage::Finished { result: true },
            notice: Some(StopNotice::Stopped),
            action: StopAction::Done { result: true },
        }),
        state != 1 && attempt < 49 ==> stop_transition(
            StopStage::Polling { attempt },
            StopEvent::StatusRead { state },
        ) == (StopStep {
            stage: StopStage::Polling { attempt: (attempt + 1) as u32 },
            notice: None,
            action: StopAction::WaitThenQuery,
        }),
        state != 1 && attempt == 49 ==> stop_transition(
            StopStage::Polling { attempt },
            StopEvent::StatusRead { state },
        ) == (StopStep {
            stage: StopStage::Finished { result: false },
            notice: Some(StopNotice::Timeout),
            action: StopAction::Done { result: false },
        }),
        stop_transition(StopStage::Polling { attempt }, StopEvent::StatusUnreadable) == (StopStep {
            stage: StopStage::Finished { result: false },
            notice: None,
            action: StopAction::Done { result: false },
        }),
        STOP_POLL_LIMIT == 50 && STOP_POLL_INTERVAL_MS == 100,
{
}

/// Before the stop request: the routine opens the service manager, then the
/// service (a missing service is success), then reads the status once:
/// stopped or any state but running is success without a request, running
/// sends the request; the request is answered by polling, or fails (1061
/// meaning the service refuses stops).
pub proof fn lemma_before_polling(state: u32, code: u32)
    ensures
        stop_transition(StopStage::Connecting, StopEvent::ManagerOpened) == (StopStep {
            stage: StopStage::OpeningService,
            notice: None,
            action: StopAction::OpenService,
        }),
        stop_transition(StopStage::Connecting, StopEvent::ManagerFailed) == (StopStep {
            stage: StopStage::Finished { result: false },
            notice: Some(StopNotice::ManagerError),
            action: StopAction::Done { result: false },
        }),
        stop_transition(StopStage::OpeningService, StopEvent::ServiceOpened) == (StopStep {
            stage: StopStage::Querying,
            notice: None,
            action: StopAction::QueryStatus,
        }),
        stop_transition(StopStage::OpeningService, StopEvent::ServiceMissing) == (StopStep {
            stage: StopStage::Finished { result: true },
            notice: Some(StopNotice::NotFound),
            action: StopAction::Done { result: true },
        }),
        stop_transition(StopStage::Querying, StopEvent::StatusUnreadable) == (StopStep {
            stage: StopStage::Finished { result: false },
            notice: Some(StopNotice::QueryFailed),
            action: StopAction::Done { result: false },
        }),
        stop_transition(StopStage::Querying, StopEvent::StatusRead { state: 1 }) == (StopStep {
            stage: StopStage::Finished { result: true },
            notice: Some(StopNotice::AlreadyStopped),
            action: StopAction::Done { result: true },
        }),
        stop_transition(StopStage::Querying, StopEvent::StatusRead { state: 4 }) == (StopStep {
            stage: StopStage::Stopping,
            notice: Some(StopNotice::StopRequested),
            action: StopAction::SendStop,
        }),
        state != 1 && state != 4 ==> stop_transition(
            StopStage::Querying,
            StopEvent::StatusRead { state },
        ) == (StopStep {
            stage: StopStage::Finished { result: true },
            notice: Some(StopNotice::OtherState { state }),
            action: StopAction::Done { result: true },
        }),
        stop_transition(StopStage::Stopping, StopEvent::StopAccepted) == (StopStep {
            stage: StopStage::Polling { attempt: 0 },
            notice: None,
            action: StopAction::WaitThenQuery,
        }),
        stop_transition(StopStage::Stopping, StopEvent::StopRejected { code }) == (StopStep {
            stage: StopStage::Finished { result: false },
            notice: Some(if code == 1061 { StopNotice::TamperResistant } else { StopNotice::StopFailed }),
            action: StopAction::Done { result: false },
        }),
{
}

/// The notice texts: each names the service, and the two failure notices
/// carry the system's description; failures go to the error stream.
pub proof fn lemma_notice_texts(name: Seq<char>, detail: Seq<char>, state: u32)
    ensures
        notice_text(StopNotice::ManagerError, name, detail) == "  \u{2717} SCM: "@ + detail,
        notice_text(StopNotice::NotFound, name, detail) == "  \u{2139}  "@ + name + " not found."@,
        notice_text(StopNotice::QueryFailed, name, detail) == "  \u{2717} Failed to query "@ + name
            + " status."@,
        notice_text(StopNotice::AlreadyStopped, name, detail) == "  \u{2139}  "@ + name
            + " already stopped."@,
        notice_text(StopNotice::OtherState { state }, name, detail) == "  \u{2139}  "@ + name
            + " state="@ + decimal_text(state as nat) + "."@,
        notice_text(StopNotice::StopRequested, name, detail) == "  \u{23f9}  Stopping "@ + name
            + " ..."@,
        notice_text(StopNotice::Stopped, name, detail) == "  \u{2713} "@ + name + " stopped."@,
        notice_text(StopNotice::Timeout, name, detail) == "  \u{26a0}  "@ + name
            + " stop timeout."@,
        notice_text(StopNotice::TamperResistant, name, detail) == "  \u{26a0}  "@ + name
            + " is tamper-resistant."@,
        notice_text(StopNotice::StopFailed, name, detail) == "  \u{2717} Failed to stop "@ + name
            + ": "@ + detail,
        notice_is_error(StopNotice::ManagerError) && notice_is_error(StopNotice::QueryFailed)
            && notice_is_error(StopNotice::Timeout) && notice_is_error(StopNotice::StopFailed),
        !notice_is_error(StopNotice::NotFound) && !notice_is_error(StopNotice::AlreadyStopped)
            && !notice_is_error(StopNotice::OtherState { state })
            && !notice_is_error(StopNotice::StopRequested) && !notice_is_error(StopNotice::Stopped)
            && !notice_is_error(StopNotice::TamperResistant),
{
}

} // verus!
