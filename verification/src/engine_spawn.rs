//! Starting a prepared engine configuration, one decision at a time: the
//! checks before the start is admitted, the Linux packet filter, the
//! spawn, the Windows job object, the grace period, the output pipes and
//! the readiness check, and what is undone when a step fails. The caller
//! performs each action and reports what came of it.

use vstd::prelude::*;
use crate::preset::{EngineError, EngineErrorView};
use crate::text::concat;

verus! {

/// Why a start did not come through.
#[derive(Debug, Clone, PartialEq, Eq)]
pub enum EngineSpawnFailure {
    /// Windows needs administrator rights.
    NotElevated,
    /// The preset's arguments were refused.
    ArgumentsRefused(EngineError),
    /// Another start, stop or process holds the engine.
    NotAdmitted,
    /// The DNS kill switch needs the local forwarder, which is not running.
    KillSwitchWithoutForwarder,
    /// The Linux packet filter could not be applied.
    FilterFailed(String),
    /// The Linux packet filter is not owned by this start.
    FilterNotOwned,
    /// The process could not be started.
    SpawnFailed(String),
    /// The process has no id.
    NoPid,
    /// The start was cancelled during the grace period.
    Cancelled,
    /// Whether the process exited could not be asked.
    ExitCheckFailed(String),
    /// The process exited during the grace period.
    ExitedEarly,
    /// The Windows job object could not hold the process.
    JobObjectFailed(String),
    NoStdout,
    NoStderr,
    /// The process died, or runs another configuration, after the grace
    /// period.
    NotReady,
}

pub open spec fn spawn_failure_error(f: EngineSpawnFailure, windows: bool) -> EngineErrorView {
    match f {
        EngineSpawnFailure::NotElevated => EngineErrorView::InsufficientPrivileges,
        EngineSpawnFailure::ArgumentsRefused(e) => e@,
        EngineSpawnFailure::NotAdmitted => EngineErrorView::AlreadyRunning,
        EngineSpawnFailure::KillSwitchWithoutForwarder => EngineErrorView::ConfigParseError(
            "DNS Kill Switch requires the encrypted local DNS forwarder to be running."@,
        ),
        EngineSpawnFailure::FilterFailed(m) => EngineErrorView::AuthorizationFailed(m@),
        EngineSpawnFailure::FilterNotOwned => EngineErrorView::AuthorizationFailed(
            "Linux filter ownership verification failed"@,
        ),
        EngineSpawnFailure::SpawnFailed(m) => EngineErrorView::SpawnFailed(m@),
        EngineSpawnFailure::NoPid => EngineErrorView::SpawnFailed("Linux engine PID unavailable"@),
        EngineSpawnFailure::Cancelled => EngineErrorView::NotRunning,
        EngineSpawnFailure::ExitCheckFailed(m) => EngineErrorView::IoError(m@),
        EngineSpawnFailure::ExitedEarly => EngineErrorView::SpawnFailed("Linux engine exited before readiness"@),
        EngineSpawnFailure::JobObjectFailed(m) => EngineErrorView::IoError(
            "Kernel-level process guard (Job Object) could not be created: "@ + m@,
        ),
        EngineSpawnFailure::NoStdout => EngineErrorView::IoError(
            if windows { "stdout pipe oluşturulamadı"@ } else { "stdout pipe unavailable"@ },
        ),
        EngineSpawnFailure::NoStderr => EngineErrorView::IoError(
            if windows { "stderr pipe oluşturulamadı"@ } else { "stderr pipe unavailable"@ },
        ),
        EngineSpawnFailure::NotReady => EngineErrorView::SpawnFailed(
            "Owned process failed readiness or exact-config verification"@,
        ),
    }
}

impl EngineSpawnFailure {
    /// The engine error the start reports.
    pub fn to_engine_error(&self, windows: bool) -> (e: EngineError)
        ensures
            e@ == spawn_failure_error(*self, windows),
    {
        match self {
            EngineSpawnFailure::NotElevated => EngineError::InsufficientPrivileges,
            EngineSpawnFailure::ArgumentsRefused(e) => copy_engine_error(e),
            EngineSpawnFailure::NotAdmitted => EngineError::AlreadyRunning,
            EngineSpawnFailure::KillSwitchWithoutForwarder => EngineError::ConfigParseError(
                "DNS Kill Switch requires the encrypted local DNS forwarder to be running.".to_string(),
            ),
            EngineSpawnFailure::FilterFailed(m) => EngineError::AuthorizationFailed(m.clone()),
            EngineSpawnFailure::FilterNotOwned => EngineError::AuthorizationFailed(
                "Linux filter ownership verification failed".to_string(),
            ),
            EngineSpawnFailure::SpawnFailed(m) => EngineError::SpawnFailed(m.clone()),
            EngineSpawnFailure::NoPid => EngineError::SpawnFailed("Linux engine PID unavailable".to_string()),
            EngineSpawnFailure::Cancelled => EngineError::NotRunning,
            EngineSpawnFailure::ExitCheckFailed(m) => EngineError::IoError(m.clone()),
            EngineSpawnFailure::ExitedEarly => EngineError::SpawnFailed(
                "Linux engine exited before readiness".to_string(),
            ),
            EngineSpawnFailure::JobObjectFailed(m) => EngineError::IoError(
                concat("Kernel-level process guard (Job Object) could not be created: ", m.as_str()),
            ),
            EngineSpawnFailure::NoStdout => EngineError::IoError(
                if windows { "stdout pipe oluşturulamadı".to_string() } else { "stdout pipe unavailable".to_string() },
            ),
            EngineSpawnFailure::NoStderr => EngineError::IoError(
                if windows { "stderr pipe oluşturulamadı".to_string() } else { "stderr pipe unavailable".to_string() },
            ),
            EngineSpawnFailure::NotReady => EngineError::SpawnFailed(
                "Owned process failed readiness or exact-config verification".to_string(),
            ),
        }
    }
}

/// Where a start stands.
#[derive(Debug, Clone, PartialEq, Eq)]
pub enum EngineSpawnState {
    /// Nothing done yet.
    Requested,
    /// Waiting to be admitted by the engine's state.
    Admitting { windows: bool },
    /// The Linux packet filter is being applied.
    Filtering,
    /// The process is being started.
    Spawning { windows: bool },
    /// The Windows job object is being given the process.
    Guarding { pid: u32 },
    /// The Linux grace period runs.
    Settling { pid: u32 },
    /// Asking whether the process exited during the grace period.
    CheckingExit { pid: u32 },
    /// The output pipes are being taken.
    Piping { pid: u32, windows: bool },
    /// The readiness check runs after the grace period.
    Confirming { pid: u32 },
    /// The process runs.
    Running { pid: u32 },
    /// The start failed.
    Failed { failure: EngineSpawnFailure, windows: bool },
}

/// What came of the last action.
#[derive(Debug, PartialEq, Eq)]
pub enum EngineSpawnEvent {
    /// A start is asked for, with the platform, whether the app runs
    /// elevated, and the check of the preset's arguments.
    Start { windows: bool, elevated: bool, arguments: Result<(), EngineError> },
    /// The engine's state answered, with the kill switch setting and
    /// whether the forwarder runs.
    Admitted { admitted: bool, kill_switch: bool, forwarder_active: bool },
    /// The filter was applied with this queue and ownership verdict, or not.
    FilterApplied(Result<(u16, bool), String>),
    /// The process was started with this id (if it has one), or not.
    Spawned(Result<Option<u32>, String>),
    /// The job object took the process, or not.
    JobAssigned(Result<(), String>),
    /// The grace period ended, or the start was cancelled during it.
    GraceEnded { cancelled: bool },
    /// Whether the process has exited, or the question failed.
    ExitChecked(Result<bool, String>),
    /// Which pipes could be taken.
    PipesTaken { stdout: bool, stderr: bool },
    /// After the grace period: whether the process lives and runs exactly
    /// the prepared configuration.
    ReadinessChecked { alive: bool, config_matches: bool },
}

/// What to do next.
#[derive(Debug, Clone, PartialEq, Eq)]
pub enum EngineSpawnAction {
    /// Ask the engine's state to admit the start (`begin_start`).
    Admit,
    /// Apply the Linux packet filter.
    ApplyFilter,
    /// Start the process; on Linux with the filter's queue first.
    Spawn { queue: Option<u16> },
    /// Give the process to a Windows job object.
    AssignJob { pid: u32 },
    /// Wait the grace period, unless the start is cancelled.
    WaitGrace { pid: u32 },
    /// Ask whether the process exited.
    CheckExited { pid: u32 },
    /// Take the output pipes.
    TakePipes { pid: u32 },
    /// Start the log readers, report waiting for readiness, wait the grace
    /// period and check the process.
    Settle { pid: u32 },
    /// Kill the child that was started, then fail.
    KillChild { pid: u32, failure: EngineSpawnFailure },
    /// Terminate the owned process, then fail.
    Terminate { pid: u32, failure: EngineSpawnFailure },
    /// Record the process as running (`set_state_running_if_starting`).
    MarkRunning { pid: u32 },
    /// Refuse before anything was admitted; the engine's state is untouched.
    Refuse(EngineSpawnFailure),
    /// Record the failure (`set_state_failed_if_starting`).
    Fail(EngineSpawnFailure),
    /// The event does not fit the state: nothing to do.
    Ignore,
}

pub open spec fn failed(f: EngineSpawnFailure, windows: bool) -> EngineSpawnState {
    EngineSpawnState::Failed { failure: f, windows }
}

/// The next state and action of a start.
pub open spec fn engine_spawn_next(state: EngineSpawnState, event: EngineSpawnEvent) -> (
    EngineSpawnState,
    EngineSpawnAction,
) {
    match (state, event) {
        (EngineSpawnState::Requested, EngineSpawnEvent::Start { windows, elevated, arguments }) => {
            if windows && !elevated {
                (failed(EngineSpawnFailure::NotElevated, windows), EngineSpawnAction::Refuse(
                    EngineSpawnFailure::NotElevated,
                ))
            } else {
                match arguments {
                    Err(e) => (
                        failed(EngineSpawnFailure::ArgumentsRefused(e), windows),
                        EngineSpawnAction::Refuse(EngineSpawnFailure::ArgumentsRefused(e)),
                    ),
                    Ok(()) => (EngineSpawnState::Admitting { windows }, EngineSpawnAction::Admit),
                }
            }
        },
        (EngineSpawnState::Admitting { windows }, EngineSpawnEvent::Admitted { admitted, kill_switch, forwarder_active }) => {
            if !admitted {
                (failed(EngineSpawnFailure::NotAdmitted, windows), EngineSpawnAction::Refuse(
                    EngineSpawnFailure::NotAdmitted,
                ))
            } else if kill_switch && !forwarder_active {
                (failed(EngineSpawnFailure::KillSwitchWithoutForwarder, windows), EngineSpawnAction::Fail(
                    EngineSpawnFailure::KillSwitchWithoutForwarder,
                ))
            } else if windows {
                (EngineSpawnState::Spawning { windows: true }, EngineSpawnAction::Spawn { queue: None })
            } else {
                (EngineSpawnState::Filtering, EngineSpawnAction::ApplyFilter)
            }
        },
        (EngineSpawnState::Filtering, EngineSpawnEvent::FilterApplied(result)) => match result {
            Err(m) => (failed(EngineSpawnFailure::FilterFailed(m), false), EngineSpawnAction::Fail(
                EngineSpawnFailure::FilterFailed(m),
            )),
            Ok((queue, owned)) => if !owned {
                (failed(EngineSpawnFailure::FilterNotOwned, false), EngineSpawnAction::Fail(
                    EngineSpawnFailure::FilterNotOwned,
                ))
            } else {
                (EngineSpawnState::Spawning { windows: false }, EngineSpawnAction::Spawn { queue: Some(queue) })
            },
        },
        (EngineSpawnState::Spawning { windows }, EngineSpawnEvent::Spawned(result)) => match result {
            Err(m) => (failed(EngineSpawnFailure::SpawnFailed(m), windows), EngineSpawnAction::Fail(
                EngineSpawnFailure::SpawnFailed(m),
            )),
            Ok(pid) => if windows {
                let p = match pid {
                    Some(p) => p,
                    None => 0u32,
                };
                (EngineSpawnState::Guarding { pid: p }, EngineSpawnAction::AssignJob { pid: p })
            } else {
                match pid {
                    None => (failed(EngineSpawnFailure::NoPid, false), EngineSpawnAction::Fail(
                        EngineSpawnFailure::NoPid,
                    )),
                    Some(p) => (EngineSpawnState::Settling { pid: p }, EngineSpawnAction::WaitGrace { pid: p }),
                }
            },
        },
        (EngineSpawnState::Guarding { pid }, EngineSpawnEvent::JobAssigned(result)) => match result {
            Err(m) => (failed(EngineSpawnFailure::JobObjectFailed(m), true), EngineSpawnAction::KillChild {
                pid,
                failure: EngineSpawnFailure::JobObjectFailed(m),
            }),
            Ok(()) => (EngineSpawnState::Piping { pid, windows: true }, EngineSpawnAction::TakePipes { pid }),
        },
        (EngineSpawnState::Settling { pid }, EngineSpawnEvent::GraceEnded { cancelled }) => if cancelled {
            (failed(EngineSpawnFailure::Cancelled, false), EngineSpawnAction::KillChild {
                pid,
                failure: EngineSpawnFailure::Cancelled,
            })
        } else {
            (EngineSpawnState::CheckingExit { pid }, EngineSpawnAction::CheckExited { pid })
        },
        (EngineSpawnState::CheckingExit { pid }, EngineSpawnEvent::ExitChecked(result)) => match result {
            Err(m) => (failed(EngineSpawnFailure::ExitCheckFailed(m), false), EngineSpawnAction::Fail(
                EngineSpawnFailure::ExitCheckFailed(m),
            )),
            Ok(exited) => if exited {
                (failed(EngineSpawnFailure::ExitedEarly, false), EngineSpawnAction::Fail(
                    EngineSpawnFailure::ExitedEarly,
                ))
            } else {
                (EngineSpawnState::Piping { pid, windows: false }, EngineSpawnAction::TakePipes { pid })
            },
        },
        (EngineSpawnState::Piping { pid, windows }, EngineSpawnEvent::PipesTaken { stdout, stderr }) => if !stdout {
            (failed(EngineSpawnFailure::NoStdout, windows), EngineSpawnAction::Fail(EngineSpawnFailure::NoStdout))
        } else if !stderr {
            (failed(EngineSpawnFailure::NoStderr, windows), EngineSpawnAction::Fail(EngineSpawnFailure::NoStderr))
        } else {
            (EngineSpawnState::Confirming { pid }, EngineSpawnAction::Settle { pid })
        },
        (EngineSpawnState::Confirming { pid }, EngineSpawnEvent::ReadinessChecked { alive, config_matches }) => if alive
            && config_matches {
            (EngineSpawnState::Running { pid }, EngineSpawnAction::MarkRunning { pid })
        } else {
            (failed(EngineSpawnFailure::NotReady, false), EngineSpawnAction::Terminate {
                pid,
                failure: EngineSpawnFailure::NotReady,
            })
        },
        (s, _) => (s, EngineSpawnAction::Ignore),
    }
}

/// A copy of an engine error.
pub fn copy_engine_error(e: &EngineError) -> (r: EngineError)
    ensures
        r == *e,
{
    match e {
        EngineError::InvalidPreset(m) => EngineError::InvalidPreset(m.clone()),
        EngineError::ConfigParseError(m) => EngineError::ConfigParseError(m.clone()),
        EngineError::IoError(m) => EngineError::IoError(m.clone()),
        EngineError::BinaryNotFound(m) => EngineError::BinaryNotFound(m.clone()),
        EngineError::SpawnFailed(m) => EngineError::SpawnFailed(m.clone()),
        EngineError::AuthorizationFailed(m) => EngineError::AuthorizationFailed(m.clone()),
        EngineError::AlreadyRunning => EngineError::AlreadyRunning,
        EngineError::NotRunning => EngineError::NotRunning,
        EngineError::InsufficientPrivileges => EngineError::InsufficientPrivileges,
    }
}

fn copy_failure(f: &EngineSpawnFailure) -> (r: EngineSpawnFailure)
    ensures
        r == *f,
{
    match f {
        EngineSpawnFailure::NotElevated => EngineSpawnFailure::NotElevated,
        EngineSpawnFailure::ArgumentsRefused(e) => EngineSpawnFailure::ArgumentsRefused(copy_engine_error(e)),
        EngineSpawnFailure::NotAdmitted => EngineSpawnFailure::NotAdmitted,
        EngineSpawnFailure::KillSwitchWithoutForwarder => EngineSpawnFailure::KillSwitchWithoutForwarder,
        EngineSpawnFailure::FilterFailed(m) => EngineSpawnFailure::FilterFailed(m.clone()),
        EngineSpawnFailure::FilterNotOwned => EngineSpawnFailure::FilterNotOwned,
        EngineSpawnFailure::SpawnFailed(m) => EngineSpawnFailure::SpawnFailed(m.clone()),
        EngineSpawnFailure::NoPid => EngineSpawnFailure::NoPid,
        EngineSpawnFailure::Cancelled => EngineSpawnFailure::Cancelled,
        EngineSpawnFailure::ExitCheckFailed(m) => EngineSpawnFailure::ExitCheckFailed(m.clone()),
        EngineSpawnFailure::ExitedEarly => EngineSpawnFailure::ExitedEarly,
        EngineSpawnFailure::JobObjectFailed(m) => EngineSpawnFailure::JobObjectFailed(m.clone()),
        EngineSpawnFailure::NoStdout => EngineSpawnFailure::NoStdout,
        EngineSpawnFailure::NoStderr => EngineSpawnFailure::NoStderr,
        EngineSpawnFailure::NotReady => EngineSpawnFailure::NotReady,
    }
}

fn copy_state(s: &EngineSpawnState) -> (r: EngineSpawnState)
    ensures
        r == *s,
{
    match s {
        EngineSpawnState::Requested => EngineSpawnState::Requested,
        EngineSpawnState::Admitting { windows } => EngineSpawnState::Admitting { windows: *windows },
        EngineSpawnState::Filtering => EngineSpawnState::Filtering,
        EngineSpawnState::Spawning { windows } => EngineSpawnState::Spawning { windows: *windows },
        EngineSpawnState::Guarding { pid } => EngineSpawnState::Guarding { pid: *pid },
        EngineSpawnState::Settling { pid } => EngineSpawnState::Settling { pid: *pid },
        EngineSpawnState::CheckingExit { pid } => EngineSpawnState::CheckingExit { pid: *pid },
        EngineSpawnState::Piping { pid, windows } => EngineSpawnState::Piping { pid: *pid, windows: *windows },
        EngineSpawnState::Confirming { pid } => EngineSpawnState::Confirming { pid: *pid },
        EngineSpawnState::Running { pid } => EngineSpawnState::Running { pid: *pid },
        EngineSpawnState::Failed { failure, windows } => EngineSpawnState::Failed {
            failure: copy_failure(failure),
            windows: *windows,
        },
    }
}

/// One decision of a start.
pub fn engine_spawn_step(state: &EngineSpawnState, event: EngineSpawnEvent) -> (r: (EngineSpawnState, EngineSpawnAction))
    ensures
        r == engine_spawn_next(*state, event),
{
    match (state, event) {
        (EngineSpawnState::Requested, EngineSpawnEvent::Start { windows, elevated, arguments }) => {
            if windows && !elevated {
                (
                    EngineSpawnState::Failed { failure: EngineSpawnFailure::NotElevated, windows },
                    EngineSpawnAction::Refuse(EngineSpawnFailure::NotElevated),
                )
            } else {
                match arguments {
                    Err(e) => (
                        EngineSpawnState::Failed { failure: EngineSpawnFailure::ArgumentsRefused(copy_engine_error(&e)), windows },
                        EngineSpawnAction::Refuse(EngineSpawnFailure::ArgumentsRefused(e)),
                    ),
                    Ok(()) => (EngineSpawnState::Admitting { windows }, EngineSpawnAction::Admit),
                }
            }
        },
        (
            EngineSpawnState::Admitting { windows },
            EngineSpawnEvent::Admitted { admitted, kill_switch, forwarder_active },
        ) => {
            let windows = *windows;
            if !admitted {
                (
                    EngineSpawnState::Failed { failure: EngineSpawnFailure::NotAdmitted, windows },
                    EngineSpawnAction::Refuse(EngineSpawnFailure::NotAdmitted),
                )
            } else if kill_switch && !forwarder_active {
                (
                    EngineSpawnState::Failed { failure: EngineSpawnFailure::KillSwitchWithoutForwarder, windows },
                    EngineSpawnAction::Fail(EngineSpawnFailure::KillSwitchWithoutForwarder),
                )
            } else if windows {
                (EngineSpawnState::Spawning { windows: true }, EngineSpawnAction::Spawn { queue: None })
            } else {
                (EngineSpawnState::Filtering, EngineSpawnAction::ApplyFilter)
            }
        },
        (EngineSpawnState::Filtering, EngineSpawnEvent::FilterApplied(result)) => match result {
            Err(m) => (
                EngineSpawnState::Failed { failure: EngineSpawnFailure::FilterFailed(m.clone()), windows: false },
                EngineSpawnAction::Fail(EngineSpawnFailure::FilterFailed(m)),
            ),
            Ok((queue, owned)) => if !owned {
                (
                    EngineSpawnState::Failed { failure: EngineSpawnFailure::FilterNotOwned, windows: false },
                    EngineSpawnAction::Fail(EngineSpawnFailure::FilterNotOwned),
                )
            } else {
                (EngineSpawnState::Spawning { windows: false }, EngineSpawnAction::Spawn { queue: Some(queue) })
            },
        },
        (EngineSpawnState::Spawning { windows }, EngineSpawnEvent::Spawned(result)) => {
            let windows = *windows;
            match result {
                Err(m) => (
                    EngineSpawnState::Failed { failure: EngineSpawnFailure::SpawnFailed(m.clone()), windows },
                    EngineSpawnAction::Fail(EngineSpawnFailure::SpawnFailed(m)),
                ),
                Ok(pid) => if windows {
                    let p = match pid {
                        Some(p) => p,
                        None => 0u32,
                    };
                    (EngineSpawnState::Guarding { pid: p }, EngineSpawnAction::AssignJob { pid: p })
                } else {
                    match pid {
                        None => (
                            EngineSpawnState::Failed { failure: EngineSpawnFailure::NoPid, windows: false },
                            EngineSpawnAction::Fail(EngineSpawnFailure::NoPid),
                        ),
                        Some(p) => (EngineSpawnState::Settling { pid: p }, EngineSpawnAction::WaitGrace { pid: p }),
                    }
                },
            }
        },
        (EngineSpawnState::Guarding { pid }, EngineSpawnEvent::JobAssigned(result)) => {
            let pid = *pid;
            match result {
                Err(m) => (
                    EngineSpawnState::Failed { failure: EngineSpawnFailure::JobObjectFailed(m.clone()), windows: true },
                    EngineSpawnAction::KillChild { pid, failure: EngineSpawnFailure::JobObjectFailed(m) },
                ),
                Ok(()) => (EngineSpawnState::Piping { pid, windows: true }, EngineSpawnAction::TakePipes { pid }),
            }
        },
        (EngineSpawnState::Settling { pid }, EngineSpawnEvent::GraceEnded { cancelled }) => {
            let pid = *pid;
            if cancelled {
                (
                    EngineSpawnState::Failed { failure: EngineSpawnFailure::Cancelled, windows: false },
                    EngineSpawnAction::KillChild { pid, failure: EngineSpawnFailure::Cancelled },
                )
            } else {
                (EngineSpawnState::CheckingExit { pid }, EngineSpawnAction::CheckExited { pid })
            }
        },
        (EngineSpawnState::CheckingExit { pid }, EngineSpawnEvent::ExitChecked(result)) => {
            let pid = *pid;
            match result {
                Err(m) => (
                    EngineSpawnState::Failed { failure: EngineSpawnFailure::ExitCheckFailed(m.clone()), windows: false },
                    EngineSpawnAction::Fail(EngineSpawnFailure::ExitCheckFailed(m)),
                ),
                Ok(exited) => if exited {
                    (
                        EngineSpawnState::Failed { failure: EngineSpawnFailure::ExitedEarly, windows: false },
                        EngineSpawnAction::Fail(EngineSpawnFailure::ExitedEarly),
                    )
                } else {
                    (EngineSpawnState::Piping { pid, windows: false }, EngineSpawnAction::TakePipes { pid })
                },
            }
        },
        (EngineSpawnState::Piping { pid, windows }, EngineSpawnEvent::PipesTaken { stdout, stderr }) => {
            let pid = *pid;
            let windows = *windows;
            if !stdout {
                (
                    EngineSpawnState::Failed { failure: EngineSpawnFailure::NoStdout, windows },
                    EngineSpawnAction::Fail(EngineSpawnFailure::NoStdout),
                )
            } else if !stderr {
                (
                    EngineSpawnState::Failed { failure: EngineSpawnFailure::NoStderr, windows },
                    EngineSpawnAction::Fail(EngineSpawnFailure::NoStderr),
                )
            } else {
                (EngineSpawnState::Confirming { pid }, EngineSpawnAction::Settle { pid })
            }
        },
        (EngineSpawnState::Confirming { pid }, EngineSpawnEvent::ReadinessChecked { alive, config_matches }) => {
            let pid = *pid;
            if alive && config_matches {
                (EngineSpawnState::Running { pid }, EngineSpawnAction::MarkRunning { pid })
            } else {
                (
                    EngineSpawnState::Failed { failure: EngineSpawnFailure::NotReady, windows: false },
                    EngineSpawnAction::Terminate { pid, failure: EngineSpawnFailure::NotReady },
                )
            }
        },
        (s, _) => (copy_state(s), EngineSpawnAction::Ignore),
    }
}

} // verus!
