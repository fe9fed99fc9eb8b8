//! Synchronising the bypass configuration with the engine, one decision
//! at a time: the exclusive operation, the request's check, the preset,
//! the verified configuration, the supersede check, the prepared host
//! lists, the DNS forwarder that the kill switch needs, the engine's
//! restart, the commit, and the rollback to the previous configuration
//! when the candidate does not start. The caller performs each action and
//! reports what came of it.

use vstd::prelude::*;
use crate::commands::SYNC_BYPASS_OPERATION;
use crate::ipc::IpcError;
use crate::text::concat;

verus! {

/// Why a synchronisation failed.
#[derive(Debug)]
pub enum BypassSyncFailure {
    /// Another exclusive operation runs; the text names it.
    Busy(String),
    /// The request was refused by its check; the error is passed on.
    Refused(IpcError),
    /// The active preset, with this id, does not exist.
    PresetNotFound(String),
    /// The runtime configuration was refused.
    VerificationFailed(String),
    /// The application's data directory is unknown.
    DataDir(String),
    /// The host lists could not be prepared.
    Hostlist(String),
    /// The runtime settings could not be read to start the forwarder.
    SettingsRead(String),
    /// The DNS forwarder that the kill switch needs did not start.
    ForwarderStart(String),
    /// The running engine could not be stopped.
    EngineStop(String),
    /// The previous configuration's host lists could not be prepared.
    RollbackHostlist(String),
    /// The candidate did not start, and neither did the previous
    /// configuration.
    RollbackFailed { candidate: String, rollback: String },
    /// The candidate did not start and there was nothing to go back to.
    StartFailed(String),
}

/// The code, the message and whether retrying may help, of a failure
/// that the synchronisation itself reports.
pub open spec fn bypass_failure_parts(f: BypassSyncFailure) -> (Seq<char>, Seq<char>, bool) {
    match f {
        BypassSyncFailure::Busy(owner) => ("RUNTIME_BUSY"@, "Runtime is busy with "@ + owner@, true),
        BypassSyncFailure::Refused(e) => (e.code@, e.message@, e.retryable),
        BypassSyncFailure::PresetNotFound(id) => (
            "PRESET_NOT_FOUND"@,
            "Active preset '"@ + id@ + "' was not found; Pattern restart was cancelled."@,
            false,
        ),
        BypassSyncFailure::VerificationFailed(e) => ("VERIFICATION_FAILED"@, e@, false),
        BypassSyncFailure::DataDir(e) => ("DATA_DIR_ERROR"@, e@, true),
        BypassSyncFailure::Hostlist(e) => ("HOSTLIST_ERROR"@, e@, true),
        BypassSyncFailure::SettingsRead(e) => ("SETTINGS_READ_FAILED"@, e@, true),
        BypassSyncFailure::ForwarderStart(e) => ("DNS_FORWARDER_START_FAILED"@, e@, true),
        BypassSyncFailure::EngineStop(e) => (
            "ENGINE_STOP_FAILED"@,
            "Failed to stop engine before Pattern restart: "@ + e@,
            true,
        ),
        BypassSyncFailure::RollbackHostlist(e) => ("ROLLBACK_HOSTLIST_ERROR"@, e@, true),
        BypassSyncFailure::RollbackFailed { candidate, rollback } => (
            "ENGINE_ROLLBACK_FAILED"@,
            "Candidate start failed ("@ + candidate@ + ") AND rollback start failed: "@ + rollback@,
            true,
        ),
        BypassSyncFailure::StartFailed(e) => ("ENGINE_START_FAILED"@, "Candidate engine start failed: "@ + e@, true),
    }
}

impl BypassSyncFailure {
    /// The error the user interface receives: a refusal of the request's
    /// check as it is, any other failure under this operation's name.
    pub fn into_ipc_error(self) -> (e: IpcError)
        ensures
            self matches BypassSyncFailure::Refused(r) ==> e == r,
            !(self is Refused) ==> {
                let (code, message, retryable) = bypass_failure_parts(self);
                &&& e.code@ == code
                &&& e.message@ == message
                &&& e.retryable == retryable
                &&& e.operation == SYNC_BYPASS_OPERATION
                &&& e.config_revision is None
            },
    {
        let op = SYNC_BYPASS_OPERATION;
        match self {
            BypassSyncFailure::Busy(owner) => IpcError::runtime(op, "RUNTIME_BUSY", concat("Runtime is busy with ", owner.as_str())),
            BypassSyncFailure::Refused(e) => e,
            BypassSyncFailure::PresetNotFound(id) => {
                let t = concat("Active preset '", id.as_str());
                IpcError::validation(op, "PRESET_NOT_FOUND", concat(t.as_str(), "' was not found; Pattern restart was cancelled."))
            },
            BypassSyncFailure::VerificationFailed(e) => IpcError::validation(op, "VERIFICATION_FAILED", e),
            BypassSyncFailure::DataDir(e) => IpcError::runtime(op, "DATA_DIR_ERROR", e),
            BypassSyncFailure::Hostlist(e) => IpcError::runtime(op, "HOSTLIST_ERROR", e),
            BypassSyncFailure::SettingsRead(e) => IpcError::runtime(op, "SETTINGS_READ_FAILED", e),
            BypassSyncFailure::ForwarderStart(e) => IpcError::runtime(op, "DNS_FORWARDER_START_FAILED", e),
            BypassSyncFailure::EngineStop(e) => IpcError::runtime(
                op,
                "ENGINE_STOP_FAILED",
                concat("Failed to stop engine before Pattern restart: ", e.as_str()),
            ),
            BypassSyncFailure::RollbackHostlist(e) => IpcError::runtime(op, "ROLLBACK_HOSTLIST_ERROR", e),
            BypassSyncFailure::RollbackFailed { candidate, rollback } => {
                let t = concat("Candidate start failed (", candidate.as_str());
                let t = concat(t.as_str(), ") AND rollback start failed: ");
                IpcError::runtime(op, "ENGINE_ROLLBACK_FAILED", concat(t.as_str(), rollback.as_str()))
            },
            BypassSyncFailure::StartFailed(e) => IpcError::runtime(
                op,
                "ENGINE_START_FAILED",
                concat("Candidate engine start failed: ", e.as_str()),
            ),
        }
    }
}

/// What a synchronisation has to go back to: whether runtime settings
/// were saved before it, and whether a configuration was applied.
#[derive(Debug, Clone, Copy, PartialEq, Eq)]
pub struct BypassPrevious {
    pub settings_saved: bool,
    pub applied: bool,
}

/// Where a synchronisation stands.
#[derive(Debug, Clone, PartialEq, Eq)]
pub enum BypassSyncState {
    /// Nothing done yet.
    Requested,
    /// The request is being checked.
    Validating { kill_switch: bool },
    /// The active preset is being looked up.
    LookingUpPreset { kill_switch: bool },
    /// The runtime configuration is being built and verified.
    Verifying { kill_switch: bool },
    /// The revision is being compared with the latest one requested.
    Claiming { kill_switch: bool },
    /// The desired configuration and its host lists are being prepared.
    Preparing { kill_switch: bool },
    /// Asking whether the DNS forwarder runs.
    CheckingForwarder { previous: BypassPrevious },
    /// The DNS forwarder is being started.
    StartingForwarder { previous: BypassPrevious },
    /// The running engine is being stopped.
    StoppingEngine { previous: BypassPrevious },
    /// The engine is being started with the candidate.
    StartingCandidate { previous: BypassPrevious },
    /// The candidate did not start; the previous configuration is being
    /// started.
    RestartingPrevious { candidate_error: String },
    /// The synchronisation is over.
    Finished,
}

/// What came of the last action.
#[derive(Debug)]
pub enum BypassSyncEvent {
    /// A synchronisation is asked for: whether the exclusive operation was
    /// had (or which one holds it), and whether the kill switch is asked for.
    Begin { exclusive: Result<(), String>, kill_switch: bool },
    /// The request's check.
    Validated(Result<(), IpcError>),
    /// The active preset was found, or this id was not.
    PresetLookup(Result<(), String>),
    /// The runtime configuration was verified, or not.
    Verified(Result<(), String>),
    /// The revision of this request and the latest one requested.
    Claimed { revision: u64, latest_requested: u64 },
    /// The data directory is unknown.
    DataDirUnavailable(String),
    /// The host lists could not be prepared.
    HostlistFailed(String),
    /// The configuration was prepared; what there is to go back to, and
    /// whether the engine runs.
    Prepared { previous: BypassPrevious, engine_running: bool },
    /// Whether the DNS forwarder runs.
    ForwarderChecked { active: bool },
    /// The runtime settings could not be read.
    SettingsUnreadable(String),
    /// The DNS forwarder was started, or not.
    ForwarderStarted(Result<(), String>),
    /// The engine was stopped, or not.
    EngineStopped(Result<(), String>),
    /// The candidate started, or not.
    CandidateStarted(Result<(), String>),
    /// The previous configuration's host lists could not be prepared.
    RollbackHostlistFailed(String),
    /// The previous configuration started, or not.
    PreviousStarted(Result<(), String>),
}

/// What to do next.
#[derive(Debug)]
pub enum BypassSyncAction {
    /// Check the request (`validate_bypass_request`).
    Validate,
    /// Look the active preset up.
    LookUpPreset,
    /// Take a new revision, build the candidate and verify it.
    Verify,
    /// Take the transaction lock and advance the latest requested revision.
    Claim,
    /// Report that a later request superseded this one.
    ReportSuperseded,
    /// Read what to go back to, record the desired configuration, write
    /// the bypass cache, prepare the host lists and record the prepared
    /// configuration.
    Prepare,
    /// Report the configuration as prepared: the engine does not run.
    ReportPrepared,
    /// Ask whether the DNS forwarder runs.
    CheckForwarder,
    /// Read the runtime settings and start the DNS forwarder.
    StartForwarder,
    /// Stop the running engine.
    StopEngine,
    /// Start the engine with the candidate.
    StartCandidate,
    /// Commit the candidate, clean stale host lists and report the start.
    CommitCandidate,
    /// Write the saved runtime settings back if asked to, prepare the
    /// previous configuration's host lists and start it.
    RestartPrevious { restore_settings: bool },
    /// Record the previous configuration as applied, remove the
    /// candidate's host list and report the rollback.
    ReinstatePrevious,
    /// Write the saved runtime settings back if asked to, clear the
    /// applied configuration, then fail.
    ClearAppliedAndFail { restore_settings: bool, failure: BypassSyncFailure },
    /// Fail with this error.
    Fail(BypassSyncFailure),
    /// The event does not fit the state: nothing to do.
    Ignore,
}

pub open spec fn sync_fail(f: BypassSyncFailure) -> (BypassSyncState, BypassSyncAction) {
    (BypassSyncState::Finished, BypassSyncAction::Fail(f))
}

/// The next state and action of a synchronisation.
pub open spec fn bypass_sync_next(state: BypassSyncState, event: BypassSyncEvent) -> (BypassSyncState, BypassSyncAction) {
    match (state, event) {
        (BypassSyncState::Requested, BypassSyncEvent::Begin { exclusive, kill_switch }) => match exclusive {
            Err(owner) => sync_fail(BypassSyncFailure::Busy(owner)),
            Ok(()) => (BypassSyncState::Validating { kill_switch }, BypassSyncAction::Validate),
        },
        (BypassSyncState::Validating { kill_switch }, BypassSyncEvent::Validated(r)) => match r {
            Err(e) => sync_fail(BypassSyncFailure::Refused(e)),
            Ok(()) => (BypassSyncState::LookingUpPreset { kill_switch }, BypassSyncAction::LookUpPreset),
        },
        (BypassSyncState::LookingUpPreset { kill_switch }, BypassSyncEvent::PresetLookup(r)) => match r {
            Err(id) => sync_fail(BypassSyncFailure::PresetNotFound(id)),
            Ok(()) => (BypassSyncState::Verifying { kill_switch }, BypassSyncAction::Verify),
        },
        (BypassSyncState::Verifying { kill_switch }, BypassSyncEvent::Verified(r)) => match r {
            Err(e) => sync_fail(BypassSyncFailure::VerificationFailed(e)),
            Ok(()) => (BypassSyncState::Claiming { kill_switch }, BypassSyncAction::Claim),
        },
        (BypassSyncState::Claiming { kill_switch }, BypassSyncEvent::Claimed { revision, latest_requested }) => if revision
            < latest_requested {
            (BypassSyncState::Finished, BypassSyncAction::ReportSuperseded)
        } else {
            (BypassSyncState::Preparing { kill_switch }, BypassSyncAction::Prepare)
        },
        (BypassSyncState::Preparing { .. }, BypassSyncEvent::DataDirUnavailable(e)) => sync_fail(
            BypassSyncFailure::DataDir(e),
        ),
        (BypassSyncState::Preparing { .. }, BypassSyncEvent::HostlistFailed(e)) => sync_fail(
            BypassSyncFailure::Hostlist(e),
        ),
        (BypassSyncState::Preparing { kill_switch }, BypassSyncEvent::Prepared { previous, engine_running }) => if !engine_running {
            (BypassSyncState::Finished, BypassSyncAction::ReportPrepared)
        } else if kill_switch {
            (BypassSyncState::CheckingForwarder { previous }, BypassSyncAction::CheckForwarder)
        } else {
            (BypassSyncState::StoppingEngine { previous }, BypassSyncAction::StopEngine)
        },
        (BypassSyncState::CheckingForwarder { previous }, BypassSyncEvent::ForwarderChecked { active }) => if active {
            (BypassSyncState::StoppingEngine { previous }, BypassSyncAction::StopEngine)
        } else {
            (BypassSyncState::StartingForwarder { previous }, BypassSyncAction::StartForwarder)
        },
        (BypassSyncState::StartingForwarder { .. }, BypassSyncEvent::SettingsUnreadable(e)) => sync_fail(
            BypassSyncFailure::SettingsRead(e),
        ),
        (BypassSyncState::StartingForwarder { previous }, BypassSyncEvent::ForwarderStarted(r)) => match r {
            Err(e) => sync_fail(BypassSyncFailure::ForwarderStart(e)),
            Ok(()) => (BypassSyncState::StoppingEngine { previous }, BypassSyncAction::StopEngine),
        },
        (BypassSyncState::StoppingEngine { previous }, BypassSyncEvent::EngineStopped(r)) => match r {
            Err(e) => sync_fail(BypassSyncFailure::EngineStop(e)),
            Ok(()) => (BypassSyncState::StartingCandidate { previous }, BypassSyncAction::StartCandidate),
        },
        (BypassSyncState::StartingCandidate { previous }, BypassSyncEvent::CandidateStarted(r)) => match r {
            Ok(()) => (BypassSyncState::Finished, BypassSyncAction::CommitCandidate),
            Err(e) => if previous.applied {
                (
                    BypassSyncState::RestartingPrevious { candidate_error: e },
                    BypassSyncAction::RestartPrevious { restore_settings: previous.settings_saved },
                )
            } else {
                (
                    BypassSyncState::Finished,
                    BypassSyncAction::ClearAppliedAndFail {
                        restore_settings: previous.settings_saved,
                        failure: BypassSyncFailure::StartFailed(e),
                    },
                )
            },
        },
        (BypassSyncState::RestartingPrevious { .. }, BypassSyncEvent::RollbackHostlistFailed(e)) => sync_fail(
            BypassSyncFailure::RollbackHostlist(e),
        ),
        (BypassSyncState::RestartingPrevious { candidate_error }, BypassSyncEvent::PreviousStarted(r)) => match r {
            Ok(()) => (BypassSyncState::Finished, BypassSyncAction::ReinstatePrevious),
            Err(e) => (
                BypassSyncState::Finished,
                BypassSyncAction::ClearAppliedAndFail {
                    restore_settings: false,
                    failure: BypassSyncFailure::RollbackFailed { candidate: candidate_error, rollback: e },
                },
            ),
        },
        (s, _) => (s, BypassSyncAction::Ignore),
    }
}

fn copy_sync_state(s: &BypassSyncState) -> (r: BypassSyncState)
    ensures
        r == *s,
{
    match s {
        BypassSyncState::Requested => BypassSyncState::Requested,
        BypassSyncState::Validating { kill_switch } => BypassSyncState::Validating { kill_switch: *kill_switch },
        BypassSyncState::LookingUpPreset { kill_switch } => BypassSyncState::LookingUpPreset { kill_switch: *kill_switch },
        BypassSyncState::Verifying { kill_switch } => BypassSyncState::Verifying { kill_switch: *kill_switch },
        BypassSyncState::Claiming { kill_switch } => BypassSyncState::Claiming { kill_switch: *kill_switch },
        BypassSyncState::Preparing { kill_switch } => BypassSyncState::Preparing { kill_switch: *kill_switch },
        BypassSyncState::CheckingForwarder { previous } => BypassSyncState::CheckingForwarder { previous: *previous },
        BypassSyncState::StartingForwarder { previous } => BypassSyncState::StartingForwarder { previous: *previous },
        BypassSyncState::StoppingEngine { previous } => BypassSyncState::StoppingEngine { previous: *previous },
        BypassSyncState::StartingCandidate { previous } => BypassSyncState::StartingCandidate { previous: *previous },
        BypassSyncState::RestartingPrevious { candidate_error } => BypassSyncState::RestartingPrevious {
            candidate_error: candidate_error.clone(),
        },
        BypassSyncState::Finished => BypassSyncState::Finished,
    }
}

/// One decision of a synchronisation.
pub fn bypass_sync_step(state: &BypassSyncState, event: BypassSyncEvent) -> (r: (BypassSyncState, BypassSyncAction))
    ensures
        r == bypass_sync_next(*state, event),
{
    match (state, event) {
        (BypassSyncState::Requested, BypassSyncEvent::Begin { exclusive, kill_switch }) => match exclusive {
            Err(owner) => (BypassSyncState::Finished, BypassSyncAction::Fail(BypassSyncFailure::Busy(owner))),
            Ok(()) => (BypassSyncState::Validating { kill_switch }, BypassSyncAction::Validate),
        },
        (BypassSyncState::Validating { kill_switch }, BypassSyncEvent::Validated(r)) => match r {
            Err(e) => (BypassSyncState::Finished, BypassSyncAction::Fail(BypassSyncFailure::Refused(e))),
            Ok(()) => (BypassSyncState::LookingUpPreset { kill_switch: *kill_switch }, BypassSyncAction::LookUpPreset),
        },
        (BypassSyncState::LookingUpPreset { kill_switch }, BypassSyncEvent::PresetLookup(r)) => match r {
            Err(id) => (BypassSyncState::Finished, BypassSyncAction::Fail(BypassSyncFailure::PresetNotFound(id))),
            Ok(()) => (BypassSyncState::Verifying { kill_switch: *kill_switch }, BypassSyncAction::Verify),
        },
        (BypassSyncState::Verifying { kill_switch }, BypassSyncEvent::Verified(r)) => match r {
            Err(e) => (BypassSyncState::Finished, BypassSyncAction::Fail(BypassSyncFailure::VerificationFailed(e))),
            Ok(()) => (BypassSyncState::Claiming { kill_switch: *kill_switch }, BypassSyncAction::Claim),
        },
        (BypassSyncState::Claiming { kill_switch }, BypassSyncEvent::Claimed { revision, latest_requested }) => if revision
            < latest_requested {
            (BypassSyncState::Finished, BypassSyncAction::ReportSuperseded)
        } else {
            (BypassSyncState::Preparing { kill_switch: *kill_switch }, BypassSyncAction::Prepare)
        },
        (BypassSyncState::Preparing { .. }, BypassSyncEvent::DataDirUnavailable(e)) => (
            BypassSyncState::Finished,
            BypassSyncAction::Fail(BypassSyncFailure::DataDir(e)),
        ),
        (BypassSyncState::Preparing { .. }, BypassSyncEvent::HostlistFailed(e)) => (
            BypassSyncState::Finished,
            BypassSyncAction::Fail(BypassSyncFailure::Hostlist(e)),
        ),
        (BypassSyncState::Preparing { kill_switch }, BypassSyncEvent::Prepared { previous, engine_running }) => if !engine_running {
            (BypassSyncState::Finished, BypassSyncAction::ReportPrepared)
        } else if *kill_switch {
            (BypassSyncState::CheckingForwarder { previous }, BypassSyncAction::CheckForwarder)
        } else {
            (BypassSyncState::StoppingEngine { previous }, BypassSyncAction::StopEngine)
        },
        (BypassSyncState::CheckingForwarder { previous }, BypassSyncEvent::ForwarderChecked { active }) => if active {
            (BypassSyncState::StoppingEngine { previous: *previous }, BypassSyncAction::StopEngine)
        } else {
            (BypassSyncState::StartingForwarder { previous: *previous }, BypassSyncAction::StartForwarder)
        },
        (BypassSyncState::StartingForwarder { .. }, BypassSyncEvent::SettingsUnreadable(e)) => (
            BypassSyncState::Finished,
            BypassSyncAction::Fail(BypassSyncFailure::SettingsRead(e)),
        ),
        (BypassSyncState::StartingForwarder { previous }, BypassSyncEvent::ForwarderStarted(r)) => match r {
            Err(e) => (BypassSyncState::Finished, BypassSyncAction::Fail(BypassSyncFailure::ForwarderStart(e))),
            Ok(()) => (BypassSyncState::StoppingEngine { previous: *previous }, BypassSyncAction::StopEngine),
        },
        (BypassSyncState::StoppingEngine { previous }, BypassSyncEvent::EngineStopped(r)) => match r {
            Err(e) => (BypassSyncState::Finished, BypassSyncAction::Fail(BypassSyncFailure::EngineStop(e))),
            Ok(()) => (BypassSyncState::StartingCandidate { previous: *previous }, BypassSyncAction::StartCandidate),
        },
        (BypassSyncState::StartingCandidate { previous }, BypassSyncEvent::CandidateStarted(r)) => match r {
            Ok(()) => (BypassSyncState::Finished, BypassSyncAction::CommitCandidate),
            Err(e) => if previous.applied {
                (
                    BypassSyncState::RestartingPrevious { candidate_error: e },
                    BypassSyncAction::RestartPrevious { restore_settings: previous.settings_saved },
                )
            } else {
                (
                    BypassSyncState::Finished,
                    BypassSyncAction::ClearAppliedAndFail {
                        restore_settings: previous.settings_saved,
                        failure: BypassSyncFailure::StartFailed(e),
                    },
                )
            },
        },
        (BypassSyncState::RestartingPrevious { .. }, BypassSyncEvent::RollbackHostlistFailed(e)) => (
            BypassSyncState::Finished,
            BypassSyncAction::Fail(BypassSyncFailure::RollbackHostlist(e)),
        ),
        (BypassSyncState::RestartingPrevious { candidate_error }, BypassSyncEvent::PreviousStarted(r)) => match r {
            Ok(()) => (BypassSyncState::Finished, BypassSyncAction::ReinstatePrevious),
            Err(e) => (
                BypassSyncState::Finished,
                BypassSyncAction::ClearAppliedAndFail {
                    restore_settings: false,
                    failure: BypassSyncFailure::RollbackFailed { candidate: candidate_error.clone(), rollback: e },
                },
            ),
        },
        (s, _) => (copy_sync_state(s), BypassSyncAction::Ignore),
    }
}

} // verus!
