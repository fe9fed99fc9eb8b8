//! The engine's lifecycle: generations and operation ids of owned engine
//! processes, readiness, and the states an engine moves through with the
//! transitions allowed between them.

use vstd::prelude::*;
use crate::runtime_config::{system_now, ConfigFingerprint, ConfigRevision};
use crate::text::{concat, decimal, push_char, to_string, u64_to_decimal};

verus! {

/// How long a freshly started engine must stay up before it can be ready,
/// in milliseconds.
pub const ENGINE_STARTUP_GRACE_PERIOD_MS: u64 = 500;

/// The generation of an engine process; each restart takes the next one.
#[derive(Debug, Clone, Copy, PartialEq, Eq, PartialOrd, Ord, Hash, Structural)]
pub struct EngineGeneration(pub u64);

impl EngineGeneration {
    pub fn new(val: u64) -> (g: Self)
        ensures
            g.0 == val,
    {
        EngineGeneration(val)
    }

    pub fn get(self) -> (v: u64)
        ensures
            v == self.0,
    {
        self.0
    }

    /// The next generation, or an error at the maximum.
    pub fn next(self) -> (r: Result<Self, String>)
        ensures
            self.0 < u64::MAX ==> (r matches Ok(g) && g.0 == self.0 + 1),
            self.0 == u64::MAX ==> (r matches Err(m) && m@ == "Engine generation overflow"@),
    {
        if self.0 == u64::MAX {
            Err(to_string("Engine generation overflow"))
        } else {
            Ok(EngineGeneration(self.0 + 1))
        }
    }

    /// The generation as its `Display` prints it: `Gen(n)`.
    pub fn label(&self) -> (s: String)
        ensures
            s@ == "Gen("@ + decimal(self.0 as nat) + ")"@,
    {
        let s = concat("Gen(", u64_to_decimal(self.0).as_str());
        concat(s.as_str(), ")")
    }
}

/// The id of one start, stop or restart operation.
#[derive(Debug, Clone, PartialEq, Eq, Hash)]
pub struct EngineOperationId(pub String);

pub open spec fn operation_id_text(prefix: Seq<char>, millis: nat, sequence: nat) -> Seq<char> {
    prefix + "-"@ + decimal(millis) + "-"@ + decimal(sequence)
}

/// `SystemTime::duration_since(UNIX_EPOCH)`, in whole milliseconds; `None`
/// for a time before the epoch.
#[verifier::external_body]
fn millis_since_epoch(t: std::time::SystemTime) -> (r: Option<u128>) {
    t.duration_since(std::time::SystemTime::UNIX_EPOCH).ok().map(|d| d.as_millis())
}

fn u128_to_decimal(n: u128) -> (s: String)
    ensures
        s@ == decimal(n as nat),
    decreases n,
{
    let d = (n % 10) as u32;
    let c = crate::text::char_from_digit(d);
    if n < 10 {
        let mut s = String::new();
        push_char(&mut s, c);
        proof {
            assert(s@ =~= decimal(n as nat));
        }
        s
    } else {
        let mut s = u128_to_decimal(n / 10);
        push_char(&mut s, c);
        s
    }
}

impl EngineOperationId {
    /// `prefix-millis-sequence`.
    pub fn from_parts(prefix: &str, millis: u128, sequence: u64) -> (id: Self)
        ensures
            id.0@ == operation_id_text(prefix@, millis as nat, sequence as nat),
    {
        let s = concat(prefix, "-");
        let s = concat(s.as_str(), u128_to_decimal(millis).as_str());
        let s = concat(s.as_str(), "-");
        let s = concat(s.as_str(), u64_to_decimal(sequence).as_str());
        proof {
            assert(s@ =~= operation_id_text(prefix@, millis as nat, sequence as nat));
        }
        EngineOperationId(s)
    }

    /// A fresh id: the prefix, the milliseconds since the Unix epoch now
    /// (0 before the epoch) and the caller's sequence number.
    pub fn generate(prefix: &str, sequence: u64) -> (id: Self)
        ensures
            exists|millis: nat| id.0@ == operation_id_text(prefix@, millis, sequence as nat),
    {
        let millis = match millis_since_epoch(system_now()) {
            Some(m) => m,
            None => 0,
        };
        Self::from_parts(prefix, millis, sequence)
    }

    /// The id as its `Display` prints it: `Op(id)`.
    pub fn label(&self) -> (s: String)
        ensures
            s@ == "Op("@ + self.0@ + ")"@,
    {
        let s = concat("Op(", self.0.as_str());
        concat(s.as_str(), ")")
    }
}

/// What identifies an engine process as the one this installation owns.
#[derive(Debug, Clone, PartialEq, Eq)]
pub struct EngineProcessIdentity {
    pub installation_id: String,
    pub instance_id: String,
    pub generation: EngineGeneration,
    pub expected_executable: String,
    pub config_revision: ConfigRevision,
    pub config_fingerprint: ConfigFingerprint,
}

#[derive(Debug, Clone, Copy, PartialEq, Eq, Structural)]
pub enum TerminationMode {
    Graceful { timeout_ms: u64 },
    Forced,
}

#[derive(Debug)]
pub struct ProcessExit {
    pub pid: u32,
    pub exit_code: Option<i32>,
    pub terminated_by_us: bool,
}

#[derive(Debug, Clone, PartialEq, Eq)]
pub enum PlatformReadiness {
    Windows { job_assigned: bool, windivert_observed: Option<bool> },
    Linux { process_group_verified: bool },
    Mock,
}

#[derive(Debug, Clone, PartialEq, Eq)]
pub struct EngineReadiness {
    pub process_alive: bool,
    pub startup_grace_passed: bool,
    pub fatal_stderr_detected: bool,
    pub executable_identity_verified: bool,
    pub platform_check: PlatformReadiness,
}

impl EngineReadiness {
    /// Ready: alive past the grace period, without fatal output, and the
    /// executable is the expected one. The platform check does not count.
    pub fn is_ready(&self) -> (r: bool)
        ensures
            r == (self.process_alive && self.startup_grace_passed && !self.fatal_stderr_detected
                && self.executable_identity_verified),
    {
        self.process_alive && self.startup_grace_passed && !self.fatal_stderr_detected
            && self.executable_identity_verified
    }
}

#[derive(Debug, Clone, PartialEq, Eq)]
pub struct LifecycleErrorSummary {
    pub message: String,
    pub code: Option<String>,
}

#[derive(Debug, Clone, PartialEq, Eq)]
pub enum EngineLifecycleState {
    Stopped,
    Preparing {
        operation: EngineOperationId,
        generation: EngineGeneration,
        revision: ConfigRevision,
        fingerprint: ConfigFingerprint,
    },
    StartingProcess {
        operation: EngineOperationId,
        generation: EngineGeneration,
        revision: ConfigRevision,
        fingerprint: ConfigFingerprint,
    },
    WaitingForReadiness {
        operation: EngineOperationId,
        generation: EngineGeneration,
        process_id: u32,
        revision: ConfigRevision,
        fingerprint: ConfigFingerprint,
    },
    RunningUnverified {
        generation: EngineGeneration,
        process_id: u32,
        revision: ConfigRevision,
        fingerprint: ConfigFingerprint,
    },
    Ready {
        generation: EngineGeneration,
        process_id: u32,
        revision: ConfigRevision,
        fingerprint: ConfigFingerprint,
        readiness: EngineReadiness,
    },
    Restarting { operation: EngineOperationId, previous_generation: EngineGeneration, next_generation: EngineGeneration },
    Stopping { operation: EngineOperationId, generation: EngineGeneration, process_id: u32 },
    Failed { generation: Option<EngineGeneration>, error: LifecycleErrorSummary },
}

/// The stage of a state, without its data.
#[derive(Debug, Clone, Copy, PartialEq, Eq, Structural)]
pub enum LifecycleStage {
    Stopped,
    Preparing,
    StartingProcess,
    WaitingForReadiness,
    RunningUnverified,
    Ready,
    Restarting,
    Stopping,
    Failed,
}

pub open spec fn stage_of(s: EngineLifecycleState) -> LifecycleStage {
    match s {
        EngineLifecycleState::Stopped => LifecycleStage::Stopped,
        EngineLifecycleState::Preparing { .. } => LifecycleStage::Preparing,
        EngineLifecycleState::StartingProcess { .. } => LifecycleStage::StartingProcess,
        EngineLifecycleState::WaitingForReadiness { .. } => LifecycleStage::WaitingForReadiness,
        EngineLifecycleState::RunningUnverified { .. } => LifecycleStage::RunningUnverified,
        EngineLifecycleState::Ready { .. } => LifecycleStage::Ready,
        EngineLifecycleState::Restarting { .. } => LifecycleStage::Restarting,
        EngineLifecycleState::Stopping { .. } => LifecycleStage::Stopping,
        EngineLifecycleState::Failed { .. } => LifecycleStage::Failed,
    }
}

pub open spec fn stage_text(s: LifecycleStage) -> Seq<char> {
    match s {
        LifecycleStage::Stopped => "stopped"@,
        LifecycleStage::Preparing => "preparing"@,
        LifecycleStage::StartingProcess => "starting_process"@,
        LifecycleStage::WaitingForReadiness => "waiting_for_readiness"@,
        LifecycleStage::RunningUnverified => "running_unverified"@,
        LifecycleStage::Ready => "ready"@,
        LifecycleStage::Restarting => "restarting"@,
        LifecycleStage::Stopping => "stopping"@,
        LifecycleStage::Failed => "failed"@,
    }
}

/// The transitions the engine may take, status refreshes of a stopped,
/// ready or failed engine included.
pub open spec fn transition_allowed(from: LifecycleStage, to: LifecycleStage) -> bool {
    match (from, to) {
        (LifecycleStage::Stopped, LifecycleStage::Preparing) => true,
        (LifecycleStage::Preparing, LifecycleStage::StartingProcess) => true,
        (LifecycleStage::StartingProcess, LifecycleStage::WaitingForReadiness) => true,
        (LifecycleStage::WaitingForReadiness, LifecycleStage::Ready) => true,
        (LifecycleStage::WaitingForReadiness, LifecycleStage::RunningUnverified) => true,
        (LifecycleStage::WaitingForReadiness, LifecycleStage::Failed) => true,
        (LifecycleStage::WaitingForReadiness, LifecycleStage::Stopping) => true,
        (LifecycleStage::RunningUnverified, LifecycleStage::Ready) => true,
        (LifecycleStage::RunningUnverified, LifecycleStage::Stopping) => true,
        (LifecycleStage::RunningUnverified, LifecycleStage::Failed) => true,
        (LifecycleStage::Ready, LifecycleStage::Stopping) => true,
        (LifecycleStage::Ready, LifecycleStage::Restarting) => true,
        (LifecycleStage::Ready, LifecycleStage::Failed) => true,
        (LifecycleStage::Stopping, LifecycleStage::Stopped) => true,
        (LifecycleStage::Stopping, LifecycleStage::Failed) => true,
        (LifecycleStage::Restarting, LifecycleStage::Preparing) => true,
        (LifecycleStage::Restarting, LifecycleStage::StartingProcess) => true,
        (LifecycleStage::Restarting, LifecycleStage::Failed) => true,
        (LifecycleStage::Failed, LifecycleStage::Preparing) => true,
        (LifecycleStage::Failed, LifecycleStage::Stopped) => true,
        (LifecycleStage::Stopped, LifecycleStage::Stopped) => true,
        (LifecycleStage::Ready, LifecycleStage::Ready) => true,
        (LifecycleStage::Failed, LifecycleStage::Failed) => true,
        _ => false,
    }
}

impl EngineLifecycleState {
    pub fn stage(&self) -> (s: LifecycleStage)
        ensures
            s == stage_of(*self),
    {
        match self {
            EngineLifecycleState::Stopped => LifecycleStage::Stopped,
            EngineLifecycleState::Preparing { .. } => LifecycleStage::Preparing,
            EngineLifecycleState::StartingProcess { .. } => LifecycleStage::StartingProcess,
            EngineLifecycleState::WaitingForReadiness { .. } => LifecycleStage::WaitingForReadiness,
            EngineLifecycleState::RunningUnverified { .. } => LifecycleStage::RunningUnverified,
            EngineLifecycleState::Ready { .. } => LifecycleStage::Ready,
            EngineLifecycleState::Restarting { .. } => LifecycleStage::Restarting,
            EngineLifecycleState::Stopping { .. } => LifecycleStage::Stopping,
            EngineLifecycleState::Failed { .. } => LifecycleStage::Failed,
        }
    }

    /// The stage's name, which is also how the state displays.
    pub fn stage_name(&self) -> (s: &'static str)
        ensures
            s@ == stage_text(stage_of(*self)),
    {
        match self {
            EngineLifecycleState::Stopped => "stopped",
            EngineLifecycleState::Preparing { .. } => "preparing",
            EngineLifecycleState::StartingProcess { .. } => "starting_process",
            EngineLifecycleState::WaitingForReadiness { .. } => "waiting_for_readiness",
            EngineLifecycleState::RunningUnverified { .. } => "running_unverified",
            EngineLifecycleState::Ready { .. } => "ready",
            EngineLifecycleState::Restarting { .. } => "restarting",
            EngineLifecycleState::Stopping { .. } => "stopping",
            EngineLifecycleState::Failed { .. } => "failed",
        }
    }

    pub fn is_running_or_ready(&self) -> (r: bool)
        ensures
            r == (stage_of(*self) == LifecycleStage::RunningUnverified || stage_of(*self) == LifecycleStage::Ready),
    {
        match self {
            EngineLifecycleState::RunningUnverified { .. } | EngineLifecycleState::Ready { .. } => true,
            _ => false,
        }
    }

    /// The engine process's id in the stages that have one.
    pub fn current_pid(&self) -> (r: Option<u32>)
        ensures
            r == (match *self {
                EngineLifecycleState::WaitingForReadiness { process_id, .. } => Some(process_id),
                EngineLifecycleState::RunningUnverified { process_id, .. } => Some(process_id),
                EngineLifecycleState::Ready { process_id, .. } => Some(process_id),
                EngineLifecycleState::Stopping { process_id, .. } => Some(process_id),
                _ => None,
            }),
    {
        match self {
            EngineLifecycleState::WaitingForReadiness { process_id, .. } => Some(*process_id),
            EngineLifecycleState::RunningUnverified { process_id, .. } => Some(*process_id),
            EngineLifecycleState::Ready { process_id, .. } => Some(*process_id),
            EngineLifecycleState::Stopping { process_id, .. } => Some(*process_id),
            _ => None,
        }
    }

    /// The generation the state is about; a restart is about the next one.
    pub fn current_generation(&self) -> (r: Option<EngineGeneration>)
        ensures
            r == (match *self {
                EngineLifecycleState::Stopped => None,
                EngineLifecycleState::Preparing { generation, .. } => Some(generation),
                EngineLifecycleState::StartingProcess { generation, .. } => Some(generation),
                EngineLifecycleState::WaitingForReadiness { generation, .. } => Some(generation),
                EngineLifecycleState::RunningUnverified { generation, .. } => Some(generation),
                EngineLifecycleState::Ready { generation, .. } => Some(generation),
                EngineLifecycleState::Stopping { generation, .. } => Some(generation),
                EngineLifecycleState::Restarting { next_generation, .. } => Some(next_generation),
                EngineLifecycleState::Failed { generation, .. } => generation,
            }),
    {
        match self {
            EngineLifecycleState::Stopped => None,
            EngineLifecycleState::Preparing { generation, .. } => Some(*generation),
            EngineLifecycleState::StartingProcess { generation, .. } => Some(*generation),
            EngineLifecycleState::WaitingForReadiness { generation, .. } => Some(*generation),
            EngineLifecycleState::RunningUnverified { generation, .. } => Some(*generation),
            EngineLifecycleState::Ready { generation, .. } => Some(*generation),
            EngineLifecycleState::Stopping { generation, .. } => Some(*generation),
            EngineLifecycleState::Restarting { next_generation, .. } => Some(*next_generation),
            EngineLifecycleState::Failed { generation, .. } => *generation,
        }
    }
}

#[derive(Debug, Clone, PartialEq, Eq)]
pub enum EngineLifecycleError {
    InvalidTransition { from: &'static str, to: &'static str },
    GenerationOverflow,
    StartCancelled,
    SpawnFailed(String),
    ReadinessFailed(String),
    ProcessExitedDuringStartup,
    FatalStartupError(String),
    TerminationFailed(String),
    OwnershipMismatch { pid: u32 },
}

pub open spec fn lifecycle_error_text(e: EngineLifecycleError) -> Seq<char> {
    match e {
        EngineLifecycleError::InvalidTransition { from, to } => "invalid lifecycle state transition from '"@ + from@
            + "' to '"@ + to@ + "'"@,
        EngineLifecycleError::GenerationOverflow => "engine generation overflow"@,
        EngineLifecycleError::StartCancelled => "start operation was cancelled"@,
        EngineLifecycleError::SpawnFailed(m) => "process spawn failed: "@ + m@,
        EngineLifecycleError::ReadinessFailed(m) => "readiness check failed: "@ + m@,
        EngineLifecycleError::ProcessExitedDuringStartup => "process exited unexpectedly during startup grace period"@,
        EngineLifecycleError::FatalStartupError(m) => "fatal stderr output detected during startup: "@ + m@,
        EngineLifecycleError::TerminationFailed(m) => "process termination failed: "@ + m@,
        EngineLifecycleError::OwnershipMismatch { pid } => "ownership mismatch for PID "@ + decimal(pid as nat),
    }
}

impl EngineLifecycleError {
    /// The error's message, as its `Display` prints it.
    pub fn message(&self) -> (s: String)
        ensures
            s@ == lifecycle_error_text(*self),
    {
        match self {
            EngineLifecycleError::InvalidTransition { from, to } => {
                let s = concat("invalid lifecycle state transition from '", from);
                let s = concat(s.as_str(), "' to '");
                let s = concat(s.as_str(), to);
                concat(s.as_str(), "'")
            },
            EngineLifecycleError::GenerationOverflow => to_string("engine generation overflow"),
            EngineLifecycleError::StartCancelled => to_string("start operation was cancelled"),
            EngineLifecycleError::SpawnFailed(m) => concat("process spawn failed: ", m.as_str()),
            EngineLifecycleError::ReadinessFailed(m) => concat("readiness check failed: ", m.as_str()),
            EngineLifecycleError::ProcessExitedDuringStartup => to_string(
                "process exited unexpectedly during startup grace period",
            ),
            EngineLifecycleError::FatalStartupError(m) => concat(
                "fatal stderr output detected during startup: ",
                m.as_str(),
            ),
            EngineLifecycleError::TerminationFailed(m) => concat("process termination failed: ", m.as_str()),
            EngineLifecycleError::OwnershipMismatch { pid } => concat(
                "ownership mismatch for PID ",
                u64_to_decimal(*pid as u64).as_str(),
            ),
        }
    }
}

/// Accepts exactly the allowed transitions; a refusal names both stages.
pub fn validate_state_transition(from: &EngineLifecycleState, to: &EngineLifecycleState) -> (r: Result<
    (),
    EngineLifecycleError,
>)
    ensures
        r is Ok <==> transition_allowed(stage_of(*from), stage_of(*to)),
        r matches Err(e) ==> (e matches EngineLifecycleError::InvalidTransition { from: f, to: t }
            && f@ == stage_text(stage_of(*from)) && t@ == stage_text(stage_of(*to))),
{
    let a = from.stage();
    let b = to.stage();
    let valid = match (a, b) {
        (LifecycleStage::Stopped, LifecycleStage::Preparing) => true,
        (LifecycleStage::Preparing, LifecycleStage::StartingProcess) => true,
        (LifecycleStage::StartingProcess, LifecycleStage::WaitingForReadiness) => true,
        (LifecycleStage::WaitingForReadiness, LifecycleStage::Ready) => true,
        (LifecycleStage::WaitingForReadiness, LifecycleStage::RunningUnverified) => true,
        (LifecycleStage::WaitingForReadiness, LifecycleStage::Failed) => true,
        (LifecycleStage::WaitingForReadiness, LifecycleStage::Stopping) => true,
        (LifecycleStage::RunningUnverified, LifecycleStage::Ready) => true,
        (LifecycleStage::RunningUnverified, LifecycleStage::Stopping) => true,
        (LifecycleStage::RunningUnverified, LifecycleStage::Failed) => true,
        (LifecycleStage::Ready, LifecycleStage::Stopping) => true,
        (LifecycleStage::Ready, LifecycleStage::Restarting) => true,
        (LifecycleStage::Ready, LifecycleStage::Failed) => true,
        (LifecycleStage::Stopping, LifecycleStage::Stopped) => true,
        (LifecycleStage::Stopping, LifecycleStage::Failed) => true,
        (LifecycleStage::Restarting, LifecycleStage::Preparing) => true,
        (LifecycleStage::Restarting, LifecycleStage::StartingProcess) => true,
        (LifecycleStage::Restarting, LifecycleStage::Failed) => true,
        (LifecycleStage::Failed, LifecycleStage::Preparing) => true,
        (LifecycleStage::Failed, LifecycleStage::Stopped) => true,
        (LifecycleStage::Stopped, LifecycleStage::Stopped) => true,
        (LifecycleStage::Ready, LifecycleStage::Ready) => true,
        (LifecycleStage::Failed, LifecycleStage::Failed) => true,
        _ => false,
    };
    if valid {
        Ok(())
    } else {
        Err(EngineLifecycleError::InvalidTransition { from: from.stage_name(), to: to.stage_name() })
    }
}

/// A process is only started from a prepared configuration: the one stage
/// that may move to `StartingProcess` apart from a restart is `Preparing`,
/// and a stopped engine can only begin by preparing.
pub proof fn lemma_start_requires_preparation(from: LifecycleStage, to: LifecycleStage)
    requires
        transition_allowed(from, to),
    ensures
        to == LifecycleStage::StartingProcess ==> (from == LifecycleStage::Preparing || from
            == LifecycleStage::Restarting),
        from == LifecycleStage::Stopped ==> (to == LifecycleStage::Preparing || to == LifecycleStage::Stopped),
        to == LifecycleStage::Ready ==> (from == LifecycleStage::WaitingForReadiness || from
            == LifecycleStage::RunningUnverified || from == LifecycleStage::Ready),
        to == LifecycleStage::Stopped ==> (from == LifecycleStage::Stopping || from == LifecycleStage::Failed
            || from == LifecycleStage::Stopped),
{
}

} // verus!
