//! Stopping the engine process and watching the DNS upstream: how a
//! termination escalates, what its outcome is, and when the DNS watchdog
//! gives up on the upstream.

use vstd::prelude::*;
use crate::preset::EngineError;
use crate::text::{concat, decimal, starts_with, str_starts_with, u64_to_decimal, view_strings};
use crate::lifecycle::{EngineProcessIdentity, ProcessExit};

verus! {

/// How waiting for the process to exit ended.
#[derive(Debug, Clone, PartialEq, Eq)]
pub enum WaitOutcome {
    Exited,
    WaitFailed(String),
    TimedOut,
}

/// How long a process gets to exit on its own: half a second on Windows
/// (after a console break), two seconds elsewhere (after its input closes).
pub fn graceful_timeout_ms(windows: bool) -> (ms: u64)
    ensures
        ms == (if windows { 500u64 } else { 2000u64 }),
{
    if windows { 500 } else { 2000 }
}

/// The force-kill deadline, in milliseconds.
pub const FORCE_KILL_TIMEOUT_MS: u64 = 2000;

/// After the graceful wait: done when the process exited, otherwise the
/// termination escalates to a forced kill.
pub fn needs_force_kill(graceful: &WaitOutcome) -> (r: bool)
    ensures
        r == !(*graceful is Exited),
{
    match graceful {
        WaitOutcome::Exited => false,
        _ => true,
    }
}

/// The outcome of a forced kill, from the kill request and the wait after
/// it.
pub fn forced_termination_result(kill_request: Result<(), String>, wait: WaitOutcome) -> (r: Result<(), EngineError>)
    ensures
        match kill_request {
            Err(e) => r matches Err(EngineError::IoError(m)) && m@ == "Engine process force-kill request failed: "@ + e@,
            Ok(()) => match wait {
                WaitOutcome::Exited => r is Ok,
                WaitOutcome::WaitFailed(e) => r matches Err(EngineError::IoError(m))
                    && m@ == "Engine process exit could not be observed after force-kill: "@ + e@,
                WaitOutcome::TimedOut => r matches Err(EngineError::IoError(m))
                    && m@ == "Engine process did not exit before the force-kill deadline."@,
            },
        },
{
    match kill_request {
        Err(e) => Err(EngineError::IoError(concat("Engine process force-kill request failed: ", e.as_str()))),
        Ok(()) => match wait {
            WaitOutcome::Exited => Ok(()),
            WaitOutcome::WaitFailed(e) => Err(EngineError::IoError(
                concat("Engine process exit could not be observed after force-kill: ", e.as_str()),
            )),
            WaitOutcome::TimedOut => Err(EngineError::IoError(
                "Engine process did not exit before the force-kill deadline.".to_string(),
            )),
        },
    }
}

// ---------------------------------------------------------------------------
// The simulated launcher used to exercise the lifecycle without processes
// ---------------------------------------------------------------------------

#[derive(Debug, Clone, PartialEq, Eq)]
pub enum EngineLaunchError {
    BinaryNotFound(String),
    SpawnFailed(String),
    JobAssignmentFailed(String),
    AuthorizationFailed(String),
}

pub open spec fn launch_error_text(e: EngineLaunchError) -> Seq<char> {
    match e {
        EngineLaunchError::BinaryNotFound(m) => "binary not found: "@ + m@,
        EngineLaunchError::SpawnFailed(m) => "process spawn failed: "@ + m@,
        EngineLaunchError::JobAssignmentFailed(m) => "job object assignment failed: "@ + m@,
        EngineLaunchError::AuthorizationFailed(m) => "authorization denied: "@ + m@,
    }
}

impl EngineLaunchError {
    pub fn message(&self) -> (s: String)
        ensures
            s@ == launch_error_text(*self),
    {
        match self {
            EngineLaunchError::BinaryNotFound(m) => concat("binary not found: ", m.as_str()),
            EngineLaunchError::SpawnFailed(m) => concat("process spawn failed: ", m.as_str()),
            EngineLaunchError::JobAssignmentFailed(m) => concat("job object assignment failed: ", m.as_str()),
            EngineLaunchError::AuthorizationFailed(m) => concat("authorization denied: ", m.as_str()),
        }
    }
}

/// A simulated engine process: its identity, its pid, and whether it has
/// exited.
pub struct FakeEngineProcess {
    pub identity: EngineProcessIdentity,
    pub pid: u32,
    pub exited: bool,
}

impl FakeEngineProcess {
    pub fn is_alive(&self) -> (r: bool)
        ensures
            r == !self.exited,
    {
        !self.exited
    }

    /// Terminates the process: afterwards it has exited, with code 0, by
    /// our hand.
    pub fn terminate(&mut self) -> (r: ProcessExit)
        ensures
            final(self).exited,
            final(self).pid == old(self).pid,
            r.pid == old(self).pid,
            r.exit_code == Some(0i32),
            r.terminated_by_us,
    {
        self.exited = true;
        ProcessExit { pid: self.pid, exit_code: Some(0), terminated_by_us: true }
    }
}

/// A launcher that starts no process: it fails on request, or hands out a
/// simulated process with the next pid that is running or has already
/// crashed.
pub struct FakeEngineLauncher {
    pub should_fail_spawn: bool,
    pub next_pid: u32,
    pub immediate_crash: bool,
}

impl FakeEngineLauncher {
    pub fn new() -> (l: Self)
        ensures
            !l.should_fail_spawn,
            l.next_pid == 9000,
            !l.immediate_crash,
    {
        FakeEngineLauncher { should_fail_spawn: false, next_pid: 9000, immediate_crash: false }
    }

    pub fn spawn(&self, identity: EngineProcessIdentity) -> (r: Result<FakeEngineProcess, EngineLaunchError>)
        ensures
            self.should_fail_spawn ==> (r matches Err(EngineLaunchError::SpawnFailed(m)) && m@ == "Simulated spawn failure"@),
            !self.should_fail_spawn ==> (r matches Ok(p) && p.identity == identity && p.pid == self.next_pid && p.exited
                == self.immediate_crash),
    {
        if self.should_fail_spawn {
            return Err(EngineLaunchError::SpawnFailed("Simulated spawn failure".to_string()));
        }
        Ok(FakeEngineProcess { identity, pid: self.next_pid, exited: self.immediate_crash })
    }
}

// ---------------------------------------------------------------------------
// The DNS watchdog
// ---------------------------------------------------------------------------

/// The number of consecutive failed resolutions after which the watchdog
/// disables the DNS configuration.
pub const WATCHDOG_FAILURE_LIMIT: u32 = 3;

/// Seconds between two watchdog checks.
pub const WATCHDOG_INTERVAL_SECS: u64 = 5;

/// What the watchdog does after a check.
#[derive(Debug, Clone, Copy, PartialEq, Eq, Structural)]
pub enum WatchdogAction {
    KeepWatching,
    /// Stop watching and disable the DNS configuration.
    Recover,
}

/// The watchdog's count of consecutive failed resolutions.
pub struct DnsWatchdog {
    failures: u32,
}

impl DnsWatchdog {
    pub closed spec fn failures(&self) -> nat {
        self.failures as nat
    }

    pub open spec fn wf(&self) -> bool {
        self.failures() < WATCHDOG_FAILURE_LIMIT
    }

    pub fn new() -> (w: Self)
        ensures
            w.wf(),
            w.failures() == 0,
    {
        DnsWatchdog { failures: 0 }
    }

    pub fn failure_count(&self) -> (n: u32)
        ensures
            n == self.failures(),
    {
        self.failures
    }

    /// Records a check: a successful resolution clears the count, a failed
    /// one adds to it, and the third consecutive failure calls for
    /// recovery.
    pub fn observe(&mut self, reachable: bool) -> (a: WatchdogAction)
        requires
            old(self).wf(),
        ensures
            reachable ==> final(self).failures() == 0 && a == WatchdogAction::KeepWatching,
            !reachable ==> final(self).failures() == old(self).failures() + 1,
            a == WatchdogAction::Recover <==> (!reachable && old(self).failures() + 1 >= WATCHDOG_FAILURE_LIMIT),
            a == WatchdogAction::KeepWatching ==> final(self).wf(),
    {
        if reachable {
            self.failures = 0;
            WatchdogAction::KeepWatching
        } else {
            self.failures = self.failures + 1;
            if self.failures >= WATCHDOG_FAILURE_LIMIT {
                WatchdogAction::Recover
            } else {
                WatchdogAction::KeepWatching
            }
        }
    }
}

pub open spec fn kill_switch_forwarder_text() -> Seq<char> {
    "DNS Kill Switch requires the encrypted local DNS forwarder to be running."@
}

/// A configuration with the DNS kill switch may only start while the local
/// encrypted DNS forwarder runs.
pub fn check_kill_switch_forwarder(kill_switch: bool, forwarder_active: bool) -> (r: Result<(), EngineError>)
    ensures
        (kill_switch && !forwarder_active) ==> (r matches Err(EngineError::ConfigParseError(m)) && m@
            == kill_switch_forwarder_text()),
        !(kill_switch && !forwarder_active) ==> r is Ok,
{
    if kill_switch && !forwarder_active {
        return Err(EngineError::ConfigParseError(
            "DNS Kill Switch requires the encrypted local DNS forwarder to be running.".to_string(),
        ));
    }
    Ok(())
}

/// The engine's arguments on Linux: the queue it was given by the filter
/// comes first, and any queue the prepared arguments named is dropped.
pub open spec fn linux_args(args: Seq<Seq<char>>, queue: u16) -> Seq<Seq<char>> {
    seq!["--qnum="@ + decimal(queue as nat)] + args.filter(|a: Seq<char>| !starts_with(a, "--qnum="@))
}

pub fn linux_engine_args(args: &Vec<String>, queue: u16) -> (r: Vec<String>)
    ensures
        view_strings(r@) == linux_args(view_strings(args@), queue),
{
    let mut out: Vec<String> = Vec::new();
    out.push(concat("--qnum=", u64_to_decimal(queue as u64).as_str()));
    let ghost head = out@;
    let mut i: usize = 0;
    while i < args.len()
        invariant
            i <= args@.len(),
            head.len() == 1,
            view_strings(head) == seq!["--qnum="@ + decimal(queue as nat)],
            out@ == head + out@.skip(1),
            out@.len() >= 1,
            view_strings(out@.skip(1)) == view_strings(args@.take(i as int)).filter(
                |a: Seq<char>| !starts_with(a, "--qnum="@),
            ),
        decreases args@.len() - i,
    {
        let ghost before = out@;
        let keep = !str_starts_with(args[i].as_str(), "--qnum=");
        if keep {
            out.push(args[i].clone());
        }
        proof {
            let prefix = view_strings(args@.take(i as int));
            assert(view_strings(args@.take(i + 1)) =~= prefix.push(args@[i as int]@));
            prefix.lemma_filter_push(args@[i as int]@, |a: Seq<char>| !starts_with(a, "--qnum="@));
            if keep {
                assert(out@.skip(1) =~= before.skip(1).push(args@[i as int]));
                assert(view_strings(out@.skip(1)) =~= view_strings(before.skip(1)).push(args@[i as int]@));
                assert(out@ =~= head + out@.skip(1));
            }
        }
        i += 1;
    }
    proof {
        assert(args@.take(args@.len() as int) =~= args@);
        assert(view_strings(out@) =~= view_strings(head) + view_strings(out@.skip(1)));
    }
    out
}

} // verus!
