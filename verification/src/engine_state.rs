//! The engine's process state and the rules that guard its transitions:
//! only the start attempt of the current generation may settle a start,
//! and a stop always ends in a defined state. The bypass configuration that
//! a start reads is checked here too.

use vstd::prelude::*;
use crate::preset::EngineError;
use crate::text::{str_eq, view_strings, join_seq};
use crate::domain::{canonical_rules, canonicalize_domain_rules, domain_rule_error_text};
use crate::runtime_config::join_strings;

verus! {

/// The status shown to the user.
#[derive(Debug, Clone, PartialEq, Eq)]
pub enum EngineStatus {
    Stopped,
    Starting,
    WaitingForReadiness { pid: u32 },
    Ready { pid: u32, generation: u64, revision: u64, fingerprint: String },
    /// A process was spawned; this is not a claim that it is ready.
    Running { pid: u32 },
    Error { message: String, code: Option<String> },
}

/// What the engine is doing. `C` is the handle that cancels a start in
/// progress, `H` the handle of a running process.
pub enum EngineState<C, H> {
    Idle,
    Starting { generation: u64, cancel: C },
    Running { pid: u32, handle: H },
    Stopping,
    Failed(EngineError),
}

/// Whether the state is the start attempt of `generation`.
pub open spec fn starting_generation<C, H>(s: EngineState<C, H>, generation: u64) -> bool {
    s matches EngineState::Starting { generation: g, .. } && g == generation
}

/// Whether the state runs the process `pid`.
pub open spec fn running_pid<C, H>(s: EngineState<C, H>, pid: u32) -> bool {
    s matches EngineState::Running { pid: p, .. } && p == pid
}

pub fn is_state_running_with_pid<C, H>(state: &EngineState<C, H>, pid: u32) -> (r: bool)
    ensures
        r == running_pid(*state, pid),
{
    match state {
        EngineState::Running { pid: p, .. } => *p == pid,
        _ => false,
    }
}

pub fn is_state_starting_generation<C, H>(state: &EngineState<C, H>, generation: u64) -> (r: bool)
    ensures
        r == starting_generation(*state, generation),
{
    match state {
        EngineState::Starting { generation: g, .. } => *g == generation,
        _ => false,
    }
}

/// Admits a start: refused while a process runs, starts or stops;
/// otherwise the state becomes the start attempt of `generation`.
pub fn begin_start<C, H>(state: &mut EngineState<C, H>, generation: u64, cancel: C) -> (r: Result<(), EngineError>)
    ensures
        (*old(state) is Running || *old(state) is Starting || *old(state) is Stopping) ==> r == Err::<(), EngineError>(
            EngineError::AlreadyRunning) && *final(state) == *old(state),
        (*old(state) is Idle || *old(state) is Failed) ==> r is Ok && *final(state) == (EngineState::Starting::<C, H> {
            generation,
            cancel,
        }),
{
    match state {
        EngineState::Running { .. } | EngineState::Starting { .. } | EngineState::Stopping => {
            return Err(EngineError::AlreadyRunning);
        },
        _ => {},
    }
    *state = EngineState::Starting { generation, cancel };
    Ok(())
}

/// A process that had been running crashed, and a restart attempt of
/// `generation` begins: only if `pid` is still the running process.
pub fn set_state_starting_if_running_pid<C, H>(
    state: &mut EngineState<C, H>,
    pid: u32,
    generation: u64,
    cancel: C,
) -> (r: bool)
    ensures
        r == running_pid(*old(state), pid),
        r ==> *final(state) == (EngineState::Starting::<C, H> { generation, cancel }),
        !r ==> *final(state) == *old(state),
{
    if !is_state_running_with_pid(state, pid) {
        return false;
    }
    *state = EngineState::Starting { generation, cancel };
    true
}

/// Settles the start attempt of `generation` with a running process; a
/// stale attempt changes nothing.
pub fn set_state_running_if_starting<C, H>(
    state: &mut EngineState<C, H>,
    generation: u64,
    pid: u32,
    handle: H,
) -> (r: bool)
    ensures
        r == starting_generation(*old(state), generation),
        r ==> *final(state) == (EngineState::Running::<C, H> { pid, handle }),
        !r ==> *final(state) == *old(state),
{
    if !is_state_starting_generation(state, generation) {
        return false;
    }
    *state = EngineState::Running { pid, handle };
    true
}

/// Gives the start attempt of `generation` a fresh cancel handle (the old
/// one is dropped); a stale attempt changes nothing.
pub fn replace_start_cancel_if_starting<C, H>(state: &mut EngineState<C, H>, generation: u64, cancel: C) -> (r: bool)
    ensures
        r == starting_generation(*old(state), generation),
        r ==> *final(state) == (EngineState::Starting::<C, H> { generation, cancel }),
        !r ==> *final(state) == *old(state),
{
    if !is_state_starting_generation(state, generation) {
        return false;
    }
    *state = EngineState::Starting { generation, cancel };
    true
}

/// Settles the start attempt of `generation` as failed; a stale attempt
/// changes nothing.
pub fn set_state_failed_if_starting<C, H>(state: &mut EngineState<C, H>, generation: u64, error: EngineError) -> (r: bool)
    ensures
        r == starting_generation(*old(state), generation),
        r ==> *final(state) == EngineState::<C, H>::Failed(error),
        !r ==> *final(state) == *old(state),
{
    if !is_state_starting_generation(state, generation) {
        return false;
    }
    *state = EngineState::Failed(error);
    true
}

/// The running process `pid` exited unexpectedly: the state records the
/// failure, unless another process or state has taken its place.
pub fn set_state_failed_if_running_pid<C, H>(state: &mut EngineState<C, H>, pid: u32, error: EngineError) -> (r: bool)
    ensures
        r == running_pid(*old(state), pid),
        r ==> *final(state) == EngineState::<C, H>::Failed(error),
        !r ==> *final(state) == *old(state),
{
    if !is_state_running_with_pid(state, pid) {
        return false;
    }
    *state = EngineState::Failed(error);
    true
}

/// What the crash watcher of a running process does after a check.
#[derive(Debug, Clone, PartialEq, Eq)]
pub enum ProcessWatchStep {
    /// The process is no longer the running one: stop watching.
    Stop,
    /// The process is alive: check again later.
    KeepWatching,
    /// The process died: report this status error and stop watching.
    Crashed { message: String, code: String },
}

pub open spec fn crash_error_text() -> Seq<char> {
    "Owned engine process exited unexpectedly; explicit restart required"@
}

pub open spec fn crash_status_text() -> Seq<char> {
    "Engine process exited unexpectedly. Automatic restart is disabled."@
}

/// One check of the watcher of process `pid`, which was found `alive` or
/// not: while `pid` runs and lives nothing changes; when it has died the
/// state records the crash (automatic restart is off) and the watcher
/// reports it; once another state has taken over the watcher stops.
pub fn watch_engine_process<C, H>(state: &mut EngineState<C, H>, pid: u32, alive: bool) -> (r: ProcessWatchStep)
    ensures
        !running_pid(*old(state), pid) ==> r == ProcessWatchStep::Stop && *final(state) == *old(state),
        running_pid(*old(state), pid) && alive ==> r == ProcessWatchStep::KeepWatching && *final(state) == *old(state),
        running_pid(*old(state), pid) && !alive ==> (*final(state) matches EngineState::Failed(EngineError::IoError(m))
            && m@ == crash_error_text()) && (r matches ProcessWatchStep::Crashed { message, code } && message@
            == crash_status_text() && code@ == "ENGINE_CRASH_OBSERVED"@),
{
    if !is_state_running_with_pid(state, pid) {
        return ProcessWatchStep::Stop;
    }
    if alive {
        return ProcessWatchStep::KeepWatching;
    }
    let error = EngineError::IoError("Owned engine process exited unexpectedly; explicit restart required".to_string());
    set_state_failed_if_running_pid(state, pid, error);
    ProcessWatchStep::Crashed {
        message: "Engine process exited unexpectedly. Automatic restart is disabled.".to_string(),
        code: "ENGINE_CRASH_OBSERVED".to_string(),
    }
}

/// What a stop request has to do next.
pub enum StopAction<C, H> {
    /// Nothing was running; the engine is stopped.
    AlreadyStopped,
    /// Another stop is in progress.
    InProgress,
    /// A start was in progress: cancel it with this handle; the engine is
    /// stopped.
    CancelStart(C),
    /// Terminate this process, then report with `finish_stop`.
    Terminate(H),
}

/// The first half of a stop: the state moves on and the caller learns what
/// remains to do.
pub fn begin_stop<C, H>(state: &mut EngineState<C, H>) -> (a: StopAction<C, H>)
    ensures
        match *old(state) {
            EngineState::Idle | EngineState::Failed(_) => a is AlreadyStopped && *final(state) is Idle,
            EngineState::Stopping => a is InProgress && *final(state) is Stopping,
            EngineState::Starting { cancel, .. } => a == StopAction::<C, H>::CancelStart(cancel)
                && *final(state) is Idle,
            EngineState::Running { handle, .. } => a == StopAction::<C, H>::Terminate(handle)
                && *final(state) is Stopping,
        },
{
    let mut previous = EngineState::Stopping;
    std::mem::swap(state, &mut previous);
    match previous {
        EngineState::Idle | EngineState::Failed(_) => {
            *state = EngineState::Idle;
            StopAction::AlreadyStopped
        },
        EngineState::Stopping => StopAction::InProgress,
        EngineState::Starting { cancel, .. } => {
            *state = EngineState::Idle;
            StopAction::CancelStart(cancel)
        },
        EngineState::Running { handle, .. } => StopAction::Terminate(handle),
    }
}

/// The second half of a stop, once the process was asked to terminate:
/// idle on success, failed with the termination error otherwise.
pub fn finish_stop<C, H>(state: &mut EngineState<C, H>, termination: Result<(), EngineError>)
    ensures
        match termination {
            Ok(()) => *final(state) is Idle,
            Err(e) => *final(state) == EngineState::<C, H>::Failed(e),
        },
{
    match termination {
        Ok(()) => {
            *state = EngineState::Idle;
        },
        Err(e) => {
            *state = EngineState::Failed(e);
        },
    }
}

/// A spawned process is kept only if it is still alive after the grace
/// period and runs exactly the configuration that was prepared.
pub fn start_is_confirmed(
    process_alive: bool,
    applied_revision: u64,
    applied_fingerprint: &str,
    prepared_revision: u64,
    prepared_fingerprint: &str,
) -> (r: bool)
    ensures
        r == (process_alive && applied_revision == prepared_revision && applied_fingerprint@
            == prepared_fingerprint@),
{
    process_alive && applied_revision == prepared_revision && str_eq(applied_fingerprint, prepared_fingerprint)
}

// ---------------------------------------------------------------------------
// The bypass configuration a start reads
// ---------------------------------------------------------------------------

#[derive(Debug, Clone)]
pub struct BypassConfig {
    pub mode: String,
    pub domain_list: String,
    pub proxy: String,
    pub kill_switch: bool,
}

pub open spec fn whitelist_empty_text() -> Seq<char> {
    "Whitelist mode is selected, but the whitelist has no valid domains. DPI bypass was not started."@
}

impl BypassConfig {
    /// Bypass for all sites, with no list and no kill switch.
    pub fn all_sites() -> (c: BypassConfig)
        ensures
            c.mode@ == "all"@,
            c.domain_list@.len() == 0,
            c.proxy@.len() == 0,
            !c.kill_switch,
    {
        BypassConfig {
            mode: "all".to_string(),
            domain_list: String::new(),
            proxy: String::new(),
            kill_switch: false,
        }
    }

    /// A whitelist without domains would bypass nothing the user asked
    /// for: such a start is refused (fail closed).
    pub fn validate_for_start(&self) -> (r: Result<(), EngineError>)
        ensures
            (self.mode@ == "whitelist"@ && self.domain_list@.len() == 0) ==> (r matches Err(
                EngineError::ConfigParseError(m)) && m@ == whitelist_empty_text()),
            !(self.mode@ == "whitelist"@ && self.domain_list@.len() == 0) ==> r is Ok,
    {
        if str_eq(self.mode.as_str(), "whitelist") && self.domain_list.as_str().is_empty() {
            return Err(EngineError::ConfigParseError(
                "Whitelist mode is selected, but the whitelist has no valid domains. DPI bypass was not started.".to_string(),
            ));
        }
        Ok(())
    }
}

pub open spec fn known_bypass_mode(mode: Seq<char>) -> bool {
    mode == "all"@ || mode == "whitelist"@ || mode == "blacklist"@
}

/// The bypass configuration read from persisted settings: the mode must be
/// known, and the list is the canonical form of the whitelist in whitelist
/// mode and of the blacklist otherwise, one domain per line.
pub open spec fn bypass_config_verdict(
    mode: Seq<char>,
    whitelist: Seq<Seq<char>>,
    blacklist: Seq<Seq<char>>,
) -> Result<Seq<char>, Seq<char>> {
    if !known_bypass_mode(mode) {
        Err("Unsupported persisted bypass mode: "@ + mode)
    } else {
        let raw = if mode == "whitelist"@ { whitelist } else { blacklist };
        match canonical_rules(raw) {
            Ok(domains) => Ok(join_seq(domains, "\n"@)),
            Err(e) => Err("Persisted bypass domain is invalid: "@ + domain_rule_error_text(e)),
        }
    }
}

pub fn bypass_config_from_settings(
    mode: String,
    whitelist: &Vec<String>,
    blacklist: &Vec<String>,
    proxy: String,
    kill_switch: bool,
) -> (r: Result<BypassConfig, EngineError>)
    ensures
        match (r, bypass_config_verdict(mode@, view_strings(whitelist@), view_strings(blacklist@))) {
            (Ok(c), Ok(list)) => c.mode@ == mode@ && c.domain_list@ == list && c.proxy@ == proxy@
                && c.kill_switch == kill_switch,
            (Err(EngineError::ConfigParseError(m)), Err(t)) => m@ == t,
            _ => false,
        },
{
    if !(str_eq(mode.as_str(), "all") || str_eq(mode.as_str(), "whitelist") || str_eq(mode.as_str(), "blacklist")) {
        return Err(EngineError::ConfigParseError(crate::text::concat("Unsupported persisted bypass mode: ", mode.as_str())));
    }
    let raw = if str_eq(mode.as_str(), "whitelist") { whitelist } else { blacklist };
    match canonicalize_domain_rules(raw.as_slice()) {
        Ok(domains) => {
            let list = join_strings(&domains, "\n");
            Ok(BypassConfig { mode, domain_list: list, proxy, kill_switch })
        },
        Err(e) => {
            let text = e.message();
            Err(EngineError::ConfigParseError(crate::text::concat("Persisted bypass domain is invalid: ", text.as_str())))
        },
    }
}

/// The bypass configuration last synchronised from the user interface, and
/// whether the DNS kill switch is on.
pub struct BypassConfigCache {
    pub config: Option<BypassConfig>,
    pub kill_switch: bool,
}

impl BypassConfigCache {
    pub fn new() -> (c: BypassConfigCache)
        ensures
            c.config is None,
            !c.kill_switch,
    {
        BypassConfigCache { config: None, kill_switch: false }
    }

    pub fn kill_switch_enabled(&self) -> (r: bool)
        ensures
            r == self.kill_switch,
    {
        self.kill_switch
    }
}

/// Records the configuration as synchronised.
pub fn update_bypass_config_cache(cache: &mut BypassConfigCache, mode: String, list: String, proxy: String, kill_switch: bool)
    ensures
        final(cache).kill_switch == kill_switch,
        final(cache).config matches Some(c) && c.mode == mode && c.domain_list == list && c.proxy == proxy
            && c.kill_switch == kill_switch,
{
    cache.kill_switch = kill_switch;
    cache.config = Some(BypassConfig { mode, domain_list: list, proxy, kill_switch });
}

/// Forgets the synchronised configuration; the kill switch flag stays.
pub fn invalidate_bypass_config_cache(cache: &mut BypassConfigCache)
    ensures
        final(cache).config is None,
        final(cache).kill_switch == old(cache).kill_switch,
{
    cache.config = None;
}

} // verus!
