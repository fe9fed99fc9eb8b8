//! Diagnostics: event codes, subsystem health, the bounded event store,
//! text redaction and the privacy scan that a diagnostics export must pass.

use vstd::prelude::*;
use crate::text::{decimal, u64_to_decimal, concat, ascii_lower, ascii_lower_seq, contains_seq, str_contains, str_ends_with, ends_with, push_char, chars_of};
use crate::firewall::{debug_str, debug_str_text, from_utf8_lossy, utf8_lossy};
use crate::engine_state::EngineStatus;
use crate::text_pattern::{TextPattern, regex_compiles, regex_replace_all, regex_is_match};

verus! {

#[derive(Debug, Clone, Copy, PartialEq, Eq, Structural)]
pub enum DiagnosticSeverity {
    Debug,
    Info,
    Warning,
    Error,
    Critical,
}

#[derive(Debug, Clone, Copy, PartialEq, Eq, Hash, Structural)]
pub enum DiagnosticComponent {
    Engine,
    Config,
    Dns,
    Firewall,
    Optimizer,
    Security,
    System,
}

#[derive(Debug, Clone, Copy, PartialEq, Eq, Hash, Structural)]
pub enum DiagnosticEventCode {
    EngStartInit,
    EngStartSuccess,
    EngStartFailed,
    EngStopReq,
    EngStopSuccess,
    EngStopFailed,
    EngCrashExit,
    PatCacheUpdated,
    PatRollbackTriggered,
    DnsSyncReq,
    DnsSyncSuccess,
    DnsSyncFailed,
    FwApplied,
    FwRemoved,
    OptSessionStart,
    OptSessionEnd,
    SecArtifactVerified,
    SecArtifactTampered,
    HealthCheckLocal,
    HealthCheckTraffic,
}

/// The stable wire name of an event code.
pub open spec fn event_code_text(c: DiagnosticEventCode) -> Seq<char> {
    match c {
        DiagnosticEventCode::EngStartInit => "ENG_START_INIT"@,
        DiagnosticEventCode::EngStartSuccess => "ENG_START_SUCCESS"@,
        DiagnosticEventCode::EngStartFailed => "ENG_START_FAILED"@,
        DiagnosticEventCode::EngStopReq => "ENG_STOP_REQ"@,
        DiagnosticEventCode::EngStopSuccess => "ENG_STOP_SUCCESS"@,
        DiagnosticEventCode::EngStopFailed => "ENG_STOP_FAILED"@,
        DiagnosticEventCode::EngCrashExit => "ENG_CRASH_EXIT"@,
        DiagnosticEventCode::PatCacheUpdated => "PAT_CACHE_UPDATED"@,
        DiagnosticEventCode::PatRollbackTriggered => "PAT_ROLLBACK_TRIGGERED"@,
        DiagnosticEventCode::DnsSyncReq => "DNS_SYNC_REQ"@,
        DiagnosticEventCode::DnsSyncSuccess => "DNS_SYNC_SUCCESS"@,
        DiagnosticEventCode::DnsSyncFailed => "DNS_SYNC_FAILED"@,
        DiagnosticEventCode::FwApplied => "FW_APPLIED"@,
        DiagnosticEventCode::FwRemoved => "FW_REMOVED"@,
        DiagnosticEventCode::OptSessionStart => "OPT_SESSION_START"@,
        DiagnosticEventCode::OptSessionEnd => "OPT_SESSION_END"@,
        DiagnosticEventCode::SecArtifactVerified => "SEC_ARTIFACT_VERIFIED"@,
        DiagnosticEventCode::SecArtifactTampered => "SEC_ARTIFACT_TAMPERED"@,
        DiagnosticEventCode::HealthCheckLocal => "HEALTH_CHECK_LOCAL"@,
        DiagnosticEventCode::HealthCheckTraffic => "HEALTH_CHECK_TRAFFIC"@,
    }
}

impl DiagnosticEventCode {
    pub fn as_str(&self) -> (s: &'static str)
        ensures
            s@ == event_code_text(*self),
    {
        match self {
            DiagnosticEventCode::EngStartInit => "ENG_START_INIT",
            DiagnosticEventCode::EngStartSuccess => "ENG_START_SUCCESS",
            DiagnosticEventCode::EngStartFailed => "ENG_START_FAILED",
            DiagnosticEventCode::EngStopReq => "ENG_STOP_REQ",
            DiagnosticEventCode::EngStopSuccess => "ENG_STOP_SUCCESS",
            DiagnosticEventCode::EngStopFailed => "ENG_STOP_FAILED",
            DiagnosticEventCode::EngCrashExit => "ENG_CRASH_EXIT",
            DiagnosticEventCode::PatCacheUpdated => "PAT_CACHE_UPDATED",
            DiagnosticEventCode::PatRollbackTriggered => "PAT_ROLLBACK_TRIGGERED",
            DiagnosticEventCode::DnsSyncReq => "DNS_SYNC_REQ",
            DiagnosticEventCode::DnsSyncSuccess => "DNS_SYNC_SUCCESS",
            DiagnosticEventCode::DnsSyncFailed => "DNS_SYNC_FAILED",
            DiagnosticEventCode::FwApplied => "FW_APPLIED",
            DiagnosticEventCode::FwRemoved => "FW_REMOVED",
            DiagnosticEventCode::OptSessionStart => "OPT_SESSION_START",
            DiagnosticEventCode::OptSessionEnd => "OPT_SESSION_END",
            DiagnosticEventCode::SecArtifactVerified => "SEC_ARTIFACT_VERIFIED",
            DiagnosticEventCode::SecArtifactTampered => "SEC_ARTIFACT_TAMPERED",
            DiagnosticEventCode::HealthCheckLocal => "HEALTH_CHECK_LOCAL",
            DiagnosticEventCode::HealthCheckTraffic => "HEALTH_CHECK_TRAFFIC",
        }
    }
}

// ---------------------------------------------------------------------------
// Health
// ---------------------------------------------------------------------------

#[derive(Debug, Clone, Copy, PartialEq, Eq, Structural)]
pub enum HealthState {
    Healthy,
    Degraded,
    Unhealthy,
    Unknown,
}

/// The health of two parts taken together: any unhealthy part makes the
/// whole unhealthy, then any degraded part makes it degraded, then any
/// unknown part makes it unknown.
pub open spec fn combined(a: HealthState, b: HealthState) -> HealthState {
    if a == HealthState::Unhealthy || b == HealthState::Unhealthy {
        HealthState::Unhealthy
    } else if a == HealthState::Degraded || b == HealthState::Degraded {
        HealthState::Degraded
    } else if a == HealthState::Unknown || b == HealthState::Unknown {
        HealthState::Unknown
    } else {
        HealthState::Healthy
    }
}

impl HealthState {
    pub fn combine(self, other: Self) -> (r: Self)
        ensures
            r == combined(self, other),
    {
        match (self, other) {
            (HealthState::Unhealthy, _) | (_, HealthState::Unhealthy) => HealthState::Unhealthy,
            (HealthState::Degraded, _) | (_, HealthState::Degraded) => HealthState::Degraded,
            (HealthState::Unknown, _) | (_, HealthState::Unknown) => HealthState::Unknown,
            (HealthState::Healthy, HealthState::Healthy) => HealthState::Healthy,
        }
    }
}

/// Combining health does not depend on the order of the parts.
pub proof fn lemma_combine_commutative(a: HealthState, b: HealthState)
    ensures
        combined(a, b) == combined(b, a),
{
}

/// Combining health does not depend on how the parts are grouped.
pub proof fn lemma_combine_associative(a: HealthState, b: HealthState, c: HealthState)
    ensures
        combined(combined(a, b), c) == combined(a, combined(b, c)),
{
}

/// A healthy part changes nothing, an unhealthy part decides everything,
/// and combining a state with itself gives it back.
pub proof fn lemma_combine_identity_and_absorption(a: HealthState)
    ensures
        combined(HealthState::Healthy, a) == a,
        combined(HealthState::Unhealthy, a) == HealthState::Unhealthy,
        combined(a, a) == a,
{
}

/// The overall health of a list of parts, combined from the left starting
/// from `Healthy`.
pub open spec fn overall_of(states: Seq<HealthState>) -> HealthState
    decreases states.len(),
{
    if states.len() == 0 {
        HealthState::Healthy
    } else {
        combined(overall_of(states.drop_last()), states.last())
    }
}

/// The whole is healthy exactly when every part is, and unhealthy exactly
/// when some part is.
pub proof fn lemma_overall_health(states: Seq<HealthState>)
    ensures
        (overall_of(states) == HealthState::Healthy) <==> (forall|i: int|
            0 <= i < states.len() ==> states[i] == HealthState::Healthy),
        (overall_of(states) == HealthState::Unhealthy) <==> (exists|i: int|
            0 <= i < states.len() && states[i] == HealthState::Unhealthy),
    decreases states.len(),
{
    if states.len() > 0 {
        let init = states.drop_last();
        lemma_overall_health(init);
        assert forall|i: int| 0 <= i < init.len() implies init[i] == states[i] by {}
        if overall_of(states) == HealthState::Unhealthy {
            if states.last() == HealthState::Unhealthy {
                assert(states[states.len() - 1] == HealthState::Unhealthy);
            } else {
                let j = choose|j: int| 0 <= j < init.len() && init[j] == HealthState::Unhealthy;
                assert(states[j] == HealthState::Unhealthy);
            }
        }
        if exists|i: int| 0 <= i < states.len() && states[i] == HealthState::Unhealthy {
            let j = choose|j: int| 0 <= j < states.len() && states[j] == HealthState::Unhealthy;
            if j < init.len() {
                assert(init[j] == HealthState::Unhealthy);
            }
        }
        if forall|i: int| 0 <= i < states.len() ==> states[i] == HealthState::Healthy {
            assert(states.last() == states[states.len() - 1]);
        }
    }
}

#[derive(Debug, Clone)]
pub struct SubsystemHealth {
    pub name: String,
    pub state: HealthState,
    pub message: String,
    pub last_checked_ms: u64,
}

/// How `{:?}` prints an engine status (the derived `Debug`).
pub open spec fn engine_status_text(s: EngineStatus) -> Seq<char> {
    match s {
        EngineStatus::Stopped => "Stopped"@,
        EngineStatus::Starting => "Starting"@,
        EngineStatus::WaitingForReadiness { pid } => "WaitingForReadiness { pid: "@ + decimal(pid as nat) + " }"@,
        EngineStatus::Ready { pid, generation, revision, fingerprint } => "Ready { pid: "@ + decimal(pid as nat)
            + ", generation: "@ + decimal(generation as nat) + ", revision: "@ + decimal(revision as nat)
            + ", fingerprint: "@ + debug_str_text(fingerprint@) + " }"@,
        EngineStatus::Running { pid } => "Running { pid: "@ + decimal(pid as nat) + " }"@,
        EngineStatus::Error { message, code } => "Error { message: "@ + debug_str_text(message@) + ", code: "@
            + match code {
            Some(c) => "Some("@ + debug_str_text(c@) + ")"@,
            None => "None"@,
        } + " }"@,
    }
}

fn engine_status_debug(s: &EngineStatus) -> (r: String)
    ensures
        r@ == engine_status_text(*s),
{
    match s {
        EngineStatus::Stopped => "Stopped".to_string(),
        EngineStatus::Starting => "Starting".to_string(),
        EngineStatus::WaitingForReadiness { pid } => {
            let t = concat("WaitingForReadiness { pid: ", u64_to_decimal(*pid as u64).as_str());
            concat(t.as_str(), " }")
        },
        EngineStatus::Ready { pid, generation, revision, fingerprint } => {
            let t = concat("Ready { pid: ", u64_to_decimal(*pid as u64).as_str());
            let t = concat(t.as_str(), ", generation: ");
            let t = concat(t.as_str(), u64_to_decimal(*generation).as_str());
            let t = concat(t.as_str(), ", revision: ");
            let t = concat(t.as_str(), u64_to_decimal(*revision).as_str());
            let t = concat(t.as_str(), ", fingerprint: ");
            let t = concat(t.as_str(), debug_str(fingerprint.as_str()).as_str());
            concat(t.as_str(), " }")
        },
        EngineStatus::Running { pid } => {
            let t = concat("Running { pid: ", u64_to_decimal(*pid as u64).as_str());
            concat(t.as_str(), " }")
        },
        EngineStatus::Error { message, code } => {
            let t = concat("Error { message: ", debug_str(message.as_str()).as_str());
            let t = concat(t.as_str(), ", code: ");
            let t = match code {
                Some(c) => {
                    let u = concat(t.as_str(), "Some(");
                    let u = concat(u.as_str(), debug_str(c.as_str()).as_str());
                    concat(u.as_str(), ")")
                },
                None => concat(t.as_str(), "None"),
            };
            concat(t.as_str(), " }")
        },
    }
}

/// The health the engine's state stands for: ready or stopped is healthy,
/// an error unhealthy, anything in between degraded.
pub open spec fn engine_health_state(s: EngineStatus) -> HealthState {
    match s {
        EngineStatus::Ready { .. } | EngineStatus::Stopped => HealthState::Healthy,
        EngineStatus::Error { .. } => HealthState::Unhealthy,
        _ => HealthState::Degraded,
    }
}

/// The subsystems a full local check reports besides storage, in order:
/// the engine artifacts (healthy only when verified), the engine's state,
/// the DNS runtime (healthy with a committed transaction, unknown without)
/// and the diagnostic store with its dropped-event count.
pub open spec fn runtime_subsystems_fit(
    v: Seq<SubsystemHealth>,
    integrity_status: Option<Seq<char>>,
    engine: EngineStatus,
    dns_applied: bool,
    dropped: u64,
    now_ms: u64,
) -> bool {
    &&& v.len() == 4
    &&& forall|i: int| 0 <= i < 4 ==> (#[trigger] v[i]).last_checked_ms == now_ms
    &&& v[0].name@ == "Artifact Integrity"@
    &&& v[0].state == (if integrity_status == Some("verified"@) { HealthState::Healthy } else { HealthState::Unhealthy })
    &&& v[0].message@ == match integrity_status {
        Some(t) => "Artifact verification status: "@ + t,
        None => "Artifact verification unavailable"@,
    }
    &&& v[1].name@ == "Engine Lifecycle"@
    &&& v[1].state == engine_health_state(engine)
    &&& v[1].message@ == "Authoritative engine state: "@ + engine_status_text(engine)
    &&& v[2].name@ == "DNS Runtime"@
    &&& v[2].state == (if dns_applied { HealthState::Healthy } else { HealthState::Unknown })
    &&& v[2].message@ == (if dns_applied { "Committed DNS transaction present"@ } else { "No committed DNS transaction"@ })
    &&& v[3].name@ == "Diagnostic Store"@
    &&& v[3].state == HealthState::Healthy
    &&& v[3].message@ == "Dropped event count: "@ + decimal(dropped as nat)
}

/// Adds the runtime subsystems to a local check and recomputes its
/// overall health from all of them.
pub fn add_runtime_health(
    snapshot: &mut SystemHealthSnapshot,
    integrity_status: Option<&str>,
    engine: &EngineStatus,
    dns_applied: bool,
    dropped: u64,
)
    ensures
        final(snapshot).timestamp_ms == old(snapshot).timestamp_ms,
        final(snapshot).subsystems@.len() == old(snapshot).subsystems@.len() + 4,
        final(snapshot).subsystems@.take(old(snapshot).subsystems@.len() as int) == old(snapshot).subsystems@,
        runtime_subsystems_fit(
            final(snapshot).subsystems@.skip(old(snapshot).subsystems@.len() as int),
            match integrity_status {
                Some(t) => Some(t@),
                None => None,
            },
            *engine,
            dns_applied,
            dropped,
            old(snapshot).timestamp_ms,
        ),
        final(snapshot).overall == overall_of(states_of(final(snapshot).subsystems@)),
{
    let now = snapshot.timestamp_ms;
    let ghost before = snapshot.subsystems@;
    let integrity = match integrity_status {
        Some(t) => SubsystemHealth {
            name: "Artifact Integrity".to_string(),
            state: if crate::text::str_eq(t, "verified") { HealthState::Healthy } else { HealthState::Unhealthy },
            message: concat("Artifact verification status: ", t),
            last_checked_ms: now,
        },
        None => SubsystemHealth {
            name: "Artifact Integrity".to_string(),
            state: HealthState::Unhealthy,
            message: "Artifact verification unavailable".to_string(),
            last_checked_ms: now,
        },
    };
    let engine_state = match engine {
        EngineStatus::Ready { .. } | EngineStatus::Stopped => HealthState::Healthy,
        EngineStatus::Error { .. } => HealthState::Unhealthy,
        _ => HealthState::Degraded,
    };
    let lifecycle = SubsystemHealth {
        name: "Engine Lifecycle".to_string(),
        state: engine_state,
        message: concat("Authoritative engine state: ", engine_status_debug(engine).as_str()),
        last_checked_ms: now,
    };
    let dns = SubsystemHealth {
        name: "DNS Runtime".to_string(),
        state: if dns_applied { HealthState::Healthy } else { HealthState::Unknown },
        message: if dns_applied {
            "Committed DNS transaction present".to_string()
        } else {
            "No committed DNS transaction".to_string()
        },
        last_checked_ms: now,
    };
    let store = SubsystemHealth {
        name: "Diagnostic Store".to_string(),
        state: HealthState::Healthy,
        message: concat("Dropped event count: ", u64_to_decimal(dropped).as_str()),
        last_checked_ms: now,
    };
    snapshot.subsystems.push(integrity);
    snapshot.subsystems.push(lifecycle);
    snapshot.subsystems.push(dns);
    snapshot.subsystems.push(store);
    proof {
        assert(snapshot.subsystems@.take(before.len() as int) =~= before);
    }
    snapshot.overall = overall_health(&snapshot.subsystems);
}

#[derive(Debug, Clone)]
pub struct SystemHealthSnapshot {
    pub overall: HealthState,
    pub subsystems: Vec<SubsystemHealth>,
    pub timestamp_ms: u64,
}

pub open spec fn states_of(subsystems: Seq<SubsystemHealth>) -> Seq<HealthState> {
    subsystems.map_values(|s: SubsystemHealth| s.state)
}

/// The health of all subsystems together.
pub fn overall_health(subsystems: &Vec<SubsystemHealth>) -> (h: HealthState)
    ensures
        h == overall_of(states_of(subsystems@)),
{
    let mut overall = HealthState::Healthy;
    let mut i: usize = 0;
    while i < subsystems.len()
        invariant
            i <= subsystems.len(),
            overall == overall_of(states_of(subsystems@.take(i as int))),
        decreases subsystems.len() - i,
    {
        proof {
            let s = states_of(subsystems@.take(i + 1));
            assert(s.drop_last() =~= states_of(subsystems@.take(i as int)));
        }
        overall = overall.combine(subsystems[i].state);
        i += 1;
    }
    proof {
        assert(subsystems@.take(i as int) =~= subsystems@);
    }
    overall
}

/// The health record of the application data directory, from the outcome
/// of a create, write, sync and remove probe made in it.
pub fn storage_health(probe_succeeded: bool, now_ms: u64) -> (h: SubsystemHealth)
    ensures
        h.name@ == "App Data Directory"@,
        h.last_checked_ms == now_ms,
        probe_succeeded ==> h.state == HealthState::Healthy
            && h.message@ == "App data directory exists and writable"@,
        !probe_succeeded ==> h.state == HealthState::Degraded
            && h.message@ == "App data directory not created yet"@,
{
    if probe_succeeded {
        SubsystemHealth {
            name: "App Data Directory".to_string(),
            state: HealthState::Healthy,
            message: "App data directory exists and writable".to_string(),
            last_checked_ms: now_ms,
        }
    } else {
        SubsystemHealth {
            name: "App Data Directory".to_string(),
            state: HealthState::Degraded,
            message: "App data directory not created yet".to_string(),
            last_checked_ms: now_ms,
        }
    }
}

/// The snapshot of the local consistency checks: the storage probe's
/// record, with the overall health computed from it.
pub fn local_consistency_snapshot(storage_probe_succeeded: bool, now_ms: u64) -> (s: SystemHealthSnapshot)
    ensures
        s.subsystems@.len() == 1,
        s.subsystems@[0].state == (if storage_probe_succeeded { HealthState::Healthy } else { HealthState::Degraded }),
        s.overall == s.subsystems@[0].state,
        s.overall == overall_of(states_of(s.subsystems@)),
        s.timestamp_ms == now_ms,
{
    let mut subsystems: Vec<SubsystemHealth> = Vec::new();
    subsystems.push(storage_health(storage_probe_succeeded, now_ms));
    let overall = overall_health(&subsystems);
    proof {
        let st = states_of(subsystems@);
        assert(st.drop_last() =~= Seq::<HealthState>::empty());
        assert(overall_of(st.drop_last()) == HealthState::Healthy);
        assert(st.last() == subsystems@[0].state);
        assert(overall_of(st) == combined(HealthState::Healthy, st.last()));
    }
    SystemHealthSnapshot { overall, subsystems, timestamp_ms: now_ms }
}

// ---------------------------------------------------------------------------
// The bounded event store
// ---------------------------------------------------------------------------

pub const DEFAULT_EVENT_CAPACITY: usize = 2000;

/// The most recent diagnostic events, at most `capacity` of them (one when
/// the capacity is zero), and how many were pushed out.
pub struct DiagnosticEventStore<T> {
    capacity: usize,
    buffer: Vec<T>,
    dropped: u64,
}

impl<T> DiagnosticEventStore<T> {
    pub closed spec fn capacity(&self) -> nat {
        self.capacity as nat
    }

    pub closed spec fn events(&self) -> Seq<T> {
        self.buffer@
    }

    pub closed spec fn dropped(&self) -> nat {
        self.dropped as nat
    }

    /// What the store holds never exceeds its capacity (a store of
    /// capacity zero keeps the last event).
    pub open spec fn wf(&self) -> bool {
        self.events().len() <= if self.capacity() == 0 { 1 } else { self.capacity() }
    }

    pub fn new(capacity: usize) -> (s: Self)
        ensures
            s.wf(),
            s.capacity() == capacity,
            s.events() == Seq::<T>::empty(),
            s.dropped() == 0,
    {
        DiagnosticEventStore { capacity, buffer: Vec::new(), dropped: 0 }
    }

    pub fn with_default_capacity() -> (s: Self)
        ensures
            s.wf(),
            s.capacity() == DEFAULT_EVENT_CAPACITY,
            s.events() == Seq::<T>::empty(),
            s.dropped() == 0,
    {
        Self::new(DEFAULT_EVENT_CAPACITY)
    }

    /// Appends an event; when the store is full the oldest one goes and the
    /// drop counter (which wraps as the atomic counter does) goes up by one.
    pub fn push(&mut self, event: T)
        requires
            old(self).wf(),
        ensures
            final(self).wf(),
            final(self).capacity() == old(self).capacity(),
            old(self).events().len() < old(self).capacity() ==> final(self).events() == old(self).events().push(event)
                && final(self).dropped() == old(self).dropped(),
            old(self).events().len() >= old(self).capacity() ==> final(self).events() == old(self).events().push(event).drop_first()
                || (old(self).events().len() == 0 && final(self).events() == seq![event]),
            old(self).events().len() >= old(self).capacity() ==> final(self).dropped() == (if old(self).dropped() < u64::MAX {
                old(self).dropped() + 1
            } else {
                0
            }),
    {
        if self.buffer.len() >= self.capacity {
            if self.buffer.len() > 0 {
                self.buffer.remove(0);
            }
            self.dropped = if self.dropped < u64::MAX { self.dropped + 1 } else { 0 };
        }
        self.buffer.push(event);
        proof {
            if old(self).events().len() >= old(self).capacity() && old(self).events().len() > 0 {
                assert(old(self).events().drop_first().push(event) =~= old(self).events().push(event).drop_first());
            }
        }
    }

    pub fn dropped_count(&self) -> (n: u64)
        ensures
            n == self.dropped(),
    {
        self.dropped
    }

    pub fn len(&self) -> (n: usize)
        ensures
            n == self.events().len(),
    {
        self.buffer.len()
    }

    /// Empties the store and resets the drop counter.
    pub fn clear(&mut self)
        ensures
            final(self).wf(),
            final(self).capacity() == old(self).capacity(),
            final(self).events() == Seq::<T>::empty(),
            final(self).dropped() == 0,
    {
        self.buffer = Vec::new();
        self.dropped = 0;
    }
}

/// Where the newest `limit` events begin.
pub open spec fn recent_start(len: nat, limit: nat) -> nat {
    if limit >= len { 0 } else { (len - limit) as nat }
}

impl<T: Clone> DiagnosticEventStore<T> {
    /// The newest `limit` events (all of them when no limit is given, up to
    /// the capacity), oldest first, each a clone of the stored one.
    pub fn get_events(&self, limit: Option<usize>) -> (r: Vec<T>)
        ensures
            ({
                let lim = match limit { Some(l) => l as nat, None => self.capacity() };
                let start = recent_start(self.events().len(), lim);
                &&& r@.len() == self.events().len() - start
                &&& forall|i: int| 0 <= i < r@.len() ==> cloned::<T>(self.events()[start + i], r@[i])
            }),
    {
        let lim = match limit {
            Some(l) => l,
            None => self.capacity,
        };
        let len = self.buffer.len();
        let start = if lim >= len { 0 } else { len - lim };
        let mut out: Vec<T> = Vec::new();
        let mut i = start;
        while i < len
            invariant
                start <= i <= len,
                len == self.buffer@.len(),
                out@.len() == i - start,
                forall|k: int| 0 <= k < out@.len() ==> cloned::<T>(self.buffer@[start + k], out@[k]),
            decreases len - i,
        {
            let item = self.buffer[i].clone();
            out.push(item);
            i += 1;
        }
        out
    }
}

// ---------------------------------------------------------------------------
// Redaction
// ---------------------------------------------------------------------------

pub const IP_PATTERN: &'static str = r"\b(?:\d{1,3}\.){3}\d{1,3}\b|(?:::[a-fA-F0-9]{1,4}|[a-fA-F0-9]{1,4}:[a-fA-F0-9:]+)\b";

pub const PATH_PATTERN: &'static str = r"(?i)(?:[a-z]:\\[^:\s]+|/(?:Users|home|root|var|etc|tmp)/[^\s]+)";

pub const KEY_VALUE_SECRET_PATTERN: &'static str = r"(?i)\b(password|secret|key|token|auth|credential|proxy_pass|auth_token)\s*[:=]\s*([^\s,;&]+)";

pub const SECRET_REPLACEMENT: &'static str = "$1=[REDACTED_SECRET]";

pub const PATH_REPLACEMENT: &'static str = "[REDACTED_PATH]";

pub const IP_REPLACEMENT: &'static str = "[REDACTED_IP]";

/// Redaction of a text: key-value secrets first, then file paths, then IP
/// addresses. The empty text stays empty.
pub open spec fn redacted_text(text: Seq<char>) -> Seq<char> {
    if text.len() == 0 {
        Seq::empty()
    } else {
        let step1 = regex_replace_all(KEY_VALUE_SECRET_PATTERN@, text, SECRET_REPLACEMENT@);
        let step2 = regex_replace_all(PATH_PATTERN@, step1, PATH_REPLACEMENT@);
        regex_replace_all(IP_PATTERN@, step2, IP_REPLACEMENT@)
    }
}

/// Whether the redaction patterns all compile.
pub open spec fn redaction_available() -> bool {
    regex_compiles(KEY_VALUE_SECRET_PATTERN@) && regex_compiles(PATH_PATTERN@) && regex_compiles(IP_PATTERN@)
}

/// Strips secrets, file paths and network addresses from diagnostic text,
/// with its three patterns compiled once.
pub struct DiagnosticRedactor {
    secrets: TextPattern,
    paths: TextPattern,
    addresses: TextPattern,
}

impl DiagnosticRedactor {
    #[verifier::type_invariant]
    closed spec fn patterns_are_fixed(self) -> bool {
        &&& self.secrets.source() == KEY_VALUE_SECRET_PATTERN@
        &&& self.paths.source() == PATH_PATTERN@
        &&& self.addresses.source() == IP_PATTERN@
    }

    /// Compiles the redaction patterns; `None` exactly when one of them does
    /// not compile.
    pub fn new() -> (r: Option<DiagnosticRedactor>)
        ensures
            r is Some <==> redaction_available(),
    {
        let secrets = match TextPattern::compile(KEY_VALUE_SECRET_PATTERN) {
            Some(p) => p,
            None => return None,
        };
        let paths = match TextPattern::compile(PATH_PATTERN) {
            Some(p) => p,
            None => return None,
        };
        let addresses = match TextPattern::compile(IP_PATTERN) {
            Some(p) => p,
            None => return None,
        };
        Some(DiagnosticRedactor { secrets, paths, addresses })
    }

    /// The redacted text. A text in which none of the patterns matches comes
    /// back unchanged.
    pub fn sanitize_text(&self, text: &str) -> (r: String)
        ensures
            r@ == redacted_text(text@),
            (!regex_is_match(KEY_VALUE_SECRET_PATTERN@, text@) && !regex_is_match(PATH_PATTERN@, text@)
                && !regex_is_match(IP_PATTERN@, text@)) ==> r@ == text@,
    {
        proof {
            use_type_invariant(self);
        }
        if text.is_empty() {
            return String::new();
        }
        let step1 = self.secrets.replace_all(text, SECRET_REPLACEMENT);
        let step2 = self.paths.replace_all(step1.as_str(), PATH_REPLACEMENT);
        self.addresses.replace_all(step2.as_str(), IP_REPLACEMENT)
    }

    /// A list of domains is reported only by its size.
    pub fn sanitize_domain_list(domains: &Vec<String>) -> (r: String)
        ensures
            r@ == "Count: "@ + decimal(domains@.len()),
    {
        let n = u64_to_decimal(domains.len() as u64);
        concat("Count: ", n.as_str())
    }

    /// Command-line arguments are never reported.
    pub fn sanitize_cli_args(args: &Vec<String>) -> (r: String)
        ensures
            r@ == "[REDACTED_CLI_ARGS]"@,
    {
        "[REDACTED_CLI_ARGS]".to_string()
    }
}

// ---------------------------------------------------------------------------
// Traffic probes
// ---------------------------------------------------------------------------

/// A probe never claims that DPI bypass works: its assessment is at most
/// inconclusive.
#[derive(Debug, Clone, Copy, PartialEq, Eq, Structural)]
pub enum DpiBypassAssessment {
    Inconclusive,
    Unknown,
}

#[derive(Debug, Clone, PartialEq, Eq)]
pub struct TargetProbeResult {
    pub target_id: String,
    pub success: bool,
    pub status_code: Option<u16>,
    pub latency_ms: Option<u64>,
    pub error: Option<String>,
}

/// An HTTP status that counts as reachable: success (2xx) or redirection
/// (3xx).
pub open spec fn probe_status_ok(status: u16) -> bool {
    200 <= status <= 399
}

/// The record of one probe: the status and latency of the answer, or a
/// generic error (the transport's own message is withheld).
pub fn probe_result(target_id: String, answer: Option<(u16, u64)>) -> (r: TargetProbeResult)
    ensures
        r.target_id == target_id,
        match answer {
            Some((status, latency)) => r.success == probe_status_ok(status) && r.status_code == Some(status)
                && r.latency_ms == Some(latency) && r.error is None,
            None => !r.success && r.status_code is None && r.latency_ms is None
                && (r.error matches Some(e) && e@ == "HTTPS Probe Failed"@),
        },
{
    match answer {
        Some((status, latency)) => TargetProbeResult {
            target_id,
            success: 200 <= status && status <= 399,
            status_code: Some(status),
            latency_ms: Some(latency),
            error: None,
        },
        None => TargetProbeResult {
            target_id,
            success: false,
            status_code: None,
            latency_ms: None,
            error: Some("HTTPS Probe Failed".to_string()),
        },
    }
}

/// The targets probed when none are requested.
pub fn requested_probe_targets(targets: &Vec<String>) -> (r: Vec<String>)
    ensures
        targets@.len() == 0 ==> r@.len() == 3 && r@[0]@ == "youtube"@ && r@[1]@ == "discord"@ && r@[2]@ == "x"@,
        targets@.len() > 0 ==> r@ == targets@,
{
    if targets.len() == 0 {
        vec!["youtube".to_string(), "discord".to_string(), "x".to_string()]
    } else {
        let mut r: Vec<String> = Vec::new();
        let mut i: usize = 0;
        while i < targets.len()
            invariant
                i <= targets.len(),
                r@ == targets@.take(i as int),
            decreases targets.len() - i,
        {
            r.push(targets[i].clone());
            proof {
                assert(r@ =~= targets@.take(i + 1));
            }
            i += 1;
        }
        proof {
            assert(targets@.take(i as int) =~= targets@);
        }
        r
    }
}

// ---------------------------------------------------------------------------
// Export bundles
// ---------------------------------------------------------------------------

pub const DIAGNOSTIC_SCHEMA_VERSION: &'static str = "1.0";

/// The largest serialized diagnostics bundle that is exported (5 MiB).
pub const MAX_BUNDLE_SIZE_BYTES: usize = 5242880;

/// How many of the oldest events go when a serialized bundle is still too
/// large: a quarter of them, and at least one.
pub fn events_to_drop(remaining: usize) -> (n: usize)
    requires
        remaining > 0,
    ensures
        n == (if remaining / 4 > 1 { remaining / 4 } else { 1 }),
        1 <= n <= remaining,
{
    let quarter = remaining / 4;
    if quarter > 1 { quarter } else { 1 }
}

/// A diagnostics export must be named `*.vane-diag.json`.
pub fn is_diagnostics_export_name(file_name: &str) -> (r: bool)
    ensures
        r == ends_with(file_name@, ".vane-diag.json"@),
{
    str_ends_with(file_name, ".vane-diag.json")
}

/// `str::to_ascii_lowercase`.
pub fn ascii_lowercase(s: &str) -> (r: String)
    ensures
        r@ == ascii_lower_seq(s@),
{
    let v = chars_of(s);
    let mut r = String::new();
    let mut i: usize = 0;
    while i < v.len()
        invariant
            i <= v.len(),
            v@ == s@,
            r@ == ascii_lower_seq(s@.take(i as int)),
        decreases v.len() - i,
    {
        let c = v[i];
        let lc = if 'A' <= c && c <= 'Z' { ((c as u8) + 32) as char } else { c };
        proof {
            if 'A' <= c && c <= 'Z' {
                assert((c as u8) as u32 == c as u32);
            }
            assert(lc == ascii_lower(c));
            assert(ascii_lower_seq(s@.take(i + 1)) =~= ascii_lower_seq(s@.take(i as int)).push(ascii_lower(c)));
        }
        push_char(&mut r, lc);
        i += 1;
    }
    proof {
        assert(s@.take(i as int) =~= s@);
    }
    r
}

/// Texts that a diagnostics export must never contain (compared in lower
/// case): key material, credentials, user paths, URLs and command-line
/// flags.
pub open spec fn forbidden_patterns() -> Seq<Seq<char>> {
    seq![
        "-----begin private key-----"@,
        "-----begin rsa private key-----"@,
        "authorization: bearer "@,
        "password="@,
        "proxy-authorization"@,
        "\\\\?\\"@,
        "\\\\.\\"@,
        "c:\\\\users\\\\"@,
        "/home/"@,
        "/users/"@,
        "http://"@,
        "https://"@,
        "bearer "@,
        "proxy://"@,
        "\"token\""@,
        "\"password\""@,
        "\"environment_variables\""@,
        "-----begin "@,
        " --"@,
    ]
}

fn forbidden_pattern_list() -> (v: Vec<&'static str>)
    ensures
        v@.map_values(|p: &'static str| p@) == forbidden_patterns(),
{
    let v = vec![
        "-----begin private key-----",
        "-----begin rsa private key-----",
        "authorization: bearer ",
        "password=",
        "proxy-authorization",
        "\\\\?\\",
        "\\\\.\\",
        "c:\\\\users\\\\",
        "/home/",
        "/users/",
        "http://",
        "https://",
        "bearer ",
        "proxy://",
        "\"token\"",
        "\"password\"",
        "\"environment_variables\"",
        "-----begin ",
        " --",
    ];
    proof {
        assert(v@.map_values(|p: &'static str| p@) =~= forbidden_patterns());
    }
    v
}

/// The first of `patterns` that occurs in `text`.
pub open spec fn first_occurring(text: Seq<char>, patterns: Seq<Seq<char>>) -> Option<Seq<char>>
    decreases patterns.len(),
{
    if patterns.len() == 0 {
        None
    } else if contains_seq(text, patterns[0]) {
        Some(patterns[0])
    } else {
        first_occurring(text, patterns.drop_first())
    }
}

pub const IPV4_SCAN_PATTERN: &'static str = r"\b(?:\d{1,3}\.){3}\d{1,3}\b";

pub const IPV6_SCAN_PATTERN: &'static str = r"(?i)\b[0-9a-f]{0,4}:[0-9a-f:]{2,}\b";

pub const DOMAIN_SCAN_PATTERN: &'static str = r"(?i)\b[a-z0-9](?:[a-z0-9-]{0,61}[a-z0-9])?(?:\.[a-z0-9-]{1,63})+\.[a-z]{2,63}\b";

/// The verdict of the privacy scan on a serialized bundle: too large, a
/// forbidden text, a network identifier, or clean.
pub open spec fn privacy_verdict(serialized: Seq<u8>) -> Result<(), Seq<char>> {
    if serialized.len() > MAX_BUNDLE_SIZE_BYTES {
        Err("Serialized diagnostics bundle exceeds the 5 MiB limit"@)
    } else {
        let text = ascii_lower_seq(utf8_lossy(serialized));
        match first_occurring(text, forbidden_patterns()) {
            Some(p) => Err("Diagnostics privacy scan rejected forbidden pattern: "@ + p),
            None => if regex_is_match(IPV4_SCAN_PATTERN@, text) || regex_is_match(IPV6_SCAN_PATTERN@, text)
                || regex_is_match(DOMAIN_SCAN_PATTERN@, text) {
                Err("Diagnostics privacy scan rejected network identifier"@)
            } else {
                Ok(())
            },
        }
    }
}

pub open spec fn privacy_scan_available() -> bool {
    regex_compiles(IPV4_SCAN_PATTERN@) && regex_compiles(IPV6_SCAN_PATTERN@) && regex_compiles(DOMAIN_SCAN_PATTERN@)
}

/// The last check before a diagnostics bundle leaves the machine, with its
/// network-identifier patterns compiled once.
pub struct PrivacyScanner {
    ipv4: TextPattern,
    ipv6: TextPattern,
    domain: TextPattern,
}

impl PrivacyScanner {
    #[verifier::type_invariant]
    closed spec fn patterns_are_fixed(self) -> bool {
        &&& self.ipv4.source() == IPV4_SCAN_PATTERN@
        &&& self.ipv6.source() == IPV6_SCAN_PATTERN@
        &&& self.domain.source() == DOMAIN_SCAN_PATTERN@
    }

    /// `None` exactly when one of the scan patterns does not compile.
    pub fn new() -> (r: Option<PrivacyScanner>)
        ensures
            r is Some <==> privacy_scan_available(),
    {
        let ipv4 = match TextPattern::compile(IPV4_SCAN_PATTERN) {
            Some(p) => p,
            None => return None,
        };
        let ipv6 = match TextPattern::compile(IPV6_SCAN_PATTERN) {
            Some(p) => p,
            None => return None,
        };
        let domain = match TextPattern::compile(DOMAIN_SCAN_PATTERN) {
            Some(p) => p,
            None => return None,
        };
        Some(PrivacyScanner { ipv4, ipv6, domain })
    }

    /// Scans a serialized bundle.
    pub fn scan(&self, serialized: &[u8]) -> (r: Result<(), String>)
        ensures
            match (r, privacy_verdict(serialized@)) {
                (Ok(()), Ok(())) => true,
                (Err(m), Err(v)) => m@ == v,
                _ => false,
            },
    {
        proof {
            use_type_invariant(self);
        }
        if serialized.len() > MAX_BUNDLE_SIZE_BYTES {
            return Err("Serialized diagnostics bundle exceeds the 5 MiB limit".to_string());
        }
        let decoded = from_utf8_lossy(serialized);
        let text = ascii_lowercase(decoded.as_str());
        let patterns = forbidden_pattern_list();
        let ghost pats = forbidden_patterns();
        let mut i: usize = 0;
        assert(pats.skip(0) =~= pats);
        while i < patterns.len()
            invariant
                i <= patterns.len(),
                patterns@.map_values(|p: &'static str| p@) == pats,
                pats == forbidden_patterns(),
                text@ == ascii_lower_seq(utf8_lossy(serialized@)),
                serialized@.len() <= MAX_BUNDLE_SIZE_BYTES,
                first_occurring(text@, pats) == first_occurring(text@, pats.skip(i as int)),
            decreases patterns.len() - i,
        {
            let p = patterns[i];
            assert(pats.skip(i as int)[0] == p@);
            assert(pats.skip(i as int).drop_first() =~= pats.skip(i + 1));
            if str_contains(text.as_str(), p) {
                assert(pats.skip(i as int).len() > 0);
                assert(first_occurring(text@, pats.skip(i as int)) == Some(p@));
                return Err(concat("Diagnostics privacy scan rejected forbidden pattern: ", p));
            }
            i += 1;
        }
        assert(pats.skip(i as int) =~= Seq::<Seq<char>>::empty());
        if self.ipv4.is_match(text.as_str()) || self.ipv6.is_match(text.as_str()) || self.domain.is_match(text.as_str()) {
            return Err("Diagnostics privacy scan rejected network identifier".to_string());
        }
        Ok(())
    }
}

} // verus!
