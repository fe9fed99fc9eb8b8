//! The DNS transaction's state and its verified steps: the runtime state
//! with its revisions and forwarder generations, restoring the saved
//! system DNS, and the outcomes a transaction reports.

use vstd::prelude::*;
use crate::dns_config::{DnsConfigRevision, VerifiedDnsConfig};
use crate::firewall::{added, extends, KillSwitchOwnership, KillSwitchPlan};
use crate::callback_log::{Callback, CallbackLog};
use crate::text::{concat, to_string, decimal, u64_to_decimal, view_strings};

verus! {

pub open spec fn forwarder_not_ready_message() -> Seq<char> {
    "DNS forwarder did not become ready; system DNS and firewall were not changed."@
}

/// Passes the candidate forwarder on when it is ready; otherwise stops it
/// and reports that nothing was changed.
pub fn require_forwarder_readiness<T, Stop: FnOnce(T)>(ready: bool, candidate: T, stop: Stop) -> (r: Result<
    T,
    String,
>)
    requires
        stop.requires((candidate,)),
    ensures
        ready ==> r == Ok::<T, String>(candidate),
        !ready ==> (r matches Err(m) && m@ == forwarder_not_ready_message()),
{
    if ready {
        Ok(candidate)
    } else {
        stop(candidate);
        Err(to_string("DNS forwarder did not become ready; system DNS and firewall were not changed."))
    }
}

/// Restores the saved system DNS, then clears the saved copy; the copy is
/// only cleared once the restore succeeded. `log` records each callback
/// that ran, in order.
pub fn restore_snapshot_verified<Restore: FnOnce() -> Result<(), String>, Clear: FnOnce() -> Result<(), String>>(
    restore: Restore,
    clear: Clear,
    log: &mut CallbackLog,
) -> (r: Result<(), String>)
    requires
        restore.requires(()),
        clear.requires(()),
    ensures
        extends(final(log).calls(), old(log).calls()),
        ({
            let c = added(final(log).calls(), old(log).calls());
            &&& c.len() >= 1
            &&& c[0].0 == Callback::RestoreSnapshot
            &&& restore.ensures((), c[0].1)
            &&& match c[0].1 {
                Err(e) => c.len() == 1 && r == Err::<(), String>(e),
                Ok(()) => {
                    &&& c.len() == 2
                    &&& c[1].0 == Callback::ClearSnapshot
                    &&& clear.ensures((), c[1].1)
                    &&& match c[1].1 {
                        Ok(()) => r is Ok,
                        Err(e) => r matches Err(m) && m@ == "DNS snapshot was restored but could not be cleared: "@ + e@,
                    }
                },
            }
        }),
{
    let ghost start = log.calls();
    let restored = log.run(Callback::RestoreSnapshot, restore);
    match restored {
        Err(e) => {
            proof {
                assert(log.calls().take(start.len() as int) =~= start);
                assert(added(log.calls(), start) =~= seq![(Callback::RestoreSnapshot, Err::<(), String>(e))]);
            }
            return Err(e);
        },
        Ok(()) => {},
    }
    let ghost mid = log.calls();
    let cleared = log.run(Callback::ClearSnapshot, clear);
    proof {
        assert(mid == start.push((Callback::RestoreSnapshot, restored)));
        assert(log.calls().take(start.len() as int) =~= start);
        assert(added(log.calls(), start) =~= seq![
            (Callback::RestoreSnapshot, restored),
            (Callback::ClearSnapshot, cleared),
        ]);
    }
    match cleared {
        Err(e) => Err(concat("DNS snapshot was restored but could not be cleared: ", e.as_str())),
        Ok(()) => Ok(()),
    }
}

#[derive(Debug, Clone, Copy, PartialEq, Eq, Structural)]
pub enum DnsAppliedVerification {
    ConfigurationApplied,
    ForwarderStarted,
    LocalReadinessPassed,
}

/// An IPv4 socket address.
#[derive(Debug, Clone, Copy, PartialEq, Eq, Structural)]
pub struct LocalEndpoint {
    pub a: u8,
    pub b: u8,
    pub c: u8,
    pub d: u8,
    pub port: u16,
}

#[derive(Debug, Clone, Copy, PartialEq, Eq, Structural)]
pub enum DnsForwarderState {
    Stopped,
    Preparing,
    Starting,
    WaitingForLocalReadiness,
    Ready,
    Stopping,
    Failed,
}

#[derive(Clone, PartialEq, Eq)]
pub struct DnsForwarderIdentity {
    pub installation_id: String,
    pub instance_id: String,
    pub generation: u64,
    pub revision: DnsConfigRevision,
    pub fingerprint: crate::dns_config::DnsConfigFingerprint,
    pub process_id: Option<u32>,
    pub local_endpoint: LocalEndpoint,
}

#[derive(Clone, PartialEq, Eq)]
pub struct AppliedDnsConfig {
    pub verified: VerifiedDnsConfig,
    pub forwarder_identity: Option<DnsForwarderIdentity>,
    pub local_endpoint: Option<LocalEndpoint>,
    pub kill_switch_ownership: Option<KillSwitchOwnership>,
    pub applied_at: std::time::SystemTime,
    pub verification: DnsAppliedVerification,
}

#[derive(Clone, PartialEq, Eq)]
pub struct PreparedDnsConfig {
    pub verified: VerifiedDnsConfig,
    pub firewall_plan: KillSwitchPlan,
}

#[derive(Debug, Clone, Copy, PartialEq, Eq, Structural)]
pub enum DnsApplyStage {
    Prepared,
    ForwarderStarted,
    Applied,
    Disabled,
    RolledBack,
    Superseded,
}

#[derive(Debug, Clone, PartialEq, Eq)]
pub struct DnsTransactionOutcome {
    pub stage: DnsApplyStage,
    pub config_revision: u64,
    pub config_fingerprint: String,
    pub applied_revision: Option<u64>,
    pub applied_fingerprint: Option<String>,
    pub forwarder_state: DnsForwarderState,
    pub forwarder_generation: Option<u64>,
    pub kill_switch_applied: bool,
    pub kill_switch_instance: Option<String>,
    pub rollback_performed: bool,
    pub rollback_succeeded: bool,
    pub superseded: bool,
}

/// The DNS side's state: what is desired, prepared and applied, the
/// latest requested and completed revisions, and the generation of the
/// latest forwarder. Revisions never go back; generations only grow.
pub struct DnsRuntimeState {
    desired: Option<VerifiedDnsConfig>,
    prepared: Option<PreparedDnsConfig>,
    applied: Option<AppliedDnsConfig>,
    latest_requested_revision: DnsConfigRevision,
    latest_completed_revision: DnsConfigRevision,
    forwarder_generation: u64,
}

impl DnsRuntimeState {
    pub closed spec fn desired_spec(&self) -> Option<VerifiedDnsConfig> {
        self.desired
    }

    pub closed spec fn applied_spec(&self) -> Option<AppliedDnsConfig> {
        self.applied
    }

    pub closed spec fn requested(&self) -> u64 {
        self.latest_requested_revision.0
    }

    pub closed spec fn completed(&self) -> u64 {
        self.latest_completed_revision.0
    }

    pub closed spec fn generation(&self) -> u64 {
        self.forwarder_generation
    }

    pub fn new() -> (s: Self)
        ensures
            s.desired_spec() is None,
            s.applied_spec() is None,
            s.requested() == 0,
            s.completed() == 0,
            s.generation() == 0,
    {
        DnsRuntimeState {
            desired: None,
            prepared: None,
            applied: None,
            latest_requested_revision: DnsConfigRevision::new(0),
            latest_completed_revision: DnsConfigRevision::new(0),
            forwarder_generation: 0,
        }
    }

    pub fn desired(&self) -> (r: Option<&VerifiedDnsConfig>)
        ensures
            match (r, self.desired_spec()) {
                (Some(a), Some(b)) => *a == b,
                (None, None) => true,
                _ => false,
            },
    {
        match &self.desired {
            Some(d) => Some(d),
            None => None,
        }
    }

    pub fn applied(&self) -> (r: Option<&AppliedDnsConfig>)
        ensures
            match (r, self.applied_spec()) {
                (Some(a), Some(b)) => *a == b,
                (None, None) => true,
                _ => false,
            },
    {
        match &self.applied {
            Some(a) => Some(a),
            None => None,
        }
    }

    pub fn latest_requested_revision(&self) -> (r: DnsConfigRevision)
        ensures
            r.0 == self.requested(),
    {
        self.latest_requested_revision
    }

    pub fn latest_completed_revision(&self) -> (r: DnsConfigRevision)
        ensures
            r.0 == self.completed(),
    {
        self.latest_completed_revision
    }

    /// Records the desired configuration; the requested revision rises to
    /// its revision if that is higher.
    pub fn set_desired(&mut self, verified: VerifiedDnsConfig)
        ensures
            final(self).desired_spec() == Some(verified),
            final(self).requested() == (if verified.revision.0 > old(self).requested() {
                verified.revision.0
            } else {
                old(self).requested()
            }),
            final(self).completed() == old(self).completed(),
            final(self).applied_spec() == old(self).applied_spec(),
            final(self).generation() == old(self).generation(),
    {
        if verified.revision.0 > self.latest_requested_revision.0 {
            self.latest_requested_revision = verified.revision;
        }
        self.desired = Some(verified);
    }

    /// Records what now runs; the completed revision rises to its revision
    /// if that is higher.
    pub fn commit_applied(&mut self, applied: AppliedDnsConfig)
        ensures
            final(self).applied_spec() == Some(applied),
            final(self).completed() == (if applied.verified.revision.0 > old(self).completed() {
                applied.verified.revision.0
            } else {
                old(self).completed()
            }),
            final(self).requested() == old(self).requested(),
            final(self).desired_spec() == old(self).desired_spec(),
            final(self).generation() == old(self).generation(),
    {
        if applied.verified.revision.0 > self.latest_completed_revision.0 {
            self.latest_completed_revision = applied.verified.revision;
        }
        self.applied = Some(applied);
    }

    pub fn clear_applied(&mut self)
        ensures
            final(self).applied_spec() is None,
            final(self).requested() == old(self).requested(),
            final(self).completed() == old(self).completed(),
            final(self).desired_spec() == old(self).desired_spec(),
            final(self).generation() == old(self).generation(),
    {
        self.applied = None;
    }

    pub fn restore_applied(&mut self, applied: AppliedDnsConfig)
        ensures
            final(self).applied_spec() == Some(applied),
            final(self).requested() == old(self).requested(),
            final(self).completed() == old(self).completed(),
            final(self).desired_spec() == old(self).desired_spec(),
            final(self).generation() == old(self).generation(),
    {
        self.applied = Some(applied);
    }

    /// The generation for a new forwarder: one more than the last.
    pub fn next_generation(&mut self) -> (g: u64)
        requires
            old(self).generation() < u64::MAX,
        ensures
            g == old(self).generation() + 1,
            final(self).generation() == g,
            final(self).requested() == old(self).requested(),
            final(self).completed() == old(self).completed(),
            final(self).desired_spec() == old(self).desired_spec(),
            final(self).applied_spec() == old(self).applied_spec(),
    {
        self.forwarder_generation = self.forwarder_generation + 1;
        self.forwarder_generation
    }

    pub fn current_generation(&self) -> (g: u64)
        ensures
            g == self.generation(),
    {
        self.forwarder_generation
    }
}

/// The outcome reported when a newer request superseded this one: the
/// candidate's revision and fingerprint, and what is applied now.
pub fn superseded_outcome(verified: &VerifiedDnsConfig, applied: Option<&AppliedDnsConfig>) -> (o:
    DnsTransactionOutcome)
    ensures
        o.stage == DnsApplyStage::Superseded,
        o.config_revision == verified.revision.0,
        o.config_fingerprint@ == verified.fingerprint.0@,
        o.applied_revision == (match applied {
            Some(a) => Some(a.verified.revision.0),
            None => None,
        }),
        match (o.applied_fingerprint, applied) {
            (Some(f), Some(a)) => f@ == a.verified.fingerprint.0@,
            (None, None) => true,
            _ => false,
        },
        o.forwarder_state == DnsForwarderState::Stopped,
        o.forwarder_generation is None,
        o.kill_switch_applied == (applied matches Some(a) && a.verified.kill_switch),
        o.kill_switch_instance is None,
        !o.rollback_performed && !o.rollback_succeeded && o.superseded,
{
    DnsTransactionOutcome {
        stage: DnsApplyStage::Superseded,
        config_revision: verified.revision.0,
        config_fingerprint: verified.fingerprint.0.clone(),
        applied_revision: match applied {
            Some(a) => Some(a.verified.revision.0),
            None => None,
        },
        applied_fingerprint: match applied {
            Some(a) => Some(a.verified.fingerprint.0.clone()),
            None => None,
        },
        forwarder_state: DnsForwarderState::Stopped,
        forwarder_generation: None,
        kill_switch_applied: match applied {
            Some(a) => a.verified.kill_switch,
            None => false,
        },
        kill_switch_instance: None,
        rollback_performed: false,
        rollback_succeeded: false,
        superseded: true,
    }
}

/// The outcome of turning DNS protection off.
pub fn disabled_outcome(verified: &VerifiedDnsConfig) -> (o: DnsTransactionOutcome)
    ensures
        o.stage == DnsApplyStage::Disabled,
        o.config_revision == verified.revision.0,
        o.config_fingerprint@ == verified.fingerprint.0@,
        o.applied_revision is None,
        o.applied_fingerprint is None,
        o.forwarder_state == DnsForwarderState::Stopped,
        o.forwarder_generation is None,
        !o.kill_switch_applied,
        o.kill_switch_instance is None,
        !o.rollback_performed && !o.rollback_succeeded && !o.superseded,
{
    DnsTransactionOutcome {
        stage: DnsApplyStage::Disabled,
        config_revision: verified.revision.0,
        config_fingerprint: verified.fingerprint.0.clone(),
        applied_revision: None,
        applied_fingerprint: None,
        forwarder_state: DnsForwarderState::Stopped,
        forwarder_generation: None,
        kill_switch_applied: false,
        kill_switch_instance: None,
        rollback_performed: false,
        rollback_succeeded: false,
        superseded: false,
    }
}

/// The outcome of applying the candidate with forwarder generation `gen`.
pub fn applied_outcome(verified: &VerifiedDnsConfig, generation: u64, instance_id: &String) -> (o:
    DnsTransactionOutcome)
    ensures
        o.stage == DnsApplyStage::Applied,
        o.config_revision == verified.revision.0,
        o.config_fingerprint@ == verified.fingerprint.0@,
        o.applied_revision == Some(verified.revision.0),
        (o.applied_fingerprint matches Some(f) && f@ == verified.fingerprint.0@),
        o.forwarder_state == DnsForwarderState::Ready,
        o.forwarder_generation == Some(generation),
        o.kill_switch_applied == verified.kill_switch,
        (if verified.kill_switch {
            o.kill_switch_instance == Some(*instance_id)
        } else {
            o.kill_switch_instance is None
        }),
        !o.rollback_performed && !o.rollback_succeeded && !o.superseded,
{
    DnsTransactionOutcome {
        stage: DnsApplyStage::Applied,
        config_revision: verified.revision.0,
        config_fingerprint: verified.fingerprint.0.clone(),
        applied_revision: Some(verified.revision.0),
        applied_fingerprint: Some(verified.fingerprint.0.clone()),
        forwarder_state: DnsForwarderState::Ready,
        forwarder_generation: Some(generation),
        kill_switch_applied: verified.kill_switch,
        kill_switch_instance: if verified.kill_switch {
            Some(instance_id.clone())
        } else {
            None
        },
        rollback_performed: false,
        rollback_succeeded: false,
        superseded: false,
    }
}

/// The outcome of a failed candidate whose previous configuration runs
/// again with forwarder generation `gen`.
pub fn rolled_back_outcome(failed: &VerifiedDnsConfig, previous: &AppliedDnsConfig, generation: u64) -> (o:
    DnsTransactionOutcome)
    ensures
        o.stage == DnsApplyStage::RolledBack,
        o.config_revision == failed.revision.0,
        o.config_fingerprint@ == failed.fingerprint.0@,
        o.applied_revision == Some(previous.verified.revision.0),
        (o.applied_fingerprint matches Some(f) && f@ == previous.verified.fingerprint.0@),
        o.forwarder_state == DnsForwarderState::Ready,
        o.forwarder_generation == Some(generation),
        o.kill_switch_applied == previous.verified.kill_switch,
        o.kill_switch_instance == (match previous.kill_switch_ownership {
            Some(own) => Some(own.instance_id),
            None => None,
        }),
        o.rollback_performed && o.rollback_succeeded && !o.superseded,
{
    DnsTransactionOutcome {
        stage: DnsApplyStage::RolledBack,
        config_revision: failed.revision.0,
        config_fingerprint: failed.fingerprint.0.clone(),
        applied_revision: Some(previous.verified.revision.0),
        applied_fingerprint: Some(previous.verified.fingerprint.0.clone()),
        forwarder_state: DnsForwarderState::Ready,
        forwarder_generation: Some(generation),
        kill_switch_applied: previous.verified.kill_switch,
        kill_switch_instance: match &previous.kill_switch_ownership {
            Some(own) => Some(own.instance_id.clone()),
            None => None,
        },
        rollback_performed: true,
        rollback_succeeded: true,
        superseded: false,
    }
}


// ---------------------------------------------------------------------------
// Decisions of a DNS transaction
// ---------------------------------------------------------------------------

/// The upstream a verified configuration's provider names.
pub fn endpoint_for_dns_provider(p: crate::dns_config::DnsProvider) -> (e: crate::dns_forwarder::DoHEndpoint)
    ensures
        e == (match p {
            crate::dns_config::DnsProvider::Cloudflare => crate::dns_forwarder::DoHEndpoint::Cloudflare,
            crate::dns_config::DnsProvider::Google => crate::dns_forwarder::DoHEndpoint::Google,
        }),
{
    match p {
        crate::dns_config::DnsProvider::Cloudflare => crate::dns_forwarder::DoHEndpoint::Cloudflare,
        crate::dns_config::DnsProvider::Google => crate::dns_forwarder::DoHEndpoint::Google,
    }
}

/// The settings the forwarder runs a verified configuration with: its
/// protocol and tools, its SOCKS5 upstream as `host:port` (empty when
/// none), and the default health target.
pub fn forwarder_settings_for(v: &VerifiedDnsConfig) -> (s: crate::dns_forwarder::DnsSettings)
    ensures
        s.protocol@ == crate::dns_config::dns_protocol_name(v.protocol),
        s.adblock == v.adblock,
        s.cache == v.cache_enabled,
        s.socks5_proxy@ == (match v.socks5 {
            Some(p) => p.host@ + ":"@ + decimal(p.port as nat),
            None => Seq::<char>::empty(),
        }),
        view_strings(s.health_check_targets@) == seq![crate::dns_forwarder::DEFAULT_HEALTH_CHECK_TARGET@],
{
    let proxy = match &v.socks5 {
        Some(p) => {
            let t = concat(p.host.as_str(), ":");
            concat(t.as_str(), u64_to_decimal(p.port as u64).as_str())
        },
        None => String::new(),
    };
    let targets = vec![crate::dns_forwarder::DEFAULT_HEALTH_CHECK_TARGET.to_string()];
    proof {
        assert(view_strings(targets@) =~= seq![crate::dns_forwarder::DEFAULT_HEALTH_CHECK_TARGET@]);
    }
    crate::dns_forwarder::DnsSettings {
        protocol: v.protocol.as_str().to_string(),
        adblock: v.adblock,
        cache: v.cache_enabled,
        socks5_proxy: proxy,
        health_check_targets: targets,
    }
}

/// A lowercase hexadecimal digit.
pub open spec fn hex_digit(d: nat) -> char {
    if d < 10 { ((d + 48) as u8) as char } else { ((d + 87) as u8) as char }
}

/// A number in lowercase hexadecimal without leading zeros, as `{:x}`
/// prints it.
pub open spec fn hex_text(n: nat) -> Seq<char>
    decreases n,
{
    if n < 16 { seq![hex_digit(n)] } else { hex_text(n / 16).push(hex_digit(n % 16)) }
}

pub fn u128_to_hex(n: u128) -> (s: String)
    ensures
        s@ == hex_text(n as nat),
    decreases n,
{
    let d = (n % 16) as u8;
    let c = if d < 10 { (d + 48) as char } else { (d + 87) as char };
    proof {
        assert(c == hex_digit((n % 16) as nat));
    }
    if n < 16 {
        let mut s = String::new();
        crate::text::push_char(&mut s, c);
        proof {
            assert(s@ =~= seq![hex_digit(n as nat)]);
        }
        s
    } else {
        let mut s = u128_to_hex(n / 16);
        crate::text::push_char(&mut s, c);
        s
    }
}

/// The id of a forwarder instance: `dns-inst-` and the start time in
/// nanoseconds, in hexadecimal.
pub fn dns_instance_id(nanos: u128) -> (s: String)
    ensures
        s@ == "dns-inst-"@ + hex_text(nanos as nat),
{
    concat("dns-inst-", u128_to_hex(nanos).as_str())
}

/// The error of an apply whose new forwarder did not become ready, after
/// the previous configuration was (or was not) restored: `None` for no
/// previous configuration, otherwise whether the rollback succeeded or why
/// it failed.
pub fn readiness_failure_message(readiness_error: &str, rollback: Option<Result<bool, String>>) -> (m: String)
    ensures
        m@ == (match rollback {
            None => readiness_error@,
            Some(Ok(true)) => readiness_error@ + " Previous applied DNS configuration was restored."@,
            Some(Ok(false)) => readiness_error@ + " Previous DNS rollback was not verified."@,
            Some(Err(e)) => readiness_error@ + " Previous DNS rollback failed: "@ + e@,
        }),
{
    match rollback {
        None => readiness_error.to_string(),
        Some(Ok(true)) => concat(readiness_error, " Previous applied DNS configuration was restored."),
        Some(Ok(false)) => concat(readiness_error, " Previous DNS rollback was not verified."),
        Some(Err(e)) => {
            let t = concat(readiness_error, " Previous DNS rollback failed: ");
            concat(t.as_str(), e.as_str())
        },
    }
}

/// A rollback to a configuration that had the kill switch on needs the
/// ownership record of its firewall rules; without it the rollback stops.
pub fn rollback_kill_switch_precheck(previous_kill_switch: bool, has_ownership: bool, reason: &str) -> (r: Result<(), String>)
    ensures
        (previous_kill_switch && !has_ownership) ==> (r matches Err(m) && m@ == "DNS candidate apply failed ("@ + reason@
            + ") AND rollback failed: previous Kill Switch ownership/platform metadata is missing."@),
        !(previous_kill_switch && !has_ownership) ==> r is Ok,
{
    if previous_kill_switch && !has_ownership {
        let t = concat("DNS candidate apply failed (", reason);
        return Err(concat(t.as_str(), ") AND rollback failed: previous Kill Switch ownership/platform metadata is missing."));
    }
    Ok(())
}

} // verus!
