//! Applying a DNS configuration, one decision at a time: the supersede
//! check, the forwarder's settings, the old forwarder and the saved system
//! DNS, the disable path, the new forwarder and its readiness, the saved
//! snapshot, the system DNS, the firewall plan and the commit, and what is
//! undone when a step fails. The caller performs each action and reports
//! what came of it.

use vstd::prelude::*;
use crate::dns_transaction::forwarder_not_ready_message;
use crate::text::{concat, to_string};

verus! {

/// What an apply learns when it begins: whether the configuration turns
/// DNS protection on, whether it asks for the kill switch, whether a
/// configuration is applied already and whether that one owns kill switch
/// rules.
#[derive(Debug, Clone, Copy, PartialEq, Eq)]
pub struct DnsApplyFacts {
    pub enabled: bool,
    pub kill_switch: bool,
    pub has_previous: bool,
    pub previous_has_ownership: bool,
}

/// Why an apply hands over to the rollback.
#[derive(Debug, Clone, PartialEq, Eq)]
pub enum DnsRollbackReason {
    /// The new forwarder did not become ready.
    NotReady,
    /// The forwarder could not be started, or the firewall plan failed.
    Failed(String),
}

pub open spec fn rollback_reason_text(r: DnsRollbackReason) -> Seq<char> {
    match r {
        DnsRollbackReason::NotReady => forwarder_not_ready_message(),
        DnsRollbackReason::Failed(m) => m@,
    }
}

impl DnsRollbackReason {
    /// The reason as the rollback's messages quote it.
    pub fn text(&self) -> (t: String)
        ensures
            t@ == rollback_reason_text(*self),
    {
        match self {
            DnsRollbackReason::NotReady => to_string(
                "DNS forwarder did not become ready; system DNS and firewall were not changed.",
            ),
            DnsRollbackReason::Failed(m) => m.clone(),
        }
    }
}

/// Why an apply failed without handing over to the rollback.
#[derive(Debug, PartialEq, Eq)]
pub enum DnsApplyFailure {
    /// The candidate configuration was refused.
    InvalidConfig(String),
    /// The forwarder's settings could not be written.
    SettingsCache(String),
    /// The saved system DNS could not be read; the text is passed on.
    SnapshotUnavailable(String),
    /// The saved system DNS could not be put back.
    DnsRestore(String),
    /// The saved system DNS could not be cleared; the text is passed on.
    SnapshotNotCleared(String),
    /// The previous kill switch could not be disabled.
    KillSwitchDisable(String),
    /// The kill switch metadata could not be cleared; the text is passed on.
    MetadataNotCleared(String),
    /// The new forwarder did not become ready: no previous configuration,
    /// or whether its rollback succeeded, or why it failed.
    NotReady(Option<Result<bool, String>>),
    /// The system DNS could not be saved before it was changed.
    SnapshotNotPersisted(String),
    /// The system DNS could not be set, and what came of putting the saved
    /// copy back.
    DnsApply { error: String, restore: Result<(), String> },
}

pub open spec fn not_ready_text(rollback: Option<Result<bool, String>>) -> Seq<char> {
    match rollback {
        None => forwarder_not_ready_message(),
        Some(Ok(true)) => forwarder_not_ready_message() + " Previous applied DNS configuration was restored."@,
        Some(Ok(false)) => forwarder_not_ready_message() + " Previous DNS rollback was not verified."@,
        Some(Err(e)) => forwarder_not_ready_message() + " Previous DNS rollback failed: "@ + e@,
    }
}

pub open spec fn dns_apply_failure_text(f: DnsApplyFailure) -> Seq<char> {
    match f {
        DnsApplyFailure::InvalidConfig(e) => "DNS configuration validation error: "@ + e@,
        DnsApplyFailure::SettingsCache(e) => "DNS settings cache update failed: "@ + e@,
        DnsApplyFailure::SnapshotUnavailable(e) => e@,
        DnsApplyFailure::DnsRestore(e) => "System DNS restore failed: "@ + e@,
        DnsApplyFailure::SnapshotNotCleared(e) => e@,
        DnsApplyFailure::KillSwitchDisable(e) =>
            "DNS was restored and the forwarder was stopped, but Kill Switch disable failed; metadata and applied state were preserved: "@
                + e@,
        DnsApplyFailure::MetadataNotCleared(e) => e@,
        DnsApplyFailure::NotReady(rollback) => not_ready_text(rollback),
        DnsApplyFailure::SnapshotNotPersisted(e) => "DNS restore snapshot could not be persisted: "@ + e@,
        DnsApplyFailure::DnsApply { error, restore } => match restore {
            Ok(()) => "System DNS apply failed: "@ + error@,
            Err(r) => "System DNS apply failed ("@ + error@ + "); "@ + r@
                + "; snapshot was preserved when restore failed."@,
        },
    }
}

impl DnsApplyFailure {
    /// The error text the apply reports.
    pub fn message(&self) -> (m: String)
        ensures
            m@ == dns_apply_failure_text(*self),
    {
        match self {
            DnsApplyFailure::InvalidConfig(e) => concat("DNS configuration validation error: ", e.as_str()),
            DnsApplyFailure::SettingsCache(e) => concat("DNS settings cache update failed: ", e.as_str()),
            DnsApplyFailure::SnapshotUnavailable(e) => e.clone(),
            DnsApplyFailure::DnsRestore(e) => concat("System DNS restore failed: ", e.as_str()),
            DnsApplyFailure::SnapshotNotCleared(e) => e.clone(),
            DnsApplyFailure::KillSwitchDisable(e) => concat(
                "DNS was restored and the forwarder was stopped, but Kill Switch disable failed; metadata and applied state were preserved: ",
                e.as_str(),
            ),
            DnsApplyFailure::MetadataNotCleared(e) => e.clone(),
            DnsApplyFailure::NotReady(rollback) => {
                let base = "DNS forwarder did not become ready; system DNS and firewall were not changed.";
                match rollback {
                    None => to_string(base),
                    Some(Ok(true)) => concat(base, " Previous applied DNS configuration was restored."),
                    Some(Ok(false)) => concat(base, " Previous DNS rollback was not verified."),
                    Some(Err(e)) => {
                        let t = concat(base, " Previous DNS rollback failed: ");
                        concat(t.as_str(), e.as_str())
                    },
                }
            },
            DnsApplyFailure::SnapshotNotPersisted(e) => concat("DNS restore snapshot could not be persisted: ", e.as_str()),
            DnsApplyFailure::DnsApply { error, restore } => match restore {
                Ok(()) => concat("System DNS apply failed: ", error.as_str()),
                Err(r) => {
                    let t = concat("System DNS apply failed (", error.as_str());
                    let t = concat(t.as_str(), "); ");
                    let t = concat(t.as_str(), r.as_str());
                    concat(t.as_str(), "; snapshot was preserved when restore failed.")
                },
            },
        }
    }
}

/// Where an apply stands.
#[derive(Debug, Clone, PartialEq, Eq)]
pub enum DnsTxState {
    /// Nothing done yet.
    Requested,
    /// The desired configuration and the forwarder's settings are being
    /// written.
    UpdatingSettings { facts: DnsApplyFacts },
    /// The running forwarder is being taken and stopped, and the saved
    /// system DNS read.
    StoppingOld { facts: DnsApplyFacts },
    /// Disabling: the saved system DNS is being put back.
    RestoringSnapshot { facts: DnsApplyFacts },
    /// Disabling: the saved system DNS is being cleared.
    ClearingSnapshot { facts: DnsApplyFacts },
    /// Disabling: the previous kill switch rules are being removed.
    DisablingKillSwitch,
    /// Disabling: the kill switch metadata is being cleared.
    ClearingMetadata,
    /// The new forwarder is being started.
    Spawning { facts: DnsApplyFacts, has_snapshot: bool },
    /// The new forwarder's readiness is being checked.
    CheckingReadiness { facts: DnsApplyFacts, has_snapshot: bool },
    /// The new forwarder was not ready and the previous configuration is
    /// being restored.
    RollingBackNotReady,
    /// The system DNS is being saved before it is changed.
    SavingSnapshot { kill_switch: bool },
    /// The system DNS is being pointed at the forwarder.
    ApplyingDns { kill_switch: bool },
    /// The system DNS could not be set: the candidate is being stopped and
    /// the saved copy put back.
    RestoringCandidate { error: String },
    /// The firewall plan is being applied.
    ApplyingFirewall,
    /// The apply is over: reported, failed or handed to the rollback.
    Finished,
}

/// What came of the last action.
#[derive(Debug, PartialEq, Eq)]
pub enum DnsTxEvent {
    /// An apply is asked for: the candidate's check, its revision, the
    /// latest revision requested, and what the apply needs to know.
    Begin { verification: Result<(), String>, revision: u64, latest_requested: u64, facts: DnsApplyFacts },
    /// The forwarder's settings were written, or not.
    SettingsUpdated(Result<(), String>),
    /// The old forwarder was stopped, and a saved system DNS exists (or
    /// could not be read).
    OldForwarderStopped { snapshot: Result<bool, String> },
    /// The saved system DNS was put back, or not.
    SnapshotRestored(Result<(), String>),
    /// The saved system DNS was cleared, or not.
    SnapshotCleared(Result<(), String>),
    /// The previous kill switch was disabled, or not.
    KillSwitchDisabled(Result<(), String>),
    /// The kill switch metadata was cleared, or not.
    MetadataCleared(Result<(), String>),
    /// The new forwarder was started, or not.
    ForwarderSpawned(Result<(), String>),
    /// Whether the new forwarder answers locally.
    ReadinessChecked { ready: bool },
    /// The rollback after a forwarder that was not ready: whether it
    /// succeeded, or why it failed.
    RollbackFinished(Result<bool, String>),
    /// The system DNS was saved, or not.
    SnapshotSaved(Result<(), String>),
    /// The system DNS was set, or not.
    DnsApplied(Result<(), String>),
    /// The saved system DNS was put back and cleared, or not.
    CandidateRestored(Result<(), String>),
    /// The firewall plan was applied, or not.
    FirewallApplied(Result<(), String>),
}

/// What to do next.
#[derive(Debug, PartialEq, Eq)]
pub enum DnsTxAction {
    /// Report that a later request superseded this one.
    ReportSuperseded,
    /// Record the desired configuration, build the firewall plan and write
    /// the forwarder's settings.
    UpdateSettings,
    /// Take the running forwarder, read the saved system DNS, stop it.
    StopOldForwarder,
    /// Put the saved system DNS back.
    RestoreSnapshot,
    /// Clear the saved system DNS.
    ClearSnapshot,
    /// Remove the previous kill switch rules, then clear the metadata and
    /// the applied state.
    DisableKillSwitch,
    /// Clear the kill switch metadata, then the applied state.
    ClearMetadata,
    /// Report that DNS protection is off.
    ReportDisabled,
    /// Start the new forwarder under a new generation.
    SpawnForwarder,
    /// Check that the new forwarder answers locally.
    CheckReadiness,
    /// Stop the candidate, if asked to, and restore the previous
    /// configuration; unless the apply waits for it, the rollback's result
    /// is the apply's.
    Rollback { reason: DnsRollbackReason, stop_candidate: bool },
    /// Stop the candidate, then fail.
    StopCandidateAndFail(DnsApplyFailure),
    /// Save the system DNS before it is changed.
    SaveSnapshot,
    /// Point the system DNS at the forwarder.
    ApplySystemDns,
    /// Stop the candidate, put the saved system DNS back and clear it.
    StopCandidateAndRestore,
    /// Apply the firewall plan: with its metadata when the kill switch is
    /// on.
    ApplyFirewall { kill_switch: bool },
    /// Keep the forwarder, commit the applied configuration and report it.
    Commit,
    /// Fail with this error.
    Fail(DnsApplyFailure),
    /// The event does not fit the state: nothing to do.
    Ignore,
}

/// After the old forwarder stopped: a configuration that turns DNS
/// protection off puts the saved system DNS back (if any) and removes the
/// kill switch; otherwise the new forwarder is started.
pub open spec fn after_old_stopped(facts: DnsApplyFacts, has_snapshot: bool) -> (DnsTxState, DnsTxAction) {
    if facts.enabled {
        (DnsTxState::Spawning { facts, has_snapshot }, DnsTxAction::SpawnForwarder)
    } else if has_snapshot {
        (DnsTxState::RestoringSnapshot { facts }, DnsTxAction::RestoreSnapshot)
    } else {
        disable_kill_switch_step(facts)
    }
}

pub open spec fn disable_kill_switch_step(facts: DnsApplyFacts) -> (DnsTxState, DnsTxAction) {
    if facts.has_previous && facts.previous_has_ownership {
        (DnsTxState::DisablingKillSwitch, DnsTxAction::DisableKillSwitch)
    } else {
        (DnsTxState::ClearingMetadata, DnsTxAction::ClearMetadata)
    }
}

pub open spec fn apply_fail(f: DnsApplyFailure) -> (DnsTxState, DnsTxAction) {
    (DnsTxState::Finished, DnsTxAction::Fail(f))
}

/// The next state and action of an apply.
pub open spec fn dns_apply_next(state: DnsTxState, event: DnsTxEvent) -> (DnsTxState, DnsTxAction) {
    match (state, event) {
        (DnsTxState::Requested, DnsTxEvent::Begin { verification, revision, latest_requested, facts }) => match verification {
            Err(e) => apply_fail(DnsApplyFailure::InvalidConfig(e)),
            Ok(()) => if revision < latest_requested {
                (DnsTxState::Finished, DnsTxAction::ReportSuperseded)
            } else {
                (DnsTxState::UpdatingSettings { facts }, DnsTxAction::UpdateSettings)
            },
        },
        (DnsTxState::UpdatingSettings { facts }, DnsTxEvent::SettingsUpdated(r)) => match r {
            Err(e) => apply_fail(DnsApplyFailure::SettingsCache(e)),
            Ok(()) => (DnsTxState::StoppingOld { facts }, DnsTxAction::StopOldForwarder),
        },
        (DnsTxState::StoppingOld { facts }, DnsTxEvent::OldForwarderStopped { snapshot }) => match snapshot {
            Err(e) => apply_fail(DnsApplyFailure::SnapshotUnavailable(e)),
            Ok(has_snapshot) => after_old_stopped(facts, has_snapshot),
        },
        (DnsTxState::RestoringSnapshot { facts }, DnsTxEvent::SnapshotRestored(r)) => match r {
            Err(e) => apply_fail(DnsApplyFailure::DnsRestore(e)),
            Ok(()) => (DnsTxState::ClearingSnapshot { facts }, DnsTxAction::ClearSnapshot),
        },
        (DnsTxState::ClearingSnapshot { facts }, DnsTxEvent::SnapshotCleared(r)) => match r {
            Err(e) => apply_fail(DnsApplyFailure::SnapshotNotCleared(e)),
            Ok(()) => disable_kill_switch_step(facts),
        },
        (DnsTxState::DisablingKillSwitch, DnsTxEvent::KillSwitchDisabled(r)) => match r {
            Err(e) => apply_fail(DnsApplyFailure::KillSwitchDisable(e)),
            Ok(()) => (DnsTxState::Finished, DnsTxAction::ReportDisabled),
        },
        (DnsTxState::ClearingMetadata, DnsTxEvent::MetadataCleared(r)) => match r {
            Err(e) => apply_fail(DnsApplyFailure::MetadataNotCleared(e)),
            Ok(()) => (DnsTxState::Finished, DnsTxAction::ReportDisabled),
        },
        (DnsTxState::Spawning { facts, has_snapshot }, DnsTxEvent::ForwarderSpawned(r)) => match r {
            Err(e) => (
                DnsTxState::Finished,
                DnsTxAction::Rollback { reason: DnsRollbackReason::Failed(e), stop_candidate: false },
            ),
            Ok(()) => (DnsTxState::CheckingReadiness { facts, has_snapshot }, DnsTxAction::CheckReadiness),
        },
        (DnsTxState::CheckingReadiness { facts, has_snapshot }, DnsTxEvent::ReadinessChecked { ready }) => if !ready {
            if facts.has_previous {
                (
                    DnsTxState::RollingBackNotReady,
                    DnsTxAction::Rollback { reason: DnsRollbackReason::NotReady, stop_candidate: true },
                )
            } else {
                (DnsTxState::Finished, DnsTxAction::StopCandidateAndFail(DnsApplyFailure::NotReady(None)))
            }
        } else if has_snapshot {
            (DnsTxState::ApplyingDns { kill_switch: facts.kill_switch }, DnsTxAction::ApplySystemDns)
        } else {
            (DnsTxState::SavingSnapshot { kill_switch: facts.kill_switch }, DnsTxAction::SaveSnapshot)
        },
        (DnsTxState::RollingBackNotReady, DnsTxEvent::RollbackFinished(r)) => apply_fail(
            DnsApplyFailure::NotReady(Some(r)),
        ),
        (DnsTxState::SavingSnapshot { kill_switch }, DnsTxEvent::SnapshotSaved(r)) => match r {
            Err(e) => (
                DnsTxState::Finished,
                DnsTxAction::StopCandidateAndFail(DnsApplyFailure::SnapshotNotPersisted(e)),
            ),
            Ok(()) => (DnsTxState::ApplyingDns { kill_switch }, DnsTxAction::ApplySystemDns),
        },
        (DnsTxState::ApplyingDns { kill_switch }, DnsTxEvent::DnsApplied(r)) => match r {
            Err(e) => (DnsTxState::RestoringCandidate { error: e }, DnsTxAction::StopCandidateAndRestore),
            Ok(()) => (DnsTxState::ApplyingFirewall, DnsTxAction::ApplyFirewall { kill_switch }),
        },
        (DnsTxState::RestoringCandidate { error }, DnsTxEvent::CandidateRestored(r)) => apply_fail(
            DnsApplyFailure::DnsApply { error, restore: r },
        ),
        (DnsTxState::ApplyingFirewall, DnsTxEvent::FirewallApplied(r)) => match r {
            Err(e) => (
                DnsTxState::Finished,
                DnsTxAction::Rollback { reason: DnsRollbackReason::Failed(e), stop_candidate: true },
            ),
            Ok(()) => (DnsTxState::Finished, DnsTxAction::Commit),
        },
        (s, _) => (s, DnsTxAction::Ignore),
    }
}

fn copy_tx_state(s: &DnsTxState) -> (r: DnsTxState)
    ensures
        r == *s,
{
    match s {
        DnsTxState::Requested => DnsTxState::Requested,
        DnsTxState::UpdatingSettings { facts } => DnsTxState::UpdatingSettings { facts: *facts },
        DnsTxState::StoppingOld { facts } => DnsTxState::StoppingOld { facts: *facts },
        DnsTxState::RestoringSnapshot { facts } => DnsTxState::RestoringSnapshot { facts: *facts },
        DnsTxState::ClearingSnapshot { facts } => DnsTxState::ClearingSnapshot { facts: *facts },
        DnsTxState::DisablingKillSwitch => DnsTxState::DisablingKillSwitch,
        DnsTxState::ClearingMetadata => DnsTxState::ClearingMetadata,
        DnsTxState::Spawning { facts, has_snapshot } => DnsTxState::Spawning { facts: *facts, has_snapshot: *has_snapshot },
        DnsTxState::CheckingReadiness { facts, has_snapshot } => DnsTxState::CheckingReadiness {
            facts: *facts,
            has_snapshot: *has_snapshot,
        },
        DnsTxState::RollingBackNotReady => DnsTxState::RollingBackNotReady,
        DnsTxState::SavingSnapshot { kill_switch } => DnsTxState::SavingSnapshot { kill_switch: *kill_switch },
        DnsTxState::ApplyingDns { kill_switch } => DnsTxState::ApplyingDns { kill_switch: *kill_switch },
        DnsTxState::RestoringCandidate { error } => DnsTxState::RestoringCandidate { error: error.clone() },
        DnsTxState::ApplyingFirewall => DnsTxState::ApplyingFirewall,
        DnsTxState::Finished => DnsTxState::Finished,
    }
}

fn disable_kill_switch_exec(facts: DnsApplyFacts) -> (r: (DnsTxState, DnsTxAction))
    ensures
        r == disable_kill_switch_step(facts),
{
    if facts.has_previous && facts.previous_has_ownership {
        (DnsTxState::DisablingKillSwitch, DnsTxAction::DisableKillSwitch)
    } else {
        (DnsTxState::ClearingMetadata, DnsTxAction::ClearMetadata)
    }
}

/// One decision of an apply.
pub fn dns_apply_step(state: &DnsTxState, event: DnsTxEvent) -> (r: (DnsTxState, DnsTxAction))
    ensures
        r == dns_apply_next(*state, event),
{
    match (state, event) {
        (DnsTxState::Requested, DnsTxEvent::Begin { verification, revision, latest_requested, facts }) => match verification {
            Err(e) => (DnsTxState::Finished, DnsTxAction::Fail(DnsApplyFailure::InvalidConfig(e))),
            Ok(()) => if revision < latest_requested {
                (DnsTxState::Finished, DnsTxAction::ReportSuperseded)
            } else {
                (DnsTxState::UpdatingSettings { facts }, DnsTxAction::UpdateSettings)
            },
        },
        (DnsTxState::UpdatingSettings { facts }, DnsTxEvent::SettingsUpdated(r)) => match r {
            Err(e) => (DnsTxState::Finished, DnsTxAction::Fail(DnsApplyFailure::SettingsCache(e))),
            Ok(()) => (DnsTxState::StoppingOld { facts: *facts }, DnsTxAction::StopOldForwarder),
        },
        (DnsTxState::StoppingOld { facts }, DnsTxEvent::OldForwarderStopped { snapshot }) => {
            let facts = *facts;
            match snapshot {
                Err(e) => (DnsTxState::Finished, DnsTxAction::Fail(DnsApplyFailure::SnapshotUnavailable(e))),
                Ok(has_snapshot) => if facts.enabled {
                    (DnsTxState::Spawning { facts, has_snapshot }, DnsTxAction::SpawnForwarder)
                } else if has_snapshot {
                    (DnsTxState::RestoringSnapshot { facts }, DnsTxAction::RestoreSnapshot)
                } else {
                    disable_kill_switch_exec(facts)
                },
            }
        },
        (DnsTxState::RestoringSnapshot { facts }, DnsTxEvent::SnapshotRestored(r)) => match r {
            Err(e) => (DnsTxState::Finished, DnsTxAction::Fail(DnsApplyFailure::DnsRestore(e))),
            Ok(()) => (DnsTxState::ClearingSnapshot { facts: *facts }, DnsTxAction::ClearSnapshot),
        },
        (DnsTxState::ClearingSnapshot { facts }, DnsTxEvent::SnapshotCleared(r)) => match r {
            Err(e) => (DnsTxState::Finished, DnsTxAction::Fail(DnsApplyFailure::SnapshotNotCleared(e))),
            Ok(()) => disable_kill_switch_exec(*facts),
        },
        (DnsTxState::DisablingKillSwitch, DnsTxEvent::KillSwitchDisabled(r)) => match r {
            Err(e) => (DnsTxState::Finished, DnsTxAction::Fail(DnsApplyFailure::KillSwitchDisable(e))),
            Ok(()) => (DnsTxState::Finished, DnsTxAction::ReportDisabled),
        },
        (DnsTxState::ClearingMetadata, DnsTxEvent::MetadataCleared(r)) => match r {
            Err(e) => (DnsTxState::Finished, DnsTxAction::Fail(DnsApplyFailure::MetadataNotCleared(e))),
            Ok(()) => (DnsTxState::Finished, DnsTxAction::ReportDisabled),
        },
        (DnsTxState::Spawning { facts, has_snapshot }, DnsTxEvent::ForwarderSpawned(r)) => match r {
            Err(e) => (
                DnsTxState::Finished,
                DnsTxAction::Rollback { reason: DnsRollbackReason::Failed(e), stop_candidate: false },
            ),
            Ok(()) => (
                DnsTxState::CheckingReadiness { facts: *facts, has_snapshot: *has_snapshot },
                DnsTxAction::CheckReadiness,
            ),
        },
        (DnsTxState::CheckingReadiness { facts, has_snapshot }, DnsTxEvent::ReadinessChecked { ready }) => {
            let facts = *facts;
            if !ready {
                if facts.has_previous {
                    (
                        DnsTxState::RollingBackNotReady,
                        DnsTxAction::Rollback { reason: DnsRollbackReason::NotReady, stop_candidate: true },
                    )
                } else {
                    (DnsTxState::Finished, DnsTxAction::StopCandidateAndFail(DnsApplyFailure::NotReady(None)))
                }
            } else if *has_snapshot {
                (DnsTxState::ApplyingDns { kill_switch: facts.kill_switch }, DnsTxAction::ApplySystemDns)
            } else {
                (DnsTxState::SavingSnapshot { kill_switch: facts.kill_switch }, DnsTxAction::SaveSnapshot)
            }
        },
        (DnsTxState::RollingBackNotReady, DnsTxEvent::RollbackFinished(r)) => (
            DnsTxState::Finished,
            DnsTxAction::Fail(DnsApplyFailure::NotReady(Some(r))),
        ),
        (DnsTxState::SavingSnapshot { kill_switch }, DnsTxEvent::SnapshotSaved(r)) => match r {
            Err(e) => (
                DnsTxState::Finished,
                DnsTxAction::StopCandidateAndFail(DnsApplyFailure::SnapshotNotPersisted(e)),
            ),
            Ok(()) => (DnsTxState::ApplyingDns { kill_switch: *kill_switch }, DnsTxAction::ApplySystemDns),
        },
        (DnsTxState::ApplyingDns { kill_switch }, DnsTxEvent::DnsApplied(r)) => match r {
            Err(e) => (DnsTxState::RestoringCandidate { error: e }, DnsTxAction::StopCandidateAndRestore),
            Ok(()) => (DnsTxState::ApplyingFirewall, DnsTxAction::ApplyFirewall { kill_switch: *kill_switch }),
        },
        (DnsTxState::RestoringCandidate { error }, DnsTxEvent::CandidateRestored(r)) => (
            DnsTxState::Finished,
            DnsTxAction::Fail(DnsApplyFailure::DnsApply { error: error.clone(), restore: r }),
        ),
        (DnsTxState::ApplyingFirewall, DnsTxEvent::FirewallApplied(r)) => match r {
            Err(e) => (
                DnsTxState::Finished,
                DnsTxAction::Rollback { reason: DnsRollbackReason::Failed(e), stop_candidate: true },
            ),
            Ok(()) => (DnsTxState::Finished, DnsTxAction::Commit),
        },
        (s, _) => (copy_tx_state(s), DnsTxAction::Ignore),
    }
}

/// What could not be restored when a rollback failed.
#[derive(Debug, Clone, PartialEq, Eq)]
pub enum RollbackDetail {
    /// The previous forwarder did not start or was not ready.
    ForwarderNotRestored,
    /// The previous kill switch rules or their metadata could not be put
    /// back.
    FirewallRestoreFailed(String),
}

pub open spec fn rollback_detail_text(d: RollbackDetail) -> Seq<char> {
    match d {
        RollbackDetail::ForwarderNotRestored => "previous forwarder could not be restored"@,
        RollbackDetail::FirewallRestoreFailed(e) => "previous Kill Switch firewall/metadata restore failed: "@ + e@,
    }
}

/// Why a rollback failed.
#[derive(Debug, Clone, PartialEq, Eq)]
pub enum DnsRollbackFailure {
    /// The previous configuration had the kill switch on but no record of
    /// its rules.
    OwnershipMissing { reason: String },
    /// The saved system DNS could not be read; the text is passed on.
    SnapshotUnavailable(String),
    /// The saved system DNS could not be put back either.
    SnapshotRestoreFailed { reason: String, detail: RollbackDetail, error: String },
    /// The previous configuration could not be restored; the saved system
    /// DNS was put back where there was one.
    NotRestored { reason: String, detail: RollbackDetail },
}

pub open spec fn dns_rollback_failure_text(f: DnsRollbackFailure) -> Seq<char> {
    match f {
        DnsRollbackFailure::OwnershipMissing { reason } => "DNS candidate apply failed ("@ + reason@
            + ") AND rollback failed: previous Kill Switch ownership/platform metadata is missing."@,
        DnsRollbackFailure::SnapshotUnavailable(e) => e@,
        DnsRollbackFailure::SnapshotRestoreFailed { reason, detail, error } => "DNS candidate apply failed ("@
            + reason@ + "); "@ + rollback_detail_text(detail) + "; "@ + error@,
        DnsRollbackFailure::NotRestored { reason, detail } => "DNS candidate apply failed ("@ + reason@
            + ") AND rollback failed: "@ + rollback_detail_text(detail) + match detail {
            RollbackDetail::ForwarderNotRestored => "."@,
            RollbackDetail::FirewallRestoreFailed(_) => Seq::<char>::empty(),
        },
    }
}

impl RollbackDetail {
    /// The detail as the rollback's messages quote it.
    pub fn text(&self) -> (t: String)
        ensures
            t@ == rollback_detail_text(*self),
    {
        match self {
            RollbackDetail::ForwarderNotRestored => to_string("previous forwarder could not be restored"),
            RollbackDetail::FirewallRestoreFailed(e) => concat(
                "previous Kill Switch firewall/metadata restore failed: ",
                e.as_str(),
            ),
        }
    }
}

impl DnsRollbackFailure {
    /// The error text the rollback reports.
    pub fn message(&self) -> (m: String)
        ensures
            m@ == dns_rollback_failure_text(*self),
    {
        match self {
            DnsRollbackFailure::OwnershipMissing { reason } => {
                let t = concat("DNS candidate apply failed (", reason.as_str());
                concat(t.as_str(), ") AND rollback failed: previous Kill Switch ownership/platform metadata is missing.")
            },
            DnsRollbackFailure::SnapshotUnavailable(e) => e.clone(),
            DnsRollbackFailure::SnapshotRestoreFailed { reason, detail, error } => {
                let t = concat("DNS candidate apply failed (", reason.as_str());
                let t = concat(t.as_str(), "); ");
                let d = detail.text();
                let t = concat(t.as_str(), d.as_str());
                let t = concat(t.as_str(), "; ");
                concat(t.as_str(), error.as_str())
            },
            DnsRollbackFailure::NotRestored { reason, detail } => {
                let t = concat("DNS candidate apply failed (", reason.as_str());
                let t = concat(t.as_str(), ") AND rollback failed: ");
                let d = detail.text();
                let t = concat(t.as_str(), d.as_str());
                match detail {
                    RollbackDetail::ForwarderNotRestored => concat(t.as_str(), "."),
                    RollbackDetail::FirewallRestoreFailed(_) => {
                        proof {
                            assert(t@ + Seq::<char>::empty() =~= t@);
                        }
                        t
                    },
                }
            },
        }
    }
}

/// What a rollback knows of the previous configuration: whether it had
/// the kill switch on and whether a record of its rules exists.
#[derive(Debug, Clone, Copy, PartialEq, Eq)]
pub struct PreviousDnsFacts {
    pub kill_switch: bool,
    pub has_ownership: bool,
}

/// Where a rollback stands.
#[derive(Debug, Clone, PartialEq, Eq)]
pub enum DnsRollbackState {
    /// Nothing done yet.
    Requested,
    /// The previous forwarder is being started.
    Spawning { reason: String, previous: PreviousDnsFacts },
    /// The previous forwarder's readiness is being checked.
    CheckingReadiness { reason: String, previous: PreviousDnsFacts },
    /// The previous kill switch rules are being put back.
    RestoringFirewall { reason: String },
    /// The applied state was cleared and the saved system DNS is being
    /// read.
    LoadingSnapshot { reason: String, detail: RollbackDetail },
    /// The saved system DNS is being put back and cleared.
    RestoringSnapshot { reason: String, detail: RollbackDetail },
    /// The rollback is over.
    Finished,
}

/// What came of the last action.
#[derive(Debug, PartialEq, Eq)]
pub enum DnsRollbackEvent {
    /// A rollback is asked for, with the reason of the failed apply and the
    /// previous configuration, if there is one.
    Begin { reason: String, previous: Option<PreviousDnsFacts> },
    /// Whether the previous forwarder started.
    PreviousSpawned { spawned: bool },
    /// Whether the previous forwarder answers locally.
    ReadinessChecked { ready: bool },
    /// The previous kill switch rules were put back, or not.
    FirewallRestored(Result<(), String>),
    /// Whether a saved system DNS exists, or it could not be read.
    SnapshotLoaded(Result<bool, String>),
    /// The saved system DNS was put back and cleared, or not.
    SnapshotRestored(Result<(), String>),
}

/// What to do next.
#[derive(Debug, PartialEq, Eq)]
pub enum DnsRollbackAction {
    /// Start the previous forwarder under a new generation.
    SpawnPrevious,
    /// Check that the previous forwarder answers locally.
    CheckReadiness,
    /// Put the previous kill switch rules and their metadata back.
    RestoreFirewall,
    /// Keep the previous forwarder, restore the applied configuration and
    /// report the rollback.
    Reinstate,
    /// Stop the previous forwarder, if asked to, clear the applied state
    /// and read the saved system DNS.
    ClearAppliedAndLoadSnapshot { stop_previous: bool },
    /// Put the saved system DNS back and clear it.
    RestoreSnapshot,
    /// Stop the previous forwarder, then fail.
    StopPreviousAndFail(DnsRollbackFailure),
    /// Fail with this error.
    Fail(DnsRollbackFailure),
    /// The event does not fit the state: nothing to do.
    Ignore,
}

pub open spec fn give_up(reason: String, detail: RollbackDetail, stop_previous: bool) -> (DnsRollbackState, DnsRollbackAction) {
    (DnsRollbackState::LoadingSnapshot { reason, detail }, DnsRollbackAction::ClearAppliedAndLoadSnapshot { stop_previous })
}

/// The next state and action of a rollback.
pub open spec fn dns_rollback_next(state: DnsRollbackState, event: DnsRollbackEvent) -> (DnsRollbackState, DnsRollbackAction) {
    match (state, event) {
        (DnsRollbackState::Requested, DnsRollbackEvent::Begin { reason, previous }) => match previous {
            None => give_up(reason, RollbackDetail::ForwarderNotRestored, false),
            Some(p) => (DnsRollbackState::Spawning { reason, previous: p }, DnsRollbackAction::SpawnPrevious),
        },
        (DnsRollbackState::Spawning { reason, previous }, DnsRollbackEvent::PreviousSpawned { spawned }) => if spawned {
            (DnsRollbackState::CheckingReadiness { reason, previous }, DnsRollbackAction::CheckReadiness)
        } else {
            give_up(reason, RollbackDetail::ForwarderNotRestored, false)
        },
        (DnsRollbackState::CheckingReadiness { reason, previous }, DnsRollbackEvent::ReadinessChecked { ready }) => if !ready {
            give_up(reason, RollbackDetail::ForwarderNotRestored, true)
        } else if previous.kill_switch && !previous.has_ownership {
            (
                DnsRollbackState::Finished,
                DnsRollbackAction::StopPreviousAndFail(DnsRollbackFailure::OwnershipMissing { reason }),
            )
        } else if previous.has_ownership {
            (DnsRollbackState::RestoringFirewall { reason }, DnsRollbackAction::RestoreFirewall)
        } else {
            (DnsRollbackState::Finished, DnsRollbackAction::Reinstate)
        },
        (DnsRollbackState::RestoringFirewall { reason }, DnsRollbackEvent::FirewallRestored(r)) => match r {
            Err(e) => give_up(reason, RollbackDetail::FirewallRestoreFailed(e), true),
            Ok(()) => (DnsRollbackState::Finished, DnsRollbackAction::Reinstate),
        },
        (DnsRollbackState::LoadingSnapshot { reason, detail }, DnsRollbackEvent::SnapshotLoaded(r)) => match r {
            Err(e) => (DnsRollbackState::Finished, DnsRollbackAction::Fail(DnsRollbackFailure::SnapshotUnavailable(e))),
            Ok(exists) => if exists {
                (DnsRollbackState::RestoringSnapshot { reason, detail }, DnsRollbackAction::RestoreSnapshot)
            } else {
                (DnsRollbackState::Finished, DnsRollbackAction::Fail(DnsRollbackFailure::NotRestored { reason, detail }))
            },
        },
        (DnsRollbackState::RestoringSnapshot { reason, detail }, DnsRollbackEvent::SnapshotRestored(r)) => match r {
            Err(error) => (
                DnsRollbackState::Finished,
                DnsRollbackAction::Fail(DnsRollbackFailure::SnapshotRestoreFailed { reason, detail, error }),
            ),
            Ok(()) => (DnsRollbackState::Finished, DnsRollbackAction::Fail(DnsRollbackFailure::NotRestored { reason, detail })),
        },
        (s, _) => (s, DnsRollbackAction::Ignore),
    }
}

fn copy_detail(d: &RollbackDetail) -> (r: RollbackDetail)
    ensures
        r == *d,
{
    match d {
        RollbackDetail::ForwarderNotRestored => RollbackDetail::ForwarderNotRestored,
        RollbackDetail::FirewallRestoreFailed(e) => RollbackDetail::FirewallRestoreFailed(e.clone()),
    }
}

fn copy_rollback_state(s: &DnsRollbackState) -> (r: DnsRollbackState)
    ensures
        r == *s,
{
    match s {
        DnsRollbackState::Requested => DnsRollbackState::Requested,
        DnsRollbackState::Spawning { reason, previous } => DnsRollbackState::Spawning {
            reason: reason.clone(),
            previous: *previous,
        },
        DnsRollbackState::CheckingReadiness { reason, previous } => DnsRollbackState::CheckingReadiness {
            reason: reason.clone(),
            previous: *previous,
        },
        DnsRollbackState::RestoringFirewall { reason } => DnsRollbackState::RestoringFirewall { reason: reason.clone() },
        DnsRollbackState::LoadingSnapshot { reason, detail } => DnsRollbackState::LoadingSnapshot {
            reason: reason.clone(),
            detail: copy_detail(detail),
        },
        DnsRollbackState::RestoringSnapshot { reason, detail } => DnsRollbackState::RestoringSnapshot {
            reason: reason.clone(),
            detail: copy_detail(detail),
        },
        DnsRollbackState::Finished => DnsRollbackState::Finished,
    }
}

/// One decision of a rollback.
pub fn dns_rollback_step(state: &DnsRollbackState, event: DnsRollbackEvent) -> (r: (DnsRollbackState, DnsRollbackAction))
    ensures
        r == dns_rollback_next(*state, event),
{
    match (state, event) {
        (DnsRollbackState::Requested, DnsRollbackEvent::Begin { reason, previous }) => match previous {
            None => (
                DnsRollbackState::LoadingSnapshot { reason, detail: RollbackDetail::ForwarderNotRestored },
                DnsRollbackAction::ClearAppliedAndLoadSnapshot { stop_previous: false },
            ),
            Some(p) => (DnsRollbackState::Spawning { reason, previous: p }, DnsRollbackAction::SpawnPrevious),
        },
        (DnsRollbackState::Spawning { reason, previous }, DnsRollbackEvent::PreviousSpawned { spawned }) => if spawned {
            (
                DnsRollbackState::CheckingReadiness { reason: reason.clone(), previous: *previous },
                DnsRollbackAction::CheckReadiness,
            )
        } else {
            (
                DnsRollbackState::LoadingSnapshot { reason: reason.clone(), detail: RollbackDetail::ForwarderNotRestored },
                DnsRollbackAction::ClearAppliedAndLoadSnapshot { stop_previous: false },
            )
        },
        (DnsRollbackState::CheckingReadiness { reason, previous }, DnsRollbackEvent::ReadinessChecked { ready }) => if !ready {
            (
                DnsRollbackState::LoadingSnapshot { reason: reason.clone(), detail: RollbackDetail::ForwarderNotRestored },
                DnsRollbackAction::ClearAppliedAndLoadSnapshot { stop_previous: true },
            )
        } else if previous.kill_switch && !previous.has_ownership {
            (
                DnsRollbackState::Finished,
                DnsRollbackAction::StopPreviousAndFail(DnsRollbackFailure::OwnershipMissing { reason: reason.clone() }),
            )
        } else if previous.has_ownership {
            (DnsRollbackState::RestoringFirewall { reason: reason.clone() }, DnsRollbackAction::RestoreFirewall)
        } else {
            (DnsRollbackState::Finished, DnsRollbackAction::Reinstate)
        },
        (DnsRollbackState::RestoringFirewall { reason }, DnsRollbackEvent::FirewallRestored(r)) => match r {
            Err(e) => (
                DnsRollbackState::LoadingSnapshot { reason: reason.clone(), detail: RollbackDetail::FirewallRestoreFailed(e) },
                DnsRollbackAction::ClearAppliedAndLoadSnapshot { stop_previous: true },
            ),
            Ok(()) => (DnsRollbackState::Finished, DnsRollbackAction::Reinstate),
        },
        (DnsRollbackState::LoadingSnapshot { reason, detail }, DnsRollbackEvent::SnapshotLoaded(r)) => match r {
            Err(e) => (DnsRollbackState::Finished, DnsRollbackAction::Fail(DnsRollbackFailure::SnapshotUnavailable(e))),
            Ok(exists) => if exists {
                (
                    DnsRollbackState::RestoringSnapshot { reason: reason.clone(), detail: copy_detail(detail) },
                    DnsRollbackAction::RestoreSnapshot,
                )
            } else {
                (
                    DnsRollbackState::Finished,
                    DnsRollbackAction::Fail(DnsRollbackFailure::NotRestored { reason: reason.clone(), detail: copy_detail(detail) }),
                )
            },
        },
        (DnsRollbackState::RestoringSnapshot { reason, detail }, DnsRollbackEvent::SnapshotRestored(r)) => match r {
            Err(error) => (
                DnsRollbackState::Finished,
                DnsRollbackAction::Fail(
                    DnsRollbackFailure::SnapshotRestoreFailed { reason: reason.clone(), detail: copy_detail(detail), error },
                ),
            ),
            Ok(()) => (
                DnsRollbackState::Finished,
                DnsRollbackAction::Fail(DnsRollbackFailure::NotRestored { reason: reason.clone(), detail: copy_detail(detail) }),
            ),
        },
        (s, _) => (copy_rollback_state(s), DnsRollbackAction::Ignore),
    }
}

} // verus!
