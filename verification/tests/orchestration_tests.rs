use vane_core::bypass_sync::{
    bypass_sync_step, BypassPrevious, BypassSyncAction, BypassSyncEvent, BypassSyncFailure, BypassSyncState,
};
use vane_core::dns_apply::{
    dns_apply_step, dns_rollback_step, DnsApplyFacts, DnsApplyFailure, DnsRollbackAction, DnsRollbackEvent,
    DnsRollbackFailure, DnsRollbackReason, DnsRollbackState, DnsTxAction, DnsTxEvent, DnsTxState, PreviousDnsFacts,
    RollbackDetail,
};
use vane_core::engine_spawn::{
    engine_spawn_step, EngineSpawnAction, EngineSpawnEvent, EngineSpawnFailure, EngineSpawnState,
};
use vane_core::ipc::IpcError;
use vane_core::preset::EngineError;

fn facts(enabled: bool, kill_switch: bool, has_previous: bool, previous_has_ownership: bool) -> DnsApplyFacts {
    DnsApplyFacts { enabled, kill_switch, has_previous, previous_has_ownership }
}

fn begin(f: DnsApplyFacts) -> DnsTxEvent {
    DnsTxEvent::Begin { verification: Ok(()), revision: 5, latest_requested: 5, facts: f }
}

#[test]
fn dns_apply_happy_path_with_kill_switch_commits() {
    let f = facts(true, true, false, false);
    let (s, a) = dns_apply_step(&DnsTxState::Requested, begin(f));
    assert_eq!(a, DnsTxAction::UpdateSettings);
    let (s, a) = dns_apply_step(&s, DnsTxEvent::SettingsUpdated(Ok(())));
    assert_eq!(a, DnsTxAction::StopOldForwarder);
    let (s, a) = dns_apply_step(&s, DnsTxEvent::OldForwarderStopped { snapshot: Ok(false) });
    assert_eq!(a, DnsTxAction::SpawnForwarder);
    let (s, a) = dns_apply_step(&s, DnsTxEvent::ForwarderSpawned(Ok(())));
    assert_eq!(a, DnsTxAction::CheckReadiness);
    let (s, a) = dns_apply_step(&s, DnsTxEvent::ReadinessChecked { ready: true });
    assert_eq!(a, DnsTxAction::SaveSnapshot);
    let (s, a) = dns_apply_step(&s, DnsTxEvent::SnapshotSaved(Ok(())));
    assert_eq!(a, DnsTxAction::ApplySystemDns);
    let (s, a) = dns_apply_step(&s, DnsTxEvent::DnsApplied(Ok(())));
    assert_eq!(a, DnsTxAction::ApplyFirewall { kill_switch: true });
    let (s, a) = dns_apply_step(&s, DnsTxEvent::FirewallApplied(Ok(())));
    assert_eq!(a, DnsTxAction::Commit);
    assert_eq!(s, DnsTxState::Finished);
}

#[test]
fn dns_apply_existing_snapshot_is_not_saved_again() {
    let f = facts(true, false, false, false);
    let s = DnsTxState::CheckingReadiness { facts: f, has_snapshot: true };
    let (_, a) = dns_apply_step(&s, DnsTxEvent::ReadinessChecked { ready: true });
    assert_eq!(a, DnsTxAction::ApplySystemDns);
}

#[test]
fn dns_apply_superseded_and_invalid() {
    let f = facts(true, false, false, false);
    let ev = DnsTxEvent::Begin { verification: Ok(()), revision: 3, latest_requested: 4, facts: f };
    let (s, a) = dns_apply_step(&DnsTxState::Requested, ev);
    assert_eq!(a, DnsTxAction::ReportSuperseded);
    assert_eq!(s, DnsTxState::Finished);
    let ev = DnsTxEvent::Begin { verification: Err("bad".to_string()), revision: 9, latest_requested: 1, facts: f };
    let (_, a) = dns_apply_step(&DnsTxState::Requested, ev);
    match a {
        DnsTxAction::Fail(failure) => assert_eq!(failure.message(), "DNS configuration validation error: bad"),
        other => panic!("unexpected {other:?}"),
    }
}

#[test]
fn dns_apply_disable_restores_snapshot_then_disables_owned_kill_switch() {
    let f = facts(false, false, true, true);
    let s = DnsTxState::StoppingOld { facts: f };
    let (s, a) = dns_apply_step(&s, DnsTxEvent::OldForwarderStopped { snapshot: Ok(true) });
    assert_eq!(a, DnsTxAction::RestoreSnapshot);
    let (s, a) = dns_apply_step(&s, DnsTxEvent::SnapshotRestored(Ok(())));
    assert_eq!(a, DnsTxAction::ClearSnapshot);
    let (s, a) = dns_apply_step(&s, DnsTxEvent::SnapshotCleared(Ok(())));
    assert_eq!(a, DnsTxAction::DisableKillSwitch);
    let (_, a) = dns_apply_step(&s, DnsTxEvent::KillSwitchDisabled(Err("netsh".to_string())));
    match a {
        DnsTxAction::Fail(failure) => assert_eq!(
            failure.message(),
            "DNS was restored and the forwarder was stopped, but Kill Switch disable failed; metadata and applied state were preserved: netsh"
        ),
        other => panic!("unexpected {other:?}"),
    }
}

#[test]
fn dns_apply_disable_without_previous_clears_metadata() {
    let f = facts(false, false, false, false);
    let (s, a) = dns_apply_step(&DnsTxState::StoppingOld { facts: f }, DnsTxEvent::OldForwarderStopped { snapshot: Ok(false) });
    assert_eq!(a, DnsTxAction::ClearMetadata);
    let (_, a) = dns_apply_step(&s, DnsTxEvent::MetadataCleared(Ok(())));
    assert_eq!(a, DnsTxAction::ReportDisabled);
}

#[test]
fn dns_apply_not_ready_without_previous_stops_candidate() {
    let f = facts(true, false, false, false);
    let s = DnsTxState::CheckingReadiness { facts: f, has_snapshot: false };
    let (_, a) = dns_apply_step(&s, DnsTxEvent::ReadinessChecked { ready: false });
    assert_eq!(a, DnsTxAction::StopCandidateAndFail(DnsApplyFailure::NotReady(None)));
    assert_eq!(
        DnsApplyFailure::NotReady(None).message(),
        "DNS forwarder did not become ready; system DNS and firewall were not changed."
    );
}

#[test]
fn dns_apply_not_ready_with_previous_rolls_back_and_reports() {
    let f = facts(true, false, true, false);
    let s = DnsTxState::CheckingReadiness { facts: f, has_snapshot: false };
    let (s, a) = dns_apply_step(&s, DnsTxEvent::ReadinessChecked { ready: false });
    assert_eq!(a, DnsTxAction::Rollback { reason: DnsRollbackReason::NotReady, stop_candidate: true });
    let (_, a) = dns_apply_step(&s, DnsTxEvent::RollbackFinished(Ok(true)));
    match a {
        DnsTxAction::Fail(failure) => assert_eq!(
            failure.message(),
            "DNS forwarder did not become ready; system DNS and firewall were not changed. Previous applied DNS configuration was restored."
        ),
        other => panic!("unexpected {other:?}"),
    }
}

#[test]
fn dns_apply_failures_hand_over_to_rollback() {
    let f = facts(true, true, true, true);
    let (_, a) = dns_apply_step(
        &DnsTxState::Spawning { facts: f, has_snapshot: false },
        DnsTxEvent::ForwarderSpawned(Err("port busy".to_string())),
    );
    assert_eq!(
        a,
        DnsTxAction::Rollback { reason: DnsRollbackReason::Failed("port busy".to_string()), stop_candidate: false }
    );
    let (_, a) = dns_apply_step(&DnsTxState::ApplyingFirewall, DnsTxEvent::FirewallApplied(Err("rule".to_string())));
    assert_eq!(a, DnsTxAction::Rollback { reason: DnsRollbackReason::Failed("rule".to_string()), stop_candidate: true });
}

#[test]
fn dns_apply_system_dns_failure_messages() {
    let (s, a) = dns_apply_step(&DnsTxState::ApplyingDns { kill_switch: false }, DnsTxEvent::DnsApplied(Err("x".to_string())));
    assert_eq!(a, DnsTxAction::StopCandidateAndRestore);
    let (_, a) = dns_apply_step(&s, DnsTxEvent::CandidateRestored(Ok(())));
    match a {
        DnsTxAction::Fail(failure) => assert_eq!(failure.message(), "System DNS apply failed: x"),
        other => panic!("unexpected {other:?}"),
    }
    let (_, a) = dns_apply_step(&s, DnsTxEvent::CandidateRestored(Err("y".to_string())));
    match a {
        DnsTxAction::Fail(failure) => assert_eq!(
            failure.message(),
            "System DNS apply failed (x); y; snapshot was preserved when restore failed."
        ),
        other => panic!("unexpected {other:?}"),
    }
}

#[test]
fn dns_apply_event_out_of_order_is_ignored() {
    let s = DnsTxState::ApplyingFirewall;
    let (s2, a) = dns_apply_step(&s, DnsTxEvent::SnapshotSaved(Ok(())));
    assert_eq!(a, DnsTxAction::Ignore);
    assert_eq!(s2, s);
}

fn rollback_begin(previous: Option<PreviousDnsFacts>) -> DnsRollbackEvent {
    DnsRollbackEvent::Begin { reason: "boom".to_string(), previous }
}

#[test]
fn dns_rollback_reinstates_previous_with_ownership() {
    let p = PreviousDnsFacts { kill_switch: true, has_ownership: true };
    let (s, a) = dns_rollback_step(&DnsRollbackState::Requested, rollback_begin(Some(p)));
    assert_eq!(a, DnsRollbackAction::SpawnPrevious);
    let (s, a) = dns_rollback_step(&s, DnsRollbackEvent::PreviousSpawned { spawned: true });
    assert_eq!(a, DnsRollbackAction::CheckReadiness);
    let (s, a) = dns_rollback_step(&s, DnsRollbackEvent::ReadinessChecked { ready: true });
    assert_eq!(a, DnsRollbackAction::RestoreFirewall);
    let (s, a) = dns_rollback_step(&s, DnsRollbackEvent::FirewallRestored(Ok(())));
    assert_eq!(a, DnsRollbackAction::Reinstate);
    assert_eq!(s, DnsRollbackState::Finished);
}

#[test]
fn dns_rollback_missing_ownership_fails() {
    let p = PreviousDnsFacts { kill_switch: true, has_ownership: false };
    let s = DnsRollbackState::CheckingReadiness { reason: "boom".to_string(), previous: p };
    let (_, a) = dns_rollback_step(&s, DnsRollbackEvent::ReadinessChecked { ready: true });
    match a {
        DnsRollbackAction::StopPreviousAndFail(failure) => assert_eq!(
            failure.message(),
            "DNS candidate apply failed (boom) AND rollback failed: previous Kill Switch ownership/platform metadata is missing."
        ),
        other => panic!("unexpected {other:?}"),
    }
}

#[test]
fn dns_rollback_without_previous_restores_snapshot_and_fails() {
    let (s, a) = dns_rollback_step(&DnsRollbackState::Requested, rollback_begin(None));
    assert_eq!(a, DnsRollbackAction::ClearAppliedAndLoadSnapshot { stop_previous: false });
    let (s, a) = dns_rollback_step(&s, DnsRollbackEvent::SnapshotLoaded(Ok(true)));
    assert_eq!(a, DnsRollbackAction::RestoreSnapshot);
    let (_, a) = dns_rollback_step(&s, DnsRollbackEvent::SnapshotRestored(Ok(())));
    match a {
        DnsRollbackAction::Fail(failure) => assert_eq!(
            failure.message(),
            "DNS candidate apply failed (boom) AND rollback failed: previous forwarder could not be restored."
        ),
        other => panic!("unexpected {other:?}"),
    }
}

#[test]
fn dns_rollback_firewall_failure_messages() {
    let s = DnsRollbackState::RestoringFirewall { reason: "boom".to_string() };
    let (s, a) = dns_rollback_step(&s, DnsRollbackEvent::FirewallRestored(Err("denied".to_string())));
    assert_eq!(a, DnsRollbackAction::ClearAppliedAndLoadSnapshot { stop_previous: true });
    let (s2, a) = dns_rollback_step(&s, DnsRollbackEvent::SnapshotLoaded(Ok(false)));
    assert_eq!(s2, DnsRollbackState::Finished);
    match a {
        DnsRollbackAction::Fail(failure) => assert_eq!(
            failure.message(),
            "DNS candidate apply failed (boom) AND rollback failed: previous Kill Switch firewall/metadata restore failed: denied"
        ),
        other => panic!("unexpected {other:?}"),
    }
    let failure = DnsRollbackFailure::SnapshotRestoreFailed {
        reason: "boom".to_string(),
        detail: RollbackDetail::ForwarderNotRestored,
        error: "e".to_string(),
    };
    assert_eq!(failure.message(), "DNS candidate apply failed (boom); previous forwarder could not be restored; e");
}

#[test]
fn engine_spawn_linux_path_runs() {
    let ev = EngineSpawnEvent::Start { windows: false, elevated: false, arguments: Ok(()) };
    let (s, a) = engine_spawn_step(&EngineSpawnState::Requested, ev);
    assert_eq!(a, EngineSpawnAction::Admit);
    let ev = EngineSpawnEvent::Admitted { admitted: true, kill_switch: false, forwarder_active: false };
    let (s, a) = engine_spawn_step(&s, ev);
    assert_eq!(a, EngineSpawnAction::ApplyFilter);
    let (s, a) = engine_spawn_step(&s, EngineSpawnEvent::FilterApplied(Ok((200, true))));
    assert_eq!(a, EngineSpawnAction::Spawn { queue: Some(200) });
    let (s, a) = engine_spawn_step(&s, EngineSpawnEvent::Spawned(Ok(Some(42))));
    assert_eq!(a, EngineSpawnAction::WaitGrace { pid: 42 });
    let (s, a) = engine_spawn_step(&s, EngineSpawnEvent::GraceEnded { cancelled: false });
    assert_eq!(a, EngineSpawnAction::CheckExited { pid: 42 });
    let (s, a) = engine_spawn_step(&s, EngineSpawnEvent::ExitChecked(Ok(false)));
    assert_eq!(a, EngineSpawnAction::TakePipes { pid: 42 });
    let (s, a) = engine_spawn_step(&s, EngineSpawnEvent::PipesTaken { stdout: true, stderr: true });
    assert_eq!(a, EngineSpawnAction::Settle { pid: 42 });
    let (s, a) = engine_spawn_step(&s, EngineSpawnEvent::ReadinessChecked { alive: true, config_matches: true });
    assert_eq!(a, EngineSpawnAction::MarkRunning { pid: 42 });
    assert_eq!(s, EngineSpawnState::Running { pid: 42 });
}

#[test]
fn engine_spawn_refusals_and_failures() {
    let ev = EngineSpawnEvent::Start { windows: true, elevated: false, arguments: Ok(()) };
    let (_, a) = engine_spawn_step(&EngineSpawnState::Requested, ev);
    assert_eq!(a, EngineSpawnAction::Refuse(EngineSpawnFailure::NotElevated));
    let ev = EngineSpawnEvent::Admitted { admitted: true, kill_switch: true, forwarder_active: false };
    let (_, a) = engine_spawn_step(&EngineSpawnState::Admitting { windows: true }, ev);
    assert_eq!(a, EngineSpawnAction::Fail(EngineSpawnFailure::KillSwitchWithoutForwarder));
    let (_, a) = engine_spawn_step(&EngineSpawnState::Guarding { pid: 7 }, EngineSpawnEvent::JobAssigned(Err("x".to_string())));
    assert_eq!(a, EngineSpawnAction::KillChild { pid: 7, failure: EngineSpawnFailure::JobObjectFailed("x".to_string()) });
    assert_eq!(
        EngineSpawnFailure::JobObjectFailed("x".to_string()).to_engine_error(true),
        EngineError::IoError("Kernel-level process guard (Job Object) could not be created: x".to_string())
    );
    let ev = EngineSpawnEvent::ReadinessChecked { alive: true, config_matches: false };
    let (_, a) = engine_spawn_step(&EngineSpawnState::Confirming { pid: 9 }, ev);
    assert_eq!(a, EngineSpawnAction::Terminate { pid: 9, failure: EngineSpawnFailure::NotReady });
}

#[test]
fn bypass_sync_restarts_running_engine_with_forwarder() {
    let prev = BypassPrevious { settings_saved: true, applied: true };
    let (s, a) = bypass_sync_step(&BypassSyncState::Requested, BypassSyncEvent::Begin { exclusive: Ok(()), kill_switch: true });
    assert!(matches!(a, BypassSyncAction::Validate));
    let (s, a) = bypass_sync_step(&s, BypassSyncEvent::Validated(Ok(())));
    assert!(matches!(a, BypassSyncAction::LookUpPreset));
    let (s, a) = bypass_sync_step(&s, BypassSyncEvent::PresetLookup(Ok(())));
    assert!(matches!(a, BypassSyncAction::Verify));
    let (s, a) = bypass_sync_step(&s, BypassSyncEvent::Verified(Ok(())));
    assert!(matches!(a, BypassSyncAction::Claim));
    let (s, a) = bypass_sync_step(&s, BypassSyncEvent::Claimed { revision: 2, latest_requested: 2 });
    assert!(matches!(a, BypassSyncAction::Prepare));
    let (s, a) = bypass_sync_step(&s, BypassSyncEvent::Prepared { previous: prev, engine_running: true });
    assert!(matches!(a, BypassSyncAction::CheckForwarder));
    let (s, a) = bypass_sync_step(&s, BypassSyncEvent::ForwarderChecked { active: false });
    assert!(matches!(a, BypassSyncAction::StartForwarder));
    let (s, a) = bypass_sync_step(&s, BypassSyncEvent::ForwarderStarted(Ok(())));
    assert!(matches!(a, BypassSyncAction::StopEngine));
    let (s, a) = bypass_sync_step(&s, BypassSyncEvent::EngineStopped(Ok(())));
    assert!(matches!(a, BypassSyncAction::StartCandidate));
    let (s, a) = bypass_sync_step(&s, BypassSyncEvent::CandidateStarted(Ok(())));
    assert!(matches!(a, BypassSyncAction::CommitCandidate));
    assert_eq!(s, BypassSyncState::Finished);
}

#[test]
fn bypass_sync_superseded_and_prepared_only() {
    let s = BypassSyncState::Claiming { kill_switch: false };
    let (_, a) = bypass_sync_step(&s, BypassSyncEvent::Claimed { revision: 1, latest_requested: 2 });
    assert!(matches!(a, BypassSyncAction::ReportSuperseded));
    let prev = BypassPrevious { settings_saved: false, applied: false };
    let s = BypassSyncState::Preparing { kill_switch: true };
    let (_, a) = bypass_sync_step(&s, BypassSyncEvent::Prepared { previous: prev, engine_running: false });
    assert!(matches!(a, BypassSyncAction::ReportPrepared));
}

#[test]
fn bypass_sync_candidate_failure_rolls_back() {
    let prev = BypassPrevious { settings_saved: true, applied: true };
    let s = BypassSyncState::StartingCandidate { previous: prev };
    let (s, a) = bypass_sync_step(&s, BypassSyncEvent::CandidateStarted(Err("c".to_string())));
    assert!(matches!(a, BypassSyncAction::RestartPrevious { restore_settings: true }));
    let (_, a) = bypass_sync_step(&s, BypassSyncEvent::PreviousStarted(Err("r".to_string())));
    match a {
        BypassSyncAction::ClearAppliedAndFail { restore_settings, failure } => {
            assert!(!restore_settings);
            let e = failure.into_ipc_error();
            assert_eq!(e.code, "ENGINE_ROLLBACK_FAILED");
            assert_eq!(e.message, "Candidate start failed (c) AND rollback start failed: r");
            assert!(e.retryable);
        }
        other => panic!("unexpected {other:?}"),
    }
    let (_, a) = bypass_sync_step(&s, BypassSyncEvent::PreviousStarted(Ok(())));
    assert!(matches!(a, BypassSyncAction::ReinstatePrevious));
}

#[test]
fn bypass_sync_candidate_failure_without_previous() {
    let prev = BypassPrevious { settings_saved: false, applied: false };
    let s = BypassSyncState::StartingCandidate { previous: prev };
    let (_, a) = bypass_sync_step(&s, BypassSyncEvent::CandidateStarted(Err("c".to_string())));
    match a {
        BypassSyncAction::ClearAppliedAndFail { restore_settings, failure } => {
            assert!(!restore_settings);
            let e = failure.into_ipc_error();
            assert_eq!(e.code, "ENGINE_START_FAILED");
            assert_eq!(e.message, "Candidate engine start failed: c");
        }
        other => panic!("unexpected {other:?}"),
    }
}

#[test]
fn bypass_sync_errors_map_to_ipc_errors() {
    let e = BypassSyncFailure::Busy("PatternTransaction".to_string()).into_ipc_error();
    assert_eq!(e.code, "RUNTIME_BUSY");
    assert_eq!(e.message, "Runtime is busy with PatternTransaction");
    let e = BypassSyncFailure::PresetNotFound("p1".to_string()).into_ipc_error();
    assert_eq!(e.code, "PRESET_NOT_FOUND");
    assert_eq!(e.message, "Active preset 'p1' was not found; Pattern restart was cancelled.");
    assert!(!e.retryable);
    let e = BypassSyncFailure::EngineStop("x".to_string()).into_ipc_error();
    assert_eq!(e.message, "Failed to stop engine before Pattern restart: x");
    let refused = IpcError::validation("sync_bypass_config", "WHITELIST_EMPTY", "w".to_string());
    let e = BypassSyncFailure::Refused(refused).into_ipc_error();
    assert_eq!(e.code, "WHITELIST_EMPTY");
    assert_eq!(e.operation, "sync_bypass_config");
}
