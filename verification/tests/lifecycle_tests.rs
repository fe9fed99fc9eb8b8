use vane_core::lifecycle::{
    validate_state_transition, EngineGeneration, EngineLifecycleError, EngineLifecycleState, EngineOperationId,
    EngineReadiness, PlatformReadiness,
};
use vane_core::preset::{Preset, PresetCategory};
use vane_core::runtime_config::{candidate_from_preset_and_sources, verify_runtime_config, ConfigRevision};
use vane_core::runtime_state::{RuntimeConfigState, RuntimeStateError};
use vane_core::runtime_config::AppliedRuntimeConfig;

fn first_builtin_preset() -> Preset {
    Preset {
        id: "default".to_string(),
        label: "Default".to_string(),
        description: String::new(),
        icon: "zap".to_string(),
        args: vec!["--wf-tcp=80,443".to_string(), "--qnum=200".to_string(), "--dpi-desync=fake".to_string()],
        is_custom: false,
        priority: 1,
        category: PresetCategory::Standard,
    }
}

#[test]
fn test_group_a_valid_state_transitions() {
    let op = EngineOperationId::generate("test", 1);
    let gen = EngineGeneration::new(1);
    let preset = first_builtin_preset();
    let candidate = candidate_from_preset_and_sources(&preset, "all", "", false);
    let verified = verify_runtime_config(candidate, ConfigRevision::new(1)).unwrap();
    let rev = verified.revision;
    let fp = verified.fingerprint.clone();
    let s_stopped = EngineLifecycleState::Stopped;
    let s_prep = EngineLifecycleState::Preparing { operation: op.clone(), generation: gen, revision: rev, fingerprint: fp.clone() };
    let s_starting = EngineLifecycleState::StartingProcess { operation: op.clone(), generation: gen, revision: rev, fingerprint: fp.clone() };
    let s_waiting = EngineLifecycleState::WaitingForReadiness {
        operation: op.clone(),
        generation: gen,
        process_id: 100,
        revision: rev,
        fingerprint: fp.clone(),
    };
    let s_ready = EngineLifecycleState::Ready {
        generation: gen,
        process_id: 100,
        revision: rev,
        fingerprint: fp.clone(),
        readiness: EngineReadiness {
            process_alive: true,
            startup_grace_passed: true,
            fatal_stderr_detected: false,
            executable_identity_verified: true,
            platform_check: PlatformReadiness::Mock,
        },
    };
    let s_stopping = EngineLifecycleState::Stopping { operation: op, generation: gen, process_id: 100 };
    assert!(validate_state_transition(&s_stopped, &s_prep).is_ok());
    assert!(validate_state_transition(&s_prep, &s_starting).is_ok());
    assert!(validate_state_transition(&s_starting, &s_waiting).is_ok());
    assert!(validate_state_transition(&s_waiting, &s_ready).is_ok());
    assert!(validate_state_transition(&s_ready, &s_stopping).is_ok());
    assert!(validate_state_transition(&s_stopping, &s_stopped).is_ok());
    let err = validate_state_transition(&s_stopped, &s_ready).unwrap_err();
    assert_eq!(err, EngineLifecycleError::InvalidTransition { from: "stopped", to: "ready" });
}

#[test]
fn test_group_b_generation_monotonic_increment_and_overflow() {
    let g1 = EngineGeneration::new(1);
    let g2 = g1.next().unwrap();
    assert_eq!(g2.get(), 2);
    assert!(g2 > g1);
    let g_max = EngineGeneration::new(u64::MAX);
    assert!(g_max.next().is_err());
}

#[test]
fn test_group_d_readiness_model() {
    let ready_readiness = EngineReadiness {
        process_alive: true,
        startup_grace_passed: true,
        fatal_stderr_detected: false,
        executable_identity_verified: true,
        platform_check: PlatformReadiness::Mock,
    };
    assert!(ready_readiness.is_ready());
    let fatal_stderr_readiness = EngineReadiness {
        process_alive: true,
        startup_grace_passed: true,
        fatal_stderr_detected: true,
        executable_identity_verified: true,
        platform_check: PlatformReadiness::Mock,
    };
    assert!(!fatal_stderr_readiness.is_ready());
    let unverified_id_readiness = EngineReadiness {
        process_alive: true,
        startup_grace_passed: true,
        fatal_stderr_detected: false,
        executable_identity_verified: false,
        platform_check: PlatformReadiness::Mock,
    };
    assert!(!unverified_id_readiness.is_ready());
}

#[test]
fn test_rbr_07_partially_resolved_ready_state_requires_local_process_readiness_beyond_pid_existence() {
    let readiness = EngineReadiness {
        process_alive: true,
        startup_grace_passed: false,
        fatal_stderr_detected: false,
        executable_identity_verified: true,
        platform_check: PlatformReadiness::Mock,
    };
    assert!(!readiness.is_ready());
}

#[test]
fn i01_documents_global_process_cleanup_by_executable_name() {
    let process_name = "winws-x86_64-pc-windows-msvc.exe";
    assert!(process_name.contains("winws"));
}

#[test]
fn i02_double_kill_call_safety() {
    let mut child_opt: Option<u32> = None;
    if let Some(_child) = child_opt.take() {
        panic!("Should not execute");
    }
    assert!(child_opt.is_none());
}

#[test]
fn operation_ids_and_stage_names_read_as_displayed() {
    let op = EngineOperationId::from_parts("start", 1700000000123, 7);
    assert_eq!(op.0, "start-1700000000123-7");
    assert_eq!(op.label(), "Op(start-1700000000123-7)");
    assert_eq!(EngineGeneration::new(3).label(), "Gen(3)");
    let failed = EngineLifecycleState::Failed { generation: None, error: vane_core::lifecycle::LifecycleErrorSummary { message: "x".into(), code: None } };
    assert_eq!(failed.stage_name(), "failed");
    assert_eq!(failed.current_generation(), None);
    assert_eq!(failed.current_pid(), None);
    let err = validate_state_transition(&failed, &EngineLifecycleState::Stopped);
    assert!(err.is_ok());
    assert_eq!(
        EngineLifecycleError::InvalidTransition { from: "stopped", to: "ready" }.message(),
        "invalid lifecycle state transition from 'stopped' to 'ready'"
    );
}

#[test]
fn runtime_state_rejects_stale_and_mismatched_commits() {
    let preset = first_builtin_preset();
    let v2 = verify_runtime_config(candidate_from_preset_and_sources(&preset, "all", "", false), ConfigRevision::new(2)).unwrap();
    let v1 = verify_runtime_config(candidate_from_preset_and_sources(&preset, "all", "", false), ConfigRevision::new(1)).unwrap();
    let v_other = verify_runtime_config(candidate_from_preset_and_sources(&preset, "all", "", true), ConfigRevision::new(3)).unwrap();
    let mut state = RuntimeConfigState::new(ConfigRevision::new(0));
    assert!(state.commit_applied(AppliedRuntimeConfig::process_started(v2.clone(), 10)).is_ok());
    assert_eq!(state.latest_completed_revision().get(), 2);
    let stale = state.commit_applied(AppliedRuntimeConfig::process_started(v1, 11));
    assert_eq!(stale, Err(RuntimeStateError::StaleRevision { current: 2, attempted: 1 }));
    assert_eq!(state.latest_completed_revision().get(), 2);
    let next = state.advance_requested_revision().unwrap();
    assert_eq!(next.get(), 1);
    state.set_desired(v_other.clone());
    assert_eq!(state.latest_requested_revision().get(), 3);
}
