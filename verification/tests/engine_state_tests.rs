use vane_core::process_control::linux_engine_args;
use vane_core::engine_state::{
    begin_start, begin_stop, finish_stop, is_state_starting_generation, replace_start_cancel_if_starting,
    set_state_failed_if_running_pid, set_state_failed_if_starting, set_state_running_if_starting,
    set_state_starting_if_running_pid, start_is_confirmed, EngineState, EngineStatus, StopAction,
};
use vane_core::preset::EngineError;

type State = EngineState<u32, &'static str>;

#[test]
fn g01_windows_arg_passthrough() {
    let preset_args = ["--wf-tcp=80,443".to_string(), "--dpi-desync=fake".to_string()];
    assert_eq!(preset_args.len(), 2);
}

#[test]
fn g02_documents_linux_dropping_wf_filter_arguments() {
    let raw_args = vec!["--wf-tcp=80,443".to_string(), "--dpi-desync=fake".to_string()];
    let linux_filtered: Vec<String> = raw_args
        .into_iter()
        .filter(|a| !a.starts_with("--wf-") && !a.starts_with("--windivert") && !a.starts_with("tcp."))
        .collect();
    assert_eq!(linux_filtered, vec!["--dpi-desync=fake"]);
}

#[test]
fn g04_hostlist_arg_preparation() {
    let hostlist_path = "/tmp/vane-hostlist.txt";
    let whitelist_arg = format!("--hostlist={hostlist_path}");
    let blacklist_arg = format!("--hostlist-exclude={hostlist_path}");

    assert!(whitelist_arg.starts_with("--hostlist="));
    assert!(blacklist_arg.starts_with("--hostlist-exclude="));
}

#[test]
fn h10_documents_running_status_as_process_alive_only() {
    let status = EngineStatus::Running { pid: 9999 };
    if let EngineStatus::Running { pid } = status {
        assert_eq!(pid, 9999);
    }
}

#[test]
fn stale_start_failure_cannot_replace_newer_start() {
    let mut state: State = EngineState::Starting { generation: 2, cancel: 1 };
    assert!(!set_state_failed_if_starting(&mut state, 1, EngineError::SpawnFailed("stale".into())));
    assert!(matches!(state, EngineState::Starting { generation: 2, .. }));
}

#[test]
fn current_start_failure_transitions_to_failed() {
    let mut state: State = EngineState::Starting { generation: 3, cancel: 1 };
    assert!(set_state_failed_if_starting(&mut state, 3, EngineError::SpawnFailed("current".into())));
    assert!(matches!(&state, EngineState::Failed(EngineError::SpawnFailed(message)) if message == "current"));
}

#[test]
fn recovery_attempt_refreshes_cancel_channel_for_current_generation() {
    let mut state: State = EngineState::Starting { generation: 4, cancel: 10 };
    assert!(replace_start_cancel_if_starting(&mut state, 4, 11));
    assert!(matches!(state, EngineState::Starting { generation: 4, cancel: 11 }));
    assert!(is_state_starting_generation(&state, 4));
}

#[test]
fn stale_recovery_attempt_cannot_replace_cancel_channel() {
    let mut state: State = EngineState::Starting { generation: 5, cancel: 10 };
    assert!(!replace_start_cancel_if_starting(&mut state, 4, 11));
    assert!(is_state_starting_generation(&state, 5));
    assert!(matches!(state, EngineState::Starting { generation: 5, cancel: 10 }));
}

#[test]
fn start_admission_and_settlement() {
    let mut state: State = EngineState::Idle;
    assert!(begin_start(&mut state, 1, 7).is_ok());
    assert!(matches!(begin_start(&mut state, 2, 8), Err(EngineError::AlreadyRunning)));
    assert!(!set_state_running_if_starting(&mut state, 2, 100, "stale"));
    assert!(set_state_running_if_starting(&mut state, 1, 100, "handle"));
    assert!(matches!(state, EngineState::Running { pid: 100, handle: "handle" }));
    assert!(!set_state_starting_if_running_pid(&mut state, 101, 2, 9));
    assert!(set_state_starting_if_running_pid(&mut state, 100, 2, 9));
    assert!(is_state_starting_generation(&state, 2));
}

#[test]
fn crash_of_another_process_changes_nothing() {
    let mut state: State = EngineState::Running { pid: 5, handle: "h" };
    assert!(!set_state_failed_if_running_pid(&mut state, 6, EngineError::NotRunning));
    assert!(set_state_failed_if_running_pid(&mut state, 5, EngineError::NotRunning));
    assert!(matches!(state, EngineState::Failed(EngineError::NotRunning)));
}

#[test]
fn stop_walks_every_state_to_a_defined_end() {
    let mut idle: State = EngineState::Idle;
    assert!(matches!(begin_stop(&mut idle), StopAction::AlreadyStopped));
    assert!(matches!(idle, EngineState::Idle));

    let mut starting: State = EngineState::Starting { generation: 1, cancel: 3 };
    assert!(matches!(begin_stop(&mut starting), StopAction::CancelStart(3)));
    assert!(matches!(starting, EngineState::Idle));

    let mut running: State = EngineState::Running { pid: 1, handle: "p" };
    assert!(matches!(begin_stop(&mut running), StopAction::Terminate("p")));
    assert!(matches!(running, EngineState::Stopping));
    assert!(matches!(begin_stop(&mut running), StopAction::InProgress));

    finish_stop(&mut running, Err(EngineError::IoError("kill failed".into())));
    assert!(matches!(running, EngineState::Failed(EngineError::IoError(_))));
    finish_stop(&mut running, Ok(()));
    assert!(matches!(running, EngineState::Idle));
}

#[test]
fn start_is_confirmed_only_for_live_exact_configuration() {
    assert!(start_is_confirmed(true, 3, "abcd", 3, "abcd"));
    assert!(!start_is_confirmed(false, 3, "abcd", 3, "abcd"));
    assert!(!start_is_confirmed(true, 2, "abcd", 3, "abcd"));
    assert!(!start_is_confirmed(true, 3, "abce", 3, "abcd"));
}

#[test]
fn g03_linux_qnum_arg_addition() {
    let linux_args = linux_engine_args(&vec!["--dpi-desync=fake".to_string()], 200);
    assert!(linux_args.contains(&"--qnum=200".to_string()));
}

#[test]
fn h01_initial_engine_status_is_stopped() {
    let state: State = EngineState::Idle;
    assert!(matches!(state, EngineState::Idle));
    assert_eq!(EngineStatus::Stopped, EngineStatus::Stopped);
}
