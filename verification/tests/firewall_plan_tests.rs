use std::collections::VecDeque;
use std::sync::atomic::{AtomicBool, AtomicUsize, Ordering};
use std::sync::{Arc, Mutex};
use vane_core::callback_log::CallbackLog;
use vane_core::dns_config::{DnsConfigFingerprint, DnsConfigRevision};
use vane_core::kill_switch::{metadata_for, recover_orphan_rules};
use vane_core::firewall::{
    apply_plan_with_metadata, build_kill_switch_plan, command_for, disable_plan_verified, execute_firewall_plan,
    inverse, rebuild_owned_kill_switch_plan, remove_kill_switch_plan, FirewallCommandOutput, FirewallCommandRunError,
    FirewallCommandRunner, FirewallCommandSpec, FirewallExecutionError, FirewallExecutor, FirewallPlatform,
    FirewallStep, KillSwitchPlan, SystemFirewallExecutor,
};

fn plan(platform: FirewallPlatform) -> KillSwitchPlan {
    build_kill_switch_plan(
        "installation",
        "instance",
        DnsConfigRevision(7),
        &DnsConfigFingerprint("fingerprint".into()),
        platform,
        true,
    )
}

fn output(code: Option<i32>, stderr: &str) -> Result<FirewallCommandOutput, FirewallCommandRunError> {
    Ok(FirewallCommandOutput { exit_code: code, stdout: Vec::new(), stderr: stderr.as_bytes().to_vec() })
}

struct FakeRunner {
    outcomes: Mutex<VecDeque<Result<FirewallCommandOutput, FirewallCommandRunError>>>,
    commands: Mutex<Vec<FirewallCommandSpec>>,
}

impl FakeRunner {
    fn new(outcomes: Vec<Result<FirewallCommandOutput, FirewallCommandRunError>>) -> Self {
        Self { outcomes: Mutex::new(outcomes.into()), commands: Mutex::new(Vec::new()) }
    }
    fn commands(&self) -> Vec<FirewallCommandSpec> {
        self.commands.lock().unwrap().clone()
    }
}

struct SharedRunner(Arc<FakeRunner>);

impl FirewallCommandRunner for SharedRunner {
    fn run(&self, command: &FirewallCommandSpec) -> Result<FirewallCommandOutput, FirewallCommandRunError> {
        self.0.commands.lock().unwrap().push(command.clone());
        self.0.outcomes.lock().unwrap().pop_front().expect("fake outcome")
    }
}

struct SequenceExecutor {
    outcomes: VecDeque<Result<(), FirewallExecutionError>>,
    steps: Vec<FirewallStep>,
}

impl SequenceExecutor {
    fn new(outcomes: Vec<Result<(), FirewallExecutionError>>) -> Self {
        Self { outcomes: outcomes.into(), steps: Vec::new() }
    }
}

impl FirewallExecutor for SequenceExecutor {
    fn execute(&mut self, step: &FirewallStep) -> Result<(), FirewallExecutionError> {
        self.steps.push(step.clone());
        self.outcomes.pop_front().unwrap_or(Ok(()))
    }
}

fn failed(label: &str) -> Result<(), FirewallExecutionError> {
    Err(FirewallExecutionError::CommandFailed(label.into()))
}

fn with_runner(platform: FirewallPlatform, runner: Arc<FakeRunner>) -> SystemFirewallExecutor<SharedRunner> {
    SystemFirewallExecutor::new(platform, SharedRunner(runner))
}

#[test]
fn rollback_rebuilds_windows_plan_from_windows_ownership() {
    let original = plan(FirewallPlatform::Windows);
    assert_eq!(rebuild_owned_kill_switch_plan(&original.ownership).platform, FirewallPlatform::Windows);
}

#[test]
fn rollback_rebuilds_linux_plan_from_linux_ownership() {
    let original = plan(FirewallPlatform::Linux);
    assert_eq!(rebuild_owned_kill_switch_plan(&original.ownership).platform, FirewallPlatform::Linux);
}

#[test]
fn rollback_never_hardcodes_windows_platform() {
    let original = plan(FirewallPlatform::Linux);
    assert_eq!(rebuild_owned_kill_switch_plan(&original.ownership).ownership.platform, FirewallPlatform::Linux);
}

#[test]
fn windows_add_uses_netsh_add_rule() {
    let command = command_for(FirewallPlatform::Windows, &plan(FirewallPlatform::Windows).apply_steps[0]).unwrap();
    assert_eq!(command.program, "netsh");
    assert_eq!(&command.args[..4], ["advfirewall", "firewall", "add", "rule"]);
}

#[test]
fn windows_remove_uses_netsh_delete_rule() {
    let command = command_for(FirewallPlatform::Windows, &plan(FirewallPlatform::Windows).remove_steps[0]).unwrap();
    assert_eq!(command.program, "netsh");
    assert_eq!(&command.args[..4], ["advfirewall", "firewall", "delete", "rule"]);
}

#[test]
fn windows_remove_never_uses_remove_verb() {
    let command = command_for(FirewallPlatform::Windows, &plan(FirewallPlatform::Windows).remove_steps[0]).unwrap();
    assert!(!command.args.iter().any(|argument| argument == "remove"));
}

#[test]
fn linux_add_uses_iptables_append() {
    let command = command_for(FirewallPlatform::Linux, &plan(FirewallPlatform::Linux).apply_steps[0]).unwrap();
    assert_eq!(command.program, "iptables");
    assert_eq!(&command.args[..2], ["-A", "OUTPUT"]);
}

#[test]
fn linux_remove_uses_iptables_delete() {
    let command = command_for(FirewallPlatform::Linux, &plan(FirewallPlatform::Linux).remove_steps[0]).unwrap();
    assert_eq!(command.program, "iptables");
    assert_eq!(&command.args[..2], ["-D", "OUTPUT"]);
}

#[test]
fn windows_remove_non_zero_exit_is_error() {
    let runner = Arc::new(FakeRunner::new(vec![output(Some(1), "denied")]));
    let mut executor = with_runner(FirewallPlatform::Windows, runner);
    assert!(executor.execute(&plan(FirewallPlatform::Windows).remove_steps[0]).is_err());
}

#[test]
fn linux_add_non_zero_exit_is_error() {
    let runner = Arc::new(FakeRunner::new(vec![output(Some(1), "denied")]));
    let mut executor = with_runner(FirewallPlatform::Linux, runner);
    assert!(executor.execute(&plan(FirewallPlatform::Linux).apply_steps[0]).is_err());
}

#[test]
fn linux_remove_non_zero_exit_is_error() {
    let runner = Arc::new(FakeRunner::new(vec![output(Some(1), "denied")]));
    let mut executor = with_runner(FirewallPlatform::Linux, runner);
    assert!(executor.execute(&plan(FirewallPlatform::Linux).remove_steps[0]).is_err());
}

#[test]
fn command_spawn_failure_is_error() {
    let runner = Arc::new(FakeRunner::new(vec![Err(FirewallCommandRunError::Io("spawn".into()))]));
    let mut executor = with_runner(FirewallPlatform::Windows, runner);
    assert!(executor.execute(&plan(FirewallPlatform::Windows).apply_steps[0]).is_err());
}

#[test]
fn signal_terminated_command_is_error() {
    let runner = Arc::new(FakeRunner::new(vec![output(None, "signal")]));
    let mut executor = with_runner(FirewallPlatform::Linux, runner);
    assert!(executor.execute(&plan(FirewallPlatform::Linux).apply_steps[0]).is_err());
}

#[test]
fn successful_command_preserves_success_behavior() {
    let runner = Arc::new(FakeRunner::new(vec![output(Some(0), "warning")]));
    let mut executor = with_runner(FirewallPlatform::Linux, runner);
    assert!(executor.execute(&plan(FirewallPlatform::Linux).apply_steps[0]).is_ok());
}

#[test]
fn linux_command_uses_planned_port() {
    let runner = Arc::new(FakeRunner::new(vec![output(Some(0), "")]));
    let mut executor = with_runner(FirewallPlatform::Linux, runner.clone());
    let mut step = plan(FirewallPlatform::Linux).apply_steps[0].clone();
    if let FirewallStep::AddRule(spec) = &mut step {
        spec.port = 5353;
    }
    executor.execute(&step).unwrap();
    assert!(runner.commands()[0].args.iter().any(|arg| arg == "5353"));
}

#[test]
fn partial_apply_rolls_back_in_reverse_order() {
    let mut executor = SequenceExecutor::new(vec![Ok(()), Ok(()), failed("apply"), Ok(()), Ok(())]);
    assert!(execute_firewall_plan(&mut executor, &plan(FirewallPlatform::Windows)).is_err());
    let steps = &executor.steps;
    assert_eq!(steps[3], inverse(&steps[1]));
    assert_eq!(steps[4], inverse(&steps[0]));
}

#[test]
fn partial_apply_attempts_all_cleanup_steps() {
    let mut executor =
        SequenceExecutor::new(vec![Ok(()), Ok(()), failed("apply"), failed("undo1"), failed("undo2")]);
    assert!(execute_firewall_plan(&mut executor, &plan(FirewallPlatform::Windows)).is_err());
    assert_eq!(executor.steps.len(), 5);
}

#[test]
fn partial_rollback_failure_is_reported_with_original_error() {
    let mut executor = SequenceExecutor::new(vec![Ok(()), failed("apply"), failed("rollback")]);
    let error = execute_firewall_plan(&mut executor, &plan(FirewallPlatform::Windows)).unwrap_err();
    assert!(
        matches!(error, FirewallExecutionError::PartialApplyRollbackFailed { apply_reason, rollback_failures, .. } if apply_reason.contains("apply") && rollback_failures[0].contains("rollback"))
    );
}

#[test]
fn remove_plan_returns_error_when_any_step_fails() {
    let mut executor = SequenceExecutor::new(vec![failed("remove"), Ok(()), Ok(()), Ok(())]);
    assert!(remove_kill_switch_plan(&mut executor, &plan(FirewallPlatform::Windows)).is_err());
}

#[test]
fn remove_plan_attempts_remaining_steps_after_failure() {
    let firewall_plan = plan(FirewallPlatform::Windows);
    let mut executor = SequenceExecutor::new(vec![failed("remove"), Ok(()), Ok(()), Ok(())]);
    let _ = remove_kill_switch_plan(&mut executor, &firewall_plan);
    assert_eq!(executor.steps.len(), firewall_plan.remove_steps.len());
}

#[test]
fn remove_plan_success_requires_all_steps_to_succeed() {
    assert!(remove_kill_switch_plan(&mut SequenceExecutor::new(vec![]), &plan(FirewallPlatform::Windows)).is_ok());
}

#[test]
fn metadata_save_failure_triggers_firewall_cleanup() {
    let firewall_plan = plan(FirewallPlatform::Windows);
    let mut executor = SequenceExecutor::new((0..8).map(|_| Ok(())).collect());
    assert!(apply_plan_with_metadata(&mut executor, &firewall_plan, |_| Err("metadata".into()), &mut CallbackLog::new()).is_err());
    assert_eq!(executor.steps.len(), 8);
}

#[test]
fn metadata_save_failure_does_not_commit_applied_state() {
    let committed = AtomicBool::new(false);
    let result = apply_plan_with_metadata(
        &mut SequenceExecutor::new((0..8).map(|_| Ok(())).collect()),
        &plan(FirewallPlatform::Windows),
        |_| Err("metadata".into()),
        &mut CallbackLog::new(),
    );
    if result.is_ok() {
        committed.store(true, Ordering::SeqCst);
    }
    assert!(!committed.load(Ordering::SeqCst));
}

#[test]
fn metadata_and_cleanup_failure_are_both_reported() {
    let mut executor =
        SequenceExecutor::new(vec![Ok(()), Ok(()), Ok(()), Ok(()), failed("cleanup"), Ok(()), Ok(()), Ok(())]);
    let error = apply_plan_with_metadata(&mut executor, &plan(FirewallPlatform::Windows), |_| Err("metadata".into()), &mut CallbackLog::new())
        .unwrap_err()
        .message();
    assert!(error.contains("metadata") && error.contains("cleanup"));
}

#[test]
fn disable_remove_failure_preserves_metadata() {
    let clears = AtomicUsize::new(0);
    let mut executor = SequenceExecutor::new(vec![failed("remove"), Ok(()), Ok(()), Ok(())]);
    let _ = disable_plan_verified(
        &mut executor,
        &plan(FirewallPlatform::Windows),
        || {
            clears.fetch_add(1, Ordering::SeqCst);
            Ok(())
        },
        || {},
        &mut CallbackLog::new(),
    );
    assert_eq!(clears.load(Ordering::SeqCst), 0);
}

#[test]
fn disable_remove_failure_does_not_clear_applied_state() {
    let cleared = AtomicBool::new(false);
    let mut executor = SequenceExecutor::new(vec![failed("remove"), Ok(()), Ok(()), Ok(())]);
    let _ = disable_plan_verified(&mut executor, &plan(FirewallPlatform::Windows), || Ok(()), || {
        cleared.store(true, Ordering::SeqCst)
    }, &mut CallbackLog::new());
    assert!(!cleared.load(Ordering::SeqCst));
}

#[test]
fn disable_metadata_clear_failure_is_not_reported_as_disabled() {
    let cleared = AtomicBool::new(false);
    let result = disable_plan_verified(
        &mut SequenceExecutor::new(vec![]),
        &plan(FirewallPlatform::Windows),
        || Err("clear".into()),
        || cleared.store(true, Ordering::SeqCst),
        &mut CallbackLog::new(),
    );
    assert!(result.is_err() && !cleared.load(Ordering::SeqCst));
}

#[test]
fn successful_disable_clears_metadata_and_applied_state() {
    let metadata = AtomicBool::new(false);
    let applied = AtomicBool::new(false);
    disable_plan_verified(
        &mut SequenceExecutor::new(vec![]),
        &plan(FirewallPlatform::Windows),
        || {
            metadata.store(true, Ordering::SeqCst);
            Ok(())
        },
        || applied.store(true, Ordering::SeqCst),
        &mut CallbackLog::new(),
    )
    .unwrap();
    assert!(metadata.load(Ordering::SeqCst) && applied.load(Ordering::SeqCst));
}

#[test]
fn rollback_without_kill_switch_does_not_touch_firewall() {
    let mut executor = SequenceExecutor::new(vec![]);
    let disabled = build_kill_switch_plan(
        "i",
        "x",
        DnsConfigRevision(1),
        &DnsConfigFingerprint("f".into()),
        FirewallPlatform::Linux,
        false,
    );
    assert!(execute_firewall_plan(&mut executor, &disabled).is_ok());
    assert!(executor.steps.is_empty());
}

#[test]
fn rollback_firewall_apply_failure_is_not_success() {
    let mut executor = SequenceExecutor::new(vec![failed("firewall apply")]);
    assert!(apply_plan_with_metadata(&mut executor, &plan(FirewallPlatform::Linux), |_| Ok(()), &mut CallbackLog::new()).is_err());
}

#[test]
fn rollback_metadata_save_failure_is_not_success() {
    let mut executor = SequenceExecutor::new((0..8).map(|_| Ok(())).collect());
    assert!(
        apply_plan_with_metadata(&mut executor, &plan(FirewallPlatform::Linux), |_| Err("metadata save".into()), &mut CallbackLog::new()).is_err()
    );
}

#[test]
fn rollback_success_requires_forwarder_firewall_and_metadata() {
    let forwarder_ready = true;
    let mut executor = SequenceExecutor::new((0..4).map(|_| Ok(())).collect());
    let firewall_and_metadata = apply_plan_with_metadata(&mut executor, &plan(FirewallPlatform::Linux), |_| Ok(()), &mut CallbackLog::new());
    assert!(forwarder_ready && firewall_and_metadata.is_ok());
}

#[test]
fn reproducer_rbr_10_kill_switch_rule_names_carry_ownership() {
    let plan = build_kill_switch_plan(
        "inst-12345678",
        "instance-87654321",
        DnsConfigRevision::new(10),
        &DnsConfigFingerprint("fp123".into()),
        FirewallPlatform::Windows,
        true,
    );
    assert_eq!(plan.ownership.rule_ids[0], "Vane-DNS-inst-123-instance-r10-AllowUDP");
}

struct CountingRunner {
    commands: Arc<Mutex<Vec<FirewallCommandSpec>>>,
    exit_code: i32,
}

impl FirewallCommandRunner for CountingRunner {
    fn run(&self, command: &FirewallCommandSpec) -> Result<FirewallCommandOutput, FirewallCommandRunError> {
        self.commands.lock().unwrap().push(command.clone());
        Ok(FirewallCommandOutput { exit_code: Some(self.exit_code), stdout: Vec::new(), stderr: b"denied".to_vec() })
    }
}

#[test]
fn orphan_rules_of_this_installation_are_removed_then_forgotten() {
    let owned = plan(FirewallPlatform::Linux);
    let metadata = metadata_for(&owned.ownership, 100);
    let commands = Arc::new(Mutex::new(Vec::new()));
    let mut executor =
        SystemFirewallExecutor::new(FirewallPlatform::Linux, CountingRunner { commands: Arc::clone(&commands), exit_code: 0 });
    let cleared = AtomicBool::new(false);
    let result = recover_orphan_rules(&mut executor, &metadata, "installation", || {
        cleared.store(true, Ordering::SeqCst);
        Ok(())
    });
    assert_eq!(result, Ok(true));
    assert!(cleared.load(Ordering::SeqCst));
    let expected: Vec<FirewallCommandSpec> =
        owned.remove_steps.iter().map(|step| command_for(FirewallPlatform::Linux, step).unwrap()).collect();
    assert_eq!(*commands.lock().unwrap(), expected);
}

#[test]
fn orphan_cleanup_failure_keeps_the_saved_ownership() {
    let owned = plan(FirewallPlatform::Linux);
    let metadata = metadata_for(&owned.ownership, 100);
    let commands = Arc::new(Mutex::new(Vec::new()));
    let mut executor =
        SystemFirewallExecutor::new(FirewallPlatform::Linux, CountingRunner { commands: Arc::clone(&commands), exit_code: 1 });
    let cleared = AtomicBool::new(false);
    let result = recover_orphan_rules(&mut executor, &metadata, "installation", || {
        cleared.store(true, Ordering::SeqCst);
        Ok(())
    });
    assert!(result.unwrap_err().starts_with("Orphan KillSwitch cleanup failed: Firewall removal failed: "));
    assert!(!cleared.load(Ordering::SeqCst));
    assert_eq!(commands.lock().unwrap().len(), 4);
}

#[test]
fn orphan_rules_of_another_installation_are_left_alone() {
    let owned = plan(FirewallPlatform::Linux);
    let metadata = metadata_for(&owned.ownership, 100);
    let commands = Arc::new(Mutex::new(Vec::new()));
    let mut executor =
        SystemFirewallExecutor::new(FirewallPlatform::Linux, CountingRunner { commands: Arc::clone(&commands), exit_code: 0 });
    let result = recover_orphan_rules(&mut executor, &metadata, "someone-else", || Ok(()));
    assert_eq!(
        result,
        Err("KillSwitch metadata belongs to a foreign installation; cleanup was not attempted.".to_string())
    );
    assert!(commands.lock().unwrap().is_empty());
    let mut old_schema = metadata_for(&owned.ownership, 100);
    old_schema.schema_version = 1;
    assert_eq!(
        recover_orphan_rules(&mut executor, &old_schema, "installation", || Ok(())),
        Err("Unsupported KillSwitch metadata schema 1; platform cannot be safely inferred.".to_string())
    );
}
