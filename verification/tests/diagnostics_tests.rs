use vane_core::diagnostics::{
    events_to_drop, is_diagnostics_export_name, local_consistency_snapshot, overall_health, probe_result,
    requested_probe_targets, storage_health, DiagnosticEventCode, DiagnosticEventStore, DiagnosticRedactor,
    DpiBypassAssessment, HealthState, PrivacyScanner, DIAGNOSTIC_SCHEMA_VERSION,
};

#[test]
fn group_b01_diagnostic_redactor_strips_sensitive_data() {
    let raw_text = "Failed connecting to 192.168.1.100 with password=secret_pass123 in C:\\Users\\Administrator\\AppData\\Local";
    let redactor = DiagnosticRedactor::new().expect("redaction patterns compile");
    let sanitized = redactor.sanitize_text(raw_text);

    assert!(!sanitized.contains("192.168.1.100"));
    assert!(!sanitized.contains("secret_pass123"));
    assert!(!sanitized.contains("Administrator"));
    assert!(sanitized.contains("[REDACTED_IP]"));
    assert!(sanitized.contains("[REDACTED_SECRET]"));
    assert!(sanitized.contains("[REDACTED_PATH]"));
}

#[test]
fn group_d01_subsystem_health_combination_logic() {
    let h1 = HealthState::Healthy;
    let h2 = HealthState::Degraded;
    let h3 = HealthState::Unhealthy;

    assert_eq!(h1.combine(h2), HealthState::Degraded);
    assert_eq!(h2.combine(h3), HealthState::Unhealthy);
    assert_eq!(h1.combine(h1), HealthState::Healthy);
}

#[test]
fn redactor_leaves_plain_text_and_empty_text_alone() {
    let redactor = DiagnosticRedactor::new().unwrap();
    assert_eq!(redactor.sanitize_text(""), "");
    assert_eq!(redactor.sanitize_text("engine started"), "engine started");
    assert_eq!(redactor.sanitize_text("token: abc123"), "token=[REDACTED_SECRET]");
    assert_eq!(redactor.sanitize_text("see /home/user/file"), "see [REDACTED_PATH]");
}

#[test]
fn domain_and_cli_lists_are_summarised() {
    let domains = vec!["a.com".to_string(), "b.com".to_string()];
    assert_eq!(DiagnosticRedactor::sanitize_domain_list(&domains), "Count: 2");
    assert_eq!(DiagnosticRedactor::sanitize_cli_args(&domains), "[REDACTED_CLI_ARGS]");
}

#[test]
fn combine_is_commutative_and_unknown_ranks_below_degraded() {
    let all = [HealthState::Healthy, HealthState::Degraded, HealthState::Unhealthy, HealthState::Unknown];
    for a in all {
        for b in all {
            assert_eq!(a.combine(b), b.combine(a));
        }
        assert_eq!(HealthState::Healthy.combine(a), a);
        assert_eq!(HealthState::Unhealthy.combine(a), HealthState::Unhealthy);
    }
    assert_eq!(HealthState::Unknown.combine(HealthState::Degraded), HealthState::Degraded);
    assert_eq!(HealthState::Unknown.combine(HealthState::Healthy), HealthState::Unknown);
}

#[test]
fn local_snapshot_reflects_storage_probe() {
    let ok = local_consistency_snapshot(true, 42);
    assert_eq!(ok.overall, HealthState::Healthy);
    assert_eq!(ok.subsystems.len(), 1);
    assert_eq!(ok.subsystems[0].name, "App Data Directory");
    assert_eq!(ok.timestamp_ms, 42);
    let bad = local_consistency_snapshot(false, 7);
    assert_eq!(bad.overall, HealthState::Degraded);
    assert_eq!(bad.subsystems[0].message, "App data directory not created yet");
    let subsystems = vec![storage_health(true, 1), storage_health(false, 1)];
    assert_eq!(overall_health(&subsystems), HealthState::Degraded);
}

#[test]
fn event_codes_have_stable_names() {
    assert_eq!(DiagnosticEventCode::EngStartInit.as_str(), "ENG_START_INIT");
    assert_eq!(DiagnosticEventCode::PatRollbackTriggered.as_str(), "PAT_ROLLBACK_TRIGGERED");
    assert_eq!(DiagnosticEventCode::HealthCheckTraffic.as_str(), "HEALTH_CHECK_TRAFFIC");
}

#[test]
fn event_store_keeps_the_newest_events_and_counts_drops() {
    let mut store: DiagnosticEventStore<i64> = DiagnosticEventStore::new(5);
    for i in 0..10 {
        store.push(i);
    }
    let events = store.get_events(None);
    assert_eq!(events.len(), 5);
    assert_eq!(store.dropped_count(), 5);
    assert_eq!(*events.last().unwrap(), 9);
    assert_eq!(events, vec![5, 6, 7, 8, 9]);
    assert_eq!(store.get_events(Some(2)), vec![8, 9]);
    store.clear();
    assert_eq!(store.len(), 0);
    assert_eq!(store.dropped_count(), 0);
}

#[test]
fn event_store_of_capacity_zero_keeps_the_last_event() {
    let mut store: DiagnosticEventStore<u8> = DiagnosticEventStore::new(0);
    store.push(1);
    store.push(2);
    assert_eq!(store.get_events(Some(10)), vec![2]);
    assert_eq!(store.dropped_count(), 2);
}

#[test]
fn probe_results_never_confirm_bypass() {
    let ok = probe_result("youtube".to_string(), Some((301, 120)));
    assert!(ok.success);
    assert_eq!(ok.status_code, Some(301));
    let denied = probe_result("x".to_string(), Some((403, 80)));
    assert!(!denied.success);
    let failed = probe_result("discord".to_string(), None);
    assert!(!failed.success);
    assert_eq!(failed.error.as_deref(), Some("HTTPS Probe Failed"));
    assert_ne!(DpiBypassAssessment::Inconclusive, DpiBypassAssessment::Unknown);
    assert_eq!(requested_probe_targets(&vec![]), vec!["youtube", "discord", "x"]);
    assert_eq!(requested_probe_targets(&vec!["x".to_string()]), vec!["x"]);
}

#[test]
fn privacy_scan_rejects_secrets_and_network_identifiers() {
    let scanner = PrivacyScanner::new().expect("scan patterns compile");
    assert!(scanner.scan(br#"{"schemaVersion":"1.0","events":[]}"#).is_ok());
    assert_eq!(
        scanner.scan(br#"{"note":"PASSWORD=x"}"#),
        Err("Diagnostics privacy scan rejected forbidden pattern: password=".to_string())
    );
    assert_eq!(
        scanner.scan(br#"{"ip":"10.0.0.1"}"#),
        Err("Diagnostics privacy scan rejected network identifier".to_string())
    );
    assert!(scanner.scan(br#"{"host":"www.example.com"}"#).is_err());
    assert!(scanner.scan(br#"{"host":"example.com"}"#).is_ok());
    let too_large = vec![b'a'; 5 * 1024 * 1024 + 1];
    assert_eq!(
        scanner.scan(&too_large),
        Err("Serialized diagnostics bundle exceeds the 5 MiB limit".to_string())
    );
}

#[test]
fn export_names_and_truncation_steps() {
    assert!(is_diagnostics_export_name("report.vane-diag.json"));
    assert!(!is_diagnostics_export_name("report.json"));
    assert_eq!(events_to_drop(1), 1);
    assert_eq!(events_to_drop(7), 1);
    assert_eq!(events_to_drop(100), 25);
    assert_eq!(DIAGNOSTIC_SCHEMA_VERSION, "1.0");
}

#[test]
fn group_c01_event_store_capacity_ring_buffer_and_drop_counter() {
    let mut store: DiagnosticEventStore<i64> = DiagnosticEventStore::new(5);
    for i in 0..10 {
        store.push(i);
    }
    let events = store.get_events(None);
    assert_eq!(events.len(), 5);
    assert_eq!(store.dropped_count(), 5);
    assert_eq!(events.last(), Some(&9));
}
