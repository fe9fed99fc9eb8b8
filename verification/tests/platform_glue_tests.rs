use vane_core::digest::verify_binary_digest;
use vane_core::engine_log::{format_engine_log_line, should_flush_log_batch};
use vane_core::preset_file::check_preset_export;
use vane_core::blocklist::{
    accept_blocklist, blocklist_chunk_fits, blocklist_refresh_due, check_blocklist_head, distinct_count,
    BlocklistRejection, MAX_BLOCKLIST_BYTES, MIN_BLOCKLIST_DOMAINS,
};
use vane_core::dns_manager::{
    apply_adapter_outcome, apply_steps, check_dns_addresses, finish_dns_change, finish_linux_dns_apply,
    finish_linux_dns_reset, netsh_dns_command, nmcli_dns_command, no_adapter_result, restore_adapter_outcome,
    restore_steps, unreported_apply_errors, unverified_restore_errors, NetshDnsStep, NetshRun, NetworkAdapter,
};
use vane_core::dns_query::fallback_resolver;
use vane_core::engine_state::{watch_engine_process, EngineState, EngineStatus, ProcessWatchStep};
use vane_core::diagnostics::{add_runtime_health, local_consistency_snapshot, HealthState};
use vane_core::preset::EngineError;
use vane_core::process_control::{check_kill_switch_forwarder, linux_engine_args};

fn adapter(name: &str, primary: Option<&str>) -> NetworkAdapter {
    NetworkAdapter {
        name: name.to_string(),
        current_primary_dns: primary.map(str::to_string),
        current_secondary_dns: None,
        is_dhcp: false,
    }
}

#[test]
fn fallback_resolver_is_the_first_primary_that_is_not_loopback() {
    assert_eq!(fallback_resolver(&vec![]), "1.1.1.1");
    assert_eq!(fallback_resolver(&vec![adapter("a", None), adapter("b", Some("9.9.9.9"))]), "9.9.9.9");
    assert_eq!(fallback_resolver(&vec![adapter("a", Some("127.0.0.1")), adapter("b", Some("9.9.9.9"))]), "1.1.1.1");
    assert_eq!(fallback_resolver(&vec![adapter("a", Some("localhost"))]), "1.1.1.1");
    assert_eq!(fallback_resolver(&vec![adapter("a", Some(""))]), "1.1.1.1");
}

#[test]
fn nmcli_commands_point_at_servers_or_back_to_dhcp() {
    assert_eq!(
        nmcli_dns_command("Wired 1", Some(("127.0.0.1", "127.0.0.1"))),
        vec!["con", "mod", "Wired 1", "ipv4.dns", "127.0.0.1 127.0.0.1", "ipv4.ignore-auto-dns", "yes"]
    );
    assert_eq!(
        nmcli_dns_command("Wired 1", None),
        vec!["con", "mod", "Wired 1", "ipv4.dns", "", "ipv4.ignore-auto-dns", "no"]
    );
}

#[test]
fn linux_dns_apply_succeeds_when_any_connection_changed() {
    let none = finish_linux_dns_apply(0, vec![], None);
    assert!(!none.success);
    assert_eq!(none.error.as_deref(), Some("nmcli komutu bulunamadı veya aktif ağ bağlantısı yok."));
    let partial = finish_linux_dns_apply(2, vec!["a".to_string()], Some("b".to_string()));
    assert!(partial.success);
    assert_eq!(partial.error.as_deref(), Some("b adaptörü için nmcli kuralı uygulanamadı."));
    let failed = finish_linux_dns_apply(1, vec![], Some("a".to_string()));
    assert!(!failed.success);
    let reset = finish_linux_dns_reset(vec![]);
    assert!(!reset.success);
    assert_eq!(reset.error, None);
    assert!(finish_linux_dns_reset(vec!["a".to_string()]).success);
}

#[test]
fn crash_watcher_records_the_crash_of_its_own_process_only() {
    let mut state: EngineState<u32, &str> = EngineState::Running { pid: 42, handle: "h" };
    assert_eq!(watch_engine_process(&mut state, 42, true), ProcessWatchStep::KeepWatching);
    assert!(matches!(state, EngineState::Running { pid: 42, .. }));
    assert_eq!(watch_engine_process(&mut state, 7, false), ProcessWatchStep::Stop);
    match watch_engine_process(&mut state, 42, false) {
        ProcessWatchStep::Crashed { message, code } => {
            assert_eq!(message, "Engine process exited unexpectedly. Automatic restart is disabled.");
            assert_eq!(code, "ENGINE_CRASH_OBSERVED");
        },
        other => panic!("unexpected step {other:?}"),
    }
    assert!(matches!(
        state,
        EngineState::Failed(EngineError::IoError(ref m))
            if m == "Owned engine process exited unexpectedly; explicit restart required"
    ));
    assert_eq!(watch_engine_process(&mut state, 42, false), ProcessWatchStep::Stop);
}

#[test]
fn kill_switch_needs_the_forwarder() {
    assert_eq!(
        check_kill_switch_forwarder(true, false),
        Err(EngineError::ConfigParseError(
            "DNS Kill Switch requires the encrypted local DNS forwarder to be running.".to_string()
        ))
    );
    assert_eq!(check_kill_switch_forwarder(true, true), Ok(()));
    assert_eq!(check_kill_switch_forwarder(false, false), Ok(()));
}

#[test]
fn linux_engine_gets_its_filter_queue_first() {
    let args = vec!["--qnum=5".to_string(), "--dpi-desync=fake".to_string(), "--qnum=6".to_string()];
    assert_eq!(linux_engine_args(&args, 200), vec!["--qnum=200".to_string(), "--dpi-desync=fake".to_string()]);
    assert_eq!(linux_engine_args(&vec![], 0), vec!["--qnum=0".to_string()]);
}

#[test]
fn cached_block_list_is_refreshed_after_a_day() {
    assert!(blocklist_refresh_due(None));
    assert!(!blocklist_refresh_due(Some(86_400)));
    assert!(blocklist_refresh_due(Some(86_401)));
}

#[test]
fn block_list_download_head_is_checked() {
    assert_eq!(check_blocklist_head(404, Some("text/plain"), None), Err(BlocklistRejection::HttpStatus(404)));
    assert_eq!(check_blocklist_head(200, Some("text/html"), None), Err(BlocklistRejection::ContentType));
    assert_eq!(check_blocklist_head(200, None, None), Err(BlocklistRejection::ContentType));
    assert_eq!(
        check_blocklist_head(200, Some("text/plain; charset=utf-8"), Some(MAX_BLOCKLIST_BYTES + 1)),
        Err(BlocklistRejection::TooLarge)
    );
    assert_eq!(check_blocklist_head(200, Some("application/octet-stream"), Some(10)), Ok(()));
    assert!(blocklist_chunk_fits(0, MAX_BLOCKLIST_BYTES as usize));
    assert!(!blocklist_chunk_fits(1, MAX_BLOCKLIST_BYTES as usize));
}

#[test]
fn distinct_domains_are_counted_once() {
    let v: Vec<String> = ["b", "a", "b", "c", "a"].iter().map(|s| s.to_string()).collect();
    assert_eq!(distinct_count(&v), 3);
    assert_eq!(distinct_count(&vec![]), 0);
}

#[test]
fn short_block_lists_are_refused() {
    assert_eq!(accept_blocklist(None), Err(BlocklistRejection::NotText));
    let small = "0.0.0.0 ads.example\n0.0.0.0 ads.example\n";
    assert_eq!(accept_blocklist(Some(small)), Err(BlocklistRejection::TooFewDomains(1)));
    let mut big = String::new();
    for i in 0..MIN_BLOCKLIST_DOMAINS {
        big.push_str(&format!("0.0.0.0 host{i}.example\n"));
    }
    assert_eq!(accept_blocklist(Some(&big)).unwrap().len(), MIN_BLOCKLIST_DOMAINS);
}

#[test]
fn engine_lines_are_labelled_by_stream_and_content() {
    assert_eq!(format_engine_log_line("hello", false), "[MOTOR] hello");
    assert_eq!(
        format_engine_log_line("windivert opened", false),
        "[MOTOR] 🛡️ WinDivert sürücüsü paket filtresini başlattı: windivert opened"
    );
    assert_eq!(format_engine_log_line("oops", true), "[HATA] oops");
    assert_eq!(
        format_engine_log_line("file_open_test failed", true),
        "[HATA] ❌ Hostlist kural dosyası okunamadı: file_open_test failed"
    );
    assert_eq!(
        format_engine_log_line("Permission denied", true),
        "[HATA] 🛡️ Erişim reddedildi — Lütfen Vane'i Yönetici olarak çalıştırın! (Permission denied)"
    );
    let long = "x".repeat(2000);
    assert_eq!(format_engine_log_line(&long, false).chars().count(), "[MOTOR] ".len() + 1024);
    assert!(should_flush_log_batch(200, 0));
    assert!(should_flush_log_batch(0, 50));
    assert!(!should_flush_log_batch(199, 49));
}

#[test]
fn binary_digest_is_compared_ignoring_case() {
    let abc = "ba7816bf8f01cfea414140de5dae2223b00361a396177a9cb410ff61f20015ad";
    assert_eq!(verify_binary_digest(b"abc", abc), Ok(()));
    assert_eq!(verify_binary_digest(b"abc", &abc.to_uppercase()), Ok(()));
    assert_eq!(
        verify_binary_digest(b"abd", abc),
        Err(EngineError::IoError(format!(
            "Bütünlük İhlali: SHA-256 imzası uyuşmuyor! Beklenen: {abc}, Bulunan: {}",
            "a52d159f262b2c6ddb724a61840befc36eb30c88877a4030b65cbe86298449c9"
        )))
    );
}

#[test]
fn preset_exports_are_vane_json_objects() {
    assert_eq!(check_preset_export("/tmp/p.vane", "{\"id\":1}"), Ok(()));
    assert_eq!(check_preset_export("/tmp/p.VANE", "{}"), Ok(()));
    assert_eq!(
        check_preset_export("/tmp/p.json", "{}"),
        Err("Preset exports must use the .vane extension.".to_string())
    );
    assert_eq!(check_preset_export("", "{}"), Err("Preset exports must use the .vane extension.".to_string()));
    assert_eq!(
        check_preset_export("/tmp/p.vane", "[1]"),
        Err("Preset export must contain a JSON object.".to_string())
    );
    assert!(check_preset_export("/tmp/p.vane", "{").unwrap_err().starts_with("Preset export is not valid JSON: "));
    let big = format!("{{\"a\":\"{}\"}}", "x".repeat(1024 * 1024));
    assert_eq!(
        check_preset_export("/tmp/p.vane", &big),
        Err("Preset export exceeds the 1 MiB safety limit.".to_string())
    );
}

fn adapter_with(name: &str, primary: Option<&str>, secondary: Option<&str>, dhcp: bool) -> NetworkAdapter {
    NetworkAdapter {
        name: name.to_string(),
        current_primary_dns: primary.map(str::to_string),
        current_secondary_dns: secondary.map(str::to_string),
        is_dhcp: dhcp,
    }
}

#[test]
fn windows_dns_apply_needs_ipv4_servers_and_an_adapter() {
    assert!(check_dns_addresses("1.1.1.1", "1.0.0.1").is_none());
    let refused = check_dns_addresses("::1", "1.0.0.1").unwrap();
    assert!(!refused.success);
    assert_eq!(refused.error.as_deref(), Some("DNS addresses must be valid IPv4 addresses."));
    assert!(check_dns_addresses("1.1.1.1", "dns.google").is_some());
    let none = no_adapter_result();
    assert!(!none.success);
    assert_eq!(none.error.as_deref(), Some("Aktif ağ adaptörü bulunamadı."));
}

#[test]
fn netsh_commands_set_add_and_reset_servers() {
    assert_eq!(
        netsh_dns_command("Ethernet", &NetshDnsStep::SetStatic("1.1.1.1".to_string())),
        vec!["interface", "ip", "set", "dns", "Ethernet", "static", "1.1.1.1"]
    );
    assert_eq!(
        netsh_dns_command("Ethernet", &NetshDnsStep::AddSecondary("1.0.0.1".to_string())),
        vec!["interface", "ip", "add", "dns", "Ethernet", "1.0.0.1", "index=2"]
    );
    assert_eq!(netsh_dns_command("Wi-Fi", &NetshDnsStep::SetDhcp), vec!["interface", "ip", "set", "dns", "Wi-Fi", "dhcp"]);
    assert_eq!(apply_steps("1.1.1.1", "1.1.1.1"), vec![NetshDnsStep::SetStatic("1.1.1.1".to_string())]);
    assert_eq!(apply_steps("1.1.1.1", "1.0.0.1").len(), 2);
    assert_eq!(restore_steps(&adapter_with("a", Some("9.9.9.9"), None, true)), vec![NetshDnsStep::SetDhcp]);
    assert_eq!(
        restore_steps(&adapter_with("a", Some("9.9.9.9"), Some("149.112.112.112"), false)),
        vec![
            NetshDnsStep::SetStatic("9.9.9.9".to_string()),
            NetshDnsStep::AddSecondary("149.112.112.112".to_string())
        ]
    );
}

#[test]
fn adapter_failures_are_reported_with_the_tool_output() {
    assert_eq!(
        apply_adapter_outcome("Ethernet", &NetshRun::Failed(b"  Access denied.\r\n".to_vec()), None),
        Some("Adapter 'Ethernet' failed: Access denied.".to_string())
    );
    assert_eq!(
        apply_adapter_outcome("Ethernet", &NetshRun::Succeeded, Some(false)),
        Some("Secondary DNS could not be applied to 'Ethernet'.".to_string())
    );
    assert_eq!(apply_adapter_outcome("Ethernet", &NetshRun::Succeeded, Some(true)), None);
    assert_eq!(
        restore_adapter_outcome("Wi-Fi", &NetshRun::NotStarted("program not found ".to_string()), None),
        Some("DNS restore failed for 'Wi-Fi': program not found".to_string())
    );
    assert_eq!(
        restore_adapter_outcome("Wi-Fi", &NetshRun::Succeeded, Some(false)),
        Some("Secondary DNS restore failed for 'Wi-Fi'.".to_string())
    );
}

#[test]
fn unconfirmed_adapters_become_errors() {
    let adapters = vec![adapter_with("a", None, None, true), adapter_with("b", None, None, true)];
    let reported = vec![adapter_with("a", Some("1.1.1.1"), Some("1.0.0.1"), false), adapter_with("b", Some("8.8.8.8"), None, false)];
    assert_eq!(
        unreported_apply_errors(&adapters, &reported, "1.1.1.1", "1.0.0.1"),
        vec!["Windows did not report the expected DNS values for 'b'.".to_string()]
    );
    let expected = vec![adapter_with("a", None, None, true), adapter_with("b", Some("8.8.8.8"), None, false)];
    let current = vec![adapter_with("a", Some("192.168.1.1"), None, true), adapter_with("b", Some("8.8.4.4"), None, false)];
    assert_eq!(
        unverified_restore_errors(&expected, &current),
        vec!["Windows did not verify the restored DNS snapshot for 'b'.".to_string()]
    );
    let done = finish_dns_change(2, vec!["a".to_string()], &vec!["x".to_string(), "y".to_string()]);
    assert!(!done.success);
    assert_eq!(done.error.as_deref(), Some("x y"));
    assert!(finish_dns_change(1, vec!["a".to_string()], &vec![]).success);
    assert!(!finish_dns_change(0, vec![], &vec![]).success);
}

#[test]
fn full_local_check_adds_runtime_subsystems() {
    let mut snapshot = local_consistency_snapshot(true, 1234);
    let engine = EngineStatus::Error { message: "spawn \"x\" failed".to_string(), code: Some("E1".to_string()) };
    add_runtime_health(&mut snapshot, Some("modified"), &engine, false, 7);
    assert_eq!(snapshot.subsystems.len(), 5);
    assert_eq!(snapshot.subsystems[1].name, "Artifact Integrity");
    assert_eq!(snapshot.subsystems[1].state, HealthState::Unhealthy);
    assert_eq!(snapshot.subsystems[1].message, "Artifact verification status: modified");
    assert_eq!(snapshot.subsystems[2].state, HealthState::Unhealthy);
    assert_eq!(snapshot.subsystems[2].message, format!("Authoritative engine state: {engine:?}"));
    assert_eq!(snapshot.subsystems[3].state, HealthState::Unknown);
    assert_eq!(snapshot.subsystems[3].message, "No committed DNS transaction");
    assert_eq!(snapshot.subsystems[4].message, "Dropped event count: 7");
    assert!(snapshot.subsystems.iter().all(|s| s.last_checked_ms == 1234));
    assert_eq!(snapshot.overall, HealthState::Unhealthy);

    let statuses = [
        EngineStatus::Stopped,
        EngineStatus::Starting,
        EngineStatus::WaitingForReadiness { pid: 4 },
        EngineStatus::Ready { pid: 1, generation: 2, revision: 3, fingerprint: "ab\tc".to_string() },
        EngineStatus::Running { pid: 9 },
        EngineStatus::Error { message: "m".to_string(), code: None },
    ];
    for status in statuses {
        let mut healthy = local_consistency_snapshot(true, 1);
        add_runtime_health(&mut healthy, Some("verified"), &status, true, 0);
        assert_eq!(healthy.subsystems[2].message, format!("Authoritative engine state: {status:?}"));
        assert_eq!(healthy.subsystems[1].state, HealthState::Healthy);
    }
}
