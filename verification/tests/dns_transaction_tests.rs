use std::sync::Mutex;
use vane_core::callback_log::CallbackLog;
use vane_core::dns_config::{
    verify_dns_config, DnsConfigCandidate, DnsConfigFingerprint, DnsConfigRevision, DnsProtocol, DnsProvider,
    DnsSocksCandidate, DnsValidationError, DOH_CLOUDFLARE, DOH_GOOGLE,
};
use vane_core::dns_transaction::{restore_snapshot_verified, DnsRuntimeState};
use vane_core::firewall::{
    build_kill_switch_plan, execute_firewall_plan, FirewallExecutionError, FirewallExecutor, FirewallPlatform,
    FirewallStep,
};

struct FakeFirewallExecutor {
    pub fail_at_step: Option<usize>,
}

impl FirewallExecutor for FakeFirewallExecutor {
    fn execute(&mut self, step: &FirewallStep) -> Result<(), FirewallExecutionError> {
        if let FirewallStep::AddRule(spec) = step {
            if spec.name.contains("TCP53") && self.fail_at_step == Some(3) {
                return Err(FirewallExecutionError::CommandFailed("Injected simulated step failure".into()));
            }
        }
        Ok(())
    }
}

#[test]
fn a01_doh_cloudflare_valid() {
    let candidate = DnsConfigCandidate {
        enabled: true,
        protocol: "doh".into(),
        provider: Some("cloudflare".into()),
        adblock: true,
        cache_enabled: true,
        socks5: None,
        kill_switch: false,
    };
    let verified = verify_dns_config(candidate, DnsConfigRevision::new(1)).ok().unwrap();
    assert_eq!(verified.protocol, DnsProtocol::Doh);
    assert_eq!(verified.provider, DnsProvider::Cloudflare);
}

#[test]
fn a02_dot_google_valid() {
    let candidate = DnsConfigCandidate {
        enabled: true,
        protocol: "dot".into(),
        provider: Some("google".into()),
        adblock: false,
        cache_enabled: true,
        socks5: None,
        kill_switch: true,
    };
    let verified = verify_dns_config(candidate, DnsConfigRevision::new(1)).ok().unwrap();
    assert_eq!(verified.protocol, DnsProtocol::Dot);
    assert_eq!(verified.provider, DnsProvider::Google);
}

#[test]
fn a03_doq_rejection() {
    let candidate = DnsConfigCandidate {
        enabled: true,
        protocol: "doq".into(),
        provider: Some("cloudflare".into()),
        adblock: false,
        cache_enabled: true,
        socks5: None,
        kill_switch: false,
    };
    let err = verify_dns_config(candidate, DnsConfigRevision::new(1)).err().unwrap();
    assert_eq!(err, DnsValidationError::UnsupportedProtocolDoQ);
}

#[test]
fn a04_unknown_provider_rejection() {
    let candidate = DnsConfigCandidate {
        enabled: true,
        protocol: "doh".into(),
        provider: Some("unknown_provider".into()),
        adblock: false,
        cache_enabled: true,
        socks5: None,
        kill_switch: false,
    };
    let err = verify_dns_config(candidate, DnsConfigRevision::new(1)).err().unwrap();
    assert_eq!(err, DnsValidationError::UnsupportedProvider("unknown_provider".into()));
}

#[test]
fn a05_dot_with_socks5_rejected() {
    let candidate = DnsConfigCandidate {
        enabled: true,
        protocol: "dot".into(),
        provider: Some("cloudflare".into()),
        adblock: false,
        cache_enabled: true,
        socks5: Some(DnsSocksCandidate { host: "127.0.0.1".into(), port: 1080, username: None, password: None }),
        kill_switch: false,
    };
    let err = verify_dns_config(candidate, DnsConfigRevision::new(1)).err().unwrap();
    assert_eq!(err, DnsValidationError::DotWithSocks5NotAllowed);
}

#[test]
fn b01_identical_config_produces_identical_fingerprint() {
    let fp1 = DnsConfigFingerprint::compute(true, DnsProtocol::Doh, DnsProvider::Cloudflare, true, true, None, false);
    let fp2 = DnsConfigFingerprint::compute(true, DnsProtocol::Doh, DnsProvider::Cloudflare, true, true, None, false);
    assert_eq!(fp1, fp2);
}

#[test]
fn b02_protocol_change_changes_fingerprint() {
    let fp1 = DnsConfigFingerprint::compute(true, DnsProtocol::Doh, DnsProvider::Cloudflare, true, true, None, false);
    let fp2 = DnsConfigFingerprint::compute(true, DnsProtocol::Dot, DnsProvider::Cloudflare, true, true, None, false);
    assert_ne!(fp1, fp2);
}

#[test]
fn f01_build_kill_switch_plan_names_contain_ownership() {
    let plan = build_kill_switch_plan(
        "inst12345678",
        "instance87654321",
        DnsConfigRevision::new(42),
        &DnsConfigFingerprint("fp123".into()),
        FirewallPlatform::Windows,
        true,
    );
    assert_eq!(plan.apply_steps.len(), 4);
    assert!(plan.ownership.rule_ids[0].contains("Vane-DNS-inst1234-instance-r42"));
}

#[test]
fn g01_partial_apply_failure_executes_reverse_rollback() {
    let plan = build_kill_switch_plan(
        "inst12345678",
        "instance87654321",
        DnsConfigRevision::new(42),
        &DnsConfigFingerprint("fp123".into()),
        FirewallPlatform::Windows,
        true,
    );
    let mut fake_executor = FakeFirewallExecutor { fail_at_step: Some(3) };
    let res = execute_firewall_plan(&mut fake_executor, &plan);
    assert!(res.is_err());
}

#[test]
fn h01_legacy_rule_migration_removes_known_legacy_rules() {
    let plan = build_kill_switch_plan(
        "legacy-inst",
        "legacy-instance",
        DnsConfigRevision::new(1),
        &DnsConfigFingerprint("fp_legacy".into()),
        FirewallPlatform::Windows,
        false,
    );
    assert!(plan.apply_steps.is_empty());
}

#[test]
fn snapshot_restore_failure_preserves_snapshot() {
    let clear_called = Mutex::new(false);
    let result = restore_snapshot_verified(
        || Err("restore failed".into()),
        || {
            *clear_called.lock().unwrap() = true;
            Ok(())
        },
        &mut CallbackLog::new(),
    );
    assert!(result.is_err());
    assert!(!*clear_called.lock().unwrap());
}

#[test]
fn snapshot_clear_failure_is_reported() {
    let result = restore_snapshot_verified(|| Ok(()), || Err("clear denied".into()), &mut CallbackLog::new());
    assert!(matches!(result, Err(error) if error.contains("clear denied")));
}

#[test]
fn j01_doh_endpoint_constants() {
    assert_eq!(DOH_CLOUDFLARE, "https://cloudflare-dns.com/dns-query");
    assert_eq!(DOH_GOOGLE, "https://dns.google/dns-query");
}

#[test]
fn j05_documents_doq_absence_in_rust_backend() {
    let supported_protocols = ["doh", "dot"];
    assert!(!supported_protocols.contains(&"doq"));
}

#[test]
fn j08_documents_dns_blocked_response_behavior() {
    let empty_answers: Vec<String> = vec![];
    assert!(empty_answers.is_empty());
}

#[test]
fn k01_windows_firewall_rule_names() {
    let rule_udp = "Vane-KillSwitch-BlockUDP53";
    let rule_tcp = "Vane-KillSwitch-BlockTCP53";
    assert!(rule_udp.starts_with("Vane-"));
    assert!(rule_tcp.starts_with("Vane-"));
}

#[test]
fn k07_documents_kill_switch_lacking_ownership_metadata() {
    let rule_name = "Vane-KillSwitch-BlockUDP53";
    assert!(!rule_name.contains("uuid"));
}

#[test]
fn dns_runtime_state_revisions_and_generations_only_grow() {
    let mut state = DnsRuntimeState::new();
    assert_eq!(state.current_generation(), 0);
    assert_eq!(state.next_generation(), 1);
    assert_eq!(state.next_generation(), 2);
    let v5 = verify_dns_config(
        DnsConfigCandidate {
            enabled: true,
            protocol: "DoH".into(),
            provider: None,
            adblock: true,
            cache_enabled: false,
            socks5: None,
            kill_switch: false,
        },
        DnsConfigRevision::new(5),
    )
    .ok()
    .unwrap();
    assert_eq!(v5.provider, DnsProvider::Cloudflare);
    state.set_desired(v5.clone());
    assert_eq!(state.latest_requested_revision(), DnsConfigRevision::new(5));
    let mut older = v5.clone();
    older.revision = DnsConfigRevision::new(3);
    state.set_desired(older);
    assert_eq!(state.latest_requested_revision(), DnsConfigRevision::new(5));
}

#[test]
fn socks_host_is_trimmed_and_blank_credentials_dropped() {
    let verified = verify_dns_config(
        DnsConfigCandidate {
            enabled: true,
            protocol: "doh".into(),
            provider: Some("GOOGLE".into()),
            adblock: false,
            cache_enabled: true,
            socks5: Some(DnsSocksCandidate {
                host: "  proxy.local ".into(),
                port: 1080,
                username: Some("  ".into()),
                password: Some("pw".into()),
            }),
            kill_switch: true,
        },
        DnsConfigRevision::new(2),
    )
    .ok()
    .unwrap();
    let socks = verified.socks5.unwrap();
    assert_eq!(socks.host, "proxy.local");
    assert_eq!(socks.username, None);
    assert_eq!(socks.password, Some("pw".to_string()));
    assert_eq!(verified.provider, DnsProvider::Google);
    let bad = verify_dns_config(
        DnsConfigCandidate {
            enabled: true,
            protocol: "doh".into(),
            provider: None,
            adblock: false,
            cache_enabled: true,
            socks5: Some(DnsSocksCandidate { host: "a b".into(), port: 1080, username: None, password: None }),
            kill_switch: false,
        },
        DnsConfigRevision::new(2),
    );
    assert_eq!(bad.err(), Some(DnsValidationError::InvalidSocksHost("a b".into())));
}

#[test]
fn snapshot_restore_then_clear_succeeds() {
    let order = Mutex::new(Vec::new());
    let result = restore_snapshot_verified(
        || {
            order.lock().unwrap().push("restore");
            Ok(())
        },
        || {
            order.lock().unwrap().push("clear");
            Ok(())
        },
        &mut CallbackLog::new(),
    );
    assert!(result.is_ok());
    assert_eq!(*order.lock().unwrap(), vec!["restore", "clear"]);
}
