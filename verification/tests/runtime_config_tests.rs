use vane_core::launch_plan::{build_engine_launch_plan, EngineLaunchInput, EnginePlatform};
use vane_core::preset::{Preset, PresetCategory};
use vane_core::runtime_config::{
    candidate_from_preset_and_sources, compute_config_fingerprint, verify_runtime_config, AppliedRuntimeConfig,
    AppliedVerification, ConfigRevision, PreparedHostlist, PreparedRuntimeConfig, RuntimeBypassCandidate,
    RuntimeBypassMode, RuntimeConfigCandidate, RuntimeConfigError, RuntimeDnsCandidate, RuntimeDnsProtocol,
    RuntimeSecurityCandidate, VerifiedRuntimeConfig,
};

fn preset(id: &str, args: &[&str]) -> Preset {
    Preset {
        id: id.to_string(),
        label: id.to_string(),
        description: String::new(),
        icon: "zap".to_string(),
        args: args.iter().map(|a| a.to_string()).collect(),
        is_custom: false,
        priority: 1,
        category: PresetCategory::Standard,
    }
}

/// A stand-in for the shipped preset list.
fn builtin_presets() -> Vec<Preset> {
    vec![
        preset("default", &["--wf-tcp=80,443", "--qnum=200", "--dpi-desync=fake"]),
        preset("tr-1", &["--wf-tcp=80,443", "--dpi-desync=fake", "--dpi-desync-ttl=5"]),
    ]
}

fn make_test_candidate(mode: &str, domains: Vec<&str>) -> RuntimeConfigCandidate {
    let preset = builtin_presets().into_iter().next().unwrap();
    RuntimeConfigCandidate {
        preset_id: preset.id,
        preset_args: preset.args,
        bypass: RuntimeBypassCandidate {
            mode: mode.to_string(),
            domains: domains.into_iter().map(String::from).collect(),
            kill_switch: false,
        },
        dns: RuntimeDnsCandidate {
            enabled: true,
            protocol: "doh".to_string(),
            provider: Some("cloudflare".to_string()),
            adblock: true,
            cache_enabled: true,
        },
        security: RuntimeSecurityCandidate { kill_switch: false, binary_integrity_required: true },
    }
}

fn verified(cand: RuntimeConfigCandidate, rev: u64) -> VerifiedRuntimeConfig {
    match verify_runtime_config(cand, ConfigRevision::new(rev)) {
        Ok(v) => v,
        Err(e) => panic!("unexpected error: {:?}", e),
    }
}

#[test]
fn a01_valid_all_mode_candidate() {
    let cand = make_test_candidate("all", vec![]);
    let verified = verified(cand, 1);
    assert_eq!(verified.bypass.mode, RuntimeBypassMode::All);
    assert_eq!(verified.revision.get(), 1);
}

#[test]
fn a02_valid_whitelist_candidate() {
    let cand = make_test_candidate("whitelist", vec!["example.com"]);
    let verified = verified(cand, 2);
    assert_eq!(verified.bypass.mode, RuntimeBypassMode::Whitelist);
    assert_eq!(verified.bypass.domain_count, 1);
}

#[test]
fn a03_empty_whitelist_returns_fail_closed_error() {
    let cand = make_test_candidate("whitelist", vec![]);
    let rev = ConfigRevision::new(1);
    let res = verify_runtime_config(cand, rev);
    assert!(res == Err(RuntimeConfigError::EmptyWhitelist));
}

#[test]
fn a04_unknown_bypass_mode_returns_error() {
    let cand = make_test_candidate("super_mode", vec![]);
    let rev = ConfigRevision::new(1);
    let res = verify_runtime_config(cand, rev);
    assert!(matches!(res, Err(RuntimeConfigError::UnsupportedBypassMode(_))));
}

#[test]
fn a05_domain_canonicalization_and_deduplication() {
    let cand = make_test_candidate("whitelist", vec!["  EXAMPLE.COM. ", "example.com", "TEST.ORG"]);
    let verified = verified(cand, 1);
    assert_eq!(verified.bypass.domains, vec!["example.com", "test.org"]);
    assert_eq!(verified.bypass.domain_count, 2);
}

#[test]
fn b01_revision_monotonic_increment() {
    let rev1 = ConfigRevision::new(10);
    let rev2 = rev1.checked_next().unwrap();
    assert_eq!(rev2.get(), 11);
    assert!(rev2 > rev1);
}

#[test]
fn b02_revision_overflow_error() {
    let max_rev = ConfigRevision::new(u64::MAX);
    assert_eq!(max_rev.checked_next(), Err(RuntimeConfigError::RevisionOverflow));
}

#[test]
fn f01_identical_config_produces_identical_fingerprint() {
    let fp1 = compute_config_fingerprint(
        "default",
        &vec!["--wf-tcp=80,443".to_string()],
        RuntimeBypassMode::Whitelist,
        &vec!["example.com".to_string()],
        false,
        true,
        RuntimeDnsProtocol::Doh,
        Some("cloudflare"),
        true,
        true,
    );
    let fp2 = compute_config_fingerprint(
        "default",
        &vec!["--wf-tcp=80,443".to_string()],
        RuntimeBypassMode::Whitelist,
        &vec!["example.com".to_string()],
        false,
        true,
        RuntimeDnsProtocol::Doh,
        Some("cloudflare"),
        true,
        true,
    );
    assert_eq!(fp1, fp2);
    assert_eq!(fp1.as_str().len(), 64);
}

#[test]
fn f02_revision_difference_does_not_change_fingerprint() {
    let cand1 = make_test_candidate("all", vec![]);
    let cand2 = cand1.clone();
    let v1 = verified(cand1, 1);
    let v2 = verified(cand2, 99);
    assert_ne!(v1.revision, v2.revision);
    assert_eq!(v1.fingerprint, v2.fingerprint);
}

#[test]
fn f03_domain_case_difference_produces_same_canonical_fingerprint() {
    let v1 = verified(make_test_candidate("whitelist", vec!["EXAMPLE.COM"]), 1);
    let v2 = verified(make_test_candidate("whitelist", vec!["example.com."]), 1);
    assert_eq!(v1.fingerprint, v2.fingerprint);
}

#[test]
fn f04_domain_order_difference_produces_same_fingerprint() {
    let v1 = verified(make_test_candidate("whitelist", vec!["a.com", "b.com"]), 1);
    let v2 = verified(make_test_candidate("whitelist", vec!["b.com", "a.com"]), 1);
    assert_eq!(v1.fingerprint, v2.fingerprint);
}

#[test]
fn f05_duplicate_domain_produces_same_fingerprint() {
    let v1 = verified(make_test_candidate("whitelist", vec!["a.com", "a.com"]), 1);
    let v2 = verified(make_test_candidate("whitelist", vec!["a.com"]), 1);
    assert_eq!(v1.fingerprint, v2.fingerprint);
}

#[test]
fn f06_preset_arg_order_difference_changes_fingerprint() {
    let preset1 = Preset {
        id: "p1".to_string(),
        label: "P1".to_string(),
        description: "".to_string(),
        icon: "".to_string(),
        args: vec!["--wf-tcp=443".to_string(), "--dpi-desync=syndata,fake".to_string()],
        is_custom: true,
        priority: 1,
        category: Default::default(),
    };
    let preset2 = Preset {
        id: "p1".to_string(),
        label: "P1".to_string(),
        description: "".to_string(),
        icon: "".to_string(),
        args: vec!["--dpi-desync=syndata,fake".to_string(), "--wf-tcp=443".to_string()],
        is_custom: true,
        priority: 1,
        category: Default::default(),
    };
    let cand1 = candidate_from_preset_and_sources(&preset1, "all", "", false);
    let cand2 = candidate_from_preset_and_sources(&preset2, "all", "", false);
    let v1 = verified(cand1, 1);
    let v2 = verified(cand2, 1);
    assert_ne!(v1.fingerprint, v2.fingerprint);
}

#[test]
fn f07_kill_switch_change_changes_fingerprint() {
    let cand1 = make_test_candidate("all", vec![]);
    let mut cand2 = cand1.clone();
    cand2.bypass.kill_switch = true;
    let v1 = verified(cand1, 1);
    let v2 = verified(cand2, 1);
    assert_ne!(v1.fingerprint, v2.fingerprint);
}

#[test]
fn f08_dns_protocol_change_changes_fingerprint() {
    let cand1 = make_test_candidate("all", vec![]);
    let mut cand2 = cand1.clone();
    cand2.dns.protocol = "dot".to_string();
    let v1 = verified(cand1, 1);
    let v2 = verified(cand2, 1);
    assert_ne!(v1.fingerprint, v2.fingerprint);
}

#[test]
fn f09_platform_executable_path_does_not_affect_fingerprint() {
    let cand = make_test_candidate("all", vec![]);
    let v1 = verified(cand.clone(), 1);
    let v2 = verified(cand, 1);
    assert_eq!(v1.fingerprint, v2.fingerprint);
}

#[test]
fn d01_prepared_config_carries_verified_and_plan_without_pid() {
    let cand = make_test_candidate("all", vec![]);
    let verified = verified(cand, 1);
    let preset = builtin_presets().into_iter().next().unwrap();
    let input = EngineLaunchInput {
        preset: &preset,
        platform: EnginePlatform::Windows,
        executable: String::from("C:\\winws.exe"),
        bypass: verified.to_launch_bypass_input(None),
    };
    let plan = build_engine_launch_plan(input).unwrap();
    let prepared =
        PreparedRuntimeConfig { verified: verified.clone(), launch_plan: plan, hostlist: PreparedHostlist::NotRequired };
    assert_eq!(prepared.verified.fingerprint, verified.fingerprint);
    assert_eq!(prepared.hostlist, PreparedHostlist::NotRequired);
}

#[test]
fn e01_applied_config_requires_pid_and_matches_verified() {
    let cand = make_test_candidate("all", vec![]);
    let verified = verified(cand, 1);
    let applied = AppliedRuntimeConfig::process_started(verified.clone(), 5432);
    assert_eq!(applied.process_id, 5432);
    assert_eq!(applied.verification, AppliedVerification::ProcessStarted);
    assert_eq!(applied.verified.fingerprint, verified.fingerprint);
}

fn assert_send_sync<T: Send + Sync>() {}

#[test]
fn test_models_are_send_and_sync() {
    assert_send_sync::<VerifiedRuntimeConfig>();
    assert_send_sync::<PreparedRuntimeConfig>();
    assert_send_sync::<AppliedRuntimeConfig>();
}

#[test]
fn documents_runtime_contract_still_receiving_persisted_disk_config() {
    let cand = make_test_candidate("all", vec![]);
    let verified = verified(cand, 1);
    assert_eq!(verified.bypass.mode, RuntimeBypassMode::All);
}

#[test]
fn summary_shows_counts_and_fingerprint_prefix_only() {
    let cand = make_test_candidate("whitelist", vec!["secret-user-domain.com"]);
    let verified = verified(cand, 42);
    let summary = verified.summary();
    assert_eq!(summary.revision, 42);
    assert_eq!(summary.domain_count, 1);
    assert_eq!(summary.fingerprint_prefix.len(), 8);
    assert_eq!(summary.fingerprint_prefix, verified.fingerprint.as_str()[..8]);
    assert!(!format!("{:?}", summary).contains("secret-user-domain.com"));
}

#[test]
fn candidate_reads_trimmed_nonblank_lines_and_dns_defaults() {
    let p = builtin_presets().into_iter().next().unwrap();
    let cand = candidate_from_preset_and_sources(&p, "blacklist", "  a.com \r\n\n  \nb.org", true);
    assert_eq!(cand.bypass.domains, vec!["a.com", "b.org"]);
    assert_eq!(cand.dns.protocol, "doh");
    assert_eq!(cand.dns.provider, Some("cloudflare".to_string()));
    assert!(cand.security.kill_switch && cand.security.binary_integrity_required);
    let v = verified(cand, 3);
    assert_eq!(v.to_launch_bypass_input(None).domain_list, "a.com\nb.org");
}

#[test]
fn fingerprint_is_the_sha256_of_the_configuration_text() {
    let fp = compute_config_fingerprint(
        "p",
        &vec![],
        RuntimeBypassMode::All,
        &vec![],
        false,
        false,
        RuntimeDnsProtocol::Dot,
        None,
        false,
        false,
    );
    assert_eq!(fp.as_str().len(), 64);
    assert!(fp.as_str().chars().all(|c| c.is_ascii_hexdigit() && !c.is_ascii_uppercase()));
    let other = compute_config_fingerprint(
        "p",
        &vec![],
        RuntimeBypassMode::All,
        &vec![],
        false,
        false,
        RuntimeDnsProtocol::Dot,
        Some(""),
        false,
        false,
    );
    assert_eq!(fp, other);
}

#[test]
fn invalid_preset_and_protocol_errors_carry_messages() {
    let mut cand = make_test_candidate("all", vec![]);
    cand.preset_args = vec!["--wf-tcp=80".to_string(), "--wf-tcp=443".to_string()];
    let err = verify_runtime_config(cand, ConfigRevision::new(1)).err().unwrap();
    assert_eq!(
        err,
        RuntimeConfigError::InvalidPreset("duplicate single-value argument: --wf-tcp=443".to_string())
    );
    let mut cand = make_test_candidate("all", vec![]);
    cand.dns.protocol = "DoQ".to_string();
    assert!(verify_runtime_config(cand, ConfigRevision::new(1)).is_ok());
    let mut cand = make_test_candidate("all", vec![]);
    cand.dns.protocol = "HTTP".to_string();
    let err = verify_runtime_config(cand, ConfigRevision::new(1)).err().unwrap();
    assert_eq!(err, RuntimeConfigError::UnsupportedDnsProtocol("http".to_string()));
    assert_eq!(err.message(), "unsupported DNS protocol: http");
}

#[test]
fn fingerprint_is_sixty_four_lowercase_hex_digits() {
    let v = verified(make_test_candidate("whitelist", vec!["Example.com"]), 4);
    let text = v.fingerprint.as_str();
    assert_eq!(text.len(), 64);
    assert!(text.chars().all(|c| c.is_ascii_digit() || ('a'..='f').contains(&c)));
}
