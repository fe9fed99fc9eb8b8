use vane_core::dns_config::{DnsConfigFingerprint, DnsConfigRevision};
use vane_core::firewall::{build_kill_switch_plan, FirewallPlatform};

#[test]
fn rbr_01_pattern_cache_disk_mismatch() {
    assert!(true);
}

#[test]
fn rbr_02_missing_preset_phase_validation() {
    assert!(true);
}

#[test]
fn rbr_03_invalid_https_sni_ghost_order() {
    assert!(true);
}

#[test]
fn rbr_06_global_process_cleanup() {
    assert!(true);
}

#[test]
fn rbr_07_running_means_process_alive() {
    assert!(true);
}

#[test]
fn rbr_10_kill_switch_rule_ownership_missing() {
    let plan = build_kill_switch_plan(
        "inst-12345678",
        "instance-87654321",
        DnsConfigRevision::new(10),
        &DnsConfigFingerprint("fp123".into()),
        FirewallPlatform::Windows,
        true,
    );
    assert_eq!(plan.ownership.installation_id, "inst-12345678");
    assert_eq!(plan.ownership.instance_id, "instance-87654321");
    assert!(plan.ownership.rule_ids[0].contains("Vane-DNS-inst-123-instance-r10"));
}

#[test]
fn rbr_11_dns_blocked_response_is_not_nxdomain() {
    assert!(true);
}

#[test]
fn rbr_12_binary_release_hash_drift() {
    assert!(true);
}
