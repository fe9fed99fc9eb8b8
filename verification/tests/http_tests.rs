use vane_core::domain::parse_ip_address;
use vane_core::http_check::{
    all_addresses_public, diagnose_dns_block, dns_diagnosis_target, is_public_ip, parse_public_https_target,
    ping_result_for_status, reached,
};

#[test]
fn health_target_requires_public_https_hostname() {
    assert!(parse_public_https_target("example.com", "test").is_ok());
    assert!(parse_public_https_target("https://example.com/path", "test").is_ok());
    for target in [
        "http://example.com",
        "https://user@example.com",
        "https://example.com:8443",
        "https://127.0.0.1",
        "https://[::1]",
    ] {
        assert!(parse_public_https_target(target, "test").is_err(), "accepted {target}");
    }
}

#[test]
fn private_reserved_and_documentation_addresses_are_rejected() {
    for address in [
        "0.0.0.0",
        "10.0.0.1",
        "100.64.0.1",
        "127.0.0.1",
        "169.254.1.1",
        "172.16.0.1",
        "192.168.1.1",
        "192.0.2.1",
        "198.51.100.1",
        "203.0.113.1",
        "224.0.0.1",
        "::1",
        "fc00::1",
        "fe80::1",
        "64:ff9b::7f00:1",
        "2001:db8::1",
        "::ffff:127.0.0.1",
    ] {
        assert!(!is_public_ip(parse_ip_address(address).expect("test IP")), "accepted {address}");
    }
    assert!(is_public_ip(parse_ip_address("1.1.1.1").expect("public IPv4")));
    assert!(is_public_ip(parse_ip_address("2606:4700:4700::1111").expect("public IPv6")));
}

#[test]
fn dns_diagnosis_accepts_only_built_in_public_targets() {
    assert!(dns_diagnosis_target("discord.com").is_some());
    assert!(dns_diagnosis_target("youtube.com").is_some());
    assert!(dns_diagnosis_target("localhost").is_none());
    assert!(dns_diagnosis_target("metadata.google.internal").is_none());
}

#[test]
fn check_target_errors_carry_stable_codes() {
    let empty = parse_public_https_target("   ", "check_url_health").unwrap_err();
    assert_eq!(empty.code, "HEALTH_CHECK_TARGET_EMPTY");
    assert_eq!(empty.operation, "check_url_health");
    assert!(!empty.retryable);
    let ip = parse_public_https_target("https://127.0.0.1", "op").unwrap_err();
    assert_eq!(ip.code, "HEALTH_CHECK_IP_LITERAL_REJECTED");
    let port = parse_public_https_target("https://example.com:8443", "op").unwrap_err();
    assert_eq!(port.message, "Health checks require HTTPS on port 443 without embedded credentials.");
    let (url, host) = parse_public_https_target(" example.com ", "op").unwrap();
    assert_eq!(host, "example.com");
    assert_eq!(url.serialized, "https://example.com/");
}

#[test]
fn resolved_addresses_must_all_be_public() {
    let public = parse_ip_address("1.1.1.1").unwrap();
    let private = parse_ip_address("10.1.2.3").unwrap();
    assert!(all_addresses_public(&vec![public]));
    assert!(!all_addresses_public(&vec![public, private]));
    assert!(!all_addresses_public(&vec![]));
}

#[test]
fn answers_are_judged_by_status() {
    let ok = ping_result_for_status(204, 12);
    assert!(ok.success && ok.error.is_none());
    let head_refused = ping_result_for_status(405, 12);
    assert!(head_refused.success);
    let failed = ping_result_for_status(500, 30);
    assert!(!failed.success);
    assert_eq!(failed.error.as_deref(), Some("HTTP 500"));
    assert!(reached(Some(404)));
    assert!(!reached(Some(502)));
    assert!(!reached(None));
    assert_eq!(dns_diagnosis_target("x.com"), Some(("104.244.42.65", 443)));
}

#[test]
fn dns_block_diagnosis_distinguishes_dns_and_dpi() {
    assert_eq!(diagnose_dns_block(true, false).recommendation, "No changes needed.");
    assert!(diagnose_dns_block(false, true).diagnosis.contains("DNS Block Detected"));
    assert!(diagnose_dns_block(false, false).diagnosis.contains("DPI + DNS Block"));
}
