use vane_core::commands::{
    clean_health_target, disabled_dns_candidate, endpoint_for_provider, engine_health_status, forwarder_candidate,
    forwarder_status, health_check_targets, is_superseded, open_url_target, socks_candidate_from_setting,
    unapplied_bypass_status, started_bypass_status, utc_clock, validate_bypass_request, validate_socks5_proxy,
    BypassApplyStage,
};
use vane_core::dns_forwarder::{default_dns_settings, DoHEndpoint};

#[test]
fn bypass_request_validation() {
    let ok = validate_bypass_request(
        "whitelist".to_string(),
        &vec!["YouTube.com.".to_string(), "discord.com".to_string()],
        &vec![],
    )
    .unwrap();
    assert_eq!(ok.canonical_whitelist, vec!["youtube.com", "discord.com"]);
    assert_eq!(ok.canonical_list, "youtube.com\ndiscord.com");

    let all = validate_bypass_request("all".to_string(), &vec!["a.com".to_string()], &vec![]).unwrap();
    assert_eq!(all.canonical_list, "");

    let mode = validate_bypass_request("some".to_string(), &vec![], &vec![]).unwrap_err();
    assert_eq!(mode.code, "INVALID_BYPASS_MODE");
    assert_eq!(mode.message, "Unsupported bypass mode: some");
    assert_eq!(mode.operation, "sync_bypass_config");

    let empty = validate_bypass_request("whitelist".to_string(), &vec![], &vec![]).unwrap_err();
    assert_eq!(empty.code, "WHITELIST_EMPTY");

    let bad = validate_bypass_request("blacklist".to_string(), &vec![], &vec!["1.2.3.4".to_string()]).unwrap_err();
    assert_eq!(bad.code, "INVALID_BLACKLIST_DOMAIN");
    assert!(bad.message.starts_with("Invalid blacklist domain: "));
}

#[test]
fn bypass_status_reports() {
    let request =
        validate_bypass_request("blacklist".to_string(), &vec![], &vec!["a.com".to_string(), "b.com".to_string()]).unwrap();
    let prepared = unapplied_bypass_status(&request, 3, "ff".to_string(), "default".to_string(), false, Some((2, "ee".to_string())), true);
    assert_eq!(prepared.stage, BypassApplyStage::Prepared);
    assert_eq!(prepared.domain_count, 2);
    assert_eq!(prepared.applied_revision, None);
    assert!(!prepared.engine_running);
    let superseded = unapplied_bypass_status(&request, 3, "ff".to_string(), "default".to_string(), true, Some((2, "ee".to_string())), true);
    assert_eq!(superseded.stage, BypassApplyStage::Superseded);
    assert_eq!(superseded.applied_revision, Some(2));
    assert!(superseded.superseded && superseded.engine_running);
    let started = started_bypass_status(&request, 3, "ff".to_string(), "default".to_string(), 3, "ff".to_string());
    assert_eq!(started.stage, BypassApplyStage::ProcessStarted);
    assert!(started.engine_restarted);
    assert!(is_superseded(3, 4));
    assert!(!is_superseded(4, 4));
}

#[test]
fn forwarder_status_and_candidates() {
    let settings = default_dns_settings();
    let status = forwarder_status(true, 53, DoHEndpoint::Google.url().to_string(), true, &settings);
    assert!(status.active && status.watchdog_enabled);
    assert_eq!(status.protocol, "doh");
    assert_eq!(endpoint_for_provider(Some("google")), DoHEndpoint::Google);
    assert_eq!(endpoint_for_provider(Some("quad9")), DoHEndpoint::Cloudflare);
    assert_eq!(endpoint_for_provider(None), DoHEndpoint::Cloudflare);
    let candidate = forwarder_candidate(&settings, DoHEndpoint::Google, true);
    assert!(candidate.enabled && candidate.kill_switch);
    assert_eq!(candidate.provider.as_deref(), Some("google"));
    let off = disabled_dns_candidate();
    assert!(!off.enabled && !off.kill_switch);
}

#[test]
fn health_targets_are_cleaned_and_defaulted() {
    assert_eq!(clean_health_target(" https://Example.COM/path "), Some("example.com".to_string()));
    assert_eq!(clean_health_target("http://site.org:8080"), Some("site.org".to_string()));
    assert_eq!(clean_health_target("*.wild.com"), None);
    assert_eq!(clean_health_target("   "), None);
    assert_eq!(health_check_targets(&vec![]), vec!["example.com"]);
    assert_eq!(health_check_targets(&vec!["a.com".to_string(), "https://b.com/".to_string()]), vec!["a.com", "b.com"]);
    assert_eq!(health_check_targets(&vec!["192.168.0.1".to_string()]), vec!["example.com"]);
}

#[test]
fn engine_health_summary() {
    let hosts = vec!["a.com".to_string(), "b.com".to_string()];
    let status = engine_health_status(&hosts, &vec![(false, 5), (true, 40), (true, 25)], 3661);
    assert!(status.healthy);
    assert_eq!(status.latency_ms, 25);
    assert_eq!(status.checked_at, "01:01:01 UTC");
    assert_eq!(status.target, "2 Sites");
    let down = engine_health_status(&vec!["a.com".to_string()], &vec![(false, 5)], 0);
    assert!(!down.healthy);
    assert_eq!(down.latency_ms, 0);
    assert_eq!(down.target, "a.com");
    assert_eq!(utc_clock(86399), "23:59:59 UTC");
}

#[test]
fn links_and_proxies() {
    assert_eq!(open_url_target("https://github.com/x").unwrap(), "https://github.com/x");
    assert_eq!(open_url_target("not a url").unwrap_err(), "The URL is invalid.");
    assert_eq!(open_url_target("http://github.com").unwrap_err(), "Security policy: only absolute HTTPS URLs are allowed.");
    assert_eq!(validate_socks5_proxy("socks5://127.0.0.1:1080".to_string()).unwrap(), "127.0.0.1:1080");
    let socks = socks_candidate_from_setting("10.0.0.2:9050").unwrap();
    assert_eq!((socks.host.as_str(), socks.port), ("10.0.0.2", 9050));
    let defaulted = socks_candidate_from_setting("proxyhost").unwrap();
    assert_eq!(defaulted.port, 1080);
    assert!(socks_candidate_from_setting("  ").is_none());
}
