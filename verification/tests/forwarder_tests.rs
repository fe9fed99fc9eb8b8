use vane_core::dns_forwarder::{
    bind_retry_step, check_doh_body, check_doh_head, default_dns_settings, dns_settings_from_saved,
    is_domain_blocked, normalize_dns_settings, normalize_socks5_proxy, parse_hosts_file, BindAttemptFailure,
    BindRetryStep, DnsForwardError, DnsSettings, DoHEndpoint, ForwarderBindProtocol, ForwarderBindRetryPolicy,
    SocketAddress, dot_reply_plan, DotLookupOutcome, DotQueryHeader,
};
use vane_core::dns_wire::{
    age_cached_response, blocked_response, cache_key_input, check_tcp_answer_length, decode_dns_message,
    encode_dns_message, is_local_query, readiness_query, readiness_result, record_ttls, response_cache_ttl,
    servfail_response, set_transaction_id, validate_readiness_response, DnsMessageDraft, DnsQuestion,
    ReadinessProtocol,
};

fn addr(a: u8, b: u8, c: u8, d: u8, port: u16) -> SocketAddress {
    SocketAddress { ip: [a, b, c, d], port }
}

#[test]
fn bootstrap_client_preserves_endpoint_hostname() {
    assert_eq!(DoHEndpoint::Cloudflare.hostname(), "cloudflare-dns.com");
    assert!(DoHEndpoint::Cloudflare.url().starts_with("https://cloudflare-dns.com/"));
}

#[test]
fn bootstrap_addresses_are_fixed_ipv4_addresses() {
    assert_eq!(DoHEndpoint::Cloudflare.bootstrap_socket_addrs(), vec![addr(1, 1, 1, 1, 443), addr(1, 0, 0, 1, 443)]);
    assert_eq!(DoHEndpoint::Google.bootstrap_socket_addrs(), vec![addr(8, 8, 8, 8, 443), addr(8, 8, 4, 4, 443)]);
    for endpoint in [DoHEndpoint::Cloudflare, DoHEndpoint::Google] {
        assert_eq!(endpoint.bootstrap_socket_addrs().len(), 2);
        assert!(endpoint.url().starts_with(&format!("https://{}/", endpoint.hostname())));
    }
}

/// Runs the bind retry decisions over a sequence of bind outcomes, as the
/// forwarder does, and returns how many attempts were made and the result.
fn simulate_binds(outcomes: &[Option<BindAttemptFailure>]) -> (usize, Result<(), vane_core::dns_forwarder::ForwarderBindError>) {
    let policy = ForwarderBindRetryPolicy { retry_delays_ms: [0, 0, 0] };
    let mut attempts = 0;
    loop {
        let outcome = outcomes[attempts.min(outcomes.len() - 1)].clone();
        attempts += 1;
        match outcome {
            None => return (attempts, Ok(())),
            Some(failure) => match bind_retry_step(attempts, failure, addr(127, 0, 0, 1, 5300), policy) {
                BindRetryStep::RetryAfterMs(_) => continue,
                BindRetryStep::GiveUp(error) => return (attempts, Err(error)),
            },
        }
    }
}

fn busy(protocol: ForwarderBindProtocol) -> BindAttemptFailure {
    BindAttemptFailure { protocol, address_in_use: true, raw_os_error: None, kind: "AddrInUse".to_string() }
}

#[test]
fn udp_addr_in_use_then_success_retries() {
    let (attempts, result) = simulate_binds(&[Some(busy(ForwarderBindProtocol::Udp)), None]);
    assert!(result.is_ok());
    assert_eq!(attempts, 2);
}

#[test]
fn windows_10048_then_success_retries() {
    let failure = BindAttemptFailure {
        protocol: ForwarderBindProtocol::Udp,
        address_in_use: false,
        raw_os_error: Some(10048),
        kind: "Uncategorized".to_string(),
    };
    let (attempts, result) = simulate_binds(&[Some(failure), None]);
    assert!(result.is_ok());
    assert_eq!(attempts, 2);
}

#[test]
fn permanent_addr_in_use_exhausts_bounded_attempts() {
    let (attempts, result) = simulate_binds(&[Some(busy(ForwarderBindProtocol::Udp))]);
    let error = result.unwrap_err();
    assert_eq!(attempts, 4);
    assert_eq!(error.attempts, 4);
    assert_eq!(
        error.message(),
        "DNS forwarder udp bind failed: address=127.0.0.1:5300, attempts=4, kind=AddrInUse, raw_os_error=none"
    );
}

#[test]
fn permission_denied_is_not_retried() {
    let denied = BindAttemptFailure {
        protocol: ForwarderBindProtocol::Tcp,
        address_in_use: false,
        raw_os_error: Some(13),
        kind: "PermissionDenied".to_string(),
    };
    let (attempts, result) = simulate_binds(&[Some(denied)]);
    let error = result.unwrap_err();
    assert_eq!(attempts, 1);
    assert_eq!(error.kind, "PermissionDenied");
    assert!(error.message().ends_with("raw_os_error=13"));
}

#[test]
fn standard_retry_policy_waits_longer_each_time() {
    let policy = ForwarderBindRetryPolicy::standard();
    let delays: Vec<u64> = (1..=3)
        .map(|n| match bind_retry_step(n, busy(ForwarderBindProtocol::Udp), addr(127, 0, 0, 1, 53), policy) {
            BindRetryStep::RetryAfterMs(ms) => ms,
            BindRetryStep::GiveUp(_) => panic!("gave up early"),
        })
        .collect();
    assert_eq!(delays, vec![50, 150, 300]);
}

#[test]
fn hosts_file_parsing_keeps_only_sinkholed_valid_domains() {
    let content = "# comment\n0.0.0.0 Ads.Example.com tracker.example.net\n127.0.0.1 localhost\n\n192.168.1.1 router.lan\n   127.0.0.1   bad..label   ok.example.org  \n0.0.0.0\n";
    let domains = parse_hosts_file(content);
    assert_eq!(domains, vec!["ads.example.com", "tracker.example.net", "ok.example.org"]);
    let long_label = format!("0.0.0.0 {}.com", "a".repeat(64));
    assert!(parse_hosts_file(&long_label).is_empty());
}

#[test]
fn block_list_matches_domains_and_their_subdomains() {
    let list = vec!["ads.example.com".to_string(), "tracker.net".to_string()];
    assert!(is_domain_blocked(&list, "ads.example.com"));
    assert!(is_domain_blocked(&list, "cdn.ads.example.com"));
    assert!(is_domain_blocked(&list, "x.tracker.net"));
    assert!(!is_domain_blocked(&list, "example.com"));
    assert!(!is_domain_blocked(&list, "tracker.network"));
}

#[test]
fn socks5_proxy_normalisation() {
    assert_eq!(normalize_socks5_proxy("  ").unwrap(), "");
    assert_eq!(normalize_socks5_proxy("socks5h://127.0.0.1:1080").unwrap(), "127.0.0.1:1080");
    assert_eq!(normalize_socks5_proxy("socks5://proxy.local:+080").unwrap(), "proxy.local:80");
    assert!(normalize_socks5_proxy("user:pass@127.0.0.1:1080").unwrap_err().contains("credentials"));
    assert_eq!(normalize_socks5_proxy("127.0.0.1").unwrap_err(), "SOCKS5 proxy must use host:port format.");
    assert_eq!(normalize_socks5_proxy("host:99999").unwrap_err(), "SOCKS5 proxy port is invalid.");
    assert_eq!(normalize_socks5_proxy("host:0").unwrap_err(), "SOCKS5 proxy host or port is invalid.");
    assert_eq!(normalize_socks5_proxy("-bad-.example:1080").unwrap_err(), "SOCKS5 proxy host is invalid.");
    assert_eq!(normalize_socks5_proxy("[::1]:1080").unwrap_err(), "SOCKS5 proxy host is invalid.");
    assert_eq!(normalize_socks5_proxy("::1:1080").unwrap(), "::1:1080");
}

#[test]
fn dns_settings_refuse_a_proxy_with_dot() {
    let mut settings: DnsSettings = default_dns_settings();
    assert_eq!(settings.protocol, "doh");
    assert_eq!(settings.health_check_targets, vec!["example.com"]);
    settings.socks5_proxy = "socks5h://127.0.0.1:9050".to_string();
    assert_eq!(normalize_dns_settings(settings.clone()).unwrap().socks5_proxy, "127.0.0.1:9050");
    settings.protocol = "dot".to_string();
    assert!(normalize_dns_settings(settings).unwrap_err().contains("DoH only"));
    let saved = dns_settings_from_saved("weird", true, false, String::new(), vec![]);
    assert_eq!(saved.protocol, "doh");
    assert_eq!(saved.health_check_targets, vec!["example.com"]);
}

fn example_query() -> DnsMessageDraft {
    let (draft, _) = readiness_query(0x1234, "example.com.");
    draft
}

#[test]
fn servfail_preserves_transaction_id() {
    let wire = encode_dns_message(&example_query()).unwrap();
    let query = decode_dns_message(&wire).unwrap();
    let response = decode_dns_message(&encode_dns_message(&servfail_response(&query)).unwrap()).unwrap();
    assert_eq!(response.id, query.id);
    assert_eq!(response.response_code, 2);
    assert!(response.is_response);
}

#[test]
fn servfail_preserves_question() {
    let wire = encode_dns_message(&example_query()).unwrap();
    let query = decode_dns_message(&wire).unwrap();
    let response = decode_dns_message(&encode_dns_message(&servfail_response(&query)).unwrap()).unwrap();
    assert_eq!(response.questions[0].record_type, query.questions[0].record_type);
    assert_eq!(response.questions[0].name.trim_end_matches('.'), query.questions[0].name.trim_end_matches('.'));
}

fn answer_for(query: &vane_core::dns_wire::DnsMessageSummary, code: u16, wrong_id: bool) -> Vec<u8> {
    let mut draft = blocked_response(query, &query.questions[0]);
    draft.id = query.id.wrapping_add(u16::from(wrong_id));
    draft.response_code = code;
    if code == 0 {
        draft.a_answers = vec![(query.questions[0].name.clone(), 30, [192, 0, 2, 1])];
    } else {
        draft.a_answers.clear();
    }
    encode_dns_message(&draft).unwrap()
}

#[test]
fn udp_valid_dns_response_is_ready() {
    let query = decode_dns_message(&encode_dns_message(&example_query()).unwrap()).unwrap();
    let result = readiness_result(ReadinessProtocol::Udp, &query, &answer_for(&query, 0, false), 5);
    let evidence = result.unwrap();
    assert_eq!(evidence.answer_count, 1);
    assert_eq!(evidence.transaction_id, 0x1234);
}

#[test]
fn udp_wrong_transaction_id_is_rejected() {
    let query = decode_dns_message(&encode_dns_message(&example_query()).unwrap()).unwrap();
    assert_eq!(
        validate_readiness_response(&query, &answer_for(&query, 0, true)),
        Err("transaction ID mismatch".to_string())
    );
}

#[test]
fn udp_malformed_response_is_rejected() {
    let query = decode_dns_message(&encode_dns_message(&example_query()).unwrap()).unwrap();
    let error = validate_readiness_response(&query, &[0, 1, 2]).unwrap_err();
    assert!(error.starts_with("malformed DNS response: "));
    let failure = readiness_result(ReadinessProtocol::Udp, &query, &[0, 1, 2], 1).unwrap_err();
    assert_eq!(failure.stage, "validate");
}

#[test]
fn udp_servfail_is_rejected() {
    let query = decode_dns_message(&encode_dns_message(&example_query()).unwrap()).unwrap();
    assert_eq!(
        validate_readiness_response(&query, &answer_for(&query, 2, false)),
        Err("upstream returned SERVFAIL".to_string())
    );
    let nx = validate_readiness_response(&query, &answer_for(&query, 3, false)).unwrap_err();
    assert!(nx.starts_with("upstream returned DNS response code: "));
}

#[test]
fn tcp_invalid_length_is_rejected() {
    let error = check_tcp_answer_length(0, ReadinessProtocol::Tcp).unwrap_err();
    assert_eq!(error.stage, "read_length");
    assert_eq!(error.message(), "DNS Tcp functional readiness failed at read_length: zero-length DNS response");
    assert_eq!(check_tcp_answer_length(42, ReadinessProtocol::Tcp).unwrap(), 42);
}

#[test]
fn blocked_answer_points_at_unspecified_address() {
    let query = decode_dns_message(&encode_dns_message(&example_query()).unwrap()).unwrap();
    let blocked = blocked_response(&query, &query.questions[0]);
    assert_eq!(blocked.a_answers.len(), 1);
    assert_eq!(blocked.a_answers[0].1, 3600);
    assert_eq!(blocked.a_answers[0].2, [0, 0, 0, 0]);
    let wire = encode_dns_message(&blocked).unwrap();
    let decoded = decode_dns_message(&wire).unwrap();
    assert_eq!(decoded.answer_count, 1);
    assert_eq!(decoded.response_code, 0);
}

#[test]
fn cache_ttl_and_aging() {
    assert_eq!(response_cache_ttl(&vec![300, 60], &vec![120]), 60);
    assert_eq!(response_cache_ttl(&vec![], &vec![]), 30);
    assert_eq!(response_cache_ttl(&vec![0], &vec![]), 1);
    assert_eq!(response_cache_ttl(&vec![1_000_000], &vec![]), 86_400);

    let query = decode_dns_message(&encode_dns_message(&example_query()).unwrap()).unwrap();
    let answer = answer_for(&query, 0, false);
    let aged = age_cached_response(&answer, 20).unwrap();
    assert_eq!(record_ttls(&aged).unwrap().0, vec![10]);
    let expired = age_cached_response(&answer, 45).unwrap();
    assert_eq!(record_ttls(&expired).unwrap().0, vec![0]);
}

#[test]
fn transaction_ids_are_patched_and_ignored_for_cache_keys() {
    let mut wire = vec![0x12, 0x34, 0x01, 0x00];
    set_transaction_id(&mut wire, 0xabcd);
    assert_eq!(wire, vec![0xab, 0xcd, 0x01, 0x00]);
    assert_eq!(cache_key_input(&wire), vec![0, 0, 0x01, 0x00]);
    let mut short = vec![7];
    set_transaction_id(&mut short, 1);
    assert_eq!(short, vec![7]);
}

#[test]
fn local_names_go_to_the_system_resolver() {
    let q = |name: &str| DnsQuestion { name: name.to_string(), record_type: 1, class: 1 };
    assert!(is_local_query(&vec![q("printer.local.")]));
    assert!(is_local_query(&vec![q("example.com."), q("1.0.168.192.in-addr.arpa.")]));
    assert!(!is_local_query(&vec![q("example.com.")]));
}

#[test]
fn doh_answers_are_checked_before_use() {
    assert_eq!(check_doh_head(200, Some("application/dns-message; charset=x"), Some(100)), Ok(()));
    assert_eq!(check_doh_head(503, Some("application/dns-message"), None), Err(DnsForwardError::UpstreamHttpStatus(503)));
    assert_eq!(check_doh_head(200, Some("text/html"), None), Err(DnsForwardError::UpstreamContentType));
    assert_eq!(check_doh_head(200, None, None), Err(DnsForwardError::UpstreamContentType));
    assert_eq!(
        check_doh_head(200, Some("application/dns-message"), Some(70_000)),
        Err(DnsForwardError::UpstreamResponseTooLarge)
    );
    let query = decode_dns_message(&encode_dns_message(&example_query()).unwrap()).unwrap();
    let answer = answer_for(&query, 0, false);
    assert_eq!(check_doh_body(&answer, 0x1234), Ok(()));
    assert_eq!(
        check_doh_body(&answer, 0x9999),
        Err(DnsForwardError::UpstreamMalformedDns("transaction ID mismatch".to_string()))
    );
    assert_eq!(DnsForwardError::UpstreamHttpStatus(503).message(), "upstream_http_status: 503");
}

#[test]
fn tcp_valid_dns_response_is_ready() {
    let query = decode_dns_message(&encode_dns_message(&example_query()).unwrap()).unwrap();
    let answer = answer_for(&query, 0, false);
    let length = check_tcp_answer_length(answer.len() as u16, ReadinessProtocol::Tcp).unwrap();
    assert_eq!(length, answer.len());
    let evidence = readiness_result(ReadinessProtocol::Tcp, &query, &answer, 7).unwrap();
    assert_eq!(evidence.protocol, ReadinessProtocol::Tcp);
    assert_eq!(evidence.answer_count, 1);
}

#[test]
fn tcp_partial_response_is_rejected() {
    let query = decode_dns_message(&encode_dns_message(&example_query()).unwrap()).unwrap();
    let answer = answer_for(&query, 0, false);
    let partial = &answer[..answer.len() / 2];
    let error = readiness_result(ReadinessProtocol::Tcp, &query, partial, 7).unwrap_err();
    assert_eq!(error.stage, "validate");
}

#[test]
fn j03_doh_dns_wire_format_encode_decode() {
    let draft = DnsMessageDraft {
        id: 1234,
        is_response: false,
        op_code: 0,
        recursion_desired: true,
        recursion_available: false,
        response_code: 0,
        questions: vec![DnsQuestion { name: "example.com.".to_string(), record_type: 1, class: 1 }],
        a_answers: vec![],
    };
    let encoded = encode_dns_message(&draft).unwrap();
    assert!(!encoded.is_empty());
    let decoded = decode_dns_message(&encoded).unwrap();
    assert_eq!(decoded.id, 1234);
    assert_eq!(decoded.questions.len(), 1);
}

#[test]
fn hosts_file_parsing_lists_each_domain_once() {
    let content = "0.0.0.0 a.example.com b.example.com\n127.0.0.1 A.example.com\n0.0.0.0 b.example.com c.example.com\n";
    assert_eq!(parse_hosts_file(content), vec!["a.example.com", "b.example.com", "c.example.com"]);
}

#[test]
fn dot_reply_keeps_the_query_header_and_carries_the_outcome() {
    let header = DotQueryHeader { id: 77, op_code: 0, recursion_desired: true, checking_disabled: false, has_edns: true };
    let plan = dot_reply_plan(header, DotLookupOutcome::Records).unwrap();
    assert_eq!((plan.id, plan.response_code, plan.copy_answers, plan.soa_authority), (77, 0, true, false));
    assert!(plan.recursion_available && plan.recursion_desired && plan.copy_edns);
    let plan = dot_reply_plan(header, DotLookupOutcome::NoRecords { response_code: 3, has_soa: true }).unwrap();
    assert_eq!((plan.response_code, plan.copy_answers, plan.soa_authority), (3, false, true));
    assert_eq!(
        dot_reply_plan(header, DotLookupOutcome::Failed("timeout".to_string())),
        Err(DnsForwardError::DotResolution("timeout".to_string()))
    );
}
