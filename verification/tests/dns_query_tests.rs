use vane_core::dns_wire::response_code_name;
use vane_core::dns_cache::DnsCache;
use vane_core::dns_forwarder::{DnsForwardError, DnsSettings};
use vane_core::dns_query::{
    choose_doh_client, finish_dns_query, parse_dns_query, reply_for, route_dns_query, tcp_frame, DnsQueryRoute,
    DohClientChoice,
};
use vane_core::dns_wire::{
    blocked_response, decode_dns_message, encode_dns_message, readiness_query, record_ttls, DnsMessageDraft,
};

fn settings(protocol: &str, adblock: bool, cache: bool) -> DnsSettings {
    DnsSettings {
        protocol: protocol.to_string(),
        adblock,
        cache,
        socks5_proxy: String::new(),
        health_check_targets: vec![],
    }
}

fn query_for(id: u16, name: &str) -> Vec<u8> {
    let (_, wire) = readiness_query(id, name);
    wire.unwrap()
}

fn upstream_answer(query: &[u8], ttl: u32) -> Vec<u8> {
    let parsed = decode_dns_message(query).unwrap();
    let mut answer = blocked_response(&parsed, &parsed.questions[0]);
    answer.a_answers = vec![(parsed.questions[0].name.clone(), ttl, [192, 0, 2, 7])];
    encode_dns_message(&answer).unwrap()
}

#[test]
fn undecodable_query_is_invalid() {
    assert!(matches!(parse_dns_query(&[1, 2, 3], false), Err(DnsForwardError::InvalidQuery(_))));
}

#[test]
fn local_names_ask_the_system_resolver_unless_the_kill_switch_is_on() {
    let local = query_for(7, "printer.local.");
    assert!(parse_dns_query(&local, false).unwrap().1);
    assert!(!parse_dns_query(&local, true).unwrap().1);
    let public = query_for(7, "example.com.");
    assert!(!parse_dns_query(&public, false).unwrap().1);
}

#[test]
fn query_without_question_is_unsupported() {
    let draft = DnsMessageDraft {
        id: 9,
        is_response: false,
        op_code: 0,
        recursion_desired: true,
        recursion_available: false,
        response_code: 0,
        questions: vec![],
        a_answers: vec![],
    };
    let wire = encode_dns_message(&draft).unwrap();
    let (parsed, _) = parse_dns_query(&wire, false).unwrap();
    let mut cache = Some(DnsCache::new());
    let routed = route_dns_query(&wire, &parsed, &settings("doh", false, true), &vec![], &mut cache, 0);
    assert!(matches!(routed, Err(DnsForwardError::UnsupportedQuery)));
}

#[test]
fn blocked_names_get_the_block_answer() {
    let wire = query_for(0x4242, "ads.Tracker.example.");
    let (parsed, _) = parse_dns_query(&wire, false).unwrap();
    let list = vec!["tracker.example".to_string()];
    let mut cache = Some(DnsCache::new());
    let (_, route) = route_dns_query(&wire, &parsed, &settings("doh", true, true), &list, &mut cache, 0).unwrap();
    let DnsQueryRoute::Answer(answer) = route else { panic!("expected a local answer") };
    let decoded = decode_dns_message(&answer).unwrap();
    assert_eq!(decoded.id, 0x4242);
    assert_eq!(decoded.answer_count, 1);
    assert_eq!(record_ttls(&answer).unwrap().0, vec![3600]);
    // With the block list off the same name goes upstream.
    let (_, route) = route_dns_query(&wire, &parsed, &settings("doh", false, true), &list, &mut cache, 0).unwrap();
    assert!(matches!(route, DnsQueryRoute::ResolveDoh));
}

#[test]
fn dot_resolves_the_clean_lowercase_name() {
    let wire = query_for(1, "WWW.Example.COM.");
    let (parsed, _) = parse_dns_query(&wire, false).unwrap();
    let mut cache = Some(DnsCache::new());
    let (key, route) = route_dns_query(&wire, &parsed, &settings("dot", false, true), &vec![], &mut cache, 0).unwrap();
    match route {
        DnsQueryRoute::ResolveDot { name, record_type } => {
            assert_eq!(name, "www.example.com");
            assert_eq!(record_type, 1);
        },
        other => panic!("unexpected route {other:?}"),
    }
    assert_eq!(key.len(), 64);
}

#[test]
fn cached_answers_are_served_under_the_new_transaction_id() {
    let first = query_for(0x1111, "example.com.");
    let (parsed, _) = parse_dns_query(&first, false).unwrap();
    let dns = settings("doh", false, true);
    let mut cache = Some(DnsCache::new());
    let (key, route) = route_dns_query(&first, &parsed, &dns, &vec![], &mut cache, 1_000).unwrap();
    assert!(matches!(route, DnsQueryRoute::ResolveDoh));
    let upstream = upstream_answer(&first, 300);
    let sent = finish_dns_query(&dns, &mut cache, key.clone(), upstream.clone(), 1_000);
    assert_eq!(sent, upstream);

    let second = query_for(0x2222, "example.com.");
    let (parsed2, _) = parse_dns_query(&second, false).unwrap();
    let (key2, route) = route_dns_query(&second, &parsed2, &dns, &vec![], &mut cache, 11_000).unwrap();
    assert_eq!(key2, key);
    let DnsQueryRoute::Answer(answer) = route else { panic!("expected the cached answer") };
    assert_eq!(decode_dns_message(&answer).unwrap().id, 0x2222);
    assert_eq!(record_ttls(&answer).unwrap().0, vec![290]);
}

#[test]
fn cache_off_neither_stores_nor_serves() {
    let wire = query_for(3, "example.com.");
    let (parsed, _) = parse_dns_query(&wire, false).unwrap();
    let dns = settings("doh", false, false);
    let mut cache = Some(DnsCache::new());
    let (key, _) = route_dns_query(&wire, &parsed, &dns, &vec![], &mut cache, 0).unwrap();
    finish_dns_query(&dns, &mut cache, key, upstream_answer(&wire, 300), 0);
    assert_eq!(cache.as_ref().unwrap().len(), 0);
    let (_, route) = route_dns_query(&wire, &parsed, &dns, &vec![], &mut cache, 0).unwrap();
    assert!(matches!(route, DnsQueryRoute::ResolveDoh));
}

#[test]
fn failures_are_answered_with_servfail() {
    let wire = query_for(0x0bad, "example.com.");
    let (parsed, _) = parse_dns_query(&wire, false).unwrap();
    let reply = reply_for(&parsed, Err(DnsForwardError::UpstreamContentType)).unwrap();
    let decoded = decode_dns_message(&reply).unwrap();
    assert_eq!(decoded.id, 0x0bad);
    assert_eq!(decoded.response_code, 2);
    assert_eq!(reply_for(&parsed, Ok(vec![1, 2, 3])), Some(vec![1, 2, 3]));
}

#[test]
fn tcp_frames_carry_a_big_endian_length() {
    assert_eq!(tcp_frame(&[9, 8, 7]), Some(vec![0, 3, 9, 8, 7]));
    assert_eq!(tcp_frame(&vec![0u8; 300]).unwrap()[..2], [1, 44]);
    assert_eq!(tcp_frame(&vec![0u8; 65_536]), None);
}

#[test]
fn doh_client_follows_the_proxy_setting() {
    assert_eq!(choose_doh_client("", None), DohClientChoice::Direct);
    assert_eq!(choose_doh_client("127.0.0.1:9050", Some("127.0.0.1:9050")), DohClientChoice::Proxy);
    assert_eq!(choose_doh_client("127.0.0.1:9050", Some("127.0.0.1:1080")), DohClientChoice::Unavailable);
    assert_eq!(choose_doh_client("127.0.0.1:9050", None), DohClientChoice::Unavailable);
}

#[test]
fn response_code_names_follow_the_registry() {
    assert_eq!(response_code_name(0), "NoError");
    assert_eq!(response_code_name(3), "NXDomain");
    assert_eq!(response_code_name(16), "BADSIG");
    assert_eq!(response_code_name(23), "BADCOOKIE");
    assert_eq!(response_code_name(12), "Unknown(12)");
}
