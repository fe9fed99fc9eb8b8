use vane_core::dns_cache::{
    clear_dns_cache, get_cached_dns, init_dns_cache, set_cached_dns, DnsCache, DNS_CACHE_CAPACITY,
};
use vane_core::dns_wire::{
    blocked_response, decode_dns_message, encode_dns_message, readiness_query, record_ttls,
};

fn cached_answer(ttl: u32) -> Vec<u8> {
    let (draft, _) = readiness_query(0x1234, "example.com.");
    let query = decode_dns_message(&encode_dns_message(&draft).unwrap()).unwrap();
    let mut answer = blocked_response(&query, &query.questions[0]);
    answer.a_answers = vec![(query.questions[0].name.clone(), ttl, [192, 0, 2, 1])];
    encode_dns_message(&answer).unwrap()
}

#[test]
fn cache_holder_is_created_once() {
    let mut holder: Option<DnsCache> = None;
    init_dns_cache(&mut holder);
    assert_eq!(holder.as_ref().unwrap().len(), 0);
    set_cached_dns(&mut holder, "k".to_string(), cached_answer(60), 60, 1_000);
    init_dns_cache(&mut holder);
    assert_eq!(holder.as_ref().unwrap().len(), 1);
}

#[test]
fn missing_cache_stores_and_serves_nothing() {
    let mut holder: Option<DnsCache> = None;
    set_cached_dns(&mut holder, "k".to_string(), cached_answer(60), 60, 1_000);
    assert!(holder.is_none());
    assert_eq!(get_cached_dns(&mut holder, "k", 1_000), None);
    clear_dns_cache(&mut holder);
    assert!(holder.is_none());
}

#[test]
fn served_answer_has_ttls_aged_by_whole_seconds() {
    let mut holder = Some(DnsCache::new());
    set_cached_dns(&mut holder, "k".to_string(), cached_answer(30), 30, 10_000);
    let fresh = get_cached_dns(&mut holder, "k", 10_000).unwrap();
    assert_eq!(record_ttls(&fresh).unwrap().0, vec![30]);
    let later = get_cached_dns(&mut holder, "k", 22_999).unwrap();
    assert_eq!(record_ttls(&later).unwrap().0, vec![18]);
    assert_eq!(get_cached_dns(&mut holder, "other", 22_999), None);
}

#[test]
fn expired_answer_is_dropped_on_lookup() {
    let mut holder = Some(DnsCache::new());
    set_cached_dns(&mut holder, "k".to_string(), cached_answer(5), 5, 0);
    assert!(get_cached_dns(&mut holder, "k", 4_999).is_some());
    assert_eq!(get_cached_dns(&mut holder, "k", 5_000), None);
    assert_eq!(holder.as_ref().unwrap().len(), 0);
}

#[test]
fn zero_ttl_is_kept_for_one_second() {
    let mut holder = Some(DnsCache::new());
    set_cached_dns(&mut holder, "k".to_string(), cached_answer(0), 0, 100);
    assert!(get_cached_dns(&mut holder, "k", 1_099).is_some());
    assert_eq!(get_cached_dns(&mut holder, "k", 1_100), None);
}

#[test]
fn storing_again_replaces_the_answer() {
    let mut cache = DnsCache::new();
    cache.store("k".to_string(), vec![1], 60, 0);
    cache.store("k".to_string(), vec![2], 60, 10);
    assert_eq!(cache.len(), 1);
    assert_eq!(cache.lookup("k", 20), Some((vec![2], 10)));
}

#[test]
fn storing_drops_expired_answers() {
    let mut cache = DnsCache::new();
    cache.store("a".to_string(), vec![1], 1, 0);
    cache.store("b".to_string(), vec![2], 60, 0);
    cache.store("c".to_string(), vec![3], 60, 1_000);
    assert_eq!(cache.len(), 2);
    assert_eq!(cache.lookup("a", 1_000), None);
}

#[test]
fn full_cache_evicts_the_least_recently_used_answer() {
    let mut cache = DnsCache::new();
    for i in 0..DNS_CACHE_CAPACITY {
        cache.store(format!("key{i}"), vec![0], 3_600, i as u64);
    }
    assert_eq!(cache.len(), DNS_CACHE_CAPACITY);
    // Touching the oldest answer makes "key1" the least recently used.
    assert!(cache.lookup("key0", 10_000).is_some());
    cache.store("new".to_string(), vec![9], 3_600, 10_001);
    assert_eq!(cache.len(), DNS_CACHE_CAPACITY);
    assert_eq!(cache.lookup("key1", 10_002), None);
    assert!(cache.lookup("key0", 10_002).is_some());
    assert_eq!(cache.lookup("new", 10_002), Some((vec![9], 10_001)));
}

#[test]
fn clearing_forgets_everything() {
    let mut holder = Some(DnsCache::new());
    set_cached_dns(&mut holder, "k".to_string(), cached_answer(60), 60, 0);
    clear_dns_cache(&mut holder);
    assert_eq!(holder.as_ref().unwrap().len(), 0);
    assert_eq!(get_cached_dns(&mut holder, "k", 1), None);
}
