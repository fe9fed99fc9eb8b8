//! How the forwarder answers one query: what it decides between the calls
//! that go out (the system resolver for local names, DoT or DoH upstream)
//! and what it does with the upstream answer.

use vstd::prelude::*;
use crate::text::{str_eq, str_to_lowercase, str_trim_end_char, trim_end_char, text_lowercase, view_strings};
use crate::digest::{hex_of, sha256_digest, sha256_hex_bytes};
use crate::dns_cache::{
    elapsed_secs, expiry, get_cached_dns, holder_wf, set_cached_dns, CachedAnswerView, DnsCache,
};
use crate::dns_manager::NetworkAdapter;
use crate::dns_forwarder::{domain_blocked, is_domain_blocked, DnsForwardError, DnsSettings};
use crate::dns_wire::{
    aged_response, blocked_draft, blocked_response, cache_key_input, cache_ttl, decode_dns_message, dns_decode,
    dns_encode, dns_record_ttls, encode_dns_message, is_local_query, local_name, record_ttls, response_cache_ttl,
    servfail_draft, servfail_response, set_transaction_id, with_id, DnsMessageSummary, DnsMessageView,
};

verus! {

/// A query's first decision: the decoded query, and whether to ask the
/// system resolver first (a local name while the kill switch is off).
pub fn parse_dns_query(query: &[u8], kill_switch_enabled: bool) -> (r: Result<(DnsMessageSummary, bool), DnsForwardError>)
    ensures
        match dns_decode(query@) {
            None => r matches Err(DnsForwardError::InvalidQuery(_)),
            Some(m) => r matches Ok((s, ask)) && s@ == m && ask == ((exists|i: int|
                0 <= i < m.questions.len() && local_name(#[trigger] m.questions[i].name)) && !kill_switch_enabled),
        },
{
    match decode_dns_message(query) {
        Err(e) => Err(DnsForwardError::InvalidQuery(e)),
        Ok(m) => {
            let local = is_local_query(&m.questions);
            proof {
                assert forall|i: int| 0 <= i < m@.questions.len() implies m@.questions[i].name == m.questions@[i].name@ by {}
                if exists|i: int| 0 <= i < m@.questions.len() && local_name(#[trigger] m@.questions[i].name) {
                    let i = choose|i: int| 0 <= i < m@.questions.len() && local_name(#[trigger] m@.questions[i].name);
                    assert(local_name(m.questions@[i].name@));
                }
                if local {
                    let i = choose|i: int| 0 <= i < m.questions@.len() && local_name(#[trigger] m.questions@[i].name@);
                    assert(local_name(m@.questions[i].name));
                }
            }
            Ok((m, local && !kill_switch_enabled))
        },
    }
}

/// Where a query goes once the local resolver has not answered it.
#[derive(Debug)]
pub enum DnsQueryRoute {
    /// Send these bytes back: the block-list answer or a cached one.
    Answer(Vec<u8>),
    /// Resolve the name (without its final dot, lowercased) over DoT.
    ResolveDot { name: String, record_type: u16 },
    /// Post the query to the DoH upstream.
    ResolveDoh,
}

/// The cache key of a query: the SHA-256 of the packet with a zero id, in
/// lowercase hex.
pub open spec fn query_cache_key(wire: Seq<u8>) -> Seq<char> {
    hex_of(sha256_digest(with_id(wire, 0)))
}

/// The name a question is matched and resolved by.
pub open spec fn clean_name(name: Seq<char>) -> Seq<char> {
    text_lowercase(trim_end_char(name, '.'))
}

/// The encoded block-list answer; empty when it cannot be encoded.
pub open spec fn blocked_answer(q: DnsMessageView) -> Seq<u8> {
    match dns_encode(blocked_draft(q, q.questions[0])) {
        Some(w) => w,
        None => seq![],
    }
}

/// The cache holder after a lookup of `key` at `now_ms`, and what it
/// served (see `get_cached_dns`).
pub open spec fn cache_served(c: DnsCache, key: Seq<char>, now_ms: u64) -> Option<Seq<u8>> {
    match c.contents().get(key) {
        None => None,
        Some(e) => if now_ms >= e.expires_at_ms {
            None
        } else {
            aged_response(e.response, elapsed_secs(e.stored_at_ms, now_ms))
        },
    }
}

pub open spec fn cache_after_lookup(
    c: DnsCache,
    key: Seq<char>,
    now_ms: u64,
) -> Map<Seq<char>, CachedAnswerView> {
    match c.contents().get(key) {
        None => c.contents(),
        Some(e) => if now_ms >= e.expires_at_ms {
            c.contents().remove(key)
        } else {
            c.contents().insert(key, CachedAnswerView { last_used_ms: now_ms, ..e })
        },
    }
}

/// Queries that differ only in their transaction id share a cache key.
pub proof fn lemma_cache_key_ignores_transaction_id(wire: Seq<u8>, a: u16, b: u16)
    ensures
        query_cache_key(with_id(wire, a)) == query_cache_key(with_id(wire, b)),
{
    assert(with_id(with_id(wire, a), 0) =~= with_id(wire, 0));
    assert(with_id(with_id(wire, b), 0) =~= with_id(wire, 0));
}

/// A stored answer is served, with its TTLs aged by the whole seconds since
/// it was stored, until it expires (one second at least after it was
/// stored); from then on it is dropped and not served.
pub proof fn lemma_stored_answer_is_served(
    c: DnsCache,
    key: Seq<char>,
    response: Seq<u8>,
    ttl_secs: u32,
    stored_ms: u64,
    now_ms: u64,
)
    requires
        c.contents().contains_key(key),
        c.contents()[key] == (CachedAnswerView {
            response,
            stored_at_ms: stored_ms,
            expires_at_ms: expiry(stored_ms, ttl_secs),
            last_used_ms: stored_ms,
        }),
    ensures
        stored_ms + 1000 <= u64::MAX ==> expiry(stored_ms, ttl_secs) >= stored_ms + 1000,
        now_ms < expiry(stored_ms, ttl_secs) ==> cache_served(c, key, now_ms) == aged_response(
            response,
            elapsed_secs(stored_ms, now_ms),
        ) && cache_after_lookup(c, key, now_ms).contains_key(key) && cache_after_lookup(c, key, now_ms)[key].response
            == response,
        now_ms >= expiry(stored_ms, ttl_secs) ==> cache_served(c, key, now_ms) is None && !cache_after_lookup(
            c,
            key,
            now_ms,
        ).contains_key(key),
{
}

/// The route of a decoded query after the local resolver: no question is
/// refused; a blocked name (block list on) gets the block answer; a cached
/// answer (cache on) is served under the query's id; otherwise the name
/// goes to DoT when that is the protocol, else the query goes to DoH.
/// Returns the query's cache key with the route.
pub fn route_dns_query(
    query_wire: &[u8],
    parsed: &DnsMessageSummary,
    settings: &DnsSettings,
    block_list: &Vec<String>,
    cache: &mut Option<DnsCache>,
    now_ms: u64,
) -> (r: Result<(String, DnsQueryRoute), DnsForwardError>)
    requires
        holder_wf(*old(cache)),
    ensures
        holder_wf(*final(cache)),
        parsed@.questions.len() == 0 ==> r == Err::<(String, DnsQueryRoute), DnsForwardError>(
            DnsForwardError::UnsupportedQuery) && *final(cache) == *old(cache),
        parsed@.questions.len() > 0 ==> {
            let q = parsed@.questions[0];
            let name = clean_name(q.name);
            let blocked = settings.adblock && domain_blocked(view_strings(block_list@), name);
            let key = query_cache_key(query_wire@);
            let cached = if settings.cache && !blocked {
                match *old(cache) {
                    Some(c) => cache_served(c, key, now_ms),
                    None => None,
                }
            } else {
                None
            };
            &&& r matches Ok((k, route)) && k@ == key
            &&& blocked ==> (r matches Ok((_, DnsQueryRoute::Answer(a))) && a@ == blocked_answer(parsed@))
            &&& (!blocked && cached is Some) ==> (r matches Ok((_, DnsQueryRoute::Answer(a))) && a@ == with_id(
                cached->0,
                parsed@.id,
            ))
            &&& (!blocked && cached is None && settings.protocol@ == "dot"@) ==> (r matches Ok(
                (_, DnsQueryRoute::ResolveDot { name: n, record_type: t }),
            ) && n@ == name && t == q.record_type)
            &&& (!blocked && cached is None && settings.protocol@ != "dot"@) ==> (r matches Ok(
                (_, DnsQueryRoute::ResolveDoh),
            ))
            &&& (settings.cache && !blocked) ==> match *old(cache) {
                Some(c) => (*final(cache)) matches Some(f) && f.contents() == cache_after_lookup(c, key, now_ms),
                None => (*final(cache)) is None,
            }
            &&& !(settings.cache && !blocked) ==> *final(cache) == *old(cache)
        },
{
    if parsed.questions.len() == 0 {
        return Err(DnsForwardError::UnsupportedQuery);
    }
    let question = &parsed.questions[0];
    let trimmed = str_trim_end_char(question.name.as_str(), '.');
    let name = str_to_lowercase(trimmed.as_str());
    let key_input = cache_key_input(query_wire);
    let key = sha256_hex_bytes(key_input.as_slice());
    proof {
        assert(parsed@.questions[0] == question@);
    }
    if settings.adblock && is_domain_blocked(block_list, name.as_str()) {
        let answer = match encode_dns_message(&blocked_response(parsed, question)) {
            Some(w) => w,
            None => Vec::new(),
        };
        proof {
            assert(answer@ == blocked_answer(parsed@));
        }
        return Ok((key, DnsQueryRoute::Answer(answer)));
    }
    if settings.cache {
        match get_cached_dns(cache, key.as_str(), now_ms) {
            Some(mut answer) => {
                set_transaction_id(&mut answer, parsed.id);
                return Ok((key, DnsQueryRoute::Answer(answer)));
            },
            None => {},
        }
    }
    if str_eq(settings.protocol.as_str(), "dot") {
        Ok((key, DnsQueryRoute::ResolveDot { name, record_type: question.record_type }))
    } else {
        Ok((key, DnsQueryRoute::ResolveDoh))
    }
}

/// How long an upstream answer is cached, from the TTLs of its answer and
/// authority records.
pub open spec fn answer_cache_ttl(wire: Seq<u8>) -> u32 {
    match dns_record_ttls(wire) {
        Some((answers, authorities, _)) => cache_ttl(answers, authorities),
        None => 0,
    }
}

/// The upstream answer, stored in the cache when the cache is on and the
/// answer decodes (for the smallest answer or authority TTL, 30 seconds
/// when there is none, within one second and a day), and handed back.
pub fn finish_dns_query(
    settings: &DnsSettings,
    cache: &mut Option<DnsCache>,
    key: String,
    response: Vec<u8>,
    now_ms: u64,
) -> (r: Vec<u8>)
    requires
        holder_wf(*old(cache)),
    ensures
        holder_wf(*final(cache)),
        r@ == response@,
        !settings.cache || dns_record_ttls(response@) is None ==> *final(cache) == *old(cache),
        settings.cache && dns_record_ttls(response@) is Some && (*old(cache)) is Some ==> ((*final(cache)) matches Some(f)
            && f.contents().contains_key(key@) && f.contents()[key@] == (CachedAnswerView {
            response: response@,
            stored_at_ms: now_ms,
            expires_at_ms: expiry(now_ms, answer_cache_ttl(response@)),
            last_used_ms: now_ms,
        })),
        settings.cache && (*old(cache)) is None ==> (*final(cache)) is None,
{
    if settings.cache {
        match record_ttls(response.as_slice()) {
            Some((answers, authorities, _)) => {
                let ttl = response_cache_ttl(&answers, &authorities);
                let stored = response.clone();
                proof {
                    assert(stored@ =~= response@);
                }
                set_cached_dns(cache, key, stored, ttl, now_ms);
            },
            None => {},
        }
    }
    response
}

/// What the forwarder sends back for a query: the answer, or when
/// answering failed, SERVFAIL for the query; nothing when that cannot be
/// encoded either.
pub fn reply_for(query: &DnsMessageSummary, outcome: Result<Vec<u8>, DnsForwardError>) -> (r: Option<Vec<u8>>)
    ensures
        outcome is Ok ==> (r matches Some(w) && w@ == outcome->Ok_0@),
        outcome is Err ==> match dns_encode(servfail_draft(query@)) {
            Some(w) => r matches Some(v) && v@ == w,
            None => r is None,
        },
{
    match outcome {
        Ok(w) => Some(w),
        Err(_) => encode_dns_message(&servfail_response(query)),
    }
}

/// A DNS message framed for TCP: its length as two big-endian bytes, then
/// the message; `None` for a message longer than 65535 bytes.
pub fn tcp_frame(message: &[u8]) -> (r: Option<Vec<u8>>)
    ensures
        message@.len() > 65535 ==> r is None,
        message@.len() <= 65535 ==> (r matches Some(f) && f@ == seq![
            (message@.len() / 256) as u8,
            (message@.len() % 256) as u8,
        ] + message@),
{
    if message.len() > 65535 {
        return None;
    }
    let n = message.len();
    let mut framed: Vec<u8> = Vec::new();
    framed.push((n / 256) as u8);
    framed.push((n % 256) as u8);
    let mut i: usize = 0;
    while i < message.len()
        invariant
            i <= message@.len(),
            n == message@.len(),
            framed@ == seq![(n / 256) as u8, (n % 256) as u8] + message@.take(i as int),
        decreases message@.len() - i,
    {
        framed.push(message[i]);
        proof {
            assert(message@.take(i + 1) =~= message@.take(i as int).push(message@[i as int]));
        }
        i += 1;
    }
    proof {
        assert(message@.take(message@.len() as int) =~= message@);
    }
    Some(framed)
}

/// Which HTTP client carries DoH queries.
#[derive(Debug, Clone, Copy, PartialEq, Eq, Structural)]
pub enum DohClientChoice {
    /// The direct client.
    Direct,
    /// The SOCKS5 client built for the configured proxy.
    Proxy,
    /// A proxy is configured but no client was built for it.
    Unavailable,
}

/// No proxy means the direct client; a proxy needs the client that was
/// built for that very address.
pub fn choose_doh_client(socks5_proxy: &str, proxy_client_address: Option<&str>) -> (r: DohClientChoice)
    ensures
        socks5_proxy@.len() == 0 ==> r == DohClientChoice::Direct,
        socks5_proxy@.len() > 0 ==> (r == DohClientChoice::Proxy <==> (proxy_client_address matches Some(a) && a@
            == socks5_proxy@)),
        socks5_proxy@.len() > 0 ==> r != DohClientChoice::Direct,
{
    if socks5_proxy.is_empty() {
        return DohClientChoice::Direct;
    }
    match proxy_client_address {
        Some(a) => if str_eq(a, socks5_proxy) {
            DohClientChoice::Proxy
        } else {
            DohClientChoice::Unavailable
        },
        None => DohClientChoice::Unavailable,
    }
}

/// The first primary DNS server among the adapters, if any.
pub open spec fn first_primary(adapters: Seq<NetworkAdapter>) -> Option<Seq<char>>
    decreases adapters.len(),
{
    if adapters.len() == 0 {
        None
    } else {
        match adapters[0].current_primary_dns {
            Some(p) => Some(p@),
            None => first_primary(adapters.drop_first()),
        }
    }
}

/// The resolver local names are asked of: the first primary server the
/// system had before the forwarder took over, unless it is missing, empty
/// or the loopback itself, in which case Cloudflare's.
pub open spec fn fallback_resolver_of(adapters: Seq<NetworkAdapter>) -> Seq<char> {
    match first_primary(adapters) {
        Some(p) => if p == "127.0.0.1"@ || p == "localhost"@ || p.len() == 0 { "1.1.1.1"@ } else { p },
        None => "1.1.1.1"@,
    }
}

fn first_primary_dns(adapters: &Vec<NetworkAdapter>) -> (r: Option<String>)
    ensures
        match r {
            Some(p) => first_primary(adapters@) == Some(p@),
            None => first_primary(adapters@) is None,
        },
{
    let mut i: usize = 0;
    proof {
        assert(adapters@.skip(0) =~= adapters@);
    }
    while i < adapters.len()
        invariant
            i <= adapters@.len(),
            first_primary(adapters@) == first_primary(adapters@.skip(i as int)),
        decreases adapters@.len() - i,
    {
        proof {
            assert(adapters@.skip(i as int).drop_first() =~= adapters@.skip(i + 1));
            assert(adapters@.skip(i as int)[0] == adapters@[i as int]);
        }
        match &adapters[i].current_primary_dns {
            Some(p) => {
                return Some(p.clone());
            },
            None => {},
        }
        i += 1;
    }
    proof {
        assert(adapters@.skip(i as int).len() == 0);
    }
    None
}

pub fn fallback_resolver(adapters: &Vec<NetworkAdapter>) -> (r: String)
    ensures
        r@ == fallback_resolver_of(adapters@),
{
    match first_primary_dns(adapters) {
        None => "1.1.1.1".to_string(),
        Some(p) => if str_eq(p.as_str(), "127.0.0.1") || str_eq(p.as_str(), "localhost") || p.as_str().is_empty() {
            "1.1.1.1".to_string()
        } else {
            p
        },
    }
}

} // verus!
