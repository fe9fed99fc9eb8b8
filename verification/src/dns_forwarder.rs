//! The local DNS forwarder's decisions: which upstream it talks to, how it
//! retries a busy port, which domains a hosts-format block list blocks, how
//! a SOCKS5 upstream is written, and which settings it accepts.

use vstd::prelude::*;
use crate::text::{
    decimal, u64_to_decimal, concat, to_string, str_eq, chars_of, string_of_range, view_strings, join_seq,
    trim, str_trim, starts_with, str_starts_with, str_strip_prefix, str_contains_char, split_char,
    split_ranges, lines_seq, line_ranges, ws_words, split_whitespace, text_lowercase, str_to_lowercase,
    utf8_len, utf8_len_at_most, is_ascii_alnum, parse_unsigned, parse_unsigned_str,
};
use crate::domain::{contains_string, ip_addr_parses, parses_as_ip_addr};
use crate::runtime_config::join_strings;

verus! {

pub const DOH_FORWARDER_DEFAULT_PORT: u16 = 53;

pub const DEFAULT_HEALTH_CHECK_TARGET: &'static str = "example.com";

/// An IPv4 socket address.
#[derive(Debug, Clone, Copy, PartialEq, Eq)]
pub struct SocketAddress {
    pub ip: [u8; 4],
    pub port: u16,
}

/// `a.b.c.d:port`, as `SocketAddr` prints it.
pub open spec fn socket_address_text(a: SocketAddress) -> Seq<char> {
    decimal(a.ip[0] as nat) + "."@ + decimal(a.ip[1] as nat) + "."@ + decimal(a.ip[2] as nat) + "."@
        + decimal(a.ip[3] as nat) + ":"@ + decimal(a.port as nat)
}

impl SocketAddress {
    pub fn to_text(&self) -> (s: String)
        ensures
            s@ == socket_address_text(*self),
    {
        let s = u64_to_decimal(self.ip[0] as u64);
        let s = concat(s.as_str(), ".");
        let s = concat(s.as_str(), u64_to_decimal(self.ip[1] as u64).as_str());
        let s = concat(s.as_str(), ".");
        let s = concat(s.as_str(), u64_to_decimal(self.ip[2] as u64).as_str());
        let s = concat(s.as_str(), ".");
        let s = concat(s.as_str(), u64_to_decimal(self.ip[3] as u64).as_str());
        let s = concat(s.as_str(), ":");
        concat(s.as_str(), u64_to_decimal(self.port as u64).as_str())
    }
}

/// The upstream encrypted resolver.
#[derive(Debug, Clone, Copy, PartialEq, Eq, Structural)]
pub enum DoHEndpoint {
    Cloudflare,
    Google,
}

pub open spec fn endpoint_hostname(e: DoHEndpoint) -> Seq<char> {
    match e {
        DoHEndpoint::Cloudflare => "cloudflare-dns.com"@,
        DoHEndpoint::Google => "dns.google"@,
    }
}

pub open spec fn endpoint_url(e: DoHEndpoint) -> Seq<char> {
    match e {
        DoHEndpoint::Cloudflare => "https://cloudflare-dns.com/dns-query"@,
        DoHEndpoint::Google => "https://dns.google/dns-query"@,
    }
}

/// The fixed addresses an endpoint is reached at, so that reaching it needs
/// no system DNS lookup.
pub open spec fn endpoint_bootstrap(e: DoHEndpoint) -> Seq<SocketAddress> {
    match e {
        DoHEndpoint::Cloudflare => seq![
            SocketAddress { ip: [1, 1, 1, 1], port: 443 },
            SocketAddress { ip: [1, 0, 0, 1], port: 443 },
        ],
        DoHEndpoint::Google => seq![
            SocketAddress { ip: [8, 8, 8, 8], port: 443 },
            SocketAddress { ip: [8, 8, 4, 4], port: 443 },
        ],
    }
}

impl DoHEndpoint {
    pub fn hostname(&self) -> (s: &'static str)
        ensures
            s@ == endpoint_hostname(*self),
    {
        match self {
            DoHEndpoint::Cloudflare => "cloudflare-dns.com",
            DoHEndpoint::Google => "dns.google",
        }
    }

    pub fn url(&self) -> (s: &'static str)
        ensures
            s@ == endpoint_url(*self),
    {
        match self {
            DoHEndpoint::Cloudflare => "https://cloudflare-dns.com/dns-query",
            DoHEndpoint::Google => "https://dns.google/dns-query",
        }
    }

    pub fn bootstrap_socket_addrs(&self) -> (v: Vec<SocketAddress>)
        ensures
            v@ == endpoint_bootstrap(*self),
    {
        let v = match self {
            DoHEndpoint::Cloudflare => vec![
                SocketAddress { ip: [1, 1, 1, 1], port: 443 },
                SocketAddress { ip: [1, 0, 0, 1], port: 443 },
            ],
            DoHEndpoint::Google => vec![
                SocketAddress { ip: [8, 8, 8, 8], port: 443 },
                SocketAddress { ip: [8, 8, 4, 4], port: 443 },
            ],
        };
        proof {
            assert(v@ =~= endpoint_bootstrap(*self));
        }
        v
    }
}

/// The endpoint's URL is on the endpoint's own host.
pub proof fn lemma_endpoint_url_on_hostname(e: DoHEndpoint)
    ensures
        endpoint_url(e) == "https://"@ + endpoint_hostname(e) + "/dns-query"@,
{
    reveal_strlit("https://cloudflare-dns.com/dns-query");
    reveal_strlit("https://dns.google/dns-query");
    reveal_strlit("https://");
    reveal_strlit("cloudflare-dns.com");
    reveal_strlit("dns.google");
    reveal_strlit("/dns-query");
    assert(endpoint_url(DoHEndpoint::Cloudflare) =~= "https://"@ + endpoint_hostname(DoHEndpoint::Cloudflare) + "/dns-query"@);
    assert(endpoint_url(DoHEndpoint::Google) =~= "https://"@ + endpoint_hostname(DoHEndpoint::Google) + "/dns-query"@);
}

// ---------------------------------------------------------------------------
// Binding the forwarder's sockets
// ---------------------------------------------------------------------------

/// The pauses between attempts to bind a port that is still in use.
#[derive(Debug, Clone, Copy, PartialEq, Eq)]
pub struct ForwarderBindRetryPolicy {
    pub retry_delays_ms: [u64; 3],
}

impl ForwarderBindRetryPolicy {
    /// 50, 150 and 300 milliseconds.
    pub fn standard() -> (p: Self)
        ensures
            p.retry_delays_ms@ == seq![50u64, 150u64, 300u64],
    {
        let p = ForwarderBindRetryPolicy { retry_delays_ms: [50, 150, 300] };
        proof {
            assert(p.retry_delays_ms@ =~= seq![50u64, 150u64, 300u64]);
        }
        p
    }
}

#[derive(Debug, Clone, Copy, PartialEq, Eq, Structural)]
pub enum ForwarderBindProtocol {
    Udp,
    Tcp,
}

pub open spec fn bind_protocol_text(p: ForwarderBindProtocol) -> Seq<char> {
    match p {
        ForwarderBindProtocol::Udp => "udp"@,
        ForwarderBindProtocol::Tcp => "tcp"@,
    }
}

impl ForwarderBindProtocol {
    pub fn as_str(&self) -> (s: &'static str)
        ensures
            s@ == bind_protocol_text(*self),
    {
        match self {
            ForwarderBindProtocol::Udp => "udp",
            ForwarderBindProtocol::Tcp => "tcp",
        }
    }
}

/// One failed bind: the socket that failed, whether the system reported
/// the address as in use, its OS error code, and the error kind as printed.
#[derive(Debug, Clone)]
pub struct BindAttemptFailure {
    pub protocol: ForwarderBindProtocol,
    pub address_in_use: bool,
    pub raw_os_error: Option<i32>,
    pub kind: String,
}

/// Why the forwarder could not bind, after how many attempts.
#[derive(Debug, Clone)]
pub struct ForwarderBindError {
    pub protocol: ForwarderBindProtocol,
    pub address: SocketAddress,
    pub attempts: usize,
    pub kind: String,
    pub raw_os_error: Option<i32>,
}

/// A busy address is worth retrying; so is Windows' `WSAEADDRINUSE`.
pub open spec fn retryable_bind_failure(f: BindAttemptFailure) -> bool {
    f.address_in_use || f.raw_os_error == Some(10048i32)
}

/// What to do after a failed bind.
#[derive(Debug, Clone)]
pub enum BindRetryStep {
    RetryAfterMs(u64),
    GiveUp(ForwarderBindError),
}

/// The decision after the `attempts`-th failed bind: retry a busy address
/// after the policy's next pause while pauses remain, otherwise give up
/// with the failure.
pub fn bind_retry_step(
    attempts: usize,
    failure: BindAttemptFailure,
    address: SocketAddress,
    policy: ForwarderBindRetryPolicy,
) -> (s: BindRetryStep)
    requires
        attempts >= 1,
    ensures
        (retryable_bind_failure(failure) && attempts <= 3) ==> s == BindRetryStep::RetryAfterMs(
            policy.retry_delays_ms[attempts - 1]),
        !(retryable_bind_failure(failure) && attempts <= 3) ==> (s matches BindRetryStep::GiveUp(e)
            && e.protocol == failure.protocol && e.address == address && e.attempts == attempts
            && e.kind == failure.kind && e.raw_os_error == failure.raw_os_error),
{
    let retryable = failure.address_in_use || failure.raw_os_error == Some(10048i32);
    if !retryable || attempts > 3 {
        return BindRetryStep::GiveUp(ForwarderBindError {
            protocol: failure.protocol,
            address,
            attempts,
            kind: failure.kind,
            raw_os_error: failure.raw_os_error,
        });
    }
    BindRetryStep::RetryAfterMs(policy.retry_delays_ms[attempts - 1])
}

/// An `i32` as `to_string` prints it.
pub open spec fn i32_text(n: i32) -> Seq<char> {
    if n < 0 { "-"@ + decimal((-(n as int)) as nat) } else { decimal(n as nat) }
}

pub fn i32_to_decimal(n: i32) -> (s: String)
    ensures
        s@ == i32_text(n),
{
    if n < 0 {
        let m: u64 = (-(n as i64)) as u64;
        concat("-", u64_to_decimal(m).as_str())
    } else {
        u64_to_decimal(n as u64)
    }
}

pub open spec fn bind_error_text(e: ForwarderBindError) -> Seq<char> {
    "DNS forwarder "@ + bind_protocol_text(e.protocol) + " bind failed: address="@ + socket_address_text(e.address)
        + ", attempts="@ + decimal(e.attempts as nat) + ", kind="@ + e.kind@ + ", raw_os_error="@ + match e.raw_os_error {
        Some(code) => i32_text(code),
        None => "none"@,
    }
}

impl ForwarderBindError {
    pub fn message(&self) -> (s: String)
        ensures
            s@ == bind_error_text(*self),
    {
        let s = concat("DNS forwarder ", self.protocol.as_str());
        let s = concat(s.as_str(), " bind failed: address=");
        let s = concat(s.as_str(), self.address.to_text().as_str());
        let s = concat(s.as_str(), ", attempts=");
        let s = concat(s.as_str(), u64_to_decimal(self.attempts as u64).as_str());
        let s = concat(s.as_str(), ", kind=");
        let s = concat(s.as_str(), self.kind.as_str());
        let s = concat(s.as_str(), ", raw_os_error=");
        let code = match self.raw_os_error {
            Some(c) => i32_to_decimal(c),
            None => "none".to_string(),
        };
        concat(s.as_str(), code.as_str())
    }
}

// ---------------------------------------------------------------------------
// Block lists in hosts format
// ---------------------------------------------------------------------------

/// A domain that a block list may name: not `localhost`, at most 253 bytes,
/// and every dot-separated label non-empty and at most 63 bytes.
pub open spec fn blockable_domain(d: Seq<char>) -> bool {
    &&& d != "localhost"@
    &&& utf8_len(d) <= 253
    &&& forall|i: int| 0 <= i < split_char(d, '.').len() ==> #[trigger] split_char(d, '.')[i].len() > 0
        && utf8_len(split_char(d, '.')[i]) <= 63
}

/// The domains one line of a hosts file blocks: a line that maps them to
/// `0.0.0.0` or `127.0.0.1` names them, lowercased; comments and other
/// lines name none.
pub open spec fn hosts_line_domains(line: Seq<char>) -> Seq<Seq<char>> {
    let l = trim(line);
    let parts = ws_words(l);
    if l.len() == 0 || l[0] == '#' {
        seq![]
    } else if parts.len() >= 2 && (parts[0] == "0.0.0.0"@ || parts[0] == "127.0.0.1"@) {
        parts.skip(1).map_values(|d: Seq<char>| text_lowercase(d)).filter(|d: Seq<char>| blockable_domain(d))
    } else {
        seq![]
    }
}

/// The domains of a list of lines, in order.
pub open spec fn hosts_domains_of(lines: Seq<Seq<char>>) -> Seq<Seq<char>>
    decreases lines.len(),
{
    if lines.len() == 0 {
        seq![]
    } else {
        hosts_domains_of(lines.drop_last()) + hosts_line_domains(lines.last())
    }
}

pub open spec fn hosts_domains(content: Seq<char>) -> Seq<Seq<char>> {
    hosts_domains_of(lines_seq(content))
}

fn is_blockable_domain(d: &str) -> (r: bool)
    ensures
        r == blockable_domain(d@),
{
    if str_eq(d, "localhost") || !utf8_len_at_most(d, 253) {
        return false;
    }
    let v = chars_of(d);
    let ranges = split_ranges(&v, '.');
    let mut i: usize = 0;
    while i < ranges.len()
        invariant
            i <= ranges@.len(),
            v@ == d@,
            ranges@.len() == split_char(d@, '.').len(),
            forall|k: int| #![trigger ranges@[k]] 0 <= k < ranges@.len() ==> ranges@[k].0 <= ranges@[k].1 <= v@.len()
                && v@.subrange(ranges@[k].0 as int, ranges@[k].1 as int) == split_char(d@, '.')[k],
            forall|k: int| 0 <= k < i ==> #[trigger] split_char(d@, '.')[k].len() > 0
                && utf8_len(split_char(d@, '.')[k]) <= 63,
        decreases ranges@.len() - i,
    {
        let (lo, hi) = ranges[i];
        assert(v@.subrange(lo as int, hi as int) == split_char(d@, '.')[i as int]);
        if lo == hi {
            return false;
        }
        let label = string_of_range(&v, lo, hi);
        if !utf8_len_at_most(label.as_str(), 63) {
            return false;
        }
        i += 1;
    }
    true
}

/// The items of `s` in order, each one only where it first occurs.
pub open spec fn first_occurrences(s: Seq<Seq<char>>) -> Seq<Seq<char>>
    decreases s.len(),
{
    if s.len() == 0 {
        seq![]
    } else {
        let acc = first_occurrences(s.drop_last());
        if acc.contains(s.last()) {
            acc
        } else {
            acc.push(s.last())
        }
    }
}

pub proof fn lemma_first_occurrences_same_set(s: Seq<Seq<char>>)
    ensures
        first_occurrences(s).to_set() == s.to_set(),
    decreases s.len(),
{
    if s.len() == 0 {
        assert(first_occurrences(s).to_set() =~= s.to_set());
    } else {
        let init = s.drop_last();
        lemma_first_occurrences_same_set(init);
        let acc = first_occurrences(init);
        assert(s =~= init.push(s.last()));
        assert(s.to_set() =~= init.to_set().insert(s.last())) by {
            assert forall|x: Seq<char>| s.to_set().contains(x) <==> init.to_set().insert(s.last()).contains(x) by {
                if s.contains(x) {
                    let k = choose|k: int| 0 <= k < s.len() && s[k] == x;
                    if k < init.len() {
                        assert(init[k] == x);
                    }
                }
                if init.contains(x) {
                    let k = choose|k: int| 0 <= k < init.len() && init[k] == x;
                    assert(s[k] == x);
                }
                if x == s.last() {
                    assert(s[s.len() - 1] == x);
                }
            }
        }
        if acc.contains(s.last()) {
            assert(acc.to_set().contains(s.last()));
            assert(first_occurrences(s).to_set() =~= s.to_set());
        } else {
            acc.lemma_push_to_set_commute(s.last());
            assert(first_occurrences(s).to_set() =~= s.to_set());
        }
    }
}

/// `v` without its repeats: each string where it first occurs.
pub fn dedupe_strings(v: Vec<String>) -> (r: Vec<String>)
    ensures
        view_strings(r@) == first_occurrences(view_strings(v@)),
        view_strings(r@).no_duplicates(),
{
    let mut out: Vec<String> = Vec::new();
    let mut i: usize = 0;
    proof {
        assert(view_strings(v@).take(0) =~= Seq::<Seq<char>>::empty());
        assert(view_strings(out@) =~= Seq::<Seq<char>>::empty());
    }
    while i < v.len()
        invariant
            i <= v@.len(),
            view_strings(out@) == first_occurrences(view_strings(v@).take(i as int)),
            view_strings(out@).no_duplicates(),
        decreases v@.len() - i,
    {
        let ghost before = view_strings(out@);
        proof {
            assert(view_strings(v@).take(i + 1).drop_last() =~= view_strings(v@).take(i as int));
            assert(view_strings(v@).take(i + 1).last() == v@[i as int]@);
        }
        if !contains_string(&out, &v[i]) {
            let s = v[i].clone();
            proof {
                assert(view_strings(out@.push(s)) =~= before.push(s@));
                assert forall|a: int, b: int| 0 <= a < b < before.push(s@).len() implies before.push(s@)[a] != before.push(
                    s@,
                )[b] by {
                    if b == before.len() {
                        assert(before[a] == before.push(s@)[a]);
                    }
                }
            }
            out.push(s);
        }
        i += 1;
    }
    proof {
        assert(view_strings(v@).take(v@.len() as int) =~= view_strings(v@));
    }
    out
}

/// Parses a hosts-format block list into the domains it blocks, each once,
/// in the order they first appear.
pub fn parse_hosts_file(content: &str) -> (r: Vec<String>)
    ensures
        view_strings(r@) == first_occurrences(hosts_domains(content@)),
        view_strings(r@).no_duplicates(),
        view_strings(r@).to_set() == hosts_domains(content@).to_set(),
{
    let v = chars_of(content);
    let lines = line_ranges(&v);
    let ghost all_lines = lines_seq(content@);
    let mut out: Vec<String> = Vec::new();
    let mut k: usize = 0;
    while k < lines.len()
        invariant
            k <= lines@.len(),
            v@ == content@,
            all_lines == lines_seq(content@),
            lines@.len() == all_lines.len(),
            forall|i: int| #![trigger lines@[i]] 0 <= i < lines@.len() ==> lines@[i].0 <= lines@[i].1 <= v@.len()
                && v@.subrange(lines@[i].0 as int, lines@[i].1 as int) == all_lines[i],
            view_strings(out@) == hosts_domains_of(all_lines.take(k as int)),
        decreases lines@.len() - k,
    {
        let (lo, hi) = lines[k];
        let line = string_of_range(&v, lo, hi);
        let trimmed = str_trim(line.as_str());
        let ghost before = view_strings(out@);
        proof {
            assert(all_lines.take(k + 1).drop_last() =~= all_lines.take(k as int));
            assert(all_lines.take(k + 1).last() == line@);
        }
        let tv = chars_of(trimmed.as_str());
        if tv.len() > 0 && tv[0] != '#' {
            let parts = split_whitespace(trimmed.as_str());
            if parts.len() >= 2 && (str_eq(parts[0].as_str(), "0.0.0.0") || str_eq(parts[0].as_str(), "127.0.0.1")) {
                let ghost pv = view_strings(parts@);
                let ghost lowered = pv.skip(1).map_values(|d: Seq<char>| text_lowercase(d));
                let mut j: usize = 1;
                proof {
                    assert(lowered.take(0).filter(|d: Seq<char>| blockable_domain(d)) =~= Seq::<Seq<char>>::empty());
                    assert(view_strings(out@) =~= before + lowered.take(0).filter(|d: Seq<char>| blockable_domain(d)));
                }
                while j < parts.len()
                    invariant
                        1 <= j <= parts@.len(),
                        pv == view_strings(parts@),
                        lowered == pv.skip(1).map_values(|d: Seq<char>| text_lowercase(d)),
                        view_strings(out@) == before + lowered.take(j - 1).filter(|d: Seq<char>| blockable_domain(d)),
                    decreases parts@.len() - j,
                {
                    let d = str_to_lowercase(parts[j].as_str());
                    proof {
                        assert(lowered[j - 1] == d@);
                        assert(lowered.take(j as int).drop_last() =~= lowered.take(j - 1));
                        lowered.take(j - 1).lemma_filter_push(d@, |x: Seq<char>| blockable_domain(x));
                        assert(lowered.take(j - 1).push(d@) =~= lowered.take(j as int));
                    }
                    if is_blockable_domain(d.as_str()) {
                        proof {
                            assert(view_strings(out@.push(d)) =~= view_strings(out@).push(d@));
                        }
                        out.push(d);
                    }
                    j += 1;
                }
                proof {
                    assert(lowered.take(parts@.len() - 1) =~= lowered);
                    assert(hosts_line_domains(line@) == lowered.filter(|d: Seq<char>| blockable_domain(d)));
                }
            } else {
                proof {
                    assert(hosts_line_domains(line@) =~= Seq::<Seq<char>>::empty());
                    assert(view_strings(out@) =~= before + Seq::<Seq<char>>::empty());
                }
            }
        } else {
            proof {
                assert(hosts_line_domains(line@) =~= Seq::<Seq<char>>::empty());
                assert(view_strings(out@) =~= before + Seq::<Seq<char>>::empty());
            }
        }
        k += 1;
    }
    proof {
        assert(all_lines.take(lines@.len() as int) =~= all_lines);
    }
    proof {
        lemma_first_occurrences_same_set(view_strings(out@));
    }
    dedupe_strings(out)
}

/// The names a lookup of `domain` is checked under: the domain itself and
/// each of its parent domains (`a.b.c`: `a.b.c`, `b.c`, `c`).
pub open spec fn blocking_candidates(domain: Seq<char>) -> Seq<Seq<char>> {
    let parts = split_char(domain, '.');
    Seq::new(parts.len(), |i: int| if i == 0 { domain } else { join_seq(parts.skip(i), "."@) })
}

/// Whether a block list blocks `domain`: it names the domain or one of its
/// parent domains.
pub open spec fn domain_blocked(list: Seq<Seq<char>>, domain: Seq<char>) -> bool {
    exists|i: int| 0 <= i < blocking_candidates(domain).len() && list.contains(#[trigger] blocking_candidates(domain)[i])
}

/// A block extends to subdomains: whatever blocks `domain` also blocks
/// `label.domain`, for any label.
pub proof fn lemma_block_covers_subdomains(list: Seq<Seq<char>>, domain: Seq<char>, label: Seq<char>)
    requires
        domain_blocked(list, domain),
        !label.contains('.'),
    ensures
        domain_blocked(list, label + "."@ + domain),
{
    reveal_strlit(".");
    let sub = label + "."@ + domain;
    assert("."@ =~= seq!['.']);
    crate::text::lemma_split_char_prefix(label, '.', domain);
    let parts = split_char(domain, '.');
    let sub_parts = split_char(sub, '.');
    assert(sub_parts == seq![label] + parts);
    let i = choose|i: int| 0 <= i < blocking_candidates(domain).len() && list.contains(
        #[trigger] blocking_candidates(domain)[i],
    );
    assert(sub_parts.skip(i + 1) =~= parts.skip(i));
    if i == 0 {
        crate::text::lemma_join_split(domain, '.');
        assert(parts.skip(0) =~= parts);
        assert(blocking_candidates(sub)[1] == domain);
    } else {
        assert(blocking_candidates(sub)[i + 1] == blocking_candidates(domain)[i]);
    }
}

fn list_contains(list: &Vec<String>, s: &str) -> (r: bool)
    ensures
        r == view_strings(list@).contains(s@),
{
    let mut i: usize = 0;
    while i < list.len()
        invariant
            i <= list@.len(),
            forall|k: int| 0 <= k < i ==> list@[k]@ != s@,
        decreases list@.len() - i,
    {
        if str_eq(list[i].as_str(), s) {
            proof {
                assert(view_strings(list@)[i as int] == s@);
            }
            return true;
        }
        i += 1;
    }
    proof {
        if view_strings(list@).contains(s@) {
            let k = choose|k: int| 0 <= k < view_strings(list@).len() && view_strings(list@)[k] == s@;
            assert(list@[k]@ == s@);
        }
    }
    false
}

pub fn is_domain_blocked(list: &Vec<String>, domain: &str) -> (r: bool)
    ensures
        r == domain_blocked(view_strings(list@), domain@),
{
    let ghost cands = blocking_candidates(domain@);
    let v = chars_of(domain);
    let ranges = split_ranges(&v, '.');
    let mut parts: Vec<String> = Vec::new();
    let mut k: usize = 0;
    while k < ranges.len()
        invariant
            k <= ranges@.len(),
            v@ == domain@,
            ranges@.len() == split_char(domain@, '.').len(),
            forall|i: int| #![trigger ranges@[i]] 0 <= i < ranges@.len() ==> ranges@[i].0 <= ranges@[i].1 <= v@.len()
                && v@.subrange(ranges@[i].0 as int, ranges@[i].1 as int) == split_char(domain@, '.')[i],
            view_strings(parts@) == split_char(domain@, '.').take(k as int),
        decreases ranges@.len() - k,
    {
        let (lo, hi) = ranges[k];
        let piece = string_of_range(&v, lo, hi);
        assert(piece@ == split_char(domain@, '.')[k as int]);
        let ghost old_parts = parts@;
        parts.push(piece);
        proof {
            assert(view_strings(parts@) =~= view_strings(old_parts).push(piece@));
            assert(split_char(domain@, '.').take(k + 1) =~= split_char(domain@, '.').take(k as int).push(piece@));
        }
        k += 1;
    }
    proof {
        assert(split_char(domain@, '.').take(k as int) =~= split_char(domain@, '.'));
    }
    let mut i: usize = 0;
    while i < parts.len()
        invariant
            i <= parts@.len(),
            view_strings(parts@) == split_char(domain@, '.'),
            cands == blocking_candidates(domain@),
            cands.len() == parts@.len(),
            forall|j: int| 0 <= j < i ==> !view_strings(list@).contains(#[trigger] cands[j]),
        decreases parts@.len() - i,
    {
        let candidate = if i == 0 {
            to_string(domain)
        } else {
            let mut suffix: Vec<String> = Vec::new();
            let mut j = i;
            while j < parts.len()
                invariant
                    i <= j <= parts@.len(),
                    view_strings(suffix@) == view_strings(parts@).subrange(i as int, j as int),
                decreases parts@.len() - j,
            {
                let ghost old_suffix = suffix@;
                let item = parts[j].clone();
                suffix.push(item);
                proof {
                    assert(view_strings(suffix@) =~= view_strings(old_suffix).push(item@));
                    assert(view_strings(parts@).subrange(i as int, j + 1) =~= view_strings(parts@).subrange(i as int, j as int).push(item@));
                }
                j += 1;
            }
            proof {
                assert(view_strings(parts@).subrange(i as int, parts@.len() as int) =~= view_strings(parts@).skip(i as int));
            }
            join_strings(&suffix, ".")
        };
        assert(candidate@ == cands[i as int]);
        if list_contains(list, candidate.as_str()) {
            return true;
        }
        i += 1;
    }
    false
}

// ---------------------------------------------------------------------------
// The SOCKS5 upstream
// ---------------------------------------------------------------------------

/// Index of the last `c` in `s`, or -1.
pub open spec fn last_index_of(s: Seq<char>, c: char) -> int
    decreases s.len(),
{
    if s.len() == 0 {
        -1
    } else if s.last() == c {
        s.len() - 1
    } else {
        last_index_of(s.drop_last(), c)
    }
}

pub proof fn lemma_last_index_of(s: Seq<char>, c: char)
    ensures
        -1 <= last_index_of(s, c) < s.len(),
        last_index_of(s, c) >= 0 ==> s[last_index_of(s, c)] == c,
        forall|j: int| last_index_of(s, c) < j < s.len() ==> s[j] != c,
    decreases s.len(),
{
    if s.len() > 0 && s.last() != c {
        lemma_last_index_of(s.drop_last(), c);
        assert forall|j: int| last_index_of(s, c) < j < s.len() implies s[j] != c by {
            if j < s.len() - 1 {
                assert(s[j] == s.drop_last()[j]);
            }
        }
    }
}

/// A host name label a SOCKS5 upstream may use.
pub open spec fn proxy_label_ok(l: Seq<char>) -> bool {
    &&& l.len() > 0
    &&& utf8_len(l) <= 63
    &&& l[0] != '-'
    &&& l.last() != '-'
    &&& forall|i: int| 0 <= i < l.len() ==> is_ascii_alnum(#[trigger] l[i]) || l[i] == '-'
}

pub open spec fn proxy_host_ok(host: Seq<char>) -> bool {
    ||| ip_addr_parses(host)
    ||| (utf8_len(host) <= 253 && forall|i: int| 0 <= i < split_char(host, '.').len() ==> proxy_label_ok(
        #[trigger] split_char(host, '.')[i]))
}

/// The SOCKS5 upstream setting without its scheme.
pub open spec fn proxy_body(trimmed: Seq<char>) -> Seq<char> {
    if starts_with(trimmed, "socks5h://"@) {
        trimmed.skip(10)
    } else if starts_with(trimmed, "socks5://"@) {
        trimmed.skip(9)
    } else {
        trimmed
    }
}

/// The canonical `host:port` of a SOCKS5 upstream setting, or why it is
/// refused. An empty setting means no proxy.
pub open spec fn socks5_verdict(value: Seq<char>) -> Result<Seq<char>, Seq<char>> {
    let t = trim(value);
    let body = proxy_body(t);
    let colon = last_index_of(body, ':');
    let host = body.subrange(0, if colon >= 0 { colon } else { 0 });
    let port_text = body.subrange(if colon >= 0 { colon + 1 } else { 0 }, body.len() as int);
    if t.len() == 0 {
        Ok(seq![])
    } else if body.contains('@') {
        Err("SOCKS5 credentials are not stored in application settings; use a credential-free local proxy."@)
    } else if colon < 0 {
        Err("SOCKS5 proxy must use host:port format."@)
    } else if parse_unsigned(port_text, 65535) is None {
        Err("SOCKS5 proxy port is invalid."@)
    } else if parse_unsigned(port_text, 65535) == Some(0nat) || host.len() == 0 {
        Err("SOCKS5 proxy host or port is invalid."@)
    } else if !proxy_host_ok(host) {
        Err("SOCKS5 proxy host is invalid."@)
    } else {
        Ok(host + ":"@ + decimal(parse_unsigned(port_text, 65535)->0))
    }
}

fn proxy_label_is_ok(v: &Vec<char>, lo: usize, hi: usize) -> (r: bool)
    requires
        lo <= hi <= v@.len(),
    ensures
        r == proxy_label_ok(v@.subrange(lo as int, hi as int)),
{
    let ghost l = v@.subrange(lo as int, hi as int);
    if lo == hi || v[lo] == '-' || v[hi - 1] == '-' {
        return false;
    }
    let mut i = lo;
    while i < hi
        invariant
            lo <= i <= hi <= v@.len(),
            l == v@.subrange(lo as int, hi as int),
            forall|k: int| 0 <= k < i - lo ==> is_ascii_alnum(#[trigger] l[k]) || l[k] == '-',
        decreases hi - i,
    {
        let c = v[i];
        let ok = ('0' <= c && c <= '9') || ('a' <= c && c <= 'z') || ('A' <= c && c <= 'Z') || c == '-';
        if !ok {
            assert(l[i - lo] == c);
            return false;
        }
        i += 1;
    }
    let label = string_of_range(v, lo, hi);
    utf8_len_at_most(label.as_str(), 63)
}

/// The canonical `host:port` of a SOCKS5 upstream setting, without a
/// scheme; credentials are refused, as settings must not store them.
pub fn normalize_socks5_proxy(value: &str) -> (r: Result<String, String>)
    ensures
        match (r, socks5_verdict(value@)) {
            (Ok(s), Ok(t)) => s@ == t,
            (Err(m), Err(t)) => m@ == t,
            _ => false,
        },
{
    let t = str_trim(value);
    if t.as_str().is_empty() {
        return Ok(String::new());
    }
    let body = match str_strip_prefix(t.as_str(), "socks5h://") {
        Some(b) => b,
        None => match str_strip_prefix(t.as_str(), "socks5://") {
            Some(b) => b,
            None => t,
        },
    };
    proof {
        reveal_strlit("socks5h://");
        reveal_strlit("socks5://");
        assert(body@ == proxy_body(t@));
    }
    if str_contains_char(body.as_str(), '@') {
        return Err("SOCKS5 credentials are not stored in application settings; use a credential-free local proxy.".to_string());
    }
    let v = chars_of(body.as_str());
    let mut i = v.len();
    while i > 0 && v[i - 1] != ':'
        invariant
            i <= v@.len(),
            v@ == body@,
            forall|j: int| i <= j < v@.len() ==> v@[j] != ':',
        decreases i,
    {
        i -= 1;
    }
    let colon = if i == 0 { v.len() } else { i - 1 };
    proof {
        lemma_last_index_of(v@, ':');
        if colon < v@.len() {
            assert(last_index_of(v@, ':') == colon) by {
                if last_index_of(v@, ':') > colon {
                    assert(v@[last_index_of(v@, ':')] == ':');
                }
            }
        } else {
            if last_index_of(v@, ':') >= 0 {
                assert(v@[last_index_of(v@, ':')] == ':');
            }
        }
    }
    if colon == v.len() {
        return Err("SOCKS5 proxy must use host:port format.".to_string());
    }
    let host = string_of_range(&v, 0, colon);
    let port_text = string_of_range(&v, colon + 1, v.len());
    let port = match parse_unsigned_str(port_text.as_str(), 65535) {
        Some(p) => p,
        None => {
            return Err("SOCKS5 proxy port is invalid.".to_string());
        },
    };
    if port == 0 || colon == 0 {
        return Err("SOCKS5 proxy host or port is invalid.".to_string());
    }
    let mut valid = parses_as_ip_addr(host.as_str());
    if !valid {
        valid = utf8_len_at_most(host.as_str(), 253);
        if valid {
            let hv = chars_of(host.as_str());
            let ranges = split_ranges(&hv, '.');
            let mut k: usize = 0;
            let mut ok = true;
            while k < ranges.len() && ok
                invariant
                    k <= ranges@.len(),
                    hv@ == host@,
                    !ok ==> k < ranges@.len() && !proxy_label_ok(split_char(host@, '.')[k as int]),
                    ranges@.len() == split_char(host@, '.').len(),
                    forall|q: int| #![trigger ranges@[q]] 0 <= q < ranges@.len() ==> ranges@[q].0 <= ranges@[q].1 <= hv@.len()
                        && hv@.subrange(ranges@[q].0 as int, ranges@[q].1 as int) == split_char(host@, '.')[q],
                    forall|q: int| 0 <= q < k ==> proxy_label_ok(#[trigger] split_char(host@, '.')[q]),
                decreases ranges@.len() - k + (if ok { 1int } else { 0int }),
            {
                let (lo, hi) = ranges[k];
                if proxy_label_is_ok(&hv, lo, hi) {
                    k += 1;
                } else {
                    ok = false;
                }
            }
            valid = ok;
        }
    }
    if !valid {
        return Err("SOCKS5 proxy host is invalid.".to_string());
    }
    let s = concat(host.as_str(), ":");
    Ok(concat(s.as_str(), u64_to_decimal(port).as_str()))
}

// ---------------------------------------------------------------------------
// Forwarder settings
// ---------------------------------------------------------------------------

#[derive(Debug, Clone, PartialEq, Eq)]
pub struct DnsSettings {
    pub protocol: String,
    pub adblock: bool,
    pub cache: bool,
    pub socks5_proxy: String,
    pub health_check_targets: Vec<String>,
}

/// DoH, no block list, cache on, no proxy, the default health target.
pub fn default_dns_settings() -> (s: DnsSettings)
    ensures
        s.protocol@ == "doh"@,
        !s.adblock,
        s.cache,
        s.socks5_proxy@.len() == 0,
        view_strings(s.health_check_targets@) == seq![DEFAULT_HEALTH_CHECK_TARGET@],
{
    let s = DnsSettings {
        protocol: "doh".to_string(),
        adblock: false,
        cache: true,
        socks5_proxy: String::new(),
        health_check_targets: vec![DEFAULT_HEALTH_CHECK_TARGET.to_string()],
    };
    proof {
        assert(view_strings(s.health_check_targets@) =~= seq![DEFAULT_HEALTH_CHECK_TARGET@]);
    }
    s
}

/// The forwarder settings from the saved runtime settings: the protocol is
/// DoT only when saved as `dot`, and an empty list of health targets means
/// the default one.
pub fn dns_settings_from_saved(
    dns_protocol: &str,
    dns_ad_block: bool,
    dns_cache: bool,
    proxy_socks5: String,
    health_check_targets: Vec<String>,
) -> (s: DnsSettings)
    ensures
        s.protocol@ == (if dns_protocol@ == "dot"@ { "dot"@ } else { "doh"@ }),
        s.adblock == dns_ad_block,
        s.cache == dns_cache,
        s.socks5_proxy == proxy_socks5,
        health_check_targets@.len() == 0 ==> view_strings(s.health_check_targets@) == seq![DEFAULT_HEALTH_CHECK_TARGET@],
        health_check_targets@.len() > 0 ==> s.health_check_targets == health_check_targets,
{
    let targets = if health_check_targets.len() == 0 {
        let t = vec![DEFAULT_HEALTH_CHECK_TARGET.to_string()];
        proof {
            assert(view_strings(t@) =~= seq![DEFAULT_HEALTH_CHECK_TARGET@]);
        }
        t
    } else {
        health_check_targets
    };
    DnsSettings {
        protocol: if str_eq(dns_protocol, "dot") { "dot".to_string() } else { "doh".to_string() },
        adblock: dns_ad_block,
        cache: dns_cache,
        socks5_proxy: proxy_socks5,
        health_check_targets: targets,
    }
}

/// Settings as the forwarder accepts them: the proxy in canonical form, and
/// never a proxy together with DoT, which would bypass it.
pub fn normalize_dns_settings(settings: DnsSettings) -> (r: Result<DnsSettings, String>)
    ensures
        match socks5_verdict(settings.socks5_proxy@) {
            Err(m) => r matches Err(e) && e@ == m,
            Ok(p) => if settings.protocol@ == "dot"@ && p.len() > 0 {
                r matches Err(e)
                    && e@ == "SOCKS5 upstream is supported with DoH only; DoT would bypass the proxy and was rejected."@
            } else {
                r matches Ok(s) && s.socks5_proxy@ == p && s.protocol == settings.protocol && s.adblock
                    == settings.adblock && s.cache == settings.cache && s.health_check_targets
                    == settings.health_check_targets
            },
        },
{
    let proxy = match normalize_socks5_proxy(settings.socks5_proxy.as_str()) {
        Ok(p) => p,
        Err(e) => {
            return Err(e);
        },
    };
    if str_eq(settings.protocol.as_str(), "dot") && !proxy.as_str().is_empty() {
        return Err("SOCKS5 upstream is supported with DoH only; DoT would bypass the proxy and was rejected.".to_string());
    }
    Ok(DnsSettings {
        protocol: settings.protocol,
        adblock: settings.adblock,
        cache: settings.cache,
        socks5_proxy: proxy,
        health_check_targets: settings.health_check_targets,
    })
}

// ---------------------------------------------------------------------------
// Upstream failures
// ---------------------------------------------------------------------------

/// Why a query could not be answered from upstream (the forwarder then
/// answers SERVFAIL).
#[derive(Debug, Clone, PartialEq, Eq)]
pub enum DnsForwardError {
    InvalidQuery(String),
    UnsupportedQuery,
    BootstrapUnavailable(String),
    UpstreamConnect(String),
    UpstreamHttpStatus(u16),
    UpstreamContentType,
    UpstreamBody(String),
    UpstreamMalformedDns(String),
    UpstreamResponseTooLarge,
    DotResolution(String),
    Internal(String),
}

pub open spec fn forward_error_text(e: DnsForwardError) -> Seq<char> {
    match e {
        DnsForwardError::InvalidQuery(m) => "invalid_query: "@ + m@,
        DnsForwardError::UnsupportedQuery => "unsupported_query"@,
        DnsForwardError::BootstrapUnavailable(m) => "bootstrap_unavailable: "@ + m@,
        DnsForwardError::UpstreamConnect(m) => "upstream_connect: "@ + m@,
        DnsForwardError::UpstreamHttpStatus(s) => "upstream_http_status: "@ + decimal(s as nat),
        DnsForwardError::UpstreamContentType => "upstream_content_type"@,
        DnsForwardError::UpstreamBody(m) => "upstream_body: "@ + m@,
        DnsForwardError::UpstreamMalformedDns(m) => "upstream_malformed_dns: "@ + m@,
        DnsForwardError::UpstreamResponseTooLarge => "upstream_response_too_large"@,
        DnsForwardError::DotResolution(m) => "dot_resolution: "@ + m@,
        DnsForwardError::Internal(m) => "internal: "@ + m@,
    }
}

impl DnsForwardError {
    pub fn message(&self) -> (s: String)
        ensures
            s@ == forward_error_text(*self),
    {
        match self {
            DnsForwardError::InvalidQuery(m) => concat("invalid_query: ", m.as_str()),
            DnsForwardError::UnsupportedQuery => "unsupported_query".to_string(),
            DnsForwardError::BootstrapUnavailable(m) => concat("bootstrap_unavailable: ", m.as_str()),
            DnsForwardError::UpstreamConnect(m) => concat("upstream_connect: ", m.as_str()),
            DnsForwardError::UpstreamHttpStatus(s) => concat("upstream_http_status: ", u64_to_decimal(*s as u64).as_str()),
            DnsForwardError::UpstreamContentType => "upstream_content_type".to_string(),
            DnsForwardError::UpstreamBody(m) => concat("upstream_body: ", m.as_str()),
            DnsForwardError::UpstreamMalformedDns(m) => concat("upstream_malformed_dns: ", m.as_str()),
            DnsForwardError::UpstreamResponseTooLarge => "upstream_response_too_large".to_string(),
            DnsForwardError::DotResolution(m) => concat("dot_resolution: ", m.as_str()),
            DnsForwardError::Internal(m) => concat("internal: ", m.as_str()),
        }
    }
}

/// The largest DNS message the protocol allows.
pub const MAX_DNS_MESSAGE_BYTES: u64 = 65535;

/// The media type of the `Content-Type` header, before any parameters.
pub open spec fn media_type(value: Seq<char>) -> Seq<char> {
    split_char(value, ';')[0]
}

/// The verdict on the head of a DoH answer: a success status, the DNS
/// message media type, and no announced body beyond the protocol limit.
pub open spec fn doh_head_verdict(status: u16, content_type: Option<Seq<char>>, content_length: Option<u64>) -> Option<DnsForwardError> {
    if !(200 <= status <= 299) {
        Some(DnsForwardError::UpstreamHttpStatus(status))
    } else if !(content_type matches Some(t) && media_type(t) == "application/dns-message"@) {
        Some(DnsForwardError::UpstreamContentType)
    } else if content_length matches Some(n) && n > MAX_DNS_MESSAGE_BYTES {
        Some(DnsForwardError::UpstreamResponseTooLarge)
    } else {
        None
    }
}

pub fn check_doh_head(status: u16, content_type: Option<&str>, content_length: Option<u64>) -> (r: Result<(), DnsForwardError>)
    ensures
        match doh_head_verdict(status, opt_view_str(content_type), content_length) {
            None => r is Ok,
            Some(e) => r == Err::<(), DnsForwardError>(e),
        },
{
    if !(200 <= status && status <= 299) {
        return Err(DnsForwardError::UpstreamHttpStatus(status));
    }
    let type_ok = match content_type {
        Some(t) => {
            let v = chars_of(t);
            let ranges = split_ranges(&v, ';');
            proof {
                assert(split_char(v@, ';').len() > 0) by {
                    crate::text::lemma_find_char_bounds(v@, ';');
                }
            }
            let (lo, hi) = ranges[0];
            let first = string_of_range(&v, lo, hi);
            str_eq(first.as_str(), "application/dns-message")
        },
        None => false,
    };
    if !type_ok {
        return Err(DnsForwardError::UpstreamContentType);
    }
    match content_length {
        Some(n) => if n > MAX_DNS_MESSAGE_BYTES {
            return Err(DnsForwardError::UpstreamResponseTooLarge);
        },
        None => {},
    }
    Ok(())
}

pub open spec fn opt_view_str(o: Option<&str>) -> Option<Seq<char>> {
    match o {
        Some(s) => Some(s@),
        None => None,
    }
}

/// The verdict on the body of a DoH answer: within the protocol limit, a
/// decodable DNS message, and carrying the query's transaction id.
pub fn check_doh_body(body: &[u8], query_id: u16) -> (r: Result<(), DnsForwardError>)
    ensures
        body@.len() > MAX_DNS_MESSAGE_BYTES ==> r == Err::<(), DnsForwardError>(DnsForwardError::UpstreamResponseTooLarge),
        body@.len() <= MAX_DNS_MESSAGE_BYTES ==> match crate::dns_wire::dns_decode(body@) {
            None => r matches Err(DnsForwardError::UpstreamMalformedDns(_)),
            Some(m) => if m.id != query_id {
                r matches Err(DnsForwardError::UpstreamMalformedDns(t)) && t@ == "transaction ID mismatch"@
            } else {
                r is Ok
            },
        },
{
    if body.len() as u64 > MAX_DNS_MESSAGE_BYTES {
        return Err(DnsForwardError::UpstreamResponseTooLarge);
    }
    match crate::dns_wire::decode_dns_message(body) {
        Err(e) => Err(DnsForwardError::UpstreamMalformedDns(e)),
        Ok(m) => if m.id != query_id {
            Err(DnsForwardError::UpstreamMalformedDns("transaction ID mismatch".to_string()))
        } else {
            Ok(())
        },
    }
}

/// The header of a query that is answered over DoT.
#[derive(Debug, Clone, Copy, PartialEq, Eq, Structural)]
pub struct DotQueryHeader {
    pub id: u16,
    pub op_code: u8,
    pub recursion_desired: bool,
    pub checking_disabled: bool,
    pub has_edns: bool,
}

/// What a DoT lookup came to: records, no records (with the response code
/// the resolver gave and whether it sent an SOA record), or a failure.
#[derive(Debug, Clone, PartialEq, Eq)]
pub enum DotLookupOutcome {
    Records,
    NoRecords { response_code: u16, has_soa: bool },
    Failed(String),
}

/// How the reply to a DoT query is made: its header, whether the query's
/// EDNS options and question are copied, its response code, and whether
/// the lookup's records go into the answers or its SOA record into the
/// authorities.
#[derive(Debug, Clone, Copy, PartialEq, Eq, Structural)]
pub struct DotReplyPlan {
    pub id: u16,
    pub op_code: u8,
    pub recursion_desired: bool,
    pub recursion_available: bool,
    pub checking_disabled: bool,
    pub copy_edns: bool,
    pub response_code: u16,
    pub copy_answers: bool,
    pub soa_authority: bool,
}

/// The reply to a DoT query: it answers the query's id and opcode, keeps
/// its recursion-desired and checking-disabled flags and its EDNS options,
/// offers recursion, and carries the records (`NOERROR`), or the
/// resolver's response code and SOA record when there were none. A failed
/// lookup is a DoT resolution error.
pub fn dot_reply_plan(query: DotQueryHeader, outcome: DotLookupOutcome) -> (r: Result<DotReplyPlan, DnsForwardError>)
    ensures
        match outcome {
            DotLookupOutcome::Failed(m) => r == Err::<DotReplyPlan, DnsForwardError>(DnsForwardError::DotResolution(m)),
            DotLookupOutcome::Records => r == Ok::<DotReplyPlan, DnsForwardError>(
                DotReplyPlan {
                    id: query.id,
                    op_code: query.op_code,
                    recursion_desired: query.recursion_desired,
                    recursion_available: true,
                    checking_disabled: query.checking_disabled,
                    copy_edns: query.has_edns,
                    response_code: 0,
                    copy_answers: true,
                    soa_authority: false,
                },
            ),
            DotLookupOutcome::NoRecords { response_code, has_soa } => r == Ok::<DotReplyPlan, DnsForwardError>(
                DotReplyPlan {
                    id: query.id,
                    op_code: query.op_code,
                    recursion_desired: query.recursion_desired,
                    recursion_available: true,
                    checking_disabled: query.checking_disabled,
                    copy_edns: query.has_edns,
                    response_code,
                    copy_answers: false,
                    soa_authority: has_soa,
                },
            ),
        },
{
    let (response_code, copy_answers, soa_authority) = match outcome {
        DotLookupOutcome::Failed(m) => {
            return Err(DnsForwardError::DotResolution(m));
        },
        DotLookupOutcome::Records => (0u16, true, false),
        DotLookupOutcome::NoRecords { response_code, has_soa } => (response_code, false, has_soa),
    };
    Ok(DotReplyPlan {
        id: query.id,
        op_code: query.op_code,
        recursion_desired: query.recursion_desired,
        recursion_available: true,
        checking_disabled: query.checking_disabled,
        copy_edns: query.has_edns,
        response_code,
        copy_answers,
        soa_authority,
    })
}

} // verus!

