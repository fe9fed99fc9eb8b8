//! Reachability checks of public sites: which targets may be checked,
//! which addresses count as public, and how the answers are judged.

use vstd::prelude::*;
use crate::ipc::IpcError;
use crate::domain::{IpAddress, parse_ip_address, parsed_ip_addr};
use crate::text::{concat, to_string, str_eq, str_trim, trim, contains_seq, str_contains, trim_start_char,
    trim_end_char, str_trim_end_char, u64_to_decimal, decimal};

verus! {

#[derive(Debug, Clone, PartialEq, Eq)]
pub struct PingResult {
    pub success: bool,
    pub latency_ms: u64,
    pub status_code: Option<u16>,
    pub error: Option<String>,
}

/// Whether a site is reached through the system resolver and directly by
/// its known address, and what that says.
#[derive(Debug, Clone, PartialEq, Eq)]
pub struct DnsCheckResult {
    pub system_dns_ok: bool,
    pub doh_dns_ok: bool,
    pub diagnosis: String,
    pub recommendation: String,
}

// ---------------------------------------------------------------------------
// Public addresses
// ---------------------------------------------------------------------------

/// An IPv4 address outside the private, loopback, link-local, shared,
/// benchmarking, documentation, multicast and reserved ranges.
pub open spec fn public_ipv4(o: [u8; 4]) -> bool {
    let (a, b, c) = (o[0], o[1], o[2]);
    !(a == 0 || a == 10 || (a == 100 && 64 <= b <= 127) || a == 127 || (a == 169 && b == 254) || (a == 172 && 16 <= b
        <= 31) || (a == 192 && b == 0 && c == 0) || (a == 192 && b == 0 && c == 2) || (a == 192 && b == 88 && c
        == 99) || (a == 192 && b == 168) || (a == 198 && 18 <= b <= 19) || (a == 198 && b == 51 && c == 100) || (a
        == 203 && b == 0 && c == 113) || a >= 224)
}

/// The IPv4 address an IPv6 address maps (`::ffff:a.b.c.d`), if it does.
pub open spec fn ipv4_mapped(s: [u16; 8]) -> Option<[u8; 4]> {
    if s[0] == 0 && s[1] == 0 && s[2] == 0 && s[3] == 0 && s[4] == 0 && s[5] == 0xffff {
        Some([(s[6] / 256) as u8, (s[6] % 256) as u8, (s[7] / 256) as u8, (s[7] % 256) as u8])
    } else {
        None
    }
}

/// A global unicast IPv6 address (2000::/3) that is not the documentation
/// prefix; a mapped IPv4 address is judged as IPv4.
pub open spec fn public_ipv6(s: [u16; 8]) -> bool {
    match ipv4_mapped(s) {
        Some(v4) => public_ipv4(v4),
        None => {
            let unspecified = forall|i: int| 0 <= i < 8 ==> s[i] == 0;
            let loopback = (forall|i: int| 0 <= i < 7 ==> s[i] == 0) && s[7] == 1;
            &&& s[0] & 0xe000 == 0x2000
            &&& !unspecified
            &&& !loopback
            &&& s[0] & 0xfe00 != 0xfc00
            &&& s[0] & 0xffc0 != 0xfe80
            &&& s[0] & 0xffc0 != 0xfec0
            &&& s[0] & 0xff00 != 0xff00
            &&& !(s[0] == 0x2001 && s[1] == 0x0db8)
        },
    }
}

pub open spec fn public_ip(a: IpAddress) -> bool {
    match a {
        IpAddress::V4(o) => public_ipv4(o),
        IpAddress::V6(s) => public_ipv6(s),
    }
}

/// Which IPv4 addresses count as public: none of this network, private
/// (10/8, 172.16/12, 192.168/16), shared (100.64/10), loopback (127/8),
/// link-local (169.254/16), protocol-assignment (192.0.0/24),
/// documentation (192.0.2/24, 198.51.100/24, 203.0.113/24), relay
/// (192.88.99/24), benchmarking (198.18/15), multicast or reserved (224/3)
/// address is; outside those blocks every address is.
pub proof fn lemma_public_ipv4_blocks()
    ensures
        forall|o: [u8; 4]| #[trigger] public_ipv4(o) ==> o[0] != 0 && o[0] != 10 && o[0] != 127 && o[0] < 224,
        forall|o: [u8; 4]| o[0] == 172 && 16 <= o[1] <= 31 ==> !#[trigger] public_ipv4(o),
        forall|o: [u8; 4]| o[0] == 192 && o[1] == 168 ==> !#[trigger] public_ipv4(o),
        forall|o: [u8; 4]| o[0] == 100 && 64 <= o[1] <= 127 ==> !#[trigger] public_ipv4(o),
        forall|o: [u8; 4]| o[0] == 169 && o[1] == 254 ==> !#[trigger] public_ipv4(o),
        forall|o: [u8; 4]| o[0] == 192 && o[1] == 0 && (o[2] == 0 || o[2] == 2) ==> !#[trigger] public_ipv4(o),
        forall|o: [u8; 4]| o[0] == 192 && o[1] == 88 && o[2] == 99 ==> !#[trigger] public_ipv4(o),
        forall|o: [u8; 4]| o[0] == 198 && 18 <= o[1] <= 19 ==> !#[trigger] public_ipv4(o),
        forall|o: [u8; 4]| o[0] == 198 && o[1] == 51 && o[2] == 100 ==> !#[trigger] public_ipv4(o),
        forall|o: [u8; 4]| o[0] == 203 && o[1] == 0 && o[2] == 113 ==> !#[trigger] public_ipv4(o),
        forall|o: [u8; 4]|
            o[0] != 0 && o[0] != 10 && o[0] != 100 && o[0] != 127 && o[0] != 169 && o[0] != 172 && o[0] != 192
                && o[0] != 198 && o[0] != 203 && o[0] < 224 ==> #[trigger] public_ipv4(o),
        forall|o: [u8; 4]| o[0] == 172 && (o[1] < 16 || o[1] > 31) ==> #[trigger] public_ipv4(o),
        forall|o: [u8; 4]| o[0] == 192 && o[1] != 0 && o[1] != 88 && o[1] != 168 ==> #[trigger] public_ipv4(o),
        forall|o: [u8; 4]| o[0] == 100 && (o[1] < 64 || o[1] > 127) ==> #[trigger] public_ipv4(o),
        forall|o: [u8; 4]| o[0] == 169 && o[1] != 254 ==> #[trigger] public_ipv4(o),
        forall|o: [u8; 4]| o[0] == 198 && o[1] != 18 && o[1] != 19 && o[1] != 51 ==> #[trigger] public_ipv4(o),
        forall|o: [u8; 4]| o[0] == 203 && o[1] != 0 ==> #[trigger] public_ipv4(o),
{
}

pub fn is_public_ipv4(o: [u8; 4]) -> (r: bool)
    ensures
        r == public_ipv4(o),
{
    let a = o[0];
    let b = o[1];
    let c = o[2];
    !(a == 0 || a == 10 || (a == 100 && 64 <= b && b <= 127) || a == 127 || (a == 169 && b == 254) || (a == 172 && 16
        <= b && b <= 31) || (a == 192 && b == 0 && c == 0) || (a == 192 && b == 0 && c == 2) || (a == 192 && b == 88
        && c == 99) || (a == 192 && b == 168) || (a == 198 && 18 <= b && b <= 19) || (a == 198 && b == 51 && c == 100)
        || (a == 203 && b == 0 && c == 113) || a >= 224)
}

pub fn is_public_ipv6(s: [u16; 8]) -> (r: bool)
    ensures
        r == public_ipv6(s),
{
    if s[0] == 0 && s[1] == 0 && s[2] == 0 && s[3] == 0 && s[4] == 0 && s[5] == 0xffff {
        let v4: [u8; 4] = [(s[6] / 256) as u8, (s[6] % 256) as u8, (s[7] / 256) as u8, (s[7] % 256) as u8];
        proof {
            assert(ipv4_mapped(s) == Some(v4));
        }
        return is_public_ipv4(v4);
    }
    let unspecified = s[0] == 0 && s[1] == 0 && s[2] == 0 && s[3] == 0 && s[4] == 0 && s[5] == 0 && s[6] == 0 && s[7]
        == 0;
    let loopback = s[0] == 0 && s[1] == 0 && s[2] == 0 && s[3] == 0 && s[4] == 0 && s[5] == 0 && s[6] == 0 && s[7]
        == 1;
    proof {
        assert(unspecified == forall|i: int| 0 <= i < 8 ==> s[i] == 0) by {
            if forall|i: int| 0 <= i < 8 ==> s[i] == 0 {
                assert(s[7] == 0);
            }
        }
        assert(loopback == ((forall|i: int| 0 <= i < 7 ==> s[i] == 0) && s[7] == 1)) by {
            if (forall|i: int| 0 <= i < 7 ==> s[i] == 0) && s[7] == 1 {
                assert(s[6] == 0);
            }
        }
    }
    s[0] & 0xe000 == 0x2000 && !unspecified && !loopback && s[0] & 0xfe00 != 0xfc00 && s[0] & 0xffc0 != 0xfe80
        && s[0] & 0xffc0 != 0xfec0 && s[0] & 0xff00 != 0xff00 && !(s[0] == 0x2001 && s[1] == 0x0db8)
}

pub fn is_public_ip(address: IpAddress) -> (r: bool)
    ensures
        r == public_ip(address),
{
    match address {
        IpAddress::V4(o) => is_public_ipv4(o),
        IpAddress::V6(s) => is_public_ipv6(s),
    }
}

/// A checked site may only resolve to public addresses: it is refused when
/// it resolved to none, or to any address that is not public.
pub fn all_addresses_public(addresses: &Vec<IpAddress>) -> (r: bool)
    ensures
        r == (addresses@.len() > 0 && forall|i: int| 0 <= i < addresses@.len() ==> public_ip(#[trigger] addresses@[i])),
{
    if addresses.len() == 0 {
        return false;
    }
    let mut i: usize = 0;
    while i < addresses.len()
        invariant
            i <= addresses@.len(),
            forall|k: int| 0 <= k < i ==> public_ip(#[trigger] addresses@[k]),
        decreases addresses@.len() - i,
    {
        if !is_public_ip(addresses[i]) {
            return false;
        }
        i += 1;
    }
    true
}

// ---------------------------------------------------------------------------
// The target of a check
// ---------------------------------------------------------------------------

/// What the URL parser reads of a URL.
#[derive(Debug, Clone, PartialEq, Eq)]
pub struct UrlParts {
    pub serialized: String,
    pub scheme: String,
    pub username: String,
    pub has_password: bool,
    pub port: Option<u16>,
    pub host: Option<String>,
}

pub struct UrlPartsView {
    pub serialized: Seq<char>,
    pub scheme: Seq<char>,
    pub username: Seq<char>,
    pub has_password: bool,
    pub port: Option<u16>,
    pub host: Option<Seq<char>>,
}

impl View for UrlParts {
    type V = UrlPartsView;

    open spec fn view(&self) -> UrlPartsView {
        UrlPartsView {
            serialized: self.serialized@,
            scheme: self.scheme@,
            username: self.username@,
            has_password: self.has_password,
            port: self.port,
            host: match self.host {
                Some(h) => Some(h@),
                None => None,
            },
        }
    }
}

/// What `reqwest::Url::parse` makes of a text; `None` when it is not a URL.
pub uninterp spec fn url_parse(text: Seq<char>) -> Option<UrlPartsView>;

/// `reqwest::Url::parse`, read into its parts. `port` is the explicit
/// non-default port, as `Url::port` reports it.
#[verifier::external_body]
pub fn parse_url(text: &str) -> (r: Option<UrlParts>)
    ensures
        r is Some <==> url_parse(text@) is Some,
        r matches Some(u) ==> url_parse(text@) == Some(u@),
{
    let url = reqwest::Url::parse(text).ok()?;
    Some(UrlParts {
        serialized: url.as_str().to_string(),
        scheme: url.scheme().to_string(),
        username: url.username().to_string(),
        has_password: url.password().is_some(),
        port: url.port(),
        host: url.host_str().map(|h| h.to_string()),
    })
}

/// The URL a check uses: the input as written when it has a scheme,
/// otherwise as an HTTPS URL.
pub open spec fn check_candidate(input: Seq<char>) -> Seq<char> {
    if contains_seq(input, "://"@) { input } else { "https://"@ + input }
}

pub open spec fn unbracketed(h: Seq<char>) -> Seq<char> {
    trim_end_char(trim_start_char(h, '['), ']')
}

/// Why a check target is refused, as (code, message); `None` when it is an
/// HTTPS URL on port 443 without credentials, for a host name that is not
/// an IP literal.
pub open spec fn check_target_refusal(input: Seq<char>) -> Option<(Seq<char>, Seq<char>)> {
    let t = trim(input);
    if t.len() == 0 {
        Some(("HEALTH_CHECK_TARGET_EMPTY"@, "A health-check hostname is required."@))
    } else {
    match url_parse(check_candidate(t)) {
        None => Some(("HEALTH_CHECK_TARGET_INVALID"@, "The health-check target is not a valid HTTPS URL."@)),
        Some(u) => if u.scheme != "https"@ || u.username.len() > 0 || u.has_password || (u.port matches Some(p) && p
            != 443) {
            Some(("HEALTH_CHECK_TARGET_INVALID"@, "Health checks require HTTPS on port 443 without embedded credentials."@))
        } else if u.host is None {
            Some(("HEALTH_CHECK_TARGET_INVALID"@, "The health-check target has no hostname."@))
        } else if parsed_ip_addr(unbracketed(u.host->0)) is Some {
            Some(("HEALTH_CHECK_IP_LITERAL_REJECTED"@, "Health checks require a public hostname; IP literals are not accepted."@))
        } else {
            None
        },
    }
    }
}

fn str_trim_start_char(s: &str, c: char) -> (r: String)
    ensures
        r@ == trim_start_char(s@, c),
{
    let v = crate::text::chars_of(s);
    let mut k: usize = 0;
    while k < v.len() && v[k] == c
        invariant
            k <= v@.len(),
            v@ == s@,
            forall|j: int| 0 <= j < k ==> v@[j] == c,
        decreases v@.len() - k,
    {
        k += 1;
    }
    proof {
        lemma_trim_start_char(v@, c, k as int);
    }
    crate::text::string_of_range(&v, k, v.len())
}

pub proof fn lemma_trim_start_char(s: Seq<char>, c: char, k: int)
    requires
        0 <= k <= s.len(),
        forall|j: int| 0 <= j < k ==> s[j] == c,
        k < s.len() ==> s[k] != c,
    ensures
        trim_start_char(s, c) == s.subrange(k, s.len() as int),
    decreases k,
{
    if k == 0 {
        if s.len() > 0 {
            assert(s[0] != c);
        }
        assert(s.subrange(0, s.len() as int) =~= s);
    } else {
        assert forall|j: int| 0 <= j < k - 1 implies s.drop_first()[j] == c by {
            assert(s.drop_first()[j] == s[j + 1]);
        }
        if k - 1 < s.len() - 1 {
            assert(s.drop_first()[k - 1] == s[k]);
        }
        lemma_trim_start_char(s.drop_first(), c, k - 1);
        assert(s.drop_first().subrange(k - 1, s.len() - 1) =~= s.subrange(k, s.len() as int));
    }
}

/// Accepts the target of a reachability check: it returns the parsed URL
/// and its host name, or the refusal of `check_target_refusal` as an error
/// of `operation`.
pub fn parse_public_https_target(input: &str, operation: &'static str) -> (r: Result<(UrlParts, String), IpcError>)
    ensures
        match (r, check_target_refusal(input@)) {
            (Ok((u, host)), None) => url_parse(check_candidate(trim(input@))) == Some(u@) && u@.host == Some(host@),
            (Err(e), Some((code, message))) => e.code@ == code && e.message@ == message && e.operation == operation
                && !e.retryable,
            _ => false,
        },
{
    let t = str_trim(input);
    if t.as_str().is_empty() {
        return Err(IpcError::validation(operation, "HEALTH_CHECK_TARGET_EMPTY", "A health-check hostname is required.".to_string()));
    }
    let candidate = if str_contains(t.as_str(), "://") { t } else { concat("https://", t.as_str()) };
    let url = match parse_url(candidate.as_str()) {
        Some(u) => u,
        None => {
            return Err(IpcError::validation(
                operation,
                "HEALTH_CHECK_TARGET_INVALID",
                "The health-check target is not a valid HTTPS URL.".to_string(),
            ));
        },
    };
    let bad_port = match url.port {
        Some(p) => p != 443,
        None => false,
    };
    if !str_eq(url.scheme.as_str(), "https") || !url.username.as_str().is_empty() || url.has_password || bad_port {
        return Err(IpcError::validation(
            operation,
            "HEALTH_CHECK_TARGET_INVALID",
            "Health checks require HTTPS on port 443 without embedded credentials.".to_string(),
        ));
    }
    let host = match &url.host {
        Some(h) => h.clone(),
        None => {
            return Err(IpcError::validation(operation, "HEALTH_CHECK_TARGET_INVALID", "The health-check target has no hostname.".to_string()));
        },
    };
    let inner = str_trim_start_char(host.as_str(), '[');
    let inner = str_trim_end_char(inner.as_str(), ']');
    if parse_ip_address(inner.as_str()).is_some() {
        return Err(IpcError::validation(
            operation,
            "HEALTH_CHECK_IP_LITERAL_REJECTED",
            "Health checks require a public hostname; IP literals are not accepted.".to_string(),
        ));
    }
    Ok((url, host))
}

// ---------------------------------------------------------------------------
// Judging the answers
// ---------------------------------------------------------------------------

/// The built-in sites the DNS diagnosis may test, with their known
/// addresses.
pub open spec fn diagnosis_targets() -> Seq<(Seq<char>, Seq<char>, u16)> {
    seq![
        ("discord.com"@, "162.159.135.232"@, 443u16),
        ("www.discord.com"@, "162.159.135.232"@, 443u16),
        ("x.com"@, "104.244.42.65"@, 443u16),
        ("twitter.com"@, "104.244.42.65"@, 443u16),
        ("youtube.com"@, "142.250.185.14"@, 443u16),
        ("www.youtube.com"@, "142.250.185.14"@, 443u16),
    ]
}

/// The known address of the first built-in site with this host name.
pub open spec fn diagnosis_target_of(targets: Seq<(Seq<char>, Seq<char>, u16)>, host: Seq<char>) -> Option<(Seq<char>, u16)>
    decreases targets.len(),
{
    if targets.len() == 0 {
        None
    } else if targets[0].0 == host {
        Some((targets[0].1, targets[0].2))
    } else {
        diagnosis_target_of(targets.drop_first(), host)
    }
}

fn diagnosis_target_list() -> (v: Vec<(&'static str, &'static str, u16)>)
    ensures
        v@.map_values(|t: (&'static str, &'static str, u16)| (t.0@, t.1@, t.2)) == diagnosis_targets(),
{
    let v = vec![
        ("discord.com", "162.159.135.232", 443u16),
        ("www.discord.com", "162.159.135.232", 443u16),
        ("x.com", "104.244.42.65", 443u16),
        ("twitter.com", "104.244.42.65", 443u16),
        ("youtube.com", "142.250.185.14", 443u16),
        ("www.youtube.com", "142.250.185.14", 443u16),
    ];
    proof {
        assert(v@.map_values(|t: (&'static str, &'static str, u16)| (t.0@, t.1@, t.2)) =~= diagnosis_targets());
    }
    v
}

pub fn dns_diagnosis_target(hostname: &str) -> (r: Option<(&'static str, u16)>)
    ensures
        match (r, diagnosis_target_of(diagnosis_targets(), hostname@)) {
            (Some((a, p)), Some((b, q))) => a@ == b && p == q,
            (None, None) => true,
            _ => false,
        },
{
    let targets = diagnosis_target_list();
    let ghost all = diagnosis_targets();
    let mut i: usize = 0;
    proof {
        assert(all.skip(0) =~= all);
    }
    while i < targets.len()
        invariant
            i <= targets@.len(),
            targets@.map_values(|t: (&'static str, &'static str, u16)| (t.0@, t.1@, t.2)) == all,
            all == diagnosis_targets(),
            diagnosis_target_of(all, hostname@) == diagnosis_target_of(all.skip(i as int), hostname@),
        decreases targets@.len() - i,
    {
        let (name, address, port) = targets[i];
        assert(all.skip(i as int)[0] == (name@, address@, port));
        assert(all.skip(i as int).drop_first() =~= all.skip(i + 1));
        if str_eq(name, hostname) {
            return Some((address, port));
        }
        i += 1;
    }
    assert(all.skip(i as int) =~= Seq::<(Seq<char>, Seq<char>, u16)>::empty());
    None
}

/// A check succeeds on a success or redirection status, and on 405 (the
/// site refuses HEAD but answered).
pub open spec fn check_status_ok(status: u16) -> bool {
    (200 <= status <= 399) || status == 405
}

/// The result of a check that got an HTTP answer.
pub fn ping_result_for_status(status: u16, latency_ms: u64) -> (r: PingResult)
    ensures
        r.success == check_status_ok(status),
        r.latency_ms == latency_ms,
        r.status_code == Some(status),
        r.success ==> r.error is None,
        !r.success ==> (r.error matches Some(e) && e@ == "HTTP "@ + decimal(status as nat)),
{
    let success = (200 <= status && status <= 399) || status == 405;
    PingResult {
        success,
        latency_ms,
        status_code: Some(status),
        error: if success { None } else { Some(concat("HTTP ", u64_to_decimal(status as u64).as_str())) },
    }
}

/// The diagnosis of a site from the two checks.
pub open spec fn dns_diagnosis(system_dns_ok: bool, direct_ok: bool) -> (Seq<char>, Seq<char>) {
    if system_dns_ok {
        ("Your connection is working perfectly! Neither DPI nor DNS is blocking."@, "No changes needed."@)
    } else if direct_ok {
        (
            "🔍 DNS Block Detected! IP connection works but your system DNS is poisoned."@,
            "Change your DNS server to Cloudflare (1.1.1.1) or Google (8.8.8.8). Windows Settings > Network & Internet > Ethernet/Wi-Fi > DNS server assignment."@,
        )
    } else {
        (
            "⚠️ DPI + DNS Block: Both system DNS and direct IP access are blocked."@,
            "1) First change your DNS to 1.1.1.1. 2) Then find the best DPI bypass method using Smart Scan. 3) When both are working, discord.com will be accessible."@,
        )
    }
}

pub fn diagnose_dns_block(system_dns_ok: bool, doh_dns_ok: bool) -> (r: DnsCheckResult)
    ensures
        r.system_dns_ok == system_dns_ok,
        r.doh_dns_ok == doh_dns_ok,
        (r.diagnosis@, r.recommendation@) == dns_diagnosis(system_dns_ok, doh_dns_ok),
{
    let (diagnosis, recommendation) = if system_dns_ok {
        (
            "Your connection is working perfectly! Neither DPI nor DNS is blocking.".to_string(),
            "No changes needed.".to_string(),
        )
    } else if doh_dns_ok {
        (
            "🔍 DNS Block Detected! IP connection works but your system DNS is poisoned.".to_string(),
            "Change your DNS server to Cloudflare (1.1.1.1) or Google (8.8.8.8). Windows Settings > Network & Internet > Ethernet/Wi-Fi > DNS server assignment.".to_string(),
        )
    } else {
        (
            "⚠️ DPI + DNS Block: Both system DNS and direct IP access are blocked.".to_string(),
            "1) First change your DNS to 1.1.1.1. 2) Then find the best DPI bypass method using Smart Scan. 3) When both are working, discord.com will be accessible.".to_string(),
        )
    };
    DnsCheckResult { system_dns_ok, doh_dns_ok, diagnosis, recommendation }
}

/// A site counts as reached when it answered below 500.
pub fn reached(status: Option<u16>) -> (r: bool)
    ensures
        r == (status matches Some(s) && s < 500),
{
    match status {
        Some(s) => s < 500,
        None => false,
    }
}

} // verus!
