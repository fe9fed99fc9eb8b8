//! What the user interface's commands decide: the validation of a bypass
//! synchronisation and the status it reports, the forwarder's status, the
//! engine health summary, and the DNS configuration status.

use vstd::prelude::*;
use crate::ipc::IpcError;
use crate::text::{
    decimal, u64_to_decimal, concat, str_eq, str_trim, trim, starts_with, str_starts_with, str_strip_prefix,
    chars_of, string_of_range, split_char, split_ranges, view_strings, join_seq, text_lowercase,
    str_to_lowercase, parse_unsigned, parse_unsigned_str,
};
use crate::domain::{canonical_rules, canonicalize_domain_rules, domain_rule_error_text};
use crate::runtime_config::{join_strings, AppliedRuntimeConfig, RuntimeBypassMode, bypass_mode_text};
use crate::dns_forwarder::{DnsSettings, DoHEndpoint, DEFAULT_HEALTH_CHECK_TARGET, endpoint_url};
use crate::dns_config::{DnsConfigCandidate, DnsSocksCandidate};
use crate::dns_transaction::{DnsApplyStage, DnsForwarderState, DnsTransactionOutcome};
use crate::http_check::{parse_url, url_parse};

verus! {

// ---------------------------------------------------------------------------
// The DNS forwarder's status
// ---------------------------------------------------------------------------

#[derive(Debug, Clone, PartialEq, Eq)]
pub struct ForwarderStatus {
    pub active: bool,
    pub port: u16,
    pub endpoint: String,
    pub protocol: String,
    pub adblock: bool,
    pub cache: bool,
    pub watchdog_enabled: bool,
}

/// The forwarder's status: whether it runs, where, and the settings it runs
/// with.
pub fn forwarder_status(active: bool, port: u16, endpoint: String, watchdog_enabled: bool, settings: &DnsSettings) -> (s: ForwarderStatus)
    ensures
        s.active == active,
        s.port == port,
        s.endpoint == endpoint,
        s.protocol == settings.protocol,
        s.adblock == settings.adblock,
        s.cache == settings.cache,
        s.watchdog_enabled == watchdog_enabled,
{
    ForwarderStatus {
        active,
        port,
        endpoint,
        protocol: settings.protocol.clone(),
        adblock: settings.adblock,
        cache: settings.cache,
        watchdog_enabled,
    }
}

/// The upstream of a forwarder started for the saved provider: Google when
/// `google` was chosen, Cloudflare otherwise.
pub fn endpoint_for_provider(selected_dns_id: Option<&str>) -> (e: DoHEndpoint)
    ensures
        e == (if selected_dns_id matches Some(id) && id@ == "google"@ {
            DoHEndpoint::Google
        } else {
            DoHEndpoint::Cloudflare
        }),
{
    match selected_dns_id {
        Some(id) => if str_eq(id, "google") { DoHEndpoint::Google } else { DoHEndpoint::Cloudflare },
        None => DoHEndpoint::Cloudflare,
    }
}

/// The DNS configuration a forwarder start requests: enabled, with the
/// saved protocol and tools, the chosen provider, no SOCKS5 upstream, and
/// the kill switch as the bypass configuration has it.
pub fn forwarder_candidate(settings: &DnsSettings, endpoint: DoHEndpoint, kill_switch: bool) -> (c: DnsConfigCandidate)
    ensures
        c.enabled,
        c.protocol == settings.protocol,
        c.provider matches Some(p) && p@ == (if endpoint == DoHEndpoint::Google { "google"@ } else { "cloudflare"@ }),
        c.adblock == settings.adblock,
        c.cache_enabled == settings.cache,
        c.socks5 is None,
        c.kill_switch == kill_switch,
{
    DnsConfigCandidate {
        enabled: true,
        protocol: settings.protocol.clone(),
        provider: Some(match endpoint {
            DoHEndpoint::Cloudflare => "cloudflare".to_string(),
            DoHEndpoint::Google => "google".to_string(),
        }),
        adblock: settings.adblock,
        cache_enabled: settings.cache,
        socks5: None,
        kill_switch,
    }
}

/// The DNS configuration a forwarder stop requests: disabled, with nothing
/// enabled.
pub fn disabled_dns_candidate() -> (c: DnsConfigCandidate)
    ensures
        !c.enabled,
        c.protocol@ == "doh"@,
        c.provider matches Some(p) && p@ == "cloudflare"@,
        !c.adblock,
        !c.cache_enabled,
        c.socks5 is None,
        !c.kill_switch,
{
    DnsConfigCandidate {
        enabled: false,
        protocol: "doh".to_string(),
        provider: Some("cloudflare".to_string()),
        adblock: false,
        cache_enabled: false,
        socks5: None,
        kill_switch: false,
    }
}

// ---------------------------------------------------------------------------
// Engine health
// ---------------------------------------------------------------------------

#[derive(Debug, Clone, PartialEq, Eq)]
pub struct HealthStatus {
    pub healthy: bool,
    pub latency_ms: u64,
    pub checked_at: String,
    pub target: String,
}

/// `str::trim_start_matches` with a text: every leading copy removed.
pub open spec fn strip_all_prefix(s: Seq<char>, p: Seq<char>) -> Seq<char>
    decreases s.len(),
{
    if p.len() > 0 && starts_with(s, p) {
        strip_all_prefix(s.skip(p.len() as int), p)
    } else {
        s
    }
}

fn str_strip_all_prefix(s: &str, p: &str) -> (r: String)
    ensures
        r@ == strip_all_prefix(s@, p@),
    decreases s@.len(),
{
    if p.is_empty() {
        return s.to_string();
    }
    match str_strip_prefix(s, p) {
        Some(rest) => {
            proof {
                assert(rest@ == s@.skip(p@.len() as int));
            }
            str_strip_all_prefix(rest.as_str(), p)
        },
        None => s.to_string(),
    }
}

/// The host a health target names: scheme, path and port removed,
/// lowercased; `None` when nothing or a wildcard remains.
pub open spec fn health_target_host(t: Seq<char>) -> Option<Seq<char>> {
    let s = strip_all_prefix(strip_all_prefix(trim(t), "https://"@), "http://"@);
    let host = split_char(split_char(s, '/')[0], ':')[0];
    let clean = text_lowercase(host);
    if clean.len() == 0 || starts_with(clean, "*."@) { None } else { Some(clean) }
}

fn first_piece(s: &str, d: char) -> (r: String)
    ensures
        r@ == split_char(s@, d)[0],
{
    let v = chars_of(s);
    let ranges = split_ranges(&v, d);
    proof {
        assert(split_char(s@, d).len() > 0);
    }
    let (lo, hi) = ranges[0];
    string_of_range(&v, lo, hi)
}

pub fn clean_health_target(t: &str) -> (r: Option<String>)
    ensures
        match (r, health_target_host(t@)) {
            (Some(a), Some(b)) => a@ == b,
            (None, None) => true,
            _ => false,
        },
{
    let s = str_trim(t);
    let s = str_strip_all_prefix(s.as_str(), "https://");
    let s = str_strip_all_prefix(s.as_str(), "http://");
    let path_free = first_piece(s.as_str(), '/');
    let host = first_piece(path_free.as_str(), ':');
    let clean = str_to_lowercase(host.as_str());
    if clean.as_str().is_empty() || str_starts_with(clean.as_str(), "*.") {
        None
    } else {
        Some(clean)
    }
}

/// The hosts of the given targets, in order.
pub open spec fn health_hosts(targets: Seq<Seq<char>>) -> Seq<Seq<char>>
    decreases targets.len(),
{
    if targets.len() == 0 {
        seq![]
    } else {
        let rest = health_hosts(targets.drop_last());
        match health_target_host(targets.last()) {
            Some(h) => rest.push(h),
            None => rest,
        }
    }
}

/// The hosts a health check probes: the canonical forms of the cleaned
/// targets; the default target when none remain or one is not a valid
/// domain rule.
pub open spec fn health_check_hosts(targets: Seq<Seq<char>>) -> Seq<Seq<char>> {
    let hosts = health_hosts(targets);
    let cleaned = if hosts.len() == 0 { seq![DEFAULT_HEALTH_CHECK_TARGET@] } else { hosts };
    match canonical_rules(cleaned) {
        Ok(c) => c,
        Err(_) => seq![DEFAULT_HEALTH_CHECK_TARGET@],
    }
}

pub fn health_check_targets(targets: &Vec<String>) -> (r: Vec<String>)
    ensures
        view_strings(r@) == health_check_hosts(view_strings(targets@)),
{
    let ghost views = view_strings(targets@);
    let mut cleaned: Vec<String> = Vec::new();
    let mut i: usize = 0;
    while i < targets.len()
        invariant
            i <= targets@.len(),
            views == view_strings(targets@),
            view_strings(cleaned@) == health_hosts(views.take(i as int)),
        decreases targets@.len() - i,
    {
        proof {
            assert(views.take(i + 1).drop_last() =~= views.take(i as int));
            assert(views.take(i + 1).last() == targets@[i as int]@);
        }
        match clean_health_target(targets[i].as_str()) {
            Some(h) => {
                let ghost before = cleaned@;
                cleaned.push(h);
                proof {
                    assert(view_strings(cleaned@) =~= view_strings(before).push(h@));
                }
            },
            None => {},
        }
        i += 1;
    }
    proof {
        assert(views.take(targets@.len() as int) =~= views);
    }
    if cleaned.len() == 0 {
        cleaned.push(DEFAULT_HEALTH_CHECK_TARGET.to_string());
        proof {
            assert(view_strings(cleaned@) =~= seq![DEFAULT_HEALTH_CHECK_TARGET@]);
        }
    }
    match canonicalize_domain_rules(cleaned.as_slice()) {
        Ok(c) => c,
        Err(_) => {
            let d = vec![DEFAULT_HEALTH_CHECK_TARGET.to_string()];
            proof {
                assert(view_strings(d@) =~= seq![DEFAULT_HEALTH_CHECK_TARGET@]);
            }
            d
        },
    }
}

/// The fastest answer among the probes that connected: a probe replaces
/// the best so far when none was kept yet (a kept latency of zero counts
/// as none) or when it is faster.
pub open spec fn best_latency(results: Seq<(bool, u64)>) -> u64
    decreases results.len(),
{
    if results.len() == 0 {
        0
    } else {
        let m = best_latency(results.drop_last());
        let (ok, latency) = results.last();
        if ok && (m == 0 || latency < m) { latency } else { m }
    }
}

pub open spec fn any_connected(results: Seq<(bool, u64)>) -> bool {
    exists|i: int| 0 <= i < results.len() && (#[trigger] results[i]).0
}

/// A number of at most two digits, zero-padded.
pub open spec fn two_digits(n: nat) -> Seq<char> {
    if n < 10 { "0"@ + decimal(n) } else { decimal(n) }
}

/// The time of day of a UNIX timestamp, as `HH:MM:SS UTC`.
pub open spec fn utc_clock_text(secs: u64) -> Seq<char> {
    two_digits(((secs % 86400) / 3600) as nat) + ":"@ + two_digits(((secs % 3600) / 60) as nat) + ":"@ + two_digits(
        (secs % 60) as nat,
    ) + " UTC"@
}

fn two_digit_text(n: u64) -> (s: String)
    ensures
        s@ == two_digits(n as nat),
{
    if n < 10 {
        concat("0", u64_to_decimal(n).as_str())
    } else {
        u64_to_decimal(n)
    }
}

pub fn utc_clock(secs: u64) -> (s: String)
    ensures
        s@ == utc_clock_text(secs),
{
    let s = two_digit_text((secs % 86400) / 3600);
    let s = concat(s.as_str(), ":");
    let s = concat(s.as_str(), two_digit_text((secs % 3600) / 60).as_str());
    let s = concat(s.as_str(), ":");
    let s = concat(s.as_str(), two_digit_text(secs % 60).as_str());
    concat(s.as_str(), " UTC")
}

/// How the probed hosts are named: the host itself when there is one,
/// otherwise how many there are.
pub open spec fn health_target_label(hosts: Seq<Seq<char>>) -> Seq<char> {
    if hosts.len() == 1 { hosts[0] } else { decimal(hosts.len()) + " Sites"@ }
}

/// The engine's health from the probes of `hosts` (in the same order):
/// healthy when one connected, with the fastest such latency.
pub fn engine_health_status(hosts: &Vec<String>, results: &Vec<(bool, u64)>, now_secs: u64) -> (s: HealthStatus)
    ensures
        s.healthy == any_connected(results@),
        s.latency_ms == (if any_connected(results@) { best_latency(results@) } else { 0 }),
        s.checked_at@ == utc_clock_text(now_secs),
        s.target@ == health_target_label(view_strings(hosts@)),
{
    let mut healthy = false;
    let mut best: u64 = 0;
    let mut i: usize = 0;
    while i < results.len()
        invariant
            i <= results@.len(),
            healthy == any_connected(results@.take(i as int)),
            best == best_latency(results@.take(i as int)),
        decreases results@.len() - i,
    {
        let (ok, latency) = results[i];
        proof {
            assert(results@.take(i + 1).drop_last() =~= results@.take(i as int));
            assert(results@.take(i + 1).last() == (ok, latency));
            if any_connected(results@.take(i + 1)) && !ok {
                let k = choose|k: int| 0 <= k < i + 1 && (#[trigger] results@.take(i + 1)[k]).0;
                assert(k < i);
                assert(results@.take(i as int)[k] == results@.take(i + 1)[k]);
            }
            if healthy {
                let k = choose|k: int| 0 <= k < i && (#[trigger] results@.take(i as int)[k]).0;
                assert(results@.take(i + 1)[k] == results@.take(i as int)[k]);
            }
            if ok {
                assert(results@.take(i + 1)[i as int].0);
            }
        }
        if ok {
            healthy = true;
            if best == 0 || latency < best {
                best = latency;
            }
        }
        i += 1;
    }
    proof {
        assert(results@.take(results@.len() as int) =~= results@);
    }
    let target = if hosts.len() == 1 {
        hosts[0].clone()
    } else {
        concat(u64_to_decimal(hosts.len() as u64).as_str(), " Sites")
    };
    HealthStatus {
        healthy,
        latency_ms: if healthy { best } else { 0 },
        checked_at: utc_clock(now_secs),
        target,
    }
}

// ---------------------------------------------------------------------------
// Geolocation answer
// ---------------------------------------------------------------------------

#[derive(Debug, Clone, PartialEq, Eq)]
pub struct IpWhoIsConnection {
    pub isp: Option<String>,
    pub org: Option<String>,
}

#[derive(Debug, Clone, PartialEq, Eq)]
pub struct IpWhoIsResponse {
    pub ip: Option<String>,
    pub success: bool,
    pub city: Option<String>,
    pub country: Option<String>,
    pub connection: Option<IpWhoIsConnection>,
}

// ---------------------------------------------------------------------------
// Opening links
// ---------------------------------------------------------------------------

/// Only absolute HTTPS URLs with a host are opened; the URL handed to the
/// opener is the parser's serialization.
pub fn open_url_target(url: &str) -> (r: Result<String, String>)
    ensures
        match url_parse(url@) {
            None => r matches Err(e) && e@ == "The URL is invalid."@,
            Some(u) => if u.scheme != "https"@ || u.host is None {
                r matches Err(e) && e@ == "Security policy: only absolute HTTPS URLs are allowed."@
            } else {
                r matches Ok(s) && s@ == u.serialized
            },
        },
{
    match parse_url(url) {
        None => Err("The URL is invalid.".to_string()),
        Some(u) => if !str_eq(u.scheme.as_str(), "https") || u.host.is_none() {
            Err("Security policy: only absolute HTTPS URLs are allowed.".to_string())
        } else {
            Ok(u.serialized)
        },
    }
}

/// `validate_socks5_proxy`: the SOCKS5 upstream in canonical form.
pub fn validate_socks5_proxy(proxy: String) -> (r: Result<String, String>)
    ensures
        match (r, crate::dns_forwarder::socks5_verdict(proxy@)) {
            (Ok(s), Ok(t)) => s@ == t,
            (Err(m), Err(t)) => m@ == t,
            _ => false,
        },
{
    crate::dns_forwarder::normalize_socks5_proxy(proxy.as_str())
}

// ---------------------------------------------------------------------------
// DNS configuration status
// ---------------------------------------------------------------------------

#[derive(Debug, Clone, PartialEq, Eq)]
pub struct DnsConfigStatus {
    pub protocol: String,
    pub adblock: bool,
    pub cache: bool,
    pub socks5_proxy: String,
    pub forwarder_active: bool,
    pub config_revision: u64,
    pub config_fingerprint: String,
    pub stage: DnsApplyStage,
    pub applied_revision: Option<u64>,
    pub applied_fingerprint: Option<String>,
    pub forwarder_state: DnsForwarderState,
    pub kill_switch_applied: bool,
    pub rollback_performed: bool,
    pub rollback_succeeded: bool,
    pub superseded: bool,
}

/// The SOCKS5 upstream a DNS synchronisation asks for: none when the
/// setting is blank; otherwise the host before the first `:` and the port
/// after it, 1080 when that is missing or not a port.
pub open spec fn socks_setting_parts(setting: Seq<char>) -> Option<(Seq<char>, u16)> {
    if trim(setting).len() == 0 {
        None
    } else {
        let parts = split_char(setting, ':');
        let port = if parts.len() > 1 && parse_unsigned(parts[1], 65535) is Some {
            parse_unsigned(parts[1], 65535)->0 as u16
        } else {
            1080u16
        };
        Some((parts[0], port))
    }
}

pub fn socks_candidate_from_setting(setting: &str) -> (r: Option<DnsSocksCandidate>)
    ensures
        match (r, socks_setting_parts(setting@)) {
            (Some(c), Some((host, port))) => c.host@ == host && c.port == port && c.username is None
                && c.password is None,
            (None, None) => true,
            _ => false,
        },
{
    let t = str_trim(setting);
    if t.as_str().is_empty() {
        return None;
    }
    let v = chars_of(setting);
    let ranges = split_ranges(&v, ':');
    proof {
        assert(split_char(setting@, ':').len() > 0);
    }
    let (lo, hi) = ranges[0];
    let host = string_of_range(&v, lo, hi);
    let port: u16 = if ranges.len() > 1 {
        let (a, b) = ranges[1];
        let text = string_of_range(&v, a, b);
        match parse_unsigned_str(text.as_str(), 65535) {
            Some(p) => p as u16,
            None => 1080,
        }
    } else {
        1080
    };
    Some(DnsSocksCandidate { host, port, username: None, password: None })
}

/// The status a DNS synchronisation reports: the requested settings and
/// the transaction's outcome; the forwarder is active when it is ready.
pub fn dns_config_status(
    protocol: String,
    adblock: bool,
    cache: bool,
    socks5_proxy: String,
    outcome: DnsTransactionOutcome,
) -> (s: DnsConfigStatus)
    ensures
        s.protocol == protocol,
        s.adblock == adblock,
        s.cache == cache,
        s.socks5_proxy == socks5_proxy,
        s.forwarder_active == (outcome.forwarder_state == DnsForwarderState::Ready),
        s.config_revision == outcome.config_revision,
        s.config_fingerprint == outcome.config_fingerprint,
        s.stage == outcome.stage,
        s.applied_revision == outcome.applied_revision,
        s.applied_fingerprint == outcome.applied_fingerprint,
        s.forwarder_state == outcome.forwarder_state,
        s.kill_switch_applied == outcome.kill_switch_applied,
        s.rollback_performed == outcome.rollback_performed,
        s.rollback_succeeded == outcome.rollback_succeeded,
        s.superseded == outcome.superseded,
{
    let forwarder_active = outcome.forwarder_state == DnsForwarderState::Ready;
    DnsConfigStatus {
        protocol,
        adblock,
        cache,
        socks5_proxy,
        forwarder_active,
        config_revision: outcome.config_revision,
        config_fingerprint: outcome.config_fingerprint,
        stage: outcome.stage,
        applied_revision: outcome.applied_revision,
        applied_fingerprint: outcome.applied_fingerprint,
        forwarder_state: outcome.forwarder_state,
        kill_switch_applied: outcome.kill_switch_applied,
        rollback_performed: outcome.rollback_performed,
        rollback_succeeded: outcome.rollback_succeeded,
        superseded: outcome.superseded,
    }
}

// ---------------------------------------------------------------------------
// Bypass synchronisation
// ---------------------------------------------------------------------------

#[derive(Debug, Clone, Copy, PartialEq, Eq, Structural)]
pub enum BypassApplyStage {
    Prepared,
    ProcessStarted,
    RolledBack,
    Superseded,
}

/// What a bypass synchronisation reports.
#[derive(Debug, Clone, PartialEq, Eq)]
pub struct BypassConfigStatus {
    pub mode: String,
    pub domain_count: usize,
    pub config_revision: u64,
    pub config_fingerprint: String,
    pub stage: BypassApplyStage,
    pub applied_revision: Option<u64>,
    pub applied_fingerprint: Option<String>,
    pub engine_restarted: bool,
    pub engine_running: bool,
    pub rollback_performed: bool,
    pub rollback_succeeded: bool,
    pub superseded: bool,
    pub whitelist_domains: Vec<String>,
    pub blacklist_domains: Vec<String>,
    pub canonical_whitelist_domains: Vec<String>,
    pub canonical_blacklist_domains: Vec<String>,
    pub active_preset_id: String,
}

/// A bypass request that passed validation: both lists in canonical form
/// and the list the mode uses, one domain per line.
#[derive(Debug, Clone)]
pub struct ValidatedBypassRequest {
    pub mode: String,
    pub canonical_whitelist: Vec<String>,
    pub canonical_blacklist: Vec<String>,
    pub canonical_list: String,
}

pub const SYNC_BYPASS_OPERATION: &'static str = "sync_bypass_config";

/// Why a bypass request is refused, as (code, message), checked in order:
/// an unknown mode, an invalid whitelist domain, an invalid blacklist
/// domain, an empty whitelist in whitelist mode.
pub open spec fn bypass_request_refusal(mode: Seq<char>, whitelist: Seq<Seq<char>>, blacklist: Seq<Seq<char>>) -> Option<(Seq<char>, Seq<char>)> {
    if !(mode == "all"@ || mode == "whitelist"@ || mode == "blacklist"@) {
        Some(("INVALID_BYPASS_MODE"@, "Unsupported bypass mode: "@ + mode))
    } else if canonical_rules(whitelist) is Err {
        Some(("INVALID_WHITELIST_DOMAIN"@, "Invalid whitelist domain: "@ + domain_rule_error_text(canonical_rules(whitelist)->Err_0)))
    } else if canonical_rules(blacklist) is Err {
        Some(("INVALID_BLACKLIST_DOMAIN"@, "Invalid blacklist domain: "@ + domain_rule_error_text(canonical_rules(blacklist)->Err_0)))
    } else if mode == "whitelist"@ && canonical_rules(whitelist)->Ok_0.len() == 0 {
        Some(("WHITELIST_EMPTY"@, "Whitelist mode requires at least one valid domain; the running engine was left unchanged."@))
    } else {
        None
    }
}

/// The list a mode bypasses: the whitelist or the blacklist, none for all
/// sites.
pub open spec fn mode_list(mode: Seq<char>, whitelist: Seq<Seq<char>>, blacklist: Seq<Seq<char>>) -> Seq<Seq<char>> {
    if mode == "whitelist"@ { whitelist } else if mode == "blacklist"@ { blacklist } else { seq![] }
}

pub fn validate_bypass_request(mode: String, whitelist: &Vec<String>, blacklist: &Vec<String>) -> (r: Result<ValidatedBypassRequest, IpcError>)
    ensures
        match (r, bypass_request_refusal(mode@, view_strings(whitelist@), view_strings(blacklist@))) {
            (Ok(v), None) => {
                let w = canonical_rules(view_strings(whitelist@))->Ok_0;
                let b = canonical_rules(view_strings(blacklist@))->Ok_0;
                &&& v.mode == mode
                &&& view_strings(v.canonical_whitelist@) == w
                &&& view_strings(v.canonical_blacklist@) == b
                &&& v.canonical_list@ == join_seq(mode_list(mode@, w, b), "\n"@)
            },
            (Err(e), Some((code, message))) => e.code@ == code && e.message@ == message && e.operation
                == SYNC_BYPASS_OPERATION && !e.retryable,
            _ => false,
        },
{
    if !(str_eq(mode.as_str(), "all") || str_eq(mode.as_str(), "whitelist") || str_eq(mode.as_str(), "blacklist")) {
        return Err(IpcError::validation(SYNC_BYPASS_OPERATION, "INVALID_BYPASS_MODE", concat("Unsupported bypass mode: ", mode.as_str())));
    }
    let w = match canonicalize_domain_rules(whitelist.as_slice()) {
        Ok(w) => w,
        Err(e) => {
            let m = e.message();
            return Err(IpcError::validation(SYNC_BYPASS_OPERATION, "INVALID_WHITELIST_DOMAIN", concat("Invalid whitelist domain: ", m.as_str())));
        },
    };
    let b = match canonicalize_domain_rules(blacklist.as_slice()) {
        Ok(b) => b,
        Err(e) => {
            let m = e.message();
            return Err(IpcError::validation(SYNC_BYPASS_OPERATION, "INVALID_BLACKLIST_DOMAIN", concat("Invalid blacklist domain: ", m.as_str())));
        },
    };
    if str_eq(mode.as_str(), "whitelist") && w.len() == 0 {
        return Err(IpcError::validation(
            SYNC_BYPASS_OPERATION,
            "WHITELIST_EMPTY",
            "Whitelist mode requires at least one valid domain; the running engine was left unchanged.".to_string(),
        ));
    }
    let list = if str_eq(mode.as_str(), "whitelist") {
        join_strings(&w, "\n")
    } else if str_eq(mode.as_str(), "blacklist") {
        join_strings(&b, "\n")
    } else {
        proof {
            assert(join_seq(Seq::<Seq<char>>::empty(), "\n"@) =~= Seq::<char>::empty());
        }
        String::new()
    };
    Ok(ValidatedBypassRequest { mode, canonical_whitelist: w, canonical_blacklist: b, canonical_list: list })
}

/// The number of domains the mode bypasses.
pub fn mode_domain_count(request: &ValidatedBypassRequest) -> (n: usize)
    ensures
        n == (if request.mode@ == "whitelist"@ {
            request.canonical_whitelist@.len()
        } else if request.mode@ == "blacklist"@ {
            request.canonical_blacklist@.len()
        } else {
            0
        }),
{
    if str_eq(request.mode.as_str(), "whitelist") {
        request.canonical_whitelist.len()
    } else if str_eq(request.mode.as_str(), "blacklist") {
        request.canonical_blacklist.len()
    } else {
        0
    }
}

/// A request is superseded when a later one was made meanwhile.
pub fn is_superseded(revision: u64, latest_requested: u64) -> (r: bool)
    ensures
        r == (revision < latest_requested),
{
    revision < latest_requested
}

/// The status of a synchronisation that did not restart the engine: it
/// was superseded (reporting what runs) or only prepared (the engine was
/// not running).
pub fn unapplied_bypass_status(
    request: &ValidatedBypassRequest,
    revision: u64,
    fingerprint: String,
    active_preset_id: String,
    superseded: bool,
    applied: Option<(u64, String)>,
    engine_running: bool,
) -> (s: BypassConfigStatus)
    ensures
        s.mode == request.mode,
        s.config_revision == revision,
        s.config_fingerprint == fingerprint,
        s.stage == (if superseded { BypassApplyStage::Superseded } else { BypassApplyStage::Prepared }),
        superseded ==> s.engine_running == engine_running && match applied {
            Some((r, f)) => s.applied_revision == Some(r) && s.applied_fingerprint == Some(f),
            None => s.applied_revision is None && s.applied_fingerprint is None,
        },
        !superseded ==> (s.applied_revision is None && s.applied_fingerprint is None && !s.engine_running),
        !s.engine_restarted,
        !s.rollback_performed,
        !s.rollback_succeeded,
        s.superseded == superseded,
        s.whitelist_domains@ == request.canonical_whitelist@,
        s.blacklist_domains@ == request.canonical_blacklist@,
        s.canonical_whitelist_domains@ == request.canonical_whitelist@,
        s.canonical_blacklist_domains@ == request.canonical_blacklist@,
        s.active_preset_id == active_preset_id,
        s.domain_count == (if request.mode@ == "whitelist"@ {
            request.canonical_whitelist@.len()
        } else if request.mode@ == "blacklist"@ {
            request.canonical_blacklist@.len()
        } else {
            0
        }),
{
    let (applied_revision, applied_fingerprint) = if superseded {
        match applied {
            Some((r, f)) => (Some(r), Some(f)),
            None => (None, None),
        }
    } else {
        (None, None)
    };
    BypassConfigStatus {
        mode: request.mode.clone(),
        domain_count: mode_domain_count(request),
        config_revision: revision,
        config_fingerprint: fingerprint,
        stage: if superseded { BypassApplyStage::Superseded } else { BypassApplyStage::Prepared },
        applied_revision,
        applied_fingerprint,
        engine_restarted: false,
        engine_running: if superseded { engine_running } else { false },
        rollback_performed: false,
        rollback_succeeded: false,
        superseded,
        whitelist_domains: request.canonical_whitelist.clone(),
        blacklist_domains: request.canonical_blacklist.clone(),
        canonical_whitelist_domains: request.canonical_whitelist.clone(),
        canonical_blacklist_domains: request.canonical_blacklist.clone(),
        active_preset_id,
    }
}

/// The status after the engine was restarted with the new configuration.
pub fn started_bypass_status(
    request: &ValidatedBypassRequest,
    revision: u64,
    fingerprint: String,
    active_preset_id: String,
    applied_revision: u64,
    applied_fingerprint: String,
) -> (s: BypassConfigStatus)
    ensures
        s.mode == request.mode,
        s.config_revision == revision,
        s.config_fingerprint == fingerprint,
        s.stage == BypassApplyStage::ProcessStarted,
        s.applied_revision == Some(applied_revision),
        s.applied_fingerprint == Some(applied_fingerprint),
        s.engine_restarted && s.engine_running,
        !s.rollback_performed && !s.rollback_succeeded && !s.superseded,
        s.whitelist_domains@ == request.canonical_whitelist@,
        s.blacklist_domains@ == request.canonical_blacklist@,
        s.canonical_whitelist_domains@ == request.canonical_whitelist@,
        s.canonical_blacklist_domains@ == request.canonical_blacklist@,
        s.active_preset_id == active_preset_id,
        s.domain_count == (if request.mode@ == "whitelist"@ {
            request.canonical_whitelist@.len()
        } else if request.mode@ == "blacklist"@ {
            request.canonical_blacklist@.len()
        } else {
            0
        }),
{
    BypassConfigStatus {
        mode: request.mode.clone(),
        domain_count: mode_domain_count(request),
        config_revision: revision,
        config_fingerprint: fingerprint,
        stage: BypassApplyStage::ProcessStarted,
        applied_revision: Some(applied_revision),
        applied_fingerprint: Some(applied_fingerprint),
        engine_restarted: true,
        engine_running: true,
        rollback_performed: false,
        rollback_succeeded: false,
        superseded: false,
        whitelist_domains: request.canonical_whitelist.clone(),
        blacklist_domains: request.canonical_blacklist.clone(),
        canonical_whitelist_domains: request.canonical_whitelist.clone(),
        canonical_blacklist_domains: request.canonical_blacklist.clone(),
        active_preset_id,
    }
}

/// The status after the new configuration failed to start and the one
/// that ran before was started again: it reports the restored mode and
/// domains, under the revision that was requested.
pub fn rolled_back_bypass_status(
    revision: u64,
    fingerprint: String,
    restored: &AppliedRuntimeConfig,
    active_preset_id: String,
) -> (s: BypassConfigStatus)
    ensures
        s.mode@ == bypass_mode_text(restored.verified.bypass.mode),
        s.domain_count == restored.verified.bypass.domain_count,
        s.config_revision == revision,
        s.config_fingerprint == fingerprint,
        s.stage == BypassApplyStage::RolledBack,
        s.applied_revision == Some(restored.verified.revision@),
        s.applied_fingerprint matches Some(f) && f@ == restored.verified.fingerprint@,
        s.engine_restarted && s.engine_running && s.rollback_performed && s.rollback_succeeded,
        !s.superseded,
        restored.verified.bypass.mode == RuntimeBypassMode::Whitelist ==> s.whitelist_domains@
            == restored.verified.bypass.domains@ && s.blacklist_domains@.len() == 0,
        restored.verified.bypass.mode == RuntimeBypassMode::Blacklist ==> s.blacklist_domains@
            == restored.verified.bypass.domains@ && s.whitelist_domains@.len() == 0,
        restored.verified.bypass.mode == RuntimeBypassMode::All ==> s.whitelist_domains@.len() == 0
            && s.blacklist_domains@.len() == 0,
        s.canonical_whitelist_domains@ == s.whitelist_domains@,
        s.canonical_blacklist_domains@ == s.blacklist_domains@,
        s.active_preset_id == active_preset_id,
{
    let domains = restored.verified.bypass.domains.clone();
    let (w, b): (Vec<String>, Vec<String>) = match restored.verified.bypass.mode {
        RuntimeBypassMode::Whitelist => (domains, Vec::new()),
        RuntimeBypassMode::Blacklist => (Vec::new(), domains),
        RuntimeBypassMode::All => (Vec::new(), Vec::new()),
    };
    BypassConfigStatus {
        mode: restored.verified.bypass.mode.as_str().to_string(),
        domain_count: restored.verified.bypass.domain_count,
        config_revision: revision,
        config_fingerprint: fingerprint,
        stage: BypassApplyStage::RolledBack,
        applied_revision: Some(restored.verified.revision.get()),
        applied_fingerprint: Some(restored.verified.fingerprint.to_text()),
        engine_restarted: true,
        engine_running: true,
        rollback_performed: true,
        rollback_succeeded: true,
        superseded: false,
        whitelist_domains: w.clone(),
        blacklist_domains: b.clone(),
        canonical_whitelist_domains: w,
        canonical_blacklist_domains: b,
        active_preset_id,
    }
}

} // verus!
