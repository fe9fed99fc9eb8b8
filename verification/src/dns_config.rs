//! The DNS configuration contract: a candidate from the settings is
//! verified into a configuration with a revision and a fingerprint of
//! everything that affects resolution.

use vstd::prelude::*;
use vstd::utf8::encode_utf8;
use crate::digest::{hex_of, sha256_digest, sha256_hex};
use crate::runtime_config::{bool_text, push_field_with};
use crate::text::{
    concat, decimal, str_contains_char, str_eq, str_to_lowercase, str_trim, to_string, trim,
    u64_to_decimal, text_lowercase,
};

verus! {

/// The DNS-over-HTTPS endpoint of Cloudflare.
pub const DOH_CLOUDFLARE: &'static str = "https://cloudflare-dns.com/dns-query";

/// The DNS-over-HTTPS endpoint of Google.
pub const DOH_GOOGLE: &'static str = "https://dns.google/dns-query";

#[derive(Debug, Clone, PartialEq, Eq)]
pub struct DnsConfigCandidate {
    pub enabled: bool,
    pub protocol: String,
    pub provider: Option<String>,
    pub adblock: bool,
    pub cache_enabled: bool,
    pub socks5: Option<DnsSocksCandidate>,
    pub kill_switch: bool,
}

#[derive(Debug, Clone, PartialEq, Eq)]
pub struct DnsSocksCandidate {
    pub host: String,
    pub port: u16,
    pub username: Option<String>,
    pub password: Option<String>,
}

#[derive(Debug, Clone, Copy, PartialEq, Eq, Structural)]
pub enum DnsProtocol {
    Doh,
    Dot,
}

pub open spec fn dns_protocol_name(p: DnsProtocol) -> Seq<char> {
    match p {
        DnsProtocol::Doh => "doh"@,
        DnsProtocol::Dot => "dot"@,
    }
}

impl DnsProtocol {
    pub fn as_str(&self) -> (s: &'static str)
        ensures
            s@ == dns_protocol_name(*self),
    {
        match self {
            DnsProtocol::Doh => "doh",
            DnsProtocol::Dot => "dot",
        }
    }
}

#[derive(Debug, Clone, Copy, PartialEq, Eq, Structural)]
pub enum DnsProvider {
    Cloudflare,
    Google,
}

pub open spec fn dns_provider_name(p: DnsProvider) -> Seq<char> {
    match p {
        DnsProvider::Cloudflare => "cloudflare"@,
        DnsProvider::Google => "google"@,
    }
}

impl DnsProvider {
    pub fn as_str(&self) -> (s: &'static str)
        ensures
            s@ == dns_provider_name(*self),
    {
        match self {
            DnsProvider::Cloudflare => "cloudflare",
            DnsProvider::Google => "google",
        }
    }

    pub fn doh_url(&self) -> (s: &'static str)
        ensures
            s@ == (match *self {
                DnsProvider::Cloudflare => "https://cloudflare-dns.com/dns-query"@,
                DnsProvider::Google => "https://dns.google/dns-query"@,
            }),
    {
        match self {
            DnsProvider::Cloudflare => "https://cloudflare-dns.com/dns-query",
            DnsProvider::Google => "https://dns.google/dns-query",
        }
    }

    pub fn dot_host(&self) -> (s: &'static str)
        ensures
            s@ == (match *self {
                DnsProvider::Cloudflare => "1.1.1.1"@,
                DnsProvider::Google => "8.8.8.8"@,
            }),
    {
        match self {
            DnsProvider::Cloudflare => "1.1.1.1",
            DnsProvider::Google => "8.8.8.8",
        }
    }
}

/// A verified SOCKS5 proxy. It has no `Debug`: its credentials are not to
/// be printed.
#[derive(Clone, PartialEq, Eq)]
pub struct VerifiedDnsSocks {
    pub host: String,
    pub port: u16,
    pub username: Option<String>,
    pub password: Option<String>,
}

#[derive(Debug, Clone, Copy, PartialEq, Eq, PartialOrd, Ord, Hash, Structural)]
pub struct DnsConfigRevision(pub u64);

impl DnsConfigRevision {
    pub fn new(rev: u64) -> (r: Self)
        ensures
            r.0 == rev,
    {
        DnsConfigRevision(rev)
    }

    pub fn get(&self) -> (v: u64)
        ensures
            v == self.0,
    {
        self.0
    }
}

#[derive(Debug, Clone, PartialEq, Eq, Hash)]
pub struct DnsConfigFingerprint(pub String);

/// The text hashed into a DNS fingerprint, one `key=value` line each.
pub open spec fn dns_fingerprint_text(
    enabled: bool,
    protocol: DnsProtocol,
    provider: DnsProvider,
    adblock: bool,
    cache_enabled: bool,
    socks: Option<(Seq<char>, u16)>,
    kill_switch: bool,
) -> Seq<char> {
    "vane-dns-v1\n"@ + "enabled="@ + bool_text(enabled) + "\n"@ + "protocol="@ + dns_protocol_name(protocol) + "\n"@
        + "provider="@ + dns_provider_name(provider) + "\n"@ + "adblock="@ + bool_text(adblock) + "\n"@ + "cache="@
        + bool_text(cache_enabled) + "\n"@ + (match socks {
        Some((host, port)) => "socks_enabled=true\nsocks_host="@ + host + "\nsocks_port="@ + decimal(port as nat)
            + "\n"@,
        None => "socks_enabled=false\n"@,
    }) + "kill_switch="@ + bool_text(kill_switch) + "\n"@
}

pub open spec fn socks_key(socks: Option<VerifiedDnsSocks>) -> Option<(Seq<char>, u16)> {
    match socks {
        Some(s) => Some((s.host@, s.port)),
        None => None,
    }
}

fn bool_str(b: bool) -> (s: &'static str)
    ensures
        s@ == bool_text(b),
{
    if b { "true" } else { "false" }
}

impl DnsConfigFingerprint {
    pub fn as_str(&self) -> (s: &str)
        ensures
            s@ == self.0@,
    {
        self.0.as_str()
    }

    /// The SHA-256 of the settings that affect resolution, in lowercase
    /// hex. The proxy's credentials do not count.
    pub fn compute(
        enabled: bool,
        protocol: DnsProtocol,
        provider: DnsProvider,
        adblock: bool,
        cache_enabled: bool,
        socks5: Option<&VerifiedDnsSocks>,
        kill_switch: bool,
    ) -> (f: Self)
        ensures
            f.0@ == hex_of(
                sha256_digest(
                    encode_utf8(
                        dns_fingerprint_text(
                            enabled,
                            protocol,
                            provider,
                            adblock,
                            cache_enabled,
                            match socks5 {
                                Some(s) => Some((s.host@, s.port)),
                                None => None,
                            },
                            kill_switch,
                        ),
                    ),
                ),
            ),
    {
        let ghost g = "vane-dns-v1\n"@;
        let text = to_string("vane-dns-v1\n");
        let text = push_field_with(text, "enabled=", bool_str(enabled), "\n");
        let ghost g = g + "enabled="@ + bool_text(enabled) + "\n"@;
        assert(text@ == g);
        let text = push_field_with(text, "protocol=", protocol.as_str(), "\n");
        let ghost g = g + "protocol="@ + dns_protocol_name(protocol) + "\n"@;
        assert(text@ == g);
        let text = push_field_with(text, "provider=", provider.as_str(), "\n");
        let ghost g = g + "provider="@ + dns_provider_name(provider) + "\n"@;
        assert(text@ == g);
        let text = push_field_with(text, "adblock=", bool_str(adblock), "\n");
        let ghost g = g + "adblock="@ + bool_text(adblock) + "\n"@;
        assert(text@ == g);
        let text = push_field_with(text, "cache=", bool_str(cache_enabled), "\n");
        let ghost g = g + "cache="@ + bool_text(cache_enabled) + "\n"@;
        assert(text@ == g);
        let text = match socks5 {
            Some(s) => {
                let t = push_field_with(text, "socks_enabled=true\nsocks_host=", s.host.as_str(), "\nsocks_port=");
                let t = push_field_with(t, "", u64_to_decimal(s.port as u64).as_str(), "\n");
                proof {
                    reveal_strlit("");
                    assert(t@ =~= g + ("socks_enabled=true\nsocks_host="@ + s.host@ + "\nsocks_port="@ + decimal(
                        s.port as nat,
                    ) + "\n"@));
                }
                t
            },
            None => {
                let t = concat(text.as_str(), "socks_enabled=false\n");
                t
            },
        };
        let ghost socks = match socks5 {
            Some(s) => Some((s.host@, s.port)),
            None => None,
        };
        let ghost g = g + (match socks {
            Some((host, port)) => "socks_enabled=true\nsocks_host="@ + host + "\nsocks_port="@ + decimal(port as nat)
                + "\n"@,
            None => "socks_enabled=false\n"@,
        });
        assert(text@ == g);
        let text = push_field_with(text, "kill_switch=", bool_str(kill_switch), "\n");
        let ghost g = g + "kill_switch="@ + bool_text(kill_switch) + "\n"@;
        assert(text@ == g);
        assert(g == dns_fingerprint_text(enabled, protocol, provider, adblock, cache_enabled, socks, kill_switch));
        DnsConfigFingerprint(sha256_hex(text.as_str()))
    }
}

/// A verified DNS configuration. It has no `Debug`, as its proxy has none.
#[derive(Clone, PartialEq, Eq)]
pub struct VerifiedDnsConfig {
    pub revision: DnsConfigRevision,
    pub fingerprint: DnsConfigFingerprint,
    pub enabled: bool,
    pub protocol: DnsProtocol,
    pub provider: DnsProvider,
    pub adblock: bool,
    pub cache_enabled: bool,
    pub socks5: Option<VerifiedDnsSocks>,
    pub kill_switch: bool,
}

#[derive(Debug, Clone, PartialEq, Eq)]
pub enum DnsValidationError {
    UnsupportedProtocolDoQ,
    UnsupportedProtocol(String),
    UnsupportedProvider(String),
    InvalidSocksHost(String),
    InvalidSocksPort(u16),
    DotWithSocks5NotAllowed,
}

pub enum DnsValidationErrorView {
    UnsupportedProtocolDoQ,
    UnsupportedProtocol(Seq<char>),
    UnsupportedProvider(Seq<char>),
    InvalidSocksHost(Seq<char>),
    InvalidSocksPort(u16),
    DotWithSocks5NotAllowed,
}

impl View for DnsValidationError {
    type V = DnsValidationErrorView;

    open spec fn view(&self) -> DnsValidationErrorView {
        match self {
            DnsValidationError::UnsupportedProtocolDoQ => DnsValidationErrorView::UnsupportedProtocolDoQ,
            DnsValidationError::UnsupportedProtocol(s) => DnsValidationErrorView::UnsupportedProtocol(s@),
            DnsValidationError::UnsupportedProvider(s) => DnsValidationErrorView::UnsupportedProvider(s@),
            DnsValidationError::InvalidSocksHost(s) => DnsValidationErrorView::InvalidSocksHost(s@),
            DnsValidationError::InvalidSocksPort(p) => DnsValidationErrorView::InvalidSocksPort(*p),
            DnsValidationError::DotWithSocks5NotAllowed => DnsValidationErrorView::DotWithSocks5NotAllowed,
        }
    }
}

pub open spec fn dns_validation_error_text(e: DnsValidationErrorView) -> Seq<char> {
    match e {
        DnsValidationErrorView::UnsupportedProtocolDoQ => "DoQ is not supported"@,
        DnsValidationErrorView::UnsupportedProtocol(s) => "Unsupported DNS protocol: "@ + s,
        DnsValidationErrorView::UnsupportedProvider(s) => "Unsupported DNS provider: "@ + s,
        DnsValidationErrorView::InvalidSocksHost(s) => "Invalid SOCKS5 host: "@ + s,
        DnsValidationErrorView::InvalidSocksPort(p) => "Invalid SOCKS5 port: "@ + decimal(p as nat),
        DnsValidationErrorView::DotWithSocks5NotAllowed =>
            "DoT protocol cannot be combined with SOCKS5 proxy to prevent DNS leaks"@,
    }
}

impl DnsValidationError {
    /// The error's message, as its `Display` prints it.
    pub fn message(&self) -> (s: String)
        ensures
            s@ == dns_validation_error_text(self@),
    {
        match self {
            DnsValidationError::UnsupportedProtocolDoQ => to_string("DoQ is not supported"),
            DnsValidationError::UnsupportedProtocol(s) => concat("Unsupported DNS protocol: ", s.as_str()),
            DnsValidationError::UnsupportedProvider(s) => concat("Unsupported DNS provider: ", s.as_str()),
            DnsValidationError::InvalidSocksHost(s) => concat("Invalid SOCKS5 host: ", s.as_str()),
            DnsValidationError::InvalidSocksPort(p) => concat(
                "Invalid SOCKS5 port: ",
                u64_to_decimal(*p as u64).as_str(),
            ),
            DnsValidationError::DotWithSocks5NotAllowed => to_string(
                "DoT protocol cannot be combined with SOCKS5 proxy to prevent DNS leaks",
            ),
        }
    }
}

pub open spec fn provider_choice(provider: Option<String>) -> Seq<char> {
    match provider {
        Some(p) => text_lowercase(p@),
        None => text_lowercase("cloudflare"@),
    }
}

pub open spec fn bad_socks_host(h: Seq<char>) -> bool {
    h.len() == 0 || h.contains(' ') || h.contains('\r') || h.contains('\n')
}

/// An optional credential is kept only when it is not blank.
pub open spec fn kept_credential(c: Option<String>) -> Option<String> {
    match c {
        Some(s) => if trim(s@).len() > 0 { Some(s) } else { None },
        None => None,
    }
}

/// Why a candidate is refused, in the order the checks run.
pub open spec fn dns_config_error(c: DnsConfigCandidate) -> Option<DnsValidationErrorView> {
    let proto = text_lowercase(c.protocol@);
    let prov = provider_choice(c.provider);
    if proto == "doq"@ {
        Some(DnsValidationErrorView::UnsupportedProtocolDoQ)
    } else if !(proto == "doh"@ || proto == "dot"@) {
        Some(DnsValidationErrorView::UnsupportedProtocol(proto))
    } else if !(prov == "cloudflare"@ || prov == "google"@) {
        Some(DnsValidationErrorView::UnsupportedProvider(prov))
    } else if c.socks5 is Some && bad_socks_host(trim(c.socks5->0.host@)) {
        Some(DnsValidationErrorView::InvalidSocksHost(trim(c.socks5->0.host@)))
    } else if c.socks5 is Some && c.socks5->0.port == 0 {
        Some(DnsValidationErrorView::InvalidSocksPort(0))
    } else if proto == "dot"@ && c.socks5 is Some {
        Some(DnsValidationErrorView::DotWithSocks5NotAllowed)
    } else {
        None
    }
}

/// A verified configuration made from `c` at `revision`.
pub open spec fn dns_verified_from(v: VerifiedDnsConfig, c: DnsConfigCandidate, revision: DnsConfigRevision) -> bool {
    let protocol = if text_lowercase(c.protocol@) == "dot"@ { DnsProtocol::Dot } else { DnsProtocol::Doh };
    let provider = if provider_choice(c.provider) == "google"@ {
        DnsProvider::Google
    } else {
        DnsProvider::Cloudflare
    };
    &&& v.revision == revision
    &&& v.enabled == c.enabled
    &&& v.protocol == protocol
    &&& v.provider == provider
    &&& v.adblock == c.adblock
    &&& v.cache_enabled == c.cache_enabled
    &&& v.kill_switch == c.kill_switch
    &&& match (v.socks5, c.socks5) {
        (Some(s), Some(k)) => s.host@ == trim(k.host@) && s.port == k.port && s.username == kept_credential(
            k.username,
        ) && s.password == kept_credential(k.password),
        (None, None) => true,
        _ => false,
    }
    &&& v.fingerprint.0@ == hex_of(
        sha256_digest(
            encode_utf8(
                dns_fingerprint_text(
                    c.enabled,
                    protocol,
                    provider,
                    c.adblock,
                    c.cache_enabled,
                    socks_key(v.socks5),
                    c.kill_switch,
                ),
            ),
        ),
    )
}

fn keep_credential(c: Option<String>) -> (r: Option<String>)
    ensures
        r == kept_credential(c),
{
    match c {
        Some(s) => {
            let t = str_trim(s.as_str());
            if t.as_str().is_empty() {
                None
            } else {
                Some(s)
            }
        },
        None => None,
    }
}

/// Verifies a DNS candidate at `revision`.
pub fn verify_dns_config(candidate: DnsConfigCandidate, revision: DnsConfigRevision) -> (r: Result<
    VerifiedDnsConfig,
    DnsValidationError,
>)
    ensures
        match r {
            Ok(v) => dns_config_error(candidate) is None && dns_verified_from(v, candidate, revision),
            Err(e) => dns_config_error(candidate) == Some(e@),
        },
{
    proof {
        reveal_strlit("doh");
        reveal_strlit("doq");
        reveal_strlit("dot");
        reveal_strlit("cloudflare");
        reveal_strlit("google");
        assert("doh"@[2] != "dot"@[2]);
        assert("doq"@[2] != "dot"@[2]);
        assert("doh"@[2] != "doq"@[2]);
        assert("cloudflare"@[0] != "google"@[0]);
    }
    let protocol_str = str_to_lowercase(candidate.protocol.as_str());
    if str_eq(protocol_str.as_str(), "doq") {
        return Err(DnsValidationError::UnsupportedProtocolDoQ);
    }
    let protocol = if str_eq(protocol_str.as_str(), "doh") {
        DnsProtocol::Doh
    } else if str_eq(protocol_str.as_str(), "dot") {
        DnsProtocol::Dot
    } else {
        return Err(DnsValidationError::UnsupportedProtocol(protocol_str));
    };
    let provider_str = match &candidate.provider {
        Some(p) => str_to_lowercase(p.as_str()),
        None => str_to_lowercase("cloudflare"),
    };
    let provider = if str_eq(provider_str.as_str(), "cloudflare") {
        DnsProvider::Cloudflare
    } else if str_eq(provider_str.as_str(), "google") {
        DnsProvider::Google
    } else {
        return Err(DnsValidationError::UnsupportedProvider(provider_str));
    };
    let DnsConfigCandidate { enabled, protocol: _, provider: _, adblock, cache_enabled, socks5, kill_switch } =
        candidate;
    let socks5 = match socks5 {
        Some(socks) => {
            let host = str_trim(socks.host.as_str());
            if host.as_str().is_empty() || str_contains_char(host.as_str(), ' ') || str_contains_char(
                host.as_str(),
                '\r',
            ) || str_contains_char(host.as_str(), '\n') {
                return Err(DnsValidationError::InvalidSocksHost(host));
            }
            if socks.port == 0 {
                return Err(DnsValidationError::InvalidSocksPort(0));
            }
            Some(
                VerifiedDnsSocks {
                    host,
                    port: socks.port,
                    username: keep_credential(socks.username),
                    password: keep_credential(socks.password),
                },
            )
        },
        None => None,
    };
    if protocol == DnsProtocol::Dot && socks5.is_some() {
        return Err(DnsValidationError::DotWithSocks5NotAllowed);
    }
    let socks_ref: Option<&VerifiedDnsSocks> = match &socks5 {
        Some(s) => Some(s),
        None => None,
    };
    let fingerprint = DnsConfigFingerprint::compute(
        enabled,
        protocol,
        provider,
        adblock,
        cache_enabled,
        socks_ref,
        kill_switch,
    );
    Ok(VerifiedDnsConfig {
        revision,
        fingerprint,
        enabled,
        protocol,
        provider,
        adblock,
        cache_enabled,
        socks5,
        kill_switch,
    })
}

} // verus!
