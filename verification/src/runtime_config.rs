//! The runtime configuration contract: a candidate gathered from the
//! settings is verified once into an immutable configuration with a
//! revision and a content fingerprint, which the engine then launches.

use vstd::prelude::*;
use vstd::utf8::encode_utf8;
use crate::digest::{hex_of, sha256_digest, sha256_hex};
use crate::domain::{canonical_rules, canonicalize_domain_rules, domain_rule_error_text};
use crate::launch_plan::{EngineLaunchPlan, LaunchBypassInput, LaunchBypassMode};
use crate::preset::{EngineError, EngineErrorView, Preset, PresetCategory};
use crate::sorting::{sort_strings, sorted_strings};
use crate::text::{
    chars_of, concat, join_seq, str_eq, str_to_lowercase, string_of_range, to_string, trimmed_lines,
    nonblank_trimmed_lines, text_lowercase, view_strings,
};
use crate::validator::{clone_strings, preset_error, preset_error_text, validate_preset, PresetSource};
use vstd::std_specs::convert::FromSpecImpl;

verus! {

#[derive(Debug, Clone, Copy, PartialEq, Eq, Hash, Structural)]
pub enum RuntimeBypassMode {
    All,
    Whitelist,
    Blacklist,
}

pub open spec fn launch_mode_of(mode: RuntimeBypassMode) -> LaunchBypassMode {
    match mode {
        RuntimeBypassMode::All => LaunchBypassMode::All,
        RuntimeBypassMode::Whitelist => LaunchBypassMode::Whitelist,
        RuntimeBypassMode::Blacklist => LaunchBypassMode::Blacklist,
    }
}

impl From<RuntimeBypassMode> for LaunchBypassMode {
    fn from(mode: RuntimeBypassMode) -> (r: Self) {
        match mode {
            RuntimeBypassMode::All => LaunchBypassMode::All,
            RuntimeBypassMode::Whitelist => LaunchBypassMode::Whitelist,
            RuntimeBypassMode::Blacklist => LaunchBypassMode::Blacklist,
        }
    }
}

impl FromSpecImpl<RuntimeBypassMode> for LaunchBypassMode {
    open spec fn obeys_from_spec() -> bool {
        true
    }

    open spec fn from_spec(mode: RuntimeBypassMode) -> Self {
        launch_mode_of(mode)
    }
}

pub open spec fn bypass_mode_text(mode: RuntimeBypassMode) -> Seq<char> {
    match mode {
        RuntimeBypassMode::All => "all"@,
        RuntimeBypassMode::Whitelist => "whitelist"@,
        RuntimeBypassMode::Blacklist => "blacklist"@,
    }
}

impl RuntimeBypassMode {
    /// The mode as its `Display` prints it.
    pub fn as_str(&self) -> (s: &'static str)
        ensures
            s@ == bypass_mode_text(*self),
    {
        match self {
            RuntimeBypassMode::All => "all",
            RuntimeBypassMode::Whitelist => "whitelist",
            RuntimeBypassMode::Blacklist => "blacklist",
        }
    }
}

#[derive(Debug, Clone, PartialEq, Eq)]
pub struct RuntimeBypassCandidate {
    pub mode: String,
    pub domains: Vec<String>,
    pub kill_switch: bool,
}

#[derive(Debug, Clone, PartialEq, Eq)]
pub struct RuntimeDnsCandidate {
    pub enabled: bool,
    pub protocol: String,
    pub provider: Option<String>,
    pub adblock: bool,
    pub cache_enabled: bool,
}

#[derive(Debug, Clone, PartialEq, Eq)]
pub struct RuntimeSecurityCandidate {
    pub kill_switch: bool,
    pub binary_integrity_required: bool,
}

/// Everything the engine's configuration is made of, before verification.
#[derive(Debug, Clone, PartialEq, Eq)]
pub struct RuntimeConfigCandidate {
    pub preset_id: String,
    pub preset_args: Vec<String>,
    pub bypass: RuntimeBypassCandidate,
    pub dns: RuntimeDnsCandidate,
    pub security: RuntimeSecurityCandidate,
}

/// The revision of a configuration; each new one is one higher.
#[derive(Debug, Clone, Copy, PartialEq, Eq, PartialOrd, Ord, Hash, Structural)]
pub struct ConfigRevision(u64);

impl View for ConfigRevision {
    type V = u64;

    closed spec fn view(&self) -> u64 {
        self.0
    }
}

impl ConfigRevision {
    pub fn new(value: u64) -> (r: Self)
        ensures
            r@ == value,
    {
        ConfigRevision(value)
    }

    pub fn get(self) -> (v: u64)
        ensures
            v == self@,
    {
        self.0
    }

    /// The next revision, or `RevisionOverflow` at the maximum.
    pub fn checked_next(self) -> (r: Result<Self, RuntimeConfigError>)
        ensures
            self@ < u64::MAX ==> (r matches Ok(n) && n@ == self@ + 1),
            self@ == u64::MAX ==> r == Err::<Self, RuntimeConfigError>(RuntimeConfigError::RevisionOverflow),
    {
        if self.0 == u64::MAX {
            Err(RuntimeConfigError::RevisionOverflow)
        } else {
            Ok(ConfigRevision(self.0 + 1))
        }
    }

    pub fn next(self) -> (r: Result<Self, RuntimeConfigError>)
        ensures
            self@ < u64::MAX ==> (r matches Ok(n) && n@ == self@ + 1),
            self@ == u64::MAX ==> r == Err::<Self, RuntimeConfigError>(RuntimeConfigError::RevisionOverflow),
    {
        self.checked_next()
    }
}

/// The SHA-256 fingerprint of a configuration's content, in lowercase hex.
#[derive(Debug, Clone, PartialEq, Eq, Hash)]
pub struct ConfigFingerprint(String);

impl View for ConfigFingerprint {
    type V = Seq<char>;

    closed spec fn view(&self) -> Seq<char> {
        self.0@
    }
}

impl ConfigFingerprint {
    pub fn as_str(&self) -> (s: &str)
        ensures
            s@ == self@,
    {
        self.0.as_str()
    }

    /// The first `len` characters, or all of them when there are fewer.
    pub fn prefix(&self, len: usize) -> (s: String)
        ensures
            s@ == (if self@.len() >= len { self@.subrange(0, len as int) } else { self@ }),
    {
        let v = chars_of(self.0.as_str());
        if v.len() >= len {
            string_of_range(&v, 0, len)
        } else {
            self.0.clone()
        }
    }

    /// The fingerprint as its `Display` prints it: the hex digest.
    pub fn to_text(&self) -> (s: String)
        ensures
            s@ == self@,
    {
        self.0.clone()
    }
}

#[derive(Debug, Clone, Copy, PartialEq, Eq, Hash, Structural)]
pub enum RuntimeDnsProtocol {
    Doh,
    Dot,
}

#[derive(Debug, Clone, PartialEq, Eq)]
pub struct VerifiedPresetConfig {
    pub id: String,
    pub arguments: Vec<String>,
}

impl VerifiedPresetConfig {
    /// The custom preset this configuration runs: its id doubles as label.
    pub fn to_preset(&self) -> (p: Preset)
        ensures
            p.id == self.id,
            p.label == self.id,
            p.description@.len() == 0,
            p.icon@.len() == 0,
            p.args@ == self.arguments@,
            p.is_custom,
            p.priority == 0,
            p.category == PresetCategory::Custom,
    {
        Preset {
            id: self.id.clone(),
            label: self.id.clone(),
            description: String::new(),
            icon: String::new(),
            args: clone_strings(&self.arguments),
            is_custom: true,
            priority: 0,
            category: PresetCategory::Custom,
        }
    }
}

#[derive(Debug, Clone, PartialEq, Eq)]
pub struct VerifiedBypassConfig {
    pub mode: RuntimeBypassMode,
    pub domains: Vec<String>,
    pub domain_count: usize,
    pub kill_switch: bool,
}

#[derive(Debug, Clone, PartialEq, Eq)]
pub struct VerifiedDnsConfig {
    pub enabled: bool,
    pub protocol: RuntimeDnsProtocol,
    pub provider: Option<String>,
    pub adblock: bool,
    pub cache_enabled: bool,
}

#[derive(Debug, Clone, PartialEq, Eq)]
pub struct VerifiedSecurityConfig {
    pub kill_switch: bool,
    pub binary_integrity_required: bool,
}

/// A verified configuration. It has no `Debug`: its domains are not to be
/// printed; `summary` gives what may be logged.
#[derive(Clone, PartialEq, Eq)]
pub struct VerifiedRuntimeConfig {
    pub revision: ConfigRevision,
    pub fingerprint: ConfigFingerprint,
    pub preset: VerifiedPresetConfig,
    pub bypass: VerifiedBypassConfig,
    pub dns: VerifiedDnsConfig,
    pub security: VerifiedSecurityConfig,
}

/// What may be logged of a verified configuration.
#[derive(Debug, Clone, PartialEq, Eq)]
pub struct RuntimeConfigSummary {
    pub revision: u64,
    pub fingerprint_prefix: String,
    pub preset_id: String,
    pub bypass_mode: RuntimeBypassMode,
    pub domain_count: usize,
    pub dns_protocol: RuntimeDnsProtocol,
    pub kill_switch: bool,
}

pub fn join_strings(parts: &Vec<String>, sep: &str) -> (r: String)
    ensures
        r@ == join_seq(view_strings(parts@), sep@),
{
    let ghost views = view_strings(parts@);
    let mut out = String::new();
    let mut k: usize = 0;
    while k < parts.len()
        invariant
            k <= parts@.len(),
            views == view_strings(parts@),
            out@ == join_seq(views.take(k as int), sep@),
        decreases parts.len() - k,
    {
        proof {
            assert(views.take(k + 1).drop_last() =~= views.take(k as int));
            assert(views.take(k + 1).last() == parts@[k as int]@);
            assert(views.take(1) =~= seq![parts@[0]@]);
        }
        if k == 0 {
            out = parts[0].clone();
        } else {
            out = concat(out.as_str(), sep);
            out = concat(out.as_str(), parts[k].as_str());
        }
        k += 1;
    }
    proof {
        assert(views.take(views.len() as int) =~= views);
    }
    out
}

impl VerifiedRuntimeConfig {
    /// The bypass settings the launch planner takes: the domains one per
    /// line.
    pub fn to_launch_bypass_input(&self, hostlist_path: Option<String>) -> (r: LaunchBypassInput)
        ensures
            r.mode == launch_mode_of(self.bypass.mode),
            r.domain_list@ == join_seq(view_strings(self.bypass.domains@), "\n"@),
            r.hostlist_path == hostlist_path,
            r.kill_switch == self.bypass.kill_switch,
    {
        LaunchBypassInput {
            mode: LaunchBypassMode::from(self.bypass.mode),
            domain_list: join_strings(&self.bypass.domains, "\n"),
            hostlist_path,
            kill_switch: self.bypass.kill_switch,
        }
    }

    pub fn summary(&self) -> (s: RuntimeConfigSummary)
        ensures
            s.revision == self.revision@,
            s.fingerprint_prefix@ == (if self.fingerprint@.len() >= 8 {
                self.fingerprint@.subrange(0, 8)
            } else {
                self.fingerprint@
            }),
            s.preset_id == self.preset.id,
            s.bypass_mode == self.bypass.mode,
            s.domain_count == self.bypass.domain_count,
            s.dns_protocol == self.dns.protocol,
            s.kill_switch == self.bypass.kill_switch,
    {
        RuntimeConfigSummary {
            revision: self.revision.get(),
            fingerprint_prefix: self.fingerprint.prefix(8),
            preset_id: self.preset.id.clone(),
            bypass_mode: self.bypass.mode,
            domain_count: self.bypass.domain_count,
            dns_protocol: self.dns.protocol,
            kill_switch: self.bypass.kill_switch,
        }
    }
}

#[derive(Debug, Clone, PartialEq, Eq)]
pub enum PreparedHostlist {
    NotRequired,
    Planned { path: String, domain_count: usize },
}

/// A verified configuration with its launch plan, before any process runs.
#[derive(Clone, PartialEq, Eq)]
pub struct PreparedRuntimeConfig {
    pub verified: VerifiedRuntimeConfig,
    pub launch_plan: EngineLaunchPlan,
    pub hostlist: PreparedHostlist,
}

#[derive(Debug, Clone, Copy, PartialEq, Eq, Structural)]
pub enum AppliedVerification {
    ProcessStarted,
    ProcessAlive,
}

#[verifier::external_type_specification]
#[verifier::external_body]
pub struct ExSystemTime(std::time::SystemTime);

/// `SystemTime::clone`: a copy of the instant; nothing is stated of it.
pub assume_specification[ <std::time::SystemTime as std::clone::Clone>::clone ](t: &std::time::SystemTime) -> (r:
    std::time::SystemTime);

/// `SystemTime::now`: the current time, whatever it is.
#[verifier::external_body]
pub(crate) fn system_now() -> (t: std::time::SystemTime) {
    std::time::SystemTime::now()
}

/// A configuration that a running engine process carries.
#[derive(Clone, PartialEq, Eq)]
pub struct AppliedRuntimeConfig {
    pub verified: VerifiedRuntimeConfig,
    pub process_id: u32,
    pub applied_at: std::time::SystemTime,
    pub verification: AppliedVerification,
}

impl AppliedRuntimeConfig {
    /// The configuration as applied by the process `pid`, stamped now.
    pub fn process_started(verified: VerifiedRuntimeConfig, pid: u32) -> (a: Self)
        ensures
            a.verified == verified,
            a.process_id == pid,
            a.verification == AppliedVerification::ProcessStarted,
    {
        AppliedRuntimeConfig {
            verified,
            process_id: pid,
            applied_at: system_now(),
            verification: AppliedVerification::ProcessStarted,
        }
    }
}

#[derive(Debug, Clone, PartialEq, Eq)]
pub enum RuntimeConfigError {
    UnsupportedBypassMode(String),
    EmptyWhitelist,
    InvalidDomains(String),
    InvalidPreset(String),
    UnsupportedDnsProtocol(String),
    RevisionOverflow,
    FingerprintFailure(String),
}

pub enum RuntimeConfigErrorView {
    UnsupportedBypassMode(Seq<char>),
    EmptyWhitelist,
    InvalidDomains(Seq<char>),
    InvalidPreset(Seq<char>),
    UnsupportedDnsProtocol(Seq<char>),
    RevisionOverflow,
    FingerprintFailure(Seq<char>),
}

impl View for RuntimeConfigError {
    type V = RuntimeConfigErrorView;

    open spec fn view(&self) -> RuntimeConfigErrorView {
        match self {
            RuntimeConfigError::UnsupportedBypassMode(s) => RuntimeConfigErrorView::UnsupportedBypassMode(s@),
            RuntimeConfigError::EmptyWhitelist => RuntimeConfigErrorView::EmptyWhitelist,
            RuntimeConfigError::InvalidDomains(s) => RuntimeConfigErrorView::InvalidDomains(s@),
            RuntimeConfigError::InvalidPreset(s) => RuntimeConfigErrorView::InvalidPreset(s@),
            RuntimeConfigError::UnsupportedDnsProtocol(s) => RuntimeConfigErrorView::UnsupportedDnsProtocol(s@),
            RuntimeConfigError::RevisionOverflow => RuntimeConfigErrorView::RevisionOverflow,
            RuntimeConfigError::FingerprintFailure(s) => RuntimeConfigErrorView::FingerprintFailure(s@),
        }
    }
}

pub open spec fn runtime_config_error_text(e: RuntimeConfigErrorView) -> Seq<char> {
    match e {
        RuntimeConfigErrorView::UnsupportedBypassMode(s) => "unsupported bypass mode: "@ + s,
        RuntimeConfigErrorView::EmptyWhitelist => "whitelist mode requires at least one valid domain"@,
        RuntimeConfigErrorView::InvalidDomains(s) => "invalid domain configuration: "@ + s,
        RuntimeConfigErrorView::InvalidPreset(s) => "invalid preset configuration: "@ + s,
        RuntimeConfigErrorView::UnsupportedDnsProtocol(s) => "unsupported DNS protocol: "@ + s,
        RuntimeConfigErrorView::RevisionOverflow => "configuration revision overflow"@,
        RuntimeConfigErrorView::FingerprintFailure(s) => "configuration fingerprint failed: "@ + s,
    }
}

impl RuntimeConfigError {
    /// The error's message, as its `Display` prints it.
    pub fn message(&self) -> (s: String)
        ensures
            s@ == runtime_config_error_text(self@),
    {
        match self {
            RuntimeConfigError::UnsupportedBypassMode(m) => concat("unsupported bypass mode: ", m.as_str()),
            RuntimeConfigError::EmptyWhitelist => to_string("whitelist mode requires at least one valid domain"),
            RuntimeConfigError::InvalidDomains(m) => concat("invalid domain configuration: ", m.as_str()),
            RuntimeConfigError::InvalidPreset(m) => concat("invalid preset configuration: ", m.as_str()),
            RuntimeConfigError::UnsupportedDnsProtocol(m) => concat("unsupported DNS protocol: ", m.as_str()),
            RuntimeConfigError::RevisionOverflow => to_string("configuration revision overflow"),
            RuntimeConfigError::FingerprintFailure(m) => concat("configuration fingerprint failed: ", m.as_str()),
        }
    }

    /// The engine error it becomes: a configuration error with its message.
    pub fn to_engine_error(&self) -> (e: EngineError)
        ensures
            e@ == EngineErrorView::ConfigParseError(runtime_config_error_text(self@)),
    {
        EngineError::ConfigParseError(self.message())
    }
}

pub open spec fn bool_text(b: bool) -> Seq<char> {
    if b { "true"@ } else { "false"@ }
}

pub open spec fn dns_protocol_text(p: RuntimeDnsProtocol) -> Seq<char> {
    match p {
        RuntimeDnsProtocol::Doh => "doh"@,
        RuntimeDnsProtocol::Dot => "dot"@,
    }
}

/// The text that is hashed into a configuration fingerprint. The domains
/// are sorted first, so their order does not count.
pub open spec fn fingerprint_text(
    preset_id: Seq<char>,
    preset_args: Seq<Seq<char>>,
    mode: RuntimeBypassMode,
    domains: Seq<Seq<char>>,
    kill_switch: bool,
    dns_enabled: bool,
    dns_protocol: RuntimeDnsProtocol,
    dns_provider: Option<Seq<char>>,
    dns_adblock: bool,
    dns_cache: bool,
) -> Seq<char> {
    "schema:1;"@ + "preset_id:"@ + preset_id + ";"@ + "args:"@ + join_seq(preset_args, ","@) + ";"@ + "mode:"@
        + bypass_mode_text(mode) + ";"@ + "domains:"@ + join_seq(sorted_strings(domains), ","@) + ";"@ + "ks:"@
        + bool_text(kill_switch) + ";"@ + "dns_en:"@ + bool_text(dns_enabled) + ";"@ + "dns_proto:"@
        + dns_protocol_text(dns_protocol) + ";"@ + "dns_prov:"@ + (match dns_provider {
        Some(p) => p,
        None => Seq::empty(),
    }) + ";"@ + "dns_ab:"@ + bool_text(dns_adblock) + ";"@ + "dns_cache:"@ + bool_text(dns_cache) + ";"@
}

pub open spec fn fingerprint_of(text: Seq<char>) -> Seq<char> {
    hex_of(sha256_digest(encode_utf8(text)))
}

fn bool_str(b: bool) -> (s: &'static str)
    ensures
        s@ == bool_text(b),
{
    if b { "true" } else { "false" }
}

/// `out` followed by `name`, `value` and `end`.
pub(crate) fn push_field_with(out: String, name: &str, value: &str, end: &str) -> (r: String)
    ensures
        r@ == out@ + name@ + value@ + end@,
{
    let r = concat(out.as_str(), name);
    let r = concat(r.as_str(), value);
    let r = concat(r.as_str(), end);
    proof {
        assert(r@ =~= out@ + name@ + value@ + end@);
    }
    r
}

fn push_field(out: String, name: &str, value: &str) -> (r: String)
    ensures
        r@ == out@ + name@ + value@ + ";"@,
{
    let r = concat(out.as_str(), name);
    let r = concat(r.as_str(), value);
    let r = concat(r.as_str(), ";");
    proof {
        assert(r@ =~= out@ + name@ + value@ + ";"@);
    }
    r
}

/// The content fingerprint of a configuration.
pub fn compute_config_fingerprint(
    preset_id: &str,
    preset_args: &Vec<String>,
    bypass_mode: RuntimeBypassMode,
    canonical_domains: &Vec<String>,
    kill_switch: bool,
    dns_enabled: bool,
    dns_protocol: RuntimeDnsProtocol,
    dns_provider: Option<&str>,
    dns_adblock: bool,
    dns_cache: bool,
) -> (r: ConfigFingerprint)
    ensures
        r@ == fingerprint_of(
            fingerprint_text(
                preset_id@,
                view_strings(preset_args@),
                bypass_mode,
                view_strings(canonical_domains@),
                kill_switch,
                dns_enabled,
                dns_protocol,
                match dns_provider {
                    Some(p) => Some(p@),
                    None => None,
                },
                dns_adblock,
                dns_cache,
            ),
        ),
        r@.len() == 64,
        forall|i: int| 0 <= i < r@.len() ==> crate::digest::is_lower_hex(#[trigger] r@[i]),
        r@.len() == 64,
{
    let proto = match dns_protocol {
        RuntimeDnsProtocol::Doh => "doh",
        RuntimeDnsProtocol::Dot => "dot",
    };
    let sorted = sort_strings(canonical_domains);
    let args = join_strings(preset_args, ",");
    let domains = join_strings(&sorted, ",");
    let provider = match dns_provider {
        Some(p) => p,
        None => "",
    };
    let ghost prov = match dns_provider {
        Some(p) => p@,
        None => Seq::<char>::empty(),
    };
    proof {
        reveal_strlit("");
        assert(provider@ == prov);
    }
    let ghost g = "schema:1;"@;
    let text = to_string("schema:1;");
    let text = push_field(text, "preset_id:", preset_id);
    let ghost g = g + "preset_id:"@ + preset_id@ + ";"@;
    assert(text@ == g);
    let text = push_field(text, "args:", args.as_str());
    let ghost g = g + "args:"@ + join_seq(view_strings(preset_args@), ","@) + ";"@;
    assert(text@ == g);
    let text = push_field(text, "mode:", bypass_mode.as_str());
    let ghost g = g + "mode:"@ + bypass_mode_text(bypass_mode) + ";"@;
    assert(text@ == g);
    let text = push_field(text, "domains:", domains.as_str());
    let ghost g = g + "domains:"@ + join_seq(sorted_strings(view_strings(canonical_domains@)), ","@) + ";"@;
    assert(text@ == g);
    let text = push_field(text, "ks:", bool_str(kill_switch));
    let ghost g = g + "ks:"@ + bool_text(kill_switch) + ";"@;
    assert(text@ == g);
    let text = push_field(text, "dns_en:", bool_str(dns_enabled));
    let ghost g = g + "dns_en:"@ + bool_text(dns_enabled) + ";"@;
    assert(text@ == g);
    let text = push_field(text, "dns_proto:", proto);
    let ghost g = g + "dns_proto:"@ + dns_protocol_text(dns_protocol) + ";"@;
    assert(text@ == g);
    let text = push_field(text, "dns_prov:", provider);
    let ghost g = g + "dns_prov:"@ + prov + ";"@;
    assert(text@ == g);
    let text = push_field(text, "dns_ab:", bool_str(dns_adblock));
    let ghost g = g + "dns_ab:"@ + bool_text(dns_adblock) + ";"@;
    assert(text@ == g);
    let text = push_field(text, "dns_cache:", bool_str(dns_cache));
    let ghost g = g + "dns_cache:"@ + bool_text(dns_cache) + ";"@;
    assert(text@ == g);
    proof {
        let spec_text = fingerprint_text(
            preset_id@,
            view_strings(preset_args@),
            bypass_mode,
            view_strings(canonical_domains@),
            kill_switch,
            dns_enabled,
            dns_protocol,
            match dns_provider {
                Some(p) => Some(p@),
                None => None,
            },
            dns_adblock,
            dns_cache,
        );
        assert(g == spec_text);
    }
    ConfigFingerprint(sha256_hex(text.as_str()))
}

/// Why a candidate is refused, checked in this order: the preset, the
/// bypass mode, the domains, an empty whitelist, the DNS protocol.
pub open spec fn runtime_config_error(c: RuntimeConfigCandidate) -> Option<RuntimeConfigErrorView> {
    let mode = c.bypass.mode@;
    let proto = text_lowercase(c.dns.protocol@);
    if preset_error(c.preset_id@, view_strings(c.preset_args@)) is Some {
        Some(RuntimeConfigErrorView::InvalidPreset(
            preset_error_text(preset_error(c.preset_id@, view_strings(c.preset_args@))->0),
        ))
    } else if !(mode == "all"@ || mode == "whitelist"@ || mode == "blacklist"@) {
        Some(RuntimeConfigErrorView::UnsupportedBypassMode(mode))
    } else if canonical_rules(view_strings(c.bypass.domains@)) is Err {
        Some(RuntimeConfigErrorView::InvalidDomains(
            domain_rule_error_text(canonical_rules(view_strings(c.bypass.domains@))->Err_0),
        ))
    } else if mode == "whitelist"@ && canonical_rules(view_strings(c.bypass.domains@))->Ok_0.len() == 0 {
        Some(RuntimeConfigErrorView::EmptyWhitelist)
    } else if !(proto == "doh"@ || proto == "doq"@ || proto == "dot"@) {
        Some(RuntimeConfigErrorView::UnsupportedDnsProtocol(proto))
    } else {
        None
    }
}

pub open spec fn mode_named(mode: Seq<char>) -> RuntimeBypassMode {
    if mode == "all"@ {
        RuntimeBypassMode::All
    } else if mode == "whitelist"@ {
        RuntimeBypassMode::Whitelist
    } else {
        RuntimeBypassMode::Blacklist
    }
}

pub open spec fn protocol_named(lowercase: Seq<char>) -> RuntimeDnsProtocol {
    if lowercase == "dot"@ {
        RuntimeDnsProtocol::Dot
    } else {
        RuntimeDnsProtocol::Doh
    }
}

/// A verified configuration made from candidate `c` at `revision`.
pub open spec fn verified_from(v: VerifiedRuntimeConfig, c: RuntimeConfigCandidate, revision: ConfigRevision) -> bool {
    let domains = canonical_rules(view_strings(c.bypass.domains@))->Ok_0;
    let mode = mode_named(c.bypass.mode@);
    let proto = protocol_named(text_lowercase(c.dns.protocol@));
    &&& v.revision == revision
    &&& v.preset.id == c.preset_id
    &&& v.preset.arguments@ == c.preset_args@
    &&& v.bypass.mode == mode
    &&& view_strings(v.bypass.domains@) == domains
    &&& v.bypass.domain_count == domains.len()
    &&& v.bypass.kill_switch == c.bypass.kill_switch
    &&& v.dns.enabled == c.dns.enabled
    &&& v.dns.protocol == proto
    &&& v.dns.provider == c.dns.provider
    &&& v.dns.adblock == c.dns.adblock
    &&& v.dns.cache_enabled == c.dns.cache_enabled
    &&& v.security.kill_switch == c.security.kill_switch
    &&& v.security.binary_integrity_required == c.security.binary_integrity_required
    &&& v.fingerprint@ == fingerprint_of(
        fingerprint_text(
            c.preset_id@,
            view_strings(c.preset_args@),
            mode,
            domains,
            c.bypass.kill_switch,
            c.dns.enabled,
            proto,
            match c.dns.provider {
                Some(p) => Some(p@),
                None => None,
            },
            c.dns.adblock,
            c.dns.cache_enabled,
        ),
    )
}

/// The fingerprint is the configuration's content: two verified
/// configurations whose candidates agree on everything but the revision
/// and on their domains as a set of canonical rules (in any order, with
/// any repeats) have the same fingerprint.
pub proof fn lemma_fingerprint_is_content(
    v1: VerifiedRuntimeConfig,
    c1: RuntimeConfigCandidate,
    r1: ConfigRevision,
    v2: VerifiedRuntimeConfig,
    c2: RuntimeConfigCandidate,
    r2: ConfigRevision,
)
    requires
        runtime_config_error(c1) is None,
        runtime_config_error(c2) is None,
        verified_from(v1, c1, r1),
        verified_from(v2, c2, r2),
        c1.preset_id@ == c2.preset_id@,
        view_strings(c1.preset_args@) == view_strings(c2.preset_args@),
        c1.bypass.mode@ == c2.bypass.mode@,
        c1.bypass.kill_switch == c2.bypass.kill_switch,
        c1.dns.enabled == c2.dns.enabled,
        c1.dns.protocol@ == c2.dns.protocol@,
        c1.dns.provider == c2.dns.provider,
        c1.dns.adblock == c2.dns.adblock,
        c1.dns.cache_enabled == c2.dns.cache_enabled,
        forall|x: Seq<char>| canonical_rules(view_strings(c1.bypass.domains@))->Ok_0.contains(x)
            <==> canonical_rules(view_strings(c2.bypass.domains@))->Ok_0.contains(x),
    ensures
        v1.fingerprint@ == v2.fingerprint@,
{
    let d1 = canonical_rules(view_strings(c1.bypass.domains@))->Ok_0;
    let d2 = canonical_rules(view_strings(c2.bypass.domains@))->Ok_0;
    crate::domain::lemma_canonical_rules_unique(view_strings(c1.bypass.domains@));
    crate::domain::lemma_canonical_rules_unique(view_strings(c2.bypass.domains@));
    crate::sorting::lemma_sorted_same_elements(d1, d2);
}

/// The hashed text tells the kill switch setting and the DNS protocol
/// apart: two configurations that differ in one of them, and in nothing
/// else, hash different texts.
pub proof fn lemma_fingerprint_text_tells_apart(
    preset_id: Seq<char>,
    preset_args: Seq<Seq<char>>,
    mode: RuntimeBypassMode,
    domains: Seq<Seq<char>>,
    ks1: bool,
    ks2: bool,
    dns_enabled: bool,
    p1: RuntimeDnsProtocol,
    p2: RuntimeDnsProtocol,
    dns_provider: Option<Seq<char>>,
    dns_adblock: bool,
    dns_cache: bool,
)
    requires
        (ks1 != ks2 && p1 == p2) || (ks1 == ks2 && p1 != p2),
    ensures
        fingerprint_text(preset_id, preset_args, mode, domains, ks1, dns_enabled, p1, dns_provider, dns_adblock, dns_cache)
            != fingerprint_text(preset_id, preset_args, mode, domains, ks2, dns_enabled, p2, dns_provider, dns_adblock, dns_cache),
{
    reveal_strlit("true");
    reveal_strlit("false");
    reveal_strlit("doh");
    reveal_strlit("dot");
    let t1 = fingerprint_text(preset_id, preset_args, mode, domains, ks1, dns_enabled, p1, dns_provider, dns_adblock, dns_cache);
    let t2 = fingerprint_text(preset_id, preset_args, mode, domains, ks2, dns_enabled, p2, dns_provider, dns_adblock, dns_cache);
    if ks1 != ks2 {
        assert(bool_text(ks1).len() != bool_text(ks2).len());
        assert(t1.len() != t2.len());
    } else {
        let head = "schema:1;"@ + "preset_id:"@ + preset_id + ";"@ + "args:"@ + join_seq(preset_args, ","@) + ";"@
            + "mode:"@ + bypass_mode_text(mode) + ";"@ + "domains:"@ + join_seq(sorted_strings(domains), ","@) + ";"@
            + "ks:"@ + bool_text(ks1) + ";"@ + "dns_en:"@ + bool_text(dns_enabled) + ";"@ + "dns_proto:"@;
        let k: int = (head.len() + 2) as int;
        assert(t1[k] == dns_protocol_text(p1)[2]);
        assert(t2[k] == dns_protocol_text(p2)[2]);
    }
}

/// Verifies a candidate into an immutable configuration at `revision`.
pub fn verify_runtime_config(candidate: RuntimeConfigCandidate, revision: ConfigRevision) -> (r: Result<
    VerifiedRuntimeConfig,
    RuntimeConfigError,
>)
    ensures
        match r {
            Ok(v) => runtime_config_error(candidate) is None && verified_from(v, candidate, revision),
            Err(e) => runtime_config_error(candidate) == Some(e@),
        },
        r matches Ok(v) ==> v.fingerprint@.len() == 64 && forall|i: int|
            0 <= i < v.fingerprint@.len() ==> crate::digest::is_lower_hex(#[trigger] v.fingerprint@[i]),
{
    proof {
        reveal_strlit("all");
        reveal_strlit("whitelist");
        reveal_strlit("blacklist");
        reveal_strlit("doh");
        reveal_strlit("doq");
        reveal_strlit("dot");
        assert("doh"@[2] != "dot"@[2]);
        assert("doq"@[2] != "dot"@[2]);
    }
    let dummy = Preset {
        id: candidate.preset_id.clone(),
        label: candidate.preset_id.clone(),
        description: String::new(),
        icon: String::new(),
        args: clone_strings(&candidate.preset_args),
        is_custom: true,
        priority: 0,
        category: PresetCategory::Standard,
    };
    match validate_preset(&dummy, PresetSource::Custom) {
        Err(e) => {
            return Err(RuntimeConfigError::InvalidPreset(e.message()));
        },
        Ok(_) => {},
    }
    let mode_text = candidate.bypass.mode.as_str();
    let bypass_mode = if str_eq(mode_text, "all") {
        RuntimeBypassMode::All
    } else if str_eq(mode_text, "whitelist") {
        RuntimeBypassMode::Whitelist
    } else if str_eq(mode_text, "blacklist") {
        RuntimeBypassMode::Blacklist
    } else {
        return Err(RuntimeConfigError::UnsupportedBypassMode(to_string(mode_text)));
    };
    let canonical_domains = match canonicalize_domain_rules(candidate.bypass.domains.as_slice()) {
        Ok(d) => d,
        Err(e) => {
            return Err(RuntimeConfigError::InvalidDomains(e.message()));
        },
    };
    let domain_count = canonical_domains.len();
    if bypass_mode == RuntimeBypassMode::Whitelist && domain_count == 0 {
        return Err(RuntimeConfigError::EmptyWhitelist);
    }
    let proto_text = str_to_lowercase(candidate.dns.protocol.as_str());
    let dns_protocol = if str_eq(proto_text.as_str(), "doh") || str_eq(proto_text.as_str(), "doq") {
        RuntimeDnsProtocol::Doh
    } else if str_eq(proto_text.as_str(), "dot") {
        RuntimeDnsProtocol::Dot
    } else {
        return Err(RuntimeConfigError::UnsupportedDnsProtocol(proto_text));
    };
    let provider: Option<&str> = match &candidate.dns.provider {
        Some(p) => Some(p.as_str()),
        None => None,
    };
    let fingerprint = compute_config_fingerprint(
        candidate.preset_id.as_str(),
        &candidate.preset_args,
        bypass_mode,
        &canonical_domains,
        candidate.bypass.kill_switch,
        candidate.dns.enabled,
        dns_protocol,
        provider,
        candidate.dns.adblock,
        candidate.dns.cache_enabled,
    );
    let RuntimeConfigCandidate { preset_id, preset_args, bypass, dns, security } = candidate;
    Ok(VerifiedRuntimeConfig {
        revision,
        fingerprint,
        preset: VerifiedPresetConfig { id: preset_id, arguments: preset_args },
        bypass: VerifiedBypassConfig {
            mode: bypass_mode,
            domains: canonical_domains,
            domain_count,
            kill_switch: bypass.kill_switch,
        },
        dns: VerifiedDnsConfig {
            enabled: dns.enabled,
            protocol: dns_protocol,
            provider: dns.provider,
            adblock: dns.adblock,
            cache_enabled: dns.cache_enabled,
        },
        security: VerifiedSecurityConfig {
            kill_switch: security.kill_switch,
            binary_integrity_required: security.binary_integrity_required,
        },
    })
}

/// The candidate for running `preset` with the bypass settings: the
/// domain list's lines, trimmed and without blank ones; DNS over HTTPS via
/// Cloudflare with ad blocking and caching; the binary's integrity checked.
pub fn candidate_from_preset_and_sources(preset: &Preset, bypass_mode: &str, domain_list: &str, kill_switch: bool) -> (c:
    RuntimeConfigCandidate)
    ensures
        c.preset_id == preset.id,
        c.preset_args@ == preset.args@,
        c.bypass.mode@ == bypass_mode@,
        view_strings(c.bypass.domains@) == trimmed_lines(domain_list@),
        c.bypass.kill_switch == kill_switch,
        c.dns.enabled,
        c.dns.protocol@ == "doh"@,
        (c.dns.provider matches Some(p) && p@ == "cloudflare"@),
        c.dns.adblock,
        c.dns.cache_enabled,
        c.security.kill_switch == kill_switch,
        c.security.binary_integrity_required,
{
    RuntimeConfigCandidate {
        preset_id: preset.id.clone(),
        preset_args: clone_strings(&preset.args),
        bypass: RuntimeBypassCandidate {
            mode: to_string(bypass_mode),
            domains: nonblank_trimmed_lines(domain_list),
            kill_switch,
        },
        dns: RuntimeDnsCandidate {
            enabled: true,
            protocol: to_string("doh"),
            provider: Some(to_string("cloudflare")),
            adblock: true,
            cache_enabled: true,
        },
        security: RuntimeSecurityCandidate { kill_switch, binary_integrity_required: true },
    }
}

} // verus!
