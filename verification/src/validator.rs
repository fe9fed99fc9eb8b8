//! Semantic validation of presets: argument structure, desync method
//! phases, cross-argument consistency and per-platform support.

use vstd::prelude::*;
use vstd::utf8::encode_utf8;
use crate::preset::{Preset, PresetCategory};
use crate::sanitizer::{first_present, forbidden_chars};
use crate::text::{
    concat, decimal, push_char, u64_to_decimal,
    chars_of, first_verdict, lemma_first_verdict_all, lemma_first_verdict_persists,
    lemma_first_verdict_step, split_char, split_ranges, starts_with, str_eq, str_starts_with,
    str_strip_prefix, str_to_lowercase, str_trim, str_contains_char, string_of_range, to_string,
    trim, trim_bounds, text_lowercase, view_strings, find_char, lemma_find_char_bounds,
    lemma_find_char_is_first,
};

verus! {

pub const MAX_DESYNC_METHODS: usize = 3;

#[derive(Debug, Clone, Copy, PartialEq, Eq, Structural)]
pub enum PresetSource {
    BuiltIn,
    Custom,
    ImportedVane,
    ImportedLegacyJson,
    RemoteSigned,
    OptimizerCandidate,
}

#[derive(Debug, Clone, Copy, PartialEq, Eq, Structural)]
pub enum PresetPlatform {
    Windows,
    Linux,
}

#[derive(Debug, Clone, PartialEq, Eq)]
pub enum PlatformSupport {
    Supported,
    Experimental,
    Unsupported { reason: String },
}

#[derive(Debug, Clone, PartialEq, Eq)]
pub struct PlatformSupportMatrix {
    pub windows: PlatformSupport,
    pub linux: PlatformSupport,
}

/// The support state of one capability: `state` is `supported`,
/// `experimental` or `unsupported`, with a reason for the latter two.
#[derive(Debug, Clone, PartialEq, Eq)]
pub struct CapabilityStatus {
    pub state: String,
    pub reason: Option<String>,
}

impl CapabilityStatus {
    pub fn supported() -> (c: Self)
        ensures
            c.state@ == "supported"@,
            c.reason is None,
    {
        CapabilityStatus { state: to_string("supported"), reason: None }
    }

    pub fn experimental(reason: &str) -> (c: Self)
        ensures
            c.state@ == "experimental"@,
            (c.reason matches Some(r) && r@ == reason@),
    {
        CapabilityStatus { state: to_string("experimental"), reason: Some(to_string(reason)) }
    }

    pub fn unsupported(reason: &str) -> (c: Self)
        ensures
            c.state@ == "unsupported"@,
            (c.reason matches Some(r) && r@ == reason@),
    {
        CapabilityStatus { state: to_string("unsupported"), reason: Some(to_string(reason)) }
    }
}

#[derive(Debug, Clone, PartialEq, Eq)]
pub struct TrafficCapabilities {
    pub tcp_filtering: CapabilityStatus,
    pub udp_filtering: CapabilityStatus,
    pub custom_tcp_ports: CapabilityStatus,
    pub custom_udp_ports: CapabilityStatus,
}

#[derive(Debug, Clone, PartialEq, Eq)]
pub struct OptionCapabilities {
    pub auto_ttl: CapabilityStatus,
    pub fixed_ttl: CapabilityStatus,
    pub repeats: CapabilityStatus,
    pub fooling: CapabilityStatus,
    pub split_position: CapabilityStatus,
    pub window_size: CapabilityStatus,
    pub mss: CapabilityStatus,
    pub fake_payload: CapabilityStatus,
    pub fake_tls_sni: CapabilityStatus,
    pub bind_address: CapabilityStatus,
    pub ipset: CapabilityStatus,
    pub tpws: CapabilityStatus,
}

/// What the bundled engine supports on one platform. `methods` lists each
/// desync method name once, with its status.
#[derive(Debug, Clone, PartialEq, Eq)]
pub struct AdvancedCapabilities {
    pub platform: String,
    pub methods: Vec<(String, CapabilityStatus)>,
    pub traffic: TrafficCapabilities,
    pub options: OptionCapabilities,
}

pub open spec fn capability_method_names() -> Seq<Seq<char>> {
    seq![
        "syndata"@, "rst"@, "rstack"@, "fake"@, "fakeknown"@, "split"@, "split2"@, "multisplit"@,
        "disorder"@, "multidisorder"@, "hostfake"@, "fakedsplit"@, "destopt"@, "ipfrag1"@,
        "ipfrag2"@, "udplen"@, "tamper"@, "none"@,
    ]
}

pub open spec fn experimental_traffic_reason() -> Seq<char> {
    "Experimental — automated plan/executor tests passed; pending privileged live acceptance"@
}

pub open spec fn engine_unsupported_reason() -> Seq<char> {
    "Not supported by bundled DPI engine"@
}

pub open spec fn is_supported(c: CapabilityStatus) -> bool {
    c.state@ == "supported"@ && c.reason is None
}

pub open spec fn has_status(c: CapabilityStatus, state: Seq<char>, reason: Seq<char>) -> bool {
    c.state@ == state && (c.reason matches Some(r) && r@ == reason)
}

impl AdvancedCapabilities {
    /// The capabilities on Windows (`windows`) or Linux: every method is
    /// supported; traffic filtering is supported on Windows and experimental
    /// on Linux; six options are supported and six are not.
    pub fn for_platform(windows: bool) -> (c: Self)
        ensures
            c.platform@ == (if windows { "windows"@ } else { "linux"@ }),
            c.methods@.len() == capability_method_names().len(),
            forall|i: int| 0 <= i < c.methods@.len() ==> (#[trigger] c.methods@[i]).0@ == capability_method_names()[i]
                && is_supported(c.methods@[i].1),
            windows ==> is_supported(c.traffic.tcp_filtering) && is_supported(c.traffic.udp_filtering)
                && is_supported(c.traffic.custom_tcp_ports) && is_supported(c.traffic.custom_udp_ports),
            !windows ==> has_status(c.traffic.tcp_filtering, "experimental"@, experimental_traffic_reason())
                && has_status(c.traffic.udp_filtering, "experimental"@, experimental_traffic_reason())
                && has_status(c.traffic.custom_tcp_ports, "experimental"@, experimental_traffic_reason())
                && has_status(c.traffic.custom_udp_ports, "experimental"@, experimental_traffic_reason()),
            is_supported(c.options.auto_ttl) && is_supported(c.options.fixed_ttl) && is_supported(c.options.repeats)
                && is_supported(c.options.fooling) && is_supported(c.options.split_position)
                && is_supported(c.options.window_size),
            has_status(c.options.mss, "unsupported"@, engine_unsupported_reason())
                && has_status(c.options.fake_payload, "unsupported"@, engine_unsupported_reason())
                && has_status(c.options.fake_tls_sni, "unsupported"@, engine_unsupported_reason())
                && has_status(c.options.bind_address, "unsupported"@, engine_unsupported_reason())
                && has_status(c.options.ipset, "unsupported"@, engine_unsupported_reason())
                && has_status(c.options.tpws, "unsupported"@, engine_unsupported_reason()),
    {
        let names: [&str; 18] = [
            "syndata", "rst", "rstack", "fake", "fakeknown", "split", "split2", "multisplit", "disorder",
            "multidisorder", "hostfake", "fakedsplit", "destopt", "ipfrag1", "ipfrag2", "udplen", "tamper",
            "none",
        ];
        proof {
            assert(names@.map_values(|s: &str| s@) =~= capability_method_names());
        }
        let mut methods: Vec<(String, CapabilityStatus)> = Vec::new();
        let mut i: usize = 0;
        while i < 18
            invariant
                i <= 18,
                names@.map_values(|s: &str| s@) == capability_method_names(),
                methods@.len() == i,
                forall|j: int| 0 <= j < i ==> (#[trigger] methods@[j]).0@ == capability_method_names()[j]
                    && is_supported(methods@[j].1),
            decreases 18 - i,
        {
            proof {
                assert(names@.map_values(|s: &str| s@)[i as int] == names@[i as int]@);
            }
            methods.push((to_string(names[i]), CapabilityStatus::supported()));
            i += 1;
        }
        let traffic = if windows {
            TrafficCapabilities {
                tcp_filtering: CapabilityStatus::supported(),
                udp_filtering: CapabilityStatus::supported(),
                custom_tcp_ports: CapabilityStatus::supported(),
                custom_udp_ports: CapabilityStatus::supported(),
            }
        } else {
            let exp = "Experimental — automated plan/executor tests passed; pending privileged live acceptance";
            TrafficCapabilities {
                tcp_filtering: CapabilityStatus::experimental(exp),
                udp_filtering: CapabilityStatus::experimental(exp),
                custom_tcp_ports: CapabilityStatus::experimental(exp),
                custom_udp_ports: CapabilityStatus::experimental(exp),
            }
        };
        let na = "Not supported by bundled DPI engine";
        let options = OptionCapabilities {
            auto_ttl: CapabilityStatus::supported(),
            fixed_ttl: CapabilityStatus::supported(),
            repeats: CapabilityStatus::supported(),
            fooling: CapabilityStatus::supported(),
            split_position: CapabilityStatus::supported(),
            window_size: CapabilityStatus::supported(),
            mss: CapabilityStatus::unsupported(na),
            fake_payload: CapabilityStatus::unsupported(na),
            fake_tls_sni: CapabilityStatus::unsupported(na),
            bind_address: CapabilityStatus::unsupported(na),
            ipset: CapabilityStatus::unsupported(na),
            tpws: CapabilityStatus::unsupported(na),
        };
        AdvancedCapabilities {
            platform: if windows { to_string("windows") } else { to_string("linux") },
            methods,
            traffic,
            options,
        }
    }
}

/// The packet phase a desync method acts in; methods of one argument must
/// not go back to an earlier phase.
#[derive(Debug, Clone, Copy, PartialEq, Eq, PartialOrd, Ord, Hash, Structural)]
pub enum DesyncPhase {
    Phase0,
    Phase1,
    Phase2,
}

pub open spec fn phase_rank(p: DesyncPhase) -> nat {
    match p {
        DesyncPhase::Phase0 => 0,
        DesyncPhase::Phase1 => 1,
        DesyncPhase::Phase2 => 2,
    }
}

pub open spec fn phase_label(p: DesyncPhase) -> Seq<char> {
    match p {
        DesyncPhase::Phase0 => "Phase0(SYN/SYN-ACK)"@,
        DesyncPhase::Phase1 => "Phase1(Payload/Split)"@,
        DesyncPhase::Phase2 => "Phase2(Option/Post-handshake)"@,
    }
}

impl DesyncPhase {
    pub fn rank(&self) -> (r: u8)
        ensures
            r as nat == phase_rank(*self),
    {
        match self {
            DesyncPhase::Phase0 => 0,
            DesyncPhase::Phase1 => 1,
            DesyncPhase::Phase2 => 2,
        }
    }

    /// The phase as its `Display` prints it.
    pub fn label(&self) -> (s: String)
        ensures
            s@ == phase_label(*self),
    {
        match self {
            DesyncPhase::Phase0 => to_string("Phase0(SYN/SYN-ACK)"),
            DesyncPhase::Phase1 => to_string("Phase1(Payload/Split)"),
            DesyncPhase::Phase2 => to_string("Phase2(Option/Post-handshake)"),
        }
    }
}

#[derive(Debug, Clone, Copy, PartialEq, Eq, Hash, Structural)]
pub enum DesyncMethod {
    Syndata,
    Fake,
    FakeKnown,
    Split,
    Split2,
    MultiSplit,
    Disorder,
    MultiDisorder,
    HostFake,
    FakedSplit,
    Rst,
    Rstack,
    DestOpt,
    IpFrag1,
    IpFrag2,
    UdpLen,
    Tamper,
    NoneMethod,
}

/// The method a lowercase name denotes.
pub open spec fn method_named(s: Seq<char>) -> Option<DesyncMethod> {
    if s == "syndata"@ { Some(DesyncMethod::Syndata) }
    else if s == "fake"@ { Some(DesyncMethod::Fake) }
    else if s == "fakeknown"@ { Some(DesyncMethod::FakeKnown) }
    else if s == "split"@ { Some(DesyncMethod::Split) }
    else if s == "split2"@ { Some(DesyncMethod::Split2) }
    else if s == "multisplit"@ { Some(DesyncMethod::MultiSplit) }
    else if s == "disorder"@ { Some(DesyncMethod::Disorder) }
    else if s == "multidisorder"@ { Some(DesyncMethod::MultiDisorder) }
    else if s == "hostfake"@ { Some(DesyncMethod::HostFake) }
    else if s == "fakedsplit"@ { Some(DesyncMethod::FakedSplit) }
    else if s == "rst"@ { Some(DesyncMethod::Rst) }
    else if s == "rstack"@ { Some(DesyncMethod::Rstack) }
    else if s == "destopt"@ { Some(DesyncMethod::DestOpt) }
    else if s == "ipfrag1"@ { Some(DesyncMethod::IpFrag1) }
    else if s == "ipfrag2"@ { Some(DesyncMethod::IpFrag2) }
    else if s == "udplen"@ { Some(DesyncMethod::UdpLen) }
    else if s == "tamper"@ { Some(DesyncMethod::Tamper) }
    else if s == "none"@ { Some(DesyncMethod::NoneMethod) }
    else { None }
}

/// `DesyncMethod::parse`: trimmed, lowercased, then looked up by name.
pub open spec fn parse_method(s: Seq<char>) -> Option<DesyncMethod> {
    method_named(text_lowercase(trim(s)))
}

proof fn lemma_plain_name_parses_as_itself(s: Seq<char>)
    requires
        s.len() > 0,
        forall|j: int| 0 <= j < s.len() ==> 'a' <= #[trigger] s[j] <= 'z' || '0' <= s[j] <= '9',
    ensures
        parse_method(s) == method_named(s),
{
    assert(!crate::text::is_ws(s[0]));
    assert(crate::text::trim_start(s) == s);
    assert(!crate::text::is_ws(s.last()));
    assert(crate::text::trim_end(s) == s);
    assert(trim(s) == s);
    assert(crate::text::is_ascii_seq(s));
    assert(crate::text::ascii_lower_seq(s) =~= s);
}

/// Some name the capabilities report parses to `m`.
pub open spec fn reported_method(m: DesyncMethod) -> bool {
    exists|i: int|
        0 <= i < capability_method_names().len() && #[trigger] parse_method(capability_method_names()[i]) == Some(m)
}

/// The methods the capabilities report and the methods the parser knows
/// are the same: each reported name parses, different names parse to
/// different methods, and every method is reported under some name.
pub proof fn lemma_capability_methods_parse()
    ensures
        forall|i: int| 0 <= i < capability_method_names().len() ==> (#[trigger] parse_method(
            capability_method_names()[i],
        )) is Some,
        forall|i: int, j: int|
            0 <= i < j < capability_method_names().len() ==> #[trigger] parse_method(capability_method_names()[i])
                != #[trigger] parse_method(capability_method_names()[j]),
        forall|m: DesyncMethod| #[trigger] reported_method(m),
{
    let names = capability_method_names();
    reveal_strlit("syndata");
    reveal_strlit("rst");
    reveal_strlit("rstack");
    reveal_strlit("fake");
    reveal_strlit("fakeknown");
    reveal_strlit("split");
    reveal_strlit("split2");
    reveal_strlit("multisplit");
    reveal_strlit("disorder");
    reveal_strlit("multidisorder");
    reveal_strlit("hostfake");
    reveal_strlit("fakedsplit");
    reveal_strlit("destopt");
    reveal_strlit("ipfrag1");
    reveal_strlit("ipfrag2");
    reveal_strlit("udplen");
    reveal_strlit("tamper");
    reveal_strlit("none");
    assert forall|i: int| 0 <= i < names.len() implies parse_method(#[trigger] names[i]) == method_named(names[i]) by {
        lemma_plain_name_parses_as_itself(names[i]);
    }
    assert(parse_method(names[0]) == Some(DesyncMethod::Syndata));
    assert(parse_method(names[1]) == Some(DesyncMethod::Rst));
    assert(parse_method(names[2]) == Some(DesyncMethod::Rstack));
    assert(parse_method(names[3]) == Some(DesyncMethod::Fake));
    assert(parse_method(names[4]) == Some(DesyncMethod::FakeKnown));
    assert(parse_method(names[5]) == Some(DesyncMethod::Split));
    assert(parse_method(names[6]) == Some(DesyncMethod::Split2));
    assert(parse_method(names[7]) == Some(DesyncMethod::MultiSplit));
    assert(parse_method(names[8]) == Some(DesyncMethod::Disorder));
    assert(parse_method(names[9]) == Some(DesyncMethod::MultiDisorder));
    assert(parse_method(names[10]) == Some(DesyncMethod::HostFake));
    assert(parse_method(names[11]) == Some(DesyncMethod::FakedSplit));
    assert(parse_method(names[12]) == Some(DesyncMethod::DestOpt));
    assert(parse_method(names[13]) == Some(DesyncMethod::IpFrag1));
    assert(parse_method(names[14]) == Some(DesyncMethod::IpFrag2));
    assert(parse_method(names[15]) == Some(DesyncMethod::UdpLen));
    assert(parse_method(names[16]) == Some(DesyncMethod::Tamper));
    assert(parse_method(names[17]) == Some(DesyncMethod::NoneMethod));
    assert forall|m: DesyncMethod| #[trigger] reported_method(m) by {
        let i: int = match m {
            DesyncMethod::Syndata => 0,
            DesyncMethod::Rst => 1,
            DesyncMethod::Rstack => 2,
            DesyncMethod::Fake => 3,
            DesyncMethod::FakeKnown => 4,
            DesyncMethod::Split => 5,
            DesyncMethod::Split2 => 6,
            DesyncMethod::MultiSplit => 7,
            DesyncMethod::Disorder => 8,
            DesyncMethod::MultiDisorder => 9,
            DesyncMethod::HostFake => 10,
            DesyncMethod::FakedSplit => 11,
            DesyncMethod::DestOpt => 12,
            DesyncMethod::IpFrag1 => 13,
            DesyncMethod::IpFrag2 => 14,
            DesyncMethod::UdpLen => 15,
            DesyncMethod::Tamper => 16,
            DesyncMethod::NoneMethod => 17,
        };
        assert(parse_method(names[i]) == Some(m));
    }
}


pub open spec fn method_phase(m: DesyncMethod) -> DesyncPhase {
    match m {
        DesyncMethod::Syndata | DesyncMethod::Rst | DesyncMethod::Rstack => DesyncPhase::Phase0,
        DesyncMethod::Fake | DesyncMethod::FakeKnown | DesyncMethod::Split | DesyncMethod::Split2
        | DesyncMethod::MultiSplit | DesyncMethod::Disorder | DesyncMethod::MultiDisorder
        | DesyncMethod::HostFake | DesyncMethod::FakedSplit => DesyncPhase::Phase1,
        _ => DesyncPhase::Phase2,
    }
}

pub open spec fn is_split_family(m: DesyncMethod) -> bool {
    m == DesyncMethod::Split || m == DesyncMethod::Split2 || m == DesyncMethod::MultiSplit
        || m == DesyncMethod::Disorder || m == DesyncMethod::MultiDisorder || m == DesyncMethod::FakedSplit
}

fn method_named_exec(s: &str) -> (r: Option<DesyncMethod>)
    ensures
        r == method_named(s@),
{
    if str_eq(s, "syndata") { Some(DesyncMethod::Syndata) }
    else if str_eq(s, "fake") { Some(DesyncMethod::Fake) }
    else if str_eq(s, "fakeknown") { Some(DesyncMethod::FakeKnown) }
    else if str_eq(s, "split") { Some(DesyncMethod::Split) }
    else if str_eq(s, "split2") { Some(DesyncMethod::Split2) }
    else if str_eq(s, "multisplit") { Some(DesyncMethod::MultiSplit) }
    else if str_eq(s, "disorder") { Some(DesyncMethod::Disorder) }
    else if str_eq(s, "multidisorder") { Some(DesyncMethod::MultiDisorder) }
    else if str_eq(s, "hostfake") { Some(DesyncMethod::HostFake) }
    else if str_eq(s, "fakedsplit") { Some(DesyncMethod::FakedSplit) }
    else if str_eq(s, "rst") { Some(DesyncMethod::Rst) }
    else if str_eq(s, "rstack") { Some(DesyncMethod::Rstack) }
    else if str_eq(s, "destopt") { Some(DesyncMethod::DestOpt) }
    else if str_eq(s, "ipfrag1") { Some(DesyncMethod::IpFrag1) }
    else if str_eq(s, "ipfrag2") { Some(DesyncMethod::IpFrag2) }
    else if str_eq(s, "udplen") { Some(DesyncMethod::UdpLen) }
    else if str_eq(s, "tamper") { Some(DesyncMethod::Tamper) }
    else if str_eq(s, "none") { Some(DesyncMethod::NoneMethod) }
    else { None }
}

impl DesyncMethod {
    /// The method named by `s`, ignoring surrounding whitespace and case.
    pub fn parse(s: &str) -> (r: Option<Self>)
        ensures
            r == parse_method(s@),
    {
        let t = str_trim(s);
        let l = str_to_lowercase(t.as_str());
        method_named_exec(l.as_str())
    }

    pub fn phase(&self) -> (p: DesyncPhase)
        ensures
            p == method_phase(*self),
    {
        match self {
            DesyncMethod::Syndata | DesyncMethod::Rst | DesyncMethod::Rstack => DesyncPhase::Phase0,
            DesyncMethod::Fake | DesyncMethod::FakeKnown | DesyncMethod::Split | DesyncMethod::Split2
            | DesyncMethod::MultiSplit | DesyncMethod::Disorder | DesyncMethod::MultiDisorder
            | DesyncMethod::HostFake | DesyncMethod::FakedSplit => DesyncPhase::Phase1,
            _ => DesyncPhase::Phase2,
        }
    }

    pub fn is_split_family(&self) -> (r: bool)
        ensures
            r == is_split_family(*self),
    {
        match self {
            DesyncMethod::Split | DesyncMethod::Split2 | DesyncMethod::MultiSplit | DesyncMethod::Disorder
            | DesyncMethod::MultiDisorder | DesyncMethod::FakedSplit => true,
            _ => false,
        }
    }
}

#[derive(Debug, Clone, PartialEq, Eq)]
pub enum PresetValidationError {
    InvalidId(String),
    TooManyArguments { count: usize, max: usize },
    ArgumentTooLong { arg: String, len: usize, max: usize },
    UnsafeArgument { arg: String, ch: char },
    UnknownArgument { arg: String },
    DuplicateArgument { arg: String },
    UnknownDesyncMethod { arg: String, method: String },
    TooManyDesyncMethods { count: usize, max: usize },
    InvalidPhaseOrder {
        spec: String,
        prev_method: String,
        prev_phase: DesyncPhase,
        next_method: String,
        next_phase: DesyncPhase,
    },
    DuplicateDesyncMethod { arg: String, method: String },
    NoneCombinedWithStrategy { arg: String },
    ConflictingTtl,
    DanglingSplitPosition,
    DanglingRepeats,
    ForbiddenHostlistPath { arg: String },
}

/// `PresetValidationError` with its texts as character sequences.
pub enum PresetErrorView {
    InvalidId(Seq<char>),
    TooManyArguments { count: nat, max: nat },
    ArgumentTooLong { arg: Seq<char>, len: nat, max: nat },
    UnsafeArgument { arg: Seq<char>, ch: char },
    UnknownArgument { arg: Seq<char> },
    DuplicateArgument { arg: Seq<char> },
    UnknownDesyncMethod { arg: Seq<char>, method: Seq<char> },
    TooManyDesyncMethods { count: nat, max: nat },
    InvalidPhaseOrder {
        spec: Seq<char>,
        prev_method: Seq<char>,
        prev_phase: DesyncPhase,
        next_method: Seq<char>,
        next_phase: DesyncPhase,
    },
    DuplicateDesyncMethod { arg: Seq<char>, method: Seq<char> },
    NoneCombinedWithStrategy { arg: Seq<char> },
    ConflictingTtl,
    DanglingSplitPosition,
    DanglingRepeats,
    ForbiddenHostlistPath { arg: Seq<char> },
}

impl View for PresetValidationError {
    type V = PresetErrorView;

    open spec fn view(&self) -> PresetErrorView {
        match self {
            PresetValidationError::InvalidId(s) => PresetErrorView::InvalidId(s@),
            PresetValidationError::TooManyArguments { count, max } =>
                PresetErrorView::TooManyArguments { count: *count as nat, max: *max as nat },
            PresetValidationError::ArgumentTooLong { arg, len, max } =>
                PresetErrorView::ArgumentTooLong { arg: arg@, len: *len as nat, max: *max as nat },
            PresetValidationError::UnsafeArgument { arg, ch } => PresetErrorView::UnsafeArgument { arg: arg@, ch: *ch },
            PresetValidationError::UnknownArgument { arg } => PresetErrorView::UnknownArgument { arg: arg@ },
            PresetValidationError::DuplicateArgument { arg } => PresetErrorView::DuplicateArgument { arg: arg@ },
            PresetValidationError::UnknownDesyncMethod { arg, method } =>
                PresetErrorView::UnknownDesyncMethod { arg: arg@, method: method@ },
            PresetValidationError::TooManyDesyncMethods { count, max } =>
                PresetErrorView::TooManyDesyncMethods { count: *count as nat, max: *max as nat },
            PresetValidationError::InvalidPhaseOrder { spec, prev_method, prev_phase, next_method, next_phase } =>
                PresetErrorView::InvalidPhaseOrder {
                    spec: spec@,
                    prev_method: prev_method@,
                    prev_phase: *prev_phase,
                    next_method: next_method@,
                    next_phase: *next_phase,
                },
            PresetValidationError::DuplicateDesyncMethod { arg, method } =>
                PresetErrorView::DuplicateDesyncMethod { arg: arg@, method: method@ },
            PresetValidationError::NoneCombinedWithStrategy { arg } =>
                PresetErrorView::NoneCombinedWithStrategy { arg: arg@ },
            PresetValidationError::ConflictingTtl => PresetErrorView::ConflictingTtl,
            PresetValidationError::DanglingSplitPosition => PresetErrorView::DanglingSplitPosition,
            PresetValidationError::DanglingRepeats => PresetErrorView::DanglingRepeats,
            PresetValidationError::ForbiddenHostlistPath { arg } => PresetErrorView::ForbiddenHostlistPath { arg: arg@ },
        }
    }
}

/// The message of each validation error, as its `Display` prints it.
pub open spec fn preset_error_text(e: PresetErrorView) -> Seq<char> {
    match e {
        PresetErrorView::InvalidId(id) => "invalid preset ID: "@ + id,
        PresetErrorView::TooManyArguments { count, max } => "preset argument limit exceeded: "@ + decimal(count)
            + " > "@ + decimal(max),
        PresetErrorView::ArgumentTooLong { arg, len, max } => "preset argument too long ("@ + decimal(len)
            + " chars > "@ + decimal(max) + " limit): "@ + arg,
        PresetErrorView::UnsafeArgument { arg, ch } => "unsafe character '"@ + seq![ch] + "' in argument: "@ + arg,
        PresetErrorView::UnknownArgument { arg } => "unknown or forbidden argument: "@ + arg,
        PresetErrorView::DuplicateArgument { arg } => "duplicate single-value argument: "@ + arg,
        PresetErrorView::UnknownDesyncMethod { arg, method } => "unknown desync method '"@ + method
            + "' in argument '"@ + arg + "'"@,
        PresetErrorView::TooManyDesyncMethods { count, max } => "too many desync methods ("@ + decimal(count)
            + " > "@ + decimal(max) + ")"@,
        PresetErrorView::InvalidPhaseOrder { spec, prev_method, prev_phase, next_method, next_phase } =>
            "invalid desync phase sequence in '--dpi-desync="@ + spec + "': "@ + prev_method + " ("@
                + phase_label(prev_phase) + ") precedes "@ + next_method + " ("@ + phase_label(next_phase) + ")"@,
        PresetErrorView::DuplicateDesyncMethod { arg, method } => "duplicate desync method '"@ + method
            + "' in argument '"@ + arg + "'"@,
        PresetErrorView::NoneCombinedWithStrategy { arg } =>
            "desync method 'none' cannot be combined with other methods in '"@ + arg + "'"@,
        PresetErrorView::ConflictingTtl => "conflicting TTL options: both fixed TTL and auto-TTL specified"@,
        PresetErrorView::DanglingSplitPosition =>
            "dangling split position argument without a split-based desync method"@,
        PresetErrorView::DanglingRepeats => "dangling repeats argument without a desync method"@,
        PresetErrorView::ForbiddenHostlistPath { arg } => "preset contains forbidden hostlist path argument: "@ + arg,
    }
}

fn cat(a: String, b: &str) -> (r: String)
    ensures
        r@ == a@ + b@,
{
    concat(a.as_str(), b)
}

impl PresetValidationError {
    /// The error's message, as its `Display` prints it.
    pub fn message(&self) -> (s: String)
        ensures
            s@ == preset_error_text(self@),
    {
        match self {
            PresetValidationError::InvalidId(id) => concat("invalid preset ID: ", id.as_str()),
            PresetValidationError::TooManyArguments { count, max } => {
                let s = cat(to_string("preset argument limit exceeded: "), u64_to_decimal(*count as u64).as_str());
                let s = cat(s, " > ");
                cat(s, u64_to_decimal(*max as u64).as_str())
            },
            PresetValidationError::ArgumentTooLong { arg, len, max } => {
                let s = cat(to_string("preset argument too long ("), u64_to_decimal(*len as u64).as_str());
                let s = cat(s, " chars > ");
                let s = cat(s, u64_to_decimal(*max as u64).as_str());
                let s = cat(s, " limit): ");
                cat(s, arg.as_str())
            },
            PresetValidationError::UnsafeArgument { arg, ch } => {
                let mut s = to_string("unsafe character '");
                push_char(&mut s, *ch);
                let s = cat(s, "' in argument: ");
                cat(s, arg.as_str())
            },
            PresetValidationError::UnknownArgument { arg } => concat("unknown or forbidden argument: ", arg.as_str()),
            PresetValidationError::DuplicateArgument { arg } => concat("duplicate single-value argument: ", arg.as_str()),
            PresetValidationError::UnknownDesyncMethod { arg, method } => {
                let s = cat(to_string("unknown desync method '"), method.as_str());
                let s = cat(s, "' in argument '");
                let s = cat(s, arg.as_str());
                cat(s, "'")
            },
            PresetValidationError::TooManyDesyncMethods { count, max } => {
                let s = cat(to_string("too many desync methods ("), u64_to_decimal(*count as u64).as_str());
                let s = cat(s, " > ");
                let s = cat(s, u64_to_decimal(*max as u64).as_str());
                cat(s, ")")
            },
            PresetValidationError::InvalidPhaseOrder { spec, prev_method, prev_phase, next_method, next_phase } => {
                let s = cat(to_string("invalid desync phase sequence in '--dpi-desync="), spec.as_str());
                let s = cat(s, "': ");
                let s = cat(s, prev_method.as_str());
                let s = cat(s, " (");
                let s = cat(s, prev_phase.label().as_str());
                let s = cat(s, ") precedes ");
                let s = cat(s, next_method.as_str());
                let s = cat(s, " (");
                let s = cat(s, next_phase.label().as_str());
                cat(s, ")")
            },
            PresetValidationError::DuplicateDesyncMethod { arg, method } => {
                let s = cat(to_string("duplicate desync method '"), method.as_str());
                let s = cat(s, "' in argument '");
                let s = cat(s, arg.as_str());
                cat(s, "'")
            },
            PresetValidationError::NoneCombinedWithStrategy { arg } => {
                let s = cat(to_string("desync method 'none' cannot be combined with other methods in '"), arg.as_str());
                cat(s, "'")
            },
            PresetValidationError::ConflictingTtl => to_string(
                "conflicting TTL options: both fixed TTL and auto-TTL specified",
            ),
            PresetValidationError::DanglingSplitPosition => to_string(
                "dangling split position argument without a split-based desync method",
            ),
            PresetValidationError::DanglingRepeats => to_string("dangling repeats argument without a desync method"),
            PresetValidationError::ForbiddenHostlistPath { arg } => concat(
                "preset contains forbidden hostlist path argument: ",
                arg.as_str(),
            ),
        }
    }
}

/// The raw method names of a `--dpi-desync=` value: its comma-separated
/// pieces, each trimmed.
pub open spec fn raw_methods(spec: Seq<char>) -> Seq<Seq<char>> {
    split_char(spec, ',').map_values(|p: Seq<char>| trim(p))
}

/// The verdict on raw method `j`: unknown, `none` combined with others, or
/// a repeat of an earlier method of the same argument.
pub open spec fn method_error(arg: Seq<char>, raw: Seq<Seq<char>>, j: int) -> Option<PresetErrorView> {
    match parse_method(raw[j]) {
        None => Some(PresetErrorView::UnknownDesyncMethod { arg, method: raw[j] }),
        Some(m) => if m == DesyncMethod::NoneMethod && raw.len() > 1 {
            Some(PresetErrorView::NoneCombinedWithStrategy { arg })
        } else if exists|i: int| 0 <= i < j && parse_method(#[trigger] raw[i]) == Some(m) {
            Some(PresetErrorView::DuplicateDesyncMethod { arg, method: raw[j] })
        } else {
            None
        },
    }
}

/// The first method verdict among raw methods `0..n`.
pub open spec fn first_method_error(arg: Seq<char>, raw: Seq<Seq<char>>, n: int) -> Option<PresetErrorView>
    decreases n,
{
    if n <= 0 {
        None
    } else {
        match first_method_error(arg, raw, n - 1) {
            Some(e) => Some(e),
            None => method_error(arg, raw, n - 1),
        }
    }
}

/// The parsed methods of a value whose names all parse.
pub open spec fn parsed_methods(raw: Seq<Seq<char>>) -> Seq<DesyncMethod> {
    raw.map_values(|r: Seq<char>| parse_method(r)->0)
}

/// The verdict on consecutive pairs `(j, j + 1)` for `j < n`: the first
/// pair whose phase goes back.
pub open spec fn first_phase_error(spec: Seq<char>, raw: Seq<Seq<char>>, n: int) -> Option<PresetErrorView>
    decreases n,
{
    if n <= 0 {
        None
    } else {
        match first_phase_error(spec, raw, n - 1) {
            Some(e) => Some(e),
            None => {
                let j = n - 1;
                let prev = method_phase(parse_method(raw[j])->0);
                let next = method_phase(parse_method(raw[j + 1])->0);
                if phase_rank(prev) > phase_rank(next) {
                    Some(PresetErrorView::InvalidPhaseOrder {
                        spec,
                        prev_method: raw[j],
                        prev_phase: prev,
                        next_method: raw[j + 1],
                        next_phase: next,
                    })
                } else {
                    None
                }
            },
        }
    }
}

/// The verdict on the value of a `--dpi-desync=` argument.
pub open spec fn desync_error(arg: Seq<char>, spec: Seq<char>) -> Option<PresetErrorView> {
    let raw = raw_methods(spec);
    if raw.len() > 3 {
        Some(PresetErrorView::TooManyDesyncMethods { count: raw.len(), max: 3 })
    } else {
        match first_method_error(arg, raw, raw.len() as int) {
            Some(e) => Some(e),
            None => first_phase_error(spec, raw, raw.len() - 1),
        }
    }
}

/// The text before the first `=`, or the whole argument.
pub open spec fn arg_prefix(arg: Seq<char>) -> Seq<char> {
    arg.subrange(0, find_char(arg, '='))
}

pub open spec fn is_single_value_prefix(p: Seq<char>) -> bool {
    p == "--dpi-desync"@ || p == "--wf-tcp"@ || p == "--wf-udp"@ || p == "--dpi-desync-split-pos"@
        || p == "--dpi-desync-ttl"@
}

pub open spec fn desync_value(arg: Seq<char>) -> Seq<char> {
    arg.subrange(13, arg.len() as int)
}

/// The verdict on one argument, given the arguments before it.
pub open spec fn arg_error(arg: Seq<char>, earlier: Seq<Seq<char>>) -> Option<PresetErrorView> {
    if encode_utf8(arg).len() > 128 {
        Some(PresetErrorView::ArgumentTooLong { arg, len: encode_utf8(arg).len(), max: 128 })
    } else if arg.len() == 0 {
        Some(PresetErrorView::UnknownArgument { arg })
    } else if first_present(forbidden_chars(), arg) is Some {
        Some(PresetErrorView::UnsafeArgument { arg, ch: first_present(forbidden_chars(), arg)->0 })
    } else if starts_with(arg, "--hostlist="@) || starts_with(arg, "--hostlist-exclude="@) {
        Some(PresetErrorView::ForbiddenHostlistPath { arg })
    } else if is_single_value_prefix(arg_prefix(arg))
        && exists|j: int| 0 <= j < earlier.len() && arg_prefix(#[trigger] earlier[j]) == arg_prefix(arg) {
        Some(PresetErrorView::DuplicateArgument { arg })
    } else if starts_with(arg, "--dpi-desync="@) {
        desync_error(arg, desync_value(arg))
    } else {
        None
    }
}

/// The first argument verdict among arguments `0..n`.
pub open spec fn first_arg_error(args: Seq<Seq<char>>, n: int) -> Option<PresetErrorView>
    decreases n,
{
    if n <= 0 {
        None
    } else {
        match first_arg_error(args, n - 1) {
            Some(e) => Some(e),
            None => arg_error(args[n - 1], args.take(n - 1)),
        }
    }
}

/// The methods of every `--dpi-desync=` among arguments `0..n`, in order.
pub open spec fn preset_methods(args: Seq<Seq<char>>, n: int) -> Seq<DesyncMethod>
    decreases n,
{
    if n <= 0 {
        seq![]
    } else if starts_with(args[n - 1], "--dpi-desync="@) {
        preset_methods(args, n - 1) + parsed_methods(raw_methods(desync_value(args[n - 1])))
    } else {
        preset_methods(args, n - 1)
    }
}

pub open spec fn some_arg(args: Seq<Seq<char>>, p: spec_fn(Seq<char>) -> bool) -> bool {
    exists|i: int| 0 <= i < args.len() && p(#[trigger] args[i])
}

pub open spec fn is_quic_ports(ports: Seq<char>) -> bool {
    ports == "443"@ || ports == "50000-65535"@
}

/// Some `--wf-udp=` names only QUIC ports while no `--wf-tcp=` is given.
pub open spec fn udp_quic_only(args: Seq<Seq<char>>) -> bool {
    &&& some_arg(args, |a: Seq<char>| starts_with(a, "--wf-udp="@) && is_quic_ports(a.subrange(9, a.len() as int)))
    &&& !some_arg(args, |a: Seq<char>| starts_with(a, "--wf-tcp="@))
}

/// Some `--wf-udp=` names other ports.
pub open spec fn udp_custom_ports(args: Seq<Seq<char>>) -> bool {
    some_arg(args, |a: Seq<char>| starts_with(a, "--wf-udp="@) && !is_quic_ports(a.subrange(9, a.len() as int)))
}

pub open spec fn linux_unsupported_reason() -> Seq<char> {
    "Linux effective UDP packet filtering is not yet supported in current kernel netfilter rules"@
}

pub open spec fn valid_id(id: Seq<char>) -> bool {
    id.len() > 0 && forall|i: int| 0 <= i < id.len() ==> (crate::text::is_ascii_alnum(#[trigger] id[i])
        || id[i] == '-' || id[i] == '_')
}

/// The verdict of `validate_preset` when it fails.
pub open spec fn preset_error(id: Seq<char>, args: Seq<Seq<char>>) -> Option<PresetErrorView> {
    if !valid_id(id) {
        Some(PresetErrorView::InvalidId(id))
    } else if args.len() > 30 {
        Some(PresetErrorView::TooManyArguments { count: args.len(), max: 30 })
    } else if first_arg_error(args, args.len() as int) is Some {
        first_arg_error(args, args.len() as int)
    } else if some_arg(args, |a: Seq<char>| a == "--dpi-desync-autottl"@)
        && some_arg(args, |a: Seq<char>| starts_with(a, "--dpi-desync-ttl="@)) {
        Some(PresetErrorView::ConflictingTtl)
    } else if some_arg(args, |a: Seq<char>| starts_with(a, "--dpi-desync-split-pos="@))
        && !(exists|i: int| 0 <= i < preset_methods(args, args.len() as int).len()
            && is_split_family(#[trigger] preset_methods(args, args.len() as int)[i])) {
        Some(PresetErrorView::DanglingSplitPosition)
    } else if some_arg(args, |a: Seq<char>| starts_with(a, "--dpi-desync-repeats="@))
        && !some_arg(args, |a: Seq<char>| starts_with(a, "--dpi-desync="@)) {
        Some(PresetErrorView::DanglingRepeats)
    } else {
        None
    }
}

/// A preset that passed every check, with its parsed methods and the
/// platforms it supports.
#[derive(Debug, Clone, PartialEq, Eq)]
pub struct VerifiedPreset {
    pub id: String,
    pub label: String,
    pub description: String,
    pub icon: String,
    pub arguments: Vec<String>,
    pub is_custom: bool,
    pub priority: u8,
    pub category: PresetCategory,
    pub source: PresetSource,
    pub supported_platforms: PlatformSupportMatrix,
    pub parsed_desync_methods: Vec<DesyncMethod>,
}

pub fn clone_strings(v: &Vec<String>) -> (r: Vec<String>)
    ensures
        r@ == v@,
{
    let mut r: Vec<String> = Vec::new();
    let mut i: usize = 0;
    while i < v.len()
        invariant
            i <= v.len(),
            r@ == v@.take(i as int),
        decreases v.len() - i,
    {
        r.push(v[i].clone());
        proof {
            assert(v@.take(i + 1) =~= v@.take(i as int).push(v@[i as int]));
        }
        i += 1;
    }
    proof {
        assert(v@.take(v@.len() as int) =~= v@);
    }
    r
}

pub fn valid_preset_id(id: &str) -> (r: bool)
    ensures
        r == valid_id(id@),
{
    let v = chars_of(id);
    if v.len() == 0 {
        return false;
    }
    let mut i: usize = 0;
    while i < v.len()
        invariant
            i <= v.len(),
            v@ == id@,
            forall|j: int| 0 <= j < i ==> (crate::text::is_ascii_alnum(#[trigger] v@[j]) || v@[j] == '-' || v@[j] == '_'),
        decreases v.len() - i,
    {
        let c = v[i];
        if !(crate::domain::is_alnum_char(c) || c == '-' || c == '_') {
            return false;
        }
        i += 1;
    }
    true
}

fn contains_method(ms: &Vec<DesyncMethod>, m: DesyncMethod) -> (r: bool)
    ensures
        r == ms@.contains(m),
{
    let mut i: usize = 0;
    while i < ms.len()
        invariant
            i <= ms.len(),
            forall|j: int| 0 <= j < i ==> ms@[j] != m,
        decreases ms.len() - i,
    {
        if ms[i] == m {
            return true;
        }
        i += 1;
    }
    false
}

/// The trimmed comma-separated pieces of `spec`.
fn raw_method_strings(spec: &str) -> (r: Vec<String>)
    ensures
        view_strings(r@) == raw_methods(spec@),
{
    let sv = chars_of(spec);
    let ranges = split_ranges(&sv, ',');
    let ghost pieces = split_char(sv@, ',');
    let mut raws: Vec<String> = Vec::new();
    let mut k: usize = 0;
    while k < ranges.len()
        invariant
            k <= ranges@.len() == pieces.len(),
            pieces == split_char(sv@, ','),
            forall|i: int| #![trigger ranges@[i]] 0 <= i < ranges@.len() ==> ranges@[i].0 <= ranges@[i].1 <= sv@.len()
                && sv@.subrange(ranges@[i].0 as int, ranges@[i].1 as int) == pieces[i],
            view_strings(raws@) == pieces.take(k as int).map_values(|p: Seq<char>| trim(p)),
        decreases ranges.len() - k,
    {
        let (a, b) = ranges[k];
        proof {
            assert(ranges@[k as int] == (a, b));
        }
        let (lo, hi) = trim_bounds(&sv, a, b);
        let piece = string_of_range(&sv, lo, hi);
        proof {
            assert(view_strings(raws@.push(piece)) =~= view_strings(raws@).push(piece@));
            assert(pieces.take(k + 1).map_values(|p: Seq<char>| trim(p)) =~= pieces.take(k as int).map_values(
                |p: Seq<char>| trim(p),
            ).push(trim(pieces[k as int])));
        }
        raws.push(piece);
        k += 1;
    }
    proof {
        assert(pieces.take(pieces.len() as int) =~= pieces);
    }
    raws
}

proof fn lemma_first_method_error_persists(arg: Seq<char>, raw: Seq<Seq<char>>, k: int, n: int)
    requires
        0 <= k <= n,
        first_method_error(arg, raw, k) is Some,
    ensures
        first_method_error(arg, raw, n) == first_method_error(arg, raw, k),
    decreases n - k,
{
    if k < n {
        lemma_first_method_error_persists(arg, raw, k, n - 1);
    }
}

proof fn lemma_first_phase_error_persists(spec: Seq<char>, raw: Seq<Seq<char>>, k: int, n: int)
    requires
        0 <= k <= n,
        first_phase_error(spec, raw, k) is Some,
    ensures
        first_phase_error(spec, raw, n) == first_phase_error(spec, raw, k),
    decreases n - k,
{
    if k < n {
        lemma_first_phase_error_persists(spec, raw, k, n - 1);
    }
}

/// The checks of one `--dpi-desync=` value: at most three methods, each
/// known, `none` alone, no repeats, and phases that never go back.
pub fn check_desync_value(arg: &String, spec: &str) -> (r: Result<Vec<DesyncMethod>, PresetValidationError>)
    ensures
        match r {
            Ok(ms) => desync_error(arg@, spec@) is None && ms@ == parsed_methods(raw_methods(spec@)),
            Err(e) => desync_error(arg@, spec@) == Some(e@),
        },
{
    let raws = raw_method_strings(spec);
    let ghost raw = raw_methods(spec@);
    if raws.len() > MAX_DESYNC_METHODS {
        return Err(PresetValidationError::TooManyDesyncMethods { count: raws.len(), max: MAX_DESYNC_METHODS });
    }
    let mut ms: Vec<DesyncMethod> = Vec::new();
    let mut j: usize = 0;
    while j < raws.len()
        invariant
            j <= raws@.len() <= 3,
            view_strings(raws@) == raw,
            raw == raw_methods(spec@),
            first_method_error(arg@, raw, j as int) is None,
            ms@ == parsed_methods(raw.take(j as int)),
            forall|i: int| 0 <= i < j ==> parse_method(#[trigger] raw[i]) == Some(ms@[i]),
        decreases raws.len() - j,
    {
        proof {
            assert(view_strings(raws@)[j as int] == raws@[j as int]@);
        }
        let m = match DesyncMethod::parse(raws[j].as_str()) {
            None => {
                proof {
                    lemma_first_method_error_persists(arg@, raw, j + 1, raw.len() as int);
                }
                return Err(PresetValidationError::UnknownDesyncMethod { arg: arg.clone(), method: raws[j].clone() });
            },
            Some(m) => m,
        };
        if m == DesyncMethod::NoneMethod && raws.len() > 1 {
            proof {
                lemma_first_method_error_persists(arg@, raw, j + 1, raw.len() as int);
            }
            return Err(PresetValidationError::NoneCombinedWithStrategy { arg: arg.clone() });
        }
        if contains_method(&ms, m) {
            proof {
                let i = choose|i: int| 0 <= i < ms@.len() && ms@[i] == m;
                assert(parse_method(raw[i]) == Some(m));
                lemma_first_method_error_persists(arg@, raw, j + 1, raw.len() as int);
            }
            return Err(PresetValidationError::DuplicateDesyncMethod { arg: arg.clone(), method: raws[j].clone() });
        }
        proof {
            assert forall|i: int| 0 <= i < j implies parse_method(#[trigger] raw[i]) != Some(m) by {
                assert(ms@[i] != m);
            }
            assert(method_error(arg@, raw, j as int) is None);
            assert(parsed_methods(raw.take(j + 1)) =~= parsed_methods(raw.take(j as int)).push(m));
        }
        ms.push(m);
        j += 1;
    }
    proof {
        assert(raw.take(raw.len() as int) =~= raw);
    }
    let mut k: usize = 0;
    while k + 1 < ms.len()
        invariant
            ms@.len() == raw.len() == raws@.len(),
            view_strings(raws@) == raw,
            forall|i: int| 0 <= i < ms@.len() ==> parse_method(#[trigger] raw[i]) == Some(ms@[i]),
            k + 1 <= ms@.len() || k == 0,
            raw == raw_methods(spec@),
            raw.len() <= 3,
            first_method_error(arg@, raw, raw.len() as int) is None,
            first_phase_error(spec@, raw, k as int) is None,
        decreases ms.len() - k,
    {
        let prev = ms[k].phase();
        let next = ms[k + 1].phase();
        proof {
            assert(parse_method(raw[k as int]) == Some(ms@[k as int]));
            assert(parse_method(raw[k + 1]) == Some(ms@[k + 1]));
        }
        if prev.rank() > next.rank() {
            proof {
                assert(view_strings(raws@)[k as int] == raws@[k as int]@);
                assert(view_strings(raws@)[k + 1] == raws@[k + 1]@);
                lemma_first_phase_error_persists(spec@, raw, k + 1, raw.len() - 1);
            }
            return Err(PresetValidationError::InvalidPhaseOrder {
                spec: to_string(spec),
                prev_method: raws[k].clone(),
                prev_phase: prev,
                next_method: raws[k + 1].clone(),
                next_phase: next,
            });
        }
        k += 1;
    }
    proof {
        if raw.len() > 0 {
            assert(k == raw.len() - 1);
        }
    }
    Ok(ms)
}

/// Index of the first `=` in `v`, or its length.
fn prefix_end(v: &Vec<char>) -> (r: usize)
    ensures
        r == find_char(v@, '='),
{
    let mut i: usize = 0;
    while i < v.len() && v[i] != '='
        invariant
            i <= v.len(),
            forall|j: int| 0 <= j < i ==> v@[j] != '=',
        decreases v.len() - i,
    {
        i += 1;
    }
    proof {
        lemma_find_char_is_first(v@, '=', i as int);
    }
    i
}

fn is_single_value_prefix_exec(p: &str) -> (r: bool)
    ensures
        r == is_single_value_prefix(p@),
{
    str_eq(p, "--dpi-desync") || str_eq(p, "--wf-tcp") || str_eq(p, "--wf-udp") || str_eq(p, "--dpi-desync-split-pos")
        || str_eq(p, "--dpi-desync-ttl")
}

fn any_starts_with(args: &Vec<String>, p: &str) -> (r: bool)
    ensures
        r == some_arg(view_strings(args@), |a: Seq<char>| starts_with(a, p@)),
{
    let ghost views = view_strings(args@);
    let mut i: usize = 0;
    while i < args.len()
        invariant
            i <= args@.len(),
            views == view_strings(args@),
            forall|j: int| 0 <= j < i ==> !starts_with(#[trigger] views[j], p@),
        decreases args.len() - i,
    {
        proof {
            assert(views[i as int] == args@[i as int]@);
        }
        if str_starts_with(args[i].as_str(), p) {
            proof {
                assert((|a: Seq<char>| starts_with(a, p@))(views[i as int]));
            }
            return true;
        }
        i += 1;
    }
    false
}

pub open spec fn linux_support_of(args: Seq<Seq<char>>, s: PlatformSupport) -> bool {
    if udp_quic_only(args) {
        s matches PlatformSupport::Unsupported { reason } && reason@ == linux_unsupported_reason()
    } else if udp_custom_ports(args) {
        s == PlatformSupport::Experimental
    } else {
        s == PlatformSupport::Supported
    }
}

/// The unified preset check. On success the preset's fields are carried
/// over unchanged, with its parsed desync methods and platform support.
pub fn validate_preset(preset: &Preset, source: PresetSource) -> (r: Result<VerifiedPreset, PresetValidationError>)
    ensures
        match r {
            Ok(v) => {
                &&& preset_error(preset.id@, view_strings(preset.args@)) is None
                &&& v.id == preset.id && v.label == preset.label && v.description == preset.description
                &&& v.icon == preset.icon && v.arguments@ == preset.args@ && v.is_custom == preset.is_custom
                &&& v.priority == preset.priority && v.category == preset.category && v.source == source
                &&& v.parsed_desync_methods@ == preset_methods(view_strings(preset.args@), preset.args@.len() as int)
                &&& v.supported_platforms.windows == PlatformSupport::Supported
                &&& linux_support_of(view_strings(preset.args@), v.supported_platforms.linux)
            },
            Err(e) => preset_error(preset.id@, view_strings(preset.args@)) == Some(e@),
        },
{
    let ghost views = view_strings(preset.args@);
    if !valid_preset_id(preset.id.as_str()) {
        return Err(PresetValidationError::InvalidId(preset.id.clone()));
    }
    if preset.args.len() > 30 {
        return Err(PresetValidationError::TooManyArguments { count: preset.args.len(), max: 30 });
    }
    let any_tcp = any_starts_with(&preset.args, "--wf-tcp=");
    let mut seen: Vec<String> = Vec::new();
    let mut methods: Vec<DesyncMethod> = Vec::new();
    let mut has_auto_ttl = false;
    let mut has_fixed_ttl = false;
    let mut has_split_pos = false;
    let mut has_repeats = false;
    let mut has_desync_spec = false;
    let mut has_split_method = false;
    let mut is_udp_quic_only = false;
    let mut has_custom_ports = false;
    let mut k: usize = 0;
    while k < preset.args.len()
        invariant
            k <= preset.args@.len() <= 30,
            views == view_strings(preset.args@),
            valid_id(preset.id@),
            any_tcp == some_arg(views, |a: Seq<char>| starts_with(a, "--wf-tcp="@)),
            first_arg_error(views, k as int) is None,
            methods@ == preset_methods(views, k as int),
            prefixes_seen(view_strings(seen@), views.take(k as int)),
            has_auto_ttl == some_arg(views.take(k as int), |a: Seq<char>| a == "--dpi-desync-autottl"@),
            has_fixed_ttl == some_arg(views.take(k as int), |a: Seq<char>| starts_with(a, "--dpi-desync-ttl="@)),
            has_split_pos == some_arg(views.take(k as int), |a: Seq<char>| starts_with(a, "--dpi-desync-split-pos="@)),
            has_repeats == some_arg(views.take(k as int), |a: Seq<char>| starts_with(a, "--dpi-desync-repeats="@)),
            has_desync_spec == some_arg(views.take(k as int), |a: Seq<char>| starts_with(a, "--dpi-desync="@)),
            has_split_method == exists|i: int| 0 <= i < methods@.len() && is_split_family(#[trigger] methods@[i]),
            is_udp_quic_only == (some_arg(views.take(k as int), |a: Seq<char>| starts_with(a, "--wf-udp="@)
                && is_quic_ports(a.subrange(9, a.len() as int))) && !any_tcp),
            has_custom_ports == some_arg(views.take(k as int), |a: Seq<char>| starts_with(a, "--wf-udp="@)
                && !is_quic_ports(a.subrange(9, a.len() as int))),
        decreases preset.args.len() - k,
    {
        let arg = &preset.args[k];
        let ghost a = arg@;
        proof {
            assert(views[k as int] == a);
            assert(views.take(k as int) =~= views.take(k + 1).drop_last());
        }
        let verdict = check_arg(arg, &seen, Ghost(views.take(k as int)));
        proof {
            assert(first_arg_error(views, k + 1) == arg_error(a, views.take(k as int)));
            assert((exists|j: int| 0 <= j < views.take(k as int).len() && arg_prefix(#[trigger] views.take(k as int)[j]) == arg_prefix(a))
                == (exists|j: int| 0 <= j < k && arg_prefix(#[trigger] views[j]) == arg_prefix(a))) by {
                if exists|j: int| 0 <= j < k && arg_prefix(#[trigger] views[j]) == arg_prefix(a) {
                    let j = choose|j: int| 0 <= j < k && arg_prefix(#[trigger] views[j]) == arg_prefix(a);
                    assert(views.take(k as int)[j] == views[j]);
                }
            }
        }
        match verdict {
            Err(e) => {
                proof {
                    lemma_first_arg_error_persists(views, k + 1);
                }
                return Err(e);
            },
            Ok(found) => {
                let av = chars_of(arg.as_str());
                let pe = prefix_end(&av);
                proof {
                    lemma_find_char_bounds(av@, '=');
                }
                let prefix = string_of_range(&av, 0, pe);
                let single = is_single_value_prefix_exec(prefix.as_str());
                proof {
                    assert(prefix@ == arg_prefix(a));
                }
                let ghost old_seen = view_strings(seen@);
                if single {
                    proof {
                        assert(view_strings(seen@.push(prefix)) =~= view_strings(seen@).push(prefix@));
                    }
                    seen.push(prefix);
                }
                proof {
                    lemma_prefixes_seen_step(old_seen, views.take(k as int), a, view_strings(seen@));
                    assert(views.take(k as int).push(a) =~= views.take(k + 1));
                }
                let is_auto = str_eq(arg.as_str(), "--dpi-desync-autottl");
                let is_fixed = str_starts_with(arg.as_str(), "--dpi-desync-ttl=");
                let is_split_pos = str_starts_with(arg.as_str(), "--dpi-desync-split-pos=");
                let is_repeats = str_starts_with(arg.as_str(), "--dpi-desync-repeats=");
                let is_desync = str_starts_with(arg.as_str(), "--dpi-desync=");
                proof {
                    lemma_some_arg_push(views, k as int, |x: Seq<char>| x == "--dpi-desync-autottl"@);
                    lemma_some_arg_push(views, k as int, |x: Seq<char>| starts_with(x, "--dpi-desync-ttl="@));
                    lemma_some_arg_push(views, k as int, |x: Seq<char>| starts_with(x, "--dpi-desync-split-pos="@));
                    lemma_some_arg_push(views, k as int, |x: Seq<char>| starts_with(x, "--dpi-desync-repeats="@));
                    lemma_some_arg_push(views, k as int, |x: Seq<char>| starts_with(x, "--dpi-desync="@));
                    lemma_some_arg_push(views, k as int, |x: Seq<char>| starts_with(x, "--wf-udp="@)
                        && is_quic_ports(x.subrange(9, x.len() as int)));
                    lemma_some_arg_push(views, k as int, |x: Seq<char>| starts_with(x, "--wf-udp="@)
                        && !is_quic_ports(x.subrange(9, x.len() as int)));
                }
                has_auto_ttl = has_auto_ttl || is_auto;
                has_fixed_ttl = has_fixed_ttl || is_fixed;
                has_split_pos = has_split_pos || is_split_pos;
                has_repeats = has_repeats || is_repeats;
                has_desync_spec = has_desync_spec || is_desync;
                let ghost old_methods = methods@;
                let mut found = found;
                let ghost found_v = found@;
                let mut split_here = false;
                let mut i: usize = 0;
                while i < found.len()
                    invariant
                        i <= found@.len(),
                        found@ == found_v,
                        split_here == exists|j: int| 0 <= j < i && is_split_family(#[trigger] found_v[j]),
                    decreases found.len() - i,
                {
                    if found[i].is_split_family() {
                        split_here = true;
                    }
                    i += 1;
                }
                methods.append(&mut found);
                proof {
                    if has_split_method || split_here {
                        if split_here {
                            let j = choose|j: int| 0 <= j < i && is_split_family(#[trigger] found_v[j]);
                            assert(methods@[old_methods.len() + j] == found_v[j]);
                        } else {
                            let j = choose|j: int| 0 <= j < old_methods.len() && is_split_family(#[trigger] old_methods[j]);
                            assert(methods@[j] == old_methods[j]);
                        }
                    }
                    if exists|j: int| 0 <= j < methods@.len() && is_split_family(#[trigger] methods@[j]) {
                        let j = choose|j: int| 0 <= j < methods@.len() && is_split_family(#[trigger] methods@[j]);
                        if j < old_methods.len() {
                            assert(old_methods[j] == methods@[j]);
                        } else {
                            assert(found_v[j - old_methods.len()] == methods@[j]);
                        }
                    }
                }
                has_split_method = has_split_method || split_here;
                if let Some(ports) = str_strip_prefix(arg.as_str(), "--wf-udp=") {
                    let quic = str_eq(ports.as_str(), "443") || str_eq(ports.as_str(), "50000-65535");
                    if quic {
                        if !any_tcp {
                            is_udp_quic_only = true;
                        }
                    } else {
                        has_custom_ports = true;
                    }
                    proof {
                        reveal_strlit("--wf-udp=");
                    }
                }
            },
        }
        k += 1;
    }
    proof {
        assert(views.take(views.len() as int) =~= views);
    }
    if has_auto_ttl && has_fixed_ttl {
        return Err(PresetValidationError::ConflictingTtl);
    }
    if has_split_pos && !has_split_method {
        return Err(PresetValidationError::DanglingSplitPosition);
    }
    if has_repeats && !has_desync_spec {
        return Err(PresetValidationError::DanglingRepeats);
    }
    let linux = if is_udp_quic_only {
        PlatformSupport::Unsupported {
            reason: to_string(
                "Linux effective UDP packet filtering is not yet supported in current kernel netfilter rules",
            ),
        }
    } else if has_custom_ports {
        PlatformSupport::Experimental
    } else {
        PlatformSupport::Supported
    };
    Ok(VerifiedPreset {
        id: preset.id.clone(),
        label: preset.label.clone(),
        description: preset.description.clone(),
        icon: preset.icon.clone(),
        arguments: clone_strings(&preset.args),
        is_custom: preset.is_custom,
        priority: preset.priority,
        category: preset.category,
        source,
        supported_platforms: PlatformSupportMatrix { windows: PlatformSupport::Supported, linux },
        parsed_desync_methods: methods,
    })
}

pub proof fn lemma_some_arg_push(views: Seq<Seq<char>>, k: int, p: spec_fn(Seq<char>) -> bool)
    requires
        0 <= k < views.len(),
    ensures
        some_arg(views.take(k + 1), p) == (some_arg(views.take(k), p) || p(views[k])),
{
    if some_arg(views.take(k + 1), p) {
        let i = choose|i: int| 0 <= i < views.take(k + 1).len() && p(#[trigger] views.take(k + 1)[i]);
        if i < k {
            assert(views.take(k)[i] == views.take(k + 1)[i]);
        }
    }
    if some_arg(views.take(k), p) {
        let i = choose|i: int| 0 <= i < views.take(k).len() && p(#[trigger] views.take(k)[i]);
        assert(views.take(k + 1)[i] == views.take(k)[i]);
    }
    if p(views[k]) {
        assert(views.take(k + 1)[k] == views[k]);
    }
}

pub proof fn lemma_first_arg_error_persists(args: Seq<Seq<char>>, k: int)
    requires
        0 <= k <= args.len(),
        first_arg_error(args, k) is Some,
    ensures
        first_arg_error(args, args.len() as int) == first_arg_error(args, k),
    decreases args.len() - k,
{
    if k < args.len() {
        lemma_first_arg_error_persists(args, k + 1);
    }
}

/// `seen` holds exactly the single-value prefixes of the arguments in
/// `earlier`.
pub open spec fn prefixes_seen(seen: Seq<Seq<char>>, earlier: Seq<Seq<char>>) -> bool {
    forall|p: Seq<char>| #[trigger] seen.contains(p) <==> (is_single_value_prefix(p)
        && exists|j: int| 0 <= j < earlier.len() && arg_prefix(#[trigger] earlier[j]) == p)
}

proof fn lemma_prefixes_seen_step(old_seen: Seq<Seq<char>>, earlier: Seq<Seq<char>>, a: Seq<char>, new_seen: Seq<Seq<char>>)
    requires
        prefixes_seen(old_seen, earlier),
        new_seen == (if is_single_value_prefix(arg_prefix(a)) { old_seen.push(arg_prefix(a)) } else { old_seen }),
    ensures
        prefixes_seen(new_seen, earlier.push(a)),
{
    let e2 = earlier.push(a);
    assert forall|p: Seq<char>| #[trigger] new_seen.contains(p) <==> (is_single_value_prefix(p)
        && exists|j: int| 0 <= j < e2.len() && arg_prefix(#[trigger] e2[j]) == p) by {
        if is_single_value_prefix(p) && exists|j: int| 0 <= j < e2.len() && arg_prefix(#[trigger] e2[j]) == p {
            let j = choose|j: int| 0 <= j < e2.len() && arg_prefix(#[trigger] e2[j]) == p;
            if j < earlier.len() {
                assert(e2[j] == earlier[j]);
                assert(arg_prefix(earlier[j]) == p);
                assert(old_seen.contains(p));
                let i = choose|i: int| 0 <= i < old_seen.len() && old_seen[i] == p;
                assert(new_seen[i] == p);
            } else {
                assert(new_seen[new_seen.len() - 1] == p);
            }
        }
        if new_seen.contains(p) {
            let i = choose|i: int| 0 <= i < new_seen.len() && new_seen[i] == p;
            if i < old_seen.len() {
                assert(old_seen[i] == p);
                assert(old_seen.contains(p));
                let j = choose|j: int| 0 <= j < earlier.len() && arg_prefix(#[trigger] earlier[j]) == p;
                assert(e2[j] == earlier[j]);
                assert(arg_prefix(e2[j]) == p);
            } else {
                assert(e2[earlier.len() as int] == a);
                assert(arg_prefix(e2[earlier.len() as int]) == p);
            }
        }
    }
}

/// The checks of one argument, given the single-value prefixes seen so far.
fn check_arg(arg: &String, seen: &Vec<String>, Ghost(earlier): Ghost<Seq<Seq<char>>>) -> (r: Result<
    Vec<DesyncMethod>,
    PresetValidationError,
>)
    requires
        prefixes_seen(view_strings(seen@), earlier),
    ensures
        match r {
            Ok(ms) => arg_error(arg@, earlier) is None && (if starts_with(arg@, "--dpi-desync="@) {
                ms@ == parsed_methods(raw_methods(desync_value(arg@)))
            } else {
                ms@ == Seq::<DesyncMethod>::empty()
            }),
            Err(e) => arg_error(arg@, earlier) == Some(e@),
        },
{
    let byte_len = arg.as_str().as_bytes().len();
    if byte_len > 128 {
        return Err(PresetValidationError::ArgumentTooLong { arg: arg.clone(), len: byte_len, max: 128 });
    }
    if arg.as_str().is_empty() {
        return Err(PresetValidationError::UnknownArgument { arg: arg.clone() });
    }
    let forbidden = crate::sanitizer::first_forbidden(arg.as_str());
    if let Some(ch) = forbidden {
        return Err(PresetValidationError::UnsafeArgument { arg: arg.clone(), ch });
    }
    if str_starts_with(arg.as_str(), "--hostlist=") || str_starts_with(arg.as_str(), "--hostlist-exclude=") {
        return Err(PresetValidationError::ForbiddenHostlistPath { arg: arg.clone() });
    }
    let av = chars_of(arg.as_str());
    let pe = prefix_end(&av);
    proof {
        lemma_find_char_bounds(av@, '=');
    }
    let prefix = string_of_range(&av, 0, pe);
    if is_single_value_prefix_exec(prefix.as_str()) && crate::domain::contains_string(seen, &prefix) {
        return Err(PresetValidationError::DuplicateArgument { arg: arg.clone() });
    }
    match str_strip_prefix(arg.as_str(), "--dpi-desync=") {
        Some(spec) => {
            proof {
                reveal_strlit("--dpi-desync=");
            }
            check_desync_value(arg, spec.as_str())
        },
        None => Ok(Vec::new()),
    }
}

} // verus!
