//! The DNS kill switch as a firewall plan: the rules that keep DNS on the
//! local forwarder, the commands that add and remove them, and executing a
//! plan so that a failure leaves no rule of it behind.

use vstd::prelude::*;
use vstd::utf8::{decode_utf8, encode_utf8, is_char_boundary};
use vstd::string::StringSliceAdditionalSpecFns;
use crate::dns_config::{DnsConfigFingerprint, DnsConfigRevision};
use crate::callback_log::{Callback, CallbackLog};
use crate::text::{
    chars_of, concat, decimal, is_control, str_eq, string_of_range, to_string, trim, trim_bounds, u64_to_decimal,
    view_strings,
};

verus! {

pub const STDERR_LIMIT: usize = 512;

#[derive(Debug, Clone, Copy, PartialEq, Eq, Structural)]
pub enum FirewallPlatform {
    Windows,
    Linux,
}

#[derive(Debug, Clone, PartialEq, Eq)]
pub struct KillSwitchOwnership {
    pub installation_id: String,
    pub instance_id: String,
    pub revision: DnsConfigRevision,
    pub fingerprint: DnsConfigFingerprint,
    pub platform: FirewallPlatform,
    pub rule_ids: Vec<String>,
}

#[derive(Debug, Clone, PartialEq, Eq)]
pub struct FirewallRuleSpec {
    pub name: String,
    pub direction: String,
    pub action: String,
    pub protocol: String,
    pub port: u16,
    pub remote_ip: Option<String>,
    pub comment: Option<String>,
}

#[derive(Debug, Clone, PartialEq, Eq)]
pub enum FirewallStep {
    AddRule(FirewallRuleSpec),
    RemoveRule(FirewallRuleSpec),
}

#[derive(Debug, Clone, PartialEq, Eq)]
pub struct KillSwitchPlan {
    pub ownership: KillSwitchOwnership,
    pub platform: FirewallPlatform,
    pub apply_steps: Vec<FirewallStep>,
    pub rollback_steps: Vec<FirewallStep>,
    pub remove_steps: Vec<FirewallStep>,
}

/// A rule with its texts as character sequences.
pub struct RuleView {
    pub name: Seq<char>,
    pub direction: Seq<char>,
    pub action: Seq<char>,
    pub protocol: Seq<char>,
    pub port: u16,
    pub remote_ip: Option<Seq<char>>,
    pub comment: Option<Seq<char>>,
}

pub open spec fn opt_text(o: Option<String>) -> Option<Seq<char>> {
    match o {
        Some(s) => Some(s@),
        None => None,
    }
}

pub open spec fn rule_view(r: FirewallRuleSpec) -> RuleView {
    RuleView {
        name: r.name@,
        direction: r.direction@,
        action: r.action@,
        protocol: r.protocol@,
        port: r.port,
        remote_ip: opt_text(r.remote_ip),
        comment: opt_text(r.comment),
    }
}

pub open spec fn step_rule(s: FirewallStep) -> FirewallRuleSpec {
    match s {
        FirewallStep::AddRule(r) => r,
        FirewallStep::RemoveRule(r) => r,
    }
}

pub open spec fn inverse_step(s: FirewallStep) -> FirewallStep {
    match s {
        FirewallStep::AddRule(r) => FirewallStep::RemoveRule(r),
        FirewallStep::RemoveRule(r) => FirewallStep::AddRule(r),
    }
}

/// The first `n` bytes of `s`'s UTF-8 encoding, as characters (all of
/// `s` when it is shorter).
pub open spec fn byte_prefix(s: Seq<char>, n: nat) -> Seq<char> {
    let b = encode_utf8(s);
    decode_utf8(b.subrange(0, if b.len() < n { b.len() as int } else { n as int }))
}

/// Cutting `s` after `n` bytes does not split a character.
pub open spec fn cuts_cleanly(s: Seq<char>, n: nat) -> bool {
    let b = encode_utf8(s);
    is_char_boundary(b, if b.len() < n { b.len() as int } else { n as int })
}

pub open spec fn rule_name(inst: Seq<char>, instance: Seq<char>, rev: u64, suffix: Seq<char>) -> Seq<char> {
    "Vane-DNS-"@ + byte_prefix(inst, 8) + "-"@ + byte_prefix(instance, 8) + "-r"@ + decimal(rev as nat) + "-"@ + suffix
}

pub open spec fn rule_suffixes() -> Seq<Seq<char>> {
    seq!["AllowUDP"@, "AllowTCP"@, "UDP53"@, "TCP53"@]
}

pub open spec fn rule_names(inst: Seq<char>, instance: Seq<char>, rev: u64) -> Seq<Seq<char>> {
    rule_suffixes().map_values(|s: Seq<char>| rule_name(inst, instance, rev, s))
}

pub open spec fn kill_switch_comment(inst: Seq<char>, rev: u64) -> Seq<char> {
    "Vane DNS KillSwitch inst="@ + byte_prefix(inst, 8) + " rev="@ + decimal(rev as nat)
}

/// Rule `i` of an enabled kill switch: allow DNS to 127.0.0.1 over UDP
/// and TCP, then block all other DNS over UDP and TCP.
pub open spec fn kill_switch_rule(inst: Seq<char>, instance: Seq<char>, rev: u64, i: int) -> RuleView {
    RuleView {
        name: rule_names(inst, instance, rev)[i],
        direction: "out"@,
        action: if i < 2 { "allow"@ } else { "block"@ },
        protocol: if i % 2 == 0 { "UDP"@ } else { "TCP"@ },
        port: 53,
        remote_ip: if i < 2 { Some("127.0.0.1"@) } else { None },
        comment: Some(kill_switch_comment(inst, rev)),
    }
}

/// The shape of a kill switch plan.
pub open spec fn plan_fits(
    p: KillSwitchPlan,
    inst: Seq<char>,
    instance: Seq<char>,
    revision: DnsConfigRevision,
    fingerprint: DnsConfigFingerprint,
    platform: FirewallPlatform,
    enabled: bool,
) -> bool {
    &&& p.ownership.installation_id@ == inst
    &&& p.ownership.instance_id@ == instance
    &&& p.ownership.revision == revision
    &&& p.ownership.fingerprint == fingerprint
    &&& p.ownership.platform == platform
    &&& view_strings(p.ownership.rule_ids@) == rule_names(inst, instance, revision.0)
    &&& p.platform == platform
    &&& if enabled {
        &&& p.apply_steps@.len() == 4
        &&& p.rollback_steps@.len() == 4
        &&& p.remove_steps@ == p.rollback_steps@
        &&& forall|i: int| 0 <= i < 4 ==> ((#[trigger] p.apply_steps@[i]) matches FirewallStep::AddRule(r)
            && rule_view(r) == kill_switch_rule(inst, instance, revision.0, i))
        &&& forall|i: int| 0 <= i < 4 ==> #[trigger] p.rollback_steps@[i] == inverse_step(p.apply_steps@[3 - i])
    } else {
        p.apply_steps@.len() == 0 && p.rollback_steps@.len() == 0 && p.remove_steps@.len() == 0
    }
}

/// A step as plain values: whether it adds its rule, and the rule.
pub open spec fn step_view(s: FirewallStep) -> (bool, RuleView) {
    (s is AddRule, rule_view(step_rule(s)))
}

pub open spec fn steps_view(steps: Seq<FirewallStep>) -> Seq<(bool, RuleView)> {
    steps.map_values(|s: FirewallStep| step_view(s))
}

/// An ownership record as plain values.
pub open spec fn ownership_view(o: KillSwitchOwnership) -> (
    Seq<char>,
    Seq<char>,
    DnsConfigRevision,
    DnsConfigFingerprint,
    FirewallPlatform,
    Seq<Seq<char>>,
) {
    (o.installation_id@, o.instance_id@, o.revision, o.fingerprint, o.platform, view_strings(o.rule_ids@))
}

/// A plan as plain values: its ownership record, its platform and its
/// apply, rollback and remove steps.
pub open spec fn plan_view(p: KillSwitchPlan) -> (
    (Seq<char>, Seq<char>, DnsConfigRevision, DnsConfigFingerprint, FirewallPlatform, Seq<Seq<char>>),
    FirewallPlatform,
    Seq<(bool, RuleView)>,
    Seq<(bool, RuleView)>,
    Seq<(bool, RuleView)>,
) {
    (ownership_view(p.ownership), p.platform, steps_view(p.apply_steps@), steps_view(p.rollback_steps@), steps_view(p.remove_steps@))
}

/// A kill switch plan is determined by what it is built from: two plans
/// built from the same installation, instance, revision, fingerprint,
/// platform and setting are the same plan.
pub proof fn lemma_kill_switch_plan_determined(
    p1: KillSwitchPlan,
    p2: KillSwitchPlan,
    inst: Seq<char>,
    instance: Seq<char>,
    revision: DnsConfigRevision,
    fingerprint: DnsConfigFingerprint,
    platform: FirewallPlatform,
    enabled: bool,
)
    requires
        plan_fits(p1, inst, instance, revision, fingerprint, platform, enabled),
        plan_fits(p2, inst, instance, revision, fingerprint, platform, enabled),
    ensures
        plan_view(p1) == plan_view(p2),
{
    if enabled {
        assert forall|i: int| 0 <= i < 4 implies step_view(#[trigger] p1.apply_steps@[i]) == step_view(
            p2.apply_steps@[i],
        ) by {
            assert(p1.apply_steps@[i] matches FirewallStep::AddRule(_));
            assert(p2.apply_steps@[i] matches FirewallStep::AddRule(_));
        }
        assert forall|i: int| 0 <= i < 4 implies step_view(#[trigger] p1.rollback_steps@[i]) == step_view(
            p2.rollback_steps@[i],
        ) by {
            assert(p1.apply_steps@[3 - i] matches FirewallStep::AddRule(_));
            assert(p2.apply_steps@[3 - i] matches FirewallStep::AddRule(_));
            assert(step_view(p1.apply_steps@[3 - i]) == step_view(p2.apply_steps@[3 - i]));
        }
        assert(steps_view(p1.apply_steps@) =~= steps_view(p2.apply_steps@));
        assert(steps_view(p1.rollback_steps@) =~= steps_view(p2.rollback_steps@));
    } else {
        assert(steps_view(p1.apply_steps@) =~= steps_view(p2.apply_steps@));
        assert(steps_view(p1.rollback_steps@) =~= steps_view(p2.rollback_steps@));
        assert(steps_view(p1.remove_steps@) =~= steps_view(p2.remove_steps@));
    }
}

/// Rebuilding an enabled kill switch plan from its own ownership record
/// gives the same plan, on the same platform.
pub proof fn lemma_rebuilt_plan_is_original(
    built: KillSwitchPlan,
    rebuilt: KillSwitchPlan,
    inst: Seq<char>,
    instance: Seq<char>,
    revision: DnsConfigRevision,
    fingerprint: DnsConfigFingerprint,
    platform: FirewallPlatform,
)
    requires
        plan_fits(built, inst, instance, revision, fingerprint, platform, true),
        plan_fits(
            rebuilt,
            built.ownership.installation_id@,
            built.ownership.instance_id@,
            built.ownership.revision,
            built.ownership.fingerprint,
            built.ownership.platform,
            true,
        ),
    ensures
        plan_view(rebuilt) == plan_view(built),
        rebuilt.platform == platform,
        rebuilt.ownership.platform == platform,
{
    lemma_kill_switch_plan_determined(built, rebuilt, inst, instance, revision, fingerprint, platform, true);
}

/// The first `n` bytes of `s`, for a cut that does not split a character.
fn byte_prefix_of(s: &str, n: usize) -> (r: String)
    requires
        cuts_cleanly(s@, n as nat),
    ensures
        r@ == byte_prefix(s@, n as nat),
{
    let byte_len = s.as_bytes().len();
    let m = if byte_len < n { byte_len } else { n };
    let (a, _) = s.split_at(m);
    proof {
        vstd::utf8::encode_utf8_decode_utf8(a@);
    }
    to_string(a)
}

fn clone_rule(r: &FirewallRuleSpec) -> (c: FirewallRuleSpec)
    ensures
        c == *r,
{
    FirewallRuleSpec {
        name: r.name.clone(),
        direction: r.direction.clone(),
        action: r.action.clone(),
        protocol: r.protocol.clone(),
        port: r.port,
        remote_ip: match &r.remote_ip {
            Some(s) => Some(s.clone()),
            None => None,
        },
        comment: match &r.comment {
            Some(s) => Some(s.clone()),
            None => None,
        },
    }
}

/// A copy of `step`.
pub fn clone_step(step: &FirewallStep) -> (c: FirewallStep)
    ensures
        c == *step,
{
    match step {
        FirewallStep::AddRule(r) => FirewallStep::AddRule(clone_rule(r)),
        FirewallStep::RemoveRule(r) => FirewallStep::RemoveRule(clone_rule(r)),
    }
}

/// The step that undoes `step`.
pub fn inverse(step: &FirewallStep) -> (r: FirewallStep)
    ensures
        r == inverse_step(*step),
{
    match step {
        FirewallStep::AddRule(spec) => FirewallStep::RemoveRule(clone_rule(spec)),
        FirewallStep::RemoveRule(spec) => FirewallStep::AddRule(clone_rule(spec)),
    }
}

fn make_rule(name: &String, action: &str, protocol: &str, remote_ip: Option<&str>, comment: &String) -> (r:
    FirewallRuleSpec)
    ensures
        r.name == *name,
        r.direction@ == "out"@,
        r.action@ == action@,
        r.protocol@ == protocol@,
        r.port == 53,
        opt_text(r.remote_ip) == (match remote_ip {
            Some(ip) => Some(ip@),
            None => None,
        }),
        opt_text(r.comment) == Some(comment@),
{
    FirewallRuleSpec {
        name: name.clone(),
        direction: to_string("out"),
        action: to_string(action),
        protocol: to_string(protocol),
        port: 53,
        remote_ip: match remote_ip {
            Some(ip) => Some(to_string(ip)),
            None => None,
        },
        comment: Some(comment.clone()),
    }
}

/// The kill switch plan for an installation, engine instance and DNS
/// revision: four rules named after them, added in order and removed in
/// the reverse order; a disabled kill switch has no steps.
pub fn build_kill_switch_plan(
    installation_id: &str,
    instance_id: &str,
    revision: DnsConfigRevision,
    fingerprint: &DnsConfigFingerprint,
    platform: FirewallPlatform,
    enabled: bool,
) -> (p: KillSwitchPlan)
    requires
        cuts_cleanly(installation_id@, 8),
        cuts_cleanly(instance_id@, 8),
    ensures
        plan_fits(p, installation_id@, instance_id@, revision, *fingerprint, platform, enabled),
{
    let inst_prefix = byte_prefix_of(installation_id, 8);
    let instance_prefix = byte_prefix_of(instance_id, 8);
    let rev_num = u64_to_decimal(revision.get());
    let head = concat("Vane-DNS-", inst_prefix.as_str());
    let head = concat(head.as_str(), "-");
    let head = concat(head.as_str(), instance_prefix.as_str());
    let head = concat(head.as_str(), "-r");
    let head = concat(head.as_str(), rev_num.as_str());
    let head = concat(head.as_str(), "-");
    let n0 = concat(head.as_str(), "AllowUDP");
    let n1 = concat(head.as_str(), "AllowTCP");
    let n2 = concat(head.as_str(), "UDP53");
    let n3 = concat(head.as_str(), "TCP53");
    let ghost names = rule_names(installation_id@, instance_id@, revision.0);
    proof {
        assert(n0@ =~= names[0]);
        assert(n1@ =~= names[1]);
        assert(n2@ =~= names[2]);
        assert(n3@ =~= names[3]);
    }
    let mut rule_ids: Vec<String> = Vec::new();
    rule_ids.push(n0.clone());
    rule_ids.push(n1.clone());
    rule_ids.push(n2.clone());
    rule_ids.push(n3.clone());
    proof {
        assert(view_strings(rule_ids@) =~= names);
    }
    let ownership = KillSwitchOwnership {
        installation_id: to_string(installation_id),
        instance_id: to_string(instance_id),
        revision,
        fingerprint: DnsConfigFingerprint(fingerprint.0.clone()),
        platform,
        rule_ids,
    };
    if !enabled {
        return KillSwitchPlan {
            ownership,
            platform,
            apply_steps: Vec::new(),
            rollback_steps: Vec::new(),
            remove_steps: Vec::new(),
        };
    }
    let comment = concat("Vane DNS KillSwitch inst=", inst_prefix.as_str());
    let comment = concat(comment.as_str(), " rev=");
    let comment = concat(comment.as_str(), rev_num.as_str());
    proof {
        assert(comment@ =~= kill_switch_comment(installation_id@, revision.0));
    }
    let r0 = make_rule(&n0, "allow", "UDP", Some("127.0.0.1"), &comment);
    let r1 = make_rule(&n1, "allow", "TCP", Some("127.0.0.1"), &comment);
    let r2 = make_rule(&n2, "block", "UDP", None, &comment);
    let r3 = make_rule(&n3, "block", "TCP", None, &comment);
    let mut apply_steps: Vec<FirewallStep> = Vec::new();
    apply_steps.push(FirewallStep::AddRule(clone_rule(&r0)));
    apply_steps.push(FirewallStep::AddRule(clone_rule(&r1)));
    apply_steps.push(FirewallStep::AddRule(clone_rule(&r2)));
    apply_steps.push(FirewallStep::AddRule(clone_rule(&r3)));
    let mut rollback_steps: Vec<FirewallStep> = Vec::new();
    rollback_steps.push(FirewallStep::RemoveRule(clone_rule(&r3)));
    rollback_steps.push(FirewallStep::RemoveRule(clone_rule(&r2)));
    rollback_steps.push(FirewallStep::RemoveRule(clone_rule(&r1)));
    rollback_steps.push(FirewallStep::RemoveRule(r0));
    let mut remove_steps: Vec<FirewallStep> = Vec::new();
    remove_steps.push(FirewallStep::RemoveRule(clone_rule(&r3)));
    remove_steps.push(FirewallStep::RemoveRule(clone_rule(&r2)));
    remove_steps.push(FirewallStep::RemoveRule(r1));
    remove_steps.push(clone_step(&rollback_steps[3]));
    proof {
        assert(remove_steps@ =~= rollback_steps@);
        assert forall|i: int| 0 <= i < 4 implies ((#[trigger] apply_steps@[i]) matches FirewallStep::AddRule(r)
            && rule_view(r) == kill_switch_rule(installation_id@, instance_id@, revision.0, i)) by {
            reveal_strlit("allow");
            reveal_strlit("block");
            reveal_strlit("UDP");
            reveal_strlit("TCP");
        }
    }
    KillSwitchPlan { ownership, platform, apply_steps, remove_steps, rollback_steps }
}

/// The full plan again, from the ownership that was saved with it.
pub fn rebuild_owned_kill_switch_plan(ownership: &KillSwitchOwnership) -> (p: KillSwitchPlan)
    requires
        cuts_cleanly(ownership.installation_id@, 8),
        cuts_cleanly(ownership.instance_id@, 8),
    ensures
        plan_fits(
            p,
            ownership.installation_id@,
            ownership.instance_id@,
            ownership.revision,
            ownership.fingerprint,
            ownership.platform,
            true,
        ),
{
    build_kill_switch_plan(
        ownership.installation_id.as_str(),
        ownership.instance_id.as_str(),
        ownership.revision,
        &ownership.fingerprint,
        ownership.platform,
        true,
    )
}

#[derive(Debug, Clone, PartialEq, Eq)]
pub struct FirewallCommandSpec {
    pub program: String,
    pub args: Vec<String>,
}

#[derive(Debug, Clone, PartialEq, Eq)]
pub struct FirewallCommandOutput {
    pub exit_code: Option<i32>,
    pub stdout: Vec<u8>,
    pub stderr: Vec<u8>,
}

#[derive(Debug, Clone, PartialEq, Eq)]
pub enum FirewallCommandRunError {
    Io(String),
}

impl FirewallCommandRunError {
    /// The error's message, as its `Display` prints it.
    pub fn message(&self) -> (s: String)
        ensures
            s@ == (match *self {
                FirewallCommandRunError::Io(m) => "spawn/wait failed: "@ + m@,
            }),
    {
        match self {
            FirewallCommandRunError::Io(m) => concat("spawn/wait failed: ", m.as_str()),
        }
    }
}

/// Runs firewall commands; the system's runner starts the program.
pub trait FirewallCommandRunner {
    fn run(&self, command: &FirewallCommandSpec) -> Result<FirewallCommandOutput, FirewallCommandRunError>;
}

#[derive(Debug, Clone, PartialEq, Eq)]
pub enum FirewallExecutionError {
    CommandFailed(String),
    PartialApplyFailed { step_index: usize, reason: String },
    PartialApplyRollbackFailed { step_index: usize, apply_reason: String, rollback_failures: Vec<String> },
    RemovalFailed { failures: Vec<String> },
    MetadataTransactionFailed(String),
}

/// How `{:?}` prints a string: quoted, with escapes.
pub uninterp spec fn debug_str_text(s: Seq<char>) -> Seq<char>;

/// How `{:?}` prints a list of strings.
pub uninterp spec fn debug_strings_text(v: Seq<Seq<char>>) -> Seq<char>;

/// What `String::from_utf8_lossy` makes of bytes.
pub uninterp spec fn utf8_lossy(bytes: Seq<u8>) -> Seq<char>;

/// `format!("{:?}", s)` for a string. Its escaping rules are the standard
/// library's; the result is named.
#[verifier::external_body]
pub(crate) fn debug_str(s: &str) -> (r: String)
    ensures
        r@ == debug_str_text(s@),
{
    format!("{:?}", s)
}

/// `format!("{:?}", v)` for a list of strings; the result is named.
#[verifier::external_body]
fn debug_strings(v: &Vec<String>) -> (r: String)
    ensures
        r@ == debug_strings_text(view_strings(v@)),
{
    format!("{:?}", v)
}

/// `String::from_utf8_lossy`: the text the bytes encode, with each
/// invalid sequence replaced. Its result is named; for valid UTF-8 it is
/// what the bytes decode to, as the documentation says.
#[verifier::external_body]
pub(crate) fn from_utf8_lossy(bytes: &[u8]) -> (r: String)
    ensures
        r@ == utf8_lossy(bytes@),
        vstd::utf8::valid_utf8(bytes@) ==> r@ == decode_utf8(bytes@),
{
    String::from_utf8_lossy(bytes).into_owned()
}

pub open spec fn firewall_error_text(e: FirewallExecutionError) -> Seq<char> {
    match e {
        FirewallExecutionError::CommandFailed(m) => "Firewall command failed: "@ + m@,
        FirewallExecutionError::PartialApplyFailed { step_index, reason } => "Partial apply failed at step "@
            + decimal(step_index as nat) + ": "@ + reason@,
        FirewallExecutionError::PartialApplyRollbackFailed { step_index, apply_reason, rollback_failures } =>
            "Partial apply failed at step "@ + decimal(step_index as nat) + ": "@ + apply_reason@
                + "; rollback failures: "@ + debug_strings_text(view_strings(rollback_failures@)),
        FirewallExecutionError::RemovalFailed { failures } => "Firewall removal failed: "@ + debug_strings_text(
            view_strings(failures@),
        ),
        FirewallExecutionError::MetadataTransactionFailed(m) => "Firewall metadata transaction failed: "@ + m@,
    }
}

impl FirewallExecutionError {
    /// The error's message, as its `Display` prints it.
    pub fn message(&self) -> (s: String)
        ensures
            s@ == firewall_error_text(*self),
    {
        match self {
            FirewallExecutionError::CommandFailed(m) => concat("Firewall command failed: ", m.as_str()),
            FirewallExecutionError::PartialApplyFailed { step_index, reason } => {
                let s = concat("Partial apply failed at step ", u64_to_decimal(*step_index as u64).as_str());
                let s = concat(s.as_str(), ": ");
                concat(s.as_str(), reason.as_str())
            },
            FirewallExecutionError::PartialApplyRollbackFailed { step_index, apply_reason, rollback_failures } => {
                let s = concat("Partial apply failed at step ", u64_to_decimal(*step_index as u64).as_str());
                let s = concat(s.as_str(), ": ");
                let s = concat(s.as_str(), apply_reason.as_str());
                let s = concat(s.as_str(), "; rollback failures: ");
                concat(s.as_str(), debug_strings(rollback_failures).as_str())
            },
            FirewallExecutionError::RemovalFailed { failures } => concat(
                "Firewall removal failed: ",
                debug_strings(failures).as_str(),
            ),
            FirewallExecutionError::MetadataTransactionFailed(m) => concat(
                "Firewall metadata transaction failed: ",
                m.as_str(),
            ),
        }
    }
}

pub open spec fn rule_valid(r: FirewallRuleSpec) -> bool {
    &&& r.direction@ == "out"@
    &&& (r.action@ == "allow"@ || r.action@ == "block"@)
    &&& (r.protocol@ == "UDP"@ || r.protocol@ == "TCP"@)
    &&& r.port != 0
}

pub open spec fn invalid_rule_message() -> Seq<char> {
    "Invalid firewall rule specification"@
}

/// Accepts outbound allow or block rules for UDP or TCP on a nonzero port.
pub fn validate_spec(spec: &FirewallRuleSpec) -> (r: Result<(), FirewallExecutionError>)
    ensures
        r is Ok <==> rule_valid(*spec),
        r matches Err(e) ==> (e matches FirewallExecutionError::CommandFailed(m) && m@ == invalid_rule_message()),
{
    if !str_eq(spec.direction.as_str(), "out") || !(str_eq(spec.action.as_str(), "allow") || str_eq(
        spec.action.as_str(),
        "block",
    )) || !(str_eq(spec.protocol.as_str(), "UDP") || str_eq(spec.protocol.as_str(), "TCP")) || spec.port == 0 {
        return Err(FirewallExecutionError::CommandFailed(to_string("Invalid firewall rule specification")));
    }
    Ok(())
}

/// The program and arguments that carry out a step: `netsh advfirewall`
/// on Windows, `iptables` on Linux.
pub open spec fn step_command(platform: FirewallPlatform, step: FirewallStep) -> (Seq<char>, Seq<Seq<char>>) {
    let r = step_rule(step);
    let port = decimal(r.port as nat);
    match (platform, step) {
        (FirewallPlatform::Windows, FirewallStep::AddRule(_)) => (
            "netsh"@,
            seq![
                "advfirewall"@,
                "firewall"@,
                "add"@,
                "rule"@,
                "name="@ + r.name@,
                "dir="@ + r.direction@,
                "action="@ + r.action@,
                "protocol="@ + r.protocol@,
                "remoteport="@ + port,
            ] + (match r.remote_ip {
                Some(ip) => seq!["remoteip="@ + ip@],
                None => Seq::empty(),
            }),
        ),
        (FirewallPlatform::Windows, FirewallStep::RemoveRule(_)) => (
            "netsh"@,
            seq!["advfirewall"@, "firewall"@, "delete"@, "rule"@, "name="@ + r.name@],
        ),
        (FirewallPlatform::Linux, _) => (
            "iptables"@,
            seq![
                if step is AddRule { "-A"@ } else { "-D"@ },
                "OUTPUT"@,
                "-p"@,
                r.protocol@,
                "--dport"@,
                port,
            ] + (match r.remote_ip {
                Some(ip) => seq!["-d"@, ip@],
                None => Seq::empty(),
            }) + seq!["-j"@, if r.action@ == "allow"@ { "ACCEPT"@ } else { "DROP"@ }],
        ),
    }
}

fn push_str(v: &mut Vec<String>, s: String)
    ensures
        view_strings(final(v)@) == view_strings(old(v)@).push(s@),
{
    let ghost before = view_strings(v@);
    v.push(s);
    proof {
        assert(view_strings(v@) =~= before.push(s@));
    }
}

/// The command for `step` on `platform`, for a valid rule.
pub fn command_for(platform: FirewallPlatform, step: &FirewallStep) -> (r: Result<
    FirewallCommandSpec,
    FirewallExecutionError,
>)
    ensures
        match r {
            Ok(c) => rule_valid(step_rule(*step)) && (c.program@, view_strings(c.args@)) == step_command(
                platform,
                *step,
            ),
            Err(e) => !rule_valid(step_rule(*step)) && (e matches FirewallExecutionError::CommandFailed(m) && m@
                == invalid_rule_message()),
        },
{
    let spec = match step {
        FirewallStep::AddRule(spec) => spec,
        FirewallStep::RemoveRule(spec) => spec,
    };
    match validate_spec(spec) {
        Err(e) => {
            return Err(e);
        },
        Ok(()) => {},
    }
    let ghost expected = step_command(platform, *step);
    let port = u64_to_decimal(spec.port as u64);
    let is_add = match step {
        FirewallStep::AddRule(_) => true,
        FirewallStep::RemoveRule(_) => false,
    };
    let mut args: Vec<String> = Vec::new();
    match platform {
        FirewallPlatform::Windows => {
            push_str(&mut args, to_string("advfirewall"));
            push_str(&mut args, to_string("firewall"));
            push_str(&mut args, to_string(if is_add { "add" } else { "delete" }));
            push_str(&mut args, to_string("rule"));
            push_str(&mut args, concat("name=", spec.name.as_str()));
            if is_add {
                push_str(&mut args, concat("dir=", spec.direction.as_str()));
                push_str(&mut args, concat("action=", spec.action.as_str()));
                push_str(&mut args, concat("protocol=", spec.protocol.as_str()));
                push_str(&mut args, concat("remoteport=", port.as_str()));
                match &spec.remote_ip {
                    Some(ip) => push_str(&mut args, concat("remoteip=", ip.as_str())),
                    None => {},
                }
            }
            proof {
                assert(view_strings(args@) =~= expected.1);
            }
            Ok(FirewallCommandSpec { program: to_string("netsh"), args })
        },
        FirewallPlatform::Linux => {
            push_str(&mut args, to_string(if is_add { "-A" } else { "-D" }));
            push_str(&mut args, to_string("OUTPUT"));
            push_str(&mut args, to_string("-p"));
            push_str(&mut args, spec.protocol.clone());
            push_str(&mut args, to_string("--dport"));
            push_str(&mut args, port);
            match &spec.remote_ip {
                Some(ip) => {
                    push_str(&mut args, to_string("-d"));
                    push_str(&mut args, ip.clone());
                },
                None => {},
            }
            push_str(&mut args, to_string("-j"));
            push_str(&mut args, to_string(if str_eq(spec.action.as_str(), "allow") { "ACCEPT" } else { "DROP" }));
            proof {
                assert(view_strings(args@) =~= expected.1);
            }
            Ok(FirewallCommandSpec { program: to_string("iptables"), args })
        },
    }
}

/// `stderr` as text with control characters blanked, cut to 512
/// characters and trimmed.
pub open spec fn stderr_summary_text(stderr: Seq<u8>) -> Seq<char> {
    let t = utf8_lossy(stderr).map_values(|c: char| if is_control(c) { ' ' } else { c });
    trim(t.take(if t.len() < 512 { t.len() as int } else { 512 }))
}

pub fn stderr_summary(stderr: &[u8]) -> (s: String)
    ensures
        s@ == stderr_summary_text(stderr@),
{
    let text = from_utf8_lossy(stderr);
    let v = chars_of(text.as_str());
    let ghost mapped = v@.map_values(|c: char| if is_control(c) { ' ' } else { c });
    let n = if v.len() < STDERR_LIMIT { v.len() } else { STDERR_LIMIT };
    let mut out: Vec<char> = Vec::new();
    let mut i: usize = 0;
    while i < n
        invariant
            i <= n <= v@.len(),
            mapped == v@.map_values(|c: char| if is_control(c) { ' ' } else { c }),
            out@ == mapped.take(i as int),
        decreases n - i,
    {
        let c = v[i];
        let blank = (c as u32) < 0x20 || (0x7f <= (c as u32) && (c as u32) < 0xa0);
        out.push(if blank { ' ' } else { c });
        proof {
            assert(mapped.take(i + 1) =~= mapped.take(i as int).push(mapped[i as int]));
        }
        i += 1;
    }
    let (lo, hi) = trim_bounds(&out, 0, out.len());
    proof {
        assert(out@.subrange(0, out@.len() as int) =~= out@);
    }
    string_of_range(&out, lo, hi)
}

pub open spec fn int_text(i: i32) -> Seq<char> {
    if i < 0 {
        "-"@ + decimal((-(i as int)) as nat)
    } else {
        decimal(i as nat)
    }
}

fn i32_to_decimal(i: i32) -> (s: String)
    ensures
        s@ == int_text(i),
{
    if i < 0 {
        let magnitude = (-(i as i64)) as u64;
        concat("-", u64_to_decimal(magnitude).as_str())
    } else {
        u64_to_decimal(i as u64)
    }
}

pub open spec fn platform_debug_text(p: FirewallPlatform) -> Seq<char> {
    match p {
        FirewallPlatform::Windows => "Windows"@,
        FirewallPlatform::Linux => "Linux"@,
    }
}

/// What a failed command's message begins with.
pub open spec fn command_context(platform: FirewallPlatform, step: FirewallStep, program: Seq<char>, args: Seq<
    Seq<char>,
>) -> Seq<char> {
    "operation="@ + (if step is AddRule { "add"@ } else { "remove"@ }) + " platform="@ + platform_debug_text(platform)
        + " rule="@ + debug_str_text(step_rule(step).name@) + " program="@ + program + " args="@
        + debug_strings_text(args)
}

/// The outcome of running a step's command: success exactly on exit code
/// 0, otherwise a failure that says what ran and how it ended.
pub open spec fn run_outcome(
    platform: FirewallPlatform,
    step: FirewallStep,
    command: FirewallCommandSpec,
    run: Result<FirewallCommandOutput, FirewallCommandRunError>,
) -> Result<(), Seq<char>> {
    let context = command_context(platform, step, command.program@, view_strings(command.args@));
    match run {
        Err(FirewallCommandRunError::Io(m)) => Err(context + " io_error="@ + "spawn/wait failed: "@ + m@),
        Ok(out) => match out.exit_code {
            Some(code) => if code == 0 {
                Ok(())
            } else {
                Err(context + " exit_code="@ + int_text(code) + " stderr="@ + debug_str_text(
                    stderr_summary_text(out.stderr@),
                ))
            },
            None => Err(context + " exit_code=signal stderr="@ + debug_str_text(stderr_summary_text(out.stderr@))),
        },
    }
}

/// Turns what running a step's command gave into the step's result.
pub fn execution_outcome(
    platform: FirewallPlatform,
    step: &FirewallStep,
    command: &FirewallCommandSpec,
    run: Result<FirewallCommandOutput, FirewallCommandRunError>,
) -> (r: Result<(), FirewallExecutionError>)
    ensures
        match (r, run_outcome(platform, *step, *command, run)) {
            (Ok(()), Ok(())) => true,
            (Err(FirewallExecutionError::CommandFailed(m)), Err(t)) => m@ == t,
            _ => false,
        },
{
    let rule = match step {
        FirewallStep::AddRule(s) => s,
        FirewallStep::RemoveRule(s) => s,
    };
    let operation = match step {
        FirewallStep::AddRule(_) => "add",
        FirewallStep::RemoveRule(_) => "remove",
    };
    let platform_text = match platform {
        FirewallPlatform::Windows => "Windows",
        FirewallPlatform::Linux => "Linux",
    };
    let c = concat("operation=", operation);
    let c = concat(c.as_str(), " platform=");
    let c = concat(c.as_str(), platform_text);
    let c = concat(c.as_str(), " rule=");
    let c = concat(c.as_str(), debug_str(rule.name.as_str()).as_str());
    let c = concat(c.as_str(), " program=");
    let c = concat(c.as_str(), command.program.as_str());
    let c = concat(c.as_str(), " args=");
    let context = concat(c.as_str(), debug_strings(&command.args).as_str());
    proof {
        assert(context@ =~= command_context(platform, *step, command.program@, view_strings(command.args@)));
    }
    match run {
        Err(FirewallCommandRunError::Io(m)) => {
            let s = concat(context.as_str(), " io_error=");
            let s = concat(s.as_str(), "spawn/wait failed: ");
            let s = concat(s.as_str(), m.as_str());
            Err(FirewallExecutionError::CommandFailed(s))
        },
        Ok(out) => match out.exit_code {
            Some(code) => if code == 0 {
                Ok(())
            } else {
                let s = concat(context.as_str(), " exit_code=");
                let s = concat(s.as_str(), i32_to_decimal(code).as_str());
                let s = concat(s.as_str(), " stderr=");
                let summary = stderr_summary(out.stderr.as_slice());
                Err(FirewallExecutionError::CommandFailed(concat(s.as_str(), debug_str(summary.as_str()).as_str())))
            },
            None => {
                let s = concat(context.as_str(), " exit_code=signal stderr=");
                let summary = stderr_summary(out.stderr.as_slice());
                Err(FirewallExecutionError::CommandFailed(concat(s.as_str(), debug_str(summary.as_str()).as_str())))
            },
        },
    }
}

/// Carries out firewall steps, keeping a record of each step it was given
/// and the result.
pub trait FirewallExecutor {
    open spec fn executed(&self) -> Seq<(FirewallStep, Result<(), FirewallExecutionError>)> {
        Seq::empty()
    }

    fn execute(&mut self, step: &FirewallStep) -> (r: Result<(), FirewallExecutionError>)
        ensures
            final(self).executed() == old(self).executed().push((*step, r)),
    ;
}

/// The executor that runs the platform's firewall commands through a
/// command runner.
pub struct SystemFirewallExecutor<R: FirewallCommandRunner> {
    platform: FirewallPlatform,
    runner: R,
    log: Ghost<Seq<(FirewallStep, Result<(), FirewallExecutionError>)>>,
    runs: Ghost<Seq<(FirewallCommandSpec, Result<FirewallCommandOutput, FirewallCommandRunError>)>>,
}

impl<R: FirewallCommandRunner> SystemFirewallExecutor<R> {
    pub closed spec fn platform_spec(&self) -> FirewallPlatform {
        self.platform
    }

    /// Each command handed to the runner, with what the runner returned.
    pub closed spec fn runs(&self) -> Seq<(FirewallCommandSpec, Result<FirewallCommandOutput, FirewallCommandRunError>)> {
        self.runs@
    }

    pub fn new(platform: FirewallPlatform, runner: R) -> (e: Self)
        ensures
            e.platform_spec() == platform,
            e.executed() == Seq::<(FirewallStep, Result<(), FirewallExecutionError>)>::empty(),
            e.runs() == Seq::<(FirewallCommandSpec, Result<FirewallCommandOutput, FirewallCommandRunError>)>::empty(),
    {
        SystemFirewallExecutor { platform, runner, log: Ghost(Seq::empty()), runs: Ghost(Seq::empty()) }
    }
}

impl<R: FirewallCommandRunner> FirewallExecutor for SystemFirewallExecutor<R> {
    closed spec fn executed(&self) -> Seq<(FirewallStep, Result<(), FirewallExecutionError>)> {
        self.log@
    }

    /// Runs the step's command; an invalid rule runs nothing and is refused
    /// as `command_for` refuses it. Otherwise the runner is given the
    /// step's command once, and the result is `run_outcome` of its reply.
    fn execute(&mut self, step: &FirewallStep) -> (r: Result<(), FirewallExecutionError>)
        ensures
            final(self).platform_spec() == old(self).platform_spec(),
            !rule_valid(step_rule(*step)) ==> final(self).runs() == old(self).runs() && (r matches Err(
                FirewallExecutionError::CommandFailed(m),
            ) && m@ == invalid_rule_message()),
            rule_valid(step_rule(*step)) ==> final(self).runs().len() == old(self).runs().len() + 1
                && final(self).runs().drop_last() == old(self).runs() && ({
                let (command, reply) = final(self).runs().last();
                &&& (command.program@, view_strings(command.args@)) == step_command(old(self).platform_spec(), *step)
                &&& match (r, run_outcome(old(self).platform_spec(), *step, command, reply)) {
                    (Ok(()), Ok(())) => true,
                    (Err(FirewallExecutionError::CommandFailed(m)), Err(t)) => m@ == t,
                    _ => false,
                }
            }),
            r is Ok ==> rule_valid(step_rule(*step)),
    {
        let r = match command_for(self.platform, step) {
            Err(e) => Err(e),
            Ok(command) => {
                let run = self.runner.run(&command);
                let ghost reply = run;
                let ghost spec_command = command;
                let outcome = execution_outcome(self.platform, step, &command, run);
                self.runs = Ghost(self.runs@.push((spec_command, reply)));
                proof {
                    assert(self.runs@.drop_last() =~= old(self).runs@);
                }
                outcome
            },
        };
        self.log = Ghost(self.log@.push((*step, r)));
        r
    }
}

/// The messages of the failed records, in order.
pub open spec fn error_texts(rs: Seq<(FirewallStep, Result<(), FirewallExecutionError>)>) -> Seq<Seq<char>>
    decreases rs.len(),
{
    if rs.len() == 0 {
        seq![]
    } else {
        error_texts(rs.drop_last()) + (match rs.last().1 {
            Err(e) => seq![firewall_error_text(e)],
            Ok(_) => Seq::empty(),
        })
    }
}

/// The steps that undo `applied`, last applied first.
pub open spec fn rollback_of(applied: Seq<FirewallStep>) -> Seq<FirewallStep> {
    applied.reverse().map_values(|s: FirewallStep| inverse_step(s))
}

pub open spec fn records_steps(rs: Seq<(FirewallStep, Result<(), FirewallExecutionError>)>) -> Seq<FirewallStep> {
    rs.map_values(|r: (FirewallStep, Result<(), FirewallExecutionError>)| r.0)
}

/// The records of running `steps` one after the other, all successful.
pub open spec fn ran_ok(rs: Seq<(FirewallStep, Result<(), FirewallExecutionError>)>, steps: Seq<FirewallStep>) -> bool {
    &&& rs.len() == steps.len()
    &&& forall|t: int| 0 <= t < rs.len() ==> (#[trigger] rs[t]).0 == steps[t] && rs[t].1 is Ok
}

pub open spec fn failed_index(e: FirewallExecutionError) -> int {
    match e {
        FirewallExecutionError::PartialApplyFailed { step_index, .. } => step_index as int,
        FirewallExecutionError::PartialApplyRollbackFailed { step_index, .. } => step_index as int,
        _ => -1,
    }
}

/// Applying failed at step `i`: the steps before it succeeded, step `i`
/// failed, and then the succeeded steps were undone, the last one first,
/// each undo attempted whatever the others gave. The error carries step
/// `i`'s failure and the failures of the undo.
pub open spec fn apply_failed_at(
    rs: Seq<(FirewallStep, Result<(), FirewallExecutionError>)>,
    apply: Seq<FirewallStep>,
    i: int,
    e: FirewallExecutionError,
) -> bool {
    let reason = firewall_error_text(rs[i].1->Err_0);
    let failures = error_texts(rs.subrange(i + 1, rs.len() as int));
    &&& 0 <= i < apply.len()
    &&& rs.len() == 2 * i + 1
    &&& ran_ok(rs.take(i), apply.take(i))
    &&& rs[i].0 == apply[i] && rs[i].1 is Err
    &&& records_steps(rs.subrange(i + 1, rs.len() as int)) == rollback_of(apply.take(i))
    &&& if failures.len() == 0 {
        e matches FirewallExecutionError::PartialApplyFailed { step_index, reason: m } && step_index == i && m@
            == reason
    } else {
        e matches FirewallExecutionError::PartialApplyRollbackFailed { step_index, apply_reason, rollback_failures }
            && step_index == i && apply_reason@ == reason && view_strings(rollback_failures@) == failures
    }
}

pub open spec fn extends<A>(later: Seq<A>, earlier: Seq<A>) -> bool {
    later.len() >= earlier.len() && later.take(earlier.len() as int) == earlier
}

pub open spec fn added<A>(later: Seq<A>, earlier: Seq<A>) -> Seq<A> {
    later.subrange(earlier.len() as int, later.len() as int)
}

proof fn lemma_error_texts_push(
    rs: Seq<(FirewallStep, Result<(), FirewallExecutionError>)>,
    x: (FirewallStep, Result<(), FirewallExecutionError>),
)
    ensures
        error_texts(rs.push(x)) == error_texts(rs) + (match x.1 {
            Err(e) => seq![firewall_error_text(e)],
            Ok(_) => Seq::empty(),
        }),
{
    assert(rs.push(x).drop_last() =~= rs);
}

/// Applies the plan's steps in order. On the first failure the steps
/// applied so far are undone, the last one first, and the failure is
/// reported with every failure of the undo.
pub fn execute_firewall_plan<E: FirewallExecutor>(executor: &mut E, plan: &KillSwitchPlan) -> (r: Result<
    Vec<FirewallStep>,
    FirewallExecutionError,
>)
    ensures
        extends(final(executor).executed(), old(executor).executed()),
        match r {
            Ok(applied) => applied@ == plan.apply_steps@ && ran_ok(
                added(final(executor).executed(), old(executor).executed()),
                plan.apply_steps@,
            ),
            Err(e) => apply_failed_at(
                added(final(executor).executed(), old(executor).executed()),
                plan.apply_steps@,
                failed_index(e),
                e,
            ),
        },
{
    let ghost start = executor.executed();
    let ghost apply = plan.apply_steps@;
    let mut applied: Vec<FirewallStep> = Vec::new();
    let mut k: usize = 0;
    proof {
        assert(executor.executed().take(start.len() as int) =~= start);
    }
    while k < plan.apply_steps.len()
        invariant
            k <= apply.len(),
            start == old(executor).executed(),
            apply == plan.apply_steps@,
            applied@ == apply.take(k as int),
            executor.executed().len() == start.len() + k,
            executor.executed().take(start.len() as int) == start,
            ran_ok(added(executor.executed(), start), apply.take(k as int)),
        decreases plan.apply_steps.len() - k,
    {
        let ghost before = executor.executed();
        let result = executor.execute(&plan.apply_steps[k]);
        proof {
            assert(executor.executed().take(start.len() as int) =~= before.take(start.len() as int));
            assert(added(executor.executed(), start) =~= added(before, start).push((apply[k as int], result)));
        }
        match result {
            Err(error) => {
                let apply_reason = error.message();
                let mut failures: Vec<String> = Vec::new();
                let ghost failed_len = executor.executed().len();
                let mut j: usize = k;
                proof {
                    assert(added(executor.executed(), start).subrange(k + 1, k + 1) =~= Seq::<
                        (FirewallStep, Result<(), FirewallExecutionError>),
                    >::empty());
                }
                while j > 0
                    invariant
                        j <= k < apply.len(),
                        start == old(executor).executed(),
                        apply == plan.apply_steps@,
                        applied@ == apply.take(k as int),
                        failed_len == start.len() + k + 1,
                        executor.executed().len() == failed_len + (k - j),
                        executor.executed().take(start.len() as int) == start,
                        ran_ok(added(executor.executed(), start).take(k as int), apply.take(k as int)),
                        added(executor.executed(), start)[k as int].0 == apply[k as int],
                        added(executor.executed(), start)[k as int].1 == Err::<(), FirewallExecutionError>(error),
                        apply_reason@ == firewall_error_text(error),
                        records_steps(added(executor.executed(), start).subrange(k + 1, k + 1 + (k - j)))
                            == rollback_of(apply.take(k as int)).take(k - j),
                        view_strings(failures@) == error_texts(
                            added(executor.executed(), start).subrange(k + 1, k + 1 + (k - j)),
                        ),
                    decreases j,
                {
                    j -= 1;
                    let inv = inverse(&applied[j]);
                    let ghost before2 = executor.executed();
                    let undo = executor.execute(&inv);
                    let ghost rs_old = added(before2, start).subrange(k + 1, k + 1 + (k - j - 1));
                    let ghost rs_new = added(executor.executed(), start).subrange(k + 1, k + 1 + (k - j));
                    proof {
                        assert(executor.executed().take(start.len() as int) =~= before2.take(start.len() as int));
                        assert(added(executor.executed(), start) =~= added(before2, start).push((inv, undo)));
                        assert(rs_new =~= rs_old.push((inv, undo)));
                        lemma_error_texts_push(rs_old, (inv, undo));
                        let rb = rollback_of(apply.take(k as int));
                        assert(rb[k - j - 1] == inverse_step(apply.take(k as int).reverse()[k - j - 1]));
                        assert(apply.take(k as int).reverse()[k - j - 1] == apply[j as int]);
                        assert(records_steps(rs_new) =~= records_steps(rs_old).push(inv));
                        assert(rb.take(k - j) =~= rb.take(k - j - 1).push(rb[k - j - 1]));
                        assert(added(executor.executed(), start).take(k as int) =~= added(before2, start).take(
                            k as int,
                        ));
                    }
                    match undo {
                        Err(rollback_error) => {
                            let m = rollback_error.message();
                            proof {
                                assert(view_strings(failures@.push(m)) =~= view_strings(failures@).push(m@));
                            }
                            failures.push(m);
                        },
                        Ok(()) => {
                            proof {
                                assert(error_texts(rs_new) =~= error_texts(rs_old));
                            }
                        },
                    }
                }
                proof {
                    let rs = added(executor.executed(), start);
                    assert(rs.len() == 2 * k + 1);
                    assert(rs.subrange(k + 1, rs.len() as int) =~= rs.subrange(k + 1, k + 1 + (k - j)));
                    assert(rollback_of(apply.take(k as int)).take(k as int) =~= rollback_of(apply.take(k as int)));
                    assert(rs[k as int].1->Err_0 == error);
                }
                if failures.len() == 0 {
                    return Err(FirewallExecutionError::PartialApplyFailed { step_index: k, reason: apply_reason });
                } else {
                    return Err(
                        FirewallExecutionError::PartialApplyRollbackFailed {
                            step_index: k,
                            apply_reason,
                            rollback_failures: failures,
                        },
                    );
                }
            },
            Ok(()) => {},
        }
        applied.push(clone_step(&plan.apply_steps[k]));
        proof {
            assert(apply.take(k + 1) =~= apply.take(k as int).push(apply[k as int]));
        }
        k += 1;
    }
    proof {
        assert(apply.take(apply.len() as int) =~= apply);
    }
    Ok(applied)
}

/// Removes every rule of the plan, attempting each step whatever the
/// others gave; fails with every failure when any step failed.
pub fn remove_kill_switch_plan<E: FirewallExecutor>(executor: &mut E, plan: &KillSwitchPlan) -> (r: Result<
    (),
    FirewallExecutionError,
>)
    ensures
        extends(final(executor).executed(), old(executor).executed()),
        records_steps(added(final(executor).executed(), old(executor).executed())) == plan.remove_steps@,
        ({
            let failures = error_texts(added(final(executor).executed(), old(executor).executed()));
            match r {
                Ok(()) => failures.len() == 0,
                Err(e) => failures.len() > 0 && (e matches FirewallExecutionError::RemovalFailed { failures: f }
                    && view_strings(f@) == failures),
            }
        }),
{
    let ghost start = executor.executed();
    let mut failures: Vec<String> = Vec::new();
    let mut k: usize = 0;
    proof {
        assert(executor.executed().take(start.len() as int) =~= start);
        assert(added(executor.executed(), start) =~= Seq::<(FirewallStep, Result<(), FirewallExecutionError>)>::empty());
    }
    while k < plan.remove_steps.len()
        invariant
            k <= plan.remove_steps@.len(),
            executor.executed().len() == start.len() + k,
            executor.executed().take(start.len() as int) == start,
            records_steps(added(executor.executed(), start)) == plan.remove_steps@.take(k as int),
            view_strings(failures@) == error_texts(added(executor.executed(), start)),
        decreases plan.remove_steps.len() - k,
    {
        let ghost before = executor.executed();
        let result = executor.execute(&plan.remove_steps[k]);
        proof {
            assert(executor.executed().take(start.len() as int) =~= before.take(start.len() as int));
            assert(added(executor.executed(), start) =~= added(before, start).push((plan.remove_steps@[k as int], result)));
            lemma_error_texts_push(added(before, start), (plan.remove_steps@[k as int], result));
            assert(plan.remove_steps@.take(k + 1) =~= plan.remove_steps@.take(k as int).push(plan.remove_steps@[k as int]));
            assert(records_steps(added(executor.executed(), start)) =~= records_steps(added(before, start)).push(
                plan.remove_steps@[k as int],
            ));
        }
        match result {
            Err(error) => {
                let m = error.message();
                proof {
                    assert(view_strings(failures@.push(m)) =~= view_strings(failures@).push(m@));
                }
                failures.push(m);
            },
            Ok(()) => {
                proof {
                    assert(error_texts(added(executor.executed(), start)) =~= error_texts(added(before, start)));
                }
            },
        }
        k += 1;
    }
    proof {
        assert(plan.remove_steps@.take(plan.remove_steps@.len() as int) =~= plan.remove_steps@);
    }
    if failures.len() == 0 {
        Ok(())
    } else {
        Err(FirewallExecutionError::RemovalFailed { failures })
    }
}

/// The message of a metadata failure: the metadata error alone when the
/// cleanup succeeded, both otherwise.
pub open spec fn metadata_failure_text(metadata_error: Seq<char>, cleanup_failures: Seq<Seq<char>>) -> Seq<char> {
    if cleanup_failures.len() == 0 {
        metadata_error
    } else {
        "metadata_failure=("@ + metadata_error + "); cleanup_failure=("@ + "Firewall removal failed: "@
            + debug_strings_text(cleanup_failures) + ")"@
    }
}

/// Applies the plan and then saves its ownership; the plan counts as
/// applied only when both succeed. The ownership is saved only once the
/// plan was applied; when saving fails, the rules just added are removed
/// again. `log` records the save, if it ran.
pub fn apply_plan_with_metadata<E: FirewallExecutor, S: FnOnce(&KillSwitchOwnership) -> Result<(), String>>(
    executor: &mut E,
    plan: &KillSwitchPlan,
    save_metadata: S,
    log: &mut CallbackLog,
) -> (r: Result<Vec<FirewallStep>, FirewallExecutionError>)
    requires
        save_metadata.requires((&plan.ownership,)),
    ensures
        extends(final(executor).executed(), old(executor).executed()),
        extends(final(log).calls(), old(log).calls()),
        ({
            let rs = added(final(executor).executed(), old(executor).executed());
            let c = added(final(log).calls(), old(log).calls());
            let n = plan.apply_steps@.len() as int;
            match r {
                Ok(applied) => {
                    &&& applied@ == plan.apply_steps@
                    &&& ran_ok(rs, plan.apply_steps@)
                    &&& c.len() == 1 && c[0].0 == Callback::SaveMetadata && c[0].1 is Ok
                    &&& save_metadata.ensures((&plan.ownership,), c[0].1)
                },
                Err(FirewallExecutionError::MetadataTransactionFailed(m)) => {
                    &&& ran_ok(rs.take(n), plan.apply_steps@)
                    &&& records_steps(rs.subrange(n, rs.len() as int)) == plan.remove_steps@
                    &&& c.len() == 1 && c[0].0 == Callback::SaveMetadata
                    &&& save_metadata.ensures((&plan.ownership,), c[0].1)
                    &&& c[0].1 matches Err(merr) && m@ == metadata_failure_text(
                        merr@,
                        error_texts(rs.subrange(n, rs.len() as int)),
                    )
                },
                Err(e) => c.len() == 0 && apply_failed_at(rs, plan.apply_steps@, failed_index(e), e),
            }
        }),
{
    let ghost start = executor.executed();
    let ghost log_start = log.calls();
    let applied = match execute_firewall_plan(executor, plan) {
        Ok(a) => a,
        Err(e) => {
            proof {
                assert(log.calls().take(log_start.len() as int) =~= log_start);
                assert(added(log.calls(), log_start) =~= Seq::<(Callback, Result<(), String>)>::empty());
            }
            return Err(e);
        },
    };
    let ghost mid = executor.executed();
    let saved = log.run_with(Callback::SaveMetadata, save_metadata, &plan.ownership);
    proof {
        assert(log.calls().take(log_start.len() as int) =~= log_start);
        assert(added(log.calls(), log_start) =~= seq![(Callback::SaveMetadata, saved)]);
    }
    match saved {
        Ok(()) => Ok(applied),
        Err(metadata_error) => {
            let cleanup = remove_kill_switch_plan(executor, plan);
            proof {
                let n = plan.apply_steps@.len() as int;
                let rs = added(executor.executed(), start);
                assert(executor.executed().take(start.len() as int) =~= mid.take(start.len() as int));
                assert(rs.take(n) =~= added(mid, start));
                assert(rs.subrange(n, rs.len() as int) =~= added(executor.executed(), mid));
            }
            match cleanup {
                Ok(()) => Err(FirewallExecutionError::MetadataTransactionFailed(metadata_error)),
                Err(cleanup_error) => {
                    let s = concat("metadata_failure=(", metadata_error.as_str());
                    let s = concat(s.as_str(), "); cleanup_failure=(");
                    let s = concat(s.as_str(), cleanup_error.message().as_str());
                    Err(FirewallExecutionError::MetadataTransactionFailed(concat(s.as_str(), ")")))
                },
            }
        },
    }
}

/// Removes the plan's rules, then clears the saved ownership, then the
/// applied state; each happens only once the one before it succeeded.
/// `log` records the two clears, as far as they ran.
pub fn disable_plan_verified<E: FirewallExecutor, C: FnOnce() -> Result<(), String>, A: FnOnce()>(
    executor: &mut E,
    plan: &KillSwitchPlan,
    clear_metadata: C,
    clear_applied: A,
    log: &mut CallbackLog,
) -> (r: Result<(), FirewallExecutionError>)
    requires
        clear_metadata.requires(()),
        clear_applied.requires(()),
    ensures
        extends(final(executor).executed(), old(executor).executed()),
        records_steps(added(final(executor).executed(), old(executor).executed())) == plan.remove_steps@,
        extends(final(log).calls(), old(log).calls()),
        ({
            let failures = error_texts(added(final(executor).executed(), old(executor).executed()));
            let c = added(final(log).calls(), old(log).calls());
            &&& (failures.len() > 0 <==> c.len() == 0)
            &&& failures.len() > 0 ==> (r matches Err(FirewallExecutionError::RemovalFailed { failures: f })
                && view_strings(f@) == failures)
            &&& failures.len() == 0 ==> {
                &&& c[0].0 == Callback::ClearMetadata
                &&& clear_metadata.ensures((), c[0].1)
                &&& match c[0].1 {
                    Err(m) => c.len() == 1 && r == Err::<(), FirewallExecutionError>(
                        FirewallExecutionError::MetadataTransactionFailed(m),
                    ),
                    Ok(()) => c.len() == 2 && c[1].0 == Callback::ClearApplied && r is Ok,
                }
            }
        }),
{
    let ghost log_start = log.calls();
    match remove_kill_switch_plan(executor, plan) {
        Err(e) => {
            proof {
                assert(log.calls().take(log_start.len() as int) =~= log_start);
                assert(added(log.calls(), log_start) =~= Seq::<(Callback, Result<(), String>)>::empty());
            }
            return Err(e);
        },
        Ok(()) => {},
    }
    let cleared = log.run(Callback::ClearMetadata, clear_metadata);
    let ghost mid = log.calls();
    match cleared {
        Err(m) => {
            proof {
                assert(log.calls().take(log_start.len() as int) =~= log_start);
                assert(added(log.calls(), log_start) =~= seq![(Callback::ClearMetadata, cleared)]);
            }
            return Err(FirewallExecutionError::MetadataTransactionFailed(m));
        },
        Ok(()) => {},
    }
    log.run_unit(Callback::ClearApplied, clear_applied);
    proof {
        assert(log.calls().take(log_start.len() as int) =~= log_start);
        assert(added(log.calls(), log_start) =~= seq![
            (Callback::ClearMetadata, cleared),
            (Callback::ClearApplied, Ok::<(), String>(())),
        ]);
    }
    Ok(())
}

} // verus!
