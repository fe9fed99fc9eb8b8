//! The engine launch plan: what binary runs where, with which arguments,
//! hostlist and packet filter, computed from a preset and the bypass
//! settings without touching the system.

use vstd::prelude::*;
use crate::port_spec::{parse_port_spec, port_ranges, PortRange};
use crate::preset::{EngineError, EngineErrorView, Preset};
use crate::sanitizer::{carries_verdict, preset_args_verdict, validate_preset_args};
use crate::validator::clone_strings;
use crate::text::{
    chars_of, concat, starts_with, str_starts_with, str_strip_prefix, str_trim, string_of_range,
    to_string, trim, trimmed_lines, nonblank_trimmed_lines, view_strings,
};

verus! {

#[derive(Debug, Clone, Copy, PartialEq, Eq, Structural)]
pub enum EnginePlatform {
    Windows,
    Linux,
}

#[derive(Debug, Clone, Copy, PartialEq, Eq, Structural)]
pub enum EngineBinaryKind {
    Winws,
    Nfqws,
}

/// The binary to run. Paths are kept as text.
#[derive(Debug, Clone, PartialEq, Eq)]
pub struct EngineBinaryPlan {
    pub executable: String,
    pub working_directory: String,
    pub kind: EngineBinaryKind,
}

#[derive(Debug, Clone, Copy, PartialEq, Eq, Structural)]
pub enum LaunchBypassMode {
    All,
    Whitelist,
    Blacklist,
}

#[derive(Debug, Clone, PartialEq, Eq)]
pub struct LaunchBypassInput {
    pub mode: LaunchBypassMode,
    pub domain_list: String,
    pub hostlist_path: Option<String>,
    pub kill_switch: bool,
}

#[derive(Debug, Clone, PartialEq, Eq)]
pub struct TrafficFilterPlan {
    pub declared_tcp_spec: Option<String>,
    pub declared_udp_spec: Option<String>,
    pub effective_linux_tcp_spec: Option<String>,
    pub effective_linux_udp_spec: Option<String>,
}

#[derive(Debug, Clone, PartialEq, Eq)]
pub enum HostlistPlan {
    NoHostlist,
    Include { path: String, domain_count: usize },
    Exclude { path: String, domain_count: usize },
}

#[derive(Debug, Clone, Copy, PartialEq, Eq, Structural)]
pub enum KillSwitchRequirement {
    Disabled,
    Required,
}

#[derive(Debug, Clone, PartialEq, Eq)]
pub struct LinuxFirewallBehavior {
    pub tcp_ports: Vec<u16>,
    pub udp_ports: Vec<u16>,
    pub uses_nftables_fallback: bool,
    pub performs_global_process_cleanup: bool,
}

#[derive(Debug, Clone, PartialEq, Eq)]
pub enum PlatformLaunchPlan {
    Windows { arguments: Vec<String> },
    Linux { arguments: Vec<String>, queue_number: u16, current_firewall_behavior: LinuxFirewallBehavior },
}

#[derive(Debug, Clone, PartialEq, Eq)]
pub struct EngineLaunchPlan {
    pub preset_id: String,
    pub binary: EngineBinaryPlan,
    pub hostlist: HostlistPlan,
    pub kill_switch: KillSwitchRequirement,
    pub platform: EnginePlatform,
    pub traffic_filter: TrafficFilterPlan,
    pub platform_launch: PlatformLaunchPlan,
    pub final_arguments: Vec<String>,
}

#[derive(Debug, Clone)]
pub struct EngineLaunchInput<'a> {
    pub preset: &'a Preset,
    pub platform: EnginePlatform,
    pub executable: String,
    pub bypass: LaunchBypassInput,
}

pub open spec fn is_path_separator(c: char) -> bool {
    c == '\\' || c == '/'
}

/// Index of the last `\` or `/`, or -1.
pub open spec fn last_separator(s: Seq<char>) -> int
    decreases s.len(),
{
    if s.len() == 0 {
        -1
    } else if is_path_separator(s.last()) {
        s.len() - 1
    } else {
        last_separator(s.drop_last())
    }
}

/// The working directory of a Windows executable: the text before the
/// last separator, the empty path for a bare file name, nothing for an
/// empty path.
pub open spec fn windows_working_directory(exe: Seq<char>) -> Option<Seq<char>> {
    if last_separator(exe) >= 0 {
        Some(exe.subrange(0, last_separator(exe)))
    } else if exe.len() > 0 {
        Some(Seq::empty())
    } else {
        None
    }
}

/// Arguments that only the Windows packet filter understands.
pub open spec fn is_windows_filter_arg(a: Seq<char>) -> bool {
    starts_with(a, "--wf-"@) || starts_with(a, "--windivert"@) || starts_with(a, "tcp."@) || starts_with(a, "udp."@)
        || starts_with(a, "icmp."@)
}

pub open spec fn prepared_args(platform: EnginePlatform, args: Seq<Seq<char>>) -> Seq<Seq<char>> {
    match platform {
        EnginePlatform::Windows => args,
        EnginePlatform::Linux => args.filter(|a: Seq<char>| !is_windows_filter_arg(a)),
    }
}

/// The value of the last argument that starts with `p`.
pub open spec fn declared_value(args: Seq<Seq<char>>, p: Seq<char>) -> Option<Seq<char>>
    decreases args.len(),
{
    if args.len() == 0 {
        None
    } else if starts_with(args.last(), p) {
        Some(args.last().subrange(p.len() as int, args.last().len() as int))
    } else {
        declared_value(args.drop_last(), p)
    }
}

pub open spec fn opt_view(o: Option<String>) -> Option<Seq<char>> {
    match o {
        Some(s) => Some(s@),
        None => None,
    }
}

pub open spec fn whitelist_empty_message() -> Seq<char> {
    "Whitelist mode is selected, but the whitelist has no valid domains. DPI bypass was not started."@
}

/// Why planning fails, checked in this order: the preset's arguments, the
/// executable path, then the hostlist that the mode needs.
pub open spec fn launch_failure(input: EngineLaunchInput) -> Option<EngineErrorView> {
    let args = view_strings(input.preset.args@);
    if preset_args_verdict(args) is Some {
        Some(EngineErrorView::InvalidPreset(preset_args_verdict(args)->0))
    } else if input.executable@.len() == 0 {
        Some(EngineErrorView::BinaryNotFound("Binary path'in parent klasörü alınamadı: \"\""@))
    } else if input.bypass.mode == LaunchBypassMode::Whitelist && trim(input.bypass.domain_list@).len() == 0 {
        Some(EngineErrorView::ConfigParseError(whitelist_empty_message()))
    } else if input.bypass.mode == LaunchBypassMode::Whitelist && input.bypass.hostlist_path is None {
        Some(EngineErrorView::IoError("Pattern storage path is unavailable for whitelist hostlist"@))
    } else if input.bypass.mode == LaunchBypassMode::Blacklist && input.bypass.hostlist_path is None {
        Some(EngineErrorView::IoError("Pattern storage path is unavailable for blacklist hostlist"@))
    } else {
        None
    }
}

pub open spec fn final_args_of(input: EngineLaunchInput) -> Seq<Seq<char>> {
    let prepared = prepared_args(input.platform, view_strings(input.preset.args@));
    match input.bypass.mode {
        LaunchBypassMode::Whitelist => prepared.push("--hostlist="@ + input.bypass.hostlist_path->0@),
        LaunchBypassMode::Blacklist => prepared.push("--hostlist-exclude="@ + input.bypass.hostlist_path->0@),
        LaunchBypassMode::All => prepared,
    }
}

pub open spec fn hostlist_fits(h: HostlistPlan, input: EngineLaunchInput) -> bool {
    let count = trimmed_lines(input.bypass.domain_list@).len();
    match input.bypass.mode {
        LaunchBypassMode::Whitelist => h matches HostlistPlan::Include { path, domain_count }
            && path@ == input.bypass.hostlist_path->0@ && domain_count == count,
        LaunchBypassMode::Blacklist => h matches HostlistPlan::Exclude { path, domain_count }
            && path@ == input.bypass.hostlist_path->0@ && domain_count == count,
        LaunchBypassMode::All => h == HostlistPlan::NoHostlist,
    }
}

pub open spec fn port_starts(rs: Seq<PortRange>) -> Seq<u16> {
    rs.map_values(|r: PortRange| r.start)
}

pub open spec fn traffic_fits(t: TrafficFilterPlan, input: EngineLaunchInput) -> bool {
    let args = view_strings(input.preset.args@);
    let tcp = declared_value(args, "--wf-tcp="@);
    let udp = declared_value(args, "--wf-udp="@);
    &&& opt_view(t.declared_tcp_spec) == tcp
    &&& opt_view(t.declared_udp_spec) == udp
    &&& match input.platform {
        EnginePlatform::Windows => t.effective_linux_tcp_spec is None && t.effective_linux_udp_spec is None,
        EnginePlatform::Linux => opt_view(t.effective_linux_tcp_spec) == (if tcp is Some {
            tcp
        } else {
            Some("80,443"@)
        }) && opt_view(t.effective_linux_udp_spec) == udp,
    }
}

/// A successful plan: everything follows from the input, and the working
/// directory is `wd`.
pub open spec fn plan_fits(p: EngineLaunchPlan, input: EngineLaunchInput, wd: Seq<char>) -> bool {
    let args = view_strings(input.preset.args@);
    let tcp = declared_value(args, "--wf-tcp="@);
    let udp = declared_value(args, "--wf-udp="@);
    &&& p.preset_id@ == input.preset.id@
    &&& p.binary.executable@ == input.executable@
    &&& p.binary.working_directory@ == wd
    &&& p.binary.kind == (match input.platform {
        EnginePlatform::Windows => EngineBinaryKind::Winws,
        EnginePlatform::Linux => EngineBinaryKind::Nfqws,
    })
    &&& hostlist_fits(p.hostlist, input)
    &&& p.kill_switch == (if input.bypass.kill_switch {
        KillSwitchRequirement::Required
    } else {
        KillSwitchRequirement::Disabled
    })
    &&& p.platform == input.platform
    &&& traffic_fits(p.traffic_filter, input)
    &&& view_strings(p.final_arguments@) == final_args_of(input)
    &&& match p.platform_launch {
        PlatformLaunchPlan::Windows { arguments } => input.platform == EnginePlatform::Windows
            && arguments@ == p.final_arguments@,
        PlatformLaunchPlan::Linux { arguments, queue_number, current_firewall_behavior: b } => {
            &&& input.platform == EnginePlatform::Linux
            &&& arguments@ == p.final_arguments@
            &&& queue_number == 0
            &&& b.tcp_ports@ == port_starts(port_ranges(if tcp is Some { tcp->0 } else { "80,443"@ }))
            &&& b.udp_ports@ == port_starts(port_ranges(if udp is Some { udp->0 } else { Seq::empty() }))
            &&& !b.uses_nftables_fallback && !b.performs_global_process_cleanup
        },
    }
}

/// A non-empty path with no `/`, `\` or `:` in it: one component on every
/// platform.
pub open spec fn single_component(path: Seq<char>) -> bool {
    path.len() > 0 && !path.contains('/') && !path.contains('\\') && !path.contains(':')
}

/// `Path::parent`. The empty path has no parent; a single component with
/// no `/`, `\` or `:` has the empty path as its parent; a parent is the
/// path with its last component removed, so it is a proper prefix of the
/// path. Where other paths split depends on the platform's path syntax, so
/// which prefix it is, is not stated.
#[verifier::external_body]
fn path_parent(path: &str) -> (r: Option<String>)
    ensures
        path@.len() == 0 ==> r is None,
        single_component(path@) ==> r is Some && r->0@.len() == 0,
        r matches Some(p) ==> p@.len() < path@.len() && path@.subrange(0, p@.len() as int) == p@,
{
    std::path::Path::new(path).parent().map(|p| p.to_string_lossy().into_owned())
}

fn last_separator_exec(v: &Vec<char>) -> (r: Option<usize>)
    ensures
        match r {
            Some(i) => last_separator(v@) == i && i < v@.len(),
            None => last_separator(v@) == -1,
        },
{
    let mut i = v.len();
    proof {
        assert(v@.subrange(0, i as int) =~= v@);
    }
    while i > 0 && !(v[i - 1] == '\\' || v[i - 1] == '/')
        invariant
            i <= v@.len(),
            last_separator(v@) == last_separator(v@.subrange(0, i as int)),
        decreases i,
    {
        proof {
            assert(v@.subrange(0, i as int).drop_last() =~= v@.subrange(0, i - 1));
        }
        i -= 1;
    }
    proof {
        if i == 0 {
            assert(v@.subrange(0, 0) =~= Seq::<char>::empty());
        } else {
            assert(v@.subrange(0, i as int).last() == v@[i - 1]);
        }
    }
    if i == 0 {
        None
    } else {
        Some(i - 1)
    }
}

/// The working directory of the executable on `platform`; on Linux it is
/// its parent directory, or the empty path for a bare file name.
pub fn working_directory(platform: EnginePlatform, exe: &str) -> (r: Option<String>)
    ensures
        platform == EnginePlatform::Windows ==> opt_view(r) == windows_working_directory(exe@),
        r is None <==> exe@.len() == 0,
        r matches Some(w) ==> w@.len() < exe@.len() && exe@.subrange(0, w@.len() as int) == w@,
{
    match platform {
        EnginePlatform::Windows => {
            let v = chars_of(exe);
            match last_separator_exec(&v) {
                Some(i) => Some(string_of_range(&v, 0, i)),
                None => if v.len() > 0 {
                    Some(String::new())
                } else {
                    None
                },
            }
        },
        EnginePlatform::Linux => {
            let parent = path_parent(exe);
            match parent {
                Some(p) => Some(p),
                None => if !exe.is_empty() {
                    Some(String::new())
                } else {
                    None
                },
            }
        },
    }
}

pub fn clone_opt(o: &Option<String>) -> (r: Option<String>)
    ensures
        opt_view(r) == opt_view(*o),
{
    match o {
        Some(s) => Some(s.clone()),
        None => None,
    }
}

fn last_value_with_prefix(args: &Vec<String>, p: &str) -> (r: Option<String>)
    ensures
        opt_view(r) == declared_value(view_strings(args@), p@),
{
    let ghost views = view_strings(args@);
    let mut found: Option<String> = None;
    let mut k: usize = 0;
    while k < args.len()
        invariant
            k <= args@.len(),
            views == view_strings(args@),
            opt_view(found) == declared_value(views.take(k as int), p@),
        decreases args.len() - k,
    {
        proof {
            assert(views.take(k + 1).drop_last() =~= views.take(k as int));
            assert(views.take(k + 1).last() == args@[k as int]@);
        }
        match str_strip_prefix(args[k].as_str(), p) {
            Some(v) => {
                found = Some(v);
            },
            None => {},
        }
        k += 1;
    }
    proof {
        assert(views.take(views.len() as int) =~= views);
    }
    found
}

fn is_windows_filter_arg_exec(a: &str) -> (r: bool)
    ensures
        r == is_windows_filter_arg(a@),
{
    str_starts_with(a, "--wf-") || str_starts_with(a, "--windivert") || str_starts_with(a, "tcp.")
        || str_starts_with(a, "udp.") || str_starts_with(a, "icmp.")
}

fn prepare_args(platform: EnginePlatform, args: &Vec<String>) -> (r: Vec<String>)
    ensures
        view_strings(r@) == prepared_args(platform, view_strings(args@)),
{
    let ghost views = view_strings(args@);
    let ghost pred = |a: Seq<char>| !is_windows_filter_arg(a);
    let mut out: Vec<String> = Vec::new();
    let mut k: usize = 0;
    while k < args.len()
        invariant
            k <= args@.len(),
            views == view_strings(args@),
            pred == (|a: Seq<char>| !is_windows_filter_arg(a)),
            view_strings(out@) == (match platform {
                EnginePlatform::Windows => views.take(k as int),
                EnginePlatform::Linux => views.take(k as int).filter(pred),
            }),
        decreases args.len() - k,
    {
        proof {
            assert(views.take(k + 1) =~= views.take(k as int).push(views[k as int]));
            assert(views[k as int] == args@[k as int]@);
            views.take(k as int).lemma_filter_push(views[k as int], pred);
        }
        let keep = match platform {
            EnginePlatform::Windows => true,
            EnginePlatform::Linux => !is_windows_filter_arg_exec(args[k].as_str()),
        };
        if keep {
            let a = args[k].clone();
            proof {
                assert(view_strings(out@.push(a)) =~= view_strings(out@).push(a@));
            }
            out.push(a);
        }
        k += 1;
    }
    proof {
        assert(views.take(views.len() as int) =~= views);
    }
    out
}

fn starts_of(rs: &Vec<PortRange>) -> (r: Vec<u16>)
    ensures
        r@ == port_starts(rs@),
{
    let mut out: Vec<u16> = Vec::new();
    let mut k: usize = 0;
    while k < rs.len()
        invariant
            k <= rs@.len(),
            out@ == port_starts(rs@.take(k as int)),
        decreases rs.len() - k,
    {
        proof {
            assert(port_starts(rs@.take(k + 1)) =~= port_starts(rs@.take(k as int)).push(rs@[k as int].start));
        }
        out.push(rs[k].start);
        k += 1;
    }
    proof {
        assert(rs@.take(rs@.len() as int) =~= rs@);
    }
    out
}

/// The launch plan for `input`. Fails as `launch_failure` says; otherwise
/// the plan fits the input, with the working directory of
/// `working_directory`, which on Windows is `windows_working_directory`.
pub fn build_engine_launch_plan(input: EngineLaunchInput) -> (r: Result<EngineLaunchPlan, EngineError>)
    ensures
        match r {
            Ok(p) => launch_failure(input) is None && plan_fits(p, input, p.binary.working_directory@)
                && (input.platform == EnginePlatform::Windows ==> Some(p.binary.working_directory@)
                == windows_working_directory(input.executable@)),
            Err(e) => launch_failure(input) == Some(e@),
        },
{
    let checked = validate_preset_args(input.preset.args.as_slice());
    proof {
        assert(input.preset.args@.map_values(|s: String| s@) =~= view_strings(input.preset.args@));
    }
    match checked {
        Err(e) => {
            return Err(e);
        },
        Ok(()) => {},
    }
    match working_directory(input.platform, input.executable.as_str()) {
        None => Err(EngineError::BinaryNotFound(to_string("Binary path'in parent klasörü alınamadı: \"\""))),
        Some(wd) => build_engine_launch_plan_at(input, wd),
    }
}

/// The launch plan for `input` with the given working directory, for an
/// input whose arguments and executable path are accepted.
pub fn build_engine_launch_plan_at(input: EngineLaunchInput, working_directory: String) -> (r: Result<
    EngineLaunchPlan,
    EngineError,
>)
    requires
        preset_args_verdict(view_strings(input.preset.args@)) is None,
        input.executable@.len() > 0,
    ensures
        match r {
            Ok(p) => launch_failure(input) is None && plan_fits(p, input, working_directory@),
            Err(e) => launch_failure(input) == Some(e@),
        },
{
    let kind = match input.platform {
        EnginePlatform::Windows => EngineBinaryKind::Winws,
        EnginePlatform::Linux => EngineBinaryKind::Nfqws,
    };
    let binary = EngineBinaryPlan { executable: input.executable.clone(), working_directory, kind };
    let declared_tcp = last_value_with_prefix(&input.preset.args, "--wf-tcp=");
    let declared_udp = last_value_with_prefix(&input.preset.args, "--wf-udp=");
    let prepared = prepare_args(input.platform, &input.preset.args);
    let domain_count = nonblank_trimmed_lines(input.bypass.domain_list.as_str()).len();
    let (hostlist, final_args) = match input.bypass.mode {
        LaunchBypassMode::Whitelist => {
            let trimmed = str_trim(input.bypass.domain_list.as_str());
            if trimmed.as_str().is_empty() {
                return Err(EngineError::ConfigParseError(to_string(
                    "Whitelist mode is selected, but the whitelist has no valid domains. DPI bypass was not started.",
                )));
            }
            let path = match &input.bypass.hostlist_path {
                Some(p) => p.clone(),
                None => {
                    return Err(EngineError::IoError(to_string(
                        "Pattern storage path is unavailable for whitelist hostlist",
                    )));
                },
            };
            let mut args = prepared;
            let arg = concat("--hostlist=", path.as_str());
            proof {
                assert(view_strings(args@.push(arg)) =~= view_strings(args@).push(arg@));
            }
            args.push(arg);
            (HostlistPlan::Include { path, domain_count }, args)
        },
        LaunchBypassMode::Blacklist => {
            let path = match &input.bypass.hostlist_path {
                Some(p) => p.clone(),
                None => {
                    return Err(EngineError::IoError(to_string(
                        "Pattern storage path is unavailable for blacklist hostlist",
                    )));
                },
            };
            let mut args = prepared;
            let arg = concat("--hostlist-exclude=", path.as_str());
            proof {
                assert(view_strings(args@.push(arg)) =~= view_strings(args@).push(arg@));
            }
            args.push(arg);
            (HostlistPlan::Exclude { path, domain_count }, args)
        },
        LaunchBypassMode::All => (HostlistPlan::NoHostlist, prepared),
    };
    let kill_switch = if input.bypass.kill_switch {
        KillSwitchRequirement::Required
    } else {
        KillSwitchRequirement::Disabled
    };
    let traffic_filter = match input.platform {
        EnginePlatform::Windows => TrafficFilterPlan {
            declared_tcp_spec: clone_opt(&declared_tcp),
            declared_udp_spec: clone_opt(&declared_udp),
            effective_linux_tcp_spec: None,
            effective_linux_udp_spec: None,
        },
        EnginePlatform::Linux => TrafficFilterPlan {
            declared_tcp_spec: clone_opt(&declared_tcp),
            declared_udp_spec: clone_opt(&declared_udp),
            effective_linux_tcp_spec: match &declared_tcp {
                Some(t) => Some(t.clone()),
                None => Some(to_string("80,443")),
            },
            effective_linux_udp_spec: clone_opt(&declared_udp),
        },
    };
    let platform_launch = match input.platform {
        EnginePlatform::Windows => PlatformLaunchPlan::Windows { arguments: clone_strings(&final_args) },
        EnginePlatform::Linux => {
            let tcp_spec = match &declared_tcp {
                Some(t) => t.clone(),
                None => to_string("80,443"),
            };
            let udp_spec = match &declared_udp {
                Some(u) => u.clone(),
                None => String::new(),
            };
            let tcp_ranges = parse_port_spec(tcp_spec.as_str());
            let udp_ranges = parse_port_spec(udp_spec.as_str());
            PlatformLaunchPlan::Linux {
                arguments: clone_strings(&final_args),
                queue_number: 0,
                current_firewall_behavior: LinuxFirewallBehavior {
                    tcp_ports: starts_of(&tcp_ranges),
                    udp_ports: starts_of(&udp_ranges),
                    uses_nftables_fallback: false,
                    performs_global_process_cleanup: false,
                },
            }
        },
    };
    Ok(EngineLaunchPlan {
        preset_id: input.preset.id.clone(),
        binary,
        hostlist,
        kill_switch,
        platform: input.platform,
        traffic_filter,
        platform_launch,
        final_arguments: final_args,
    })
}

} // verus!
