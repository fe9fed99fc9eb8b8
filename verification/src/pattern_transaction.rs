//! Preparing a verified configuration for a start: the revisioned hostlist
//! file it needs, which older hostlists may go, and the launch plan.

use vstd::prelude::*;
use crate::preset::EngineError;
use crate::text::{decimal, u64_to_decimal, concat, contains_seq, starts_with, ends_with, str_contains,
    str_contains_char, str_starts_with, str_ends_with, str_eq, view_strings, join_seq, trim, trimmed_lines};
use crate::runtime_config::{ConfigRevision, ConfigFingerprint, VerifiedRuntimeConfig, RuntimeBypassMode,
    PreparedRuntimeConfig, PreparedHostlist, join_strings, launch_mode_of};
use crate::launch_plan::{EnginePlatform, EngineLaunchInput, HostlistPlan, KillSwitchRequirement,
    build_engine_launch_plan, launch_failure, plan_fits, prepared_args, whitelist_empty_message};
use crate::sanitizer::preset_args_verdict;
use crate::preset::EngineErrorView;

verus! {

/// How a pattern change ended.
#[derive(Debug, Clone, PartialEq, Eq)]
pub enum PatternApplyOutcome {
    Superseded { revision: ConfigRevision },
    Prepared { revision: ConfigRevision, fingerprint: ConfigFingerprint },
    Applied { revision: ConfigRevision, fingerprint: ConfigFingerprint, process_id: u32 },
    RolledBack {
        failed_revision: ConfigRevision,
        restored_revision: ConfigRevision,
        restored_fingerprint: ConfigFingerprint,
        process_id: u32,
    },
}

/// Why a pattern change failed.
#[derive(Debug, Clone, PartialEq, Eq)]
pub enum PatternApplyError {
    Superseded,
    Validation(String),
    Persistence(String),
    HostlistPreparation(String),
    StopFailed(String),
    CandidateStartFailed(String),
    RollbackFailed(String),
    StateInvariant(String),
    RevisionOverflow,
}

pub open spec fn pattern_error_text(e: PatternApplyError) -> Seq<char> {
    match e {
        PatternApplyError::Superseded => "pattern request was superseded"@,
        PatternApplyError::Validation(m) => "pattern configuration validation failed: "@ + m@,
        PatternApplyError::Persistence(m) => "pattern persistence failed: "@ + m@,
        PatternApplyError::HostlistPreparation(m) => "pattern hostlist preparation failed: "@ + m@,
        PatternApplyError::StopFailed(m) => "previous engine process could not be stopped: "@ + m@,
        PatternApplyError::CandidateStartFailed(m) => "candidate engine process could not be started: "@ + m@,
        PatternApplyError::RollbackFailed(m) => "previous engine configuration rollback failed: "@ + m@,
        PatternApplyError::StateInvariant(m) => "runtime configuration state is inconsistent: "@ + m@,
        PatternApplyError::RevisionOverflow => "pattern revision overflow"@,
    }
}

impl PatternApplyError {
    pub fn message(&self) -> (s: String)
        ensures
            s@ == pattern_error_text(*self),
    {
        match self {
            PatternApplyError::Superseded => "pattern request was superseded".to_string(),
            PatternApplyError::Validation(m) => concat("pattern configuration validation failed: ", m.as_str()),
            PatternApplyError::Persistence(m) => concat("pattern persistence failed: ", m.as_str()),
            PatternApplyError::HostlistPreparation(m) => concat("pattern hostlist preparation failed: ", m.as_str()),
            PatternApplyError::StopFailed(m) => concat("previous engine process could not be stopped: ", m.as_str()),
            PatternApplyError::CandidateStartFailed(m) => concat("candidate engine process could not be started: ", m.as_str()),
            PatternApplyError::RollbackFailed(m) => concat("previous engine configuration rollback failed: ", m.as_str()),
            PatternApplyError::StateInvariant(m) => concat("runtime configuration state is inconsistent: ", m.as_str()),
            PatternApplyError::RevisionOverflow => "pattern revision overflow".to_string(),
        }
    }
}

/// The first eight characters of a fingerprint (all of it when shorter).
pub open spec fn fingerprint_prefix8(f: Seq<char>) -> Seq<char> {
    if f.len() >= 8 { f.subrange(0, 8) } else { f }
}

/// `domains-rev-<revision>-<fingerprint prefix>.txt`
pub open spec fn hostlist_filename(revision: u64, fingerprint: Seq<char>) -> Seq<char> {
    "domains-rev-"@ + decimal(revision as nat) + "-"@ + fingerprint_prefix8(fingerprint) + ".txt"@
}

pub fn build_hostlist_filename(revision: ConfigRevision, fingerprint: &ConfigFingerprint) -> (s: String)
    ensures
        s@ == hostlist_filename(revision@, fingerprint@),
{
    let rev = u64_to_decimal(revision.get());
    let prefix = fingerprint.prefix(8);
    let s = concat("domains-rev-", rev.as_str());
    let s = concat(s.as_str(), "-");
    let s = concat(s.as_str(), prefix.as_str());
    concat(s.as_str(), ".txt")
}

/// A hostlist file name that stays inside the data directory: no path
/// separator and no `..`.
pub open spec fn safe_hostlist_filename(f: Seq<char>) -> bool {
    !f.contains('/') && !f.contains('\\') && !contains_seq(f, ".."@)
}

/// Refuses a file name that could leave the data directory; the caller
/// writes the file only after this check.
pub fn check_hostlist_filename(filename: &str) -> (r: Result<(), PatternApplyError>)
    ensures
        safe_hostlist_filename(filename@) ==> r is Ok,
        !safe_hostlist_filename(filename@) ==> (r matches Err(PatternApplyError::HostlistPreparation(m))
            && m@ == "Unsafe path traversal characters in hostlist filename"@),
{
    if str_contains_char(filename, '/') || str_contains_char(filename, '\\') || str_contains(filename, "..") {
        return Err(PatternApplyError::HostlistPreparation("Unsafe path traversal characters in hostlist filename".to_string()));
    }
    Ok(())
}

/// A revisioned hostlist that is neither the active one nor the one kept
/// for rollback.
pub open spec fn stale_hostlist(name: Seq<char>, active: Option<Seq<char>>, previous: Option<Seq<char>>) -> bool {
    &&& starts_with(name, "domains-rev-"@)
    &&& ends_with(name, ".txt"@)
    &&& active != Some(name)
    &&& previous != Some(name)
}

pub open spec fn opt_str_view(o: Option<&str>) -> Option<Seq<char>> {
    match o {
        Some(s) => Some(s@),
        None => None,
    }
}

/// Whether a file of the data directory is a stale hostlist that may be
/// removed.
pub fn is_stale_hostlist(file_name: &str, active: Option<&str>, previous: Option<&str>) -> (r: bool)
    ensures
        r == stale_hostlist(file_name@, opt_str_view(active), opt_str_view(previous)),
{
    if !(str_starts_with(file_name, "domains-rev-") && str_ends_with(file_name, ".txt")) {
        return false;
    }
    let is_active = match active {
        Some(a) => str_eq(a, file_name),
        None => false,
    };
    let is_previous = match previous {
        Some(p) => str_eq(p, file_name),
        None => false,
    };
    !is_active && !is_previous
}

/// The hostlist a configuration needs: none in all-sites mode, otherwise
/// its revisioned file name and the domains one per line.
pub fn hostlist_request(verified: &VerifiedRuntimeConfig) -> (r: Option<(String, String)>)
    ensures
        verified.bypass.mode == RuntimeBypassMode::All ==> r is None,
        verified.bypass.mode != RuntimeBypassMode::All ==> (r matches Some((name, content))
            && name@ == hostlist_filename(verified.revision@, verified.fingerprint@)
            && content@ == join_seq(view_strings(verified.bypass.domains@), "\n"@)),
{
    match verified.bypass.mode {
        RuntimeBypassMode::All => None,
        _ => Some((
            build_hostlist_filename(verified.revision, &verified.fingerprint),
            join_strings(&verified.bypass.domains, "\n"),
        )),
    }
}

/// The hostlist record of a prepared configuration, from its launch plan.
pub open spec fn prepared_hostlist_of(h: HostlistPlan) -> PreparedHostlist {
    match h {
        HostlistPlan::Include { path, domain_count } => PreparedHostlist::Planned { path, domain_count },
        HostlistPlan::Exclude { path, domain_count } => PreparedHostlist::Planned { path, domain_count },
        HostlistPlan::NoHostlist => PreparedHostlist::NotRequired,
    }
}

/// Why a verified configuration cannot be planned: the launch planner's
/// checks, on the preset and bypass settings of the configuration.
pub open spec fn prepare_failure(v: VerifiedRuntimeConfig, hostlist_path: Option<String>, executable: Seq<char>) -> Option<EngineErrorView> {
    let args = view_strings(v.preset.arguments@);
    let list = join_seq(view_strings(v.bypass.domains@), "\n"@);
    if preset_args_verdict(args) is Some {
        Some(EngineErrorView::InvalidPreset(preset_args_verdict(args)->0))
    } else if executable.len() == 0 {
        Some(EngineErrorView::BinaryNotFound("Binary path'in parent klasörü alınamadı: \"\""@))
    } else if v.bypass.mode == RuntimeBypassMode::Whitelist && trim(list).len() == 0 {
        Some(EngineErrorView::ConfigParseError(whitelist_empty_message()))
    } else if v.bypass.mode == RuntimeBypassMode::Whitelist && hostlist_path is None {
        Some(EngineErrorView::IoError("Pattern storage path is unavailable for whitelist hostlist"@))
    } else if v.bypass.mode == RuntimeBypassMode::Blacklist && hostlist_path is None {
        Some(EngineErrorView::IoError("Pattern storage path is unavailable for blacklist hostlist"@))
    } else {
        None
    }
}

/// The engine arguments a prepared configuration runs with.
pub open spec fn prepared_final_args(v: VerifiedRuntimeConfig, hostlist_path: Option<String>, platform: EnginePlatform) -> Seq<Seq<char>> {
    let prepared = prepared_args(platform, view_strings(v.preset.arguments@));
    match v.bypass.mode {
        RuntimeBypassMode::Whitelist => prepared.push("--hostlist="@ + hostlist_path->0@),
        RuntimeBypassMode::Blacklist => prepared.push("--hostlist-exclude="@ + hostlist_path->0@),
        RuntimeBypassMode::All => prepared,
    }
}

/// Plans the launch of a verified configuration whose hostlist (if it
/// needs one) was written to `hostlist_path`. The configuration is carried
/// unchanged; the plan runs its preset with its bypass settings.
pub fn prepare_runtime_config(
    verified: VerifiedRuntimeConfig,
    hostlist_path: Option<String>,
    platform: EnginePlatform,
    executable: String,
) -> (r: Result<PreparedRuntimeConfig, EngineError>)
    ensures
        match r {
            Ok(p) => {
                &&& prepare_failure(verified, hostlist_path, executable@) is None
                &&& p.verified == verified
                &&& p.hostlist == prepared_hostlist_of(p.launch_plan.hostlist)
                &&& p.launch_plan.preset_id@ == verified.preset.id@
                &&& p.launch_plan.platform == platform
                &&& p.launch_plan.binary.executable@ == executable@
                &&& view_strings(p.launch_plan.final_arguments@) == prepared_final_args(verified, hostlist_path, platform)
                &&& p.launch_plan.kill_switch == (if verified.bypass.kill_switch {
                    KillSwitchRequirement::Required
                } else {
                    KillSwitchRequirement::Disabled
                })
                &&& (verified.bypass.mode == RuntimeBypassMode::All <==> p.hostlist == PreparedHostlist::NotRequired)
            },
            Err(e) => prepare_failure(verified, hostlist_path, executable@) == Some(e@),
        },
{
    let ghost path = hostlist_path;
    let bypass = verified.to_launch_bypass_input(hostlist_path);
    let preset = verified.preset.to_preset();
    let input = EngineLaunchInput { preset: &preset, platform, executable, bypass };
    let ghost given = input;
    proof {
        assert(view_strings(input.preset.args@) == view_strings(verified.preset.arguments@));
        assert(launch_failure(given) == prepare_failure(verified, path, given.executable@));
        assert(prepared_final_args(verified, path, platform) == crate::launch_plan::final_args_of(given));
    }
    let plan = match build_engine_launch_plan(input) {
        Ok(plan) => plan,
        Err(e) => {
            return Err(e);
        },
    };
    proof {
        assert(plan_fits(plan, given, plan.binary.working_directory@));
    }
    let hostlist = match &plan.hostlist {
        HostlistPlan::Include { path, domain_count } => PreparedHostlist::Planned { path: path.clone(), domain_count: *domain_count },
        HostlistPlan::Exclude { path, domain_count } => PreparedHostlist::Planned { path: path.clone(), domain_count: *domain_count },
        HostlistPlan::NoHostlist => PreparedHostlist::NotRequired,
    };
    Ok(PreparedRuntimeConfig { verified, launch_plan: plan, hostlist })
}

} // verus!
