//! The kill switch's saved ownership: what is written next to the rules so
//! that rules left behind by a crash can be removed, and only by the
//! installation that made them.

use vstd::prelude::*;
use crate::dns_config::{DnsConfigFingerprint, DnsConfigRevision};
use crate::firewall::{
    cuts_cleanly, plan_fits, rebuild_owned_kill_switch_plan, remove_kill_switch_plan, FirewallExecutor,
    FirewallPlatform, KillSwitchOwnership, KillSwitchPlan, added, debug_strings_text, error_texts, extends, records_steps,
};
use crate::text::{concat, decimal, str_eq, to_string, u64_to_decimal, view_strings};
use crate::validator::clone_strings;

verus! {

pub const KILL_SWITCH_METADATA_FILE: &'static str = "dns-kill-switch.json";

pub const KILL_SWITCH_METADATA_SCHEMA: u8 = 2;

/// The saved ownership of the kill switch's rules.
#[derive(Debug, Clone, PartialEq, Eq)]
pub struct PersistedKillSwitchMetadata {
    pub schema_version: u8,
    pub platform: FirewallPlatform,
    pub installation_id: String,
    pub instance_id: String,
    pub dns_revision: u64,
    pub dns_fingerprint: String,
    pub rule_names: Vec<String>,
    pub created_at: String,
}

/// What is saved for `ownership` at `now_secs` seconds after the epoch.
pub fn metadata_for(ownership: &KillSwitchOwnership, now_secs: u64) -> (m: PersistedKillSwitchMetadata)
    ensures
        m.schema_version == 2,
        m.platform == ownership.platform,
        m.installation_id == ownership.installation_id,
        m.instance_id == ownership.instance_id,
        m.dns_revision == ownership.revision.0,
        m.dns_fingerprint@ == ownership.fingerprint.0@,
        m.rule_names@ == ownership.rule_ids@,
        m.created_at@ == decimal(now_secs as nat),
{
    PersistedKillSwitchMetadata {
        schema_version: 2,
        platform: ownership.platform,
        installation_id: ownership.installation_id.clone(),
        instance_id: ownership.instance_id.clone(),
        dns_revision: ownership.revision.get(),
        dns_fingerprint: ownership.fingerprint.0.clone(),
        rule_names: clone_strings(&ownership.rule_ids),
        created_at: u64_to_decimal(now_secs),
    }
}

pub open spec fn foreign_installation_message() -> Seq<char> {
    "KillSwitch metadata belongs to a foreign installation; cleanup was not attempted."@
}

/// The ownership saved in `metadata`, when it has the current schema and
/// belongs to the installation `active_installation_id`.
pub fn ownership_from_metadata(metadata: &PersistedKillSwitchMetadata, active_installation_id: &str) -> (r: Result<
    KillSwitchOwnership,
    String,
>)
    ensures
        match r {
            Ok(o) => {
                &&& metadata.schema_version == 2
                &&& metadata.installation_id@ == active_installation_id@
                &&& o.installation_id == metadata.installation_id
                &&& o.instance_id == metadata.instance_id
                &&& o.revision == DnsConfigRevision(metadata.dns_revision)
                &&& o.fingerprint.0@ == metadata.dns_fingerprint@
                &&& o.platform == metadata.platform
                &&& o.rule_ids@ == metadata.rule_names@
            },
            Err(m) => if metadata.schema_version != 2 {
                m@ == "Unsupported KillSwitch metadata schema "@ + decimal(metadata.schema_version as nat)
                    + "; platform cannot be safely inferred."@
            } else {
                metadata.installation_id@ != active_installation_id@ && m@ == foreign_installation_message()
            },
        },
{
    if metadata.schema_version != 2 {
        let s = concat("Unsupported KillSwitch metadata schema ", u64_to_decimal(metadata.schema_version as u64).as_str());
        return Err(concat(s.as_str(), "; platform cannot be safely inferred."));
    }
    if !str_eq(metadata.installation_id.as_str(), active_installation_id) {
        return Err(to_string("KillSwitch metadata belongs to a foreign installation; cleanup was not attempted."));
    }
    Ok(KillSwitchOwnership {
        installation_id: metadata.installation_id.clone(),
        instance_id: metadata.instance_id.clone(),
        revision: DnsConfigRevision(metadata.dns_revision),
        fingerprint: DnsConfigFingerprint(metadata.dns_fingerprint.clone()),
        platform: metadata.platform,
        rule_ids: clone_strings(&metadata.rule_names),
    })
}

/// Why saved ownership is not used: an unknown schema, or another
/// installation.
pub open spec fn ownership_refusal(metadata: PersistedKillSwitchMetadata, active_installation_id: Seq<char>) -> Option<
    Seq<char>,
> {
    if metadata.schema_version != 2 {
        Some(
            "Unsupported KillSwitch metadata schema "@ + decimal(metadata.schema_version as nat)
                + "; platform cannot be safely inferred."@,
        )
    } else if metadata.installation_id@ != active_installation_id {
        Some(foreign_installation_message())
    } else {
        None
    }
}

/// The kill switch plan that saved ownership stands for.
pub open spec fn plan_of_metadata(p: KillSwitchPlan, metadata: PersistedKillSwitchMetadata) -> bool {
    &&& plan_fits(
        p,
        metadata.installation_id@,
        metadata.instance_id@,
        DnsConfigRevision(metadata.dns_revision),
        p.ownership.fingerprint,
        metadata.platform,
        true,
    )
    &&& p.ownership.fingerprint.0@ == metadata.dns_fingerprint@
}

/// Removes the rules a saved ownership names, then the saved copy. Rules
/// of another installation, or of an unknown schema, are left alone: the
/// refusal is returned and no firewall step runs. Otherwise every removal
/// step of the owned plan runs, in order; when one fails the cleanup error
/// is returned (and the saved copy kept), else the saved copy is cleared
/// and the outcome of clearing decides the result.
pub fn recover_orphan_rules<E: FirewallExecutor, C: FnOnce() -> Result<(), String>>(
    executor: &mut E,
    metadata: &PersistedKillSwitchMetadata,
    active_installation_id: &str,
    clear_metadata: C,
) -> (r: Result<bool, String>)
    requires
        cuts_cleanly(metadata.installation_id@, 8),
        cuts_cleanly(metadata.instance_id@, 8),
        clear_metadata.requires(()),
    ensures
        r == Ok::<bool, String>(true) ==> metadata.schema_version == 2 && metadata.installation_id@
            == active_installation_id@ && (exists|c: Result<(), String>| #[trigger] clear_metadata.ensures((), c)
            && c is Ok),
        (metadata.schema_version != 2 || metadata.installation_id@ != active_installation_id@) ==> r is Err
            && final(executor).executed() == old(executor).executed(),
        ownership_refusal(*metadata, active_installation_id@) matches Some(m) ==> (r matches Err(e) && e@ == m),
        ownership_refusal(*metadata, active_installation_id@) is None ==> {
            let rs = added(final(executor).executed(), old(executor).executed());
            &&& extends(final(executor).executed(), old(executor).executed())
            &&& exists|p: KillSwitchPlan| #[trigger] plan_of_metadata(p, *metadata) && records_steps(rs)
                == p.remove_steps@
            &&& error_texts(rs).len() > 0 ==> (r matches Err(e) && e@ == "Orphan KillSwitch cleanup failed: "@
                + "Firewall removal failed: "@ + debug_strings_text(error_texts(rs)))
            &&& error_texts(rs).len() == 0 ==> exists|c: Result<(), String>| #[trigger] clear_metadata.ensures((), c)
                && match c {
                Ok(()) => r == Ok::<bool, String>(true),
                Err(m) => r == Err::<bool, String>(m),
            }
        },
{
    let ownership = match ownership_from_metadata(metadata, active_installation_id) {
        Ok(o) => o,
        Err(m) => {
            return Err(m);
        },
    };
    let plan = rebuild_owned_kill_switch_plan(&ownership);
    proof {
        assert(plan_of_metadata(plan, *metadata));
    }
    match remove_kill_switch_plan(executor, &plan) {
        Err(e) => {
            return Err(concat("Orphan KillSwitch cleanup failed: ", e.message().as_str()));
        },
        Ok(()) => {},
    }
    let cleared = clear_metadata();
    match cleared {
        Err(m) => Err(m),
        Ok(()) => Ok(true),
    }
}

} // verus!
