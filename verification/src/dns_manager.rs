//! System DNS settings: the trusted providers, what the system tools report
//! about the active adapters, and how an apply or restore is judged.

use vstd::prelude::*;
use crate::text::{
    concat, str_eq, chars_of, string_of_range, view_strings, join_seq, split_char, split_ranges, lines_seq,
    line_ranges, str_trim, trim,
};
use crate::runtime_config::join_strings;
use crate::firewall::{from_utf8_lossy, utf8_lossy};

verus! {

/// A public DNS provider the user can choose.
#[derive(Debug, Clone)]
pub struct DnsProvider {
    pub id: String,
    pub name: String,
    pub primary: String,
    pub secondary: String,
    pub emoji: String,
    pub description: String,
}

/// An active network adapter and the DNS servers it uses.
#[derive(Debug, Clone, PartialEq, Eq)]
pub struct NetworkAdapter {
    pub name: String,
    pub current_primary_dns: Option<String>,
    pub current_secondary_dns: Option<String>,
    pub is_dhcp: bool,
}

/// The outcome of changing the DNS servers of the active adapters.
#[derive(Debug, Clone, PartialEq, Eq)]
pub struct ApplyDnsResult {
    pub success: bool,
    pub applied_adapters: Vec<String>,
    pub error: Option<String>,
}

#[derive(Debug, Clone, PartialEq, Eq)]
pub enum DnsError {
    CommandFailed(String),
    NoAdapterFound,
    PermissionDenied,
}

pub open spec fn dns_error_text(e: DnsError) -> Seq<char> {
    match e {
        DnsError::CommandFailed(m) => "Komut çalıştırılamadı: "@ + m@,
        DnsError::NoAdapterFound => "Adaptör bulunamadı"@,
        DnsError::PermissionDenied => "Yetki hatası"@,
    }
}

impl DnsError {
    pub fn message(&self) -> (s: String)
        ensures
            s@ == dns_error_text(*self),
    {
        match self {
            DnsError::CommandFailed(m) => concat("Komut çalıştırılamadı: ", m.as_str()),
            DnsError::NoAdapterFound => "Adaptör bulunamadı".to_string(),
            DnsError::PermissionDenied => "Yetki hatası".to_string(),
        }
    }
}

/// The ids and addresses of the built-in providers, in the order shown.
pub open spec fn provider_table() -> Seq<(Seq<char>, Seq<char>, Seq<char>)> {
    seq![
        ("cloudflare"@, "1.1.1.1"@, "1.0.0.1"@),
        ("google"@, "8.8.8.8"@, "8.8.4.4"@),
        ("quad9"@, "9.9.9.9"@, "149.112.112.112"@),
        ("opendns"@, "208.67.222.222"@, "208.67.220.220"@),
        ("adguard"@, "94.140.14.14"@, "94.140.15.15"@),
        ("nextdns"@, "45.90.28.167"@, "45.90.30.167"@),
        ("yandex"@, "77.88.8.8"@, "77.88.8.1"@),
        ("mullvad"@, "194.242.2.4"@, "194.242.2.5"@),
    ]
}

fn provider(id: &str, name: &str, primary: &str, secondary: &str, emoji: &str, description: &str) -> (p: DnsProvider)
    ensures
        p.id@ == id@,
        p.name@ == name@,
        p.primary@ == primary@,
        p.secondary@ == secondary@,
        p.emoji@ == emoji@,
        p.description@ == description@,
{
    DnsProvider {
        id: id.to_string(),
        name: name.to_string(),
        primary: primary.to_string(),
        secondary: secondary.to_string(),
        emoji: emoji.to_string(),
        description: description.to_string(),
    }
}

pub fn builtin_providers() -> (v: Vec<DnsProvider>)
    ensures
        v@.len() == provider_table().len(),
        forall|i: int| 0 <= i < v@.len() ==> (#[trigger] v@[i]).id@ == provider_table()[i].0 && v@[i].primary@
            == provider_table()[i].1 && v@[i].secondary@ == provider_table()[i].2,
{
    let v = vec![
        provider("cloudflare", "Cloudflare", "1.1.1.1", "1.0.0.1", "🌩️", "Speed & Privacy - Fastest DNS"),
        provider("google", "Google", "8.8.8.8", "8.8.4.4", "🔵", "Reliable & Stable"),
        provider("quad9", "Quad9", "9.9.9.9", "149.112.112.112", "9️⃣", "Security Focused - Blocks Malware"),
        provider("opendns", "OpenDNS", "208.67.222.222", "208.67.220.220", "☁️", "Filtering & Security"),
        provider("adguard", "AdGuard", "94.140.14.14", "94.140.15.15", "🛡️", "Blocks Ads & Trackers"),
        provider("nextdns", "NextDNS", "45.90.28.167", "45.90.30.167", "⏩", "Block Ads & Trackers"),
        provider("yandex", "Yandex", "77.88.8.8", "77.88.8.1", "🔴", "Fast & Reliable"),
        provider("mullvad", "Mullvad", "194.242.2.4", "194.242.2.5", "🔐", "Privacy First (No Logging)"),
    ];
    v
}

/// The resolvers counted as trusted: Cloudflare, Google, Quad9, OpenDNS
/// and AdGuard.
pub open spec fn trusted_resolvers() -> Seq<Seq<char>> {
    seq![
        "1.1.1.1"@, "1.0.0.1"@, "8.8.8.8"@, "8.8.4.4"@, "9.9.9.9"@, "149.112.112.112"@, "208.67.222.222"@,
        "208.67.220.220"@, "94.140.14.14"@, "94.140.15.15"@,
    ]
}

fn trusted_resolver_list() -> (v: Vec<&'static str>)
    ensures
        v@.map_values(|s: &'static str| s@) == trusted_resolvers(),
{
    let v = vec![
        "1.1.1.1", "1.0.0.1", "8.8.8.8", "8.8.4.4", "9.9.9.9", "149.112.112.112", "208.67.222.222",
        "208.67.220.220", "94.140.14.14", "94.140.15.15",
    ];
    proof {
        assert(v@.map_values(|s: &'static str| s@) =~= trusted_resolvers());
    }
    v
}

/// Some active adapter uses a trusted resolver as its primary server.
pub open spec fn trusted_primary(a: NetworkAdapter) -> bool {
    a.current_primary_dns matches Some(p) && trusted_resolvers().contains(p@)
}

pub open spec fn uses_trusted_dns(adapters: Seq<NetworkAdapter>) -> bool {
    exists|i: int| 0 <= i < adapters.len() && trusted_primary(#[trigger] adapters[i])
}

fn is_trusted_resolver(address: &str) -> (r: bool)
    ensures
        r == trusted_resolvers().contains(address@),
{
    let trusted = trusted_resolver_list();
    let mut j: usize = 0;
    while j < trusted.len()
        invariant
            j <= trusted@.len(),
            trusted@.map_values(|s: &'static str| s@) == trusted_resolvers(),
            forall|k: int| 0 <= k < j ==> trusted_resolvers()[k] != address@,
        decreases trusted@.len() - j,
    {
        if str_eq(trusted[j], address) {
            assert(trusted_resolvers()[j as int] == address@);
            return true;
        }
        j += 1;
    }
    false
}

pub fn is_using_trusted_dns(adapters: &Vec<NetworkAdapter>) -> (r: bool)
    ensures
        r == uses_trusted_dns(adapters@),
{
    let mut i: usize = 0;
    while i < adapters.len()
        invariant
            i <= adapters@.len(),
            forall|k: int| 0 <= k < i ==> !trusted_primary(#[trigger] adapters@[k]),
        decreases adapters@.len() - i,
    {
        let trusted = match &adapters[i].current_primary_dns {
            Some(p) => is_trusted_resolver(p.as_str()),
            None => false,
        };
        if trusted {
            assert(trusted_primary(adapters@[i as int]));
            return true;
        }
        i += 1;
    }
    false
}

/// The active connections `nmcli -t -f NAME,DEVICE,STATE connection show
/// --active` lists: lines of at least three `:`-separated fields whose
/// third is `activated`, as (name, device).
pub open spec fn active_connections(output: Seq<char>) -> Seq<(Seq<char>, Seq<char>)>
    decreases lines_seq(output).len(),
{
    active_connections_of(lines_seq(output))
}

pub open spec fn active_connections_of(lines: Seq<Seq<char>>) -> Seq<(Seq<char>, Seq<char>)>
    decreases lines.len(),
{
    if lines.len() == 0 {
        seq![]
    } else {
        let parts = split_char(lines.last(), ':');
        let rest = active_connections_of(lines.drop_last());
        if parts.len() >= 3 && parts[2] == "activated"@ {
            rest.push((parts[0], parts[1]))
        } else {
            rest
        }
    }
}

pub fn parse_active_connections(output: &str) -> (r: Vec<(String, String)>)
    ensures
        r@.map_values(|p: (String, String)| (p.0@, p.1@)) == active_connections(output@),
{
    let v = chars_of(output);
    let lines = line_ranges(&v);
    let ghost all = lines_seq(output@);
    let mut out: Vec<(String, String)> = Vec::new();
    let mut k: usize = 0;
    while k < lines.len()
        invariant
            k <= lines@.len(),
            v@ == output@,
            all == lines_seq(output@),
            lines@.len() == all.len(),
            forall|i: int| #![trigger lines@[i]] 0 <= i < lines@.len() ==> lines@[i].0 <= lines@[i].1 <= v@.len()
                && v@.subrange(lines@[i].0 as int, lines@[i].1 as int) == all[i],
            out@.map_values(|p: (String, String)| (p.0@, p.1@)) == active_connections_of(all.take(k as int)),
        decreases lines@.len() - k,
    {
        let (lo, hi) = lines[k];
        let line = string_of_range(&v, lo, hi);
        let lv = chars_of(line.as_str());
        let fields = split_ranges(&lv, ':');
        proof {
            assert(all.take(k + 1).drop_last() =~= all.take(k as int));
            assert(all.take(k + 1).last() == line@);
        }
        let ghost before = out@;
        if fields.len() >= 3 {
            let (a0, b0) = fields[0];
            let (a1, b1) = fields[1];
            let (a2, b2) = fields[2];
            let state = string_of_range(&lv, a2, b2);
            if str_eq(state.as_str(), "activated") {
                let name = string_of_range(&lv, a0, b0);
                let device = string_of_range(&lv, a1, b1);
                out.push((name, device));
                proof {
                    assert(out@.map_values(|p: (String, String)| (p.0@, p.1@)) =~= before.map_values(
                        |p: (String, String)| (p.0@, p.1@),
                    ).push((name@, device@)));
                }
            }
        }
        k += 1;
    }
    proof {
        assert(all.take(lines@.len() as int) =~= all);
    }
    out
}

/// The DNS servers `nmcli -t -f IP4.DNS device show` lists: the second
/// field of each line with exactly two `:`-separated fields; the first two
/// are the primary and the secondary.
pub open spec fn dns_servers_of(lines: Seq<Seq<char>>) -> Seq<Seq<char>>
    decreases lines.len(),
{
    if lines.len() == 0 {
        seq![]
    } else {
        let parts = split_char(lines.last(), ':');
        let rest = dns_servers_of(lines.drop_last());
        if parts.len() == 2 { rest.push(parts[1]) } else { rest }
    }
}

pub open spec fn nth_server(servers: Seq<Seq<char>>, n: int) -> Option<Seq<char>> {
    if n < servers.len() { Some(servers[n]) } else { None }
}

pub fn parse_dns_servers(output: &str) -> (r: (Option<String>, Option<String>))
    ensures
        match r.0 {
            Some(p) => nth_server(dns_servers_of(lines_seq(output@)), 0) == Some(p@),
            None => nth_server(dns_servers_of(lines_seq(output@)), 0) is None,
        },
        match r.1 {
            Some(s) => nth_server(dns_servers_of(lines_seq(output@)), 1) == Some(s@),
            None => nth_server(dns_servers_of(lines_seq(output@)), 1) is None,
        },
{
    let v = chars_of(output);
    let lines = line_ranges(&v);
    let ghost all = lines_seq(output@);
    let mut servers: Vec<String> = Vec::new();
    let mut k: usize = 0;
    while k < lines.len()
        invariant
            k <= lines@.len(),
            v@ == output@,
            all == lines_seq(output@),
            lines@.len() == all.len(),
            forall|i: int| #![trigger lines@[i]] 0 <= i < lines@.len() ==> lines@[i].0 <= lines@[i].1 <= v@.len()
                && v@.subrange(lines@[i].0 as int, lines@[i].1 as int) == all[i],
            view_strings(servers@) == dns_servers_of(all.take(k as int)),
        decreases lines@.len() - k,
    {
        let (lo, hi) = lines[k];
        let line = string_of_range(&v, lo, hi);
        let lv = chars_of(line.as_str());
        let fields = split_ranges(&lv, ':');
        proof {
            assert(all.take(k + 1).drop_last() =~= all.take(k as int));
            assert(all.take(k + 1).last() == line@);
        }
        if fields.len() == 2 {
            let (a1, b1) = fields[1];
            let server = string_of_range(&lv, a1, b1);
            let ghost before = servers@;
            servers.push(server);
            proof {
                assert(view_strings(servers@) =~= view_strings(before).push(server@));
            }
        }
        k += 1;
    }
    proof {
        assert(all.take(lines@.len() as int) =~= all);
    }
    let primary = if servers.len() > 0 { Some(servers[0].clone()) } else { None };
    let secondary = if servers.len() > 1 { Some(servers[1].clone()) } else { None };
    (primary, secondary)
}

/// The judgement of an apply or restore over `adapter_count` adapters:
/// successful when there was an adapter, every adapter was changed and
/// nothing failed; the failures are reported together, separated by
/// spaces.
pub fn finish_dns_change(adapter_count: usize, applied: Vec<String>, errors: &Vec<String>) -> (r: ApplyDnsResult)
    ensures
        r.success == (adapter_count > 0 && errors@.len() == 0 && applied@.len() == adapter_count),
        r.applied_adapters == applied,
        errors@.len() == 0 ==> r.error is None,
        errors@.len() > 0 ==> (r.error matches Some(e) && e@ == join_seq(view_strings(errors@), " "@)),
{
    let success = adapter_count > 0 && errors.len() == 0 && applied.len() == adapter_count;
    let error = if errors.len() == 0 { None } else { Some(join_strings(errors, " ")) };
    ApplyDnsResult { success, applied_adapters: applied, error }
}

pub open spec fn opt_string_view(o: Option<String>) -> Option<Seq<char>> {
    match o {
        Some(s) => Some(s@),
        None => None,
    }
}

/// After an apply, the system must report the requested servers for the
/// adapter: the primary, and the secondary unless it equals the primary.
pub open spec fn reports_applied_dns(reported: Seq<NetworkAdapter>, name: Seq<char>, primary: Seq<char>, secondary: Seq<char>) -> bool {
    exists|i: int| 0 <= i < reported.len() && (#[trigger] reported[i]).name@ == name && (forall|j: int|
        0 <= j < i ==> reported[j].name@ != name) && opt_string_view(reported[i].current_primary_dns) == Some(
        primary) && (secondary == primary || opt_string_view(reported[i].current_secondary_dns) == Some(secondary))
}

fn opt_equals(o: &Option<String>, s: &str) -> (r: bool)
    ensures
        r == (opt_string_view(*o) == Some(s@)),
{
    match o {
        Some(v) => str_eq(v.as_str(), s),
        None => false,
    }
}

pub fn verify_applied_dns(reported: &Vec<NetworkAdapter>, name: &str, primary: &str, secondary: &str) -> (r: bool)
    ensures
        r == reports_applied_dns(reported@, name@, primary@, secondary@),
{
    let mut i: usize = 0;
    while i < reported.len()
        invariant
            i <= reported@.len(),
            forall|j: int| 0 <= j < i ==> reported@[j].name@ != name@,
        decreases reported@.len() - i,
    {
        if str_eq(reported[i].name.as_str(), name) {
            let ok = opt_equals(&reported[i].current_primary_dns, primary) && (str_eq(secondary, primary)
                || opt_equals(&reported[i].current_secondary_dns, secondary));
            proof {
                if !ok {
                    assert forall|k: int| 0 <= k < reported@.len() && (#[trigger] reported@[k]).name@ == name@ && (
                        forall|j: int| 0 <= j < k ==> reported@[j].name@ != name@) implies k == i by {
                        if k < i {
                        } else if k > i {
                            assert(reported@[i as int].name@ == name@);
                        }
                    }
                }
            }
            return ok;
        }
        i += 1;
    }
    false
}

/// After a restore, the system must report the adapter as it was saved:
/// on DHCP if it was (or had no server), otherwise with the same servers.
pub open spec fn reports_restored_dns(reported: Seq<NetworkAdapter>, expected: NetworkAdapter) -> bool {
    exists|i: int| 0 <= i < reported.len() && (#[trigger] reported[i]).name@ == expected.name@ && (forall|j: int|
        0 <= j < i ==> reported[j].name@ != expected.name@) && if expected.is_dhcp
        || expected.current_primary_dns is None {
        reported[i].is_dhcp
    } else {
        opt_string_view(reported[i].current_primary_dns) == opt_string_view(expected.current_primary_dns)
            && opt_string_view(reported[i].current_secondary_dns) == opt_string_view(expected.current_secondary_dns)
    }
}

fn opt_same(a: &Option<String>, b: &Option<String>) -> (r: bool)
    ensures
        r == (opt_string_view(*a) == opt_string_view(*b)),
{
    match (a, b) {
        (Some(x), Some(y)) => str_eq(x.as_str(), y.as_str()),
        (None, None) => true,
        _ => false,
    }
}

pub fn verify_restored_dns(reported: &Vec<NetworkAdapter>, expected: &NetworkAdapter) -> (r: bool)
    ensures
        r == reports_restored_dns(reported@, *expected),
{
    let mut i: usize = 0;
    while i < reported.len()
        invariant
            i <= reported@.len(),
            forall|j: int| 0 <= j < i ==> reported@[j].name@ != expected.name@,
        decreases reported@.len() - i,
    {
        if str_eq(reported[i].name.as_str(), expected.name.as_str()) {
            let ok = if expected.is_dhcp || expected.current_primary_dns.is_none() {
                reported[i].is_dhcp
            } else {
                opt_same(&reported[i].current_primary_dns, &expected.current_primary_dns) && opt_same(
                    &reported[i].current_secondary_dns,
                    &expected.current_secondary_dns,
                )
            };
            proof {
                if !ok {
                    assert forall|k: int| 0 <= k < reported@.len() && (#[trigger] reported@[k]).name@ == expected.name@ && (
                        forall|j: int| 0 <= j < k ==> reported@[j].name@ != expected.name@) implies k == i by {
                        if k > i {
                            assert(reported@[i as int].name@ == expected.name@);
                        }
                    }
                }
            }
            return ok;
        }
        i += 1;
    }
    false
}

pub const DNS_SNAPSHOT_VERSION: u8 = 1;

/// A saved DNS snapshot is usable only in the current format and with at
/// least one adapter.
pub fn check_dns_snapshot(version: u8, adapters: Vec<NetworkAdapter>) -> (r: Result<Vec<NetworkAdapter>, String>)
    ensures
        (version == DNS_SNAPSHOT_VERSION && adapters@.len() > 0) ==> r == Ok::<Vec<NetworkAdapter>, String>(adapters),
        !(version == DNS_SNAPSHOT_VERSION && adapters@.len() > 0) ==> (r matches Err(e)
            && e@ == "DNS recovery snapshot has an unsupported or empty format."@),
{
    if version != DNS_SNAPSHOT_VERSION || adapters.len() == 0 {
        return Err("DNS recovery snapshot has an unsupported or empty format.".to_string());
    }
    Ok(adapters)
}

pub open spec fn no_linux_adapter_text() -> Seq<char> {
    "nmcli komutu bulunamadı veya aktif ağ bağlantısı yok."@
}

pub open spec fn linux_adapter_failure_text(name: Seq<char>) -> Seq<char> {
    name + " adaptörü için nmcli kuralı uygulanamadı."@
}

/// The `nmcli` arguments that point a connection at `servers` (primary and
/// secondary, ignoring the servers DHCP offers), or with `None` give the
/// connection back to DHCP.
pub open spec fn nmcli_dns_args(name: Seq<char>, servers: Option<(Seq<char>, Seq<char>)>) -> Seq<Seq<char>> {
    seq![
        "con"@,
        "mod"@,
        name,
        "ipv4.dns"@,
        match servers {
            Some((p, s)) => p + " "@ + s,
            None => ""@,
        },
        "ipv4.ignore-auto-dns"@,
        if servers is Some { "yes"@ } else { "no"@ },
    ]
}

pub fn nmcli_dns_command(name: &str, servers: Option<(&str, &str)>) -> (r: Vec<String>)
    ensures
        view_strings(r@) == nmcli_dns_args(name@, match servers {
            Some((p, s)) => Some((p@, s@)),
            None => None,
        }),
{
    let mut v: Vec<String> = Vec::new();
    v.push("con".to_string());
    v.push("mod".to_string());
    v.push(name.to_string());
    v.push("ipv4.dns".to_string());
    match servers {
        Some((p, s)) => {
            let head = concat(p, " ");
            v.push(concat(head.as_str(), s));
            v.push("ipv4.ignore-auto-dns".to_string());
            v.push("yes".to_string());
        },
        None => {
            v.push(String::new());
            proof {
                reveal_strlit("");
            }
            v.push("ipv4.ignore-auto-dns".to_string());
            v.push("no".to_string());
        },
    }
    proof {
        let spec_servers = match servers {
            Some((p, s)) => Some((p@, s@)),
            None => None,
        };
        let expected = nmcli_dns_args(name@, spec_servers);
        assert(view_strings(v@).len() == expected.len());
        assert forall|i: int| 0 <= i < expected.len() implies view_strings(v@)[i] == expected[i] by {
            assert(view_strings(v@)[i] == v@[i]@);
        }
        assert(view_strings(v@) =~= expected);
    }
    v
}

/// How an apply through `nmcli` over `adapter_count` active connections
/// is judged: without a connection it fails with its own message;
/// otherwise it succeeds when at least one connection took the servers,
/// and reports the last connection that refused them.
pub fn finish_linux_dns_apply(adapter_count: usize, applied: Vec<String>, last_failed: Option<String>) -> (r: ApplyDnsResult)
    ensures
        adapter_count == 0 ==> !r.success && r.applied_adapters@.len() == 0 && (r.error matches Some(e) && e@
            == no_linux_adapter_text()),
        adapter_count > 0 ==> r.success == (applied@.len() > 0) && r.applied_adapters == applied && match last_failed {
            Some(n) => r.error matches Some(e) && e@ == linux_adapter_failure_text(n@),
            None => r.error is None,
        },
{
    if adapter_count == 0 {
        return ApplyDnsResult {
            success: false,
            applied_adapters: Vec::new(),
            error: Some("nmcli komutu bulunamadı veya aktif ağ bağlantısı yok.".to_string()),
        };
    }
    let error = match last_failed {
        Some(n) => Some(concat(n.as_str(), " adaptörü için nmcli kuralı uygulanamadı.")),
        None => None,
    };
    ApplyDnsResult { success: applied.len() > 0, applied_adapters: applied, error }
}

/// A DHCP reset through `nmcli` succeeds when at least one connection was
/// given back to DHCP; it reports no error text.
pub fn finish_linux_dns_reset(applied: Vec<String>) -> (r: ApplyDnsResult)
    ensures
        r.success == (applied@.len() > 0),
        r.applied_adapters == applied,
        r.error is None,
{
    ApplyDnsResult { success: applied.len() > 0, applied_adapters: applied, error: None }
}

pub open spec fn empty_snapshot_text() -> Seq<char> {
    "The current DNS configuration is empty; recovery snapshot was not written."@
}

/// The adapters a recovery snapshot records: an empty configuration is
/// not written.
pub fn snapshot_to_save(adapters: Vec<NetworkAdapter>) -> (r: Result<Vec<NetworkAdapter>, String>)
    ensures
        adapters@.len() > 0 ==> r == Ok::<Vec<NetworkAdapter>, String>(adapters),
        adapters@.len() == 0 ==> (r matches Err(e) && e@ == empty_snapshot_text()),
{
    if adapters.len() == 0 {
        return Err("The current DNS configuration is empty; recovery snapshot was not written.".to_string());
    }
    Ok(adapters)
}

// ---------------------------------------------------------------------------
// Windows: changing adapters with `netsh`
// ---------------------------------------------------------------------------

/// What `"s".parse::<core::net::Ipv4Addr>()` makes of a text.
pub uninterp spec fn parsed_ipv4(s: Seq<char>) -> Option<[u8; 4]>;

/// `Ipv4Addr::from_str`; its octets when the text is a dotted IPv4 address.
#[verifier::external_body]
fn parse_ipv4(s: &str) -> (r: Option<[u8; 4]>)
    ensures
        r == parsed_ipv4(s@),
{
    s.parse::<core::net::Ipv4Addr>().ok().map(|a| a.octets())
}

/// The refusal of servers that are not both IPv4 addresses.
pub fn check_dns_addresses(primary: &str, secondary: &str) -> (r: Option<ApplyDnsResult>)
    ensures
        (parsed_ipv4(primary@) is Some && parsed_ipv4(secondary@) is Some) ==> r is None,
        !(parsed_ipv4(primary@) is Some && parsed_ipv4(secondary@) is Some) ==> (r matches Some(f) && !f.success
            && f.applied_adapters@.len() == 0 && (f.error matches Some(e) && e@
            == "DNS addresses must be valid IPv4 addresses."@)),
{
    if parse_ipv4(primary).is_none() || parse_ipv4(secondary).is_none() {
        return Some(ApplyDnsResult {
            success: false,
            applied_adapters: Vec::new(),
            error: Some("DNS addresses must be valid IPv4 addresses.".to_string()),
        });
    }
    None
}

/// The result of an apply without an active adapter.
pub fn no_adapter_result() -> (r: ApplyDnsResult)
    ensures
        !r.success,
        r.applied_adapters@.len() == 0,
        r.error matches Some(e) && e@ == "Aktif ağ adaptörü bulunamadı."@,
{
    ApplyDnsResult { success: false, applied_adapters: Vec::new(), error: Some("Aktif ağ adaptörü bulunamadı.".to_string()) }
}

/// A `netsh interface ip` step on an adapter's DNS servers.
#[derive(Debug, Clone, PartialEq, Eq)]
pub enum NetshDnsStep {
    /// Make `server` the only, static, server.
    SetStatic(String),
    /// Add `server` as the second server.
    AddSecondary(String),
    /// Take the servers from DHCP.
    SetDhcp,
}

pub open spec fn netsh_dns_args(name: Seq<char>, step: NetshDnsStep) -> Seq<Seq<char>> {
    match step {
        NetshDnsStep::SetStatic(server) => seq!["interface"@, "ip"@, "set"@, "dns"@, name, "static"@, server@],
        NetshDnsStep::AddSecondary(server) => seq!["interface"@, "ip"@, "add"@, "dns"@, name, server@, "index=2"@],
        NetshDnsStep::SetDhcp => seq!["interface"@, "ip"@, "set"@, "dns"@, name, "dhcp"@],
    }
}

/// The `netsh` arguments of a step.
pub fn netsh_dns_command(name: &str, step: &NetshDnsStep) -> (r: Vec<String>)
    ensures
        view_strings(r@) == netsh_dns_args(name@, *step),
{
    let mut v: Vec<String> = Vec::new();
    v.push("interface".to_string());
    v.push("ip".to_string());
    match step {
        NetshDnsStep::SetStatic(server) => {
            v.push("set".to_string());
            v.push("dns".to_string());
            v.push(name.to_string());
            v.push("static".to_string());
            v.push(server.clone());
        },
        NetshDnsStep::AddSecondary(server) => {
            v.push("add".to_string());
            v.push("dns".to_string());
            v.push(name.to_string());
            v.push(server.clone());
            v.push("index=2".to_string());
        },
        NetshDnsStep::SetDhcp => {
            v.push("set".to_string());
            v.push("dns".to_string());
            v.push(name.to_string());
            v.push("dhcp".to_string());
        },
    }
    proof {
        let expected = netsh_dns_args(name@, *step);
        assert(view_strings(v@).len() == expected.len());
        assert forall|i: int| 0 <= i < expected.len() implies view_strings(v@)[i] == expected[i] by {
            assert(view_strings(v@)[i] == v@[i]@);
        }
        assert(view_strings(v@) =~= expected);
    }
    v
}

/// How a `netsh` run ended: it succeeded, it failed with this error
/// output, or it could not be started.
#[derive(Debug, Clone, PartialEq, Eq)]
pub enum NetshRun {
    Succeeded,
    Failed(Vec<u8>),
    NotStarted(String),
}

pub open spec fn netsh_failure_detail(run: NetshRun) -> Seq<char> {
    match run {
        NetshRun::Failed(stderr) => trim(utf8_lossy(stderr@)),
        NetshRun::NotStarted(e) => trim(e@),
        NetshRun::Succeeded => Seq::empty(),
    }
}

fn failure_detail(run: &NetshRun) -> (r: String)
    ensures
        r@ == netsh_failure_detail(*run),
{
    match run {
        NetshRun::Failed(stderr) => str_trim(from_utf8_lossy(stderr.as_slice()).as_str()),
        NetshRun::NotStarted(e) => str_trim(e.as_str()),
        NetshRun::Succeeded => String::new(),
    }
}

/// The DNS servers an apply sets on an adapter: the primary, then the
/// secondary unless it is the primary.
pub fn apply_steps(primary: &str, secondary: &str) -> (r: Vec<NetshDnsStep>)
    ensures
        secondary@ == primary@ ==> r@.len() == 1,
        secondary@ != primary@ ==> r@.len() == 2 && (r@[1] matches NetshDnsStep::AddSecondary(s) && s@ == secondary@),
        r@.len() >= 1 && (r@[0] matches NetshDnsStep::SetStatic(p) && p@ == primary@),
{
    let mut v: Vec<NetshDnsStep> = Vec::new();
    v.push(NetshDnsStep::SetStatic(primary.to_string()));
    if !str_eq(secondary, primary) {
        v.push(NetshDnsStep::AddSecondary(secondary.to_string()));
    }
    v
}

/// The failure an apply reports for an adapter, from how setting the
/// primary and (when it ran) adding the secondary went.
pub open spec fn apply_adapter_error(name: Seq<char>, primary: NetshRun, secondary: Option<bool>) -> Option<Seq<char>> {
    if !(primary is Succeeded) {
        Some("Adapter '"@ + name + "' failed: "@ + netsh_failure_detail(primary))
    } else if secondary == Some(false) {
        Some("Secondary DNS could not be applied to '"@ + name + "'."@)
    } else {
        None
    }
}

pub fn apply_adapter_outcome(name: &str, primary: &NetshRun, secondary: Option<bool>) -> (r: Option<String>)
    ensures
        match (r, apply_adapter_error(name@, *primary, secondary)) {
            (Some(a), Some(b)) => a@ == b,
            (None, None) => true,
            _ => false,
        },
{
    match primary {
        NetshRun::Succeeded => match secondary {
            Some(false) => {
                let m = concat("Secondary DNS could not be applied to '", name);
                Some(concat(m.as_str(), "'."))
            },
            _ => None,
        },
        _ => {
            let m = concat("Adapter '", name);
            let m = concat(m.as_str(), "' failed: ");
            Some(concat(m.as_str(), failure_detail(primary).as_str()))
        },
    }
}

/// The steps that restore an adapter from a snapshot: DHCP, or its
/// primary server, when it had one and was not on DHCP; then its secondary
/// server, when it had one.
pub open spec fn restore_steps_of(a: NetworkAdapter) -> Seq<NetshDnsStep> {
    let first = if a.is_dhcp || a.current_primary_dns is None {
        NetshDnsStep::SetDhcp
    } else {
        NetshDnsStep::SetStatic(a.current_primary_dns->0)
    };
    match a.current_secondary_dns {
        Some(s) => seq![first, NetshDnsStep::AddSecondary(s)],
        None => seq![first],
    }
}

pub fn restore_steps(a: &NetworkAdapter) -> (r: Vec<NetshDnsStep>)
    ensures
        r@ == restore_steps_of(*a),
{
    let mut v: Vec<NetshDnsStep> = Vec::new();
    match &a.current_primary_dns {
        Some(p) => if a.is_dhcp {
            v.push(NetshDnsStep::SetDhcp);
        } else {
            v.push(NetshDnsStep::SetStatic(p.clone()));
        },
        None => v.push(NetshDnsStep::SetDhcp),
    }
    match &a.current_secondary_dns {
        Some(s) => v.push(NetshDnsStep::AddSecondary(s.clone())),
        None => {},
    }
    proof {
        assert(v@ =~= restore_steps_of(*a));
    }
    v
}

/// The failure a restore reports for an adapter.
pub open spec fn restore_adapter_error(name: Seq<char>, first: NetshRun, secondary: Option<bool>) -> Option<Seq<char>> {
    if !(first is Succeeded) {
        Some("DNS restore failed for '"@ + name + "': "@ + netsh_failure_detail(first))
    } else if secondary == Some(false) {
        Some("Secondary DNS restore failed for '"@ + name + "'."@)
    } else {
        None
    }
}

pub fn restore_adapter_outcome(name: &str, first: &NetshRun, secondary: Option<bool>) -> (r: Option<String>)
    ensures
        match (r, restore_adapter_error(name@, *first, secondary)) {
            (Some(a), Some(b)) => a@ == b,
            (None, None) => true,
            _ => false,
        },
{
    match first {
        NetshRun::Succeeded => match secondary {
            Some(false) => {
                let m = concat("Secondary DNS restore failed for '", name);
                Some(concat(m.as_str(), "'."))
            },
            _ => None,
        },
        _ => {
            let m = concat("DNS restore failed for '", name);
            let m = concat(m.as_str(), "': ");
            Some(concat(m.as_str(), failure_detail(first).as_str()))
        },
    }
}

/// The adapters the system does not report with the applied servers, as
/// errors, in order.
pub fn unreported_apply_errors(
    adapters: &Vec<NetworkAdapter>,
    reported: &Vec<NetworkAdapter>,
    primary: &str,
    secondary: &str,
) -> (r: Vec<String>)
    ensures
        view_strings(r@) == adapters@.filter(|a: NetworkAdapter| !reports_applied_dns(reported@, a.name@, primary@, secondary@)).map_values(
            |a: NetworkAdapter| "Windows did not report the expected DNS values for '"@ + a.name@ + "'."@,
        ),
{
    let ghost keep = |a: NetworkAdapter| !reports_applied_dns(reported@, a.name@, primary@, secondary@);
    let ghost text = |a: NetworkAdapter| "Windows did not report the expected DNS values for '"@ + a.name@ + "'."@;
    let mut out: Vec<String> = Vec::new();
    let mut i: usize = 0;
    while i < adapters.len()
        invariant
            i <= adapters@.len(),
            keep == (|a: NetworkAdapter| !reports_applied_dns(reported@, a.name@, primary@, secondary@)),
            text == (|a: NetworkAdapter| "Windows did not report the expected DNS values for '"@ + a.name@ + "'."@),
            view_strings(out@) == adapters@.take(i as int).filter(keep).map_values(text),
        decreases adapters@.len() - i,
    {
        let a = &adapters[i];
        let ok = verify_applied_dns(reported, a.name.as_str(), primary, secondary);
        let ghost before = out@;
        if !ok {
            let m = concat("Windows did not report the expected DNS values for '", a.name.as_str());
            out.push(concat(m.as_str(), "'."));
        }
        proof {
            assert(adapters@.take(i + 1) =~= adapters@.take(i as int).push(adapters@[i as int]));
            adapters@.take(i as int).lemma_filter_push(adapters@[i as int], keep);
            if !ok {
                assert(view_strings(out@) =~= view_strings(before).push(text(adapters@[i as int])));
            } else {
                assert(view_strings(out@) =~= view_strings(before));
            }
            assert(view_strings(out@) =~= adapters@.take(i + 1).filter(keep).map_values(text));
        }
        i += 1;
    }
    proof {
        assert(adapters@.take(adapters@.len() as int) =~= adapters@);
    }
    out
}

/// The snapshot adapters the system does not report as restored, as
/// errors, in order.
pub fn unverified_restore_errors(expected: &Vec<NetworkAdapter>, current: &Vec<NetworkAdapter>) -> (r: Vec<String>)
    ensures
        view_strings(r@) == expected@.filter(|a: NetworkAdapter| !reports_restored_dns(current@, a)).map_values(
            |a: NetworkAdapter| "Windows did not verify the restored DNS snapshot for '"@ + a.name@ + "'."@,
        ),
{
    let ghost keep = |a: NetworkAdapter| !reports_restored_dns(current@, a);
    let ghost text = |a: NetworkAdapter| "Windows did not verify the restored DNS snapshot for '"@ + a.name@ + "'."@;
    let mut out: Vec<String> = Vec::new();
    let mut i: usize = 0;
    while i < expected.len()
        invariant
            i <= expected@.len(),
            keep == (|a: NetworkAdapter| !reports_restored_dns(current@, a)),
            text == (|a: NetworkAdapter| "Windows did not verify the restored DNS snapshot for '"@ + a.name@ + "'."@),
            view_strings(out@) == expected@.take(i as int).filter(keep).map_values(text),
        decreases expected@.len() - i,
    {
        let a = &expected[i];
        let ok = verify_restored_dns(current, a);
        let ghost before = out@;
        if !ok {
            let m = concat("Windows did not verify the restored DNS snapshot for '", a.name.as_str());
            out.push(concat(m.as_str(), "'."));
        }
        proof {
            assert(expected@.take(i + 1) =~= expected@.take(i as int).push(expected@[i as int]));
            expected@.take(i as int).lemma_filter_push(expected@[i as int], keep);
            if !ok {
                assert(view_strings(out@) =~= view_strings(before).push(text(expected@[i as int])));
            } else {
                assert(view_strings(out@) =~= view_strings(before));
            }
            assert(view_strings(out@) =~= expected@.take(i + 1).filter(keep).map_values(text));
        }
        i += 1;
    }
    proof {
        assert(expected@.take(expected@.len() as int) =~= expected@);
    }
    out
}

} // verus!
