//! The ad and malware block list: when a cached copy is refreshed, what a
//! download must look like, and when a downloaded list is trusted.

use vstd::prelude::*;
use vstd::relations::{sorted_by, total_ordering};
use crate::text::{starts_with, str_starts_with, view_strings};
use crate::sorting::{lemma_lex_total, lex_order, sort_strings, sorted_strings};
use crate::dns_forwarder::{first_occurrences, hosts_domains, parse_hosts_file};

verus! {

/// Where the combined ad and malware list is downloaded from.
pub const BLOCKLIST_URL: &'static str = "https://raw.githubusercontent.com/StevenBlack/hosts/master/hosts";

/// The largest block list accepted: 12 MiB.
pub const MAX_BLOCKLIST_BYTES: u64 = 12582912;

/// A list with fewer distinct domains than this is taken for a broken
/// download.
pub const MIN_BLOCKLIST_DOMAINS: usize = 10000;

/// A cached list older than a day is refreshed.
pub const BLOCKLIST_MAX_AGE_SECS: u64 = 86400;

/// Whether the cached list should be downloaded again: when its age is
/// unknown or over a day.
pub fn blocklist_refresh_due(cache_age_secs: Option<u64>) -> (r: bool)
    ensures
        r == match cache_age_secs {
            Some(age) => age > BLOCKLIST_MAX_AGE_SECS,
            None => true,
        },
{
    match cache_age_secs {
        Some(age) => age > BLOCKLIST_MAX_AGE_SECS,
        None => true,
    }
}

/// Why a downloaded list was refused.
#[derive(Debug, Clone, PartialEq, Eq)]
pub enum BlocklistRejection {
    /// The server answered with another status than success.
    HttpStatus(u16),
    /// Neither plain text nor an octet stream.
    ContentType,
    /// Over `MAX_BLOCKLIST_BYTES`.
    TooLarge,
    /// Not UTF-8 text.
    NotText,
    /// Fewer than `MIN_BLOCKLIST_DOMAINS` distinct domains.
    TooFewDomains(usize),
}

pub open spec fn blocklist_type_ok(content_type: Option<Seq<char>>) -> bool {
    match content_type {
        Some(t) => starts_with(t, "text/plain"@) || starts_with(t, "application/octet-stream"@),
        None => false,
    }
}

/// The response head of a download: a success status, a text or binary
/// content type, and no announced length over the limit.
pub fn check_blocklist_head(status: u16, content_type: Option<&str>, content_length: Option<u64>) -> (r: Result<(), BlocklistRejection>)
    ensures
        !(200 <= status <= 299) ==> r == Err::<(), BlocklistRejection>(BlocklistRejection::HttpStatus(status)),
        (200 <= status <= 299) && !blocklist_type_ok(match content_type {
            Some(t) => Some(t@),
            None => None,
        }) ==> r == Err::<(), BlocklistRejection>(BlocklistRejection::ContentType),
        (200 <= status <= 299) && blocklist_type_ok(match content_type {
            Some(t) => Some(t@),
            None => None,
        }) ==> r == (if content_length matches Some(n) && n > MAX_BLOCKLIST_BYTES {
            Err::<(), BlocklistRejection>(BlocklistRejection::TooLarge)
        } else {
            Ok(())
        }),
{
    if !(200 <= status && status <= 299) {
        return Err(BlocklistRejection::HttpStatus(status));
    }
    let type_ok = match content_type {
        Some(t) => str_starts_with(t, "text/plain") || str_starts_with(t, "application/octet-stream"),
        None => false,
    };
    if !type_ok {
        return Err(BlocklistRejection::ContentType);
    }
    match content_length {
        Some(n) => if n > MAX_BLOCKLIST_BYTES {
            Err(BlocklistRejection::TooLarge)
        } else {
            Ok(())
        },
        None => Ok(()),
    }
}

/// Whether a chunk still fits after `received` bytes.
pub fn blocklist_chunk_fits(received: usize, chunk: usize) -> (r: bool)
    ensures
        r == (received + chunk <= MAX_BLOCKLIST_BYTES),
{
    (received as u64) <= MAX_BLOCKLIST_BYTES && (chunk as u64) <= MAX_BLOCKLIST_BYTES - (received as u64)
}

/// The number of runs of equal neighbours in a sequence.
pub open spec fn run_count(s: Seq<Seq<char>>) -> nat
    decreases s.len(),
{
    if s.len() == 0 {
        0
    } else if s.len() >= 2 && s[s.len() - 2] == s.last() {
        run_count(s.drop_last())
    } else {
        run_count(s.drop_last()) + 1
    }
}

/// In a sorted sequence the runs of equal neighbours are its distinct
/// elements.
proof fn lemma_run_count_sorted(s: Seq<Seq<char>>)
    requires
        sorted_by(s, lex_order()),
        total_ordering(lex_order()),
    ensures
        run_count(s) == s.to_set().len(),
        s.to_set().finite(),
    decreases s.len(),
{
    broadcast use vstd::set::group_set_axioms;
    vstd::seq_lib::seq_to_set_is_finite(s);
    if s.len() == 0 {
        assert(s.to_set() =~= Set::<Seq<char>>::empty());
    } else {
        let init = s.drop_last();
        let leq = lex_order();
        assert(sorted_by(init, leq)) by {
            assert forall|a: int, b: int| 0 <= a < b < init.len() implies #[trigger] leq(init[a], init[b]) by {
                assert(init[a] == s[a] && init[b] == s[b]);
            }
        }
        lemma_run_count_sorted(init);
        assert(s =~= init.push(s.last()));
        assert(s.to_set() =~= init.to_set().insert(s.last())) by {
            assert forall|x: Seq<char>| s.to_set().contains(x) <==> init.to_set().insert(s.last()).contains(x) by {
                if s.contains(x) && x != s.last() {
                    let i = choose|i: int| 0 <= i < s.len() && s[i] == x;
                    assert(i != s.len() - 1);
                    assert(init[i] == x);
                }
                if init.contains(x) {
                    let i = choose|i: int| 0 <= i < init.len() && init[i] == x;
                    assert(s[i] == x);
                }
            }
        }
        if s.len() >= 2 && s[s.len() - 2] == s.last() {
            assert(init.to_set().contains(s.last())) by {
                assert(init[init.len() - 1] == s.last());
            }
        } else {
            assert(!init.to_set().contains(s.last())) by {
                if init.contains(s.last()) {
                    let j = choose|j: int| 0 <= j < init.len() && init[j] == s.last();
                    let k = s.len() - 2;
                    if j < k {
                        assert(leq(s[j], s[k]));
                    }
                    assert(leq(s[k], s[s.len() - 1]));
                    assert(s[k] == s.last());
                }
            }
        }
    }
}

fn count_runs(v: &Vec<String>) -> (n: usize)
    ensures
        n == run_count(view_strings(v@)),
{
    let ghost views = view_strings(v@);
    let mut n: usize = 0;
    let mut i: usize = 0;
    while i < v.len()
        invariant
            i <= v@.len(),
            views == view_strings(v@),
            n == run_count(views.take(i as int)),
            n <= i,
        decreases v.len() - i,
    {
        let ghost t = views.take(i + 1);
        proof {
            assert(t.drop_last() =~= views.take(i as int));
            assert(t.last() == v@[i as int]@);
            if i >= 1 {
                assert(t[t.len() - 2] == v@[i - 1]@);
            }
        }
        if i == 0 || !crate::text::str_eq(v[i - 1].as_str(), v[i].as_str()) {
            n += 1;
        }
        i += 1;
    }
    proof {
        assert(views.take(v@.len() as int) =~= views);
    }
    n
}

/// How many distinct strings a list holds.
pub fn distinct_count(v: &Vec<String>) -> (n: usize)
    ensures
        n == view_strings(v@).to_set().len(),
{
    let sorted = sort_strings(v);
    let n = count_runs(&sorted);
    proof {
        let views = view_strings(v@);
        lemma_lex_total();
        views.lemma_sort_by_ensures(lex_order());
        lemma_run_count_sorted(sorted_strings(views));
        broadcast use vstd::seq_lib::group_to_multiset_ensures;
        assert(sorted_strings(views).to_set() =~= views.to_set()) by {
            assert forall|x: Seq<char>| sorted_strings(views).contains(x) <==> views.contains(x) by {
                assert(sorted_strings(views).to_multiset().count(x) == views.to_multiset().count(x));
            }
        }
    }
    n
}

/// A downloaded list is trusted when it is UTF-8 text and names at least
/// `MIN_BLOCKLIST_DOMAINS` distinct domains; its domains are returned.
pub fn accept_blocklist(text: Option<&str>) -> (r: Result<Vec<String>, BlocklistRejection>)
    ensures
        text is None ==> r == Err::<Vec<String>, BlocklistRejection>(BlocklistRejection::NotText),
        text matches Some(t) ==> {
            let domains = hosts_domains(t@);
            if domains.to_set().len() < MIN_BLOCKLIST_DOMAINS {
                r == Err::<Vec<String>, BlocklistRejection>(BlocklistRejection::TooFewDomains(
                    domains.to_set().len() as usize,
                ))
            } else {
                r matches Ok(v) && view_strings(v@) == first_occurrences(domains)
            }
        },
{
    let t = match text {
        None => {
            return Err(BlocklistRejection::NotText);
        },
        Some(t) => t,
    };
    let domains = parse_hosts_file(t);
    let n = distinct_count(&domains);
    if n < MIN_BLOCKLIST_DOMAINS {
        return Err(BlocklistRejection::TooFewDomains(n));
    }
    Ok(domains)
}

} // verus!
