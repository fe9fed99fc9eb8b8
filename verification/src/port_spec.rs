//! Port specifications such as `80,443` or `50000-65535`, as the packet
//! filter reads them.

use vstd::prelude::*;
use crate::text::{
    chars_of, find_char, lemma_find_char_bounds, lemma_find_char_is_first, parse_unsigned,
    parse_unsigned_range, split_char, split_ranges, trim, trim_bounds,
};

verus! {

/// An inclusive range of ports.
#[derive(Debug, Clone, Copy, PartialEq, Eq, Structural)]
pub struct PortRange {
    pub start: u16,
    pub end: u16,
}

/// The order ranges are kept in: by start, then by end.
pub open spec fn range_before(a: PortRange, b: PortRange) -> bool {
    a.start < b.start || (a.start == b.start && a.end < b.end)
}

pub open spec fn strictly_sorted(s: Seq<PortRange>) -> bool {
    forall|i: int, j: int| 0 <= i < j < s.len() ==> range_before(#[trigger] s[i], #[trigger] s[j])
}

/// The comma-separated tokens of a port specification, each trimmed.
pub open spec fn port_tokens(spec: Seq<char>) -> Seq<Seq<char>> {
    split_char(spec, ',').map_values(|t: Seq<char>| trim(t))
}

/// The range one token denotes: `p` or `a-b` with `a <= b`, each a `u16`.
pub open spec fn token_range(t: Seq<char>) -> Option<PortRange> {
    let i = find_char(t, '-');
    if i < t.len() {
        match (parse_unsigned(t.subrange(0, i), 65535), parse_unsigned(t.subrange(i + 1, t.len() as int), 65535)) {
            (Some(a), Some(b)) => if a <= b {
                Some(PortRange { start: a as u16, end: b as u16 })
            } else {
                None
            },
            _ => None,
        }
    } else {
        match parse_unsigned(t, 65535) {
            Some(p) => Some(PortRange { start: p as u16, end: p as u16 }),
            None => None,
        }
    }
}

/// Some token of `spec` denotes `r`.
pub open spec fn denotes(spec: Seq<char>, r: PortRange) -> bool {
    exists|i: int| 0 <= i < port_tokens(spec).len() && token_range(#[trigger] port_tokens(spec)[i]) == Some(r)
}

/// The ranges of `spec`, strictly sorted: the one sequence that is strictly
/// sorted and holds exactly the ranges some token denotes.
pub open spec fn port_ranges(spec: Seq<char>) -> Seq<PortRange> {
    choose|rs: Seq<PortRange>| strictly_sorted(rs) && forall|x: PortRange| rs.contains(x) <==> denotes(spec, x)
}

/// Two strictly sorted sequences with the same elements are equal.
pub proof fn lemma_sorted_unique(a: Seq<PortRange>, b: Seq<PortRange>)
    requires
        strictly_sorted(a),
        strictly_sorted(b),
        forall|x: PortRange| a.contains(x) <==> b.contains(x),
    ensures
        a == b,
    decreases a.len(),
{
    if a.len() == 0 {
        if b.len() > 0 {
            assert(b.contains(b[0]));
        }
        assert(a =~= b);
    } else {
        assert(a.contains(a[0]));
        assert(b.contains(a[0]));
        assert(b.len() > 0);
        assert(b.contains(b[0]));
        assert(a.contains(b[0]));
        let i = choose|i: int| 0 <= i < b.len() && b[i] == a[0];
        let j = choose|j: int| 0 <= j < a.len() && a[j] == b[0];
        if i > 0 {
            assert(range_before(b[0], b[i]));
            if j > 0 {
                assert(range_before(a[0], a[j]));
            }
        }
        assert(a[0] == b[0]);
        let a1 = a.drop_first();
        let b1 = b.drop_first();
        assert forall|x: PortRange| a1.contains(x) <==> b1.contains(x) by {
            if a1.contains(x) {
                let k = choose|k: int| 0 <= k < a1.len() && a1[k] == x;
                assert(a[k + 1] == x);
                assert(range_before(a[0], a[k + 1]));
                assert(b.contains(x));
                let m = choose|m: int| 0 <= m < b.len() && b[m] == x;
                assert(m != 0);
                assert(b1[m - 1] == x);
            }
            if b1.contains(x) {
                let k = choose|k: int| 0 <= k < b1.len() && b1[k] == x;
                assert(b[k + 1] == x);
                assert(range_before(b[0], b[k + 1]));
                assert(a.contains(x));
                let m = choose|m: int| 0 <= m < a.len() && a[m] == x;
                assert(m != 0);
                assert(a1[m - 1] == x);
            }
        }
        assert forall|p: int, q: int| 0 <= p < q < a1.len() implies range_before(#[trigger] a1[p], #[trigger] a1[q]) by {
            assert(a1[p] == a[p + 1] && a1[q] == a[q + 1]);
        }
        assert forall|p: int, q: int| 0 <= p < q < b1.len() implies range_before(#[trigger] b1[p], #[trigger] b1[q]) by {
            assert(b1[p] == b[p + 1] && b1[q] == b[q + 1]);
        }
        lemma_sorted_unique(a1, b1);
        assert(a =~= seq![a[0]] + a1);
        assert(b =~= seq![b[0]] + b1);
    }
}

/// The range denoted by `v[from..to]`, trimmed.
fn parse_token(v: &Vec<char>, from: usize, to: usize) -> (r: Option<PortRange>)
    requires
        from <= to <= v.len(),
    ensures
        r == token_range(trim(v@.subrange(from as int, to as int))),
{
    let (lo, hi) = trim_bounds(v, from, to);
    let ghost t = v@.subrange(lo as int, hi as int);
    let mut i = lo;
    while i < hi && v[i] != '-'
        invariant
            lo <= i <= hi <= v.len(),
            forall|j: int| lo <= j < i ==> v@[j] != '-',
        decreases hi - i,
    {
        i += 1;
    }
    proof {
        assert forall|j: int| 0 <= j < i - lo implies t[j] != '-' by {
            assert(t[j] == v@[lo + j]);
        }
        if i < hi {
            assert(t[i - lo] == v@[i as int]);
        }
        lemma_find_char_is_first(t, '-', i - lo);
    }
    if i < hi {
        let a = parse_unsigned_range(v, lo, i, 65535);
        let b = parse_unsigned_range(v, i + 1, hi, 65535);
        proof {
            assert(t.subrange(0, i - lo) =~= v@.subrange(lo as int, i as int));
            assert(t.subrange(i - lo + 1, t.len() as int) =~= v@.subrange(i + 1, hi as int));
        }
        match (a, b) {
            (Some(a), Some(b)) => if a <= b {
                Some(PortRange { start: a as u16, end: b as u16 })
            } else {
                None
            },
            _ => None,
        }
    } else {
        match parse_unsigned_range(v, lo, hi, 65535) {
            Some(p) => Some(PortRange { start: p as u16, end: p as u16 }),
            None => None,
        }
    }
}

/// Adds `x` to a strictly sorted list, where it is not there yet.
fn insert_sorted(v: &mut Vec<PortRange>, x: PortRange)
    requires
        strictly_sorted(old(v)@),
    ensures
        strictly_sorted(final(v)@),
        forall|y: PortRange| final(v)@.contains(y) <==> (old(v)@.contains(y) || y == x),
{
    let mut i: usize = 0;
    while i < v.len() && (v[i].start < x.start || (v[i].start == x.start && v[i].end < x.end))
        invariant
            i <= v@.len(),
            v@ == old(v)@,
            forall|j: int| 0 <= j < i ==> range_before(#[trigger] v@[j], x),
        decreases v.len() - i,
    {
        i += 1;
    }
    if i < v.len() && v[i].start == x.start && v[i].end == x.end {
        proof {
            assert(v@[i as int] == x);
            assert forall|y: PortRange| v@.contains(y) <==> (old(v)@.contains(y) || y == x) by {
                if y == x {
                    assert(v@[i as int] == y);
                }
            }
        }
        return;
    }
    let ghost old_v = v@;
    proof {
        if i < old_v.len() {
            assert(range_before(x, old_v[i as int]));
            assert forall|j: int| i <= j < old_v.len() implies range_before(x, #[trigger] old_v[j]) by {
                if j > i {
                    assert(range_before(old_v[i as int], old_v[j]));
                }
            }
        }
    }
    v.insert(i, x);
    proof {
        assert forall|a: int, b: int| 0 <= a < b < v@.len() implies range_before(#[trigger] v@[a], #[trigger] v@[b]) by {
            if b < i {
                assert(v@[a] == old_v[a] && v@[b] == old_v[b]);
            } else if b == i {
                assert(v@[a] == old_v[a]);
            } else if a < i {
                assert(v@[a] == old_v[a] && v@[b] == old_v[b - 1]);
                assert(range_before(old_v[a], x));
                assert(range_before(x, old_v[b - 1]));
            } else if a == i {
                assert(v@[b] == old_v[b - 1]);
            } else {
                assert(v@[a] == old_v[a - 1] && v@[b] == old_v[b - 1]);
            }
        }
        assert forall|y: PortRange| v@.contains(y) <==> (old_v.contains(y) || y == x) by {
            if v@.contains(y) {
                let k = choose|k: int| 0 <= k < v@.len() && v@[k] == y;
                if k < i {
                    assert(old_v[k] == y);
                } else if k > i {
                    assert(old_v[k - 1] == y);
                }
            }
            if old_v.contains(y) {
                let k = choose|k: int| 0 <= k < old_v.len() && old_v[k] == y;
                if k < i {
                    assert(v@[k] == y);
                } else {
                    assert(v@[k + 1] == y);
                }
            }
            if y == x {
                assert(v@[i as int] == x);
            }
        }
        assert(old_v == old(v)@);
        assert(forall|y: PortRange| v@.contains(y) <==> (old(v)@.contains(y) || y == x));
    }
}

/// The ranges a port specification denotes, in order and each once;
/// tokens that are not a port or a range are left out.
pub fn parse_port_spec(spec: &str) -> (r: Vec<PortRange>)
    ensures
        r@ == port_ranges(spec@),
        strictly_sorted(r@),
        forall|x: PortRange| r@.contains(x) <==> denotes(spec@, x),
{
    let v = chars_of(spec);
    let ranges = split_ranges(&v, ',');
    let ghost pieces = split_char(v@, ',');
    let ghost tokens = port_tokens(spec@);
    let mut out: Vec<PortRange> = Vec::new();
    let mut k: usize = 0;
    while k < ranges.len()
        invariant
            k <= ranges@.len() == pieces.len() == tokens.len(),
            v@ == spec@,
            pieces == split_char(v@, ','),
            tokens == port_tokens(spec@),
            forall|i: int| #![trigger ranges@[i]] 0 <= i < ranges@.len() ==> ranges@[i].0 <= ranges@[i].1 <= v@.len()
                && v@.subrange(ranges@[i].0 as int, ranges@[i].1 as int) == pieces[i],
            strictly_sorted(out@),
            forall|x: PortRange| out@.contains(x) <==> exists|i: int| 0 <= i < k && token_range(
                #[trigger] tokens[i],
            ) == Some(x),
        decreases ranges.len() - k,
    {
        let (a, b) = ranges[k];
        proof {
            assert(ranges@[k as int] == (a, b));
            assert(tokens[k as int] == trim(pieces[k as int]));
        }
        let parsed = parse_token(&v, a, b);
        let ghost old_out = out@;
        match parsed {
            Some(x) => {
                insert_sorted(&mut out, x);
            },
            None => {},
        }
        proof {
            assert forall|x: PortRange| out@.contains(x) <==> exists|i: int| 0 <= i < k + 1 && token_range(
                #[trigger] tokens[i],
            ) == Some(x) by {
                if exists|i: int| 0 <= i < k + 1 && token_range(#[trigger] tokens[i]) == Some(x) {
                    let i = choose|i: int| 0 <= i < k + 1 && token_range(#[trigger] tokens[i]) == Some(x);
                    if i < k {
                        assert(old_out.contains(x));
                    }
                }
                if old_out.contains(x) {
                    let i = choose|i: int| 0 <= i < k && token_range(#[trigger] tokens[i]) == Some(x);
                    assert(0 <= i < k + 1);
                }
            }
        }
        k += 1;
    }
    proof {
        let rs = port_ranges(spec@);
        assert(strictly_sorted(out@) && forall|x: PortRange| out@.contains(x) <==> denotes(spec@, x));
        lemma_sorted_unique(out@, rs);
    }
    out
}

} // verus!
