//! Lexicographic order on text, and sorting a list of strings by it (the
//! order of `str`'s `Ord`: by code point, a proper prefix first).

use vstd::prelude::*;
use vstd::relations::{sorted_by, total_ordering};
use crate::text::{chars_of, view_strings};

verus! {

pub open spec fn lex_lt(a: Seq<char>, b: Seq<char>) -> bool
    decreases a.len(),
{
    if b.len() == 0 {
        false
    } else if a.len() == 0 {
        true
    } else if a[0] != b[0] {
        a[0] < b[0]
    } else {
        lex_lt(a.drop_first(), b.drop_first())
    }
}

pub open spec fn lex_le(a: Seq<char>, b: Seq<char>) -> bool {
    a == b || lex_lt(a, b)
}

pub open spec fn lex_order() -> spec_fn(Seq<char>, Seq<char>) -> bool {
    |a: Seq<char>, b: Seq<char>| lex_le(a, b)
}

/// `strs` sorted by `lex_le`.
pub open spec fn sorted_strings(strs: Seq<Seq<char>>) -> Seq<Seq<char>> {
    strs.sort_by(lex_order())
}

pub proof fn lemma_lex_lt_irreflexive(a: Seq<char>)
    ensures
        !lex_lt(a, a),
    decreases a.len(),
{
    if a.len() > 0 {
        lemma_lex_lt_irreflexive(a.drop_first());
    }
}

/// Exactly one of `a < b`, `a == b`, `b < a`.
pub proof fn lemma_lex_trichotomy(a: Seq<char>, b: Seq<char>)
    ensures
        a == b || lex_lt(a, b) || lex_lt(b, a),
        !(lex_lt(a, b) && lex_lt(b, a)),
    decreases a.len(),
{
    if a.len() > 0 && b.len() > 0 {
        if a[0] == b[0] {
            lemma_lex_trichotomy(a.drop_first(), b.drop_first());
            if a.drop_first() == b.drop_first() {
                assert(a =~= seq![a[0]] + a.drop_first());
                assert(b =~= seq![b[0]] + b.drop_first());
            }
        }
    } else if a.len() == 0 && b.len() == 0 {
        assert(a =~= b);
    }
}

pub proof fn lemma_lex_lt_transitive(a: Seq<char>, b: Seq<char>, c: Seq<char>)
    requires
        lex_lt(a, b),
        lex_lt(b, c),
    ensures
        lex_lt(a, c),
    decreases a.len(),
{
    if a.len() > 0 && a[0] == b[0] && b[0] == c[0] {
        lemma_lex_lt_transitive(a.drop_first(), b.drop_first(), c.drop_first());
    }
}

/// `lex_le` is a total order.
pub proof fn lemma_lex_total()
    ensures
        total_ordering(lex_order()),
{
    let f = lex_order();
    assert forall|x: Seq<char>, y: Seq<char>| #[trigger] f(x, y) && #[trigger] f(y, x) implies x == y by {
        lemma_lex_trichotomy(x, y);
    }
    assert forall|x: Seq<char>, y: Seq<char>, z: Seq<char>| #[trigger] f(x, y) && #[trigger] f(y, z) implies f(
        x,
        z,
    ) by {
        if lex_lt(x, y) && lex_lt(y, z) {
            lemma_lex_lt_transitive(x, y, z);
        }
    }
    assert forall|x: Seq<char>, y: Seq<char>| #[trigger] f(x, y) || #[trigger] f(y, x) by {
        lemma_lex_trichotomy(x, y);
    }
}

/// Whether `a` comes strictly before `b`.
pub fn str_lex_lt(a: &str, b: &str) -> (r: bool)
    ensures
        r == lex_lt(a@, b@),
{
    let av = chars_of(a);
    let bv = chars_of(b);
    let mut i: usize = 0;
    proof {
        assert(av@.subrange(0, av@.len() as int) =~= av@);
        assert(bv@.subrange(0, bv@.len() as int) =~= bv@);
    }
    while i < av.len() && i < bv.len() && av[i] == bv[i]
        invariant
            i <= av@.len(),
            i <= bv@.len(),
            lex_lt(av@, bv@) == lex_lt(av@.subrange(i as int, av@.len() as int), bv@.subrange(i as int, bv@.len() as int)),
        decreases av.len() - i,
    {
        proof {
            let sa = av@.subrange(i as int, av@.len() as int);
            let sb = bv@.subrange(i as int, bv@.len() as int);
            assert(sa.drop_first() =~= av@.subrange(i + 1, av@.len() as int));
            assert(sb.drop_first() =~= bv@.subrange(i + 1, bv@.len() as int));
        }
        i += 1;
    }
    proof {
        assert(av@.subrange(0, av@.len() as int) =~= av@);
        assert(bv@.subrange(0, bv@.len() as int) =~= bv@);
    }
    if i == bv.len() {
        false
    } else if i == av.len() {
        true
    } else {
        av[i] < bv[i]
    }
}

/// Merges two sorted lists into one sorted list of all their strings.
fn merge(left: &Vec<String>, right: &Vec<String>) -> (r: Vec<String>)
    requires
        total_ordering(lex_order()),
        sorted_by(view_strings(left@), lex_order()),
        sorted_by(view_strings(right@), lex_order()),
    ensures
        sorted_by(view_strings(r@), lex_order()),
        view_strings(r@).to_multiset() == view_strings(left@).to_multiset().add(view_strings(right@).to_multiset()),
{
    broadcast use vstd::seq_lib::group_to_multiset_ensures;
    broadcast use vstd::multiset::group_multiset_axioms;

    let ghost ls = view_strings(left@);
    let ghost rs = view_strings(right@);
    let ghost leq = lex_order();
    let mut out: Vec<String> = Vec::new();
    let mut i: usize = 0;
    let mut j: usize = 0;
    proof {
        assert(ls.take(0) =~= Seq::<Seq<char>>::empty());
        assert(rs.take(0) =~= Seq::<Seq<char>>::empty());
        assert(view_strings(out@) =~= Seq::<Seq<char>>::empty());
    }
    while i < left.len() || j < right.len()
        invariant
            i <= ls.len(),
            j <= rs.len(),
            ls == view_strings(left@),
            rs == view_strings(right@),
            leq == lex_order(),
            total_ordering(leq),
            sorted_by(ls, leq),
            sorted_by(rs, leq),
            sorted_by(view_strings(out@), leq),
            view_strings(out@).to_multiset() == ls.take(i as int).to_multiset().add(rs.take(j as int).to_multiset()),
            forall|k: int|
                0 <= k < out@.len() ==> (i < ls.len() ==> leq(#[trigger] view_strings(out@)[k], ls[i as int])) && (j
                    < rs.len() ==> leq(view_strings(out@)[k], rs[j as int])),
        decreases ls.len() - i + rs.len() - j,
    {
        let ghost outs = view_strings(out@);
        let take_left = if j >= right.len() {
            true
        } else if i >= left.len() {
            false
        } else {
            !str_lex_lt(right[j].as_str(), left[i].as_str())
        };
        proof {
            if i < ls.len() {
                assert(ls[i as int] == left@[i as int]@);
            }
            if j < rs.len() {
                assert(rs[j as int] == right@[j as int]@);
            }
        }
        let x = if take_left { left[i].clone() } else { right[j].clone() };
        proof {
            if take_left {
                assert(x@ == ls[i as int]);
                if j < rs.len() {
                    lemma_lex_trichotomy(rs[j as int], x@);
                    assert(leq(x@, rs[j as int]));
                }
            } else {
                assert(x@ == rs[j as int]);
                if i < ls.len() {
                    assert(lex_lt(x@, ls[i as int]));
                    assert(leq(x@, ls[i as int]));
                }
            }
        }
        out.push(x);
        proof {
            let outs2 = view_strings(out@);
            assert(outs2 =~= outs.push(x@));
            let ni: int = if take_left { i + 1 } else { i as int };
            let nj: int = if take_left { j as int } else { j + 1 };
            vstd::seq_lib::to_multiset_build(outs, x@);
            assert(outs2.to_multiset() =~= outs.to_multiset().insert(x@));
            let a0 = ls.take(i as int).to_multiset();
            let b0 = rs.take(j as int).to_multiset();
            if take_left {
                assert(ls.take(ni) =~= ls.take(i as int).push(x@));
                vstd::seq_lib::to_multiset_build(ls.take(i as int), x@);
                assert(a0.insert(x@).add(b0) =~= a0.add(b0).insert(x@));
            } else {
                assert(rs.take(nj) =~= rs.take(j as int).push(x@));
                vstd::seq_lib::to_multiset_build(rs.take(j as int), x@);
                assert(a0.add(b0.insert(x@)) =~= a0.add(b0).insert(x@));
            }
            assert(outs2.to_multiset() =~= ls.take(ni).to_multiset().add(rs.take(nj).to_multiset()));
            assert forall|a: int, b: int| 0 <= a < b < outs2.len() implies #[trigger] leq(outs2[a], outs2[b]) by {
                if b == outs.len() {
                    assert(outs2[a] == outs[a]);
                    if take_left {
                        assert(leq(outs[a], ls[i as int]));
                    } else {
                        assert(leq(outs[a], rs[j as int]));
                    }
                } else {
                    assert(outs2[a] == outs[a] && outs2[b] == outs[b]);
                }
            }
            assert forall|k: int| 0 <= k < outs2.len() implies (ni < ls.len() ==> leq(#[trigger] outs2[k], ls[ni]))
                && (nj < rs.len() ==> leq(outs2[k], rs[nj])) by {
                if ni < ls.len() {
                    if take_left {
                        assert(leq(ls[i as int], ls[ni]));
                        if k < outs.len() {
                            assert(outs2[k] == outs[k]);
                            assert(leq(outs[k], ls[i as int]));
                        }
                    } else if k < outs.len() {
                        assert(outs2[k] == outs[k]);
                    }
                }
                if nj < rs.len() {
                    if !take_left {
                        assert(leq(rs[j as int], rs[nj]));
                        if k < outs.len() {
                            assert(outs2[k] == outs[k]);
                            assert(leq(outs[k], rs[j as int]));
                        }
                    } else if k < outs.len() {
                        assert(outs2[k] == outs[k]);
                    }
                }
            }
        }
        if take_left {
            i += 1;
        } else {
            j += 1;
        }
    }
    proof {
        assert(ls.take(ls.len() as int) =~= ls);
        assert(rs.take(rs.len() as int) =~= rs);
    }
    out
}

/// The strings of `v[lo..hi]`, sorted by merging sorted halves.
fn merge_sort(v: &Vec<String>, lo: usize, hi: usize) -> (r: Vec<String>)
    requires
        lo <= hi <= v@.len(),
        total_ordering(lex_order()),
    ensures
        sorted_by(view_strings(r@), lex_order()),
        view_strings(r@).to_multiset() == view_strings(v@).subrange(lo as int, hi as int).to_multiset(),
    decreases hi - lo,
{
    broadcast use vstd::seq_lib::group_to_multiset_ensures;

    let ghost views = view_strings(v@);
    if hi == lo {
        let none: Vec<String> = Vec::new();
        proof {
            assert(views.subrange(lo as int, hi as int) =~= Seq::<Seq<char>>::empty());
            assert(view_strings(none@) =~= Seq::<Seq<char>>::empty());
        }
        return none;
    }
    if hi - lo == 1 {
        let mut one: Vec<String> = Vec::new();
        one.push(v[lo].clone());
        proof {
            assert(view_strings(one@) =~= views.subrange(lo as int, hi as int));
        }
        return one;
    }
    let mid = lo + (hi - lo) / 2;
    let left = merge_sort(v, lo, mid);
    let right = merge_sort(v, mid, hi);
    let r = merge(&left, &right);
    proof {
        assert(views.subrange(lo as int, hi as int) =~= views.subrange(lo as int, mid as int) + views.subrange(
            mid as int,
            hi as int,
        ));
        vstd::seq_lib::lemma_multiset_commutative(
            views.subrange(lo as int, mid as int),
            views.subrange(mid as int, hi as int),
        );
    }
    r
}

/// The strings of `v`, sorted.
pub fn sort_strings(v: &Vec<String>) -> (r: Vec<String>)
    ensures
        view_strings(r@) == sorted_strings(view_strings(v@)),
{
    let ghost views = view_strings(v@);
    proof {
        lemma_lex_total();
    }
    let out = merge_sort(v, 0, v.len());
    proof {
        assert(views.subrange(0, views.len() as int) =~= views);
        views.lemma_sort_by_ensures(lex_order());
        vstd::seq_lib::lemma_sorted_unique(view_strings(out@), views.sort_by(lex_order()), lex_order());
    }
    out
}

/// Sorting forgets order: two duplicate-free lists with the same elements
/// sort to the same list.
pub proof fn lemma_sorted_same_elements(a: Seq<Seq<char>>, b: Seq<Seq<char>>)
    requires
        a.no_duplicates(),
        b.no_duplicates(),
        forall|x: Seq<char>| a.contains(x) <==> b.contains(x),
    ensures
        sorted_strings(a) == sorted_strings(b),
{
    broadcast use vstd::seq_lib::group_to_multiset_ensures;
    a.lemma_multiset_has_no_duplicates();
    b.lemma_multiset_has_no_duplicates();
    assert forall|x: Seq<char>| a.to_multiset().count(x) == b.to_multiset().count(x) by {
        if a.contains(x) {
            assert(a.to_multiset().contains(x));
            assert(b.to_multiset().contains(x));
        } else {
            assert(!b.contains(x));
        }
    }
    assert(a.to_multiset() =~= b.to_multiset());
    lemma_lex_total();
    a.lemma_sort_by_ensures(lex_order());
    b.lemma_sort_by_ensures(lex_order());
    vstd::seq_lib::lemma_sorted_unique(a.sort_by(lex_order()), b.sort_by(lex_order()), lex_order());
}

} // verus!
