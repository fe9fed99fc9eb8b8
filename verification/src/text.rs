//! Character-sequence helpers shared by the validators and planners.
//!
//! Every helper is specified over `Seq<char>`, the view of `str` and
//! `String`, so that callers state their contracts over plain sequences.

use vstd::prelude::*;

verus! {

/// `char::is_whitespace`: the Unicode `White_Space` property.
pub open spec fn is_ws(c: char) -> bool {
    ||| c == '\t' || c == '\n' || c == '\u{0B}' || c == '\u{0C}' || c == '\r' || c == ' '
    ||| c == '\u{85}' || c == '\u{A0}' || c == '\u{1680}'
    ||| ('\u{2000}' <= c && c <= '\u{200A}')
    ||| c == '\u{2028}' || c == '\u{2029}' || c == '\u{202F}' || c == '\u{205F}' || c == '\u{3000}'
}

pub open spec fn is_ascii_char(c: char) -> bool {
    (c as u32) < 128
}

pub open spec fn is_ascii_seq(s: Seq<char>) -> bool {
    forall|i: int| 0 <= i < s.len() ==> is_ascii_char(#[trigger] s[i])
}

pub open spec fn is_ascii_digit(c: char) -> bool {
    '0' <= c && c <= '9'
}

pub open spec fn is_ascii_alnum(c: char) -> bool {
    ||| is_ascii_digit(c)
    ||| ('a' <= c && c <= 'z')
    ||| ('A' <= c && c <= 'Z')
}

/// `char::to_ascii_lowercase`.
pub open spec fn ascii_lower(c: char) -> char {
    if 'A' <= c && c <= 'Z' {
        ((c as u32) + 32) as char
    } else {
        c
    }
}

/// `str::to_ascii_lowercase`.
pub open spec fn ascii_lower_seq(s: Seq<char>) -> Seq<char> {
    s.map_values(|c: char| ascii_lower(c))
}

/// `char::is_control`: the general category `Cc`.
pub open spec fn is_control(c: char) -> bool {
    (c as u32) < 0x20 || (0x7f <= (c as u32) && (c as u32) < 0xa0)
}

/// `str::trim_start`.
pub open spec fn trim_start(s: Seq<char>) -> Seq<char>
    decreases s.len(),
{
    if s.len() > 0 && is_ws(s[0]) {
        trim_start(s.drop_first())
    } else {
        s
    }
}

/// `str::trim_end`.
pub open spec fn trim_end(s: Seq<char>) -> Seq<char>
    decreases s.len(),
{
    if s.len() > 0 && is_ws(s.last()) {
        trim_end(s.drop_last())
    } else {
        s
    }
}

/// `str::trim`.
pub open spec fn trim(s: Seq<char>) -> Seq<char> {
    trim_end(trim_start(s))
}

/// `str::trim_end_matches` with a single character.
pub open spec fn trim_end_char(s: Seq<char>, c: char) -> Seq<char>
    decreases s.len(),
{
    if s.len() > 0 && s.last() == c {
        trim_end_char(s.drop_last(), c)
    } else {
        s
    }
}

/// `str::trim_start_matches` with a single character.
pub open spec fn trim_start_char(s: Seq<char>, c: char) -> Seq<char>
    decreases s.len(),
{
    if s.len() > 0 && s[0] == c {
        trim_start_char(s.drop_first(), c)
    } else {
        s
    }
}

pub open spec fn starts_with(s: Seq<char>, p: Seq<char>) -> bool {
    p.len() <= s.len() && s.subrange(0, p.len() as int) == p
}

pub open spec fn ends_with(s: Seq<char>, p: Seq<char>) -> bool {
    p.len() <= s.len() && s.subrange(s.len() - p.len(), s.len() as int) == p
}

/// `str::contains` with a string pattern.
pub open spec fn contains_seq(s: Seq<char>, p: Seq<char>) -> bool {
    exists|i: int| 0 <= i && i + p.len() <= s.len() && #[trigger] s.subrange(i, i + p.len()) == p
}

/// Index of the first occurrence of `c`, or `s.len()` when there is none.
pub open spec fn find_char(s: Seq<char>, c: char) -> int
    decreases s.len(),
{
    if s.len() == 0 {
        0
    } else if s[0] == c {
        0
    } else {
        1 + find_char(s.drop_first(), c)
    }
}

/// `str::split` with a single-character pattern: every piece, empty
/// ones included.
pub open spec fn split_char(s: Seq<char>, d: char) -> Seq<Seq<char>>
    decreases s.len(),
{
    let i = find_char(s, d);
    proof {
        lemma_find_char_bounds(s, d);
    }
    if i >= s.len() {
        seq![s]
    } else {
        seq![s.subrange(0, i)] + split_char(s.subrange(i + 1, s.len() as int), d)
    }
}

/// The pieces of `str::lines`: `\n` ends a line, a `\r` directly before
/// it is dropped, and the last line may be unterminated.
pub open spec fn lines_seq(s: Seq<char>) -> Seq<Seq<char>>
    decreases s.len(),
{
    if s.len() == 0 {
        seq![]
    } else {
        let i = find_char(s, '\n');
        proof {
            lemma_find_char_bounds(s, '\n');
        }
        if i >= s.len() {
            seq![s]
        } else {
            let line = s.subrange(0, i);
            let line = if line.len() > 0 && line.last() == '\r' {
                line.drop_last()
            } else {
                line
            };
            seq![line] + lines_seq(s.subrange(i + 1, s.len() as int))
        }
    }
}

/// `[a, b, c].join(sep)`.
pub open spec fn join_seq(parts: Seq<Seq<char>>, sep: Seq<char>) -> Seq<char>
    decreases parts.len(),
{
    if parts.len() == 0 {
        seq![]
    } else if parts.len() == 1 {
        parts[0]
    } else {
        join_seq(parts.drop_last(), sep) + sep + parts.last()
    }
}

pub open spec fn view_strings(v: Seq<String>) -> Seq<Seq<char>> {
    v.map_values(|s: String| s@)
}

pub proof fn lemma_find_char_bounds(s: Seq<char>, c: char)
    ensures
        0 <= find_char(s, c) <= s.len(),
        find_char(s, c) < s.len() ==> s[find_char(s, c)] == c,
        forall|j: int| 0 <= j < find_char(s, c) ==> s[j] != c,
    decreases s.len(),
{
    if s.len() > 0 && s[0] != c {
        lemma_find_char_bounds(s.drop_first(), c);
        assert forall|j: int| 0 <= j < find_char(s, c) implies s[j] != c by {
            if j > 0 {
                assert(s[j] == s.drop_first()[j - 1]);
            }
        }
    }
}

/// Joining a list with one more piece in front.
pub proof fn lemma_join_cons(a: Seq<char>, rest: Seq<Seq<char>>, sep: Seq<char>)
    requires
        rest.len() > 0,
    ensures
        join_seq(seq![a] + rest, sep) == a + sep + join_seq(rest, sep),
    decreases rest.len(),
{
    let all = seq![a] + rest;
    if rest.len() == 1 {
        assert(all.drop_last() =~= seq![a]);
        assert(all.last() == rest[0]);
        assert(join_seq(seq![a], sep) == a);
        assert(join_seq(rest, sep) == rest[0]);
        assert(join_seq(all, sep) == join_seq(all.drop_last(), sep) + sep + all.last());
    } else {
        assert(all.drop_last() =~= seq![a] + rest.drop_last());
        assert(all.last() == rest.last());
        lemma_join_cons(a, rest.drop_last(), sep);
        assert(join_seq(all, sep) == join_seq(all.drop_last(), sep) + sep + all.last());
        assert(join_seq(rest, sep) == join_seq(rest.drop_last(), sep) + sep + rest.last());
        assert(a + sep + join_seq(rest.drop_last(), sep) + sep + rest.last() =~= a + sep + (join_seq(
            rest.drop_last(),
            sep,
        ) + sep + rest.last()));
    }
}

/// Splitting never yields an empty list.
pub proof fn lemma_split_char_nonempty(s: Seq<char>, d: char)
    ensures
        split_char(s, d).len() >= 1,
{
    lemma_find_char_bounds(s, d);
}

/// Joining the pieces of a split with the separator gives the text back.
pub proof fn lemma_join_split(s: Seq<char>, d: char)
    ensures
        join_seq(split_char(s, d), seq![d]) == s,
    decreases s.len(),
{
    lemma_find_char_bounds(s, d);
    let i = find_char(s, d);
    if i < s.len() {
        let tail = s.subrange(i + 1, s.len() as int);
        lemma_join_split(tail, d);
        lemma_split_char_nonempty(tail, d);
        lemma_join_cons(s.subrange(0, i), split_char(tail, d), seq![d]);
        assert(s.subrange(0, i) + seq![d] + tail =~= s);
    }
}

/// The split of `label.rest`, for a label without the separator.
pub proof fn lemma_split_char_prefix(label: Seq<char>, d: char, rest: Seq<char>)
    requires
        !label.contains(d),
    ensures
        split_char(label + seq![d] + rest, d) == seq![label] + split_char(rest, d),
{
    let s = label + seq![d] + rest;
    assert forall|j: int| 0 <= j < label.len() implies s[j] != d by {
        assert(s[j] == label[j]);
    }
    lemma_find_char_is_first(s, d, label.len() as int);
    assert(s.subrange(0, label.len() as int) =~= label);
    assert(s.subrange(label.len() as int + 1, s.len() as int) =~= rest);
}

/// The first index at which `c` occurs, characterised without recursion.
pub proof fn lemma_find_char_is_first(s: Seq<char>, c: char, k: int)
    requires
        0 <= k <= s.len(),
        k < s.len() ==> s[k] == c,
        forall|j: int| 0 <= j < k ==> s[j] != c,
    ensures
        find_char(s, c) == k,
    decreases s.len(),
{
    if s.len() > 0 && s[0] != c {
        assert forall|j: int| 0 <= j < k - 1 implies s.drop_first()[j] != c by {
            assert(s.drop_first()[j] == s[j + 1]);
        }
        if k - 1 < s.len() - 1 {
            assert(s.drop_first()[k - 1] == s[k]);
        }
        lemma_find_char_is_first(s.drop_first(), c, k - 1);
    }
}

/// `String::push`.
#[verifier::external_body]
pub fn push_char(s: &mut String, c: char)
    ensures
        final(s)@ == old(s)@.push(c),
{
    s.push(c);
}

/// The characters of `s`, in order.
pub fn chars_of(s: &str) -> (v: Vec<char>)
    ensures
        v@ == s@,
{
    let mut v: Vec<char> = Vec::new();
    for c in it: s.chars()
        invariant
            it.seq() == s@,
            v@ == it.seq().take(it.index() as int),
    {
        v.push(c);
    }
    proof {
        assert(v@ =~= s@);
    }
    v
}

/// The string made of `v[from..to]`.
pub fn string_of_range(v: &Vec<char>, from: usize, to: usize) -> (s: String)
    requires
        from <= to <= v.len(),
    ensures
        s@ == v@.subrange(from as int, to as int),
{
    let mut s = String::new();
    let mut i = from;
    while i < to
        invariant
            from <= i <= to <= v.len(),
            s@ == v@.subrange(from as int, i as int),
        decreases to - i,
    {
        push_char(&mut s, v[i]);
        proof {
            assert(v@.subrange(from as int, i + 1) =~= v@.subrange(from as int, i as int).push(v@[i as int]));
        }
        i += 1;
    }
    s
}

pub fn string_of(v: &Vec<char>) -> (s: String)
    ensures
        s@ == v@,
{
    let s = string_of_range(v, 0, v.len());
    proof {
        assert(v@.subrange(0, v@.len() as int) =~= v@);
    }
    s
}

/// A copy of `s` as an owned `String`.
pub fn to_string(s: &str) -> (r: String)
    ensures
        r@ == s@,
{
    let v = chars_of(s);
    string_of(&v)
}

/// `a + b` as a new `String`.
pub fn concat(a: &str, b: &str) -> (r: String)
    ensures
        r@ == a@ + b@,
{
    let mut r = to_string(a);
    r.append(b);
    r
}

pub fn seq_eq(a: &Vec<char>, b: &Vec<char>) -> (r: bool)
    ensures
        r == (a@ == b@),
{
    if a.len() != b.len() {
        return false;
    }
    let mut i: usize = 0;
    while i < a.len()
        invariant
            a.len() == b.len(),
            i <= a.len(),
            forall|j: int| 0 <= j < i ==> a@[j] == b@[j],
        decreases a.len() - i,
    {
        if a[i] != b[i] {
            return false;
        }
        i += 1;
    }
    proof {
        assert(a@ =~= b@);
    }
    true
}

/// `a == b` for string slices.
pub fn str_eq(a: &str, b: &str) -> (r: bool)
    ensures
        r == (a@ == b@),
{
    let va = chars_of(a);
    let vb = chars_of(b);
    seq_eq(&va, &vb)
}

/// Whether `v[at..]` begins with `p`.
pub fn has_prefix_at(v: &Vec<char>, at: usize, p: &Vec<char>) -> (r: bool)
    requires
        at <= v.len(),
    ensures
        r == starts_with(v@.subrange(at as int, v@.len() as int), p@),
{
    let ghost rest = v@.subrange(at as int, v@.len() as int);
    if p.len() > v.len() - at {
        return false;
    }
    let mut i: usize = 0;
    while i < p.len()
        invariant
            at + p.len() <= v.len(),
            i <= p.len(),
            rest == v@.subrange(at as int, v@.len() as int),
            forall|j: int| 0 <= j < i ==> v@[at + j] == p@[j],
        decreases p.len() - i,
    {
        if v[at + i] != p[i] {
            proof {
                assert(rest.subrange(0, p@.len() as int)[i as int] == v@[at + i]);
            }
            return false;
        }
        i += 1;
    }
    proof {
        assert(rest.subrange(0, p@.len() as int) =~= p@);
    }
    true
}

/// `s.starts_with(p)`.
pub fn str_starts_with(s: &str, p: &str) -> (r: bool)
    ensures
        r == starts_with(s@, p@),
{
    let v = chars_of(s);
    let pv = chars_of(p);
    let r = has_prefix_at(&v, 0, &pv);
    proof {
        assert(v@.subrange(0, v@.len() as int) =~= v@);
    }
    r
}

/// `s.ends_with(p)`.
pub fn str_ends_with(s: &str, p: &str) -> (r: bool)
    ensures
        r == ends_with(s@, p@),
{
    let v = chars_of(s);
    let pv = chars_of(p);
    if pv.len() > v.len() {
        return false;
    }
    let at = v.len() - pv.len();
    let r = has_prefix_at(&v, at, &pv);
    proof {
        assert(v@.subrange(at as int, v@.len() as int).subrange(0, pv@.len() as int)
            =~= v@.subrange(at as int, v@.len() as int));
    }
    r
}

/// `s.strip_prefix(p)`.
pub fn str_strip_prefix(s: &str, p: &str) -> (r: Option<String>)
    ensures
        r is Some <==> starts_with(s@, p@),
        r matches Some(rest) ==> rest@ == s@.subrange(p@.len() as int, s@.len() as int),
{
    let v = chars_of(s);
    let pv = chars_of(p);
    if has_prefix_at(&v, 0, &pv) {
        proof {
            assert(v@.subrange(0, v@.len() as int) =~= v@);
        }
        Some(string_of_range(&v, pv.len(), v.len()))
    } else {
        proof {
            assert(v@.subrange(0, v@.len() as int) =~= v@);
        }
        None
    }
}

/// Whether `c` occurs in `v`.
pub fn vec_contains_char(v: &Vec<char>, c: char) -> (r: bool)
    ensures
        r == v@.contains(c),
{
    let mut i: usize = 0;
    while i < v.len()
        invariant
            i <= v.len(),
            forall|j: int| 0 <= j < i ==> v@[j] != c,
        decreases v.len() - i,
    {
        if v[i] == c {
            return true;
        }
        i += 1;
    }
    false
}

/// `s.contains(c)`.
pub fn str_contains_char(s: &str, c: char) -> (r: bool)
    ensures
        r == s@.contains(c),
{
    let v = chars_of(s);
    vec_contains_char(&v, c)
}

/// `s.contains(p)` with a string pattern.
pub fn vec_contains_seq(v: &Vec<char>, p: &Vec<char>) -> (r: bool)
    ensures
        r == contains_seq(v@, p@),
{
    if p.len() > v.len() {
        proof {
            assert forall|i: int| 0 <= i && i + p@.len() <= v@.len() implies #[trigger] v@.subrange(i, i + p@.len()) != p@ by {
            }
        }
        return false;
    }
    let limit = v.len() - p.len();
    let mut i: usize = 0;
    loop
        invariant
            p.len() <= v.len(),
            limit == v.len() - p.len(),
            i <= limit,
            forall|j: int| 0 <= j < i ==> #[trigger] v@.subrange(j, j + p@.len()) != p@,
        decreases limit - i,
    {
        let found = has_prefix_at(v, i, p);
        proof {
            assert(v@.subrange(i as int, v@.len() as int).subrange(0, p@.len() as int)
                =~= v@.subrange(i as int, i + p@.len()));
        }
        if found {
            return true;
        }
        if i == limit {
            return false;
        }
        i += 1;
    }
}

/// `s.contains(p)` with a string pattern.
pub fn str_contains(s: &str, p: &str) -> (r: bool)
    ensures
        r == contains_seq(s@, p@),
{
    let v = chars_of(s);
    let pv = chars_of(p);
    vec_contains_seq(&v, &pv)
}

pub open spec fn is_ascii_lower_alnum_char(c: char) -> bool {
    is_ascii_alnum(c)
}

/// The decimal digits of `n`, most significant first.
pub open spec fn decimal(n: nat) -> Seq<char>
    decreases n,
{
    if n < 10 {
        seq![digit_char(n)]
    } else {
        decimal(n / 10) + seq![digit_char(n % 10)]
    }
}

pub open spec fn digit_char(d: nat) -> char {
    (('0' as u32) + d) as char
}

/// `n.to_string()` for an unsigned integer.
pub fn u64_to_decimal(n: u64) -> (s: String)
    ensures
        s@ == decimal(n as nat),
    decreases n,
{
    let d = (n % 10) as u32;
    let c = char_from_digit(d);
    if n < 10 {
        let mut s = String::new();
        push_char(&mut s, c);
        proof {
            assert(s@ =~= decimal(n as nat));
        }
        s
    } else {
        let mut s = u64_to_decimal(n / 10);
        push_char(&mut s, c);
        s
    }
}

pub fn char_from_digit(d: u32) -> (c: char)
    requires
        d < 10,
    ensures
        c == digit_char(d as nat),
{
    if d == 0 { '0' }
    else if d == 1 { '1' }
    else if d == 2 { '2' }
    else if d == 3 { '3' }
    else if d == 4 { '4' }
    else if d == 5 { '5' }
    else if d == 6 { '6' }
    else if d == 7 { '7' }
    else if d == 8 { '8' }
    else { '9' }
}

/// The value of a sequence of decimal digits.
pub open spec fn digits_value(s: Seq<char>) -> nat
    decreases s.len(),
{
    if s.len() == 0 {
        0
    } else {
        digits_value(s.drop_last()) * 10 + ((s.last() as u32) - ('0' as u32)) as nat
    }
}

pub open spec fn all_digits(s: Seq<char>) -> bool {
    forall|i: int| 0 <= i < s.len() ==> is_ascii_digit(#[trigger] s[i])
}

/// The magnitude accepted by the standard library's unsigned integer
/// parser: an optional `+` and at least one decimal digit.
pub open spec fn unsigned_magnitude(s: Seq<char>) -> Option<nat> {
    let body = if s.len() > 0 && s[0] == '+' { s.drop_first() } else { s };
    if body.len() == 0 || !all_digits(body) {
        None
    } else {
        Some(digits_value(body))
    }
}

/// `s.parse::<uN>()` for a type whose maximum is `max`.
pub open spec fn parse_unsigned(s: Seq<char>, max: nat) -> Option<nat> {
    match unsigned_magnitude(s) {
        Some(v) => if v <= max { Some(v) } else { None },
        None => None,
    }
}

/// `s.parse::<i32>()`.
pub open spec fn parse_i32(s: Seq<char>) -> Option<int> {
    if s.len() > 0 && s[0] == '-' {
        let body = s.drop_first();
        if body.len() == 0 || !all_digits(body) || digits_value(body) > 0x8000_0000 {
            None
        } else {
            Some(-(digits_value(body) as int))
        }
    } else {
        match parse_unsigned(s, 0x7fff_ffff) {
            Some(v) => Some(v as int),
            None => None,
        }
    }
}

pub proof fn lemma_digits_value_grows(s: Seq<char>, k: int)
    requires
        0 <= k <= s.len(),
        all_digits(s),
    ensures
        digits_value(s.subrange(0, k)) <= digits_value(s),
    decreases s.len() - k,
{
    if k < s.len() {
        lemma_digits_value_grows(s, k + 1);
        assert(s.subrange(0, k + 1).drop_last() =~= s.subrange(0, k));
        assert(is_ascii_digit(s[k]));
    } else {
        assert(s.subrange(0, k) =~= s);
    }
}

/// The value of the decimal digits `v[from..to]`, or `None` when it
/// exceeds `max` or some character is not a digit.
pub fn digits_up_to(v: &Vec<char>, from: usize, to: usize, max: u64) -> (r: Option<u64>)
    requires
        from <= to <= v.len(),
        max < 0x1_0000_0000,
    ensures
        r matches Some(n) ==> all_digits(v@.subrange(from as int, to as int))
            && n == digits_value(v@.subrange(from as int, to as int)) && n <= max,
        r is None ==> !all_digits(v@.subrange(from as int, to as int))
            || digits_value(v@.subrange(from as int, to as int)) > max,
{
    let ghost body = v@.subrange(from as int, to as int);
    let mut acc: u64 = 0;
    let mut i = from;
    while i < to
        invariant
            from <= i <= to <= v.len(),
            max < 0x1_0000_0000,
            body == v@.subrange(from as int, to as int),
            all_digits(v@.subrange(from as int, i as int)),
            acc == digits_value(v@.subrange(from as int, i as int)),
            acc <= max,
        decreases to - i,
    {
        let c = v[i];
        if !('0' <= c && c <= '9') {
            proof {
                assert(body[i - from] == c);
            }
            return None;
        }
        let d = (c as u32 - '0' as u32) as u64;
        proof {
            assert(v@.subrange(from as int, i + 1).drop_last() =~= v@.subrange(from as int, i as int));
        }
        let next = acc * 10 + d;
        if next > max {
            proof {
                assert(v@.subrange(from as int, i + 1) =~= body.subrange(0, i + 1 - from));
                if all_digits(body) {
                    lemma_digits_value_grows(body, i + 1 - from);
                }
            }
            return None;
        }
        acc = next;
        i += 1;
    }
    Some(acc)
}

/// `v[from..to].parse::<uN>()` where `max` is the type's maximum.
pub fn parse_unsigned_range(v: &Vec<char>, from: usize, to: usize, max: u64) -> (r: Option<u64>)
    requires
        from <= to <= v.len(),
        max < 0x1_0000_0000,
    ensures
        r matches Some(n) ==> parse_unsigned(v@.subrange(from as int, to as int), max as nat) == Some(n as nat),
        r is None ==> parse_unsigned(v@.subrange(from as int, to as int), max as nat) is None,
{
    let ghost s = v@.subrange(from as int, to as int);
    let mut start = from;
    if from < to && v[from] == '+' {
        start = from + 1;
        proof {
            assert(s.drop_first() =~= v@.subrange(start as int, to as int));
        }
    }
    if start == to {
        return None;
    }
    let r = digits_up_to(v, start, to, max);
    proof {
        if start == from {
            assert(s =~= v@.subrange(start as int, to as int));
        }
    }
    r
}

/// `s.parse::<uN>()` where `max` is the type's maximum.
pub fn parse_unsigned_str(s: &str, max: u64) -> (r: Option<u64>)
    requires
        max < 0x1_0000_0000,
    ensures
        r matches Some(n) ==> parse_unsigned(s@, max as nat) == Some(n as nat),
        r is None ==> parse_unsigned(s@, max as nat) is None,
{
    let v = chars_of(s);
    let r = parse_unsigned_range(&v, 0, v.len(), max);
    proof {
        assert(v@.subrange(0, v@.len() as int) =~= v@);
    }
    r
}

/// `v[from..to].parse::<i32>()`.
pub fn parse_i32_range(v: &Vec<char>, from: usize, to: usize) -> (r: Option<i64>)
    requires
        from <= to <= v.len(),
    ensures
        r matches Some(n) ==> parse_i32(v@.subrange(from as int, to as int)) == Some(n as int),
        r is None ==> parse_i32(v@.subrange(from as int, to as int)) is None,
{
    let ghost s = v@.subrange(from as int, to as int);
    if from < to && v[from] == '-' {
        proof {
            assert(s.drop_first() =~= v@.subrange(from + 1, to as int));
        }
        if from + 1 == to {
            return None;
        }
        match digits_up_to(v, from + 1, to, 0x8000_0000) {
            Some(n) => Some(-(n as i64)),
            None => None,
        }
    } else {
        match parse_unsigned_range(v, from, to, 0x7fff_ffff) {
            Some(n) => Some(n as i64),
            None => None,
        }
    }
}

/// The first verdict that `f` gives on the pieces, in order.
pub open spec fn first_verdict<E>(pieces: Seq<Seq<char>>, f: spec_fn(Seq<char>) -> Option<E>) -> Option<E>
    decreases pieces.len(),
{
    if pieces.len() == 0 {
        None
    } else {
        match first_verdict(pieces.drop_last(), f) {
            Some(e) => Some(e),
            None => f(pieces.last()),
        }
    }
}

/// A verdict on a prefix of the pieces is the verdict on all of them.
pub proof fn lemma_first_verdict_persists<E>(pieces: Seq<Seq<char>>, f: spec_fn(Seq<char>) -> Option<E>, k: int)
    requires
        0 <= k <= pieces.len(),
        first_verdict(pieces.take(k), f) is Some,
    ensures
        first_verdict(pieces, f) == first_verdict(pieces.take(k), f),
    decreases pieces.len() - k,
{
    if k < pieces.len() {
        assert(pieces.take(k + 1).drop_last() =~= pieces.take(k));
        lemma_first_verdict_persists(pieces, f, k + 1);
    } else {
        assert(pieces.take(k) =~= pieces);
    }
}

/// One step of a scan: the verdict on `k + 1` pieces from the verdict on `k`.
pub proof fn lemma_first_verdict_step<E>(pieces: Seq<Seq<char>>, f: spec_fn(Seq<char>) -> Option<E>, k: int)
    requires
        0 <= k < pieces.len(),
        first_verdict(pieces.take(k), f) is None,
    ensures
        first_verdict(pieces.take(k + 1), f) == f(pieces[k]),
{
    assert(pieces.take(k + 1).drop_last() =~= pieces.take(k));
}

pub proof fn lemma_first_verdict_all<E>(pieces: Seq<Seq<char>>, f: spec_fn(Seq<char>) -> Option<E>)
    ensures
        first_verdict(pieces.take(pieces.len() as int), f) == first_verdict(pieces, f),
{
    assert(pieces.take(pieces.len() as int) =~= pieces);
}

/// The bounds of the pieces of `v` split at `d`: piece `i` is
/// `v[r[i].0 .. r[i].1]`.
pub fn split_ranges(v: &Vec<char>, d: char) -> (r: Vec<(usize, usize)>)
    ensures
        r@.len() == split_char(v@, d).len(),
        forall|i: int| #![trigger r@[i]] 0 <= i < r@.len() ==> r@[i].0 <= r@[i].1 <= v@.len()
            && v@.subrange(r@[i].0 as int, r@[i].1 as int) == split_char(v@, d)[i],
{
    let len = v.len();
    let mut r: Vec<(usize, usize)> = Vec::new();
    let mut start: usize = 0;
    let ghost mut done: Seq<Seq<char>> = seq![];
    proof {
        assert(v@.subrange(0, len as int) =~= v@);
    }
    loop
        invariant
            start <= len,
            len == v.len(),
            done.len() == r@.len(),
            done + split_char(v@.subrange(start as int, len as int), d) == split_char(v@, d),
            forall|i: int| #![trigger r@[i]] 0 <= i < r@.len() ==> r@[i].0 <= r@[i].1 <= v@.len()
                && v@.subrange(r@[i].0 as int, r@[i].1 as int) == done[i],
        decreases len - start,
    {
        let ghost rest = v@.subrange(start as int, len as int);
        let mut end = start;
        while end < len && v[end] != d
            invariant
                start <= end <= len,
                len == v.len(),
                forall|j: int| start <= j < end ==> v@[j] != d,
            decreases len - end,
        {
            end += 1;
        }
        proof {
            lemma_find_char_is_first(rest, d, end - start);
            lemma_find_char_bounds(rest, d);
            assert(rest.subrange(0, end - start) =~= v@.subrange(start as int, end as int));
        }
        let ghost old_r = r@;
        r.push((start, end));
        proof {
            assert(r@[old_r.len() as int] == (start, end));
            assert forall|i: int| 0 <= i < old_r.len() implies r@[i] == old_r[i] by {}
        }
        if end == len {
            proof {
                assert(split_char(rest, d) == seq![rest]);
                assert(rest =~= v@.subrange(start as int, end as int));
                assert(done.push(rest) =~= done + seq![rest]);
                let old_done = done;
                done = done.push(rest);
                assert forall|i: int| #![trigger r@[i]] 0 <= i < r@.len() implies r@[i].0 <= r@[i].1 <= v@.len()
                    && v@.subrange(r@[i].0 as int, r@[i].1 as int) == split_char(v@, d)[i] by {
                    if i < old_done.len() {
                        assert(done[i] == old_done[i]);
                        assert(r@[i] == old_r[i]);
                        assert(v@.subrange(old_r[i].0 as int, old_r[i].1 as int) == old_done[i]);
                    } else {
                        assert(done[i] == rest);
                    }
                }
            }
            return r;
        }
        proof {
            let tail = rest.subrange(end - start + 1, rest.len() as int);
            assert(tail =~= v@.subrange(end + 1, len as int));
            assert(split_char(rest, d) == seq![rest.subrange(0, end - start)] + split_char(tail, d));
            assert(done + split_char(rest, d) =~= done.push(rest.subrange(0, end - start)) + split_char(tail, d));
            let old_done = done;
            done = done.push(rest.subrange(0, end - start));
            assert forall|i: int| #![trigger r@[i]] 0 <= i < r@.len() implies r@[i].0 <= r@[i].1 <= v@.len()
                && v@.subrange(r@[i].0 as int, r@[i].1 as int) == done[i] by {
                if i < old_done.len() {
                    assert(done[i] == old_done[i]);
                    assert(r@[i] == old_r[i]);
                    assert(v@.subrange(old_r[i].0 as int, old_r[i].1 as int) == old_done[i]);
                } else {
                    assert(done[i] == rest.subrange(0, end - start));
                }
            }
        }
        start = end + 1;
    }
}

/// The bounds of the lines of `v` as `str::lines` yields them: line `i`
/// is `v[r[i].0 .. r[i].1]`.
pub fn line_ranges(v: &Vec<char>) -> (r: Vec<(usize, usize)>)
    ensures
        r@.len() == lines_seq(v@).len(),
        forall|i: int| #![trigger r@[i]] 0 <= i < r@.len() ==> r@[i].0 <= r@[i].1 <= v@.len()
            && v@.subrange(r@[i].0 as int, r@[i].1 as int) == lines_seq(v@)[i],
{
    let len = v.len();
    let mut r: Vec<(usize, usize)> = Vec::new();
    let mut start: usize = 0;
    let ghost mut done: Seq<Seq<char>> = seq![];
    proof {
        assert(v@.subrange(0, len as int) =~= v@);
    }
    while start < len
        invariant
            start <= len,
            len == v.len(),
            done.len() == r@.len(),
            done + lines_seq(v@.subrange(start as int, len as int)) == lines_seq(v@),
            forall|i: int| #![trigger r@[i]] 0 <= i < r@.len() ==> r@[i].0 <= r@[i].1 <= v@.len()
                && v@.subrange(r@[i].0 as int, r@[i].1 as int) == done[i],
        decreases len - start,
    {
        let ghost rest = v@.subrange(start as int, len as int);
        let mut end = start;
        while end < len && v[end] != '\n'
            invariant
                start <= end <= len,
                len == v.len(),
                forall|j: int| start <= j < end ==> v@[j] != '\n',
            decreases len - end,
        {
            end += 1;
        }
        proof {
            lemma_find_char_is_first(rest, '\n', end - start);
            lemma_find_char_bounds(rest, '\n');
        }
        let line_end = if end < len && end > start && v[end - 1] == '\r' { end - 1 } else { end };
        let ghost line = v@.subrange(start as int, line_end as int);
        proof {
            if end < len {
                let raw = rest.subrange(0, end - start);
                assert(raw =~= v@.subrange(start as int, end as int));
                if raw.len() > 0 && raw.last() == '\r' {
                    assert(raw.drop_last() =~= line);
                } else {
                    assert(raw =~= line);
                }
                let tail = rest.subrange(end - start + 1, rest.len() as int);
                assert(tail =~= v@.subrange(end + 1, len as int));
                assert(lines_seq(rest) == seq![line] + lines_seq(tail));
            } else {
                assert(rest =~= line);
                assert(lines_seq(rest) == seq![line]);
                assert(v@.subrange(len as int, len as int) =~= Seq::<char>::empty());
                assert(lines_seq(v@.subrange(len as int, len as int)) =~= Seq::<Seq<char>>::empty());
            }
        }
        let ghost old_r = r@;
        let ghost old_done = done;
        r.push((start, line_end));
        proof {
            done = done.push(line);
            assert(r@[old_r.len() as int] == (start, line_end));
            assert forall|i: int| #![trigger r@[i]] 0 <= i < r@.len() implies r@[i].0 <= r@[i].1 <= v@.len()
                && v@.subrange(r@[i].0 as int, r@[i].1 as int) == done[i] by {
                if i < old_done.len() {
                    assert(done[i] == old_done[i]);
                    assert(r@[i] == old_r[i]);
                } else {
                    assert(done[i] == line);
                }
            }
        }
        if end < len {
            proof {
                assert(old_done + (seq![line] + lines_seq(v@.subrange(end + 1, len as int))) =~= done + lines_seq(
                    v@.subrange(end + 1, len as int),
                ));
            }
            start = end + 1;
        } else {
            proof {
                assert(old_done + seq![line] =~= done + lines_seq(v@.subrange(len as int, len as int)));
            }
            start = len;
        }
    }
    proof {
        assert(v@.subrange(start as int, len as int) =~= Seq::<char>::empty());
        assert(done + lines_seq(v@.subrange(start as int, len as int)) =~= done);
    }
    r
}

pub open spec fn is_nonempty(l: Seq<char>) -> bool {
    l.len() > 0
}

/// The lines of `s`, each trimmed, blank ones left out.
pub open spec fn trimmed_lines(s: Seq<char>) -> Seq<Seq<char>> {
    lines_seq(s).map_values(|l: Seq<char>| trim(l)).filter(|l: Seq<char>| is_nonempty(l))
}

/// `s.lines().map(str::trim).filter(|l| !l.is_empty())`, collected.
pub fn nonblank_trimmed_lines(s: &str) -> (r: Vec<String>)
    ensures
        view_strings(r@) == trimmed_lines(s@),
{
    let v = chars_of(s);
    let ranges = line_ranges(&v);
    let ghost lines = lines_seq(v@);
    let ghost pred = |l: Seq<char>| is_nonempty(l);
    let mut out: Vec<String> = Vec::new();
    let mut k: usize = 0;
    while k < ranges.len()
        invariant
            k <= ranges@.len() == lines.len(),
            lines == lines_seq(v@),
            v@ == s@,
            pred == (|l: Seq<char>| is_nonempty(l)),
            forall|i: int| #![trigger ranges@[i]] 0 <= i < ranges@.len() ==> ranges@[i].0 <= ranges@[i].1 <= v@.len()
                && v@.subrange(ranges@[i].0 as int, ranges@[i].1 as int) == lines[i],
            view_strings(out@) == lines.take(k as int).map_values(|l: Seq<char>| trim(l)).filter(pred),
        decreases ranges.len() - k,
    {
        let (a, b) = ranges[k];
        proof {
            assert(ranges@[k as int] == (a, b));
        }
        let (lo, hi) = trim_bounds(&v, a, b);
        let ghost t = trim(lines[k as int]);
        proof {
            let m = lines.take(k as int).map_values(|l: Seq<char>| trim(l));
            assert(lines.take(k + 1).map_values(|l: Seq<char>| trim(l)) =~= m.push(t));
            m.lemma_filter_push(t, pred);
        }
        if lo < hi {
            let piece = string_of_range(&v, lo, hi);
            proof {
                assert(view_strings(out@.push(piece)) =~= view_strings(out@).push(piece@));
            }
            out.push(piece);
        }
        k += 1;
    }
    proof {
        assert(lines.take(lines.len() as int) =~= lines);
    }
    out
}

/// What `str::to_lowercase` returns: the Unicode lowercase mapping.
pub uninterp spec fn unicode_lowercase(s: Seq<char>) -> Seq<char>;

/// `str::to_lowercase` as callers can read it: the ASCII mapping on ASCII
/// text, the named Unicode mapping otherwise.
pub open spec fn text_lowercase(s: Seq<char>) -> Seq<char> {
    if is_ascii_seq(s) {
        ascii_lower_seq(s)
    } else {
        unicode_lowercase(s)
    }
}

/// `str::to_lowercase`. The Unicode mapping is named rather than restated;
/// on ASCII text it is the ASCII mapping of `to_ascii_lowercase`.
#[verifier::external_body]
pub fn str_to_lowercase(s: &str) -> (r: String)
    ensures
        r@ == unicode_lowercase(s@),
        is_ascii_seq(s@) ==> r@ == ascii_lower_seq(s@),
{
    s.to_lowercase()
}

/// `str::trim` as a new string.
pub fn str_trim(s: &str) -> (r: String)
    ensures
        r@ == trim(s@),
{
    let v = chars_of(s);
    let (lo, hi) = trim_bounds(&v, 0, v.len());
    proof {
        assert(v@.subrange(0, v@.len() as int) =~= v@);
    }
    string_of_range(&v, lo, hi)
}

pub fn is_ws_char(c: char) -> (r: bool)
    ensures
        r == is_ws(c),
{
    c == '\t' || c == '\n' || c == '\u{0B}' || c == '\u{0C}' || c == '\r' || c == ' '
        || c == '\u{85}' || c == '\u{A0}' || c == '\u{1680}'
        || ('\u{2000}' <= c && c <= '\u{200A}')
        || c == '\u{2028}' || c == '\u{2029}' || c == '\u{202F}' || c == '\u{205F}' || c == '\u{3000}'
}

pub proof fn lemma_trim_start(s: Seq<char>, k: int)
    requires
        0 <= k <= s.len(),
        forall|j: int| 0 <= j < k ==> is_ws(s[j]),
        k < s.len() ==> !is_ws(s[k]),
    ensures
        trim_start(s) == s.subrange(k, s.len() as int),
    decreases k,
{
    if k == 0 {
        assert(s.subrange(0, s.len() as int) =~= s);
    } else {
        assert forall|j: int| 0 <= j < k - 1 implies is_ws(s.drop_first()[j]) by {
            assert(s.drop_first()[j] == s[j + 1]);
        }
        if k < s.len() {
            assert(s.drop_first()[k - 1] == s[k]);
        }
        lemma_trim_start(s.drop_first(), k - 1);
        assert(s.drop_first().subrange(k - 1, s.len() - 1) =~= s.subrange(k, s.len() as int));
    }
}

pub proof fn lemma_trim_end(s: Seq<char>, k: int)
    requires
        0 <= k <= s.len(),
        forall|j: int| k <= j < s.len() ==> is_ws(s[j]),
        k > 0 ==> !is_ws(s[k - 1]),
    ensures
        trim_end(s) == s.subrange(0, k),
    decreases s.len() - k,
{
    if k == s.len() {
        assert(s.subrange(0, s.len() as int) =~= s);
    } else {
        lemma_trim_end(s.drop_last(), k);
        assert(s.drop_last().subrange(0, k) =~= s.subrange(0, k));
    }
}

/// The bounds of `trim(v[from..to])` within `v`.
pub fn trim_bounds(v: &Vec<char>, from: usize, to: usize) -> (r: (usize, usize))
    requires
        from <= to <= v.len(),
    ensures
        from <= r.0 <= r.1 <= to,
        v@.subrange(r.0 as int, r.1 as int) == trim(v@.subrange(from as int, to as int)),
{
    let ghost s = v@.subrange(from as int, to as int);
    let mut lo = from;
    while lo < to && is_ws_char(v[lo])
        invariant
            from <= lo <= to <= v.len(),
            forall|j: int| from <= j < lo ==> is_ws(v@[j]),
        decreases to - lo,
    {
        lo += 1;
    }
    let mut hi = to;
    while hi > lo && is_ws_char(v[hi - 1])
        invariant
            from <= lo <= hi <= to <= v.len(),
            forall|j: int| hi <= j < to ==> is_ws(v@[j]),
        decreases hi - lo,
    {
        hi -= 1;
    }
    proof {
        assert forall|j: int| 0 <= j < lo - from implies is_ws(s[j]) by {
            assert(s[j] == v@[from + j]);
        }
        if lo < to {
            assert(s[lo - from] == v@[lo as int]);
        }
        lemma_trim_start(s, lo - from);
        let ts = s.subrange(lo - from, s.len() as int);
        assert(ts =~= v@.subrange(lo as int, to as int));
        assert forall|j: int| hi - lo <= j < ts.len() implies is_ws(ts[j]) by {
            assert(ts[j] == v@[lo + j]);
        }
        if hi > lo {
            assert(ts[hi - lo - 1] == v@[hi - 1]);
        }
        lemma_trim_end(ts, hi - lo);
        assert(ts.subrange(0, hi - lo) =~= v@.subrange(lo as int, hi as int));
    }
    (lo, hi)
}

} // verus!

verus! {

/// Where the leading run of non-whitespace characters of `s` ends.
pub open spec fn word_end(s: Seq<char>) -> nat
    decreases s.len(),
{
    if s.len() == 0 || is_ws(s[0]) {
        0
    } else {
        1 + word_end(s.drop_first())
    }
}

/// `str::split_whitespace`: the maximal runs of non-whitespace characters.
pub open spec fn ws_words(s: Seq<char>) -> Seq<Seq<char>>
    decreases s.len(),
{
    if s.len() == 0 {
        seq![]
    } else if is_ws(s[0]) {
        ws_words(s.drop_first())
    } else {
        let e = word_end(s);
        proof {
            lemma_word_end(s);
        }
        seq![s.subrange(0, e as int)] + ws_words(s.subrange(e as int, s.len() as int))
    }
}

pub proof fn lemma_word_end(s: Seq<char>)
    ensures
        word_end(s) <= s.len(),
        forall|j: int| 0 <= j < word_end(s) ==> !is_ws(#[trigger] s[j]),
        word_end(s) < s.len() ==> is_ws(s[word_end(s) as int]),
    decreases s.len(),
{
    if s.len() > 0 && !is_ws(s[0]) {
        lemma_word_end(s.drop_first());
        assert forall|j: int| 0 <= j < word_end(s) implies !is_ws(#[trigger] s[j]) by {
            if j > 0 {
                assert(s[j] == s.drop_first()[j - 1]);
            }
        }
    }
}

pub proof fn lemma_word_end_is(s: Seq<char>, k: int)
    requires
        0 <= k <= s.len(),
        forall|j: int| 0 <= j < k ==> !is_ws(#[trigger] s[j]),
        k < s.len() ==> is_ws(s[k]),
    ensures
        word_end(s) == k,
    decreases k,
{
    if k > 0 {
        assert forall|j: int| 0 <= j < k - 1 implies !is_ws(#[trigger] s.drop_first()[j]) by {
            assert(s.drop_first()[j] == s[j + 1]);
        }
        if k - 1 < s.len() - 1 {
            assert(s.drop_first()[k - 1] == s[k]);
        }
        lemma_word_end_is(s.drop_first(), k - 1);
    }
}

/// The words of `s` as `str::split_whitespace` yields them.
pub fn split_whitespace(s: &str) -> (r: Vec<String>)
    ensures
        view_strings(r@) == ws_words(s@),
{
    let v = chars_of(s);
    let len = v.len();
    let mut r: Vec<String> = Vec::new();
    let mut i: usize = 0;
    proof {
        assert(v@.subrange(0, len as int) =~= v@);
    }
    while i < len
        invariant
            i <= len,
            len == v@.len(),
            v@ == s@,
            view_strings(r@) + ws_words(v@.subrange(i as int, len as int)) == ws_words(s@),
        decreases len - i,
    {
        let ghost rest = v@.subrange(i as int, len as int);
        if is_ws_char(v[i]) {
            proof {
                assert(rest.drop_first() =~= v@.subrange(i + 1, len as int));
            }
            i += 1;
        } else {
            let mut e = i;
            while e < len && !is_ws_char(v[e])
                invariant
                    i <= e <= len,
                    len == v@.len(),
                    forall|j: int| i <= j < e ==> !is_ws(#[trigger] v@[j]),
                decreases len - e,
            {
                e += 1;
            }
            proof {
                assert forall|j: int| 0 <= j < e - i implies !is_ws(#[trigger] rest[j]) by {
                    assert(rest[j] == v@[i + j]);
                }
                if e < len {
                    assert(rest[e - i] == v@[e as int]);
                }
                lemma_word_end_is(rest, e - i);
                assert(rest.subrange(0, e - i) =~= v@.subrange(i as int, e as int));
                assert(rest.subrange(e - i, rest.len() as int) =~= v@.subrange(e as int, len as int));
            }
            let word = string_of_range(&v, i, e);
            proof {
                assert(view_strings(r@.push(word)) =~= view_strings(r@).push(word@));
                assert(view_strings(r@).push(word@) + ws_words(v@.subrange(e as int, len as int)) =~= view_strings(r@)
                    + (seq![word@] + ws_words(v@.subrange(e as int, len as int))));
            }
            r.push(word);
            i = e;
        }
    }
    proof {
        assert(v@.subrange(len as int, len as int) =~= Seq::<char>::empty());
        assert(view_strings(r@) + Seq::<Seq<char>>::empty() =~= view_strings(r@));
    }
    r
}

/// The number of bytes of the UTF-8 encoding of a character.
pub open spec fn utf8_width(c: char) -> nat {
    if (c as u32) < 0x80 { 1 } else if (c as u32) < 0x800 { 2 } else if (c as u32) < 0x10000 { 3 } else { 4 }
}

/// The number of bytes of the UTF-8 encoding of a text: what `str::len`
/// returns.
pub open spec fn utf8_len(s: Seq<char>) -> nat
    decreases s.len(),
{
    if s.len() == 0 {
        0
    } else {
        utf8_len(s.drop_last()) + utf8_width(s.last())
    }
}

/// Whether the UTF-8 encoding of `s` takes at most `limit` bytes.
pub fn utf8_len_at_most(s: &str, limit: usize) -> (r: bool)
    ensures
        r == (utf8_len(s@) <= limit),
{
    let v = chars_of(s);
    let mut n: usize = 0;
    let mut i: usize = 0;
    while i < v.len()
        invariant
            i <= v.len(),
            v@ == s@,
            n == utf8_len(v@.take(i as int)),
            n <= limit,
        decreases v.len() - i,
    {
        let c = v[i];
        let w: usize = if (c as u32) < 0x80 { 1 } else if (c as u32) < 0x800 { 2 } else if (c as u32) < 0x10000 { 3 } else { 4 };
        proof {
            assert(v@.take(i + 1).drop_last() =~= v@.take(i as int));
        }
        if w > limit - n {
            proof {
                lemma_utf8_len_grows(v@, i + 1);
                assert(v@.take(v@.len() as int) =~= v@);
            }
            return false;
        }
        n = n + w;
        i += 1;
    }
    proof {
        assert(v@.take(v@.len() as int) =~= v@);
    }
    true
}

pub proof fn lemma_utf8_len_grows(s: Seq<char>, k: int)
    requires
        0 <= k <= s.len(),
    ensures
        utf8_len(s.take(k)) <= utf8_len(s),
    decreases s.len() - k,
{
    if k < s.len() {
        lemma_utf8_len_grows(s, k + 1);
        assert(s.take(k + 1).drop_last() =~= s.take(k));
    } else {
        assert(s.take(k) =~= s);
    }
}

} // verus!

verus! {

/// `str::trim_end_matches` with a single character, as a new string.
pub fn str_trim_end_char(s: &str, c: char) -> (r: String)
    ensures
        r@ == trim_end_char(s@, c),
{
    let v = chars_of(s);
    let mut k = v.len();
    while k > 0 && v[k - 1] == c
        invariant
            k <= v@.len(),
            v@ == s@,
            forall|j: int| k <= j < v@.len() ==> v@[j] == c,
        decreases k,
    {
        k -= 1;
    }
    proof {
        crate::domain::lemma_trim_end_char(v@, c, k as int);
    }
    string_of_range(&v, 0, k)
}

} // verus!
