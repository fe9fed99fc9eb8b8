//! Canonical domain rules for the whitelist and blacklist hostlists.

use vstd::prelude::*;
use crate::text::{
    ascii_lower, ascii_lower_seq, chars_of, contains_seq, ends_with, has_prefix_at, is_ascii_alnum,
    is_ascii_char, is_ascii_seq, is_ws, lemma_find_char_bounds, lemma_find_char_is_first, seq_eq,
    split_char, starts_with, string_of, string_of_range, to_string, trim, trim_end, trim_end_char,
    trim_start, vec_contains_char, is_ws_char, lemma_trim_start, lemma_trim_end, vec_contains_seq, view_strings,
};

verus! {

#[derive(Debug, Clone, Copy, PartialEq, Eq, Structural)]
pub enum DomainRuleError {
    Empty,
    NonAscii,
    UrlOrPath,
    IpLiteral,
    InvalidWildcard,
    InvalidLength,
    InvalidLabel,
}

/// The human-readable message of each error.
pub open spec fn domain_rule_error_text(e: DomainRuleError) -> Seq<char> {
    match e {
        DomainRuleError::Empty => "domain rule is empty"@,
        DomainRuleError::NonAscii => "domain rule must use ASCII or explicit punycode"@,
        DomainRuleError::UrlOrPath => "domain rule must be a hostname, not a URL, path, or host:port"@,
        DomainRuleError::IpLiteral => "IP addresses are not valid domain rules"@,
        DomainRuleError::InvalidWildcard => "wildcard is only allowed once as the '*.' prefix"@,
        DomainRuleError::InvalidLength => "domain rule or one of its labels has an invalid length"@,
        DomainRuleError::InvalidLabel => "domain rule contains an invalid label"@,
    }
}

impl DomainRuleError {
    /// The error's message, as its `Display` would print it.
    pub fn message(&self) -> (s: String)
        ensures
            s@ == domain_rule_error_text(*self),
    {
        match self {
            DomainRuleError::Empty => to_string("domain rule is empty"),
            DomainRuleError::NonAscii => to_string("domain rule must use ASCII or explicit punycode"),
            DomainRuleError::UrlOrPath => to_string(
                "domain rule must be a hostname, not a URL, path, or host:port",
            ),
            DomainRuleError::IpLiteral => to_string("IP addresses are not valid domain rules"),
            DomainRuleError::InvalidWildcard => to_string(
                "wildcard is only allowed once as the '*.' prefix",
            ),
            DomainRuleError::InvalidLength => to_string(
                "domain rule or one of its labels has an invalid length",
            ),
            DomainRuleError::InvalidLabel => to_string("domain rule contains an invalid label"),
        }
    }
}

/// An IP address: four octets, or eight 16-bit segments.
#[derive(Debug, Clone, Copy, PartialEq, Eq)]
pub enum IpAddress {
    V4([u8; 4]),
    V6([u16; 8]),
}

/// What `s.parse::<core::net::IpAddr>()` yields: the address, or `None`
/// when the standard library does not accept `s` as an IPv4 or IPv6
/// literal. The grammar is the standard library's and is not restated.
pub uninterp spec fn parsed_ip_addr(s: Seq<char>) -> Option<IpAddress>;

/// Whether `s` is an IP address literal.
pub open spec fn ip_addr_parses(s: Seq<char>) -> bool {
    parsed_ip_addr(s) is Some
}

/// `s.parse::<core::net::IpAddr>()`, as octets or segments.
#[verifier::external_body]
pub fn parse_ip_address(s: &str) -> (r: Option<IpAddress>)
    ensures
        r == parsed_ip_addr(s@),
{
    match s.parse::<core::net::IpAddr>() {
        Ok(core::net::IpAddr::V4(a)) => Some(IpAddress::V4(a.octets())),
        Ok(core::net::IpAddr::V6(a)) => Some(IpAddress::V6(a.segments())),
        Err(_) => None,
    }
}

pub fn parses_as_ip_addr(s: &str) -> (r: bool)
    ensures
        r == ip_addr_parses(s@),
{
    parse_ip_address(s).is_some()
}

/// `input.trim().trim_end_matches('.').to_ascii_lowercase()`.
pub open spec fn normalize_rule(input: Seq<char>) -> Seq<char> {
    ascii_lower_seq(trim_end_char(trim(input), '.'))
}

pub open spec fn has_url_or_path_marker(n: Seq<char>) -> bool {
    ||| contains_seq(n, "://"@)
    ||| n.contains('/') || n.contains('\\') || n.contains(':')
    ||| n.contains('[') || n.contains(']')
}

/// The verdict on one label of a hostname.
pub open spec fn label_error(l: Seq<char>) -> Option<DomainRuleError> {
    if l.len() == 0 || l.len() > 63 {
        Some(DomainRuleError::InvalidLength)
    } else if !is_ascii_alnum(l[0]) || !is_ascii_alnum(l.last())
        || exists|i: int| 0 <= i < l.len() && !(is_ascii_alnum(#[trigger] l[i]) || l[i] == '-') {
        Some(DomainRuleError::InvalidLabel)
    } else {
        None
    }
}

/// The verdict of the first bad label, if any.
pub open spec fn labels_error(labels: Seq<Seq<char>>) -> Option<DomainRuleError>
    decreases labels.len(),
{
    if labels.len() == 0 {
        None
    } else {
        match label_error(labels[0]) {
            Some(e) => Some(e),
            None => labels_error(labels.drop_first()),
        }
    }
}

/// The hostname part of a normalized rule: without the `*.` prefix.
pub open spec fn rule_hostname(n: Seq<char>) -> Seq<char> {
    if starts_with(n, "*."@) {
        n.subrange(2, n.len() as int)
    } else {
        n
    }
}

/// The verdict on one domain rule: the canonical rule or the first error.
pub open spec fn canonical_rule(input: Seq<char>, allow_wildcard: bool) -> Result<Seq<char>, DomainRuleError> {
    let n = normalize_rule(input);
    let h = rule_hostname(n);
    if n.len() == 0 {
        Err(DomainRuleError::Empty)
    } else if !is_ascii_seq(n) {
        Err(DomainRuleError::NonAscii)
    } else if has_url_or_path_marker(n) {
        Err(DomainRuleError::UrlOrPath)
    } else if starts_with(n, "*."@) && (!allow_wildcard || h.contains('*')) {
        Err(DomainRuleError::InvalidWildcard)
    } else if !starts_with(n, "*."@) && n.contains('*') {
        Err(DomainRuleError::InvalidWildcard)
    } else if ip_addr_parses(h) {
        Err(DomainRuleError::IpLiteral)
    } else if h.len() > 253 || !h.contains('.') {
        Err(DomainRuleError::InvalidLength)
    } else {
        match labels_error(split_char(h, '.')) {
            Some(e) => Err(e),
            None => Ok(n),
        }
    }
}

/// The verdict on a list of rules: the first error, or the canonical rules
/// in input order with later duplicates dropped.
pub open spec fn canonical_rules(inputs: Seq<Seq<char>>) -> Result<Seq<Seq<char>>, DomainRuleError>
    decreases inputs.len(),
{
    if inputs.len() == 0 {
        Ok(seq![])
    } else {
        match canonical_rules(inputs.drop_last()) {
            Err(e) => Err(e),
            Ok(acc) => match canonical_rule(inputs.last(), true) {
                Err(e) => Err(e),
                Ok(r) => Ok(if acc.contains(r) { acc } else { acc.push(r) }),
            },
        }
    }
}

/// Whether a host falls under a rule.
pub open spec fn rule_matches(rule: Seq<char>, host: Seq<char>) -> bool {
    match (canonical_rule(rule, true), canonical_rule(host, false)) {
        (Ok(r), Ok(h)) => if starts_with(r, "*."@) {
            let base = r.subrange(2, r.len() as int);
            h != base && ends_with(h, seq!['.'] + base)
        } else {
            h == r || ends_with(h, seq!['.'] + r)
        },
        _ => false,
    }
}

pub fn is_alnum_char(c: char) -> (r: bool)
    ensures
        r == is_ascii_alnum(c),
{
    ('0' <= c && c <= '9') || ('a' <= c && c <= 'z') || ('A' <= c && c <= 'Z')
}

pub fn lower_char(c: char) -> (r: char)
    ensures
        r == ascii_lower(c),
{
    if 'A' <= c && c <= 'Z' {
        let b = c as u8;
        let r = (b + 32) as char;
        assert(r == ascii_lower(c)) by {
            assert((c as u32) == (b as u32));
        }
        r
    } else {
        c
    }
}

pub proof fn lemma_trim_end_char(s: Seq<char>, c: char, k: int)
    requires
        0 <= k <= s.len(),
        forall|j: int| k <= j < s.len() ==> s[j] == c,
        k > 0 ==> s[k - 1] != c,
    ensures
        trim_end_char(s, c) == s.subrange(0, k),
    decreases s.len() - k,
{
    if k == s.len() {
        assert(s.subrange(0, s.len() as int) =~= s);
    } else {
        lemma_trim_end_char(s.drop_last(), c, k);
        assert(s.drop_last().subrange(0, k) =~= s.subrange(0, k));
    }
}

/// `input.trim().trim_end_matches('.').to_ascii_lowercase()` as characters.
pub fn normalize_rule_chars(input: &str) -> (n: Vec<char>)
    ensures
        n@ == normalize_rule(input@),
{
    let v = chars_of(input);
    let len = v.len();
    let mut lo: usize = 0;
    while lo < len && is_ws_char(v[lo])
        invariant
            len == v.len(),
            lo <= len,
            forall|j: int| 0 <= j < lo ==> is_ws(v@[j]),
        decreases len - lo,
    {
        lo += 1;
    }
    let mut hi: usize = len;
    while hi > lo && is_ws_char(v[hi - 1])
        invariant
            len == v.len(),
            lo <= hi <= len,
            forall|j: int| hi <= j < len ==> is_ws(v@[j]),
        decreases hi - lo,
    {
        hi -= 1;
    }
    let ghost trimmed = v@.subrange(lo as int, hi as int);
    proof {
        lemma_trim_start(v@, lo as int);
        let ts = v@.subrange(lo as int, len as int);
        assert forall|j: int| hi - lo <= j < ts.len() implies is_ws(ts[j]) by {
            assert(ts[j] == v@[lo + j]);
        }
        if hi > lo {
            assert(ts[hi - lo - 1] == v@[hi - 1]);
        }
        lemma_trim_end(ts, hi - lo);
        assert(ts.subrange(0, hi - lo) =~= trimmed);
    }
    let mut end: usize = hi;
    while end > lo && v[end - 1] == '.'
        invariant
            lo <= end <= hi <= len,
            len == v.len(),
            forall|j: int| end <= j < hi ==> v@[j] == '.',
        decreases end - lo,
    {
        end -= 1;
    }
    proof {
        assert forall|j: int| end - lo <= j < trimmed.len() implies trimmed[j] == '.' by {
            assert(trimmed[j] == v@[lo + j]);
        }
        if end > lo {
            assert(trimmed[end - lo - 1] == v@[end - 1]);
        }
        lemma_trim_end_char(trimmed, '.', end - lo);
    }
    let mut n: Vec<char> = Vec::new();
    let mut i: usize = lo;
    while i < end
        invariant
            lo <= i <= end <= len,
            len == v.len(),
            n@ == ascii_lower_seq(v@.subrange(lo as int, i as int)),
        decreases end - i,
    {
        n.push(lower_char(v[i]));
        proof {
            assert(ascii_lower_seq(v@.subrange(lo as int, i + 1)) =~= ascii_lower_seq(
                v@.subrange(lo as int, i as int),
            ).push(ascii_lower(v@[i as int])));
        }
        i += 1;
    }
    proof {
        assert(trimmed.subrange(0, end - lo) =~= v@.subrange(lo as int, end as int));
    }
    n
}

pub fn all_ascii(v: &Vec<char>) -> (r: bool)
    ensures
        r == is_ascii_seq(v@),
{
    let mut i: usize = 0;
    while i < v.len()
        invariant
            i <= v.len(),
            forall|j: int| 0 <= j < i ==> is_ascii_char(#[trigger] v@[j]),
        decreases v.len() - i,
    {
        if (v[i] as u32) >= 128 {
            return false;
        }
        i += 1;
    }
    true
}

/// The verdict on `v[from..to]` as one label.
pub fn check_label(v: &Vec<char>, from: usize, to: usize) -> (r: Option<DomainRuleError>)
    requires
        from <= to <= v.len(),
    ensures
        r == label_error(v@.subrange(from as int, to as int)),
{
    let ghost l = v@.subrange(from as int, to as int);
    if to == from || to - from > 63 {
        return Some(DomainRuleError::InvalidLength);
    }
    proof {
        assert(l[0] == v@[from as int]);
        assert(l.last() == v@[to - 1]);
    }
    if !is_alnum_char(v[from]) || !is_alnum_char(v[to - 1]) {
        return Some(DomainRuleError::InvalidLabel);
    }
    let mut i = from;
    while i < to
        invariant
            from <= i <= to <= v.len(),
            l == v@.subrange(from as int, to as int),
            0 < l.len() <= 63,
            is_ascii_alnum(l[0]),
            is_ascii_alnum(l.last()),
            forall|j: int| 0 <= j < i - from ==> (is_ascii_alnum(#[trigger] l[j]) || l[j] == '-'),
        decreases to - i,
    {
        let c = v[i];
        if !(is_alnum_char(c) || c == '-') {
            proof {
                assert(l[i - from] == c);
                assert(!(is_ascii_alnum(l[(i - from) as int]) || l[(i - from) as int] == '-'));
            }
            return Some(DomainRuleError::InvalidLabel);
        }
        proof {
            assert(l[i - from] == c);
        }
        i += 1;
    }
    None
}

/// The verdict on the labels of `v[from..]`, split at `.`.
pub fn check_labels(v: &Vec<char>, from: usize) -> (r: Option<DomainRuleError>)
    requires
        from <= v.len(),
    ensures
        r == labels_error(split_char(v@.subrange(from as int, v@.len() as int), '.')),
{
    let len = v.len();
    let mut start = from;
    loop
        invariant
            from <= start <= len,
            len == v.len(),
            labels_error(split_char(v@.subrange(from as int, len as int), '.'))
                == labels_error(split_char(v@.subrange(start as int, len as int), '.')),
        decreases len - start,
    {
        let ghost rest = v@.subrange(start as int, len as int);
        let mut end = start;
        while end < len && v[end] != '.'
            invariant
                start <= end <= len,
                len == v.len(),
                forall|j: int| start <= j < end ==> v@[j] != '.',
            decreases len - end,
        {
            end += 1;
        }
        proof {
            lemma_find_char_is_first(rest, '.', end - start);
            lemma_find_char_bounds(rest, '.');
        }
        let verdict = check_label(v, start, end);
        proof {
            assert(rest.subrange(0, end - start) =~= v@.subrange(start as int, end as int));
        }
        if end == len {
            proof {
                assert(split_char(rest, '.') == seq![rest]);
                assert(rest =~= v@.subrange(start as int, end as int));
                assert(seq![rest].drop_first() =~= Seq::<Seq<char>>::empty());
                assert(labels_error(Seq::<Seq<char>>::empty()) == None::<DomainRuleError>);
                assert(seq![rest][0] == rest);
                assert(labels_error(seq![rest]) == label_error(rest));
            }
            return verdict;
        }
        proof {
            let tail = rest.subrange(end - start + 1, rest.len() as int);
            assert(tail =~= v@.subrange(end + 1, len as int));
            let pieces = split_char(rest, '.');
            assert(pieces == seq![rest.subrange(0, end - start)] + split_char(tail, '.'));
            assert(pieces[0] == rest.subrange(0, end - start));
            assert(pieces.drop_first() =~= split_char(tail, '.'));
        }
        if verdict.is_some() {
            return verdict;
        }
        start = end + 1;
    }
}

pub fn str_lit(s: &str) -> (v: Vec<char>)
    ensures
        v@ == s@,
{
    chars_of(s)
}

/// Canonicalizes one rule; a leading `*.` is accepted only when
/// `allow_wildcard` holds.
pub fn canonicalize_domain_rule(input: &str, allow_wildcard: bool) -> (r: Result<String, DomainRuleError>)
    ensures
        match (r, canonical_rule(input@, allow_wildcard)) {
            (Ok(s), Ok(t)) => s@ == t,
            (Err(e), Err(f)) => e == f,
            _ => false,
        },
{
    let n = normalize_rule_chars(input);
    if n.len() == 0 {
        return Err(DomainRuleError::Empty);
    }
    if !all_ascii(&n) {
        return Err(DomainRuleError::NonAscii);
    }
    let scheme = str_lit("://");
    if vec_contains_seq(&n, &scheme) || vec_contains_char(&n, '/') || vec_contains_char(&n, '\\')
        || vec_contains_char(&n, ':') || vec_contains_char(&n, '[') || vec_contains_char(&n, ']') {
        return Err(DomainRuleError::UrlOrPath);
    }
    let star = str_lit("*.");
    let wildcard = has_prefix_at(&n, 0, &star);
    proof {
        reveal_strlit("*.");
        assert(n@.subrange(0, n@.len() as int) =~= n@);
    }
    let host_from: usize = if wildcard { 2 } else { 0 };
    let host = string_of_range(&n, host_from, n.len());
    let host_chars = chars_of(host.as_str());
    proof {
        if !wildcard {
            assert(n@.subrange(0, n@.len() as int) =~= n@);
        }
        assert(host_chars@ == rule_hostname(n@));
    }
    if wildcard {
        if !allow_wildcard || vec_contains_char(&host_chars, '*') {
            return Err(DomainRuleError::InvalidWildcard);
        }
    } else {
        if vec_contains_char(&n, '*') {
            return Err(DomainRuleError::InvalidWildcard);
        }
    }
    if parses_as_ip_addr(host.as_str()) {
        return Err(DomainRuleError::IpLiteral);
    }
    if host_chars.len() > 253 || !vec_contains_char(&host_chars, '.') {
        return Err(DomainRuleError::InvalidLength);
    }
    let verdict = check_labels(&host_chars, 0);
    proof {
        assert(host_chars@.subrange(0, host_chars@.len() as int) =~= host_chars@);
    }
    match verdict {
        Some(e) => Err(e),
        None => Ok(string_of(&n)),
    }
}

/// Canonicalizes every rule in order, keeping the first occurrence of each
/// canonical rule; the first invalid rule fails the whole list.
pub fn canonicalize_domain_rules(inputs: &[String]) -> (r: Result<Vec<String>, DomainRuleError>)
    ensures
        match (r, canonical_rules(view_strings(inputs@))) {
            (Ok(v), Ok(t)) => view_strings(v@) == t,
            (Err(e), Err(f)) => e == f,
            _ => false,
        },
        r matches Ok(v) ==> view_strings(v@).no_duplicates(),
{
    let mut rules: Vec<String> = Vec::new();
    let mut i: usize = 0;
    proof {
        assert(view_strings(inputs@.take(0)) =~= Seq::<Seq<char>>::empty());
        assert(view_strings(rules@) =~= Seq::<Seq<char>>::empty());
    }
    while i < inputs.len()
        invariant
            i <= inputs.len(),
            canonical_rules(view_strings(inputs@.take(i as int))) == Ok::<Seq<Seq<char>>, DomainRuleError>(view_strings(rules@)),
            view_strings(rules@).no_duplicates(),
        decreases inputs.len() - i,
    {
        proof {
            assert(view_strings(inputs@.take(i + 1)).drop_last() =~= view_strings(inputs@.take(i as int)));
            assert(view_strings(inputs@.take(i + 1)).last() == inputs@[i as int]@);
        }
        let rule = canonicalize_domain_rule(inputs[i].as_str(), true);
        match rule {
            Err(e) => {
                proof {
                    assert(view_strings(inputs@).take(i + 1) =~= view_strings(inputs@.take(i + 1)));
                    lemma_canonical_rules_error_persists(view_strings(inputs@), i as int + 1);
                }
                return Err(e);
            },
            Ok(s) => {
                let seen = contains_string(&rules, &s);
                if !seen {
                    proof {
                        assert(view_strings(rules@.push(s)) =~= view_strings(rules@).push(s@));
                    }
                    rules.push(s);
                }
            },
        }
        i += 1;
    }
    proof {
        assert(inputs@.take(inputs@.len() as int) =~= inputs@);
    }
    Ok(rules)
}

/// Canonical rule lists never hold a rule twice.
pub proof fn lemma_canonical_rules_unique(inputs: Seq<Seq<char>>)
    requires
        canonical_rules(inputs) is Ok,
    ensures
        canonical_rules(inputs)->Ok_0.no_duplicates(),
    decreases inputs.len(),
{
    if inputs.len() > 0 {
        lemma_canonical_rules_unique(inputs.drop_last());
        let acc = canonical_rules(inputs.drop_last())->Ok_0;
        let r = canonical_rule(inputs.last(), true)->Ok_0;
        if !acc.contains(r) {
            let out = acc.push(r);
            assert forall|i: int, j: int| 0 <= i < out.len() && 0 <= j < out.len() && i != j implies out[i] != out[j] by {
                if i < acc.len() && j < acc.len() {
                    assert(out[i] == acc[i] && out[j] == acc[j]);
                } else if i < acc.len() {
                    assert(out[i] == acc[i]);
                } else {
                    assert(out[j] == acc[j]);
                }
            }
        }
    }
}


/// Once a prefix of the inputs fails, every longer prefix fails the same way.
pub proof fn lemma_canonical_rules_error_persists(inputs: Seq<Seq<char>>, k: int)
    requires
        0 <= k <= inputs.len(),
        canonical_rules(inputs.take(k)) is Err,
    ensures
        canonical_rules(inputs) == canonical_rules(inputs.take(k)),
    decreases inputs.len() - k,
{
    if k < inputs.len() {
        assert(inputs.take(k + 1).drop_last() =~= inputs.take(k));
        lemma_canonical_rules_error_persists(inputs, k + 1);
    } else {
        assert(inputs.take(k) =~= inputs);
    }
}

proof fn lemma_split_char_ends(s: Seq<char>, d: char)
    ensures
        split_char(s, d).len() > 0,
        split_char(s, d)[0].len() <= s.len(),
        s.subrange(0, split_char(s, d)[0].len() as int) == split_char(s, d)[0],
        split_char(s, d).last().len() <= s.len(),
        s.subrange(s.len() - split_char(s, d).last().len(), s.len() as int) == split_char(s, d).last(),
    decreases s.len(),
{
    lemma_find_char_bounds(s, d);
    let i = crate::text::find_char(s, d);
    if i >= s.len() {
        assert(s.subrange(0, s.len() as int) =~= s);
    } else {
        let rest = s.subrange(i + 1, s.len() as int);
        lemma_split_char_ends(rest, d);
        let parts = split_char(s, d);
        assert(parts == seq![s.subrange(0, i)] + split_char(rest, d));
        assert(parts[0] == s.subrange(0, i));
        assert(s.subrange(0, i) =~= s.subrange(0, i));
        assert(parts.last() == split_char(rest, d).last());
        let l = split_char(rest, d).last();
        assert(s.subrange(s.len() - l.len(), s.len() as int) =~= rest.subrange(rest.len() - l.len(), rest.len() as int));
    }
}

proof fn lemma_labels_error_none(labels: Seq<Seq<char>>, i: int)
    requires
        labels_error(labels) is None,
        0 <= i < labels.len(),
    ensures
        label_error(labels[i]) is None,
    decreases labels.len(),
{
    if i > 0 {
        lemma_labels_error_none(labels.drop_first(), i - 1);
    }
}

proof fn lemma_ascii_lower_idempotent(s: Seq<char>)
    ensures
        ascii_lower_seq(ascii_lower_seq(s)) == ascii_lower_seq(s),
{
    assert(ascii_lower_seq(ascii_lower_seq(s)) =~= ascii_lower_seq(s));
}

/// The characters a canonical rule is made of: ASCII letters and digits,
/// `-`, `.` and the `*` of a wildcard.
pub open spec fn rule_char(c: char) -> bool {
    is_ascii_alnum(c) || c == '-' || c == '.' || c == '*'
}

proof fn lemma_split_char_covers(s: Seq<char>, d: char, i: int)
    requires
        0 <= i < s.len(),
    ensures
        s[i] == d || exists|p: int, j: int|
            0 <= p < split_char(s, d).len() && 0 <= j < split_char(s, d)[p].len() && #[trigger] split_char(s, d)[p][j]
                == s[i],
    decreases s.len(),
{
    lemma_find_char_bounds(s, d);
    let f = crate::text::find_char(s, d);
    let parts = split_char(s, d);
    if f >= s.len() {
        assert(parts[0] == s);
        assert(parts[0][i] == s[i]);
    } else {
        let rest = s.subrange(f + 1, s.len() as int);
        assert(parts == seq![s.subrange(0, f)] + split_char(rest, d));
        if i < f {
            assert(parts[0] == s.subrange(0, f));
            assert(parts[0][i] == s[i]);
        } else if i > f {
            lemma_split_char_covers(rest, d, i - f - 1);
            assert(rest[i - f - 1] == s[i]);
            if rest[i - f - 1] != d {
                let (p, j) = choose|p: int, j: int|
                    0 <= p < split_char(rest, d).len() && 0 <= j < split_char(rest, d)[p].len() && #[trigger] split_char(
                        rest,
                        d,
                    )[p][j] == rest[i - f - 1];
                assert(parts[p + 1] == split_char(rest, d)[p]);
                assert(parts[p + 1][j] == s[i]);
            }
        }
    }
}

/// Every character of a canonical rule is a rule character.
pub proof fn lemma_canonical_rule_chars(input: Seq<char>)
    requires
        canonical_rule(input, true) is Ok,
    ensures
        forall|k: int| 0 <= k < canonical_rule(input, true)->Ok_0.len() ==> rule_char(
            #[trigger] canonical_rule(input, true)->Ok_0[k],
        ),
{
    let n = normalize_rule(input);
    let h = rule_hostname(n);
    let labels = split_char(h, '.');
    reveal_strlit("*.");
    assert forall|i: int| 0 <= i < h.len() implies rule_char(#[trigger] h[i]) by {
        lemma_split_char_covers(h, '.', i);
        if h[i] != '.' {
            let (p, j) = choose|p: int, j: int|
                0 <= p < labels.len() && 0 <= j < labels[p].len() && #[trigger] labels[p][j] == h[i];
            lemma_labels_error_none(labels, p);
            let l = labels[p];
            assert(is_ascii_alnum(l[j]) || l[j] == '-');
        }
    }
    assert forall|k: int| 0 <= k < n.len() implies rule_char(#[trigger] n[k]) by {
        if starts_with(n, "*."@) {
            if k < 2 {
                assert(n.subrange(0, 2)[k] == n[k]);
            } else {
                assert(h[k - 2] == n[k]);
            }
        } else {
            assert(h[k] == n[k]);
        }
    }
}

/// A canonical rule is its own canonical form: canonicalizing it again
/// gives it back unchanged, and it is not empty.
pub proof fn lemma_canonical_rule_idempotent(input: Seq<char>)
    requires
        canonical_rule(input, true) is Ok,
    ensures
        canonical_rule(canonical_rule(input, true)->Ok_0, true) == canonical_rule(input, true),
        canonical_rule(input, true)->Ok_0.len() > 0,
{
    let n = normalize_rule(input);
    let h = rule_hostname(n);
    let labels = split_char(h, '.');
    lemma_split_char_ends(h, '.');
    lemma_labels_error_none(labels, 0);
    lemma_labels_error_none(labels, labels.len() - 1);
    let first = labels[0];
    let last = labels.last();
    assert(h.len() > 0);
    // The last character is that of the last label.
    assert(last.len() > 0);
    assert(h[h.len() - 1] == last[last.len() - 1]) by {
        assert(h.subrange(h.len() - last.len(), h.len() as int)[last.len() - 1] == h[h.len() - 1]);
    }
    reveal_strlit("*.");
    if starts_with(n, "*."@) {
        assert(h == n.subrange(2, n.len() as int));
        assert(n[n.len() - 1] == h[h.len() - 1]);
    } else {
        assert(h == n);
    }
    assert(is_ascii_alnum(n.last()));
    // The first character is `*` or that of the first label.
    if starts_with(n, "*."@) {
        assert(n.subrange(0, 2)[0] == n[0]);
        assert(n[0] == '*');
    } else {
        assert(first.len() > 0);
        assert(h.subrange(0, first.len() as int)[0] == h[0]);
        assert(is_ascii_alnum(n[0]));
    }
    assert(!is_ws(n[0]));
    assert(!is_ws(n.last()));
    assert(trim_start(n) == n);
    assert(trim_end(n) == n);
    assert(trim(n) == n);
    assert(trim_end_char(n, '.') == n);
    lemma_ascii_lower_idempotent(trim_end_char(trim(input), '.'));
    assert(normalize_rule(n) == n);
}

pub open spec fn produced_by(inputs: Seq<Seq<char>>, x: Seq<char>) -> bool {
    exists|i: int| 0 <= i < inputs.len() && #[trigger] canonical_rule(inputs[i], true) == Ok::<Seq<char>, DomainRuleError>(x)
}

pub open spec fn produced_before(inputs: Seq<Seq<char>>, x: Seq<char>, k: int) -> bool {
    exists|i: int| 0 <= i < k && #[trigger] canonical_rule(inputs[i], true) == Ok::<Seq<char>, DomainRuleError>(x)
}

proof fn lemma_canonical_rules_members(inputs: Seq<Seq<char>>)
    requires
        canonical_rules(inputs) is Ok,
    ensures
        canonical_rules(inputs)->Ok_0.len() <= inputs.len(),
        forall|x: Seq<char>| canonical_rules(inputs)->Ok_0.contains(x) <==> produced_by(inputs, x),
        forall|j: int| 0 <= j < canonical_rules(inputs)->Ok_0.len() ==> canonical_rule(
            #[trigger] canonical_rules(inputs)->Ok_0[j],
            true,
        ) == Ok::<Seq<char>, DomainRuleError>(canonical_rules(inputs)->Ok_0[j]) && canonical_rules(inputs)->Ok_0[j].len() > 0,
        forall|j: int, k: int|
            0 <= j < canonical_rules(inputs)->Ok_0.len() && 0 <= k < canonical_rules(inputs)->Ok_0[j].len() ==> rule_char(
                #[trigger] canonical_rules(inputs)->Ok_0[j][k],
            ),
    decreases inputs.len(),
{
    let out = canonical_rules(inputs)->Ok_0;
    if inputs.len() == 0 {
        assert(out =~= Seq::<Seq<char>>::empty());
    } else {
        let init = inputs.drop_last();
        let n = inputs.len() - 1;
        lemma_canonical_rules_members(init);
        let acc = canonical_rules(init)->Ok_0;
        let r = canonical_rule(inputs.last(), true)->Ok_0;
        lemma_canonical_rule_idempotent(inputs.last());
        lemma_canonical_rule_chars(inputs.last());
        assert(inputs[n] == inputs.last());
        assert forall|j: int, k: int| 0 <= j < out.len() && 0 <= k < out[j].len() implies rule_char(#[trigger] out[j][k]) by {
            if j < acc.len() {
                assert(out[j] == acc[j]);
            } else {
                assert(out[j] == r);
            }
        }
        assert forall|x: Seq<char>| out.contains(x) <==> produced_by(inputs, x) by {
            if out.contains(x) {
                if acc.contains(x) {
                    assert(produced_by(init, x));
                    let i = choose|i: int| 0 <= i < init.len() && #[trigger] canonical_rule(init[i], true) == Ok::<
                        Seq<char>,
                        DomainRuleError,
                    >(x);
                    assert(init[i] == inputs[i]);
                    assert(canonical_rule(inputs[i], true) == Ok::<Seq<char>, DomainRuleError>(x));
                } else {
                    let j = choose|j: int| 0 <= j < out.len() && out[j] == x;
                    if j < acc.len() {
                        assert(acc[j] == x);
                    }
                    assert(canonical_rule(inputs[n], true) == Ok::<Seq<char>, DomainRuleError>(x));
                }
            }
            if produced_by(inputs, x) {
                let i = choose|i: int| 0 <= i < inputs.len() && #[trigger] canonical_rule(inputs[i], true) == Ok::<
                    Seq<char>,
                    DomainRuleError,
                >(x);
                if i < n {
                    assert(init[i] == inputs[i]);
                    assert(canonical_rule(init[i], true) == Ok::<Seq<char>, DomainRuleError>(x));
                    assert(produced_by(init, x));
                    assert(acc.contains(x));
                    if !acc.contains(r) {
                        assert(acc.push(r)[acc.index_of(x)] == x);
                    }
                } else {
                    if !acc.contains(r) {
                        assert(acc.push(r)[acc.len() as int] == x);
                    }
                }
            }
        }
        assert forall|j: int| 0 <= j < out.len() implies canonical_rule(#[trigger] out[j], true) == Ok::<
            Seq<char>,
            DomainRuleError,
        >(out[j]) && out[j].len() > 0 by {
            if j < acc.len() {
                assert(out[j] == acc[j]);
            } else {
                assert(out[j] == r);
            }
        }
    }
}

proof fn lemma_canonical_rules_order(inputs: Seq<Seq<char>>)
    requires
        canonical_rules(inputs) is Ok,
    ensures
        forall|a: int, b: int, k: int|
            #![trigger canonical_rules(inputs)->Ok_0[a], canonical_rules(inputs)->Ok_0[b], canonical_rule(inputs[k], true)]
            0 <= a < b < canonical_rules(inputs)->Ok_0.len() && 0 <= k < inputs.len() && canonical_rule(inputs[k], true)
                == Ok::<Seq<char>, DomainRuleError>(canonical_rules(inputs)->Ok_0[b]) ==> produced_before(
                inputs,
                canonical_rules(inputs)->Ok_0[a],
                k,
            ),
    decreases inputs.len(),
{
    let out = canonical_rules(inputs)->Ok_0;
    if inputs.len() > 0 {
        let init = inputs.drop_last();
        let n = inputs.len() - 1;
        lemma_canonical_rules_members(init);
        lemma_canonical_rules_order(init);
        let acc = canonical_rules(init)->Ok_0;
        let r = canonical_rule(inputs.last(), true)->Ok_0;
        assert(inputs[n] == inputs.last());
        assert forall|a: int, b: int, k: int|
            #![trigger out[a], out[b], canonical_rule(inputs[k], true)]
            0 <= a < b < out.len() && 0 <= k < inputs.len() && canonical_rule(inputs[k], true) == Ok::<
                Seq<char>,
                DomainRuleError,
            >(out[b]) implies produced_before(inputs, out[a], k) by {
            assert(out[a] == acc[a]);
            assert(acc.contains(acc[a]));
            if b < acc.len() {
                assert(out[b] == acc[b]);
                assert(acc.contains(acc[b]));
                let kk = if k < n {
                    assert(init[k] == inputs[k]);
                    k
                } else {
                    assert(produced_by(init, acc[b]));
                    choose|i: int| 0 <= i < init.len() && #[trigger] canonical_rule(init[i], true) == Ok::<
                        Seq<char>,
                        DomainRuleError,
                    >(acc[b])
                };
                assert(canonical_rule(init[kk], true) == Ok::<Seq<char>, DomainRuleError>(acc[b]));
                assert(produced_before(init, acc[a], kk));
                let i = choose|i: int| 0 <= i < kk && #[trigger] canonical_rule(init[i], true) == Ok::<
                    Seq<char>,
                    DomainRuleError,
                >(acc[a]);
                assert(init[i] == inputs[i]);
                assert(canonical_rule(inputs[i], true) == Ok::<Seq<char>, DomainRuleError>(out[a]));
            } else {
                assert(out[b] == r);
                if k < n {
                    assert(init[k] == inputs[k]);
                    assert(canonical_rule(init[k], true) == Ok::<Seq<char>, DomainRuleError>(r));
                    assert(produced_by(init, r));
                }
                assert(produced_by(init, acc[a]));
                let i = choose|i: int| 0 <= i < init.len() && #[trigger] canonical_rule(init[i], true) == Ok::<
                    Seq<char>,
                    DomainRuleError,
                >(acc[a]);
                assert(init[i] == inputs[i]);
                assert(canonical_rule(inputs[i], true) == Ok::<Seq<char>, DomainRuleError>(out[a]));
            }
        }
    }
}

/// What canonicalizing a list promises: no more rules than inputs, none
/// twice, exactly the canonical forms of the inputs, listed in the order
/// in which each first occurs, and each one its own canonical form, not
/// empty and made of rule characters only.
pub proof fn lemma_canonical_rules_laws(inputs: Seq<Seq<char>>)
    requires
        canonical_rules(inputs) is Ok,
    ensures
        canonical_rules(inputs)->Ok_0.len() <= inputs.len(),
        canonical_rules(inputs)->Ok_0.no_duplicates(),
        forall|x: Seq<char>| canonical_rules(inputs)->Ok_0.contains(x) <==> produced_by(inputs, x),
        forall|a: int, b: int, k: int|
            #![trigger canonical_rules(inputs)->Ok_0[a], canonical_rules(inputs)->Ok_0[b], canonical_rule(inputs[k], true)]
            0 <= a < b < canonical_rules(inputs)->Ok_0.len() && 0 <= k < inputs.len() && canonical_rule(inputs[k], true)
                == Ok::<Seq<char>, DomainRuleError>(canonical_rules(inputs)->Ok_0[b]) ==> produced_before(
                inputs,
                canonical_rules(inputs)->Ok_0[a],
                k,
            ),
        forall|j: int| 0 <= j < canonical_rules(inputs)->Ok_0.len() ==> canonical_rule(
            #[trigger] canonical_rules(inputs)->Ok_0[j],
            true,
        ) == Ok::<Seq<char>, DomainRuleError>(canonical_rules(inputs)->Ok_0[j]) && canonical_rules(inputs)->Ok_0[j].len() > 0,
        forall|j: int, k: int|
            0 <= j < canonical_rules(inputs)->Ok_0.len() && 0 <= k < canonical_rules(inputs)->Ok_0[j].len() ==> rule_char(
                #[trigger] canonical_rules(inputs)->Ok_0[j][k],
            ),
{
    lemma_canonical_rules_unique(inputs);
    lemma_canonical_rules_members(inputs);
    lemma_canonical_rules_order(inputs);
}

/// One refused input makes the whole list refused: no partial list comes
/// back.
pub proof fn lemma_canonical_rules_refuse_any(inputs: Seq<Seq<char>>, i: int)
    requires
        0 <= i < inputs.len(),
        canonical_rule(inputs[i], true) is Err,
    ensures
        canonical_rules(inputs) is Err,
    decreases inputs.len(),
{
    if i < inputs.len() - 1 {
        assert(inputs.drop_last()[i] == inputs[i]);
        lemma_canonical_rules_refuse_any(inputs.drop_last(), i);
    }
}

/// Whether `v` already holds a string equal to `s`.
pub fn contains_string(v: &Vec<String>, s: &String) -> (r: bool)
    ensures
        r == view_strings(v@).contains(s@),
{
    let mut i: usize = 0;
    while i < v.len()
        invariant
            i <= v.len(),
            forall|j: int| 0 <= j < i ==> v@[j]@ != s@,
        decreases v.len() - i,
    {
        if v[i] == *s {
            proof {
                assert(view_strings(v@)[i as int] == s@);
            }
            return true;
        }
        i += 1;
    }
    proof {
        assert forall|j: int| 0 <= j < view_strings(v@).len() implies view_strings(v@)[j] != s@ by {
            assert(view_strings(v@)[j] == v@[j]@);
        }
    }
    false
}

/// Whether `host` falls under `rule`: an exact rule matches its apex and
/// every subdomain at a label boundary; a `*.` rule matches subdomains only.
/// Either side failing canonicalization never matches.
pub fn domain_rule_matches(rule: &str, host: &str) -> (r: bool)
    ensures
        r == rule_matches(rule@, host@),
{
    let r = match canonicalize_domain_rule(rule, true) {
        Ok(r) => r,
        Err(_) => return false,
    };
    let h = match canonicalize_domain_rule(host, false) {
        Ok(h) => h,
        Err(_) => return false,
    };
    let rv = chars_of(r.as_str());
    let hv = chars_of(h.as_str());
    let star = str_lit("*.");
    let wildcard = has_prefix_at(&rv, 0, &star);
    proof {
        reveal_strlit("*.");
        assert(rv@.subrange(0, rv@.len() as int) =~= rv@);
    }
    let from: usize = if wildcard { 2 } else { 0 };
    let mut suffix: Vec<char> = Vec::new();
    suffix.push('.');
    let mut i = from;
    proof {
        assert(suffix@ =~= seq!['.'] + rv@.subrange(from as int, from as int));
    }
    while i < rv.len()
        invariant
            from <= i <= rv.len(),
            suffix@ == seq!['.'] + rv@.subrange(from as int, i as int),
        decreases rv.len() - i,
    {
        suffix.push(rv[i]);
        proof {
            assert(rv@.subrange(from as int, i + 1) =~= rv@.subrange(from as int, i as int).push(rv@[i as int]));
        }
        i += 1;
    }
    let base = string_of_range(&rv, from, rv.len());
    let base_chars = chars_of(base.as_str());
    let ends = if suffix.len() <= hv.len() {
        let at = hv.len() - suffix.len();
        let e = has_prefix_at(&hv, at, &suffix);
        proof {
            assert(hv@.subrange(at as int, hv@.len() as int).subrange(0, suffix@.len() as int)
                =~= hv@.subrange(at as int, hv@.len() as int));
        }
        e
    } else {
        false
    };
    if wildcard {
        !seq_eq(&hv, &base_chars) && ends
    } else {
        proof {
            assert(rv@.subrange(0, rv@.len() as int) =~= rv@);
        }
        seq_eq(&hv, &rv) || ends
    }
}

} // verus!
