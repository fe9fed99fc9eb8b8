//! The allow-list for arguments handed to the bundled DPI engine.
//!
//! Each check is stated as a verdict over the argument's characters: `None`
//! when it is accepted, the rejection message otherwise.

use vstd::prelude::*;
use vstd::utf8::encode_utf8;
use crate::preset::EngineError;
use crate::text::{
    chars_of, decimal, digits_value, find_char, first_verdict, is_ascii_digit, lemma_find_char_bounds,
    lemma_find_char_is_first, lemma_first_verdict_all, lemma_first_verdict_persists,
    lemma_first_verdict_step, parse_i32, parse_i32_range, parse_unsigned, parse_unsigned_range,
    parse_unsigned_str, push_char, split_char, split_ranges, starts_with, str_eq,
    str_strip_prefix, str_starts_with, str_contains_char, string_of_range, to_string,
    u64_to_decimal,
};

verus! {

pub const MAX_ARG_COUNT: usize = 30;

pub const MAX_ARG_LEN: usize = 128;

pub open spec fn is_control(c: char) -> bool {
    (c as u32) < 0x20 || (0x7f <= (c as u32) && (c as u32) < 0xa0)
}

pub open spec fn log_char(c: char) -> char {
    if is_control(c) { '?' } else { c }
}

/// At most the first 48 characters, control characters shown as `?`.
pub open spec fn log_safe(s: Seq<char>) -> Seq<char> {
    let n = if s.len() < 48 { s.len() as int } else { 48 };
    s.subrange(0, n).map_values(|c: char| log_char(c))
}

pub open spec fn forbidden_chars() -> Seq<char> {
    seq!['&', ';', '|', '`', '$', '<', '>', '\'', '"', '\\', '/', '\n', '\r', '\0']
}

/// The first character of `list`, in list order, that occurs in `arg`.
pub open spec fn first_present(list: Seq<char>, arg: Seq<char>) -> Option<char>
    decreases list.len(),
{
    if list.len() == 0 {
        None
    } else if arg.contains(list[0]) {
        Some(list[0])
    } else {
        first_present(list.drop_first(), arg)
    }
}

/// `format!("{:?}", c)` for the characters that the allow-list forbids.
pub open spec fn char_debug(c: char) -> Seq<char> {
    let inner = if c == '\'' {
        "\\'"@
    } else if c == '\\' {
        "\\\\"@
    } else if c == '\n' {
        "\\n"@
    } else if c == '\r' {
        "\\r"@
    } else if c == '\0' {
        "\\0"@
    } else {
        seq![c]
    };
    seq!['\''] + inner + seq!['\'']
}

pub open spec fn is_allowed_exact(a: Seq<char>) -> bool {
    ||| a == "--windivert"@
    ||| a == "--dpi-desync-any-protocol"@
    ||| a == "--dpi-desync-autottl"@
    ||| a == "--debug"@
    ||| a == "--debug2"@
}

pub open spec fn is_allowed_prefix(a: Seq<char>) -> bool {
    ||| starts_with(a, "--filter-tcp="@)
    ||| starts_with(a, "--filter-udp="@)
    ||| starts_with(a, "--filter-raw="@)
    ||| starts_with(a, "--wf-tcp="@)
    ||| starts_with(a, "--wf-udp="@)
    ||| starts_with(a, "--wf-raw="@)
    ||| starts_with(a, "--windivert="@)
    ||| starts_with(a, "tcp."@)
    ||| starts_with(a, "udp."@)
    ||| starts_with(a, "icmp."@)
    ||| starts_with(a, "--qnum="@)
    ||| starts_with(a, "--dpi-desync="@)
    ||| starts_with(a, "--dpi-desync-split-pos="@)
    ||| starts_with(a, "--dpi-desync-split-seqovl="@)
    ||| starts_with(a, "--dpi-desync-badseq-increment="@)
    ||| starts_with(a, "--dpi-desync-repeats="@)
    ||| starts_with(a, "--dpi-desync-fooling="@)
    ||| starts_with(a, "--dpi-desync-ttl="@)
    ||| starts_with(a, "--dpi-desync-cutoff="@)
    ||| starts_with(a, "--dpi-desync-split-http-req="@)
    ||| starts_with(a, "--dpi-desync-split-tls="@)
    ||| starts_with(a, "--wssize="@)
}

pub open spec fn after(a: Seq<char>, p: Seq<char>) -> Seq<char> {
    a.subrange(p.len() as int, a.len() as int)
}

/// The verdict of `validate_number`.
pub open spec fn number_verdict(value: Seq<char>, min: nat, max: nat, label: Seq<char>) -> Option<Seq<char>> {
    match parse_unsigned(value, 0xffff_ffff) {
        None => Some(label + " must be an integer."@),
        Some(n) => if n < min || n > max {
            Some(label + " must be between "@ + decimal(min) + " and "@ + decimal(max) + "."@)
        } else {
            None
        },
    }
}

pub open spec fn port_token_verdict(t: Seq<char>) -> Option<Seq<char>> {
    if t.contains('-') {
        let i = find_char(t, '-');
        let start = parse_unsigned(t.subrange(0, i), 0xffff);
        let end = parse_unsigned(t.subrange(i + 1, t.len() as int), 0xffff);
        match (start, end) {
            (Some(s), Some(e)) => if s == 0 || s > e {
                Some("Port range is outside 1-65535 or reversed."@)
            } else {
                None
            },
            _ => Some("Port range is invalid."@),
        }
    } else {
        match parse_unsigned(t, 0xffff) {
            None => Some("Port must be an integer between 1 and 65535."@),
            Some(p) => if p == 0 { Some("Port 0 is not accepted."@) } else { None },
        }
    }
}

/// The verdict of `validate_port_spec`.
pub open spec fn port_spec_verdict(value: Seq<char>) -> Option<Seq<char>> {
    if value.len() == 0 {
        Some("Port list cannot be empty."@)
    } else {
        first_verdict(split_char(value, ','), |t: Seq<char>| port_token_verdict(t))
    }
}

/// The verdict of `validate_cutoff`: a kind letter `n`, `d` or `s`, then a
/// number from 1 to 1000000.
pub open spec fn cutoff_verdict(value: Seq<char>) -> Option<Seq<char>> {
    if value.len() == 0 || !(value[0] == 'n' || value[0] == 'd' || value[0] == 's') {
        Some("Desync cutoff must start with n, d, or s."@)
    } else {
        number_verdict(value.drop_first(), 1, 1_000_000, "desync cutoff"@)
    }
}

pub open spec fn is_split_marker(m: Seq<char>) -> bool {
    ||| m == "method"@
    ||| m == "host"@
    ||| m == "endhost"@
    ||| m == "sld"@
    ||| m == "endsld"@
    ||| m == "midsld"@
    ||| m == "sniext"@
}

/// Index of the first `+` or `-`, or the length when there is none.
pub open spec fn find_sign(t: Seq<char>) -> int
    decreases t.len(),
{
    if t.len() == 0 {
        0
    } else if t[0] == '+' || t[0] == '-' {
        0
    } else {
        1 + find_sign(t.drop_first())
    }
}

pub open spec fn split_position_token_verdict(t: Seq<char>) -> Option<Seq<char>> {
    match parse_i32(t) {
        Some(p) => if p == 0 || p < -65535 || p > 65535 {
            Some("Numeric split position must be between -65535 and 65535, excluding zero."@)
        } else {
            None
        },
        None => {
            let e = find_sign(t);
            let marker = t.subrange(0, e);
            let offset = t.subrange(e, t.len() as int);
            if !is_split_marker(marker) {
                Some("Split position contains an unsupported marker."@)
            } else if offset.len() > 0 && (offset.len() == 1 || parse_unsigned(offset.drop_first(), 0xffff) is None
                || !(offset[0] == '+' || offset[0] == '-')) {
                Some("Split marker offset must use +N or -N."@)
            } else {
                None
            }
        },
    }
}

/// The verdict of `validate_split_positions`.
pub open spec fn split_positions_verdict(value: Seq<char>) -> Option<Seq<char>> {
    if value.len() == 0 {
        Some("Split position cannot be empty."@)
    } else {
        first_verdict(split_char(value, ','), |t: Seq<char>| split_position_token_verdict(t))
    }
}

pub open spec fn is_strategy_mode(m: Seq<char>) -> bool {
    ||| m == "synack"@ || m == "syndata"@ || m == "fake"@ || m == "fakeknown"@
    ||| m == "rst"@ || m == "rstack"@ || m == "hopbyhop"@ || m == "destopt"@
    ||| m == "ipfrag1"@ || m == "multisplit"@ || m == "multidisorder"@ || m == "fakedsplit"@
    ||| m == "fakeddisorder"@ || m == "hostfakesplit"@ || m == "ipfrag2"@ || m == "udplen"@
    ||| m == "tamper"@
}

pub open spec fn is_fooling_mode(m: Seq<char>) -> bool {
    ||| m == "none"@ || m == "md5sig"@ || m == "badseq"@ || m == "badsum"@
    ||| m == "datanoack"@ || m == "ts"@ || m == "hopbyhop"@ || m == "hopbyhop2"@
}

pub open spec fn strategy_token_verdict(m: Seq<char>) -> Option<Seq<char>> {
    if is_strategy_mode(m) { None } else { Some("Desync strategy is not supported by the bundled engine."@) }
}

pub open spec fn fooling_token_verdict(m: Seq<char>) -> Option<Seq<char>> {
    if is_fooling_mode(m) { None } else { Some("Fooling mode is not supported by the bundled engine."@) }
}

/// The verdict of `validate_strategy`.
pub open spec fn strategy_verdict(value: Seq<char>) -> Option<Seq<char>> {
    if value.len() == 0 {
        Some("Desync strategy is not supported by the bundled engine."@)
    } else {
        first_verdict(split_char(value, ','), |t: Seq<char>| strategy_token_verdict(t))
    }
}

/// The desync strategies of the bundled engine, by name.
pub open spec fn bundled_strategy_modes() -> Seq<Seq<char>> {
    seq![
        "synack"@, "syndata"@, "fake"@, "fakeknown"@, "rst"@, "rstack"@, "hopbyhop"@, "destopt"@, "ipfrag1"@,
        "multisplit"@, "multidisorder"@, "fakedsplit"@, "fakeddisorder"@, "hostfakesplit"@, "ipfrag2"@,
        "udplen"@, "tamper"@,
    ]
}

proof fn lemma_single_strategy(m: Seq<char>)
    requires
        m.len() > 0,
        forall|j: int| 0 <= j < m.len() ==> 'a' <= #[trigger] m[j] <= 'z' || '0' <= m[j] <= '9',
    ensures
        strategy_verdict(m) == strategy_token_verdict(m),
        value_verdict("--dpi-desync="@ + m) == strategy_verdict(m),
{
    lemma_find_char_is_first(m, ',', m.len() as int);
    assert(split_char(m, ',') == seq![m]);
    let f = |t: Seq<char>| strategy_token_verdict(t);
    assert(seq![m].take(0) =~= Seq::<Seq<char>>::empty());
    lemma_first_verdict_step(seq![m], f, 0);
    assert(seq![m].take(1) =~= seq![m]);
    let a = "--dpi-desync="@ + m;
    reveal_strlit("--dpi-desync=");
    reveal_strlit("--wf-tcp=");
    reveal_strlit("--wf-udp=");
    reveal_strlit("--filter-tcp=");
    reveal_strlit("--filter-udp=");
    reveal_strlit("--dpi-desync-cutoff=");
    assert(a.subrange(0, 13) =~= "--dpi-desync="@);
    assert(a[2] == 'd');
    assert(a[12] == '=');
    assert(!starts_with(a, "--wf-tcp="@)) by {
        assert("--wf-tcp="@[2] == 'w');
        if starts_with(a, "--wf-tcp="@) {
            assert(a.subrange(0, 9)[2] == a[2]);
        }
    }
    assert(!starts_with(a, "--wf-udp="@)) by {
        assert("--wf-udp="@[2] == 'w');
        if starts_with(a, "--wf-udp="@) {
            assert(a.subrange(0, 9)[2] == a[2]);
        }
    }
    assert(!starts_with(a, "--filter-tcp="@)) by {
        if starts_with(a, "--filter-tcp="@) {
            assert(a.subrange(0, 13)[2] == a[2]);
        }
    }
    assert(!starts_with(a, "--filter-udp="@)) by {
        if starts_with(a, "--filter-udp="@) {
            assert(a.subrange(0, 13)[2] == a[2]);
        }
    }
    assert(!starts_with(a, "--dpi-desync-cutoff="@)) by {
        if starts_with(a, "--dpi-desync-cutoff="@) {
            assert(a.len() >= 20);
            assert(a.subrange(0, 20)[12] == a[12]);
        }
    }
    assert(starts_with(a, "--dpi-desync="@));
    assert(after(a, "--dpi-desync="@) =~= m);
}

/// Every desync strategy of the bundled engine is accepted, alone as a
/// strategy value and as a `--dpi-desync=` argument's value.
pub proof fn lemma_bundled_strategies_accepted()
    ensures
        forall|i: int| 0 <= i < bundled_strategy_modes().len() ==> strategy_verdict(
            #[trigger] bundled_strategy_modes()[i],
        ) is None && value_verdict("--dpi-desync="@ + bundled_strategy_modes()[i]) is None,
{
    assert forall|i: int| 0 <= i < bundled_strategy_modes().len() implies strategy_verdict(
        #[trigger] bundled_strategy_modes()[i],
    ) is None && value_verdict("--dpi-desync="@ + bundled_strategy_modes()[i]) is None by {
        let m = bundled_strategy_modes()[i];
        reveal_strlit("synack");
        reveal_strlit("syndata");
        reveal_strlit("fake");
        reveal_strlit("fakeknown");
        reveal_strlit("rst");
        reveal_strlit("rstack");
        reveal_strlit("hopbyhop");
        reveal_strlit("destopt");
        reveal_strlit("ipfrag1");
        reveal_strlit("multisplit");
        reveal_strlit("multidisorder");
        reveal_strlit("fakedsplit");
        reveal_strlit("fakeddisorder");
        reveal_strlit("hostfakesplit");
        reveal_strlit("ipfrag2");
        reveal_strlit("udplen");
        reveal_strlit("tamper");
        lemma_single_strategy(m);
    }
}

/// The verdict of `validate_fooling`.
pub open spec fn fooling_verdict(value: Seq<char>) -> Option<Seq<char>> {
    if value.len() == 0 {
        Some("Fooling mode is not supported by the bundled engine."@)
    } else {
        first_verdict(split_char(value, ','), |t: Seq<char>| fooling_token_verdict(t))
    }
}

/// The verdict of `validate_legacy_split_selector`.
pub open spec fn selector_verdict(value: Seq<char>, allowed: Seq<Seq<char>>) -> Option<Seq<char>> {
    if allowed.contains(value) { None } else { Some("Split selector is not supported by the bundled engine."@) }
}

/// The semantic check that the argument's prefix calls for, if any.
pub open spec fn value_verdict(a: Seq<char>) -> Option<Seq<char>> {
    if starts_with(a, "--wf-tcp="@) {
        port_spec_verdict(after(a, "--wf-tcp="@))
    } else if starts_with(a, "--wf-udp="@) {
        port_spec_verdict(after(a, "--wf-udp="@))
    } else if starts_with(a, "--filter-tcp="@) {
        port_spec_verdict(after(a, "--filter-tcp="@))
    } else if starts_with(a, "--filter-udp="@) {
        port_spec_verdict(after(a, "--filter-udp="@))
    } else if starts_with(a, "--dpi-desync-cutoff="@) {
        cutoff_verdict(after(a, "--dpi-desync-cutoff="@))
    } else if starts_with(a, "--dpi-desync="@) {
        strategy_verdict(after(a, "--dpi-desync="@))
    } else if starts_with(a, "--dpi-desync-fooling="@) {
        fooling_verdict(after(a, "--dpi-desync-fooling="@))
    } else if starts_with(a, "--dpi-desync-split-http-req="@) {
        selector_verdict(after(a, "--dpi-desync-split-http-req="@), seq!["method"@, "host"@])
    } else if starts_with(a, "--dpi-desync-split-tls="@) {
        selector_verdict(after(a, "--dpi-desync-split-tls="@), seq!["sni"@, "sniext"@])
    } else if starts_with(a, "--dpi-desync-ttl="@) {
        number_verdict(after(a, "--dpi-desync-ttl="@), 1, 255, "TTL"@)
    } else if starts_with(a, "--dpi-desync-repeats="@) {
        number_verdict(after(a, "--dpi-desync-repeats="@), 1, 100, "repeat count"@)
    } else if starts_with(a, "--dpi-desync-split-pos="@) {
        split_positions_verdict(after(a, "--dpi-desync-split-pos="@))
    } else if starts_with(a, "--dpi-desync-split-seqovl="@) {
        number_verdict(after(a, "--dpi-desync-split-seqovl="@), 0, 65_535, "split overlap"@)
    } else if starts_with(a, "--dpi-desync-badseq-increment="@) {
        number_verdict(after(a, "--dpi-desync-badseq-increment="@), 0, 2_147_483_647, "badseq increment"@)
    } else if starts_with(a, "--wssize="@) {
        number_verdict(after(a, "--wssize="@), 1, 16_777_216, "TCP window"@)
    } else if starts_with(a, "--qnum="@) {
        number_verdict(after(a, "--qnum="@), 0, 65_535, "queue number"@)
    } else {
        None
    }
}

/// The verdict of `validate_single_arg` on one argument.
pub open spec fn single_arg_verdict(a: Seq<char>) -> Option<Seq<char>> {
    if encode_utf8(a).len() > 128 {
        let shown = if a.len() < 32 { a } else { a.subrange(0, 32) };
        Some("Argüman çok uzun ("@ + decimal(encode_utf8(a).len()) + " karakter > 128 limit): \""@ + shown
            + "…\""@)
    } else if a.len() == 0 {
        Some("Boş argüman kabul edilmiyor."@)
    } else if first_present(forbidden_chars(), a) is Some {
        Some("Güvenli olmayan karakter '"@ + char_debug(first_present(forbidden_chars(), a)->0)
            + "' argümanda tespit edildi: \""@ + log_safe(a) + "\""@)
    } else if !(is_allowed_exact(a) || is_allowed_prefix(a)) {
        Some("Tanınmayan argüman reddedildi: \""@ + log_safe(a)
            + "\". Yalnızca bilinen winws/nfqws parametreleri kabul edilir."@)
    } else {
        value_verdict(a)
    }
}

/// The verdict of `validate_preset_args` on a whole argument list.
pub open spec fn preset_args_verdict(args: Seq<Seq<char>>) -> Option<Seq<char>> {
    if args.len() > 30 {
        Some("Argüman sayısı limiti aşıldı: "@ + decimal(args.len()) + " > 30 (izin verilen maksimum)."@)
    } else {
        first_verdict(args, |a: Seq<char>| single_arg_verdict(a))
    }
}

/// `Ok` for no verdict, `InvalidPreset` with its message for one.
pub open spec fn carries_verdict(r: Result<(), EngineError>, v: Option<Seq<char>>) -> bool {
    match (r, v) {
        (Ok(_), None) => true,
        (Err(EngineError::InvalidPreset(m)), Some(t)) => m@ == t,
        _ => false,
    }
}

fn invalid(message: String) -> (r: Result<(), EngineError>)
    ensures
        r == Err::<(), EngineError>(EngineError::InvalidPreset(message)),
{
    Err(EngineError::InvalidPreset(message))
}

fn cat(mut a: String, b: &str) -> (r: String)
    ensures
        r@ == a@ + b@,
{
    a.append(b);
    a
}

/// `sanitize_for_log`: at most 48 characters, control characters as `?`.
pub fn sanitize_for_log(s: &str) -> (r: String)
    ensures
        r@ == log_safe(s@),
{
    let v = chars_of(s);
    let n: usize = if v.len() < 48 { v.len() } else { 48 };
    let mut out = String::new();
    let mut i: usize = 0;
    while i < n
        invariant
            i <= n <= v.len(),
            n == (if v@.len() < 48 { v@.len() as int } else { 48 }),
            out@ == v@.subrange(0, i as int).map_values(|c: char| log_char(c)),
        decreases n - i,
    {
        let c = v[i];
        let shown = if (c as u32) < 0x20 || (0x7f <= (c as u32) && (c as u32) < 0xa0) { '?' } else { c };
        push_char(&mut out, shown);
        proof {
            assert(v@.subrange(0, i + 1).map_values(|c: char| log_char(c)) =~= v@.subrange(0, i as int).map_values(
                |c: char| log_char(c),
            ).push(log_char(c)));
        }
        i += 1;
    }
    out
}

/// `validate_number`: `value` must parse as a `u32` within `minimum..=maximum`.
pub fn validate_number(value: &str, minimum: u32, maximum: u32, label: &str) -> (r: Result<(), EngineError>)
    ensures
        carries_verdict(r, number_verdict(value@, minimum as nat, maximum as nat, label@)),
{
    match parse_unsigned_str(value, 0xffff_ffff) {
        None => invalid(cat(to_string(label), " must be an integer.")),
        Some(n) => {
            if n < minimum as u64 || n > maximum as u64 {
                let mut m = cat(to_string(label), " must be between ");
                m = cat(m, u64_to_decimal(minimum as u64).as_str());
                m = cat(m, " and ");
                m = cat(m, u64_to_decimal(maximum as u64).as_str());
                m = cat(m, ".");
                invalid(m)
            } else {
                Ok(())
            }
        },
    }
}

fn port_token(v: &Vec<char>, from: usize, to: usize) -> (r: Result<(), EngineError>)
    requires
        from <= to <= v.len(),
    ensures
        carries_verdict(r, port_token_verdict(v@.subrange(from as int, to as int))),
{
    let ghost t = v@.subrange(from as int, to as int);
    let mut dash = from;
    while dash < to && v[dash] != '-'
        invariant
            from <= dash <= to <= v.len(),
            forall|j: int| from <= j < dash ==> v@[j] != '-',
        decreases to - dash,
    {
        dash += 1;
    }
    proof {
        lemma_find_char_is_first(t, '-', dash - from);
        if dash < to {
            assert(t[dash - from] == '-');
        } else {
            assert forall|j: int| 0 <= j < t.len() implies t[j] != '-' by {
                assert(t[j] == v@[from + j]);
            }
        }
    }
    if dash < to {
        proof {
            assert(t.subrange(0, dash - from) =~= v@.subrange(from as int, dash as int));
            assert(t.subrange(dash - from + 1, t.len() as int) =~= v@.subrange(dash + 1, to as int));
        }
        let start = parse_unsigned_range(v, from, dash, 0xffff);
        let end = parse_unsigned_range(v, dash + 1, to, 0xffff);
        match (start, end) {
            (Some(s), Some(e)) => {
                if s == 0 || s > e {
                    invalid(to_string("Port range is outside 1-65535 or reversed."))
                } else {
                    Ok(())
                }
            },
            _ => invalid(to_string("Port range is invalid.")),
        }
    } else {
        match parse_unsigned_range(v, from, to, 0xffff) {
            None => invalid(to_string("Port must be an integer between 1 and 65535.")),
            Some(p) => if p == 0 {
                invalid(to_string("Port 0 is not accepted."))
            } else {
                Ok(())
            },
        }
    }
}

/// `validate_port_spec`: a non-empty comma list of ports and `a-b` ranges
/// within 1..=65535.
pub fn validate_port_spec(value: &str) -> (r: Result<(), EngineError>)
    ensures
        carries_verdict(r, port_spec_verdict(value@)),
{
    let v = chars_of(value);
    if v.len() == 0 {
        return invalid(to_string("Port list cannot be empty."));
    }
    let ranges = split_ranges(&v, ',');
    let ghost pieces = split_char(v@, ',');
    let ghost f = |t: Seq<char>| port_token_verdict(t);
    let mut k: usize = 0;
    while k < ranges.len()
        invariant
            k <= ranges@.len() == pieces.len(),
            v@ == value@,
            v@.len() > 0,
            pieces == split_char(v@, ','),
            f == (|t: Seq<char>| port_token_verdict(t)),
            forall|i: int| #![trigger ranges@[i]] 0 <= i < ranges@.len() ==> ranges@[i].0 <= ranges@[i].1 <= v@.len()
                && v@.subrange(ranges@[i].0 as int, ranges@[i].1 as int) == pieces[i],
            first_verdict(pieces.take(k as int), f) is None,
        decreases ranges.len() - k,
    {
        let (a, b) = ranges[k];
        proof {
            assert(ranges@[k as int] == (a, b));
        }
        let verdict = port_token(&v, a, b);
        proof {
            lemma_first_verdict_step(pieces, f, k as int);
            assert(pieces[k as int] == v@.subrange(a as int, b as int));
        }
        if verdict.is_err() {
            proof {
                assert(f(pieces[k as int]) == port_token_verdict(pieces[k as int]));
                assert(first_verdict(pieces.take(k + 1), f) is Some);
                lemma_first_verdict_persists(pieces, f, k + 1);
            }
            return verdict;
        }
        k += 1;
    }
    proof {
        lemma_first_verdict_all(pieces, f);
    }
    Ok(())
}

/// `validate_cutoff`.
pub fn validate_cutoff(value: &str) -> (r: Result<(), EngineError>)
    ensures
        carries_verdict(r, cutoff_verdict(value@)),
{
    let v = chars_of(value);
    if v.len() == 0 || !(v[0] == 'n' || v[0] == 'd' || v[0] == 's') {
        return invalid(to_string("Desync cutoff must start with n, d, or s."));
    }
    let number = string_of_range(&v, 1, v.len());
    proof {
        assert(v@.subrange(1, v@.len() as int) =~= v@.drop_first());
    }
    validate_number(number.as_str(), 1, 1_000_000, "desync cutoff")
}

fn is_split_marker_range(v: &Vec<char>, from: usize, to: usize) -> (r: bool)
    requires
        from <= to <= v.len(),
    ensures
        r == is_split_marker(v@.subrange(from as int, to as int)),
{
    let m = string_of_range(v, from, to);
    let s = m.as_str();
    str_eq(s, "method") || str_eq(s, "host") || str_eq(s, "endhost") || str_eq(s, "sld")
        || str_eq(s, "endsld") || str_eq(s, "midsld") || str_eq(s, "sniext")
}

pub proof fn lemma_find_sign_is_first(t: Seq<char>, k: int)
    requires
        0 <= k <= t.len(),
        k < t.len() ==> (t[k] == '+' || t[k] == '-'),
        forall|j: int| 0 <= j < k ==> !(t[j] == '+' || t[j] == '-'),
    ensures
        find_sign(t) == k,
    decreases t.len(),
{
    if t.len() > 0 && !(t[0] == '+' || t[0] == '-') {
        assert forall|j: int| 0 <= j < k - 1 implies !(t.drop_first()[j] == '+' || t.drop_first()[j] == '-') by {
            assert(t.drop_first()[j] == t[j + 1]);
        }
        if k - 1 < t.len() - 1 {
            assert(t.drop_first()[k - 1] == t[k]);
        }
        lemma_find_sign_is_first(t.drop_first(), k - 1);
    }
}

fn split_position_token(v: &Vec<char>, from: usize, to: usize) -> (r: Result<(), EngineError>)
    requires
        from <= to <= v.len(),
    ensures
        carries_verdict(r, split_position_token_verdict(v@.subrange(from as int, to as int))),
{
    let ghost t = v@.subrange(from as int, to as int);
    match parse_i32_range(v, from, to) {
        Some(p) => {
            if p == 0 || p < -65535 || p > 65535 {
                return invalid(to_string(
                    "Numeric split position must be between -65535 and 65535, excluding zero.",
                ));
            }
            return Ok(());
        },
        None => {},
    }
    let mut e = from;
    while e < to && !(v[e] == '+' || v[e] == '-')
        invariant
            from <= e <= to <= v.len(),
            forall|j: int| from <= j < e ==> !(v@[j] == '+' || v@[j] == '-'),
        decreases to - e,
    {
        e += 1;
    }
    proof {
        assert forall|j: int| 0 <= j < e - from implies !(t[j] == '+' || t[j] == '-') by {
            assert(t[j] == v@[from + j]);
        }
        if e < to {
            assert(t[e - from] == v@[e as int]);
        }
        lemma_find_sign_is_first(t, e - from);
        assert(t.subrange(0, e - from) =~= v@.subrange(from as int, e as int));
        assert(t.subrange(e - from, t.len() as int) =~= v@.subrange(e as int, to as int));
    }
    if !is_split_marker_range(v, from, e) {
        return invalid(to_string("Split position contains an unsupported marker."));
    }
    if e < to {
        let ghost offset = v@.subrange(e as int, to as int);
        proof {
            assert(offset[0] == v@[e as int]);
            assert(offset.drop_first() =~= v@.subrange(e + 1, to as int));
        }
        if to - e == 1 || parse_unsigned_range(v, e + 1, to, 0xffff).is_none()
            || !(v[e] == '+' || v[e] == '-') {
            return invalid(to_string("Split marker offset must use +N or -N."));
        }
    }
    Ok(())
}

/// `validate_split_positions`.
pub fn validate_split_positions(value: &str) -> (r: Result<(), EngineError>)
    ensures
        carries_verdict(r, split_positions_verdict(value@)),
{
    let v = chars_of(value);
    if v.len() == 0 {
        return invalid(to_string("Split position cannot be empty."));
    }
    let ranges = split_ranges(&v, ',');
    let ghost pieces = split_char(v@, ',');
    let ghost f = |t: Seq<char>| split_position_token_verdict(t);
    let mut k: usize = 0;
    while k < ranges.len()
        invariant
            k <= ranges@.len() == pieces.len(),
            v@ == value@,
            v@.len() > 0,
            pieces == split_char(v@, ','),
            f == (|t: Seq<char>| split_position_token_verdict(t)),
            forall|i: int| #![trigger ranges@[i]] 0 <= i < ranges@.len() ==> ranges@[i].0 <= ranges@[i].1 <= v@.len()
                && v@.subrange(ranges@[i].0 as int, ranges@[i].1 as int) == pieces[i],
            first_verdict(pieces.take(k as int), f) is None,
        decreases ranges.len() - k,
    {
        let (a, b) = ranges[k];
        proof {
            assert(ranges@[k as int] == (a, b));
        }
        let verdict = split_position_token(&v, a, b);
        proof {
            lemma_first_verdict_step(pieces, f, k as int);
            assert(pieces[k as int] == v@.subrange(a as int, b as int));
        }
        if verdict.is_err() {
            proof {
                assert(f(pieces[k as int]) == split_position_token_verdict(pieces[k as int]));
                assert(first_verdict(pieces.take(k + 1), f) is Some);
                lemma_first_verdict_persists(pieces, f, k + 1);
            }
            return verdict;
        }
        k += 1;
    }
    proof {
        lemma_first_verdict_all(pieces, f);
    }
    Ok(())
}

fn is_strategy_mode_range(v: &Vec<char>, from: usize, to: usize) -> (r: bool)
    requires
        from <= to <= v.len(),
    ensures
        r == is_strategy_mode(v@.subrange(from as int, to as int)),
{
    let m = string_of_range(v, from, to);
    let s = m.as_str();
    str_eq(s, "synack") || str_eq(s, "syndata") || str_eq(s, "fake") || str_eq(s, "fakeknown")
        || str_eq(s, "rst") || str_eq(s, "rstack") || str_eq(s, "hopbyhop") || str_eq(s, "destopt")
        || str_eq(s, "ipfrag1") || str_eq(s, "multisplit") || str_eq(s, "multidisorder")
        || str_eq(s, "fakedsplit") || str_eq(s, "fakeddisorder") || str_eq(s, "hostfakesplit")
        || str_eq(s, "ipfrag2") || str_eq(s, "udplen") || str_eq(s, "tamper")
}

fn is_fooling_mode_range(v: &Vec<char>, from: usize, to: usize) -> (r: bool)
    requires
        from <= to <= v.len(),
    ensures
        r == is_fooling_mode(v@.subrange(from as int, to as int)),
{
    let m = string_of_range(v, from, to);
    let s = m.as_str();
    str_eq(s, "none") || str_eq(s, "md5sig") || str_eq(s, "badseq") || str_eq(s, "badsum")
        || str_eq(s, "datanoack") || str_eq(s, "ts") || str_eq(s, "hopbyhop") || str_eq(s, "hopbyhop2")
}

/// `validate_strategy`: every comma-separated mode is one the bundled engine
/// supports.
pub fn validate_strategy(value: &str) -> (r: Result<(), EngineError>)
    ensures
        carries_verdict(r, strategy_verdict(value@)),
{
    let v = chars_of(value);
    if v.len() == 0 {
        return invalid(to_string("Desync strategy is not supported by the bundled engine."));
    }
    let ranges = split_ranges(&v, ',');
    let ghost pieces = split_char(v@, ',');
    let ghost f = |t: Seq<char>| strategy_token_verdict(t);
    let mut k: usize = 0;
    while k < ranges.len()
        invariant
            k <= ranges@.len() == pieces.len(),
            v@ == value@,
            v@.len() > 0,
            pieces == split_char(v@, ','),
            f == (|t: Seq<char>| strategy_token_verdict(t)),
            forall|i: int| #![trigger ranges@[i]] 0 <= i < ranges@.len() ==> ranges@[i].0 <= ranges@[i].1 <= v@.len()
                && v@.subrange(ranges@[i].0 as int, ranges@[i].1 as int) == pieces[i],
            first_verdict(pieces.take(k as int), f) is None,
        decreases ranges.len() - k,
    {
        let (a, b) = ranges[k];
        proof {
            assert(ranges@[k as int] == (a, b));
            lemma_first_verdict_step(pieces, f, k as int);
        }
        if !is_strategy_mode_range(&v, a, b) {
            proof {
                assert(pieces[k as int] == v@.subrange(a as int, b as int));
                assert(f(pieces[k as int]) == strategy_token_verdict(pieces[k as int]));
                assert(first_verdict(pieces.take(k + 1), f) is Some);
                lemma_first_verdict_persists(pieces, f, k + 1);
            }
            return invalid(to_string("Desync strategy is not supported by the bundled engine."));
        }
        k += 1;
    }
    proof {
        lemma_first_verdict_all(pieces, f);
    }
    Ok(())
}

/// `validate_fooling`: every comma-separated fooling mode is supported.
pub fn validate_fooling(value: &str) -> (r: Result<(), EngineError>)
    ensures
        carries_verdict(r, fooling_verdict(value@)),
{
    let v = chars_of(value);
    if v.len() == 0 {
        return invalid(to_string("Fooling mode is not supported by the bundled engine."));
    }
    let ranges = split_ranges(&v, ',');
    let ghost pieces = split_char(v@, ',');
    let ghost f = |t: Seq<char>| fooling_token_verdict(t);
    let mut k: usize = 0;
    while k < ranges.len()
        invariant
            k <= ranges@.len() == pieces.len(),
            v@ == value@,
            v@.len() > 0,
            pieces == split_char(v@, ','),
            f == (|t: Seq<char>| fooling_token_verdict(t)),
            forall|i: int| #![trigger ranges@[i]] 0 <= i < ranges@.len() ==> ranges@[i].0 <= ranges@[i].1 <= v@.len()
                && v@.subrange(ranges@[i].0 as int, ranges@[i].1 as int) == pieces[i],
            first_verdict(pieces.take(k as int), f) is None,
        decreases ranges.len() - k,
    {
        let (a, b) = ranges[k];
        proof {
            assert(ranges@[k as int] == (a, b));
            lemma_first_verdict_step(pieces, f, k as int);
        }
        if !is_fooling_mode_range(&v, a, b) {
            proof {
                assert(pieces[k as int] == v@.subrange(a as int, b as int));
                assert(f(pieces[k as int]) == fooling_token_verdict(pieces[k as int]));
                assert(first_verdict(pieces.take(k + 1), f) is Some);
                lemma_first_verdict_persists(pieces, f, k + 1);
            }
            return invalid(to_string("Fooling mode is not supported by the bundled engine."));
        }
        k += 1;
    }
    proof {
        lemma_first_verdict_all(pieces, f);
    }
    Ok(())
}

/// `validate_legacy_split_selector`: `value` is one of `allowed`.
pub fn validate_legacy_split_selector(value: &str, allowed: &[&str]) -> (r: Result<(), EngineError>)
    ensures
        carries_verdict(r, selector_verdict(value@, allowed@.map_values(|s: &str| s@))),
{
    let ghost views = allowed@.map_values(|s: &str| s@);
    let mut i: usize = 0;
    while i < allowed.len()
        invariant
            i <= allowed@.len(),
            views == allowed@.map_values(|s: &str| s@),
            forall|j: int| 0 <= j < i ==> views[j] != value@,
        decreases allowed.len() - i,
    {
        if str_eq(value, allowed[i]) {
            proof {
                assert(views[i as int] == value@);
            }
            return Ok(());
        }
        i += 1;
    }
    invalid(to_string("Split selector is not supported by the bundled engine."))
}

fn forbidden_list() -> (v: Vec<char>)
    ensures
        v@ == forbidden_chars(),
{
    let mut v: Vec<char> = Vec::new();
    v.push('&');
    v.push(';');
    v.push('|');
    v.push('`');
    v.push('$');
    v.push('<');
    v.push('>');
    v.push('\'');
    v.push('"');
    v.push('\\');
    v.push('/');
    v.push('\n');
    v.push('\r');
    v.push('\0');
    proof {
        assert(v@ =~= forbidden_chars());
    }
    v
}

fn char_debug_text(c: char) -> (s: String)
    ensures
        s@ == char_debug(c),
{
    let mut s = String::new();
    push_char(&mut s, '\'');
    if c == '\'' {
        s = cat(s, "\\'");
    } else if c == '\\' {
        s = cat(s, "\\\\");
    } else if c == '\n' {
        s = cat(s, "\\n");
    } else if c == '\r' {
        s = cat(s, "\\r");
    } else if c == '\0' {
        s = cat(s, "\\0");
    } else {
        push_char(&mut s, c);
    }
    push_char(&mut s, '\'');
    proof {
        assert(s@ =~= char_debug(c));
    }
    s
}

/// The first forbidden character, in the order of the forbidden list, that
/// occurs in `arg`.
pub fn first_forbidden(arg: &str) -> (r: Option<char>)
    ensures
        r == first_present(forbidden_chars(), arg@),
{
    let list = forbidden_list();
    let mut i: usize = 0;
    proof {
        assert(list@.subrange(0, list@.len() as int) =~= list@);
    }
    while i < list.len()
        invariant
            i <= list@.len(),
            list@ == forbidden_chars(),
            first_present(forbidden_chars(), arg@) == first_present(list@.subrange(i as int, list@.len() as int), arg@),
        decreases list.len() - i,
    {
        let ghost rest = list@.subrange(i as int, list@.len() as int);
        proof {
            assert(rest[0] == list@[i as int]);
            assert(rest.drop_first() =~= list@.subrange(i + 1, list@.len() as int));
        }
        if str_contains_char(arg, list[i]) {
            return Some(list[i]);
        }
        i += 1;
    }
    None
}

fn is_allowed_exact_str(a: &str) -> (r: bool)
    ensures
        r == is_allowed_exact(a@),
{
    str_eq(a, "--windivert") || str_eq(a, "--dpi-desync-any-protocol") || str_eq(a, "--dpi-desync-autottl")
        || str_eq(a, "--debug") || str_eq(a, "--debug2")
}

fn is_allowed_prefix_str(a: &str) -> (r: bool)
    ensures
        r == is_allowed_prefix(a@),
{
    str_starts_with(a, "--filter-tcp=") || str_starts_with(a, "--filter-udp=") || str_starts_with(a, "--filter-raw=")
        || str_starts_with(a, "--wf-tcp=") || str_starts_with(a, "--wf-udp=") || str_starts_with(a, "--wf-raw=")
        || str_starts_with(a, "--windivert=") || str_starts_with(a, "tcp.")
        || str_starts_with(a, "udp.") || str_starts_with(a, "icmp.") || str_starts_with(a, "--qnum=")
        || str_starts_with(a, "--dpi-desync=") || str_starts_with(a, "--dpi-desync-split-pos=")
        || str_starts_with(a, "--dpi-desync-split-seqovl=") || str_starts_with(a, "--dpi-desync-badseq-increment=")
        || str_starts_with(a, "--dpi-desync-repeats=") || str_starts_with(a, "--dpi-desync-fooling=")
        || str_starts_with(a, "--dpi-desync-ttl=") || str_starts_with(a, "--dpi-desync-cutoff=")
        || str_starts_with(a, "--dpi-desync-split-http-req=") || str_starts_with(a, "--dpi-desync-split-tls=")
        || str_starts_with(a, "--wssize=")
}

/// The semantic check for the argument's prefix.
fn validate_value(arg: &str) -> (r: Result<(), EngineError>)
    ensures
        carries_verdict(r, value_verdict(arg@)),
{
    if let Some(v) = str_strip_prefix(arg, "--wf-tcp=") {
        validate_port_spec(v.as_str())
    } else if let Some(v) = str_strip_prefix(arg, "--wf-udp=") {
        validate_port_spec(v.as_str())
    } else if let Some(v) = str_strip_prefix(arg, "--filter-tcp=") {
        validate_port_spec(v.as_str())
    } else if let Some(v) = str_strip_prefix(arg, "--filter-udp=") {
        validate_port_spec(v.as_str())
    } else if let Some(v) = str_strip_prefix(arg, "--dpi-desync-cutoff=") {
        validate_cutoff(v.as_str())
    } else if let Some(v) = str_strip_prefix(arg, "--dpi-desync=") {
        validate_strategy(v.as_str())
    } else if let Some(v) = str_strip_prefix(arg, "--dpi-desync-fooling=") {
        validate_fooling(v.as_str())
    } else if let Some(v) = str_strip_prefix(arg, "--dpi-desync-split-http-req=") {
        let allowed: [&str; 2] = ["method", "host"];
        let r = validate_legacy_split_selector(v.as_str(), &allowed);
        proof {
            assert(allowed@.map_values(|s: &str| s@) =~= seq!["method"@, "host"@]);
        }
        r
    } else if let Some(v) = str_strip_prefix(arg, "--dpi-desync-split-tls=") {
        let allowed: [&str; 2] = ["sni", "sniext"];
        let r = validate_legacy_split_selector(v.as_str(), &allowed);
        proof {
            assert(allowed@.map_values(|s: &str| s@) =~= seq!["sni"@, "sniext"@]);
        }
        r
    } else if let Some(v) = str_strip_prefix(arg, "--dpi-desync-ttl=") {
        validate_number(v.as_str(), 1, 255, "TTL")
    } else if let Some(v) = str_strip_prefix(arg, "--dpi-desync-repeats=") {
        validate_number(v.as_str(), 1, 100, "repeat count")
    } else if let Some(v) = str_strip_prefix(arg, "--dpi-desync-split-pos=") {
        validate_split_positions(v.as_str())
    } else if let Some(v) = str_strip_prefix(arg, "--dpi-desync-split-seqovl=") {
        validate_number(v.as_str(), 0, 65_535, "split overlap")
    } else if let Some(v) = str_strip_prefix(arg, "--dpi-desync-badseq-increment=") {
        validate_number(v.as_str(), 0, 2_147_483_647, "badseq increment")
    } else if let Some(v) = str_strip_prefix(arg, "--wssize=") {
        validate_number(v.as_str(), 1, 16_777_216, "TCP window")
    } else if let Some(v) = str_strip_prefix(arg, "--qnum=") {
        validate_number(v.as_str(), 0, 65_535, "queue number")
    } else {
        Ok(())
    }
}

/// `validate_single_arg`: length, emptiness, forbidden characters, the
/// allow-list, then the value check of the argument's prefix.
pub fn validate_single_arg(arg: &str) -> (r: Result<(), EngineError>)
    ensures
        carries_verdict(r, single_arg_verdict(arg@)),
{
    let byte_len = arg.as_bytes().len();
    if byte_len > MAX_ARG_LEN {
        let v = chars_of(arg);
        let shown_len: usize = if v.len() < 32 { v.len() } else { 32 };
        let shown = string_of_range(&v, 0, shown_len);
        proof {
            if v@.len() < 32 {
                assert(v@.subrange(0, v@.len() as int) =~= v@);
            }
        }
        let mut m = to_string("Argüman çok uzun (");
        m = cat(m, u64_to_decimal(byte_len as u64).as_str());
        m = cat(m, " karakter > 128 limit): \"");
        m = cat(m, shown.as_str());
        m = cat(m, "…\"");
        return invalid(m);
    }
    if arg.is_empty() {
        return invalid(to_string("Boş argüman kabul edilmiyor."));
    }
    if let Some(ch) = first_forbidden(arg) {
        let mut m = to_string("Güvenli olmayan karakter '");
        m = cat(m, char_debug_text(ch).as_str());
        m = cat(m, "' argümanda tespit edildi: \"");
        m = cat(m, sanitize_for_log(arg).as_str());
        m = cat(m, "\"");
        return invalid(m);
    }
    if !(is_allowed_exact_str(arg) || is_allowed_prefix_str(arg)) {
        let mut m = to_string("Tanınmayan argüman reddedildi: \"");
        m = cat(m, sanitize_for_log(arg).as_str());
        m = cat(m, "\". Yalnızca bilinen winws/nfqws parametreleri kabul edilir.");
        return invalid(m);
    }
    validate_value(arg)
}

/// `validate_preset_args`: at most 30 arguments, each accepted by
/// `validate_single_arg`; the first rejection is returned.
pub fn validate_preset_args(args: &[String]) -> (r: Result<(), EngineError>)
    ensures
        carries_verdict(r, preset_args_verdict(args@.map_values(|s: String| s@))),
{
    let ghost views = args@.map_values(|s: String| s@);
    if args.len() > MAX_ARG_COUNT {
        let mut m = to_string("Argüman sayısı limiti aşıldı: ");
        m = cat(m, u64_to_decimal(args.len() as u64).as_str());
        m = cat(m, " > 30 (izin verilen maksimum).");
        return invalid(m);
    }
    let ghost f = |a: Seq<char>| single_arg_verdict(a);
    let mut k: usize = 0;
    while k < args.len()
        invariant
            k <= args@.len(),
            args@.len() <= 30,
            views == args@.map_values(|s: String| s@),
            f == (|a: Seq<char>| single_arg_verdict(a)),
            first_verdict(views.take(k as int), f) is None,
        decreases args.len() - k,
    {
        let verdict = validate_single_arg(args[k].as_str());
        proof {
            lemma_first_verdict_step(views, f, k as int);
            assert(views[k as int] == args@[k as int]@);
        }
        if verdict.is_err() {
            proof {
                assert(f(views[k as int]) == single_arg_verdict(views[k as int]));
                assert(first_verdict(views.take(k + 1), f) is Some);
                lemma_first_verdict_persists(views, f, k + 1);
            }
            return verdict;
        }
        k += 1;
    }
    proof {
        lemma_first_verdict_all(views, f);
    }
    Ok(())
}

} // verus!
