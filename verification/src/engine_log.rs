//! The engine's console output as the user sees it: each line cut to a
//! safe length and labelled by its stream and what it reports, handed on
//! in batches.

use vstd::prelude::*;
use crate::text::{chars_of, concat, contains_seq, str_contains, string_of_range};

verus! {

/// A line is cut after this many characters.
pub const MAX_LOG_LINE_CHARS: usize = 1024;

/// A batch is handed on when it holds this many lines,
pub const LOG_BATCH_LINES: usize = 50;

/// or when this long has passed since the last one.
pub const LOG_FLUSH_INTERVAL_MS: u64 = 200;

pub open spec fn cut_line(line: Seq<char>) -> Seq<char> {
    if line.len() > MAX_LOG_LINE_CHARS { line.take(MAX_LOG_LINE_CHARS as int) } else { line }
}

/// The label of an engine line: errors (from standard error) about the
/// hostlist file or missing rights get an explanation; output about the
/// packet filter says that the driver started.
pub open spec fn engine_log_text(line: Seq<char>, from_stderr: bool) -> Seq<char> {
    let l = cut_line(line);
    if from_stderr {
        if contains_seq(l, "cannot access hostlist file"@) || contains_seq(l, "file_open_test"@) {
            "[HATA] ❌ Hostlist kural dosyası okunamadı: "@ + l
        } else if contains_seq(l, "Access is denied"@) || contains_seq(l, "Permission denied"@) {
            "[HATA] 🛡️ Erişim reddedildi — Lütfen Vane'i Yönetici olarak çalıştırın! ("@ + l + ")"@
        } else {
            "[HATA] "@ + l
        }
    } else if contains_seq(l, "windivert"@) || contains_seq(l, "filter"@) {
        "[MOTOR] 🛡️ WinDivert sürücüsü paket filtresini başlattı: "@ + l
    } else {
        "[MOTOR] "@ + l
    }
}

pub fn format_engine_log_line(line: &str, from_stderr: bool) -> (r: String)
    ensures
        r@ == engine_log_text(line@, from_stderr),
{
    let v = chars_of(line);
    let end = if v.len() > MAX_LOG_LINE_CHARS { MAX_LOG_LINE_CHARS } else { v.len() };
    let cut = string_of_range(&v, 0, end);
    proof {
        assert(cut@ =~= cut_line(line@));
    }
    let l = cut.as_str();
    if from_stderr {
        if str_contains(l, "cannot access hostlist file") || str_contains(l, "file_open_test") {
            concat("[HATA] ❌ Hostlist kural dosyası okunamadı: ", l)
        } else if str_contains(l, "Access is denied") || str_contains(l, "Permission denied") {
            let head = concat("[HATA] 🛡️ Erişim reddedildi — Lütfen Vane'i Yönetici olarak çalıştırın! (", l);
            concat(head.as_str(), ")")
        } else {
            concat("[HATA] ", l)
        }
    } else if str_contains(l, "windivert") || str_contains(l, "filter") {
        concat("[MOTOR] 🛡️ WinDivert sürücüsü paket filtresini başlattı: ", l)
    } else {
        concat("[MOTOR] ", l)
    }
}

/// Whether the pending lines are handed on now.
pub fn should_flush_log_batch(elapsed_ms: u64, batch_len: usize) -> (r: bool)
    ensures
        r == (elapsed_ms >= LOG_FLUSH_INTERVAL_MS || batch_len >= LOG_BATCH_LINES),
{
    elapsed_ms >= LOG_FLUSH_INTERVAL_MS || batch_len >= LOG_BATCH_LINES
}

} // verus!
