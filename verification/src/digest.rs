//! SHA-256 fingerprints of configuration text, in lowercase hexadecimal.

use vstd::prelude::*;
use vstd::utf8::encode_utf8;
use crate::text::{ascii_lower_seq, concat, push_char, str_eq};
use crate::diagnostics::ascii_lowercase;
use crate::preset::EngineError;
use sha2::Digest;

verus! {

/// The SHA-256 digest of `data`.
pub uninterp spec fn sha256_digest(data: Seq<u8>) -> Seq<u8>;

/// `sha2::Sha256::digest`: the 32-byte SHA-256 digest of `data`. The
/// algorithm is the crate's; its result is named, and only its length
/// (the output size of `Sha256`) is stated.
#[verifier::external_body]
fn sha256(data: &[u8]) -> (r: Vec<u8>)
    ensures
        r@ == sha256_digest(data@),
        r@.len() == 32,
{
    sha2::Sha256::digest(data).to_vec()
}

pub open spec fn hex_digit(d: nat) -> char {
    if d < 10 {
        (('0' as u32) + d) as char
    } else {
        (('a' as u32) + (d - 10)) as char
    }
}

/// Each byte as two lowercase hexadecimal digits, high nibble first.
pub open spec fn hex_of(bytes: Seq<u8>) -> Seq<char>
    decreases bytes.len(),
{
    if bytes.len() == 0 {
        seq![]
    } else {
        hex_of(bytes.drop_last()) + seq![
            hex_digit((bytes.last() / 16) as nat),
            hex_digit((bytes.last() % 16) as nat),
        ]
    }
}

pub open spec fn is_lower_hex(c: char) -> bool {
    ('0' <= c && c <= '9') || ('a' <= c && c <= 'f')
}

pub proof fn lemma_hex_of_shape(bytes: Seq<u8>)
    ensures
        hex_of(bytes).len() == 2 * bytes.len(),
        forall|i: int| 0 <= i < hex_of(bytes).len() ==> is_lower_hex(#[trigger] hex_of(bytes)[i]),
    decreases bytes.len(),
{
    if bytes.len() > 0 {
        lemma_hex_of_shape(bytes.drop_last());
        let h = hex_of(bytes.drop_last());
        let b = bytes.last();
        assert forall|i: int| 0 <= i < hex_of(bytes).len() implies is_lower_hex(#[trigger] hex_of(bytes)[i]) by {
            if i >= h.len() {
                let d: nat = if i == h.len() { (b / 16) as nat } else { (b % 16) as nat };
                assert(d < 16);
                assert(hex_of(bytes)[i] == hex_digit(d));
            } else {
                assert(hex_of(bytes)[i] == h[i]);
            }
        }
    }
}

fn hex_char(d: u8) -> (c: char)
    requires
        d < 16,
    ensures
        c == hex_digit(d as nat),
{
    if d < 10 {
        ((('0' as u8) + d) as char)
    } else {
        ((('a' as u8) + (d - 10)) as char)
    }
}

/// The bytes in lowercase hexadecimal, as `format!("{:x}", ..)` prints a
/// digest.
pub fn hex_lower(bytes: &Vec<u8>) -> (s: String)
    ensures
        s@ == hex_of(bytes@),
{
    let mut s = String::new();
    let mut k: usize = 0;
    while k < bytes.len()
        invariant
            k <= bytes@.len(),
            s@ == hex_of(bytes@.take(k as int)),
        decreases bytes.len() - k,
    {
        let b = bytes[k];
        proof {
            assert(bytes@.take(k + 1).drop_last() =~= bytes@.take(k as int));
            assert(bytes@.take(k + 1).last() == b);
        }
        push_char(&mut s, hex_char(b / 16));
        push_char(&mut s, hex_char(b % 16));
        proof {
            assert(s@ =~= hex_of(bytes@.take(k + 1)));
        }
        k += 1;
    }
    proof {
        assert(bytes@.take(bytes@.len() as int) =~= bytes@);
    }
    s
}

/// The SHA-256 digest of the UTF-8 encoding of `text`, in lowercase hex.
pub fn sha256_hex(text: &str) -> (r: String)
    ensures
        r@ == hex_of(sha256_digest(encode_utf8(text@))),
        r@.len() == 64,
        forall|i: int| 0 <= i < r@.len() ==> is_lower_hex(#[trigger] r@[i]),
{
    let digest = sha256(text.as_bytes());
    proof {
        lemma_hex_of_shape(digest@);
    }
    hex_lower(&digest)
}

/// The SHA-256 digest of `data`, in lowercase hex (`{:x}` of the digest).
pub fn sha256_hex_bytes(data: &[u8]) -> (r: String)
    ensures
        r@ == hex_of(sha256_digest(data@)),
        r@.len() == 64,
{
    let digest = sha256(data);
    proof {
        lemma_hex_of_shape(digest@);
    }
    hex_lower(&digest)
}

/// The integrity check of an engine binary: its SHA-256 in hex must equal
/// the expected digest, ignoring ASCII case.
pub fn verify_binary_digest(content: &[u8], expected_hex: &str) -> (r: Result<(), EngineError>)
    ensures
        ascii_lower_seq(hex_of(sha256_digest(content@))) == ascii_lower_seq(expected_hex@) ==> r is Ok,
        ascii_lower_seq(hex_of(sha256_digest(content@))) != ascii_lower_seq(expected_hex@) ==> (r matches Err(
            EngineError::IoError(m),
        ) && m@ == "Bütünlük İhlali: SHA-256 imzası uyuşmuyor! Beklenen: "@ + expected_hex@ + ", Bulunan: "@
            + hex_of(sha256_digest(content@))),
{
    let found = sha256_hex_bytes(content);
    let a = ascii_lowercase(found.as_str());
    let b = ascii_lowercase(expected_hex);
    if str_eq(a.as_str(), b.as_str()) {
        return Ok(());
    }
    let m = concat("Bütünlük İhlali: SHA-256 imzası uyuşmuyor! Beklenen: ", expected_hex);
    let m = concat(m.as_str(), ", Bulunan: ");
    Err(EngineError::IoError(concat(m.as_str(), found.as_str())))
}

} // verus!
