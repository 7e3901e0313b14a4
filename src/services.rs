//! The two outside services the ledger relies on: a SHA-256 digest rendered
//! as lowercase hex, and the wall clock.

use vstd::prelude::*;

verus! {

/// Lowercase hex rendering of the SHA-256 digest of the UTF-8 bytes of a text.
pub uninterp spec fn sha256_hex(content: Seq<char>) -> Seq<char>;

/// A character among `0`-`9` and `a`-`f`.
pub open spec fn is_lower_hex_char(c: char) -> bool {
    ('0' <= c && c <= '9') || ('a' <= c && c <= 'f')
}

/// The lowercase hex rendering of a 256-bit value: 64 hex characters.
pub open spec fn is_lower_hex_digest(s: Seq<char>) -> bool {
    &&& s.len() == 64
    &&& forall|i: int| 0 <= i < s.len() ==> is_lower_hex_char(#[trigger] s[i])
}

/// Relies on `sha2::Sha256::digest` (through `digest::Digest`) for the
/// 32-byte digest of the text's bytes, and on generic-array's `LowerHex`,
/// which writes two lowercase hex characters per byte; the result depends on
/// the text alone.
#[verifier::external_body]
pub(crate) fn sha256_hex_of(content: &str) -> (r: String)
    ensures
        r@ == sha256_hex(content@),
        is_lower_hex_digest(r@),
{
    format!("{:x}", <sha2::Sha256 as sha2::Digest>::digest(content.as_bytes()))
}

/// Relies on chrono's `From<SystemTime> for DateTime<Utc>` and
/// `DateTime::timestamp` for the current time in whole seconds since the Unix
/// epoch, negative when the system clock reads an earlier time. Nothing is
/// promised of the value.
#[verifier::external_body]
pub(crate) fn unix_timestamp_now() -> (r: i64) {
    chrono::DateTime::<chrono::Utc>::from(std::time::SystemTime::now()).timestamp()
}

} // verus!
