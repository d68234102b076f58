//! Validate a hostname according to the IETF RFC 1123 character and
//! boundary rules.
//!
//! A hostname is accepted when it is non-empty, every byte of it is an ASCII
//! letter, an ASCII digit, a hyphen or a period, and it neither starts nor
//! ends with a hyphen or a period. Length limits (253 octets overall, 63 per
//! label) and per-label rules are deliberately out of scope.

use vstd::prelude::*;

verus! {

use vstd::string::StringSliceAdditionalSpecFns;

/// A byte that may appear in a hostname: an ASCII letter, an ASCII digit,
/// a hyphen or a period.
pub open spec fn is_allowed_byte(b: u8) -> bool {
    ||| 'a' as u8 <= b <= 'z' as u8
    ||| 'A' as u8 <= b <= 'Z' as u8
    ||| '0' as u8 <= b <= '9' as u8
    ||| b == '-' as u8
    ||| b == '.' as u8
}

/// The RFC 1123 character and boundary rules over a byte sequence: the
/// sequence is non-empty, every byte of it is allowed, and neither the first
/// nor the last byte is a hyphen or a period.
pub open spec fn valid_hostname(bytes: Seq<u8>) -> bool {
    &&& bytes.len() > 0
    &&& (forall|i: int| 0 <= i < bytes.len() ==> is_allowed_byte(#[trigger] bytes[i]))
    &&& bytes[0] != '-' as u8
    &&& bytes[0] != '.' as u8
    &&& bytes[bytes.len() - 1] != '-' as u8
    &&& bytes[bytes.len() - 1] != '.' as u8
}

/// Whether `byte` belongs to the set of bytes a hostname may contain.
fn is_valid_char(byte: u8) -> (r: bool)
    ensures
        r == is_allowed_byte(byte),
{
    (byte >= 'a' as u8 && byte <= 'z' as u8)
        || (byte >= 'A' as u8 && byte <= 'Z' as u8)
        || (byte >= '0' as u8 && byte <= '9' as u8)
        || byte == '-' as u8
        || byte == '.' as u8
}

/// Validate a hostname according to IETF RFC 1123.
///
/// A hostname is valid if the following conditions are all true:
///
/// - It is not empty.
/// - It does not contain any byte outside of the ASCII alphanumeric range,
///   except for `-` and `.`; in particular every non-ASCII byte is rejected.
/// - It does not start or end with `-` or `.`.
///
/// The check runs over the UTF-8 bytes of `hostname`, never panics, and
/// returns `true` exactly when [`valid_hostname`] holds of those bytes.
pub fn is_valid(hostname: &str) -> (r: bool)
    ensures
        r == valid_hostname(hostname.spec_bytes()),
{
    let bytes = hostname.as_bytes();
    if bytes.len() == 0 {
        return false;
    }
    let mut i: usize = 0;
    while i < bytes.len()
        invariant
            bytes@ == hostname.spec_bytes(),
            0 < bytes@.len(),
            i <= bytes@.len(),
            forall|j: int| 0 <= j < i ==> is_allowed_byte(#[trigger] bytes@[j]),
        decreases bytes@.len() - i,
    {
        if !is_valid_char(bytes[i]) {
            return false;
        }
        i = i + 1;
    }
    let first = bytes[0];
    let last = bytes[bytes.len() - 1];
    first != '-' as u8 && first != '.' as u8 && last != '-' as u8 && last != '.' as u8
}

/// An empty byte sequence is never a valid hostname.
pub proof fn lemma_empty_rejection(bytes: Seq<u8>)
    requires
        bytes.len() == 0,
    ensures
        !valid_hostname(bytes),
{
}

/// A byte sequence holding any byte outside the allowed set is never a valid
/// hostname, whatever the rest of it holds.
pub proof fn lemma_charset_rejection(bytes: Seq<u8>, i: int)
    requires
        0 <= i < bytes.len(),
        !is_allowed_byte(bytes[i]),
    ensures
        !valid_hostname(bytes),
{
}

/// Prepending or appending a hyphen or a period to any byte sequence yields
/// an invalid hostname, whatever that sequence holds.
pub proof fn lemma_boundary_rejection(bytes: Seq<u8>)
    ensures
        !valid_hostname(seq!['-' as u8] + bytes),
        !valid_hostname(bytes + seq!['-' as u8]),
        !valid_hostname(seq!['.' as u8] + bytes),
        !valid_hostname(bytes + seq!['.' as u8]),
{
}

/// The verdict is a function of the byte sequence alone: any two results
/// that [`is_valid`]'s contract admits for the same bytes are equal, so
/// repeated calls on the same input always agree.
pub proof fn lemma_deterministic(bytes: Seq<u8>, r1: bool, r2: bool)
    requires
        r1 == valid_hostname(bytes),
        r2 == valid_hostname(bytes),
    ensures
        r1 == r2,
{
}

} // verus!
