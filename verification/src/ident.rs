//! Memo identifiers: 128-bit values, generated at random and written as a
//! hyphenated UUID.

use vstd::prelude::*;
use vstd::arithmetic::power::pow;

verus! {

/// The sixteen hexadecimal digits, lower case.
pub open spec fn hex_digits() -> Seq<char> {
    "0123456789abcdef"@
}

/// The `k`-th hexadecimal digit of `id`, counted from the most significant of
/// its 32.
pub open spec fn nibble(id: u128, k: int) -> int {
    (id as int / pow(16, (31 - k) as nat)) % 16
}

/// How many hyphens stand before position `p` of an identifier's text.
pub open spec fn hyphens_before(p: int) -> int {
    (if p > 8 { 1int } else { 0 }) + (if p > 13 { 1int } else { 0 }) + (if p > 18 { 1int } else { 0 }) + (if p > 23 { 1int } else { 0 })
}

/// An identifier as text: its 32 hexadecimal digits in lower case, most
/// significant first, in groups of 8, 4, 4, 4 and 12 with a hyphen between
/// groups.
pub open spec fn uuid_text(id: u128) -> Seq<char> {
    Seq::new(
        36,
        |p: int|
            if p == 8 || p == 13 || p == 18 || p == 23 {
                '-'
            } else {
                hex_digits()[nibble(id, p - hyphens_before(p))]
            },
    )
}

/// Writes an identifier as text.
///
/// Trusted: calls `uuid::Uuid::from_u128` and the `Display` of `uuid::Uuid`,
/// which writes the identifier's sixteen bytes, most significant first, as
/// lower-case hexadecimal in the hyphenated 8-4-4-4-12 layout.
#[verifier::external_body]
pub(crate) fn id_text(id: u128) -> (text: String)
    ensures
        text@ == uuid_text(id),
{
    uuid::Uuid::from_u128(id).to_string()
}

/// Draws a new identifier.
///
/// Trusted: calls `uuid::Uuid::new_v4` and `uuid::Uuid::as_u128`. The value
/// is random, so nothing is claimed of it.
#[verifier::external_body]
pub(crate) fn fresh_id() -> u128 {
    uuid::Uuid::new_v4().as_u128()
}

} // verus!
