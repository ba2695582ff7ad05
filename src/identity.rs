//! Entity identities and their text form.

use vstd::prelude::*;

verus! {

/// The character of a hexadecimal digit, lower case.
pub open spec fn hex_char(d: u128) -> char {
    seq!['0', '1', '2', '3', '4', '5', '6', '7', '8', '9', 'a', 'b', 'c', 'd', 'e', 'f'][d as int]
}

/// The `k`-th of the 32 hexadecimal digits of `u`, the most significant first.
pub open spec fn nibble(u: u128, k: int) -> u128 {
    (u >> ((31 - k) * 4) as u128) & 15
}

/// The hyphenated text of an identity: its 32 hexadecimal digits in lower
/// case, in groups of 8, 4, 4, 4 and 12 parted by hyphens.
pub open spec fn hyphenated(u: u128) -> Seq<char> {
    Seq::new(
        36,
        |p: int|
            if p == 8 || p == 13 || p == 18 || p == 23 {
                '-'
            } else {
                hex_char(
                    nibble(
                        u,
                        p - (if p > 8 { 1int } else { 0 }) - (if p > 13 { 1int } else { 0 }) - (if p
                            > 18 { 1int } else { 0 }) - (if p > 23 { 1int } else { 0 }),
                    ),
                )
            },
    )
}

/// Relies on uuid's `Uuid::from_u128`, which takes the value's bytes
/// big-endian, and on its `Display`, which writes the hyphenated lower-case
/// form.
#[verifier::external_body]
pub(crate) fn uuid_text(u: u128) -> (r: String)
    ensures
        r@ == hyphenated(u),
{
    uuid::Uuid::from_u128(u).to_string()
}

} // verus!
