//! The text form of deck and card ids.
use vstd::prelude::*;
use vstd::arithmetic::power::pow;

verus! {

/// The lower-case hexadecimal digit of a value below 16.
pub open spec fn hex_char(d: nat) -> char {
    if d < 10 {
        (('0' as nat) + d) as char
    } else {
        (('a' as nat) + d - 10) as char
    }
}

/// The `k`-th hexadecimal digit of a 128-bit id, the most significant first.
pub open spec fn nibble(id: u128, k: nat) -> nat {
    ((id as nat) / (pow(16, (31 - k) as nat) as nat)) % 16
}

/// The hexadecimal digits `from` up to `to` of an id.
pub open spec fn hex_run(id: u128, from: nat, to: nat) -> Seq<char> {
    Seq::new((to - from) as nat, |i: int| hex_char(nibble(id, (from + i) as nat)))
}

/// The hyphenated lower-case text of an id: its 32 hexadecimal digits in
/// groups of 8, 4, 4, 4 and 12.
pub open spec fn uuid_text(id: u128) -> Seq<char> {
    hex_run(id, 0, 8) + seq!['-'] + hex_run(id, 8, 12) + seq!['-'] + hex_run(id, 12, 16) + seq!['-']
        + hex_run(id, 16, 20) + seq!['-'] + hex_run(id, 20, 32)
}

/// The text of an id as `uuid::Uuid::from_u128(id).to_string()` writes it.
/// Claimed: the hyphenated lower-case form, as the crate's `Display` impl
/// (lower-case hex of the big-endian bytes, hyphens after the 8th, 12th,
/// 16th and 20th digit) produces it.
#[verifier::external_body]
pub(crate) fn id_to_text(id: u128) -> (s: String)
    ensures
        s@ == uuid_text(id),
{
    uuid::Uuid::from_u128(id).to_string()
}

/// A fresh random id (`uuid::Uuid::new_v4`, taken as its 128-bit value).
/// Claimed: its version digit, the 13th hexadecimal digit, is 4, as the
/// crate sets it; the other digits come from the system's random source and
/// are left unstated.
#[verifier::external_body]
pub(crate) fn random_id() -> (id: u128)
    ensures
        nibble(id, 12) == 4,
{
    uuid::Uuid::new_v4().as_u128()
}

} // verus!
