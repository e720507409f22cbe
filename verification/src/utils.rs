//! Task identifiers: how one is made and how it is written.
//!
//! An identifier is a 128-bit number. It is written as text the way the
//! `uuid` crate writes it, and a new one is drawn by that crate.

use vstd::prelude::*;

verus! {

/// The hexadecimal digit, in lower case, that stands for a value from 0 to 15.
pub open spec fn hex_digit(value: int) -> char {
    seq!['0', '1', '2', '3', '4', '5', '6', '7', '8', '9', 'a', 'b', 'c', 'd', 'e', 'f'][value]
}

/// The value of one hexadecimal digit of `id`; `place` counts from the
/// most significant digit, which is place 0, to the least, place 31.
pub open spec fn digit_at(id: u128, place: int) -> int {
    ((id >> ((4 * (31 - place)) as u128)) & 0xf) as int
}

/// The digits of `id` from place `from` up to, not including, place `to`.
pub open spec fn digits(id: u128, from: int, to: int) -> Seq<char> {
    Seq::new((to - from) as nat, |k: int| hex_digit(digit_at(id, from + k)))
}

/// The written form of an identifier: its thirty-two hexadecimal digits in
/// lower case, most significant first, in groups of 8, 4, 4, 4 and 12 that
/// hyphens separate.
pub open spec fn id_text(id: u128) -> Seq<char> {
    digits(id, 0, 8) + seq!['-'] + digits(id, 8, 12) + seq!['-'] + digits(id, 12, 16)
        + seq!['-'] + digits(id, 16, 20) + seq!['-'] + digits(id, 20, 32)
}

/// Whether `id` carries the marks of a randomly drawn identifier: version 4
/// in its thirteenth digit and the binary digits `10` on top of its
/// seventeenth.
pub open spec fn is_random_id(id: u128) -> bool {
    &&& (id >> 76) & 0xf == 4
    &&& (id >> 62) & 0x3 == 2
}

/// A randomly drawn identifier is never the zero identifier.
pub proof fn lemma_random_id_is_not_zero(id: u128)
    requires
        is_random_id(id),
    ensures
        id != 0,
{
    assert((id >> 76) & 0xf == 4 ==> id != 0) by (bit_vector);
}

/// Draws a new identifier with `uuid::Uuid::new_v4` and hands it out as the
/// number that `uuid::Uuid::as_u128` gives.
///
/// Trusted: `new_v4` fills the 128 bits from the system's random source and
/// then fixes the version to 4 and the variant to `10`; nothing else is
/// claimed of the outcome. It panics where the system has no random bytes to
/// give.
#[verifier::external_body]
pub(crate) fn generate_uuid() -> (id: u128)
    ensures
        is_random_id(id),
{
    uuid::Uuid::new_v4().as_u128()
}

/// Writes an identifier with `uuid::Uuid::from_u128` and the `to_string` of
/// `uuid::Uuid`.
///
/// Trusted: the text that `uuid` gives is the hyphenated lower-case form,
/// which `id_text` spells out.
#[verifier::external_body]
pub(crate) fn uuid_to_string(id: u128) -> (text: String)
    ensures
        text@ == id_text(id),
{
    uuid::Uuid::from_u128(id).to_string()
}

} // verus!
