//! Universally unique identifiers.

use crate::base16::hex_lower;
use vstd::arithmetic::power::pow;
use vstd::prelude::*;

verus! {

/// The sixteen bytes of a 128-bit number, the most significant first.
pub open spec fn big_endian(value: u128) -> Seq<u8> {
    Seq::new(16, |i: int| ((value as int / pow(256, (15 - i) as nat)) % 256) as u8)
}

/// The text form of an identifier: its bytes in lower-case hexadecimal, in
/// groups of 8, 4, 4, 4 and 12 digits with a hyphen between two groups.
pub open spec fn hyphenated(value: u128) -> Seq<char> {
    let digits = hex_lower(big_endian(value));
    digits.subrange(0, 8) + seq!['-'] + digits.subrange(8, 12) + seq!['-'] + digits.subrange(
        12,
        16,
    ) + seq!['-'] + digits.subrange(16, 20) + seq!['-'] + digits.subrange(20, 32)
}

/// A universally unique identifier, held as its 128-bit number.
#[derive(Debug, Clone, Copy, PartialEq, Eq, Structural, PartialOrd, Ord, Hash)]
pub struct Uuid(pub u128);

impl Uuid {
    /// The identifier whose bytes, the most significant first, are those of
    /// the number.
    pub fn from_u128(value: u128) -> (r: Self)
        ensures
            r.0 == value,
    {
        Uuid(value)
    }

    /// The number of the identifier.
    pub fn as_u128(&self) -> (r: u128)
        ensures
            r == self.0,
    {
        self.0
    }

    /// The hyphenated text form, in lower case.
    pub fn to_string(&self) -> (r: String)
        ensures
            r@ == hyphenated(self.0),
    {
        uuid_to_string(self.0)
    }
}

/// `Uuid::from_u128` and `to_string` of the `uuid` crate: the identifier of
/// the number's big-endian bytes, in the hyphenated lower-case form.
#[verifier::external_body]
pub(crate) fn uuid_to_string(value: u128) -> (text: String)
    ensures
        text@ == hyphenated(value),
{
    uuid::Uuid::from_u128(value).to_string()
}

} // verus!
