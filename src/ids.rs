//! Unique identifiers carried by requests, templates, sections and people.
use vstd::prelude::*;

verus! {

/// A 128-bit unique identifier, held as its raw value.
#[derive(Clone, Copy, Debug, PartialEq, Eq, Structural, Hash)]
pub struct Uuid {
    pub value: u128,
}

impl Uuid {
    /// The identifier with the given raw 128-bit value.
    pub fn from_u128(value: u128) -> (r: Uuid)
        ensures
            r.value == value,
    {
        Uuid { value }
    }

    /// The raw 128-bit value of this identifier.
    pub fn as_u128(&self) -> (r: u128)
        ensures
            r == self.value,
    {
        self.value
    }

    /// A fresh random identifier, marked as version 4 of the RFC 4122 variant.
    pub fn new_v4() -> (r: Uuid)
        ensures
            (r.value >> 76u128) & 0xfu128 == 4,
            (r.value >> 62u128) & 0x3u128 == 2,
    {
        Uuid { value: random_v4_value() }
    }
}

/// Relies on uuid::Uuid::new_v4 and uuid::Uuid::as_u128: random bits, as a
/// big-endian 128-bit value, with the version field set to 4 and the variant
/// field to the RFC 4122 one; nothing else is promised of a random value.
#[verifier::external_body]
fn random_v4_value() -> (r: u128)
    ensures
        (r >> 76u128) & 0xfu128 == 4,
        (r >> 62u128) & 0x3u128 == 2,
{
    uuid::Uuid::new_v4().as_u128()
}

} // verus!
