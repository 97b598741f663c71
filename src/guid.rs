use crate::transport::wire::be_u128_at;
use vstd::prelude::*;

verus! {

/// A globally unique 128-bit measurement identifier, held as its big-endian value.
#[derive(Copy, Clone, Debug, Default, PartialEq, Eq, Hash, Structural)]
pub struct Guid {
    pub value: u128,
}

/// Relies on uuid's `Uuid::from_slice`, which takes exactly sixteen bytes in order, and
/// on `Uuid::as_u128`, which reads those bytes as one big-endian number.
#[verifier::external_body]
fn uuid_value_of(bytes: &[u8]) -> (r: u128)
    requires
        bytes@.len() == 16,
    ensures
        r == be_u128_at(bytes@, 0),
{
    match uuid::Uuid::from_slice(bytes) {
        Ok(u) => u.as_u128(),
        Err(_) => 0,
    }
}

impl Guid {
    /// The nil identifier, all bits zero.
    pub fn nil() -> (r: Guid)
        ensures
            r.value == 0,
    {
        Guid { value: 0 }
    }

    /// The identifier with the given big-endian value.
    pub fn from_u128(value: u128) -> (r: Guid)
        ensures
            r.value == value,
    {
        Guid { value }
    }

    /// The big-endian value of this identifier.
    pub fn as_u128(&self) -> (r: u128)
        ensures
            r == self.value,
    {
        self.value
    }

    /// Whether this is the nil identifier.
    pub fn is_nil(&self) -> (r: bool)
        ensures
            r == (self.value == 0),
    {
        self.value == 0
    }

    /// The identifier whose wire form is the given sixteen bytes.
    pub fn from_bytes(bytes: &[u8]) -> (r: Guid)
        requires
            bytes@.len() == 16,
        ensures
            r.value == be_u128_at(bytes@, 0),
    {
        Guid { value: uuid_value_of(bytes) }
    }
}

} // verus!
