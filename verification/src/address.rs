//! Fixed-length account identifiers.

use vstd::prelude::*;

verus! {

/// Number of bytes in an address.
pub const ADDRESS_LEN: usize = 32;

/// A 32-byte account or contract identifier.
#[derive(Clone, Copy, Debug, PartialEq, Eq, Hash)]
pub struct Address {
    pub bytes: [u8; 32],
}

impl Address {
    /// Wraps the given bytes.
    pub fn new(bytes: [u8; 32]) -> (addr: Address)
        ensures
            addr.bytes == bytes,
    {
        Address { bytes }
    }

    /// The address made of 32 zero bytes.
    pub fn zero() -> (addr: Address)
        ensures
            addr.bytes@ == Seq::new(32, |i: int| 0u8),
    {
        let addr = Address { bytes: [0u8; 32] };
        assert(addr.bytes@ =~= Seq::new(32, |i: int| 0u8));
        addr
    }

    /// Byte-wise comparison; agrees with equality of the two values.
    pub fn same_as(&self, other: &Address) -> (same: bool)
        ensures
            same == (*self == *other),
    {
        let mut i: usize = 0;
        while i < ADDRESS_LEN
            invariant
                i <= ADDRESS_LEN,
                forall|j: int| 0 <= j < i ==> self.bytes[j] == other.bytes[j],
            decreases ADDRESS_LEN - i,
        {
            if self.bytes[i] != other.bytes[i] {
                return false;
            }
            i += 1;
        }
        assert(self.bytes =~= other.bytes);
        true
    }
}

} // verus!
