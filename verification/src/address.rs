//! Account addresses.

use vstd::prelude::*;

verus! {

/// The 32-byte address of an account.
#[derive(Clone, Copy, Debug)]
pub struct Address {
    pub bytes: [u8; 32],
}

impl Address {
    /// Whether every byte is zero: the address that stands for "not set".
    pub open spec fn is_unset(self) -> bool {
        forall|i: int| 0 <= i < 32 ==> self.bytes[i] == 0u8
    }

    /// Whether two addresses hold the same bytes.
    pub open spec fn same(self, other: Address) -> bool {
        forall|i: int| 0 <= i < 32 ==> self.bytes[i] == other.bytes[i]
    }

    /// The address that stands for "not set".
    pub fn unset() -> (address: Address)
        ensures
            address.is_unset(),
    {
        Address { bytes: [0u8; 32] }
    }

    /// Tests for the all-zero address.
    pub fn is_default(&self) -> (unset: bool)
        ensures
            unset == self.is_unset(),
    {
        let mut i: usize = 0;
        while i < 32
            invariant
                0 <= i <= 32,
                forall|j: int| 0 <= j < i ==> self.bytes[j] == 0u8,
            decreases 32 - i,
        {
            if self.bytes[i] != 0 {
                return false;
            }
            i += 1;
        }
        true
    }

    /// Compares two addresses byte by byte.
    pub fn matches(&self, other: &Address) -> (equal: bool)
        ensures
            equal == self.same(*other),
    {
        let mut i: usize = 0;
        while i < 32
            invariant
                0 <= i <= 32,
                forall|j: int| 0 <= j < i ==> self.bytes[j] == other.bytes[j],
            decreases 32 - i,
        {
            if self.bytes[i] != other.bytes[i] {
                return false;
            }
            i += 1;
        }
        true
    }
}

} // verus!
