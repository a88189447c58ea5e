//! Opaque 32-byte account identifiers (mints, vaults, authorities), held as
//! four 64-bit words. The engine stores them by value and compares them by
//! equality; it never dereferences them.

use vstd::prelude::*;

verus! {

/// An opaque 32-byte identifier, stored as four 64-bit words.
#[derive(Clone, Copy, Debug, PartialEq, Eq, Structural)]
pub struct Address {
    pub w0: u64,
    pub w1: u64,
    pub w2: u64,
    pub w3: u64,
}

impl Address {
    /// The all-zero identifier, used to mark an unset slot.
    pub open spec fn spec_zero() -> Address {
        Address { w0: 0, w1: 0, w2: 0, w3: 0 }
    }

    /// Builds an identifier from its four 64-bit words.
    pub fn new(w0: u64, w1: u64, w2: u64, w3: u64) -> (r: Address)
        ensures
            r == (Address { w0, w1, w2, w3 }),
    {
        Address { w0, w1, w2, w3 }
    }
}

impl Default for Address {
    fn default() -> (r: Address)
        ensures
            r == Address::spec_zero(),
    {
        Address { w0: 0, w1: 0, w2: 0, w3: 0 }
    }
}

} // verus!
