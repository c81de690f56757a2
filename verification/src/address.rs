//! The remote endpoint of a connection, as plain integers.

use vstd::prelude::*;

verus! {

/// The IP address of a peer. An IPv4 address is held as its 32 bits and an
/// IPv6 address as its 128 bits, the first octet in the most significant
/// position, so that two addresses are equal exactly when the integers are.
#[derive(Clone, Copy, Debug, PartialEq, Eq, Structural, Hash)]
pub enum Address {
    V4(u32),
    V6(u128),
}

impl Address {
    /// The number of octets of the address: 4 or 16.
    pub open spec fn width(self) -> nat {
        match self {
            Address::V4(_) => 4,
            Address::V6(_) => 16,
        }
    }

    /// The bits of the address, widened to 128 bits.
    pub open spec fn bits(self) -> u128 {
        match self {
            Address::V4(b) => b as u128,
            Address::V6(b) => b,
        }
    }

    /// The number of octets of the address.
    pub fn octet_count(&self) -> (n: usize)
        ensures
            n == self.width(),
    {
        match self {
            Address::V4(_) => 4,
            Address::V6(_) => 16,
        }
    }

    /// The bits of the address as one 128-bit integer.
    pub fn to_bits(&self) -> (b: u128)
        ensures
            b == self.bits(),
    {
        match self {
            Address::V4(b) => *b as u128,
            Address::V6(b) => *b,
        }
    }
}

} // verus!
