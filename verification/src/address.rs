//! Addresses of peripherals.

use vstd::prelude::*;
use vstd::std_specs::cmp::PartialEqSpecImpl;

verus! {

/// Identifier of a physical peripheral: the six octets of its radio address.
///
/// Two addresses are the same exactly when their octets are the same. The
/// address is the uniqueness key throughout the crate.
#[derive(Clone, Copy, Debug, Eq, Hash)]
pub struct PeripheralAddress {
    pub octets: [u8; 6],
}

impl PartialEq for PeripheralAddress {
    fn eq(&self, other: &Self) -> (same: bool) {
        let same = self.octets[0] == other.octets[0] && self.octets[1] == other.octets[1]
            && self.octets[2] == other.octets[2] && self.octets[3] == other.octets[3]
            && self.octets[4] == other.octets[4] && self.octets[5] == other.octets[5];
        assert(same == (self.octets =~= other.octets));
        same
    }
}

impl PartialEqSpecImpl for PeripheralAddress {
    open spec fn obeys_eq_spec() -> bool {
        true
    }

    open spec fn eq_spec(&self, other: &Self) -> bool {
        *self == *other
    }
}

impl PeripheralAddress {
    /// An address made of the given octets.
    pub fn new(octets: [u8; 6]) -> (address: Self)
        ensures
            address.octets == octets,
    {
        PeripheralAddress { octets }
    }

    /// The six octets of the address.
    pub fn octets(&self) -> (octets: [u8; 6])
        ensures
            octets == self.octets,
    {
        self.octets
    }
}

} // verus!
