use vstd::prelude::*;

verus! {

/// A 256-bit account address, held as two plain halves so that the engine can
/// compare addresses and recognise the all-zero sentinel without knowing
/// anything else about the host's key format.
#[derive(Clone, Copy, Debug, PartialEq, Eq, Hash, Structural)]
pub struct Address {
    pub hi: u128,
    pub lo: u128,
}

impl Address {
    /// The all-zero sentinel that marks an empty player slot.
    pub open spec fn spec_zero() -> Address {
        Address { hi: 0, lo: 0 }
    }

    /// True of the sentinel alone.
    pub open spec fn is_zero(self) -> bool {
        self == Address::spec_zero()
    }

    /// Builds the all-zero sentinel address.
    pub fn zero() -> (r: Address)
        ensures
            r == Address::spec_zero(),
    {
        Address { hi: 0, lo: 0 }
    }
}

} // verus!
