use vstd::prelude::*;

verus! {

/// A 160-bit account identity, held as its top 32 bits and its low 128 bits.
#[derive(Clone, Copy, Debug, PartialEq, Eq, Structural)]
pub struct Address {
    pub high: u32,
    pub low: u128,
}

impl Address {
    /// The all-zero identity, which marks "nobody".
    pub open spec fn zero_spec() -> Address {
        Address { high: 0, low: 0 }
    }

    pub open spec fn is_zero_spec(&self) -> bool {
        *self == Self::zero_spec()
    }

    /// The all-zero identity.
    #[verifier::when_used_as_spec(zero_spec)]
    pub fn zero() -> (r: Address)
        ensures
            r == Self::zero_spec(),
    {
        Address { high: 0, low: 0 }
    }

    #[verifier::when_used_as_spec(is_zero_spec)]
    pub fn is_zero(&self) -> (r: bool)
        ensures
            r == self.is_zero_spec(),
    {
        self.high == 0 && self.low == 0
    }
}

} // verus!
