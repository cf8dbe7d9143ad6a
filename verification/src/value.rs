use vstd::prelude::*;

verus! {

/// An unsigned 256-bit quantity, as used for the value attached to a call.
/// It is held as four 64-bit limbs, least significant first.
#[derive(Clone, Copy, Debug, PartialEq, Eq, Structural)]
pub struct U256 {
    pub limb0: u64,
    pub limb1: u64,
    pub limb2: u64,
    pub limb3: u64,
}

impl U256 {
    /// The number this quantity denotes.
    pub open spec fn as_nat(self) -> nat {
        self.limb0 as nat + self.limb1 as nat * 0x1_0000_0000_0000_0000nat
            + self.limb2 as nat * 0x1_0000_0000_0000_0000_0000_0000_0000_0000nat
            + self.limb3 as nat
            * 0x1_0000_0000_0000_0000_0000_0000_0000_0000_0000_0000_0000_0000nat
    }

    /// The zero quantity.
    pub fn zero() -> (r: U256)
        ensures
            r.as_nat() == 0,
    {
        U256 { limb0: 0, limb1: 0, limb2: 0, limb3: 0 }
    }

    /// The quantity denoting a 64-bit number.
    pub fn from_u64(v: u64) -> (r: U256)
        ensures
            r.as_nat() == v,
    {
        U256 { limb0: v, limb1: 0, limb2: 0, limb3: 0 }
    }
}

} // verus!
