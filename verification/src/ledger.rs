//! Plain models of the on-chain quantities the policy reads and carries:
//! account addresses and 256-bit unsigned amounts (balances, nonces, gas
//! prices, block numbers).

use vstd::prelude::*;

verus! {

/// A ledger account: an opaque, externally supplied 20-byte identifier.
#[derive(Debug, Clone, Copy, PartialEq, Eq)]
pub struct Address {
    pub bytes: [u8; 20],
}

/// A 256-bit unsigned integer (a balance, nonce, gas price or block number), held as four 64-bit limbs, least
/// significant first.
#[derive(Debug, Clone, Copy, PartialEq, Eq, Structural)]
pub struct Uint256 {
    pub limb0: u64,
    pub limb1: u64,
    pub limb2: u64,
    pub limb3: u64,
}

impl Uint256 {
    /// The numeric value of the four limbs.
    pub open spec fn as_nat(self) -> nat {
        self.limb0 as nat
            + (self.limb1 as nat) * 0x1_0000_0000_0000_0000nat
            + (self.limb2 as nat) * 0x1_0000_0000_0000_0000_0000_0000_0000_0000nat
            + (self.limb3 as nat) * 0x1_0000_0000_0000_0000_0000_0000_0000_0000_0000_0000_0000_0000nat
    }

    /// The zero value.
    pub fn zero() -> (r: Uint256)
        ensures
            r.as_nat() == 0,
    {
        Uint256 { limb0: 0, limb1: 0, limb2: 0, limb3: 0 }
    }

    /// A value small enough to fit one limb.
    pub fn from_u64(v: u64) -> (r: Uint256)
        ensures
            r.as_nat() == v,
    {
        Uint256 { limb0: v, limb1: 0, limb2: 0, limb3: 0 }
    }

    /// Whether this value is zero.
    pub fn is_zero(&self) -> (r: bool)
        ensures
            r == (self.as_nat() == 0),
    {
        self.limb0 == 0 && self.limb1 == 0 && self.limb2 == 0 && self.limb3 == 0
    }
}

} // verus!
