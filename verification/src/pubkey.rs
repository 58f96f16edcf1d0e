use vstd::prelude::*;

verus! {

/// A 32-byte account address, held as its little-endian low and high halves.
#[derive(PartialEq, Eq, Structural, Clone, Copy, Debug)]
pub struct Pubkey {
    pub lo: u128,
    pub hi: u128,
}

impl Pubkey {
    /// The all-zero address (the "default" key).
    pub open spec fn is_default(self) -> bool {
        self.lo == 0 && self.hi == 0
    }

    /// The all-zero address.
    pub open spec fn zero() -> Pubkey {
        Pubkey { lo: 0, hi: 0 }
    }
}

impl Default for Pubkey {
    fn default() -> (r: Pubkey)
        ensures
            r == Pubkey::zero(),
    {
        Pubkey { lo: 0, hi: 0 }
    }
}

} // verus!
