use vstd::prelude::*;

verus! {

/// A 32-byte account address, held as two big-endian 128-bit halves.
///
/// `hi` holds bytes 0..16 and `lo` bytes 16..32 of the address.
#[derive(Clone, Copy, Debug, PartialEq, Eq, Structural, Hash)]
pub struct Pubkey {
    pub hi: u128,
    pub lo: u128,
}

impl Pubkey {
    /// The all-zero address, which marks an account field that was never set.
    pub open spec fn zero() -> Pubkey {
        Pubkey { hi: 0, lo: 0 }
    }

    /// Builds an address from its two halves.
    pub fn new(hi: u128, lo: u128) -> (k: Pubkey)
        ensures
            k.hi == hi,
            k.lo == lo,
    {
        Pubkey { hi, lo }
    }
}

impl Default for Pubkey {
    fn default() -> (k: Pubkey)
        ensures
            k == Pubkey::zero(),
    {
        Pubkey { hi: 0, lo: 0 }
    }
}

} // verus!
