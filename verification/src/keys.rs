use vstd::prelude::*;

verus! {

/// A 32-byte account address, modelled as four 64-bit words.
/// The registry only ever compares addresses for equality; it never
/// interprets their contents.
#[derive(Clone, Copy, Debug, PartialEq, Eq, Structural)]
pub struct Pubkey {
    pub w0: u64,
    pub w1: u64,
    pub w2: u64,
    pub w3: u64,
}

impl Pubkey {
    /// The all-zero address, used as the "no delegate" marker.
    pub fn zero() -> (k: Pubkey)
        ensures
            k == (Pubkey { w0: 0, w1: 0, w2: 0, w3: 0 }),
    {
        Pubkey { w0: 0, w1: 0, w2: 0, w3: 0 }
    }
}

} // verus!
