use vstd::prelude::*;

verus! {

/// A 32-byte account identity, stored as four 64-bit words.
///
/// The hosting chain identifies accounts, mints and signers by 32-byte
/// public keys; the only operations this program performs on them are
/// copying and equality (the owner gate compares a signer against the
/// stored owner key).
#[derive(Clone, Copy, PartialEq, Eq, Structural, Debug)]
pub struct Pubkey {
    pub w0: u64,
    pub w1: u64,
    pub w2: u64,
    pub w3: u64,
}

impl Pubkey {
    pub fn new(w0: u64, w1: u64, w2: u64, w3: u64) -> (r: Pubkey)
        ensures
            r == (Pubkey { w0, w1, w2, w3 }),
    {
        Pubkey { w0, w1, w2, w3 }
    }
}

} // verus!
