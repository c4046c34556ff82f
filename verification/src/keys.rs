use vstd::prelude::*;

verus! {

/// A public key on the host ledger, held as its raw 32 bytes.
///
/// The library treats keys as opaque identifiers: it only ever stores them,
/// compares them for equality, and feeds them to the host's address
/// derivation.
#[derive(Clone, Copy, Debug)]
pub struct Pubkey32 {
    pub bytes: [u8; 32],
}

impl View for Pubkey32 {
    type V = Seq<u8>;

    open spec fn view(&self) -> Seq<u8> {
        self.bytes@
    }
}

impl Pubkey32 {
    /// Builds a key from its raw bytes.
    pub fn new(bytes: [u8; 32]) -> (r: Pubkey32)
        ensures
            r@ == bytes@,
    {
        Pubkey32 { bytes }
    }

    /// Compares two keys byte for byte.
    pub fn eq_key(&self, other: &Pubkey32) -> (r: bool)
        ensures
            r <==> self@ == other@,
    {
        let mut i: usize = 0;
        while i < 32
            invariant
                i <= 32,
                forall|k: int| 0 <= k < i ==> self.bytes@[k] == other.bytes@[k],
            decreases 32 - i,
        {
            if self.bytes[i] != other.bytes[i] {
                return false;
            }
            i += 1;
        }
        proof {
            assert(self@ =~= other@);
        }
        true
    }
}

} // verus!
