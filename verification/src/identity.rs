//! Identities: 32-byte values naming accounts, signers and programs.

use vstd::prelude::*;

verus! {

/// A 32-byte identity: a record address, an organizer, a program, a signer.
/// Its mathematical value is the sequence of its bytes.
#[derive(Clone, Copy, Debug)]
pub struct Identity(pub [u8; 32]);

impl View for Identity {
    type V = Seq<u8>;

    open spec fn view(&self) -> Seq<u8> {
        self.0@
    }
}

impl Identity {
    /// Byte-for-byte equality of two identities.
    pub fn equals(&self, other: &Identity) -> (r: bool)
        ensures
            r == (self@ == other@),
    {
        let mut i: usize = 0;
        while i < 32
            invariant
                0 <= i <= 32,
                forall|j: int| 0 <= j < i ==> self.0@[j] == other.0@[j],
            decreases 32 - i,
        {
            if self.0[i] != other.0[i] {
                return false;
            }
            i += 1;
        }
        proof {
            assert(self@ =~= other@);
        }
        true
    }
}

} // verus!
