//! Account identifiers.
//!
//! An identifier is 32 bytes. The verifier reasons about it through its view,
//! the sequence of those bytes, so two identifiers are the same account exactly
//! when their views are equal.

use vstd::prelude::*;

verus! {

/// The identifier of an account on the ledger.
#[derive(Clone, Copy, Debug, PartialEq, Eq, Hash)]
pub struct Pubkey {
    pub bytes: [u8; 32],
}

impl View for Pubkey {
    type V = Seq<u8>;

    open spec fn view(&self) -> Seq<u8> {
        self.bytes@
    }
}

impl Pubkey {
    /// Wraps 32 bytes as an identifier.
    pub fn new_from_array(bytes: [u8; 32]) -> (key: Pubkey)
        ensures
            key.bytes == bytes,
            key@ == bytes@,
    {
        Pubkey { bytes }
    }

    /// The 32 bytes of the identifier.
    pub fn to_bytes(&self) -> (bytes: [u8; 32])
        ensures
            bytes == self.bytes,
            bytes@ == self@,
    {
        self.bytes
    }

    /// Whether `self` and `other` name the same account.
    pub fn same(&self, other: &Pubkey) -> (equal: bool)
        ensures
            equal == (self@ == other@),
            equal == (*self == *other),
    {
        let mut i: usize = 0;
        while i < 32
            invariant
                i <= 32,
                forall|j: int| 0 <= j < i ==> self.bytes@[j] == other.bytes@[j],
            decreases 32 - i,
        {
            if self.bytes[i] != other.bytes[i] {
                return false;
            }
            i += 1;
        }
        proof {
            lemma_same_bytes_same_key(*self, *other);
        }
        true
    }
}

/// Identifiers with the same bytes are the same identifier.
pub proof fn lemma_same_bytes_same_key(a: Pubkey, b: Pubkey)
    requires
        forall|j: int| 0 <= j < 32 ==> a@[j] == b@[j],
    ensures
        a@ == b@,
        a == b,
{
    broadcast use vstd::array::group_array_axioms;
    assert(a.bytes@.len() == 32 && b.bytes@.len() == 32);
    assert forall|j: int| 0 <= j < 32 implies a.bytes@[j] == b.bytes@[j] by {
        assert(a@[j] == b@[j]);
    }
    assert(a.bytes@ =~= b.bytes@);
    assert(a.bytes =~= b.bytes);
}

} // verus!
