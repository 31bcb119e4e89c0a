//! Account identities as the contracts see them: an opaque byte string
//! (the host's textual account key), compared byte for byte.

use vstd::prelude::*;

verus! {

/// An account or contract identity.
pub struct Address {
    pub bytes: Vec<u8>,
}

impl View for Address {
    type V = Seq<u8>;

    open spec fn view(&self) -> Seq<u8> {
        self.bytes@
    }
}

impl Address {
    /// Wraps the identity's bytes.
    pub fn new(bytes: Vec<u8>) -> (a: Address)
        ensures
            a@ == bytes@,
    {
        Address { bytes }
    }

    /// Whether two identities are the same account.
    pub fn same(&self, other: &Address) -> (r: bool)
        ensures
            r == (self@ == other@),
    {
        let n = self.bytes.len();
        if n != other.bytes.len() {
            return false;
        }
        let mut i: usize = 0;
        while i < n
            invariant
                n == self.bytes@.len(),
                n == other.bytes@.len(),
                i <= n,
                forall|j: int| 0 <= j < i ==> self.bytes@[j] == other.bytes@[j],
            decreases n - i,
        {
            if self.bytes[i] != other.bytes[i] {
                return false;
            }
            i += 1;
        }
        assert(self@ =~= other@);
        true
    }
}

impl Clone for Address {
    fn clone(&self) -> (a: Self)
        ensures
            a@ == self@,
    {
        let n = self.bytes.len();
        let mut bytes: Vec<u8> = Vec::new();
        let mut i: usize = 0;
        while i < n
            invariant
                n == self.bytes@.len(),
                i <= n,
                bytes@ =~= self.bytes@.take(i as int),
            decreases n - i,
        {
            bytes.push(self.bytes[i]);
            i += 1;
        }
        assert(self.bytes@.take(n as int) =~= self.bytes@);
        Address { bytes }
    }
}

} // verus!
