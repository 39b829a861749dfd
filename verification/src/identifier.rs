//! Identifiers of platform entities: 32 opaque bytes.

use vstd::prelude::*;

verus! {

/// The identifier of an identity or of a data contract.
#[derive(Clone, Copy, Debug, PartialEq, Eq)]
pub struct Identifier {
    pub bytes: [u8; 32],
}

impl Identifier {
    /// Wraps 32 bytes.
    pub fn new(bytes: [u8; 32]) -> (id: Identifier)
        ensures
            id.bytes == bytes,
    {
        Identifier { bytes }
    }

    /// Whether two identifiers hold the same bytes.
    pub fn same_as(&self, other: &Identifier) -> (same: bool)
        ensures
            same == (*self == *other),
    {
        let mut i: usize = 0;
        while i < 32
            invariant
                i <= 32,
                forall|j: int| 0 <= j < i ==> self.bytes@[j] == other.bytes@[j],
            decreases 32 - i,
        {
            if self.bytes[i] != other.bytes[i] {
                return false;
            }
            i += 1;
        }
        assert(self.bytes@ =~= other.bytes@);
        assert(self.bytes == other.bytes);
        true
    }
}

} // verus!
