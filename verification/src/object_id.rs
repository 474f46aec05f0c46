//! Git object names as plain bytes.
use vstd::prelude::*;

verus! {

/// Length in bytes of a git object name (a SHA-1 digest).
pub const OBJECT_ID_LEN: usize = 20;

/// The name of a git object: the raw bytes of its SHA-1 digest.
#[derive(Clone, Copy, Debug)]
pub struct ObjectId {
    pub bytes: [u8; 20],
}

impl View for ObjectId {
    type V = Seq<u8>;

    open spec fn view(&self) -> Seq<u8> {
        self.bytes@
    }
}

impl ObjectId {
    /// Builds an object name from its raw bytes.
    pub fn from_bytes(bytes: [u8; 20]) -> (res: ObjectId)
        ensures
            res@ == bytes@,
    {
        ObjectId { bytes }
    }

    /// Whether two names denote the same object: byte-for-byte equality.
    pub fn same_as(&self, other: &ObjectId) -> (res: bool)
        ensures
            res == (self@ == other@),
    {
        let mut i: usize = 0;
        while i < OBJECT_ID_LEN
            invariant
                i <= OBJECT_ID_LEN,
                forall|j: int| 0 <= j < i ==> self@[j] == other@[j],
            decreases OBJECT_ID_LEN - i,
        {
            if self.bytes[i] != other.bytes[i] {
                assert(self@[i as int] != other@[i as int]);
                return false;
            }
            i = i + 1;
        }
        assert(self@ =~= other@);
        true
    }
}

} // verus!
