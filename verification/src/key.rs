//! Storage keys.
//!
//! A key names one persisted unit: it is used both as the backend address of a
//! snapshot and to compare entries. Its content is opaque to the Store; only
//! equality matters. Equal keys denote the same persisted object.

use vstd::prelude::*;
use crate::codec::copy_bytes;

verus! {

/// An opaque, comparable, cloneable identifier naming a persisted unit.
#[derive(Debug, PartialEq, Eq)]
pub struct Key {
    bytes: Vec<u8>,
}

impl View for Key {
    type V = Seq<u8>;

    closed spec fn view(&self) -> Seq<u8> {
        self.bytes@
    }
}

impl Key {
    /// Makes a key out of its raw bytes.
    pub fn new(bytes: Vec<u8>) -> (k: Key)
        ensures
            k@ == bytes@,
    {
        Key { bytes }
    }

    /// The key's raw bytes.
    pub fn bytes(&self) -> (b: &Vec<u8>)
        ensures
            b@ == self@,
    {
        &self.bytes
    }

    /// Whether two keys name the same persisted unit.
    pub fn same_as(&self, other: &Key) -> (r: bool)
        ensures
            r == (self@ == other@),
    {
        if self.bytes.len() != other.bytes.len() {
            proof {
                assert(self@ != other@);
            }
            return false;
        }
        let mut i: usize = 0;
        while i < self.bytes.len()
            invariant
                i <= self.bytes@.len(),
                self.bytes@.len() == other.bytes@.len(),
                forall|j: int| 0 <= j < i ==> self.bytes@[j] == other.bytes@[j],
            decreases self.bytes@.len() - i,
        {
            if self.bytes[i] != other.bytes[i] {
                return false;
            }
            i = i + 1;
        }
        proof {
            assert(self@ =~= other@);
        }
        true
    }
}

impl Clone for Key {
    fn clone(&self) -> (k: Self)
        ensures
            k@ == self@,
    {
        Key { bytes: copy_bytes(&self.bytes) }
    }
}

} // verus!
