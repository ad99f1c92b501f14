//! The digest by which a call is known.

use vstd::prelude::*;

verus! {

/// Width of a call hash in bytes.
pub const HASH_LEN: usize = 32;

/// The hash of a call's encoded bytes.
///
/// It is the only key shared by the registry, the preimage store and the
/// events. Two hashes are equal when all their bytes are.
#[derive(Clone, Copy, Debug, Hash)]
pub struct CallHash {
    bytes: [u8; HASH_LEN],
}

impl View for CallHash {
    type V = Seq<u8>;

    closed spec fn view(&self) -> Seq<u8> {
        self.bytes@
    }
}

impl CallHash {
    /// The hash made of the given bytes.
    pub fn from_bytes(bytes: [u8; HASH_LEN]) -> (h: CallHash)
        ensures
            h@ == bytes@,
    {
        CallHash { bytes }
    }

    /// Every hash is `HASH_LEN` bytes wide, and two hashes with the same
    /// bytes are the same hash.
    pub proof fn fixed_width(self, other: CallHash)
        ensures
            self@.len() == HASH_LEN,
            (self@ == other@) == (self == other),
    {
        if self@ == other@ {
            assert(self.bytes =~= other.bytes);
        }
    }

    /// The bytes of the hash.
    pub fn to_bytes(&self) -> (bytes: [u8; HASH_LEN])
        ensures
            bytes@ == self@,
    {
        self.bytes
    }
}

impl PartialEq for CallHash {
    /// Whether two hashes hold the same bytes.
    fn eq(&self, other: &CallHash) -> (b: bool) {
        let mut i: usize = 0;
        while i < HASH_LEN
            invariant
                i <= HASH_LEN,
                forall|j: int| 0 <= j < i ==> self.bytes[j] == other.bytes[j],
            decreases HASH_LEN - i,
        {
            if self.bytes[i] != other.bytes[i] {
                return false;
            }
            i = i + 1;
        }
        proof {
            assert(self.bytes =~= other.bytes);
        }
        true
    }
}

impl Eq for CallHash {

}

impl vstd::std_specs::cmp::PartialEqSpecImpl for CallHash {
    open spec fn obeys_eq_spec() -> bool {
        true
    }

    open spec fn eq_spec(&self, other: &CallHash) -> bool {
        *self == *other
    }
}

} // verus!
