//! Caller identities.

use vstd::prelude::*;
use vstd::slice::slice_to_vec;

verus! {

/// The identity of a caller, as an opaque byte string.
///
/// The runtime supplies it with each request. The ledger stores it as the
/// owner of a listing and later compares it for equality; it never looks
/// inside.
#[derive(Debug, Clone)]
pub struct Identity {
    bytes: Vec<u8>,
}

impl View for Identity {
    type V = Seq<u8>;

    closed spec fn view(&self) -> Seq<u8> {
        self.bytes@
    }
}

impl Identity {
    /// The identity that `bytes` spell.
    pub fn new(bytes: Vec<u8>) -> (identity: Identity)
        ensures
            identity@ == bytes@,
    {
        Identity { bytes }
    }

    /// The bytes of this identity.
    pub fn as_bytes(&self) -> (bytes: &[u8])
        ensures
            bytes@ == self@,
    {
        self.bytes.as_slice()
    }

    /// A second value for the same identity.
    pub fn duplicate(&self) -> (copy: Identity)
        ensures
            copy@ == self@,
    {
        Identity { bytes: slice_to_vec(self.bytes.as_slice()) }
    }

    /// Whether two values stand for the same identity.
    pub fn same(&self, other: &Identity) -> (equal: bool)
        ensures
            equal == (self@ == other@),
    {
        if self.bytes.len() != other.bytes.len() {
            return false;
        }
        let mut i: usize = 0;
        while i < self.bytes.len()
            invariant
                i <= self.bytes.len(),
                self.bytes.len() == other.bytes.len(),
                forall|j: int| 0 <= j < i ==> self.bytes@[j] == other.bytes@[j],
            decreases self.bytes.len() - i,
        {
            if self.bytes[i] != other.bytes[i] {
                return false;
            }
            i += 1;
        }
        assert(self.bytes@ =~= other.bytes@);
        true
    }
}

impl PartialEq for Identity {
    fn eq(&self, other: &Identity) -> (equal: bool) {
        self.same(other)
    }
}

impl Eq for Identity {}

impl vstd::std_specs::cmp::PartialEqSpecImpl for Identity {
    open spec fn obeys_eq_spec() -> bool {
        true
    }

    open spec fn eq_spec(&self, other: &Identity) -> bool {
        self@ == other@
    }
}

} // verus!
