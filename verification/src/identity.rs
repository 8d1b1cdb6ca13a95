//! Opaque, equality-comparable principal values.
//!
//! An identity is a 32-byte value supplied by the host execution context (a
//! verified signer or a derived authority). The core never inspects it beyond
//! comparing it for equality.

use vstd::prelude::*;

verus! {

broadcast use vstd::array::group_array_axioms;

/// A principal: a caller, an authority, or an account address.
#[derive(Clone, Copy, Debug)]
pub struct Identity {
    bytes: [u8; 32],
}

impl Identity {
    /// The raw 32 bytes, as a mathematical sequence.
    pub closed spec fn spec_bytes(&self) -> Seq<u8> {
        self.bytes@
    }

    /// Wraps the 32 raw bytes handed over by the host context.
    pub fn from_bytes(bytes: [u8; 32]) -> (r: Identity)
        ensures
            r.spec_bytes() == bytes@,
    {
        Identity { bytes }
    }

    /// The raw 32 bytes, for handing back to the host context.
    pub fn to_bytes(&self) -> (r: [u8; 32])
        ensures
            r@ == self.spec_bytes(),
    {
        self.bytes
    }

    /// Wraps a 32-byte slice, as read from a stored record.
    pub fn from_slice(bytes: &[u8]) -> (r: Identity)
        requires
            bytes@.len() == 32,
        ensures
            r.spec_bytes() == bytes@,
    {
        let mut arr: [u8; 32] = [0u8; 32];
        let mut i: usize = 0;
        while i < 32
            invariant
                i <= 32,
                bytes@.len() == 32,
                forall|j: int| 0 <= j < i ==> arr@[j] == bytes@[j],
            decreases 32 - i,
        {
            arr[i] = *vstd::slice::slice_index_get(bytes, i);
            i += 1;
        }
        proof {
            assert(arr@ =~= bytes@);
        }
        Identity { bytes: arr }
    }

    /// An identity always consists of exactly 32 bytes.
    pub proof fn lemma_bytes_len(&self)
        ensures
            self.spec_bytes().len() == 32,
    {
    }
}

impl PartialEq for Identity {
    /// Two identities are equal exactly when their 32 bytes agree.
    fn eq(&self, other: &Identity) -> (r: bool) {
        let mut i: usize = 0;
        let mut same: bool = true;
        while i < 32
            invariant
                i <= 32,
                same == (forall|j: int| 0 <= j < i ==> self.bytes@[j] == other.bytes@[j]),
            decreases 32 - i,
        {
            if self.bytes[i] != other.bytes[i] {
                same = false;
            }
            i += 1;
        }
        proof {
            if same {
                assert(self.bytes@ =~= other.bytes@);
                assert(self.bytes == other.bytes);
            }
        }
        same
    }
}

impl Eq for Identity {

}

impl vstd::std_specs::cmp::PartialEqSpecImpl for Identity {
    open spec fn obeys_eq_spec() -> bool {
        true
    }

    open spec fn eq_spec(&self, other: &Identity) -> bool {
        *self == *other
    }
}

} // verus!
