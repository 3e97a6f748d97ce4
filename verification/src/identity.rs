//! Agent identities.
//!
//! An identity is an externally verifiable principal — a 32-byte public
//! key — acting as the caller of an operation or as the owner of a record.
//! The ledger protocol never inspects the key material; it only compares
//! identities for equality, which is the sole access-control primitive.

use vstd::prelude::*;

verus! {

/// Number of bytes in an identity key.
pub const IDENTITY_LEN: usize = 32;

/// An externally verifiable principal: a 32-byte public key.
///
/// The surrounding signature-verification layer is responsible for proving
/// that a caller really controls this key; the ledger only ever asks
/// whether two identities are the same.
#[derive(Clone, Copy, Debug)]
pub struct Identity {
    pub bytes: [u8; 32],
}

impl View for Identity {
    type V = Seq<u8>;

    open spec fn view(&self) -> Seq<u8> {
        self.bytes@
    }
}

impl Identity {
    /// Wrap raw key bytes as an identity.
    pub fn new(bytes: [u8; 32]) -> (id: Identity)
        ensures
            id@ == bytes@,
    {
        Identity { bytes }
    }

    /// The raw key bytes.
    pub fn to_bytes(&self) -> (b: [u8; 32])
        ensures
            b@ == self@,
    {
        self.bytes
    }
}

impl PartialEq for Identity {
    /// Two identities are equal exactly when their key bytes are equal.
    fn eq(&self, other: &Identity) -> (r: bool) {
        let mut i: usize = 0;
        while i < 32
            invariant
                i <= 32,
                forall|j: int| 0 <= j < i ==> self.bytes@[j] == other.bytes@[j],
            decreases 32 - i,
        {
            if self.bytes[i] != other.bytes[i] {
                return false;
            }
            i += 1;
        }
        proof {
            assert(self@ =~= other@);
        }
        true
    }
}

impl vstd::std_specs::cmp::PartialEqSpecImpl for Identity {
    open spec fn obeys_eq_spec() -> bool {
        true
    }

    open spec fn eq_spec(&self, other: &Identity) -> bool {
        self@ == other@
    }
}

} // verus!
