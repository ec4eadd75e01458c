//! Identities of callers, creators and owners.

use vstd::prelude::*;

verus! {

/// The longest identity the host hands out, in bytes.
pub const MAX_IDENTITY_BYTES: usize = 29;

/// An opaque identity: a byte string of at most [`MAX_IDENTITY_BYTES`] bytes.
///
/// Two identities denote the same party exactly when their bytes are equal.
#[derive(Debug, PartialEq, Eq)]
pub struct Identity {
    bytes: Vec<u8>,
}

impl View for Identity {
    type V = Seq<u8>;

    closed spec fn view(&self) -> Seq<u8> {
        self.bytes@
    }
}

impl Identity {
    #[verifier::type_invariant]
    spec fn bounded(self) -> bool {
        self.bytes@.len() <= MAX_IDENTITY_BYTES
    }

    /// Makes an identity from its bytes; `None` when there are too many.
    pub fn new(bytes: Vec<u8>) -> (made: Option<Identity>)
        ensures
            made is Some <==> bytes@.len() <= MAX_IDENTITY_BYTES,
            made matches Some(identity) ==> identity@ == bytes@,
    {
        if bytes.len() <= MAX_IDENTITY_BYTES {
            Some(Identity { bytes })
        } else {
            None
        }
    }

    /// The bytes of the identity.
    pub fn as_bytes(&self) -> (bytes: &Vec<u8>)
        ensures
            bytes@ == self@,
            bytes@.len() <= MAX_IDENTITY_BYTES,
    {
        proof {
            use_type_invariant(self);
        }
        &self.bytes
    }

    /// Whether two identities denote the same party.
    pub fn same(&self, other: &Identity) -> (equal: bool)
        ensures
            equal == (self@ == other@),
    {
        if self.bytes.len() != other.bytes.len() {
            return false;
        }
        let mut at: usize = 0;
        while at < self.bytes.len()
            invariant
                at <= self.bytes@.len(),
                self.bytes@.len() == other.bytes@.len(),
                forall|k: int| 0 <= k < at ==> self.bytes@[k] == other.bytes@[k],
            decreases self.bytes@.len() - at,
        {
            if self.bytes[at] != other.bytes[at] {
                return false;
            }
            at += 1;
        }
        assert(self.bytes@ =~= other.bytes@);
        true
    }
}

impl Clone for Identity {
    fn clone(&self) -> (copy: Self)
        ensures
            copy@ == self@,
    {
        proof {
            use_type_invariant(self);
        }
        Identity { bytes: self.bytes.clone() }
    }
}

} // verus!
