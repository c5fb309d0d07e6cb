//! Account identities, held as their 32 raw bytes.

use vstd::prelude::*;

verus! {

/// Number of bytes in an account identity (a public key).
pub const IDENTITY_LEN: usize = 32;

/// A public-key-style address that names an account or a participant.
#[derive(Clone, Copy, Debug, PartialEq, Eq)]
pub struct Identity {
    pub bytes: [u8; 32],
}

impl Identity {
    /// The empty identity: every byte is zero.
    pub open spec fn is_null(&self) -> bool {
        forall|i: int| 0 <= i < IDENTITY_LEN ==> #[trigger] self.bytes@[i] == 0u8
    }

    /// Wraps 32 bytes as an identity.
    pub fn new(bytes: [u8; 32]) -> (r: Identity)
        ensures
            r.bytes == bytes,
    {
        Identity { bytes }
    }

    /// The empty identity, held by an auction that has no bidder yet.
    pub fn null() -> (r: Identity)
        ensures
            r.is_null(),
    {
        let bytes: [u8; 32] = [0u8; 32];
        Identity { bytes }
    }

    /// The 32 bytes of the identity.
    pub fn to_bytes(&self) -> (r: [u8; 32])
        ensures
            r == self.bytes,
    {
        self.bytes
    }
}

} // verus!
