//! A node's long-term identity: an Ed25519 signing secret and an X25519
//! key-exchange secret, both held as raw 32-byte values.

use vstd::prelude::*;
use crate::handshake::HandshakePayload;
use crate::primitives::{
    ed25519_public_key, ed25519_sign, ed_pub_of, ed_sign_of, os_random_bytes, x25519_public_key,
    x_pub_of,
};
use crate::wire::{extend_bytes, push_u64_be};

verus! {

/// One node's keypairs. The public halves are derived on demand; only the
/// secrets are stored.
pub struct NodeIdentity {
    /// Ed25519 signing key, 32 secret bytes.
    pub identity_secret: Vec<u8>,
    /// X25519 key-exchange key, 32 secret bytes.
    pub onion_secret: Vec<u8>,
}

impl NodeIdentity {
    /// An identity is well formed when both secrets are 32 bytes.
    pub open spec fn wf(self) -> bool {
        &&& self.identity_secret@.len() == 32
        &&& self.onion_secret@.len() == 32
    }

    /// Generates a fresh identity from the operating system's randomness.
    pub fn generate() -> (r: Self)
        ensures
            r.wf(),
    {
        let identity_secret = os_random_bytes(32);
        let onion_secret = os_random_bytes(32);
        Self { identity_secret, onion_secret }
    }

    /// Builds the 72-byte message {identity public key, onion public key,
    /// timestamp}, signs it with the identity key, and returns the payload.
    /// The result is well formed and verifies under its own identity key:
    /// signing then verifying always succeeds.
    pub fn sign_handshake(&self, timestamp: u64) -> (p: HandshakePayload)
        requires
            self.wf(),
        ensures
            p.identity_key@ == ed_pub_of(self.identity_secret@),
            p.onion_key@ == x_pub_of(self.onion_secret@),
            p.timestamp == timestamp,
            p.signature@ == ed_sign_of(self.identity_secret@, p.spec_signed_message()),
            p.wf(),
            p.spec_verifies(),
    {
        let identity_key = ed25519_public_key(self.identity_secret.as_slice());
        let onion_key = x25519_public_key(self.onion_secret.as_slice());

        let mut message: Vec<u8> = Vec::new();
        extend_bytes(&mut message, identity_key.as_slice());
        extend_bytes(&mut message, onion_key.as_slice());
        push_u64_be(&mut message, timestamp);

        let signature = ed25519_sign(self.identity_secret.as_slice(), message.as_slice());
        let p = HandshakePayload { identity_key, onion_key, timestamp, signature };
        proof {
            assert(message@ =~= p.spec_signed_message());
        }
        p
    }
}

} // verus!
