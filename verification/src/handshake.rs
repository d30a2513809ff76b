//! The handshake payload: a fixed 136-byte wire encoding of
//! {identity public key, onion (key-exchange) public key, timestamp,
//! signature}, where the signature covers the first 72 bytes.

use vstd::prelude::*;
use crate::primitives::{
    ed25519_key_valid, ed25519_point_valid, ed25519_verifies, ed25519_verify,
};
use crate::wire::{
    extend_bytes, lemma_u64_be_round_trip, push_u64_be, read_u64_be, u64_be_bytes, u64_from_be,
};
use vstd::slice::{slice_subrange, slice_to_vec};

verus! {

/// Total wire size of a handshake payload.
const HANDSHAKE_PAYLOAD_SIZE: usize = 136;

/// A signed handshake: the two public keys a peer presents, a timestamp, and
/// the signature binding them together under the identity key.
#[derive(Debug, Clone)]
pub struct HandshakePayload {
    /// Ed25519 verifying key, 32 bytes.
    pub identity_key: Vec<u8>,
    /// X25519 key-exchange public key, 32 bytes.
    pub onion_key: Vec<u8>,
    /// Seconds since the epoch; freshness policy is the caller's.
    pub timestamp: u64,
    /// Ed25519 signature, 64 bytes, over the 72-byte signed message.
    pub signature: Vec<u8>,
}

/// Failures of handshake decoding and verification.
#[derive(Debug, Clone, PartialEq, Eq, Structural)]
pub enum HandshakeError {
    InvalidSize { expected: usize, got: usize },
    InvalidIdentityKey,
    InvalidOnionKey,
    InvalidSignature,
    VerificationFailed,
}

impl HandshakePayload {
    /// A payload is well formed when its fields have their fixed wire sizes.
    pub open spec fn wf(self) -> bool {
        &&& self.identity_key@.len() == 32
        &&& self.onion_key@.len() == 32
        &&& self.signature@.len() == 64
    }

    /// The 72 bytes the signature covers: identity key, onion key, timestamp.
    pub open spec fn spec_signed_message(self) -> Seq<u8> {
        self.identity_key@ + self.onion_key@ + u64_be_bytes(self.timestamp)
    }

    /// The 136 wire bytes: the signed message followed by the signature.
    pub open spec fn spec_bytes(self) -> Seq<u8> {
        self.identity_key@ + self.onion_key@ + u64_be_bytes(self.timestamp) + self.signature@
    }

    /// The validity invariant of a handshake: the identity key is a valid
    /// point encoding and the signature verifies under it over the payload's
    /// own 72-byte signed message.
    pub open spec fn spec_verifies(self) -> bool {
        &&& ed25519_point_valid(self.identity_key@)
        &&& ed25519_verifies(self.identity_key@, self.spec_signed_message(), self.signature@)
    }

    /// Serializes the payload into its 136 wire bytes.
    pub fn to_bytes(&self) -> (r: Vec<u8>)
        requires
            self.wf(),
        ensures
            r@ == self.spec_bytes(),
            r@.len() == 136,
    {
        let mut bytes: Vec<u8> = Vec::new();
        extend_bytes(&mut bytes, self.identity_key.as_slice());
        extend_bytes(&mut bytes, self.onion_key.as_slice());
        push_u64_be(&mut bytes, self.timestamp);
        extend_bytes(&mut bytes, self.signature.as_slice());
        bytes
    }

    /// Parses a payload from exactly 136 bytes. The identity key must be a
    /// valid point encoding; the onion key and signature bytes are accepted
    /// as they stand (every 32-byte string is a valid X25519 public key, and
    /// every 64-byte string is a well-formed signature encoding).
    pub fn from_bytes(bytes: &[u8]) -> (r: Result<Self, HandshakeError>)
        ensures
            bytes@.len() != 136 ==> r == Err::<HandshakePayload, HandshakeError>(
                HandshakeError::InvalidSize { expected: 136, got: bytes@.len() as usize },
            ),
            bytes@.len() == 136 && !ed25519_point_valid(bytes@.subrange(0, 32)) ==> r == Err::<
                HandshakePayload,
                HandshakeError,
            >(HandshakeError::InvalidIdentityKey),
            bytes@.len() == 136 && ed25519_point_valid(bytes@.subrange(0, 32)) ==> (r matches Ok(p)
                && p.identity_key@ == bytes@.subrange(0, 32) && p.onion_key@ == bytes@.subrange(
                32,
                64,
            ) && p.timestamp == u64_from_be(bytes@.subrange(64, 72)) && p.signature@
                == bytes@.subrange(72, 136) && p.wf()),
    {
        if bytes.len() != HANDSHAKE_PAYLOAD_SIZE {
            return Err(HandshakeError::InvalidSize { expected: 136, got: bytes.len() });
        }
        let identity_key = slice_to_vec(slice_subrange(bytes, 0, 32));
        if !ed25519_key_valid(identity_key.as_slice()) {
            return Err(HandshakeError::InvalidIdentityKey);
        }
        let onion_key = slice_to_vec(slice_subrange(bytes, 32, 64));
        let timestamp = read_u64_be(bytes, 64);
        let signature = slice_to_vec(slice_subrange(bytes, 72, 136));
        Ok(Self { identity_key, onion_key, timestamp, signature })
    }

    /// Checks the signature over the payload's own fields. Succeeds exactly
    /// when the identity key parses and the signature verifies over the
    /// 72-byte signed message; timestamp freshness is not checked here.
    pub fn verify(&self) -> (r: Result<(), HandshakeError>)
        requires
            self.wf(),
        ensures
            r is Ok <==> self.spec_verifies(),
            r is Err ==> r == Err::<(), HandshakeError>(HandshakeError::VerificationFailed),
    {
        if !ed25519_key_valid(self.identity_key.as_slice()) {
            return Err(HandshakeError::VerificationFailed);
        }
        let mut message: Vec<u8> = Vec::new();
        extend_bytes(&mut message, self.identity_key.as_slice());
        extend_bytes(&mut message, self.onion_key.as_slice());
        push_u64_be(&mut message, self.timestamp);
        proof {
            assert(message@ =~= self.spec_signed_message());
        }
        if ed25519_verify(
            self.identity_key.as_slice(),
            message.as_slice(),
            self.signature.as_slice(),
        ) {
            Ok(())
        } else {
            Err(HandshakeError::VerificationFailed)
        }
    }
}

/// Round trip: the 136 bytes a well-formed payload encodes to carry exactly
/// its fields back at the offsets `from_bytes` reads, so decoding them yields
/// the same payload whenever the identity key is a valid point encoding.
pub proof fn lemma_handshake_round_trip(p: HandshakePayload)
    requires
        p.wf(),
    ensures
        p.spec_bytes().len() == 136,
        p.spec_bytes().subrange(0, 32) == p.identity_key@,
        p.spec_bytes().subrange(32, 64) == p.onion_key@,
        u64_from_be(p.spec_bytes().subrange(64, 72)) == p.timestamp,
        p.spec_bytes().subrange(72, 136) == p.signature@,
{
    let s = p.spec_bytes();
    assert(s.subrange(0, 32) =~= p.identity_key@);
    assert(s.subrange(32, 64) =~= p.onion_key@);
    assert(s.subrange(64, 72) =~= u64_be_bytes(p.timestamp));
    assert(s.subrange(72, 136) =~= p.signature@);
    lemma_u64_be_round_trip(p.timestamp);
}

} // verus!
