//! Session-key derivation and single-layer authenticated encryption: the
//! per-hop primitive for onion-style wrapping. A sealed layer is
//! [12-byte nonce][ciphertext with 16-byte tag].

use vstd::prelude::*;
use crate::primitives::{
    aead_decrypt, aead_encrypt, aead_open, dh_shared_of, hkdf32_of, hkdf_sha256_expand32,
    os_random_bytes, x25519_diffie_hellman, x_pub_of,
};
use crate::wire::extend_bytes;
use vstd::slice::slice_subrange;

verus! {

/// Bytes of nonce that prefix every sealed layer.
const NONCE_SIZE: usize = 12;

/// Failures of sealing and opening a layer.
#[derive(Debug, Clone, PartialEq, Eq, Structural)]
pub enum CryptoError {
    EncryptionError,
    DecryptionError,
    InvalidLength,
}

/// The session key two peers derive: HKDF-SHA-256 of the X25519 shared
/// secret, no salt, no info, 32 bytes.
pub open spec fn spec_session_key(secret: Seq<u8>, peer_public: Seq<u8>) -> Seq<u8> {
    hkdf32_of(dh_shared_of(secret, peer_public))
}

/// What opening a sealed layer yields: too short an input is rejected,
/// otherwise the first 12 bytes are the nonce and the rest is AEAD-decrypted.
pub open spec fn spec_open_layer(key: Seq<u8>, sealed: Seq<u8>) -> Result<Seq<u8>, CryptoError> {
    if sealed.len() < 12 {
        Err(CryptoError::InvalidLength)
    } else {
        match aead_open(key, sealed.subrange(0, 12), sealed.subrange(12, sealed.len() as int)) {
            Some(p) => Ok(p),
            None => Err(CryptoError::DecryptionError),
        }
    }
}

/// Derives the symmetric session key for (local exchange secret, peer
/// exchange public key). The last clause is session-key symmetry: whenever
/// the peer's key is the public key of some secret, the peer derives the
/// same key from its secret and this side's public key, so complementary
/// keypairs agree without further negotiation.
pub fn create_session_key(my_private_key: &[u8], other_public_key: &[u8]) -> (r: Vec<u8>)
    requires
        my_private_key@.len() == 32,
        other_public_key@.len() == 32,
    ensures
        r@ == spec_session_key(my_private_key@, other_public_key@),
        r@.len() == 32,
        forall|b: Seq<u8>|
            b.len() == 32 && other_public_key@ == #[trigger] x_pub_of(b) ==> r@
                == spec_session_key(b, x_pub_of(my_private_key@)),
{
    let shared_secret = x25519_diffie_hellman(my_private_key, other_public_key);
    hkdf_sha256_expand32(shared_secret.as_slice())
}

/// Seals one layer: a fresh random 12-byte nonce, then AEAD over the
/// plaintext with empty associated data. On success the result is
/// nonce-prefixed, 28 bytes longer than the plaintext, and opens back to the
/// plaintext under the same key. Success is owed for every plaintext below
/// the cipher's length cap of (2^32 - 1) 64-byte blocks.
pub fn encrypt_layer(session_key: &[u8], plaintext: &[u8]) -> (r: Result<Vec<u8>, CryptoError>)
    requires
        session_key@.len() == 32,
    ensures
        match r {
            Ok(c) => c@.len() == plaintext@.len() + 28 && spec_open_layer(session_key@, c@)
                == Ok::<Seq<u8>, CryptoError>(plaintext@),
            Err(e) => e == CryptoError::EncryptionError,
        },
        plaintext@.len() < 274877906880 ==> r is Ok,
{
    let nonce = os_random_bytes(NONCE_SIZE);
    let ciphertext = match aead_encrypt(session_key, nonce.as_slice(), plaintext) {
        Some(c) => c,
        None => {
            return Err(CryptoError::EncryptionError);
        },
    };
    let mut output: Vec<u8> = Vec::new();
    extend_bytes(&mut output, nonce.as_slice());
    extend_bytes(&mut output, ciphertext.as_slice());
    proof {
        assert(output@.subrange(0, 12) =~= nonce@);
        assert(output@.subrange(12, output@.len() as int) =~= ciphertext@);
    }
    Ok(output)
}

/// Opens one layer: rejects inputs shorter than the nonce, splits nonce and
/// ciphertext, and AEAD-decrypts. Authentication failure covers both
/// tampering and a wrong key, indistinguishably.
pub fn try_decrypt_layer(session_key: &[u8], encrypted_packet: &[u8]) -> (r: Result<
    Vec<u8>,
    CryptoError,
>)
    requires
        session_key@.len() == 32,
    ensures
        match r {
            Ok(p) => spec_open_layer(session_key@, encrypted_packet@) == Ok::<
                Seq<u8>,
                CryptoError,
            >(p@),
            Err(e) => spec_open_layer(session_key@, encrypted_packet@) == Err::<
                Seq<u8>,
                CryptoError,
            >(e),
        },
{
    if encrypted_packet.len() < NONCE_SIZE {
        return Err(CryptoError::InvalidLength);
    }
    let nonce = slice_subrange(encrypted_packet, 0, NONCE_SIZE);
    let ciphertext = slice_subrange(encrypted_packet, NONCE_SIZE, encrypted_packet.len());
    match aead_decrypt(session_key, nonce, ciphertext) {
        Some(p) => Ok(p),
        None => Err(CryptoError::DecryptionError),
    }
}

/// Seal/open round trip: a sealed layer whose ciphertext authenticates back
/// to `m` under `key` opens to exactly `m`. Every successful output of
/// `encrypt_layer` satisfies the premise for the plaintext it sealed, so one
/// `open` inverts one `seal` under the same key.
pub proof fn lemma_open_inverts_seal(key: Seq<u8>, sealed: Seq<u8>, m: Seq<u8>)
    requires
        sealed.len() >= 12,
        aead_open(key, sealed.subrange(0, 12), sealed.subrange(12, sealed.len() as int)) == Some(
            m,
        ),
    ensures
        spec_open_layer(key, sealed) == Ok::<Seq<u8>, CryptoError>(m),
{
}

} // verus!
