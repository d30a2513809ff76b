//! Trusted bindings to the cryptographic and checksum routines of outside
//! crates. Each executable function here is believed, not verified: its
//! contract states what the outside crate's source shows, mostly by naming
//! the result with an uninterpreted spec function.

use vstd::prelude::*;
use chacha20poly1305::aead::{Aead, KeyInit};
use ed25519_dalek::{Signer, Verifier};
use rand::RngCore;

verus! {

/// CRC-32 checksum of a byte sequence, as `crc32fast` computes it.
pub uninterp spec fn crc32_of(data: Seq<u8>) -> u32;

/// Relies on crc32fast::Hasher (new, update, finalize): the checksum depends
/// on the hashed bytes alone.
#[verifier::external_body]
pub(crate) fn crc32(data: &[u8]) -> (r: u32)
    ensures
        r == crc32_of(data@),
{
    let mut hasher = crc32fast::Hasher::new();
    hasher.update(data);
    hasher.finalize()
}

/// Whether 32 bytes are a valid Ed25519 verifying-key encoding.
pub uninterp spec fn ed25519_point_valid(vk: Seq<u8>) -> bool;

/// Relies on ed25519_dalek::VerifyingKey::from_bytes: whether the bytes
/// decompress to a curve point depends on the bytes alone.
#[verifier::external_body]
pub(crate) fn ed25519_key_valid(vk: &[u8]) -> (r: bool)
    requires
        vk@.len() == 32,
    ensures
        r == ed25519_point_valid(vk@),
{
    let mut kb = [0u8; 32];
    kb.copy_from_slice(vk);
    ed25519_dalek::VerifyingKey::from_bytes(&kb).is_ok()
}

/// The Ed25519 verification verdict for (verifying key, message, signature).
pub uninterp spec fn ed25519_verifies(vk: Seq<u8>, msg: Seq<u8>, sig: Seq<u8>) -> bool;

/// Relies on ed25519_dalek::VerifyingKey::verify: the verdict depends on the
/// key, message and signature bytes alone.
#[verifier::external_body]
pub(crate) fn ed25519_verify(vk: &[u8], msg: &[u8], sig: &[u8]) -> (r: bool)
    requires
        vk@.len() == 32,
        ed25519_point_valid(vk@),
        sig@.len() == 64,
    ensures
        r == ed25519_verifies(vk@, msg@, sig@),
{
    let mut kb = [0u8; 32];
    kb.copy_from_slice(vk);
    let mut sb = [0u8; 64];
    sb.copy_from_slice(sig);
    match ed25519_dalek::VerifyingKey::from_bytes(&kb) {
        Ok(key) => {
            let signature = ed25519_dalek::Signature::from_bytes(&sb);
            key.verify(msg, &signature).is_ok()
        },
        Err(_) => false,
    }
}

/// The Ed25519 verifying key derived from 32 signing-key bytes.
pub uninterp spec fn ed_pub_of(secret: Seq<u8>) -> Seq<u8>;

/// Relies on ed25519_dalek::SigningKey::{from_bytes, verifying_key}: the
/// public key is a function of the secret bytes alone, is 32 bytes, and is
/// the compression of a curve point, so it decompresses again.
#[verifier::external_body]
pub(crate) fn ed25519_public_key(secret: &[u8]) -> (r: Vec<u8>)
    requires
        secret@.len() == 32,
    ensures
        r@ == ed_pub_of(secret@),
        r@.len() == 32,
        ed25519_point_valid(r@),
{
    let mut sb = [0u8; 32];
    sb.copy_from_slice(secret);
    ed25519_dalek::SigningKey::from_bytes(&sb).verifying_key().to_bytes().to_vec()
}

/// The Ed25519 signature over `msg` under 32 signing-key bytes (Ed25519
/// signing is deterministic).
pub uninterp spec fn ed_sign_of(secret: Seq<u8>, msg: Seq<u8>) -> Seq<u8>;

/// Relies on ed25519_dalek::SigningKey::sign: deterministic, 64 bytes, and
/// the signature verifies under the key's own verifying key.
#[verifier::external_body]
pub(crate) fn ed25519_sign(secret: &[u8], msg: &[u8]) -> (r: Vec<u8>)
    requires
        secret@.len() == 32,
    ensures
        r@ == ed_sign_of(secret@, msg@),
        r@.len() == 64,
        ed25519_verifies(ed_pub_of(secret@), msg@, r@),
{
    let mut sb = [0u8; 32];
    sb.copy_from_slice(secret);
    let key = ed25519_dalek::SigningKey::from_bytes(&sb);
    key.sign(msg).to_bytes().to_vec()
}

/// The X25519 public key of 32 secret bytes.
pub uninterp spec fn x_pub_of(secret: Seq<u8>) -> Seq<u8>;

/// Relies on x25519_dalek::PublicKey::from(&StaticSecret): clamped base-point
/// multiplication, a function of the secret bytes alone, 32 bytes.
#[verifier::external_body]
pub(crate) fn x25519_public_key(secret: &[u8]) -> (r: Vec<u8>)
    requires
        secret@.len() == 32,
    ensures
        r@ == x_pub_of(secret@),
        r@.len() == 32,
{
    let mut sb = [0u8; 32];
    sb.copy_from_slice(secret);
    let s = x25519_dalek::StaticSecret::from(sb);
    x25519_dalek::PublicKey::from(&s).to_bytes().to_vec()
}

/// The X25519 shared secret of a local secret and a peer public key.
pub uninterp spec fn dh_shared_of(secret: Seq<u8>, peer_public: Seq<u8>) -> Seq<u8>;

/// Relies on x25519_dalek::StaticSecret::diffie_hellman: clamped scalar
/// multiplication of the peer's point, a function of the two inputs alone,
/// 32 bytes. The last clause is X25519 key agreement, the function's
/// documented purpose: when the peer key is the public key of some secret,
/// both sides compute the same shared secret.
#[verifier::external_body]
pub(crate) fn x25519_diffie_hellman(secret: &[u8], peer_public: &[u8]) -> (r: Vec<u8>)
    requires
        secret@.len() == 32,
        peer_public@.len() == 32,
    ensures
        r@ == dh_shared_of(secret@, peer_public@),
        r@.len() == 32,
        forall|b: Seq<u8>|
            b.len() == 32 && peer_public@ == #[trigger] x_pub_of(b) ==> r@ == dh_shared_of(
                b,
                x_pub_of(secret@),
            ),
{
    let mut sb = [0u8; 32];
    sb.copy_from_slice(secret);
    let mut pb = [0u8; 32];
    pb.copy_from_slice(peer_public);
    let s = x25519_dalek::StaticSecret::from(sb);
    let p = x25519_dalek::PublicKey::from(pb);
    s.diffie_hellman(&p).to_bytes().to_vec()
}

/// The 32-byte HKDF-SHA-256 expansion of input keying material, with no salt
/// (an all-zero salt of the hash length) and empty info.
pub uninterp spec fn hkdf32_of(ikm: Seq<u8>) -> Seq<u8>;

/// Relies on hkdf::Hkdf::<Sha256>::{new, expand}: deterministic in the input
/// keying material; a 32-byte output (one hash length) never fails.
#[verifier::external_body]
pub(crate) fn hkdf_sha256_expand32(ikm: &[u8]) -> (r: Vec<u8>)
    ensures
        r@ == hkdf32_of(ikm@),
        r@.len() == 32,
{
    let hk = hkdf::Hkdf::<sha2::Sha256>::new(None, ikm);
    let mut okm = [0u8; 32];
    hk.expand(&[], &mut okm).expect("32 bytes is a valid HKDF-SHA-256 output length");
    okm.to_vec()
}

/// What ChaCha20-Poly1305 decryption yields for (key, nonce, ciphertext):
/// the plaintext, or nothing when the tag does not authenticate.
pub uninterp spec fn aead_open(key: Seq<u8>, nonce: Seq<u8>, ciphertext: Seq<u8>) -> Option<
    Seq<u8>,
>;

/// Relies on chacha20poly1305::ChaCha20Poly1305::encrypt (with empty
/// associated data): on success the ciphertext is the plaintext plus the
/// 16-byte tag, and decrypting it under the same key and nonce yields the
/// plaintext back. Its only failure is the cipher's length cap, so it
/// succeeds on every plaintext shorter than (2^32 - 1) 64-byte blocks.
#[verifier::external_body]
pub(crate) fn aead_encrypt(key: &[u8], nonce: &[u8], plaintext: &[u8]) -> (r: Option<Vec<u8>>)
    requires
        key@.len() == 32,
        nonce@.len() == 12,
    ensures
        match r {
            Some(c) => c@.len() == plaintext@.len() + 16 && aead_open(key@, nonce@, c@) == Some(
                plaintext@,
            ),
            None => true,
        },
        plaintext@.len() < 274877906880 ==> r is Some,
{
    let cipher = chacha20poly1305::ChaCha20Poly1305::new(chacha20poly1305::Key::from_slice(key));
    match cipher.encrypt(chacha20poly1305::Nonce::from_slice(nonce), plaintext) {
        Ok(c) => Some(c),
        Err(_) => None,
    }
}

/// Relies on chacha20poly1305::ChaCha20Poly1305::decrypt (with empty
/// associated data): deterministic in key, nonce and ciphertext, succeeding
/// exactly when the tag authenticates.
#[verifier::external_body]
pub(crate) fn aead_decrypt(key: &[u8], nonce: &[u8], ciphertext: &[u8]) -> (r: Option<Vec<u8>>)
    requires
        key@.len() == 32,
        nonce@.len() == 12,
    ensures
        match r {
            Some(p) => aead_open(key@, nonce@, ciphertext@) == Some(p@),
            None => aead_open(key@, nonce@, ciphertext@) is None,
        },
{
    let cipher = chacha20poly1305::ChaCha20Poly1305::new(chacha20poly1305::Key::from_slice(key));
    match cipher.decrypt(chacha20poly1305::Nonce::from_slice(nonce), ciphertext) {
        Ok(p) => Some(p),
        Err(_) => None,
    }
}

/// Relies on rand::rngs::OsRng::try_fill_bytes: fills the buffer from the
/// operating system's randomness source. Nothing holds of the bytes beyond
/// their count; on a source failure the buffer may be filled only partly or
/// not at all.
#[verifier::external_body]
pub(crate) fn os_random_bytes(len: usize) -> (r: Vec<u8>)
    ensures
        r@.len() == len,
{
    let mut bytes = vec![0u8; len];
    let _ = rand::rngs::OsRng.try_fill_bytes(&mut bytes);
    bytes
}

} // verus!
