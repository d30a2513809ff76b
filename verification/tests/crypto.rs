use chacha20poly1305::aead::{Aead, KeyInit};
use ed25519_dalek::Signer;
use freedom_core::handshake::{HandshakePayload, HandshakeError};
use freedom_core::header::MessageType;
use freedom_core::helper::{create_session_key, encrypt_layer, try_decrypt_layer, CryptoError};
use freedom_core::identity::NodeIdentity;
use freedom_core::packet::NetworkPacket;

#[test]
fn handshake_sign_then_verify_succeeds() {
    let identity = NodeIdentity::generate();
    let payload = identity.sign_handshake(1_700_000_000);
    assert!(payload.verify().is_ok());
}

#[test]
fn handshake_round_trip() {
    let identity = NodeIdentity::generate();
    let payload = identity.sign_handshake(1_700_000_000);
    let bytes = payload.to_bytes();
    assert_eq!(bytes.len(), 136);
    let decoded = HandshakePayload::from_bytes(&bytes).unwrap();
    assert_eq!(decoded.identity_key, payload.identity_key);
    assert_eq!(decoded.onion_key, payload.onion_key);
    assert_eq!(decoded.timestamp, payload.timestamp);
    assert_eq!(decoded.signature, payload.signature);
    assert!(decoded.verify().is_ok());
}

#[test]
fn handshake_zeroed_signature_fails_verification() {
    let identity = NodeIdentity::generate();
    let mut payload = identity.sign_handshake(1_700_000_000);
    payload.signature = vec![0u8; 64];
    assert!(matches!(
        payload.verify(),
        Err(HandshakeError::VerificationFailed)
    ));
}

#[test]
fn handshake_flipped_timestamp_fails_verification() {
    let identity = NodeIdentity::generate();
    let mut payload = identity.sign_handshake(1_700_000_000);
    payload.timestamp ^= 1u64 << 17;
    assert!(matches!(
        payload.verify(),
        Err(HandshakeError::VerificationFailed)
    ));
}

#[test]
fn handshake_wrong_size_is_rejected() {
    let identity = NodeIdentity::generate();
    let mut bytes = identity.sign_handshake(7).to_bytes();
    bytes.push(0);
    match HandshakePayload::from_bytes(&bytes) {
        Err(HandshakeError::InvalidSize { expected, got }) => {
            assert_eq!(expected, 136);
            assert_eq!(got, 137);
        }
        other => panic!("oversized payload decoded as {:?}", other),
    }
    assert!(matches!(
        HandshakePayload::from_bytes(&[]),
        Err(HandshakeError::InvalidSize { expected: 136, got: 0 })
    ));
}

#[test]
fn handshake_invalid_identity_key_is_rejected() {
    let identity = NodeIdentity::generate();
    let mut bytes = identity.sign_handshake(7).to_bytes();
    // Find a 32-byte string that is not a valid Ed25519 point encoding.
    let mut candidate = [0xFFu8; 32];
    let mut found = false;
    for first in 0..=255u8 {
        candidate[0] = first;
        if ed25519_dalek::VerifyingKey::from_bytes(&candidate).is_err() {
            found = true;
            break;
        }
    }
    assert!(found);
    bytes[..32].copy_from_slice(&candidate);
    assert!(matches!(
        HandshakePayload::from_bytes(&bytes),
        Err(HandshakeError::InvalidIdentityKey)
    ));
}

#[test]
fn session_key_is_symmetric() {
    let a = NodeIdentity::generate();
    let b = NodeIdentity::generate();
    let a_pub = a.sign_handshake(0).onion_key;
    let b_pub = b.sign_handshake(0).onion_key;
    let k_ab = create_session_key(&a.onion_secret, &b_pub);
    let k_ba = create_session_key(&b.onion_secret, &a_pub);
    assert_eq!(k_ab.len(), 32);
    assert_eq!(k_ab, k_ba);
}

#[test]
fn seal_open_round_trip() {
    let key = create_session_key(&[7u8; 32], &[9u8; 32]);
    let plaintext = b"layered message".to_vec();
    let sealed = encrypt_layer(&key, &plaintext).unwrap();
    assert_eq!(sealed.len(), plaintext.len() + 28);
    let opened = try_decrypt_layer(&key, &sealed).unwrap();
    assert_eq!(opened, plaintext);
}

#[test]
fn open_under_wrong_key_fails() {
    let key = vec![1u8; 32];
    let other_key = vec![2u8; 32];
    let sealed = encrypt_layer(&key, b"secret").unwrap();
    assert!(matches!(
        try_decrypt_layer(&other_key, &sealed),
        Err(CryptoError::DecryptionError)
    ));
}

#[test]
fn seal_twice_differs_but_both_open() {
    let key = vec![3u8; 32];
    let plaintext = b"same plaintext".to_vec();
    let first = encrypt_layer(&key, &plaintext).unwrap();
    let second = encrypt_layer(&key, &plaintext).unwrap();
    assert_ne!(first, second);
    assert_eq!(try_decrypt_layer(&key, &first).unwrap(), plaintext);
    assert_eq!(try_decrypt_layer(&key, &second).unwrap(), plaintext);
}

#[test]
fn tampered_layer_fails_to_open() {
    let key = vec![5u8; 32];
    let mut sealed = encrypt_layer(&key, b"payload").unwrap();
    let last = sealed.len() - 1;
    sealed[last] ^= 0x01;
    assert!(matches!(
        try_decrypt_layer(&key, &sealed),
        Err(CryptoError::DecryptionError)
    ));
}

#[test]
fn too_short_layer_is_rejected() {
    let key = vec![6u8; 32];
    for len in 0..12 {
        let short = vec![0u8; len];
        assert!(matches!(
            try_decrypt_layer(&key, &short),
            Err(CryptoError::InvalidLength)
        ));
    }
}

#[test]
fn onion_two_hop_layering_peels_in_order() {
    let hop1_key = create_session_key(&[11u8; 32], &[12u8; 32]);
    let hop2_key = create_session_key(&[13u8; 32], &[14u8; 32]);
    let inner = b"reach the exit".to_vec();
    let once = encrypt_layer(&hop2_key, &inner).unwrap();
    let twice = encrypt_layer(&hop1_key, &once).unwrap();
    let peeled = try_decrypt_layer(&hop1_key, &twice).unwrap();
    assert_eq!(peeled, once);
    assert_eq!(try_decrypt_layer(&hop2_key, &peeled).unwrap(), inner);
}

#[test]
fn session_key_matches_direct_construction() {
    let secret = x25519_dalek::StaticSecret::from([7u8; 32]);
    let peer = x25519_dalek::PublicKey::from([9u8; 32]);
    let shared = secret.diffie_hellman(&peer);
    let hk = hkdf::Hkdf::<sha2::Sha256>::new(None, shared.as_bytes());
    let mut expected = [0u8; 32];
    hk.expand(&[], &mut expected).unwrap();
    let derived = create_session_key(&[7u8; 32], &[9u8; 32]);
    assert_eq!(derived, expected.to_vec());
}

#[test]
fn handshake_matches_direct_construction() {
    let identity = NodeIdentity {
        identity_secret: vec![1u8; 32],
        onion_secret: vec![2u8; 32],
    };
    let payload = identity.sign_handshake(55);

    let signing_key = ed25519_dalek::SigningKey::from_bytes(&[1u8; 32]);
    assert_eq!(
        payload.identity_key,
        signing_key.verifying_key().to_bytes().to_vec()
    );

    let exchange_secret = x25519_dalek::StaticSecret::from([2u8; 32]);
    assert_eq!(
        payload.onion_key,
        x25519_dalek::PublicKey::from(&exchange_secret).as_bytes().to_vec()
    );

    let mut message = Vec::new();
    message.extend_from_slice(&payload.identity_key);
    message.extend_from_slice(&payload.onion_key);
    message.extend_from_slice(&55u64.to_be_bytes());
    assert_eq!(
        payload.signature,
        signing_key.sign(&message).to_bytes().to_vec()
    );
}

#[test]
fn sealed_layer_matches_direct_aead() {
    let key = [4u8; 32];
    let sealed = encrypt_layer(&key, b"interop").unwrap();
    let cipher = chacha20poly1305::ChaCha20Poly1305::new((&key).into());
    let nonce = chacha20poly1305::Nonce::from_slice(&sealed[..12]);
    let plain = cipher.decrypt(nonce, &sealed[12..]).unwrap();
    assert_eq!(plain, b"interop".to_vec());
}

#[test]
fn end_to_end_handshake_packet() {
    let identity = NodeIdentity::generate();
    let payload = identity.sign_handshake(1_700_000_000);
    let packet = NetworkPacket::new(MessageType::Handshake, 12345, payload.to_bytes());
    let bytes = packet.to_bytes();
    assert_eq!(bytes.len(), 152);

    let received = NetworkPacket::from_bytes(&bytes).unwrap();
    assert_eq!(received.header.message_type, MessageType::Handshake);
    assert_eq!(received.header.request_id, 12345);
    assert_eq!(received.header.payload_length, 136);
    assert_eq!(received.header.checksum, packet.header.checksum);

    let decoded = HandshakePayload::from_bytes(&received.payload).unwrap();
    assert!(decoded.verify().is_ok());
    assert_eq!(decoded.timestamp, 1_700_000_000);
}
