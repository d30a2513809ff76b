use crc32fast::Hasher;
use freedom_core::header::{FixedHeader, HeaderError, MessageType};
use freedom_core::packet::{NetworkPacket, PacketError};

#[test]
fn test_header_serialization_with_real_checksum() {
    // 1. Arrange: Simulated Payload
    let payload = b"123456789"; // The stardard CRC32 is 0xCBF43926 for this payload

    let mut hasher = Hasher::new();
    hasher.update(payload);
    let expected_crc = hasher.finalize();

    // 2. Act: Create Header
    let header = FixedHeader::create(MessageType::Handshake, 100, payload);

    let bytes = header.to_bytes();

    // 3. Assert: Verifies layout byte-a-byte

    // Version (1)
    assert_eq!(bytes[0], 0x01);
    // Flags (1)
    assert_eq!(bytes[1], 0x00);
    // Message Type (1)
    assert_eq!(bytes[2], 0x01);
    // Reserved (0)
    assert_eq!(bytes[3], 0x00);

    // Checksum (4) - Big Endian
    let checksum_bytes = &bytes[12..16];
    let recovered_crc = u32::from_be_bytes(checksum_bytes.try_into().unwrap());

    assert_eq!(recovered_crc, expected_crc);
    assert_eq!(recovered_crc, 0xCBF43926);
}

#[test]
fn header_round_trip() {
    let header = FixedHeader::new(1, 0x80, MessageType::GetValueRes, 0xDEADBEEF, 4096, 0x12345678);
    let bytes = header.to_bytes();
    assert_eq!(bytes.len(), 16);
    let decoded = FixedHeader::from_bytes(&bytes).unwrap();
    assert_eq!(decoded, header);
}

#[test]
fn header_unknown_message_type_decodes() {
    let header = FixedHeader::new(1, 0, MessageType::Unknown, 1, 0, 0);
    let bytes = header.to_bytes();
    assert_eq!(bytes[2], 0xFF);
    let decoded = FixedHeader::from_bytes(&bytes).unwrap();
    assert_eq!(decoded.message_type, MessageType::Unknown);

    // An unrecognized wire value must still frame successfully.
    let mut other = bytes.clone();
    other[2] = 0x77;
    let decoded = FixedHeader::from_bytes(&other).unwrap();
    assert_eq!(decoded.message_type, MessageType::Unknown);
}

#[test]
fn message_type_wire_values() {
    assert_eq!(MessageType::from(0x01), MessageType::Handshake);
    assert_eq!(MessageType::from(0x02), MessageType::Onion);
    assert_eq!(MessageType::from(0x03), MessageType::DhtFindNode);
    assert_eq!(MessageType::from(0x04), MessageType::DhtFindNodeRes);
    assert_eq!(MessageType::from(0x05), MessageType::Store);
    assert_eq!(MessageType::from(0x06), MessageType::StoreRes);
    assert_eq!(MessageType::from(0x07), MessageType::Fetch);
    assert_eq!(MessageType::from(0x08), MessageType::FetchRes);
    assert_eq!(MessageType::from(0x0A), MessageType::Put);
    assert_eq!(MessageType::from(0x0B), MessageType::GetValueReq);
    assert_eq!(MessageType::from(0x0C), MessageType::GetValueRes);
    assert_eq!(MessageType::from(0x09), MessageType::Unknown);
    assert_eq!(MessageType::from(0x00), MessageType::Unknown);
    assert_eq!(MessageType::from(0xFE), MessageType::Unknown);
}

#[test]
fn packet_round_trip() {
    let payload = b"hello overlay".to_vec();
    let packet = NetworkPacket::new(MessageType::Store, 42, payload.clone());
    let bytes = packet.to_bytes();
    assert_eq!(bytes.len(), 16 + payload.len());
    let decoded = NetworkPacket::from_bytes(&bytes).unwrap();
    assert_eq!(decoded.header, packet.header);
    assert_eq!(decoded.payload, payload);
}

#[test]
fn packet_empty_payload_round_trip() {
    let packet = NetworkPacket::new(MessageType::Fetch, 0, Vec::new());
    let bytes = packet.to_bytes();
    assert_eq!(bytes.len(), 16);
    let decoded = NetworkPacket::from_bytes(&bytes).unwrap();
    assert_eq!(decoded.header, packet.header);
    assert!(decoded.payload.is_empty());
}

#[test]
fn packet_checksum_matches_known_crc() {
    let packet = NetworkPacket::new(MessageType::Handshake, 100, b"123456789".to_vec());
    assert_eq!(packet.header.checksum, 0xCBF43926);
    let bytes = packet.to_bytes();
    assert_eq!(&bytes[12..16], &0xCBF43926u32.to_be_bytes());
}

#[test]
fn packet_single_bit_flip_fails_checksum() {
    let payload = b"123456789".to_vec();
    let packet = NetworkPacket::new(MessageType::Onion, 7, payload.clone());
    let bytes = packet.to_bytes();
    for byte_index in 0..payload.len() {
        for bit in 0..8 {
            let mut tampered = bytes.clone();
            tampered[16 + byte_index] ^= 1u8 << bit;
            match NetworkPacket::from_bytes(&tampered) {
                Err(PacketError::ChecksumMismatch { expected, calculated }) => {
                    assert_eq!(expected, packet.header.checksum);
                    assert_ne!(calculated, expected);
                }
                other => panic!("tampered packet decoded as {:?}", other),
            }
        }
    }
}

#[test]
fn short_buffers_are_rejected() {
    for len in 0..16 {
        let buffer = vec![0u8; len];
        assert!(matches!(
            FixedHeader::from_bytes(&buffer),
            Err(HeaderError::BufferTooSmall)
        ));
        assert!(matches!(
            NetworkPacket::from_bytes(&buffer),
            Err(PacketError::HeaderError(HeaderError::BufferTooSmall))
        ));
    }
}

#[test]
fn truncated_payload_is_rejected() {
    let packet = NetworkPacket::new(MessageType::Put, 9, b"0123456789".to_vec());
    let bytes = packet.to_bytes();
    let truncated = &bytes[..bytes.len() - 3];
    match NetworkPacket::from_bytes(truncated) {
        Err(PacketError::PayloadLengthMismatch { expected, got }) => {
            assert_eq!(expected, 10);
            assert_eq!(got, 7);
        }
        other => panic!("truncated packet decoded as {:?}", other),
    }
}

#[test]
fn declared_length_beyond_buffer_is_rejected() {
    // A header that claims a payload longer than what follows it.
    let header = FixedHeader::new(1, 0, MessageType::Fetch, 3, 100, 0);
    let mut bytes = header.to_bytes();
    bytes.extend_from_slice(&[0u8; 5]);
    match NetworkPacket::from_bytes(&bytes) {
        Err(PacketError::PayloadLengthMismatch { expected, got }) => {
            assert_eq!(expected, 100);
            assert_eq!(got, 5);
        }
        other => panic!("over-declared packet decoded as {:?}", other),
    }
}
