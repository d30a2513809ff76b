//! The fixed 16-byte packet header: {version, flags, message type, reserved,
//! request id, payload length, CRC-32 checksum}, big-endian on the wire.

use vstd::prelude::*;
use crate::primitives::{crc32, crc32_of};
use crate::wire::{
    lemma_u32_be_round_trip, push_u32_be, read_u32_be, u32_be_bytes, u32_from_be,
};

verus! {

/// Number of bytes a header occupies on the wire.
pub const HEADER_SIZE: usize = 16;

/// The protocol's message kinds. Unrecognized wire values decode to
/// `Unknown` so that framing stays forward compatible.
#[derive(Debug, Clone, Copy, PartialEq, Eq, Structural)]
pub enum MessageType {
    Handshake,
    Onion,
    DhtFindNode,
    DhtFindNodeRes,
    Store,
    StoreRes,
    Fetch,
    FetchRes,
    Put,
    GetValueReq,
    GetValueRes,
    Unknown,
}

/// The byte a message type is written as on the wire.
pub open spec fn spec_msg_type_byte(t: MessageType) -> u8 {
    match t {
        MessageType::Handshake => 0x01,
        MessageType::Onion => 0x02,
        MessageType::DhtFindNode => 0x03,
        MessageType::DhtFindNodeRes => 0x04,
        MessageType::Store => 0x05,
        MessageType::StoreRes => 0x06,
        MessageType::Fetch => 0x07,
        MessageType::FetchRes => 0x08,
        MessageType::Put => 0x0A,
        MessageType::GetValueReq => 0x0B,
        MessageType::GetValueRes => 0x0C,
        MessageType::Unknown => 0xFF,
    }
}

/// The message type a wire byte decodes to.
pub open spec fn spec_msg_type_of(b: u8) -> MessageType {
    match b {
        0x01 => MessageType::Handshake,
        0x02 => MessageType::Onion,
        0x03 => MessageType::DhtFindNode,
        0x04 => MessageType::DhtFindNodeRes,
        0x05 => MessageType::Store,
        0x06 => MessageType::StoreRes,
        0x07 => MessageType::Fetch,
        0x08 => MessageType::FetchRes,
        0x0A => MessageType::Put,
        0x0B => MessageType::GetValueReq,
        0x0C => MessageType::GetValueRes,
        _ => MessageType::Unknown,
    }
}

impl MessageType {
    /// The byte this message type is written as on the wire.
    pub fn to_byte(&self) -> (b: u8)
        ensures
            b == spec_msg_type_byte(*self),
    {
        match self {
            MessageType::Handshake => 0x01,
            MessageType::Onion => 0x02,
            MessageType::DhtFindNode => 0x03,
            MessageType::DhtFindNodeRes => 0x04,
            MessageType::Store => 0x05,
            MessageType::StoreRes => 0x06,
            MessageType::Fetch => 0x07,
            MessageType::FetchRes => 0x08,
            MessageType::Put => 0x0A,
            MessageType::GetValueReq => 0x0B,
            MessageType::GetValueRes => 0x0C,
            MessageType::Unknown => 0xFF,
        }
    }
}

impl From<u8> for MessageType {
    /// Decodes a wire byte; unrecognized values become `Unknown`.
    fn from(value: u8) -> Self {
        match value {
            0x01 => MessageType::Handshake,
            0x02 => MessageType::Onion,
            0x03 => MessageType::DhtFindNode,
            0x04 => MessageType::DhtFindNodeRes,
            0x05 => MessageType::Store,
            0x06 => MessageType::StoreRes,
            0x07 => MessageType::Fetch,
            0x08 => MessageType::FetchRes,
            0x0A => MessageType::Put,
            0x0B => MessageType::GetValueReq,
            0x0C => MessageType::GetValueRes,
            _ => MessageType::Unknown,
        }
    }
}

impl vstd::std_specs::convert::FromSpecImpl<u8> for MessageType {
    open spec fn obeys_from_spec() -> bool {
        true
    }

    open spec fn from_spec(value: u8) -> Self {
        spec_msg_type_of(value)
    }
}

/// Decoding the byte a message type encodes to yields the type back.
pub proof fn lemma_msg_type_round_trip(t: MessageType)
    ensures
        spec_msg_type_of(spec_msg_type_byte(t)) == t,
{
}

/// The fixed-size header that precedes every packet payload on the wire.
#[derive(Debug, Clone, PartialEq, Eq, Structural)]
pub struct FixedHeader {
    pub version: u8,
    pub flags: u8,
    pub message_type: MessageType,
    pub reserved: u8,
    pub request_id: u32,
    pub payload_length: u32,
    pub checksum: u32,
}

/// Failures of header decoding.
#[derive(Debug, Clone, PartialEq, Eq, Structural)]
pub enum HeaderError {
    BufferTooSmall,
    ChecksumMismatch { expected: u32, computed: u32 },
}

/// The 16 wire bytes of a header, fields in order, integers big-endian.
pub open spec fn spec_header_bytes(h: FixedHeader) -> Seq<u8> {
    seq![h.version, h.flags, spec_msg_type_byte(h.message_type), h.reserved]
        + u32_be_bytes(h.request_id) + u32_be_bytes(h.payload_length) + u32_be_bytes(h.checksum)
}

/// The header read from the first 16 bytes of `s`.
pub open spec fn spec_header_from(s: Seq<u8>) -> FixedHeader
    recommends
        s.len() >= 16,
{
    FixedHeader {
        version: s[0],
        flags: s[1],
        message_type: spec_msg_type_of(s[2]),
        reserved: s[3],
        request_id: u32_from_be(s.subrange(4, 8)),
        payload_length: u32_from_be(s.subrange(8, 12)),
        checksum: u32_from_be(s.subrange(12, 16)),
    }
}

/// Decoding the 16 bytes a header encodes to yields the header back.
pub proof fn lemma_header_round_trip(h: FixedHeader)
    ensures
        spec_header_from(spec_header_bytes(h)) == h,
{
    let s = spec_header_bytes(h);
    assert(s.subrange(4, 8) =~= u32_be_bytes(h.request_id));
    assert(s.subrange(8, 12) =~= u32_be_bytes(h.payload_length));
    assert(s.subrange(12, 16) =~= u32_be_bytes(h.checksum));
    lemma_u32_be_round_trip(h.request_id);
    lemma_u32_be_round_trip(h.payload_length);
    lemma_u32_be_round_trip(h.checksum);
    lemma_msg_type_round_trip(h.message_type);
}

impl FixedHeader {
    /// Builds a header from explicit field values; `reserved` is fixed to 0.
    pub fn new(
        version: u8,
        flags: u8,
        message_type: MessageType,
        request_id: u32,
        payload_length: u32,
        checksum: u32,
    ) -> (h: Self)
        ensures
            h == (FixedHeader {
                version,
                flags,
                message_type,
                reserved: 0,
                request_id,
                payload_length,
                checksum,
            }),
    {
        Self { version, flags, message_type, reserved: 0, request_id, payload_length, checksum }
    }

    /// Builds the header for `payload`: version 1, flags 0, and the payload's
    /// exact length and CRC-32 checksum.
    pub fn create(message_type: MessageType, request_id: u32, payload: &[u8]) -> (h: Self)
        requires
            payload@.len() <= u32::MAX,
        ensures
            h == (FixedHeader {
                version: 1,
                flags: 0,
                message_type,
                reserved: 0,
                request_id,
                payload_length: payload@.len() as u32,
                checksum: crc32_of(payload@),
            }),
    {
        let checksum = crc32(payload);
        Self::new(1, 0, message_type, request_id, payload.len() as u32, checksum)
    }

    /// Serializes the header into its 16 wire bytes, big-endian.
    pub fn to_bytes(&self) -> (r: Vec<u8>)
        ensures
            r@ == spec_header_bytes(*self),
            r@.len() == 16,
    {
        let mut bytes: Vec<u8> = Vec::new();
        bytes.push(self.version);
        bytes.push(self.flags);
        bytes.push(self.message_type.to_byte());
        bytes.push(self.reserved);
        push_u32_be(&mut bytes, self.request_id);
        push_u32_be(&mut bytes, self.payload_length);
        push_u32_be(&mut bytes, self.checksum);
        proof {
            assert(bytes@ =~= spec_header_bytes(*self));
        }
        bytes
    }

    /// Parses a header from the first 16 bytes of `bytes`; fails if fewer
    /// are available.
    pub fn from_bytes(bytes: &[u8]) -> (r: Result<Self, HeaderError>)
        ensures
            bytes@.len() < 16 ==> r == Err::<FixedHeader, HeaderError>(HeaderError::BufferTooSmall),
            bytes@.len() >= 16 ==> r == Ok::<FixedHeader, HeaderError>(spec_header_from(bytes@)),
    {
        if bytes.len() < HEADER_SIZE {
            return Err(HeaderError::BufferTooSmall);
        }
        let version = bytes[0];
        let flags = bytes[1];
        let message_type = MessageType::from(bytes[2]);
        let reserved = bytes[3];
        let request_id = read_u32_be(bytes, 4);
        let payload_length = read_u32_be(bytes, 8);
        let checksum = read_u32_be(bytes, 12);
        Ok(Self { version, flags, message_type, reserved, request_id, payload_length, checksum })
    }
}

} // verus!
