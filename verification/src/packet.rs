//! The packet envelope: a fixed header followed by the payload bytes, with
//! the payload's length and CRC-32 checksum validated at decode time.

use vstd::prelude::*;
use crate::header::{
    lemma_header_round_trip, spec_header_bytes, spec_header_from, FixedHeader, HeaderError,
    MessageType, HEADER_SIZE,
};
use crate::primitives::{crc32, crc32_of};
use crate::wire::extend_bytes;
use vstd::slice::{slice_subrange, slice_to_vec};

verus! {

/// A header plus the payload it frames.
#[derive(Debug)]
pub struct NetworkPacket {
    pub header: FixedHeader,
    pub payload: Vec<u8>,
}

/// Failures of packet decoding.
#[derive(Debug, Clone, PartialEq, Eq, Structural)]
pub enum PacketError {
    HeaderError(HeaderError),
    PayloadLengthMismatch { expected: u32, got: usize },
    ChecksumMismatch { expected: u32, calculated: u32 },
}

/// The full wire form of a packet: 16 header bytes, then the payload.
pub open spec fn spec_packet_bytes(p: NetworkPacket) -> Seq<u8> {
    spec_header_bytes(p.header) + p.payload@
}

/// What decoding a byte sequence yields: the header and payload on success,
/// or the first framing error found.
pub open spec fn spec_packet_from(s: Seq<u8>) -> Result<(FixedHeader, Seq<u8>), PacketError> {
    if s.len() < 16 {
        Err(PacketError::HeaderError(HeaderError::BufferTooSmall))
    } else {
        let h = spec_header_from(s);
        if s.len() - 16 < h.payload_length {
            Err(PacketError::PayloadLengthMismatch {
                expected: h.payload_length,
                got: (s.len() - 16) as usize,
            })
        } else {
            let payload = s.subrange(16, 16 + h.payload_length as int);
            if crc32_of(payload) != h.checksum {
                Err(PacketError::ChecksumMismatch {
                    expected: h.checksum,
                    calculated: crc32_of(payload),
                })
            } else {
                Ok((h, payload))
            }
        }
    }
}

impl NetworkPacket {
    /// A packet is well formed when its header's declared length and checksum
    /// are exactly those of its payload.
    pub open spec fn wf(self) -> bool {
        &&& self.header.payload_length == self.payload@.len()
        &&& self.header.checksum == crc32_of(self.payload@)
    }

    /// Builds a packet around `payload`, computing a consistent header.
    pub fn new(message_type: MessageType, request_id: u32, payload: Vec<u8>) -> (p: Self)
        requires
            payload@.len() <= u32::MAX,
        ensures
            p.header == (FixedHeader {
                version: 1,
                flags: 0,
                message_type,
                reserved: 0,
                request_id,
                payload_length: payload@.len() as u32,
                checksum: crc32_of(payload@),
            }),
            p.payload@ == payload@,
            p.wf(),
    {
        let header = FixedHeader::create(message_type, request_id, payload.as_slice());
        Self { header, payload }
    }

    /// Serializes the packet: header bytes, then payload bytes.
    pub fn to_bytes(&self) -> (r: Vec<u8>)
        ensures
            r@ == spec_packet_bytes(*self),
            r@.len() == 16 + self.payload@.len(),
    {
        let mut buffer = self.header.to_bytes();
        extend_bytes(&mut buffer, self.payload.as_slice());
        buffer
    }

    /// Parses and validates a packet: header first, then the declared payload
    /// length against the bytes available, then the payload's checksum
    /// against the header's.
    pub fn from_bytes(data: &[u8]) -> (r: Result<Self, PacketError>)
        ensures
            match r {
                Ok(p) => spec_packet_from(data@) == Ok::<(FixedHeader, Seq<u8>), PacketError>(
                    (p.header, p.payload@),
                ) && p.wf(),
                Err(e) => spec_packet_from(data@) == Err::<(FixedHeader, Seq<u8>), PacketError>(e),
            },
    {
        if data.len() < HEADER_SIZE {
            return Err(PacketError::HeaderError(HeaderError::BufferTooSmall));
        }
        let header = match FixedHeader::from_bytes(data) {
            Ok(h) => h,
            Err(e) => {
                return Err(PacketError::HeaderError(e));
            },
        };
        let payload_len = header.payload_length as usize;
        if data.len() - HEADER_SIZE < payload_len {
            return Err(PacketError::PayloadLengthMismatch {
                expected: header.payload_length,
                got: data.len() - HEADER_SIZE,
            });
        }
        let payload = slice_to_vec(slice_subrange(data, HEADER_SIZE, HEADER_SIZE + payload_len));
        let calculated = crc32(payload.as_slice());
        if calculated != header.checksum {
            return Err(PacketError::ChecksumMismatch { expected: header.checksum, calculated });
        }
        Ok(Self { header, payload })
    }
}

/// Round trip: decoding the bytes a well-formed packet encodes to yields the
/// same header and payload, and never an error.
pub proof fn lemma_packet_round_trip(p: NetworkPacket)
    requires
        p.wf(),
    ensures
        spec_packet_from(spec_packet_bytes(p)) == Ok::<(FixedHeader, Seq<u8>), PacketError>(
            (p.header, p.payload@),
        ),
{
    let s = spec_packet_bytes(p);
    let hb = spec_header_bytes(p.header);
    assert(hb.len() == 16);
    assert(s.subrange(4, 8) =~= hb.subrange(4, 8));
    assert(s.subrange(8, 12) =~= hb.subrange(8, 12));
    assert(s.subrange(12, 16) =~= hb.subrange(12, 16));
    assert(spec_header_from(s) == spec_header_from(hb));
    lemma_header_round_trip(p.header);
    assert(s.subrange(16, 16 + p.header.payload_length as int) =~= p.payload@);
}

} // verus!
