//! The fixed 24-byte frame header.
//!
//! All header fields are big-endian (the payload that follows is
//! little-endian; the mix is a property of the device's protocol).
//! Decoding does not test the magic word: whether a header with a wrong
//! magic is discarded is the caller's resynchronization policy, not a
//! parse failure.

use vstd::prelude::*;
use crate::bytes::{
    spec_u16_be, spec_u32_be, spec_u16_be_bytes, spec_u32_be_bytes, read_u16_be, read_u32_be,
    push_u16_be, push_u32_be, lemma_u16_be_round_trip, lemma_u32_be_round_trip,
};
use crate::data_type::{DataType, lemma_code_round_trip};
use crate::errors::HeaderError;
use crate::fixed_time::FixedPointTime;

verus! {

/// The magic word that opens every trustworthy frame.
pub const PROTOCOL_MAGIC: u32 = 0xAFFE_C0C2;

/// The parsed 24-byte frame header.
#[derive(Clone, Copy, Debug, PartialEq, Eq, Structural)]
pub struct FrameHeader {
    /// Sentinel marking a valid frame start; must equal `PROTOCOL_MAGIC`
    /// before the frame may be interpreted.
    pub magic_word: u32,
    /// Bytes transmitted before this message; informational.
    pub size_of_previous_messages: u32,
    /// Byte length of the payload that follows the header.
    pub size_of_message_data: u32,
    pub reserved: u8,
    pub device_id: u8,
    pub data_type: DataType,
    /// Device clock at frame emission.
    pub timestamp: FixedPointTime,
}

/// The 16-bit type code stored at header offset 14.
pub open spec fn spec_header_type_code(s: Seq<u8>) -> u16 {
    spec_u16_be(s[14], s[15])
}

/// The header whose fields a 24-byte block holds, given its tag.
pub open spec fn spec_header_fields(s: Seq<u8>, t: DataType) -> FrameHeader {
    FrameHeader {
        magic_word: spec_u32_be(s[0], s[1], s[2], s[3]),
        size_of_previous_messages: spec_u32_be(s[4], s[5], s[6], s[7]),
        size_of_message_data: spec_u32_be(s[8], s[9], s[10], s[11]),
        reserved: s[12],
        device_id: s[13],
        data_type: t,
        timestamp: FixedPointTime {
            seconds: spec_u32_be(s[16], s[17], s[18], s[19]),
            fraction: spec_u32_be(s[20], s[21], s[22], s[23]),
        },
    }
}

/// What decoding a header block returns, for every input.
pub open spec fn spec_decode_header(s: Seq<u8>) -> Result<FrameHeader, HeaderError> {
    if s.len() < 24 {
        Err(HeaderError::Truncated)
    } else {
        match DataType::spec_from_u16(spec_header_type_code(s)) {
            Some(t) => Ok(spec_header_fields(s, t)),
            None => Err(HeaderError::UnknownType),
        }
    }
}

/// The 24 bytes that encode a header.
pub open spec fn spec_encode_header(h: FrameHeader) -> Seq<u8> {
    spec_u32_be_bytes(h.magic_word) + spec_u32_be_bytes(h.size_of_previous_messages)
        + spec_u32_be_bytes(h.size_of_message_data) + seq![h.reserved, h.device_id]
        + spec_u16_be_bytes(h.data_type.code()) + spec_u32_be_bytes(h.timestamp.seconds)
        + spec_u32_be_bytes(h.timestamp.fraction)
}

impl FrameHeader {
    /// Parse a header block.
    ///
    /// Fails with `Truncated` on fewer than 24 bytes and with
    /// `UnknownType` when the type code names no `DataType`; otherwise
    /// every field is the big-endian read of its fixed offset.
    pub fn decode(bytes: &[u8]) -> (r: Result<FrameHeader, HeaderError>)
        ensures
            r == spec_decode_header(bytes@),
    {
        if bytes.len() < 24 {
            return Err(HeaderError::Truncated);
        }
        let code: u16 = read_u16_be(bytes, 14);
        let data_type: DataType = match DataType::from_u16(code) {
            Some(t) => t,
            None => { return Err(HeaderError::UnknownType) },
        };
        Ok(
            FrameHeader {
                magic_word: read_u32_be(bytes, 0),
                size_of_previous_messages: read_u32_be(bytes, 4),
                size_of_message_data: read_u32_be(bytes, 8),
                reserved: bytes[12],
                device_id: bytes[13],
                data_type,
                timestamp: FixedPointTime {
                    seconds: read_u32_be(bytes, 16),
                    fraction: read_u32_be(bytes, 20),
                },
            },
        )
    }

    /// Write the header as its 24-byte wire form, the inverse of
    /// `decode`; used for the outbound command frames.
    pub fn encode(&self) -> (r: Vec<u8>)
        ensures
            r@ == spec_encode_header(*self),
            r@.len() == 24,
    {
        let mut out: Vec<u8> = Vec::new();
        push_u32_be(&mut out, self.magic_word);
        push_u32_be(&mut out, self.size_of_previous_messages);
        push_u32_be(&mut out, self.size_of_message_data);
        out.push(self.reserved);
        out.push(self.device_id);
        push_u16_be(&mut out, self.data_type.to_u16());
        push_u32_be(&mut out, self.timestamp.seconds);
        push_u32_be(&mut out, self.timestamp.fraction);
        proof {
            assert(out@ =~= spec_encode_header(*self));
        }
        out
    }
}

/// Round trip: decoding the encoding of any header gives the header
/// back, for every header (each carries a valid `DataType` by
/// construction).
pub proof fn lemma_header_round_trip(h: FrameHeader)
    ensures
        spec_decode_header(spec_encode_header(h)) == Ok::<FrameHeader, HeaderError>(h),
{
    let s = spec_encode_header(h);
    assert(s.len() == 24);
    assert(s[14] == (h.data_type.code() >> 8) as u8 && s[15] == h.data_type.code() as u8);
    lemma_u16_be_round_trip(h.data_type.code());
    assert(spec_header_type_code(s) == h.data_type.code());
    lemma_code_round_trip(h.data_type);
    lemma_u32_be_round_trip(h.magic_word);
    lemma_u32_be_round_trip(h.size_of_previous_messages);
    lemma_u32_be_round_trip(h.size_of_message_data);
    lemma_u32_be_round_trip(h.timestamp.seconds);
    lemma_u32_be_round_trip(h.timestamp.fraction);
    assert(spec_header_fields(s, h.data_type) == h);
}

} // verus!
