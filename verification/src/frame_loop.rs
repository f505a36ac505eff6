//! The decisions of the frame loop.
//!
//! The loop alternates two states. Awaiting a header, it reads 24
//! bytes and classifies them with `step_header`: any short or long read
//! is dropped and the state kept; a malformed header or a wrong magic
//! word costs exactly those 24 bytes before scanning resumes (the loop
//! does not hunt byte-by-byte for the next magic word — a known
//! limitation of the design, kept deliberately). Awaiting a payload, it
//! collects the declared byte count through the reassembler and hands
//! the bytes to `decode_payload`. Reading itself is the caller's: both
//! functions here are pure and fully verified.

use vstd::prelude::*;
use crate::bytes::spec_u16_le;
use crate::data_type::DataType;
use crate::errors::{HeaderError, PayloadError};
use crate::header::{FrameHeader, PROTOCOL_MAGIC, spec_decode_header};
use crate::bytes::read_u16_le;
use crate::object::{
    ObjectPayload, spec_object_payload_matches, spec_objects_err_from, spec_objects_fit,
    decode_objects,
};
use crate::scan::{ScanPayload, spec_scan_fits, spec_scan_payload_matches, decode_scan};

verus! {

/// One decoded frame, as handed to the consumer in arrival order.
///
/// Only scan and object frames are deep-decoded; every other type is
/// passed through as its tag and payload byte length, its bytes having
/// been drained to keep the stream aligned.
#[derive(Clone, Debug, PartialEq)]
pub enum DecodedFrame {
    Scan(ScanPayload),
    Objects(ObjectPayload),
    Opaque(DataType, u32),
}

/// What a header read means for the loop.
#[derive(Clone, Copy, Debug, PartialEq, Eq, Structural)]
pub enum HeaderStep {
    /// The read did not deliver exactly 24 bytes: drop it and keep
    /// awaiting a header.
    Incomplete,
    /// The 24 bytes do not parse: drop exactly them and resume
    /// scanning.
    Malformed(HeaderError),
    /// A parsed header whose magic word is wrong: not trustworthy,
    /// dropped the same way.
    BadMagic,
    /// A trustworthy header: await its payload next.
    Accept(FrameHeader),
}

/// How a block of 24 header bytes is classified.
pub open spec fn spec_step_header(s: Seq<u8>) -> HeaderStep {
    match spec_decode_header(s) {
        Err(e) => HeaderStep::Malformed(e),
        Ok(h) => if h.magic_word != PROTOCOL_MAGIC {
            HeaderStep::BadMagic
        } else {
            HeaderStep::Accept(h)
        },
    }
}

/// Classify one header read of `bytes_read` bytes out of `buf`.
pub fn step_header(buf: &[u8], bytes_read: usize) -> (r: HeaderStep)
    requires
        bytes_read == 24 ==> buf@.len() >= 24,
    ensures
        bytes_read != 24 ==> r == HeaderStep::Incomplete,
        bytes_read == 24 ==> r == spec_step_header(buf@),
{
    if bytes_read != 24 {
        return HeaderStep::Incomplete;
    }
    match FrameHeader::decode(buf) {
        Err(e) => HeaderStep::Malformed(e),
        Ok(h) => if h.magic_word != PROTOCOL_MAGIC {
            HeaderStep::BadMagic
        } else {
            HeaderStep::Accept(h)
        },
    }
}

/// Interpret a fully reassembled payload according to the frame's type.
///
/// Scan and object payloads are decoded with the count their own
/// prefix declares; every other type is passed through opaque. A
/// failing payload yields its error and no partial output.
pub fn decode_payload(data_type: DataType, payload: &[u8]) -> (r: Result<
    DecodedFrame,
    PayloadError,
>)
    requires
        payload@.len() <= 0xFFFF_FFFF,
    ensures
        data_type == DataType::ScanData ==> {
            let cnt = spec_u16_le(payload@[28], payload@[29]);
            &&& (r is Ok <==> spec_scan_fits(payload@, cnt))
            &&& (r matches Ok(f) ==> f matches DecodedFrame::Scan(p) && spec_scan_payload_matches(
                p,
                payload@,
                cnt,
            ))
            &&& (!spec_scan_fits(payload@, cnt) ==> r == Err::<DecodedFrame, PayloadError>(
                PayloadError::Truncated,
            ))
        },
        data_type == DataType::ObjectData ==> {
            let cnt = spec_u16_le(payload@[8], payload@[9]);
            &&& (r is Ok <==> (payload@.len() >= 10 && spec_objects_fit(payload@, cnt as int)))
            &&& (r matches Ok(f) ==> f matches DecodedFrame::Objects(p)
                && spec_object_payload_matches(p, payload@, cnt))
            &&& (payload@.len() < 10 ==> r == Err::<DecodedFrame, PayloadError>(
                PayloadError::Truncated,
            ))
            &&& (payload@.len() >= 10 && !spec_objects_fit(payload@, cnt as int) ==> r == Err::<
                DecodedFrame,
                PayloadError,
            >(spec_objects_err_from(payload@, 0, cnt as int)))
        },
        data_type != DataType::ScanData && data_type != DataType::ObjectData ==> r == Ok::<
            DecodedFrame,
            PayloadError,
        >(DecodedFrame::Opaque(data_type, payload@.len() as u32)),
{
    match data_type {
        DataType::ScanData => {
            if payload.len() < 44 {
                return Err(PayloadError::Truncated);
            }
            let cnt: u16 = read_u16_le(payload, 28);
            match decode_scan(payload, cnt) {
                Ok(p) => Ok(DecodedFrame::Scan(p)),
                Err(e) => Err(e),
            }
        },
        DataType::ObjectData => {
            if payload.len() < 10 {
                return Err(PayloadError::Truncated);
            }
            let cnt: u16 = read_u16_le(payload, 8);
            match decode_objects(payload, cnt) {
                Ok(p) => Ok(DecodedFrame::Objects(p)),
                Err(e) => Err(e),
            }
        },
        _ => Ok(DecodedFrame::Opaque(data_type, payload.len() as u32)),
    }
}

} // verus!
