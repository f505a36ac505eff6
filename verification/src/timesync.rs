//! Building the two outbound command frames that transmit the local
//! clock to the device.
//!
//! Each frame is a 24-byte command header followed by a 10-byte
//! little-endian command payload: a command word, a reserved word, and
//! one half of the fixed-point timestamp. Obtaining the wall-clock
//! time and writing the frames to the stream are the caller's.

use vstd::prelude::*;
use crate::bytes::{
    spec_u16_le_bytes, spec_u32_le_bytes, push_u16_le, push_u32_le,
};
use crate::data_type::DataType;
use crate::fixed_time::FixedPointTime;
use crate::header::{FrameHeader, PROTOCOL_MAGIC, spec_encode_header};

verus! {

/// Command word that sets the seconds half of the device clock.
pub const SET_TIME_SECONDS: u32 = 0x30;

/// Command word that sets the fraction half of the device clock.
pub const SET_TIME_FRACTION: u32 = 0x31;

/// The header every time-sync command frame carries: a command frame
/// of 10 payload bytes from device 1, with a zero timestamp.
pub open spec fn spec_sync_header() -> FrameHeader {
    FrameHeader {
        magic_word: PROTOCOL_MAGIC,
        size_of_previous_messages: 0,
        size_of_message_data: 10,
        reserved: 0,
        device_id: 1,
        data_type: DataType::Command,
        timestamp: FixedPointTime { seconds: 0, fraction: 0 },
    }
}

/// The 10 command payload bytes: command word, reserved word, value.
pub open spec fn spec_command_payload(command_id: u32, value: u32) -> Seq<u8> {
    spec_u32_le_bytes(command_id) + spec_u16_le_bytes(0) + spec_u32_le_bytes(value)
}

/// One complete 34-byte command frame.
pub fn build_command_frame(command_id: u32, value: u32) -> (r: Vec<u8>)
    ensures
        r@ == spec_encode_header(spec_sync_header()) + spec_command_payload(command_id, value),
        r@.len() == 34,
{
    let header = FrameHeader {
        magic_word: PROTOCOL_MAGIC,
        size_of_previous_messages: 0,
        size_of_message_data: 10,
        reserved: 0,
        device_id: 1,
        data_type: DataType::Command,
        timestamp: FixedPointTime { seconds: 0, fraction: 0 },
    };
    let mut out = header.encode();
    push_u32_le(&mut out, command_id);
    push_u16_le(&mut out, 0);
    push_u32_le(&mut out, value);
    proof {
        assert(out@ =~= spec_encode_header(spec_sync_header()) + spec_command_payload(
            command_id,
            value,
        ));
    }
    out
}

/// The pair of frames that transmit `time` to the device: first its
/// seconds under `SET_TIME_SECONDS`, then its fraction under
/// `SET_TIME_FRACTION`.
pub fn build_time_sync_frames(time: FixedPointTime) -> (r: (Vec<u8>, Vec<u8>))
    ensures
        r.0@ == spec_encode_header(spec_sync_header()) + spec_command_payload(
            SET_TIME_SECONDS,
            time.seconds,
        ),
        r.1@ == spec_encode_header(spec_sync_header()) + spec_command_payload(
            SET_TIME_FRACTION,
            time.fraction,
        ),
        r.0@.len() == 34,
        r.1@.len() == 34,
{
    let first = build_command_frame(SET_TIME_SECONDS, time.seconds);
    let second = build_command_frame(SET_TIME_FRACTION, time.fraction);
    (first, second)
}

} // verus!
