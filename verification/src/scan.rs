//! The scan-return payload: a fixed 44-byte little-endian prefix of
//! scan metadata followed by one fixed 10-byte record per scan point.

use vstd::prelude::*;
use crate::bytes::{spec_u16_le, spec_u32_le, spec_i16_le, read_u16_le, read_u32_le, read_i16_le};
use crate::errors::PayloadError;
use crate::fixed_time::FixedPointTime;

verus! {

/// One scan return: a fixed 10-byte record.
#[derive(Clone, Copy, Debug, PartialEq, Eq, Structural)]
pub struct ScanPoint {
    pub layer_and_echo: u8,
    pub flags: u8,
    pub horizontal_angle: i16,
    pub radial_distance: u16,
    pub echo_pulse_width: u16,
    pub reserved: u16,
}

/// A decoded scan payload: metadata plus the scan points in input order.
#[derive(Clone, Debug, PartialEq)]
pub struct ScanPayload {
    pub scan_number: u16,
    pub scanner_status: u16,
    pub sync_phase_offset: u16,
    pub scan_start_time: FixedPointTime,
    pub scan_end_time: FixedPointTime,
    pub angle_ticks_per_rotation: u16,
    pub start_angle: i16,
    pub end_angle: i16,
    /// The point count the payload itself declares at offset 28.
    pub scan_points: u16,
    pub mounting_position_yaw_angle: i16,
    pub mounting_position_pitch_angle: i16,
    pub mounting_position_roll_angle: i16,
    pub mounting_position_x: i16,
    pub mounting_position_y: i16,
    pub mounting_position_z: i16,
    pub processing_flags: u16,
    pub scan_point_vec: Vec<ScanPoint>,
}

/// The point record that starts at byte `off` of the payload.
pub open spec fn spec_scan_point_at(s: Seq<u8>, off: int) -> ScanPoint {
    ScanPoint {
        layer_and_echo: s[off],
        flags: s[off + 1],
        horizontal_angle: spec_i16_le(s[off + 2], s[off + 3]),
        radial_distance: spec_u16_le(s[off + 4], s[off + 5]),
        echo_pulse_width: spec_u16_le(s[off + 6], s[off + 7]),
        reserved: spec_u16_le(s[off + 8], s[off + 9]),
    }
}

/// Every byte the decoder walks lies inside the buffer exactly when the
/// buffer holds the 44-byte prefix and `count` 10-byte records.
pub open spec fn spec_scan_fits(s: Seq<u8>, count: u16) -> bool {
    s.len() >= 44 + 10 * count
}

/// The metadata fields of a decoded payload are the little-endian reads
/// of their fixed offsets. The timestamps store the fraction word
/// before the seconds word.
pub open spec fn spec_scan_meta_matches(p: ScanPayload, s: Seq<u8>) -> bool {
    &&& p.scan_number == spec_u16_le(s[0], s[1])
    &&& p.scanner_status == spec_u16_le(s[2], s[3])
    &&& p.sync_phase_offset == spec_u16_le(s[4], s[5])
    &&& p.scan_start_time == FixedPointTime {
        seconds: spec_u32_le(s[10], s[11], s[12], s[13]),
        fraction: spec_u32_le(s[6], s[7], s[8], s[9]),
    }
    &&& p.scan_end_time == FixedPointTime {
        seconds: spec_u32_le(s[18], s[19], s[20], s[21]),
        fraction: spec_u32_le(s[14], s[15], s[16], s[17]),
    }
    &&& p.angle_ticks_per_rotation == spec_u16_le(s[22], s[23])
    &&& p.start_angle == spec_i16_le(s[24], s[25])
    &&& p.end_angle == spec_i16_le(s[26], s[27])
    &&& p.scan_points == spec_u16_le(s[28], s[29])
    &&& p.mounting_position_yaw_angle == spec_i16_le(s[30], s[31])
    &&& p.mounting_position_pitch_angle == spec_i16_le(s[32], s[33])
    &&& p.mounting_position_roll_angle == spec_i16_le(s[34], s[35])
    &&& p.mounting_position_x == spec_i16_le(s[36], s[37])
    &&& p.mounting_position_y == spec_i16_le(s[38], s[39])
    &&& p.mounting_position_z == spec_i16_le(s[40], s[41])
    &&& p.processing_flags == spec_u16_le(s[42], s[43])
}

/// A decoded payload matches the buffer: the metadata is read from the
/// prefix and record `i` of `count` is read from offset `44 + 10*i`,
/// so exactly `44 + 10*count` bytes are walked, in input order.
pub open spec fn spec_scan_payload_matches(p: ScanPayload, s: Seq<u8>, count: u16) -> bool {
    &&& spec_scan_meta_matches(p, s)
    &&& p.scan_point_vec@.len() == count
    &&& forall|i: int|
        0 <= i < count ==> p.scan_point_vec@[i] == spec_scan_point_at(s, 44 + 10 * i)
}

/// Decode a scan payload.
///
/// `declared_point_count` is the count the payload's own metadata
/// declares; the caller hands it in after reading it at offset 28.
/// Succeeds exactly when the buffer holds the 44-byte prefix and that
/// many 10-byte records; otherwise the buffer is truncated.
pub fn decode_scan(bytes: &[u8], declared_point_count: u16) -> (r: Result<
    ScanPayload,
    PayloadError,
>)
    ensures
        r is Ok <==> spec_scan_fits(bytes@, declared_point_count),
        r matches Ok(p) ==> spec_scan_payload_matches(p, bytes@, declared_point_count),
        !spec_scan_fits(bytes@, declared_point_count) ==> r == Err::<
            ScanPayload,
            PayloadError,
        >(PayloadError::Truncated),
{
    let n: usize = bytes.len();
    if n < 44 || (n - 44) / 10 < declared_point_count as usize {
        return Err(PayloadError::Truncated);
    }
    assert(n >= 44 + 10 * declared_point_count) by {
        assert((n - 44) / 10 >= declared_point_count ==> n - 44 >= 10 * declared_point_count)
            by (nonlinear_arith);
    };
    let mut points: Vec<ScanPoint> = Vec::new();
    let count: usize = declared_point_count as usize;
    let mut i: usize = 0;
    while i < count
        invariant
            count == declared_point_count,
            n == bytes@.len(),
            n >= 44 + 10 * count,
            i <= count,
            points@.len() == i,
            forall|j: int| 0 <= j < i ==> points@[j] == spec_scan_point_at(bytes@, 44 + 10 * j),
        decreases count - i,
    {
        let off: usize = 44 + 10 * i;
        let p = ScanPoint {
            layer_and_echo: bytes[off],
            flags: bytes[off + 1],
            horizontal_angle: read_i16_le(bytes, off + 2),
            radial_distance: read_u16_le(bytes, off + 4),
            echo_pulse_width: read_u16_le(bytes, off + 6),
            reserved: read_u16_le(bytes, off + 8),
        };
        points.push(p);
        i = i + 1;
    }
    Ok(
        ScanPayload {
            scan_number: read_u16_le(bytes, 0),
            scanner_status: read_u16_le(bytes, 2),
            sync_phase_offset: read_u16_le(bytes, 4),
            scan_start_time: FixedPointTime {
                seconds: read_u32_le(bytes, 10),
                fraction: read_u32_le(bytes, 6),
            },
            scan_end_time: FixedPointTime {
                seconds: read_u32_le(bytes, 18),
                fraction: read_u32_le(bytes, 14),
            },
            angle_ticks_per_rotation: read_u16_le(bytes, 22),
            start_angle: read_i16_le(bytes, 24),
            end_angle: read_i16_le(bytes, 26),
            scan_points: read_u16_le(bytes, 28),
            mounting_position_yaw_angle: read_i16_le(bytes, 30),
            mounting_position_pitch_angle: read_i16_le(bytes, 32),
            mounting_position_roll_angle: read_i16_le(bytes, 34),
            mounting_position_x: read_i16_le(bytes, 36),
            mounting_position_y: read_i16_le(bytes, 38),
            mounting_position_z: read_i16_le(bytes, 40),
            processing_flags: read_u16_le(bytes, 42),
            scan_point_vec: points,
        },
    )
}

} // verus!
