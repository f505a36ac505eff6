//! The tracked-object payload: a 10-byte little-endian prefix
//! (timestamp and object count) followed by one variable-length record
//! per object.
//!
//! Each record is 58 fixed bytes plus four bytes per contour point, and
//! the contour-point count sits at offset 56 inside the record itself.
//! A record's extent is therefore only known once its prefix has been
//! read, so records are walked strictly left to right behind a running
//! cursor, never indexed.

use vstd::prelude::*;
use crate::bytes::{spec_u16_le, spec_u32_le, spec_i16_le, read_u16_le, read_u32_le, read_i16_le};
use crate::errors::PayloadError;
use crate::fixed_time::FixedPointTime;

verus! {

/// A signed coordinate pair.
#[derive(Clone, Copy, Debug, PartialEq, Eq, Structural)]
pub struct Point2D {
    pub position_x: i16,
    pub position_y: i16,
}

/// An unsigned extent pair.
#[derive(Clone, Copy, Debug, PartialEq, Eq, Structural)]
pub struct Size2D {
    pub size_x: u16,
    pub size_y: u16,
}

/// One tracked object: the 58-byte fixed part plus its contour points.
#[derive(Clone, Debug, PartialEq)]
pub struct ObjectRecord {
    pub object_id: u16,
    pub object_age: u16,
    pub object_prediction_age: u16,
    pub relative_timestamp: u16,
    pub reference_point: Point2D,
    pub reference_point_sigma: Point2D,
    pub closest_point: Point2D,
    pub bounding_box_center: Point2D,
    pub bounding_box_size: Size2D,
    pub object_box_center: Point2D,
    pub object_box_size: Size2D,
    pub object_box_orientation: i16,
    pub absolute_velocity: Point2D,
    pub absolute_velocity_sigma: Size2D,
    pub relative_velocity: Point2D,
    pub reserved1: u16,
    pub reserved2: u16,
    pub reserved3: u16,
    pub number_of_contour_points: u16,
    pub contour_point_vec: Vec<Point2D>,
}

/// A decoded object payload.
#[derive(Clone, Debug, PartialEq)]
pub struct ObjectPayload {
    pub scan_start_timestamp: FixedPointTime,
    /// The object count the payload itself declares at offset 8.
    pub number_of_objects: u16,
    pub objects_vec: Vec<ObjectRecord>,
}

/// The contour-point count a record starting at `off` declares, at its
/// local offset 56.
pub open spec fn spec_contour_count_at(s: Seq<u8>, off: int) -> u16 {
    spec_u16_le(s[off + 56], s[off + 57])
}

/// The byte length of the record starting at `off`: 58 fixed bytes plus
/// four per contour point.
pub open spec fn spec_record_len_at(s: Seq<u8>, off: int) -> int {
    58 + 4 * spec_contour_count_at(s, off)
}

/// The offset of record `k`, found by walking the previous records:
/// record 0 starts right after the 10-byte prefix, and each further
/// offset is only known once the record before it has been measured.
pub open spec fn spec_record_off(s: Seq<u8>, k: int) -> int
    decreases k,
{
    if k <= 0 {
        10
    } else {
        spec_record_off(s, k - 1) + spec_record_len_at(s, spec_record_off(s, k - 1))
    }
}

/// Whether the first `n` records all lie inside the buffer.
pub open spec fn spec_objects_fit(s: Seq<u8>, n: int) -> bool {
    forall|k: int|
        0 <= k < n ==> #[trigger] spec_record_off(s, k) + spec_record_len_at(
            s,
            spec_record_off(s, k),
        ) <= s.len()
}

/// The sum of the lengths of the first `n` records.
pub open spec fn spec_sum_record_lens(s: Seq<u8>, n: int) -> int
    decreases n,
{
    if n <= 0 {
        0
    } else {
        spec_sum_record_lens(s, n - 1) + spec_record_len_at(s, spec_record_off(s, n - 1))
    }
}

/// Which error decoding reports when some record among the first `n`
/// does not fit: the first record that overruns the buffer decides.
/// A record starting exactly at the end of the buffer means the stream
/// of complete records stopped early (`CountMismatch`); one starting
/// before the end but reaching past it is cut off (`Truncated`).
pub open spec fn spec_objects_err_from(s: Seq<u8>, k: int, n: int) -> PayloadError
    decreases n - k,
{
    if k >= n {
        PayloadError::Truncated
    } else {
        let off = spec_record_off(s, k);
        if off + spec_record_len_at(s, off) > s.len() {
            if off == s.len() {
                PayloadError::CountMismatch
            } else {
                PayloadError::Truncated
            }
        } else {
            spec_objects_err_from(s, k + 1, n)
        }
    }
}

/// The record fields starting at `off` are the little-endian reads of
/// their local offsets, and contour point `j` is read at local offset
/// `58 + 4*j`.
pub open spec fn spec_object_record_matches(r: ObjectRecord, s: Seq<u8>, off: int) -> bool {
    &&& r.object_id == spec_u16_le(s[off], s[off + 1])
    &&& r.object_age == spec_u16_le(s[off + 2], s[off + 3])
    &&& r.object_prediction_age == spec_u16_le(s[off + 4], s[off + 5])
    &&& r.relative_timestamp == spec_u16_le(s[off + 6], s[off + 7])
    &&& r.reference_point == Point2D {
        position_x: spec_i16_le(s[off + 8], s[off + 9]),
        position_y: spec_i16_le(s[off + 10], s[off + 11]),
    }
    &&& r.reference_point_sigma == Point2D {
        position_x: spec_i16_le(s[off + 12], s[off + 13]),
        position_y: spec_i16_le(s[off + 14], s[off + 15]),
    }
    &&& r.closest_point == Point2D {
        position_x: spec_i16_le(s[off + 16], s[off + 17]),
        position_y: spec_i16_le(s[off + 18], s[off + 19]),
    }
    &&& r.bounding_box_center == Point2D {
        position_x: spec_i16_le(s[off + 20], s[off + 21]),
        position_y: spec_i16_le(s[off + 22], s[off + 23]),
    }
    &&& r.bounding_box_size == Size2D {
        size_x: spec_u16_le(s[off + 24], s[off + 25]),
        size_y: spec_u16_le(s[off + 26], s[off + 27]),
    }
    &&& r.object_box_center == Point2D {
        position_x: spec_i16_le(s[off + 28], s[off + 29]),
        position_y: spec_i16_le(s[off + 30], s[off + 31]),
    }
    &&& r.object_box_size == Size2D {
        size_x: spec_u16_le(s[off + 32], s[off + 33]),
        size_y: spec_u16_le(s[off + 34], s[off + 35]),
    }
    &&& r.object_box_orientation == spec_i16_le(s[off + 36], s[off + 37])
    &&& r.absolute_velocity == Point2D {
        position_x: spec_i16_le(s[off + 38], s[off + 39]),
        position_y: spec_i16_le(s[off + 40], s[off + 41]),
    }
    &&& r.absolute_velocity_sigma == Size2D {
        size_x: spec_u16_le(s[off + 42], s[off + 43]),
        size_y: spec_u16_le(s[off + 44], s[off + 45]),
    }
    &&& r.relative_velocity == Point2D {
        position_x: spec_i16_le(s[off + 46], s[off + 47]),
        position_y: spec_i16_le(s[off + 48], s[off + 49]),
    }
    &&& r.reserved1 == spec_u16_le(s[off + 50], s[off + 51])
    &&& r.reserved2 == spec_u16_le(s[off + 52], s[off + 53])
    &&& r.reserved3 == spec_u16_le(s[off + 54], s[off + 55])
    &&& r.number_of_contour_points == spec_contour_count_at(s, off)
    &&& r.contour_point_vec@.len() == spec_contour_count_at(s, off)
    &&& forall|j: int|
        0 <= j < spec_contour_count_at(s, off) ==> r.contour_point_vec@[j] == Point2D {
            position_x: spec_i16_le(s[off + 58 + 4 * j], s[off + 59 + 4 * j]),
            position_y: spec_i16_le(s[off + 60 + 4 * j], s[off + 61 + 4 * j]),
        }
}

/// A decoded payload matches the buffer: the prefix fields are read
/// from the first 10 bytes (fraction word before seconds word) and
/// record `k` of `count` is read from its walked offset.
pub open spec fn spec_object_payload_matches(p: ObjectPayload, s: Seq<u8>, count: u16) -> bool {
    &&& p.scan_start_timestamp == FixedPointTime {
        seconds: spec_u32_le(s[4], s[5], s[6], s[7]),
        fraction: spec_u32_le(s[0], s[1], s[2], s[3]),
    }
    &&& p.number_of_objects == spec_u16_le(s[8], s[9])
    &&& p.objects_vec@.len() == count
    &&& forall|k: int|
        0 <= k < count ==> spec_object_record_matches(
            #[trigger] p.objects_vec@[k],
            s,
            spec_record_off(s, k),
        )
}

/// Walking the error spec past a record that fits does not change it.
proof fn lemma_err_prefix(s: Seq<u8>, i: int, n: int)
    requires
        0 <= i <= n,
        forall|k: int|
            0 <= k < i ==> #[trigger] spec_record_off(s, k) + spec_record_len_at(
                s,
                spec_record_off(s, k),
            ) <= s.len(),
    ensures
        spec_objects_err_from(s, 0, n) == spec_objects_err_from(s, i, n),
    decreases i,
{
    if i > 0 {
        assert(spec_record_off(s, i - 1) + spec_record_len_at(s, spec_record_off(s, i - 1))
            <= s.len());
        assert(spec_objects_err_from(s, i - 1, n) == spec_objects_err_from(s, i, n));
        lemma_err_prefix(s, i - 1, n);
    }
}

/// Decode the object record starting at byte `off`.
fn decode_object_record(bytes: &[u8], off: usize) -> (r: ObjectRecord)
    requires
        off + 58 <= bytes@.len(),
        off + spec_record_len_at(bytes@, off as int) <= bytes@.len(),
    ensures
        spec_object_record_matches(r, bytes@, off as int),
{
    let n: usize = bytes.len();
    let contour_count: u16 = read_u16_le(bytes, off + 56);
    let mut contour: Vec<Point2D> = Vec::new();
    let count: usize = contour_count as usize;
    let mut j: usize = 0;
    while j < count
        invariant
            n == bytes@.len(),
            count == contour_count,
            contour_count == spec_contour_count_at(bytes@, off as int),
            off + 58 + 4 * count <= n,
            j <= count,
            contour@.len() == j,
            forall|jj: int|
                0 <= jj < j ==> contour@[jj] == (Point2D {
                    position_x: spec_i16_le(
                        bytes@[off + 58 + 4 * jj],
                        bytes@[off + 59 + 4 * jj],
                    ),
                    position_y: spec_i16_le(
                        bytes@[off + 60 + 4 * jj],
                        bytes@[off + 61 + 4 * jj],
                    ),
                }),
        decreases count - j,
    {
        let p = Point2D {
            position_x: read_i16_le(bytes, off + 58 + 4 * j),
            position_y: read_i16_le(bytes, off + 60 + 4 * j),
        };
        contour.push(p);
        j = j + 1;
    }
    ObjectRecord {
        object_id: read_u16_le(bytes, off),
        object_age: read_u16_le(bytes, off + 2),
        object_prediction_age: read_u16_le(bytes, off + 4),
        relative_timestamp: read_u16_le(bytes, off + 6),
        reference_point: Point2D {
            position_x: read_i16_le(bytes, off + 8),
            position_y: read_i16_le(bytes, off + 10),
        },
        reference_point_sigma: Point2D {
            position_x: read_i16_le(bytes, off + 12),
            position_y: read_i16_le(bytes, off + 14),
        },
        closest_point: Point2D {
            position_x: read_i16_le(bytes, off + 16),
            position_y: read_i16_le(bytes, off + 18),
        },
        bounding_box_center: Point2D {
            position_x: read_i16_le(bytes, off + 20),
            position_y: read_i16_le(bytes, off + 22),
        },
        bounding_box_size: Size2D {
            size_x: read_u16_le(bytes, off + 24),
            size_y: read_u16_le(bytes, off + 26),
        },
        object_box_center: Point2D {
            position_x: read_i16_le(bytes, off + 28),
            position_y: read_i16_le(bytes, off + 30),
        },
        object_box_size: Size2D {
            size_x: read_u16_le(bytes, off + 32),
            size_y: read_u16_le(bytes, off + 34),
        },
        object_box_orientation: read_i16_le(bytes, off + 36),
        absolute_velocity: Point2D {
            position_x: read_i16_le(bytes, off + 38),
            position_y: read_i16_le(bytes, off + 40),
        },
        absolute_velocity_sigma: Size2D {
            size_x: read_u16_le(bytes, off + 42),
            size_y: read_u16_le(bytes, off + 44),
        },
        relative_velocity: Point2D {
            position_x: read_i16_le(bytes, off + 46),
            position_y: read_i16_le(bytes, off + 48),
        },
        reserved1: read_u16_le(bytes, off + 50),
        reserved2: read_u16_le(bytes, off + 52),
        reserved3: read_u16_le(bytes, off + 54),
        number_of_contour_points: contour_count,
        contour_point_vec: contour,
    }
}

/// Decode an object payload.
///
/// `declared_object_count` is the count the payload's own prefix
/// declares; the caller hands it in after reading it at offset 8.
/// Succeeds exactly when the buffer holds the 10-byte prefix and that
/// many complete records; the first record to overrun the buffer picks
/// the error, and nothing of a failing frame is returned.
pub fn decode_objects(bytes: &[u8], declared_object_count: u16) -> (r: Result<
    ObjectPayload,
    PayloadError,
>)
    ensures
        r is Ok <==> (bytes@.len() >= 10 && spec_objects_fit(
            bytes@,
            declared_object_count as int,
        )),
        r matches Ok(p) ==> spec_object_payload_matches(p, bytes@, declared_object_count),
        bytes@.len() < 10 ==> r == Err::<ObjectPayload, PayloadError>(PayloadError::Truncated),
        bytes@.len() >= 10 && !spec_objects_fit(bytes@, declared_object_count as int) ==> r
            == Err::<ObjectPayload, PayloadError>(
            spec_objects_err_from(bytes@, 0, declared_object_count as int),
        ),
{
    let n: usize = bytes.len();
    if n < 10 {
        return Err(PayloadError::Truncated);
    }
    let count: usize = declared_object_count as usize;
    let mut recs: Vec<ObjectRecord> = Vec::new();
    let mut offset: usize = 10;
    let mut i: usize = 0;
    while i < count
        invariant
            n == bytes@.len(),
            count == declared_object_count,
            n >= 10,
            i <= count,
            recs@.len() == i,
            offset == spec_record_off(bytes@, i as int),
            10 <= offset <= n,
            forall|k: int|
                0 <= k < i ==> #[trigger] spec_record_off(bytes@, k) + spec_record_len_at(
                    bytes@,
                    spec_record_off(bytes@, k),
                ) <= n,
            forall|k: int|
                0 <= k < i ==> spec_object_record_matches(
                    #[trigger] recs@[k],
                    bytes@,
                    spec_record_off(bytes@, k),
                ),
        decreases count - i,
    {
        let rem: usize = n - offset;
        if rem < 58 {
            let e = if rem == 0 {
                PayloadError::CountMismatch
            } else {
                PayloadError::Truncated
            };
            proof {
                assert(spec_record_len_at(bytes@, offset as int) >= 58);
                assert(spec_objects_err_from(bytes@, i as int, count as int) == e);
                lemma_err_prefix(bytes@, i as int, count as int);
                assert(!spec_objects_fit(bytes@, count as int));
            }
            return Err(e);
        }
        let contour_count: u16 = read_u16_le(bytes, offset + 56);
        let record_len: usize = 58 + 4 * (contour_count as usize);
        if record_len > rem {
            proof {
                assert(spec_record_len_at(bytes@, offset as int) == record_len);
                assert(spec_objects_err_from(bytes@, i as int, count as int)
                    == PayloadError::Truncated);
                lemma_err_prefix(bytes@, i as int, count as int);
                assert(!spec_objects_fit(bytes@, count as int));
            }
            return Err(PayloadError::Truncated);
        }
        let rec = decode_object_record(bytes, offset);
        recs.push(rec);
        proof {
            assert(spec_record_off(bytes@, i + 1) == spec_record_off(bytes@, i as int)
                + spec_record_len_at(bytes@, spec_record_off(bytes@, i as int)));
        }
        offset = offset + record_len;
        i = i + 1;
    }
    Ok(
        ObjectPayload {
            scan_start_timestamp: FixedPointTime {
                seconds: read_u32_le(bytes, 4),
                fraction: read_u32_le(bytes, 0),
            },
            number_of_objects: read_u16_le(bytes, 8),
            objects_vec: recs,
        },
    )
}

/// Extent of a fitting payload: when the first `n` records all fit, the
/// cursor after record `n - 1` stands exactly at the 10-byte prefix
/// plus the sum of the per-record lengths, and inside the buffer. A
/// buffer is exactly filled by its records precisely when that sum
/// plus 10 equals its length.
pub proof fn lemma_objects_extent(s: Seq<u8>, n: int)
    requires
        0 <= n,
        s.len() >= 10,
        spec_objects_fit(s, n),
    ensures
        spec_record_off(s, n) == 10 + spec_sum_record_lens(s, n),
        spec_record_off(s, n) <= s.len(),
    decreases n,
{
    if n == 0 {
        assert(spec_record_off(s, 0) == 10);
    } else {
        lemma_objects_extent(s, n - 1);
        assert(spec_record_off(s, n - 1) + spec_record_len_at(s, spec_record_off(s, n - 1))
            <= s.len());
    }
}

} // verus!
