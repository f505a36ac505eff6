use sensor_feed::data_type::DataType;
use sensor_feed::errors::{HeaderError, PayloadError};
use sensor_feed::fixed_time::FixedPointTime;
use sensor_feed::frame_loop::{decode_payload, step_header, DecodedFrame, HeaderStep};
use sensor_feed::header::FrameHeader;
use sensor_feed::timesync::build_time_sync_frames;

fn good_header_bytes() -> Vec<u8> {
    FrameHeader {
        magic_word: 0xAFFE_C0C2,
        size_of_previous_messages: 0,
        size_of_message_data: 10,
        reserved: 0,
        device_id: 1,
        data_type: DataType::ObjectData,
        timestamp: FixedPointTime { seconds: 0, fraction: 0 },
    }
    .encode()
}

#[test]
fn short_read_keeps_awaiting_a_header() {
    let bytes = good_header_bytes();
    assert_eq!(step_header(&bytes, 10), HeaderStep::Incomplete);
    assert_eq!(step_header(&bytes, 0), HeaderStep::Incomplete);
}

#[test]
fn unknown_type_costs_exactly_one_header_block() {
    // The classification tells the loop to drop the 24 bytes it read
    // and resume scanning; the very next well-formed block is accepted.
    let mut bad = good_header_bytes();
    bad[14] = 0x99;
    bad[15] = 0x99;
    assert_eq!(step_header(&bad, 24), HeaderStep::Malformed(HeaderError::UnknownType));
    let good = good_header_bytes();
    match step_header(&good, 24) {
        HeaderStep::Accept(h) => assert_eq!(h.data_type, DataType::ObjectData),
        other => panic!("expected acceptance, got {:?}", other),
    }
}

#[test]
fn wrong_magic_is_not_interpreted() {
    let mut bad = good_header_bytes();
    bad[0] = 0xDE;
    assert_eq!(step_header(&bad, 24), HeaderStep::BadMagic);
}

#[test]
fn object_frame_with_empty_list() {
    // Ten payload bytes declaring zero objects decode to an empty
    // object list.
    let payload: Vec<u8> = vec![0, 0, 0, 0, 0x0A, 0, 0, 0, 0, 0];
    match decode_payload(DataType::ObjectData, &payload).unwrap() {
        DecodedFrame::Objects(p) => {
            assert_eq!(p.number_of_objects, 0);
            assert_eq!(p.scan_start_timestamp, FixedPointTime { seconds: 10, fraction: 0 });
            assert!(p.objects_vec.is_empty());
        },
        other => panic!("expected an object frame, got {:?}", other),
    }
}

#[test]
fn scan_frame_decodes_through_the_dispatcher() {
    let mut payload = vec![0u8; 44];
    payload[28] = 1; // one point declared
    payload.extend_from_slice(&[0x12, 0x01, 0x0C, 0xFE, 0xC4, 0x09, 0x11, 0x00, 0x00, 0x00]);
    match decode_payload(DataType::ScanData, &payload).unwrap() {
        DecodedFrame::Scan(p) => {
            assert_eq!(p.scan_points, 1);
            assert_eq!(p.scan_point_vec.len(), 1);
            assert_eq!(p.scan_point_vec[0].layer_and_echo, 0x12);
            assert_eq!(p.scan_point_vec[0].horizontal_angle, -500);
            assert_eq!(p.scan_point_vec[0].radial_distance, 2500);
            assert_eq!(p.scan_point_vec[0].echo_pulse_width, 17);
        },
        other => panic!("expected a scan frame, got {:?}", other),
    }
}

#[test]
fn scan_frame_shorter_than_declared_fails() {
    let mut payload = vec![0u8; 44];
    payload[28] = 2;
    payload.extend_from_slice(&[0u8; 10]); // only one of two points
    assert_eq!(decode_payload(DataType::ScanData, &payload), Err(PayloadError::Truncated));
}

#[test]
fn other_types_pass_through_opaque() {
    let payload = [0u8; 5];
    assert_eq!(
        decode_payload(DataType::Command, &payload),
        Ok(DecodedFrame::Opaque(DataType::Command, 5))
    );
    assert_eq!(
        decode_payload(DataType::SensorInfo, &[]),
        Ok(DecodedFrame::Opaque(DataType::SensorInfo, 0))
    );
}

#[test]
fn full_frame_from_a_chunked_stream() {
    // One complete frame on the wire: the known header bytes declaring
    // a 10-byte object payload, then a prefix with zero objects. The
    // payload arrives in two uneven chunks.
    let mut stream: Vec<u8> = vec![
        0xAF, 0xFE, 0xC0, 0xC2, 0x00, 0x00, 0x00, 0x00, 0x00, 0x00, 0x00, 0x0A, 0x00, 0x01, 0x22,
        0x21,
    ];
    stream.extend_from_slice(&[0, 0, 0, 0, 0, 0, 0, 0]); // timestamp
    stream.extend_from_slice(&[0, 0, 0, 0, 7, 0, 0, 0, 0, 0]); // payload
    let header = match step_header(&stream[..24], 24) {
        HeaderStep::Accept(h) => h,
        other => panic!("expected acceptance, got {:?}", other),
    };
    assert_eq!(header.size_of_message_data, 10);
    let mut reassembler = sensor_feed::reassembler::FrameReassembler::new(
        header.size_of_message_data as usize,
    );
    assert_eq!(reassembler.push_chunk(&stream[24..27]), 3);
    assert_eq!(reassembler.push_chunk(&stream[27..]), 7);
    assert!(reassembler.is_complete());
    let payload = reassembler.take_payload();
    match decode_payload(header.data_type, &payload).unwrap() {
        DecodedFrame::Objects(p) => {
            assert_eq!(p.scan_start_timestamp, FixedPointTime { seconds: 7, fraction: 0 });
            assert!(p.objects_vec.is_empty());
        },
        other => panic!("expected an object frame, got {:?}", other),
    }
}

#[test]
fn time_sync_frames_are_bit_exact() {
    let t = FixedPointTime { seconds: 0x1122_3344, fraction: 0x5566_7788 };
    let (first, second) = build_time_sync_frames(t);
    let header: Vec<u8> = vec![
        0xAF, 0xFE, 0xC0, 0xC2, // magic
        0x00, 0x00, 0x00, 0x00, // previous messages
        0x00, 0x00, 0x00, 0x0A, // payload length 10
        0x00, 0x01, // reserved, device id
        0x20, 0x10, // Command
        0x00, 0x00, 0x00, 0x00, 0x00, 0x00, 0x00, 0x00, // zero timestamp
    ];
    let mut expected_first = header.clone();
    expected_first.extend_from_slice(&[0x30, 0, 0, 0, 0, 0, 0x44, 0x33, 0x22, 0x11]);
    assert_eq!(first, expected_first);
    let mut expected_second = header;
    expected_second.extend_from_slice(&[0x31, 0, 0, 0, 0, 0, 0x88, 0x77, 0x66, 0x55]);
    assert_eq!(second, expected_second);
}
