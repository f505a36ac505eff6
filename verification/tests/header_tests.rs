use sensor_feed::data_type::DataType;
use sensor_feed::errors::HeaderError;
use sensor_feed::fixed_time::FixedPointTime;
use sensor_feed::header::FrameHeader;

fn sample_header() -> FrameHeader {
    FrameHeader {
        magic_word: 0xAFFE_C0C2,
        size_of_previous_messages: 1234,
        size_of_message_data: 56,
        reserved: 0xAB,
        device_id: 7,
        data_type: DataType::ScanData,
        timestamp: FixedPointTime { seconds: 0x0102_0304, fraction: 0x0506_0708 },
    }
}

#[test]
fn encode_is_24_big_endian_bytes() {
    let bytes = sample_header().encode();
    let expected: Vec<u8> = vec![
        0xAF, 0xFE, 0xC0, 0xC2, // magic
        0x00, 0x00, 0x04, 0xD2, // 1234
        0x00, 0x00, 0x00, 0x38, // 56
        0xAB, 0x07, // reserved, device id
        0x22, 0x02, // ScanData
        0x01, 0x02, 0x03, 0x04, // seconds
        0x05, 0x06, 0x07, 0x08, // fraction
    ];
    assert_eq!(bytes, expected);
}

#[test]
fn round_trip_scan_header() {
    let h = sample_header();
    let decoded = FrameHeader::decode(&h.encode()).unwrap();
    assert_eq!(decoded, h);
}

#[test]
fn round_trip_every_data_type() {
    let tags = [
        DataType::Command,
        DataType::CommandReply,
        DataType::Error,
        DataType::ScanData,
        DataType::ObjectData,
        DataType::MovementData,
        DataType::EgoMotionData,
        DataType::SensorInfo,
    ];
    for tag in tags {
        let mut h = sample_header();
        h.data_type = tag;
        assert_eq!(FrameHeader::decode(&h.encode()).unwrap(), h);
    }
}

#[test]
fn decode_known_object_header_bytes() {
    let mut bytes: Vec<u8> = vec![
        0xAF, 0xFE, 0xC0, 0xC2, // magic
        0x00, 0x00, 0x00, 0x00, // previous messages
        0x00, 0x00, 0x00, 0x0A, // payload length 10
        0x00, 0x01, // reserved, device id
        0x22, 0x21, // ObjectData
    ];
    bytes.extend_from_slice(&[0x00, 0x00, 0x00, 0x02, 0x80, 0x00, 0x00, 0x00]);
    let h = FrameHeader::decode(&bytes).unwrap();
    assert_eq!(h.magic_word, 0xAFFE_C0C2);
    assert_eq!(h.size_of_previous_messages, 0);
    assert_eq!(h.size_of_message_data, 10);
    assert_eq!(h.reserved, 0);
    assert_eq!(h.device_id, 1);
    assert_eq!(h.data_type, DataType::ObjectData);
    assert_eq!(h.timestamp, FixedPointTime { seconds: 2, fraction: 0x8000_0000 });
}

#[test]
fn decode_unknown_type_code_fails() {
    let mut bytes = sample_header().encode();
    bytes[14] = 0x99;
    bytes[15] = 0x99;
    assert_eq!(FrameHeader::decode(&bytes), Err(HeaderError::UnknownType));
}

#[test]
fn decode_short_block_fails() {
    let bytes = sample_header().encode();
    assert_eq!(FrameHeader::decode(&bytes[..23]), Err(HeaderError::Truncated));
    assert_eq!(FrameHeader::decode(&[]), Err(HeaderError::Truncated));
}

#[test]
fn data_type_codes_round_trip() {
    assert_eq!(DataType::from_u16(0x2202), Some(DataType::ScanData));
    assert_eq!(DataType::from_u16(0x2221), Some(DataType::ObjectData));
    assert_eq!(DataType::from_u16(0x9999), None);
    assert_eq!(DataType::ObjectData.to_u16(), 0x2221);
    assert_eq!(DataType::from_u64(0x2805), Some(DataType::MovementData));
    assert_eq!(DataType::from_u64(0x1_0000), None);
    assert_eq!(DataType::from_i64(0x7100), Some(DataType::SensorInfo));
    assert_eq!(DataType::from_i64(-1), None);
    assert_eq!(DataType::Command.to_u64(), Some(0x2010));
    assert_eq!(DataType::Error.to_i64(), Some(0x2030));
}
