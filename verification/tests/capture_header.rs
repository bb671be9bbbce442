use pcap_flows::capture_header::{
    CaptureHeader, FrameCyclicSequence, MaximumPacketLength, TimestampPrecision, Version,
    MAGIC_NUMBER_IDENTICAL_MICRO, MAGIC_NUMBER_IDENTICAL_NANO, MAGIC_NUMBER_SWAPPED_MICRO,
    MAGIC_NUMBER_SWAPPED_NANO,
};
use pcap_flows::endianness_aware_cursor::Endianness;
use pcap_flows::error::Error;
use pcap_flows::packet_layer::LinkLayerType;

#[test]
fn capture_header_parsing_capture_header_with_swapped_endianness_microsecond_timestamp_magic_number_succeeds(
) {
    let pcap_byte_array: [u8; CaptureHeader::LENGTH] = [
        0xd4, 0xc3, 0xb2, 0xa1, 0x00, 0x00, 0x00, 0x00, 0x00, 0x00, 0x00, 0x00, 0x00, 0x00, 0x00,
        0x00, 0x00, 0x00, 0x00, 0x00, 0x01, 0x00, 0x00, 0x00,
    ];

    let header = CaptureHeader::parse(&pcap_byte_array).unwrap();

    assert_eq!(header.endianness, Endianness::Swapped);
    assert_eq!(header.timestamp_precision, TimestampPrecision::Micro);
}

#[test]
fn capture_header_parsing_capture_header_with_identical_endianness_microsecond_timestamp_magic_number_succeeds(
) {
    let pcap_byte_array: [u8; CaptureHeader::LENGTH] = [
        0xa1, 0xb2, 0xc3, 0xd4, 0x00, 0x00, 0x00, 0x00, 0x00, 0x00, 0x00, 0x00, 0x00, 0x00, 0x00,
        0x00, 0x00, 0x00, 0x00, 0x00, 0x00, 0x00, 0x00, 0x01,
    ];

    let header = CaptureHeader::parse(&pcap_byte_array).unwrap();

    assert_eq!(header.endianness, Endianness::Identical);
    assert_eq!(header.timestamp_precision, TimestampPrecision::Micro);
}

#[test]
fn capture_header_parsing_capture_header_with_swapped_endianness_nanosecond_timestamp_magic_number_succeeds(
) {
    let pcap_byte_array: [u8; CaptureHeader::LENGTH] = [
        0x4d, 0x3c, 0xb2, 0xa1, 0x00, 0x00, 0x00, 0x00, 0x00, 0x00, 0x00, 0x00, 0x00, 0x00, 0x00,
        0x00, 0x00, 0x00, 0x00, 0x00, 0x01, 0x00, 0x00, 0x00,
    ];

    let header = CaptureHeader::parse(&pcap_byte_array).unwrap();

    assert_eq!(header.endianness, Endianness::Swapped);
    assert_eq!(header.timestamp_precision, TimestampPrecision::Nano);
}

#[test]
fn capture_header_parsing_capture_header_with_identical_endianness_nanosecond_timestamp_magic_number_succeeds(
) {
    let pcap_byte_array: [u8; CaptureHeader::LENGTH] = [
        0xa1, 0xb2, 0x3c, 0x4d, 0x00, 0x00, 0x00, 0x00, 0x00, 0x00, 0x00, 0x00, 0x00, 0x00, 0x00,
        0x00, 0x00, 0x00, 0x00, 0x00, 0x00, 0x00, 0x00, 0x01,
    ];

    let header = CaptureHeader::parse(&pcap_byte_array).unwrap();

    assert_eq!(header.endianness, Endianness::Identical);
    assert_eq!(header.timestamp_precision, TimestampPrecision::Nano);
}

#[test]
fn capture_header_parsing_capture_header_with_garbage_magic_number_fails() {
    let pcap_byte_array: [u8; CaptureHeader::LENGTH] = [
        0x00, 0x00, 0x00, 0x00, 0x00, 0x00, 0x00, 0x00, 0x00, 0x00, 0x00, 0x00, 0x00, 0x00, 0x00,
        0x00, 0x00, 0x00, 0x00, 0x00, 0x00, 0x00, 0x00, 0x01,
    ];

    let result = CaptureHeader::parse(&pcap_byte_array);

    assert!(result.is_err());
}

#[test]
fn capture_header_parsing_version_succeeds() {
    let pcap_byte_array: [u8; CaptureHeader::LENGTH] = [
        0xd4, 0xc3, 0xb2, 0xa1, 0x02, 0x00, 0x04, 0x00, 0x00, 0x00, 0x00, 0x00, 0x00, 0x00, 0x00,
        0x00, 0x00, 0x00, 0x00, 0x00, 0x01, 0x00, 0x00, 0x00,
    ];

    let header = CaptureHeader::parse(&pcap_byte_array).unwrap();

    assert_eq!(header.version, Version(2, 4));
}

#[test]
fn capture_header_parsing_maximum_packet_length_succeeds() {
    let pcap_byte_array: [u8; CaptureHeader::LENGTH] = [
        0xd4, 0xc3, 0xb2, 0xa1, 0x00, 0x00, 0x00, 0x00, 0x00, 0x00, 0x00, 0x00, 0x00, 0x00, 0x00,
        0x00, 0x00, 0x00, 0x04, 0x00, 0x01, 0x00, 0x00, 0x00,
    ];

    let header = CaptureHeader::parse(&pcap_byte_array).unwrap();

    assert_eq!(header.maximum_packet_length, MaximumPacketLength(262_144));
}

#[test]
fn capture_header_parsing_frame_cyclic_sequence_succeeds() {
    let pcap_byte_array: [u8; CaptureHeader::LENGTH] = [
        0xd4, 0xc3, 0xb2, 0xa1, 0x00, 0x00, 0x00, 0x00, 0x00, 0x00, 0x00, 0x00, 0x00, 0x00, 0x00,
        0x00, 0x00, 0x00, 0x00, 0x00, 0x01, 0x00, 0x00, 0xF0,
    ];

    let header = CaptureHeader::parse(&pcap_byte_array).unwrap();

    assert_eq!(header.frame_cyclic_sequence, Some(FrameCyclicSequence(7)));
}

#[test]
fn capture_header_parsing_link_layer_type_succeeds() {
    let pcap_byte_array: [u8; CaptureHeader::LENGTH] = [
        0xd4, 0xc3, 0xb2, 0xa1, 0x00, 0x00, 0x00, 0x00, 0x00, 0x00, 0x00, 0x00, 0x00, 0x00, 0x00,
        0x00, 0x00, 0x00, 0x00, 0x00, 0x01, 0x00, 0x00, 0xF0,
    ];

    let header = CaptureHeader::parse(&pcap_byte_array).unwrap();

    assert_eq!(header.link_layer_type, LinkLayerType::En10Mb);
}

#[test]
fn capture_header_parsing_capture_header_with_garbage_link_layer_type_fails() {
    let pcap_byte_array: [u8; CaptureHeader::LENGTH] = [
        0xd4, 0xc3, 0xb2, 0xa1, 0x00, 0x00, 0x00, 0x00, 0x00, 0x00, 0x00, 0x00, 0x00, 0x00, 0x00,
        0x00, 0x00, 0x00, 0x00, 0x00, 0x00, 0x00, 0x00, 0xF0,
    ];

    let result = CaptureHeader::parse(&pcap_byte_array);

    assert!(result.is_err());
}

#[test]
fn capture_header_composing_capture_header_with_identical_endianness_and_microsecond_timestamp_precision_succeeds(
) {
    let header = CaptureHeader {
        endianness: Endianness::Identical,
        timestamp_precision: TimestampPrecision::Micro,
        version: Version(0, 0),
        maximum_packet_length: MaximumPacketLength(0),
        frame_cyclic_sequence: None,
        link_layer_type: LinkLayerType::En10Mb,
    };

    let buffer = header.compose();

    assert_eq!(
        buffer.as_slice().split_at(4).0,
        MAGIC_NUMBER_IDENTICAL_MICRO.to_be_bytes(),
    );
}

#[test]
fn capture_header_composing_capture_header_with_swapped_endianness_and_microsecond_timestamp_precision_succeeds(
) {
    let header = CaptureHeader {
        endianness: Endianness::Swapped,
        timestamp_precision: TimestampPrecision::Micro,
        version: Version(0, 0),
        maximum_packet_length: MaximumPacketLength(0),
        frame_cyclic_sequence: None,
        link_layer_type: LinkLayerType::En10Mb,
    };

    let buffer = header.compose();

    assert_eq!(
        buffer.as_slice().split_at(4).0,
        MAGIC_NUMBER_SWAPPED_MICRO.to_le_bytes(),
    );
}

#[test]
fn capture_header_composing_capture_header_with_identical_endianness_and_nanosecond_timestamp_precision_succeeds(
) {
    let header = CaptureHeader {
        endianness: Endianness::Identical,
        timestamp_precision: TimestampPrecision::Nano,
        version: Version(0, 0),
        maximum_packet_length: MaximumPacketLength(0),
        frame_cyclic_sequence: None,
        link_layer_type: LinkLayerType::En10Mb,
    };

    let buffer = header.compose();

    assert_eq!(
        buffer.as_slice().split_at(4).0,
        MAGIC_NUMBER_IDENTICAL_NANO.to_be_bytes(),
    );
}

#[test]
fn capture_header_composing_capture_header_with_swapped_endianness_and_nanosecond_timestamp_precision_succeeds(
) {
    let header = CaptureHeader {
        endianness: Endianness::Swapped,
        timestamp_precision: TimestampPrecision::Nano,
        version: Version(0, 0),
        maximum_packet_length: MaximumPacketLength(0),
        frame_cyclic_sequence: None,
        link_layer_type: LinkLayerType::En10Mb,
    };

    let buffer = header.compose();

    assert_eq!(
        buffer.as_slice().split_at(4).0,
        MAGIC_NUMBER_SWAPPED_NANO.to_le_bytes(),
    );
}

#[test]
fn capture_header_composing_version_succeeds() {
    let header = CaptureHeader {
        endianness: Endianness::Swapped,
        timestamp_precision: TimestampPrecision::Nano,
        version: Version(2, 6),
        maximum_packet_length: MaximumPacketLength(0),
        frame_cyclic_sequence: None,
        link_layer_type: LinkLayerType::En10Mb,
    };

    let buffer = header.compose();

    assert_eq!(
        buffer.as_slice().split_at(4).1.split_at(4).0,
        [0x00, 0x02, 0x00, 0x06]
    );
}

#[test]
fn capture_header_composing_maximum_packet_length_succeeds() {
    let header = CaptureHeader {
        endianness: Endianness::Swapped,
        timestamp_precision: TimestampPrecision::Nano,
        version: Version(0, 0),
        maximum_packet_length: MaximumPacketLength(262_144),
        frame_cyclic_sequence: None,
        link_layer_type: LinkLayerType::En10Mb,
    };

    let buffer = header.compose();

    assert_eq!(
        buffer.as_slice().split_at(16).1.split_at(4).0,
        [0x00, 0x04, 0x00, 0x00]
    );
}

#[test]
fn capture_header_composing_capture_header_with_frame_cyclic_sequence_succeeds() {
    let header = CaptureHeader {
        endianness: Endianness::Swapped,
        timestamp_precision: TimestampPrecision::Nano,
        version: Version(0, 0),
        maximum_packet_length: MaximumPacketLength(0),
        frame_cyclic_sequence: Some(FrameCyclicSequence(7)),
        link_layer_type: LinkLayerType::En10Mb,
    };

    let buffer = header.compose();

    assert_eq!(buffer.as_slice().split_at(20).1, [0xF0, 0x00, 0x00, 0x01]);
}

#[test]
fn capture_header_composing_capture_header_without_frame_cyclic_sequence_succeeds() {
    let header = CaptureHeader {
        endianness: Endianness::Swapped,
        timestamp_precision: TimestampPrecision::Nano,
        version: Version(0, 0),
        maximum_packet_length: MaximumPacketLength(0),
        frame_cyclic_sequence: None,
        link_layer_type: LinkLayerType::En10Mb,
    };

    let buffer = header.compose();

    assert_eq!(buffer.as_slice().split_at(20).1, [0x00, 0x00, 0x00, 0x01]);
}

#[test]
fn parsing_garbage_magic_number_reports_its_value() {
    let mut bytes: [u8; CaptureHeader::LENGTH] = [0; CaptureHeader::LENGTH];
    bytes[0] = 0x12;
    bytes[1] = 0x34;
    bytes[2] = 0x56;
    bytes[3] = 0x78;

    let result = CaptureHeader::parse(&bytes);

    assert_eq!(result, Err(Error::UnknownMagicNumber(0x12345678)));
}

#[test]
fn parsing_garbage_link_layer_type_reports_its_value() {
    let pcap_byte_array: [u8; CaptureHeader::LENGTH] = [
        0xd4, 0xc3, 0xb2, 0xa1, 0x00, 0x00, 0x00, 0x00, 0x00, 0x00, 0x00, 0x00, 0x00, 0x00, 0x00,
        0x00, 0x00, 0x00, 0x00, 0x00, 0x07, 0x00, 0x00, 0x00,
    ];

    let result = CaptureHeader::parse(&pcap_byte_array);

    assert_eq!(result, Err(Error::UnknownLinkLayerType(7)));
}

#[test]
fn parsing_clear_frame_cyclic_sequence_flag_ignores_its_length_bits() {
    let pcap_byte_array: [u8; CaptureHeader::LENGTH] = [
        0xd4, 0xc3, 0xb2, 0xa1, 0x00, 0x00, 0x00, 0x00, 0x00, 0x00, 0x00, 0x00, 0x00, 0x00, 0x00,
        0x00, 0x00, 0x00, 0x00, 0x00, 0x01, 0x00, 0x00, 0xE0,
    ];

    let header = CaptureHeader::parse(&pcap_byte_array).unwrap();

    assert_eq!(header.frame_cyclic_sequence, None);
}

#[test]
fn capture_header_round_trip_normalizes_byte_order_to_native() {
    let header = CaptureHeader {
        endianness: Endianness::Swapped,
        timestamp_precision: TimestampPrecision::Nano,
        version: Version(2, 4),
        maximum_packet_length: MaximumPacketLength(65_535),
        frame_cyclic_sequence: Some(FrameCyclicSequence(5)),
        link_layer_type: LinkLayerType::En10Mb,
    };

    let reparsed = CaptureHeader::parse(&header.compose()).unwrap();

    assert_eq!(reparsed.endianness, Endianness::Identical);
    assert_eq!(reparsed.timestamp_precision, header.timestamp_precision);
    assert_eq!(reparsed.version, header.version);
    assert_eq!(reparsed.maximum_packet_length, header.maximum_packet_length);
    assert_eq!(reparsed.frame_cyclic_sequence, header.frame_cyclic_sequence);
    assert_eq!(reparsed.link_layer_type, header.link_layer_type);
}
