use pcap_flows::capture_header::TimestampPrecision;
use pcap_flows::endianness_aware_cursor::Endianness;
use pcap_flows::packet_header::{PacketHeader, PacketLength, Timestamp};

#[test]
fn packet_header_parsing_packet_header_succeeds() {
    let pcap_byte_array: [u8; PacketHeader::LENGTH] = [
        0xd3, 0xf6, 0xeb, 0x5c, 0x64, 0x10, 0x01, 0x00, 0x34, 0x00, 0x00, 0x00, 0x34, 0x00, 0x00,
        0x00,
    ];

    let packet_header = PacketHeader::parse(
        &pcap_byte_array,
        Endianness::Swapped,
        TimestampPrecision::Micro,
    );

    assert_eq!(
        packet_header.timestamp,
        Timestamp(TimestampPrecision::Micro, 1_558_968_019, 69_732)
    );
    assert_eq!(packet_header.actual_length, PacketLength(52));
    assert_eq!(packet_header.captured_length, PacketLength(52));
}

#[test]
fn packet_header_composing_packet_header_succeeds() {
    let header = PacketHeader {
        timestamp: Timestamp(TimestampPrecision::Micro, 12345, 67890),
        captured_length: PacketLength(262_144),
        actual_length: PacketLength(262_144),
    };

    let buffer = header.compose(Endianness::Identical);

    assert_eq!(buffer.split_at(4).0, 12345u32.to_be_bytes());
    assert_eq!(buffer.split_at(4).1.split_at(4).0, 67890u32.to_be_bytes());
    assert_eq!(buffer.split_at(8).1.split_at(4).0, 262_144u32.to_be_bytes());
    assert_eq!(buffer.split_at(12).1, 262_144u32.to_be_bytes());
}

#[test]
fn packet_header_round_trips_under_the_same_selector() {
    let header = PacketHeader {
        timestamp: Timestamp(TimestampPrecision::Nano, 1_700_000_000, 999_999_999),
        captured_length: PacketLength(60),
        actual_length: PacketLength(1_514),
    };

    for endianness in [Endianness::Identical, Endianness::Swapped] {
        let composed = header.compose(endianness);
        let reparsed = PacketHeader::parse(&composed, endianness, TimestampPrecision::Nano);
        assert_eq!(reparsed, header);
    }
}

#[test]
fn nanos_is_seconds_times_precision_multiplier_plus_fraction() {
    let micro = Timestamp(TimestampPrecision::Micro, 3, 250_000);
    let nano = Timestamp(TimestampPrecision::Nano, 3, 250_000);

    assert_eq!(micro.nanos(), 3_250_000);
    assert_eq!(nano.nanos(), 3_000_250_000);
}
