use pcap_flows::capture_header::{CaptureHeader, TimestampPrecision};
use pcap_flows::five_tuple::FiveTuple;
use pcap_flows::flow::extract_flows;
use pcap_flows::packet::Packet;
use pcap_flows::packet_dissection::PacketDissection;
use pcap_flows::packet_header::{PacketHeader, PacketLength, Timestamp};

/// A 54-byte Ethernet/IPv4/TCP frame: source address 1, destination 2,
/// ports 80 and 81, as a capture with swapped byte order lays them out.
fn forward_packet() -> Vec<u8> {
    let mut p: Vec<u8> = vec![0; 54];
    p[12] = 0x08;
    p[14] = 0x45;
    p[23] = 6;
    p[26] = 1;
    p[30] = 2;
    p[34] = 80;
    p[36] = 81;
    p[46] = 0x50;
    p
}

/// The same conversation in the opposite direction: source address 2,
/// destination 1, ports 81 and 80.
fn backward_packet() -> Vec<u8> {
    let mut p: Vec<u8> = vec![0; 54];
    p[12] = 0x08;
    p[14] = 0x45;
    p[23] = 6;
    p[26] = 2;
    p[30] = 1;
    p[34] = 81;
    p[36] = 80;
    p[46] = 0x50;
    p
}

fn swapped_micro_capture_header() -> CaptureHeader {
    let bytes: [u8; CaptureHeader::LENGTH] = [
        0xd4, 0xc3, 0xb2, 0xa1, 0x02, 0x00, 0x04, 0x00, 0x00, 0x00, 0x00, 0x00, 0x00, 0x00, 0x00,
        0x00, 0xff, 0xff, 0x00, 0x00, 0x01, 0x00, 0x00, 0x00,
    ];
    CaptureHeader::parse(&bytes).unwrap()
}

fn record(fraction: u32, actual_length: u32, payload: Vec<u8>) -> (PacketHeader, Packet) {
    let header = PacketHeader {
        timestamp: Timestamp(TimestampPrecision::Micro, 0, fraction),
        captured_length: PacketLength(payload.len() as u32),
        actual_length: PacketLength(actual_length),
    };
    (header, Packet::new(payload))
}

#[test]
fn three_packets_of_one_five_tuple_aggregate_to_documented_statistics() {
    let capture_header = swapped_micro_capture_header();
    let records = vec![
        record(100, 100, forward_packet()),
        record(250, 200, forward_packet()),
        record(400, 300, forward_packet()),
    ];

    let flows = extract_flows(&capture_header, &records).unwrap();

    assert_eq!(flows.len(), 1);
    let flow = flows.flow_at(0);
    assert_eq!(flow.packet_count(), 3);
    assert_eq!(flow.total_size(), 600);
    assert_eq!(flow.average_size(), 200);
    assert_eq!(flow.minimum_size(), 100);
    assert_eq!(flow.maximum_size(), 300);
    assert_eq!(flow.flow_duration(), 300);
    assert_eq!(flow.average_interarrival_time(), flow.flow_duration() / 2);
    assert_eq!(flow.minimum_interarrival_time(), 150);
    assert_eq!(flow.maximum_interarrival_time(), 150);
}

#[test]
fn records_are_ordered_by_timestamp_before_the_fold() {
    let capture_header = swapped_micro_capture_header();
    let records = vec![
        record(400, 300, forward_packet()),
        record(100, 100, forward_packet()),
        record(250, 200, forward_packet()),
    ];

    let flows = extract_flows(&capture_header, &records).unwrap();

    assert_eq!(flows.len(), 1);
    let flow = flows.flow_at(0);
    assert_eq!(flow.packet_count(), 3);
    assert_eq!(flow.flow_duration(), 300);
    let packets = flow.packets();
    assert_eq!(packets[0].size, 100);
    assert_eq!(packets[1].size, 200);
    assert_eq!(packets[2].size, 300);
    assert_eq!(packets[0].timestamp, 0);
    assert_eq!(packets[1].timestamp, 150);
    assert_eq!(packets[2].timestamp, 300);
}

#[test]
fn two_opposite_direction_handshake_packets_aggregate_to_one_flow() {
    // A whole capture, byte for byte: the global header, then two records
    // holding one TCP exchange in opposite directions between the same
    // endpoints.
    let mut capture: Vec<u8> = vec![
        0xd4, 0xc3, 0xb2, 0xa1, 0x02, 0x00, 0x04, 0x00, 0x00, 0x00, 0x00, 0x00, 0x00, 0x00, 0x00,
        0x00, 0xff, 0xff, 0x00, 0x00, 0x01, 0x00, 0x00, 0x00,
    ];
    capture.extend_from_slice(&[
        0x00, 0x00, 0x00, 0x00, 0x64, 0x00, 0x00, 0x00, 0x36, 0x00, 0x00, 0x00, 0x3c, 0x00, 0x00,
        0x00,
    ]);
    capture.extend_from_slice(&forward_packet());
    capture.extend_from_slice(&[
        0x00, 0x00, 0x00, 0x00, 0xc8, 0x00, 0x00, 0x00, 0x36, 0x00, 0x00, 0x00, 0x42, 0x00, 0x00,
        0x00,
    ]);
    capture.extend_from_slice(&backward_packet());

    let capture_header = CaptureHeader::parse(&capture[0..24]).unwrap();
    let mut records: Vec<(PacketHeader, Packet)> = Vec::new();
    let mut offset: usize = 24;
    while offset < capture.len() {
        let header = PacketHeader::parse(
            &capture[offset..offset + PacketHeader::LENGTH],
            capture_header.endianness,
            capture_header.timestamp_precision,
        );
        offset += PacketHeader::LENGTH;
        let length = header.captured_length.0 as usize;
        let payload = capture[offset..offset + length].to_vec();
        offset += length;
        records.push((header, Packet::new(payload)));
    }
    assert_eq!(records.len(), 2);

    let flows = extract_flows(&capture_header, &records).unwrap();

    assert_eq!(flows.len(), 1);
    let flow = flows.flow_at(0);
    assert_eq!(flow.packet_count(), 2);
    assert_eq!(flow.total_size(), 60 + 66);
    assert_eq!(flow.flow_duration(), 100);
    assert_eq!(flow.average_interarrival_time(), 100);
    let packets = flow.packets();
    assert!(packets[0].from_initiator_to_respondent);
    assert!(!packets[1].from_initiator_to_respondent);

    let dissection = PacketDissection::from_packet(
        &records[0].1,
        capture_header.endianness,
        capture_header.link_layer_type,
    )
    .unwrap();
    assert_eq!(flows.key_at(0), FiveTuple::from_packet_dissection(&dissection));
}

#[test]
fn packets_of_different_five_tuples_build_separate_flows_in_first_seen_order() {
    let capture_header = swapped_micro_capture_header();
    let mut other = forward_packet();
    other[30] = 9; // a different destination address
    let records = vec![
        record(100, 100, forward_packet()),
        record(150, 400, other),
        record(200, 200, backward_packet()),
    ];

    let flows = extract_flows(&capture_header, &records).unwrap();

    assert_eq!(flows.len(), 2);
    assert_eq!(flows.flow_at(0).packet_count(), 2);
    assert_eq!(flows.flow_at(1).packet_count(), 1);
    assert_eq!(flows.flow_at(1).total_size(), 400);
    assert_eq!(flows.flow_at(1).average_interarrival_time(), 0);
}

#[test]
fn dissection_failure_of_any_record_aborts_the_run_with_its_error() {
    let capture_header = swapped_micro_capture_header();
    let records = vec![
        record(100, 100, forward_packet()),
        record(200, 200, vec![0; 5]),
    ];

    let result = extract_flows(&capture_header, &records);

    assert!(result.is_err());
}
