use pcap_flows::five_tuple::FiveTuple;
use pcap_flows::packet_dissection::{LinkLayer, NetworkLayer, PacketDissection, TransportLayer};
use pcap_flows::packet_layer::{ApplicationLayerType, NetworkLayerType, TransportLayerType};

fn ipv4_tcp_dissection(
    source: u32,
    destination: u32,
    source_port: u16,
    destination_port: u16,
) -> PacketDissection {
    PacketDissection {
        link_layer: LinkLayer::Ethernet(NetworkLayerType::IPv4),
        network_layer: NetworkLayer::IPv4(source, destination, TransportLayerType::Tcp),
        transport_layer: TransportLayer::Tcp(
            source_port,
            destination_port,
            ApplicationLayerType::OctetArray,
        ),
    }
}

fn ipv6_udp_dissection(
    source: u128,
    destination: u128,
    source_port: u16,
    destination_port: u16,
) -> PacketDissection {
    PacketDissection {
        link_layer: LinkLayer::Ethernet(NetworkLayerType::IPv6),
        network_layer: NetworkLayer::IPv6(source, destination, TransportLayerType::Udp),
        transport_layer: TransportLayer::Udp(
            source_port,
            destination_port,
            ApplicationLayerType::OctetArray,
        ),
    }
}

#[test]
fn mirrored_ipv4_tcp_dissections_share_one_key() {
    let forward = FiveTuple::from_packet_dissection(&ipv4_tcp_dissection(10, 20, 1000, 2000));
    let backward = FiveTuple::from_packet_dissection(&ipv4_tcp_dissection(20, 10, 2000, 1000));

    assert_eq!(forward, backward);
}

#[test]
fn mirrored_ipv6_udp_dissections_share_one_key() {
    let forward = FiveTuple::from_packet_dissection(&ipv6_udp_dissection(300, 7, 53, 40_000));
    let backward = FiveTuple::from_packet_dissection(&ipv6_udp_dissection(7, 300, 40_000, 53));

    assert_eq!(forward, backward);
}

#[test]
fn key_pairs_each_port_with_the_address_it_traveled_with() {
    let key = FiveTuple::from_packet_dissection(&ipv4_tcp_dissection(20, 10, 1000, 2000));

    assert_eq!(key.lower_address, 10);
    assert_eq!(key.lower_port, 2000);
    assert_eq!(key.higher_address, 20);
    assert_eq!(key.higher_port, 1000);
    assert!(!key.is_v6);
    assert!(key.is_tcp);
}

#[test]
fn mirrored_dissections_with_equal_addresses_share_one_key() {
    let forward = FiveTuple::from_packet_dissection(&ipv4_tcp_dissection(7, 7, 1000, 2000));
    let backward = FiveTuple::from_packet_dissection(&ipv4_tcp_dissection(7, 7, 2000, 1000));

    assert_eq!(forward, backward);
    assert_eq!(forward.lower_port, 1000);
    assert_eq!(forward.higher_port, 2000);
}

#[test]
fn differing_protocols_give_differing_keys() {
    let tcp = FiveTuple::from_packet_dissection(&ipv4_tcp_dissection(10, 20, 1000, 2000));
    let udp = FiveTuple::from_packet_dissection(&ipv6_udp_dissection(10, 20, 1000, 2000));

    assert!(tcp != udp);
}

#[test]
fn as_base64_encodes_the_canonical_byte_form() {
    let key = FiveTuple::from_packet_dissection(&ipv4_tcp_dissection(1, 2, 80, 81));

    assert_eq!(
        key.as_base64(),
        "AQAAAAAAAAAAAAAAAAAAAAIAAAAAAAAAAAAAAAAAAABQAFEAAAE="
    );
}
