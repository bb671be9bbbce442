use vstd::prelude::*;

use crate::endianness_aware_cursor::{
    be_u16_at, read_u128_at, read_u16_at, read_u32_at, Endianness,
    ReadOnlyEndiannessAwareCursor,
};
use crate::error::Error;
use crate::packet::Packet;
use crate::packet_layer::{
    ApplicationLayerType, LinkLayerType, NetworkLayerType, TransportLayerType,
};

verus! {

/// The link layer of a dissected frame, with the network-layer type it
/// resolved.
#[derive(Copy, Clone, Eq, PartialEq, Ord, PartialOrd, Hash, Debug, Structural)]
pub enum LinkLayer {
    Ethernet(NetworkLayerType),
}

/// The network layer of a dissected frame: source address, destination
/// address (raw integer form of the address family) and the transport-layer
/// type it resolved.
#[derive(Copy, Clone, Eq, PartialEq, Ord, PartialOrd, Hash, Debug, Structural)]
pub enum NetworkLayer {
    IPv4(u32, u32, TransportLayerType),
    IPv6(u128, u128, TransportLayerType),
}

/// The transport layer of a dissected frame: source port, destination port
/// and the application-layer tag (always an opaque octet array).
#[derive(Copy, Clone, Eq, PartialEq, Ord, PartialOrd, Hash, Debug, Structural)]
pub enum TransportLayer {
    Udp(u16, u16, ApplicationLayerType),
    Tcp(u16, u16, ApplicationLayerType),
}

/// One endpoint of a dissected conversation: address family, raw address,
/// and transport port.
#[derive(Copy, Clone, Eq, PartialEq, Ord, PartialOrd, Hash, Debug, Structural)]
pub struct SocketAddress {
    pub is_v6: bool,
    pub address: u128,
    pub port: u16,
}

/// The layered parse result of one captured frame, produced top-down:
/// link, then network, then transport.
#[derive(Copy, Clone, Eq, PartialEq, Ord, PartialOrd, Hash, Debug, Structural)]
pub struct PacketDissection {
    pub link_layer: LinkLayer,
    pub network_layer: NetworkLayer,
    pub transport_layer: TransportLayer,
}

impl LinkLayer {
    /// The network-layer type this link layer resolved.
    pub open spec fn network_layer_type_spec(self) -> NetworkLayerType {
        match self {
            LinkLayer::Ethernet(next) => next,
        }
    }

    /// What parsing an Ethernet link layer at `pos` yields: 12 bytes of MAC
    /// addresses are skipped, then a 16-bit ethertype selects the network
    /// layer. Like the capture's magic number, the ethertype is matched as
    /// fixed wire bytes (big-endian), independent of the capture's
    /// byte-order selector: 0x0800 means IPv4 and 0x86DD means IPv6;
    /// anything else fails with `UnknownNetworkLayerType`.
    pub open spec fn parse_spec(b: Seq<u8>, pos: int) -> Result<(LinkLayer, int), Error> {
        if pos + 14 > b.len() {
            Err(Error::MalformedPacket)
        } else {
            let ethertype = be_u16_at(b, pos + 12);
            if ethertype == 0x0800 {
                Ok((LinkLayer::Ethernet(NetworkLayerType::IPv4), pos + 14))
            } else if ethertype == 0x86DD {
                Ok((LinkLayer::Ethernet(NetworkLayerType::IPv6), pos + 14))
            } else {
                Err(Error::UnknownNetworkLayerType(ethertype))
            }
        }
    }

    /// Parses the link layer at the cursor's position, leaving the cursor at
    /// the start of the network layer on success.
    pub fn parse(cursor: &mut ReadOnlyEndiannessAwareCursor, link_layer_type: LinkLayerType) -> (r:
        Result<Self, Error>)
        requires
            old(cursor).wf(),
        ensures
            final(cursor).wf(),
            final(cursor).bytes() == old(cursor).bytes(),
            final(cursor).order() == old(cursor).order(),
            match Self::parse_spec(old(cursor).bytes(), old(cursor).pos()) {
                Ok((layer, end)) => r == Ok::<LinkLayer, Error>(layer) && final(cursor).pos()
                    == end,
                Err(err) => r == Err::<LinkLayer, Error>(err),
            },
    {
        match link_layer_type {
            LinkLayerType::En10Mb => {
                if cursor.remaining_len() < 14 {
                    return Err(Error::MalformedPacket);
                }
                cursor.advance(12);
                let high: u8 = cursor.get_u8();
                let low: u8 = cursor.get_u8();
                let ethertype: u16 = (high as u16) * 0x100 + (low as u16);
                if ethertype == 0x0800 {
                    Ok(LinkLayer::Ethernet(NetworkLayerType::IPv4))
                } else if ethertype == 0x86DD {
                    Ok(LinkLayer::Ethernet(NetworkLayerType::IPv6))
                } else {
                    Err(Error::UnknownNetworkLayerType(ethertype))
                }
            },
        }
    }

    pub fn get_network_layer_type(&self) -> (r: NetworkLayerType)
        ensures
            r == self.network_layer_type_spec(),
    {
        match self {
            Self::Ethernet(next) => *next,
        }
    }
}

/// Whether a next-header code names one of the IPv6 extension headers that
/// the dissector walks through: hop-by-hop (0), routing (43), fragment
/// (44), authentication (51) or destination options (60).
pub open spec fn is_extension_header(code: u8) -> bool {
    code == 0 || code == 43 || code == 44 || code == 51 || code == 60
}

/// Bytes skipped after an authentication header's length byte: the length
/// byte minus 2, wrapping below zero as an unsigned byte does.
pub open spec fn authentication_advance(length: u8) -> int {
    if length >= 2 {
        length - 2
    } else {
        length + 254
    }
}

/// Bytes skipped after a destination-options header's length byte: the
/// length byte plus 6, wrapping as an unsigned byte does.
pub open spec fn destination_options_advance(length: u8) -> int {
    (length + 6) % 256
}

impl NetworkLayer {
    /// The transport-layer type this network layer resolved.
    pub open spec fn transport_layer_type_spec(self) -> TransportLayerType {
        match self {
            NetworkLayer::IPv4(_, _, next) => next,
            NetworkLayer::IPv6(_, _, next) => next,
        }
    }

    /// What parsing an IPv4 header at `pos` yields: the header-length
    /// nibble, in 32-bit words, fixes the header's extent — below the
    /// 20-byte minimum the packet is malformed — the protocol byte selects
    /// TCP (6) or UDP (17) — anything else fails with
    /// `UnknownTransportLayerType` — and the two 4-byte addresses follow
    /// the checksum, with any option bytes skipped after them.
    pub open spec fn parse_ipv4_spec(b: Seq<u8>, pos: int, e: Endianness) -> Result<
        (NetworkLayer, int),
        Error,
    > {
        if pos + 10 > b.len() {
            Err(Error::MalformedPacket)
        } else {
            let header_length = (b[pos] % 16) * 4;
            if header_length < 20 {
                Err(Error::MalformedPacket)
            } else {
                let protocol_code = b[pos + 9];
                if protocol_code != 6 && protocol_code != 17 {
                    Err(Error::UnknownTransportLayerType(protocol_code))
                } else if pos + header_length > b.len() {
                    Err(Error::MalformedPacket)
                } else {
                    let protocol = if protocol_code == 6 {
                        TransportLayerType::Tcp
                    } else {
                        TransportLayerType::Udp
                    };
                    Ok(
                        (
                            NetworkLayer::IPv4(
                                read_u32_at(e, b, pos + 12),
                                read_u32_at(e, b, pos + 16),
                                protocol,
                            ),
                            pos + header_length,
                        ),
                    )
                }
            }
        }
    }

    /// What walking the chain of IPv6 extension headers from `pos` yields:
    /// while the current next-header code names an extension header, its
    /// own next-header byte is read and a type-dependent number of bytes is
    /// skipped; the first code that is no extension header is returned with
    /// the position of the header it describes.
    pub open spec fn walk_extension_headers_spec(b: Seq<u8>, pos: int, next_header: u8) -> Result<
        (u8, int),
        Error,
    >
        decreases b.len() - pos,
    {
        if !is_extension_header(next_header) {
            Ok((next_header, pos))
        } else if pos + 1 > b.len() {
            Err(Error::MalformedPacket)
        } else {
            let new_next_header = b[pos];
            if next_header == 0 || next_header == 43 {
                if pos + 16 > b.len() {
                    Err(Error::MalformedPacket)
                } else {
                    Self::walk_extension_headers_spec(b, pos + 16, new_next_header)
                }
            } else if next_header == 44 {
                if pos + 8 > b.len() {
                    Err(Error::MalformedPacket)
                } else {
                    Self::walk_extension_headers_spec(b, pos + 8, new_next_header)
                }
            } else if next_header == 51 {
                if pos + 2 > b.len() {
                    Err(Error::MalformedPacket)
                } else {
                    let advancement = authentication_advance(b[pos + 1]);
                    if pos + 2 + advancement > b.len() {
                        Err(Error::MalformedPacket)
                    } else {
                        Self::walk_extension_headers_spec(b, pos + 2 + advancement, new_next_header)
                    }
                }
            } else {
                if pos + 2 > b.len() {
                    Err(Error::MalformedPacket)
                } else {
                    let advancement = destination_options_advance(b[pos + 1]);
                    if pos + 2 + advancement > b.len() {
                        Err(Error::MalformedPacket)
                    } else {
                        Self::walk_extension_headers_spec(b, pos + 2 + advancement, new_next_header)
                    }
                }
            }
        }
    }

    /// What parsing an IPv6 header at `pos` yields: the fixed 40-byte
    /// header holds the first next-header code and the two 16-byte
    /// addresses; the extension-header walk then resolves the transport
    /// protocol, TCP (6) or UDP (17) — anything else fails with
    /// `UnknownTransportLayerType`.
    pub open spec fn parse_ipv6_spec(b: Seq<u8>, pos: int, e: Endianness) -> Result<
        (NetworkLayer, int),
        Error,
    > {
        if pos + 40 > b.len() {
            Err(Error::MalformedPacket)
        } else {
            let next_header = b[pos + 6];
            let source = read_u128_at(e, b, pos + 8);
            let destination = read_u128_at(e, b, pos + 24);
            match Self::walk_extension_headers_spec(b, pos + 40, next_header) {
                Err(err) => Err(err),
                Ok((protocol_code, end)) => if protocol_code == 6 {
                    Ok((NetworkLayer::IPv6(source, destination, TransportLayerType::Tcp), end))
                } else if protocol_code == 17 {
                    Ok((NetworkLayer::IPv6(source, destination, TransportLayerType::Udp), end))
                } else {
                    Err(Error::UnknownTransportLayerType(protocol_code))
                },
            }
        }
    }

    /// What parsing the network layer at `pos` yields, by network-layer
    /// type.
    pub open spec fn parse_spec(
        b: Seq<u8>,
        pos: int,
        e: Endianness,
        network_layer_type: NetworkLayerType,
    ) -> Result<(NetworkLayer, int), Error> {
        match network_layer_type {
            NetworkLayerType::IPv4 => Self::parse_ipv4_spec(b, pos, e),
            NetworkLayerType::IPv6 => Self::parse_ipv6_spec(b, pos, e),
        }
    }

    /// Parses the network layer at the cursor's position, leaving the
    /// cursor at the start of the transport layer on success.
    pub fn parse(
        cursor: &mut ReadOnlyEndiannessAwareCursor,
        network_layer_type: NetworkLayerType,
    ) -> (r: Result<Self, Error>)
        requires
            old(cursor).wf(),
        ensures
            final(cursor).wf(),
            final(cursor).bytes() == old(cursor).bytes(),
            final(cursor).order() == old(cursor).order(),
            match Self::parse_spec(
                old(cursor).bytes(),
                old(cursor).pos(),
                old(cursor).order(),
                network_layer_type,
            ) {
                Ok((layer, end)) => r == Ok::<NetworkLayer, Error>(layer) && final(cursor).pos()
                    == end,
                Err(err) => r == Err::<NetworkLayer, Error>(err),
            },
    {
        match network_layer_type {
            NetworkLayerType::IPv4 => {
                if cursor.remaining_len() < 10 {
                    return Err(Error::MalformedPacket);
                }
                let vihl: u8 = cursor.get_u8();
                let header_length: u8 = (vihl % 16) * 4;
                if header_length < 20 {
                    return Err(Error::MalformedPacket);
                }
                let option_length: usize = (header_length - 20) as usize;

                cursor.advance(8);
                let protocol_code: u8 = cursor.get_u8();
                let protocol: TransportLayerType = if protocol_code == 6 {
                    TransportLayerType::Tcp
                } else if protocol_code == 17 {
                    TransportLayerType::Udp
                } else {
                    return Err(Error::UnknownTransportLayerType(protocol_code));
                };

                if cursor.remaining_len() < 10 + option_length {
                    return Err(Error::MalformedPacket);
                }
                cursor.advance(2);
                let source: u32 = cursor.get_u32();
                let destination: u32 = cursor.get_u32();
                let layer = Self::IPv4(source, destination, protocol);
                cursor.advance(option_length);

                Ok(layer)
            },
            NetworkLayerType::IPv6 => {
                if cursor.remaining_len() < 40 {
                    return Err(Error::MalformedPacket);
                }
                let ghost b = cursor.bytes();
                let ghost e = cursor.order();
                let ghost start = cursor.pos();

                cursor.advance(6);
                let mut next_header: u8 = cursor.get_u8();
                cursor.advance(1);
                let source: u128 = cursor.get_u128();
                let destination: u128 = cursor.get_u128();

                let ghost first_next_header = next_header;

                while next_header == 0 || next_header == 43 || next_header == 44 || next_header
                    == 51 || next_header == 60
                    invariant
                        cursor.wf(),
                        cursor.bytes() == b,
                        cursor.order() == e,
                        b == old(cursor).bytes(),
                        e == old(cursor).order(),
                        start == old(cursor).pos(),
                        start + 40 <= b.len(),
                        network_layer_type == NetworkLayerType::IPv6,
                        first_next_header == b[start + 6],
                        source == read_u128_at(e, b, start + 8),
                        destination == read_u128_at(e, b, start + 24),
                        Self::walk_extension_headers_spec(b, start + 40, first_next_header)
                            == Self::walk_extension_headers_spec(b, cursor.pos(), next_header),
                    decreases b.len() - cursor.pos(),
                {
                    let ghost entry_pos = cursor.pos();
                    let ghost entry_next_header = next_header;
                    if cursor.remaining_len() < 1 {
                        return Err(Error::MalformedPacket);
                    }
                    let new_next_header: u8 = cursor.get_u8();
                    match next_header {
                        0 | 43 => {
                            if cursor.remaining_len() < 15 {
                                return Err(Error::MalformedPacket);
                            }
                            cursor.advance(15);
                        },
                        44 => {
                            if cursor.remaining_len() < 7 {
                                return Err(Error::MalformedPacket);
                            }
                            cursor.advance(7);
                        },
                        51 => {
                            if cursor.remaining_len() < 1 {
                                return Err(Error::MalformedPacket);
                            }
                            let length: u8 = cursor.get_u8();
                            let advancement: usize = if length >= 2 {
                                (length - 2) as usize
                            } else {
                                (length as usize) + 254
                            };
                            if cursor.remaining_len() < advancement {
                                return Err(Error::MalformedPacket);
                            }
                            cursor.advance(advancement);
                        },
                        60 => {
                            if cursor.remaining_len() < 1 {
                                return Err(Error::MalformedPacket);
                            }
                            let length: u8 = cursor.get_u8();
                            let advancement: usize = ((length as usize) + 6) % 256;
                            if cursor.remaining_len() < advancement {
                                return Err(Error::MalformedPacket);
                            }
                            cursor.advance(advancement);
                        },
                        unexpected_header => {
                            return Err(Error::UnknownIPv6AdditionalHeaderLength(
                                unexpected_header,
                            ));
                        },
                    }
                    next_header = new_next_header;
                    assert(Self::walk_extension_headers_spec(b, entry_pos, entry_next_header)
                        == Self::walk_extension_headers_spec(b, cursor.pos(), next_header));
                }

                let protocol: TransportLayerType = if next_header == 6 {
                    TransportLayerType::Tcp
                } else if next_header == 17 {
                    TransportLayerType::Udp
                } else {
                    return Err(Error::UnknownTransportLayerType(next_header));
                };

                Ok(Self::IPv6(source, destination, protocol))
            },
        }
    }

    pub fn get_transport_layer_type(&self) -> (r: TransportLayerType)
        ensures
            r == self.transport_layer_type_spec(),
    {
        match self {
            Self::IPv4(_, _, next) => *next,
            Self::IPv6(_, _, next) => *next,
        }
    }
}

impl TransportLayer {
    /// What parsing a TCP header at `pos` yields: source and destination
    /// ports, then a skip over the rest of the header as measured by the
    /// data-offset byte, in 32-bit words; a data offset below the 20-byte
    /// minimum TCP header is malformed.
    pub open spec fn parse_tcp_spec(b: Seq<u8>, pos: int, e: Endianness) -> Result<
        (TransportLayer, int),
        Error,
    > {
        if pos + 13 > b.len() {
            Err(Error::MalformedPacket)
        } else {
            let header_length = (b[pos + 12] / 16) * 4;
            if header_length < 20 {
                Err(Error::MalformedPacket)
            } else if pos + header_length > b.len() {
                Err(Error::MalformedPacket)
            } else {
                Ok(
                    (
                        TransportLayer::Tcp(
                            read_u16_at(e, b, pos),
                            read_u16_at(e, b, pos + 2),
                            ApplicationLayerType::OctetArray,
                        ),
                        pos + header_length,
                    ),
                )
            }
        }
    }

    /// What parsing a UDP header at `pos` yields: source and destination
    /// ports, then a skip over length and checksum.
    pub open spec fn parse_udp_spec(b: Seq<u8>, pos: int, e: Endianness) -> Result<
        (TransportLayer, int),
        Error,
    > {
        if pos + 8 > b.len() {
            Err(Error::MalformedPacket)
        } else {
            Ok(
                (
                    TransportLayer::Udp(
                        read_u16_at(e, b, pos),
                        read_u16_at(e, b, pos + 2),
                        ApplicationLayerType::OctetArray,
                    ),
                    pos + 8,
                ),
            )
        }
    }

    /// What parsing the transport layer at `pos` yields, by
    /// transport-layer type.
    pub open spec fn parse_spec(
        b: Seq<u8>,
        pos: int,
        e: Endianness,
        transport_layer_type: TransportLayerType,
    ) -> Result<(TransportLayer, int), Error> {
        match transport_layer_type {
            TransportLayerType::Tcp => Self::parse_tcp_spec(b, pos, e),
            TransportLayerType::Udp => Self::parse_udp_spec(b, pos, e),
        }
    }

    /// Parses the transport layer at the cursor's position.
    pub fn parse(
        cursor: &mut ReadOnlyEndiannessAwareCursor,
        transport_layer_type: TransportLayerType,
    ) -> (r: Result<Self, Error>)
        requires
            old(cursor).wf(),
        ensures
            final(cursor).wf(),
            final(cursor).bytes() == old(cursor).bytes(),
            final(cursor).order() == old(cursor).order(),
            match Self::parse_spec(
                old(cursor).bytes(),
                old(cursor).pos(),
                old(cursor).order(),
                transport_layer_type,
            ) {
                Ok((layer, end)) => r == Ok::<TransportLayer, Error>(layer) && final(cursor).pos()
                    == end,
                Err(err) => r == Err::<TransportLayer, Error>(err),
            },
    {
        match transport_layer_type {
            TransportLayerType::Tcp => {
                if cursor.remaining_len() < 13 {
                    return Err(Error::MalformedPacket);
                }
                let source: u16 = cursor.get_u16();
                let destination: u16 = cursor.get_u16();

                cursor.advance(8);
                let offset_byte: u8 = cursor.get_u8();
                let header_length: u8 = (offset_byte / 16) * 4;
                if header_length < 20 {
                    return Err(Error::MalformedPacket);
                }
                let remaining_header_length: usize = (header_length - 13) as usize;
                if cursor.remaining_len() < remaining_header_length {
                    return Err(Error::MalformedPacket);
                }
                cursor.advance(remaining_header_length);

                Ok(Self::Tcp(source, destination, ApplicationLayerType::OctetArray))
            },
            TransportLayerType::Udp => {
                if cursor.remaining_len() < 8 {
                    return Err(Error::MalformedPacket);
                }
                let source: u16 = cursor.get_u16();
                let destination: u16 = cursor.get_u16();

                cursor.advance(4);

                Ok(Self::Udp(source, destination, ApplicationLayerType::OctetArray))
            },
        }
    }
}

impl PacketDissection {
    /// What dissecting one payload yields: the link layer resolves the
    /// network layer's type, the network layer resolves the transport
    /// layer's type, and the first failure aborts the whole dissection.
    pub open spec fn dissect_spec(
        b: Seq<u8>,
        e: Endianness,
        link_layer_type: LinkLayerType,
    ) -> Result<PacketDissection, Error> {
        match LinkLayer::parse_spec(b, 0) {
            Err(err) => Err(err),
            Ok((link_layer, network_pos)) => match NetworkLayer::parse_spec(
                b,
                network_pos,
                e,
                link_layer.network_layer_type_spec(),
            ) {
                Err(err) => Err(err),
                Ok((network_layer, transport_pos)) => match TransportLayer::parse_spec(
                    b,
                    transport_pos,
                    e,
                    network_layer.transport_layer_type_spec(),
                ) {
                    Err(err) => Err(err),
                    Ok((transport_layer, _)) => Ok(
                        PacketDissection { link_layer, network_layer, transport_layer },
                    ),
                },
            },
        }
    }

    /// Dissects one captured payload under the capture's byte-order
    /// selector and link-layer type.
    pub fn from_packet(
        packet: &Packet,
        endianness: Endianness,
        link_layer_type: LinkLayerType,
    ) -> (r: Result<Self, Error>)
        ensures
            r == Self::dissect_spec(packet@, endianness, link_layer_type),
    {
        let mut cursor = ReadOnlyEndiannessAwareCursor::new(packet.as_slice(), endianness);

        let link_layer = match LinkLayer::parse(&mut cursor, link_layer_type) {
            Ok(layer) => layer,
            Err(err) => {
                return Err(err);
            },
        };
        let network_layer = match NetworkLayer::parse(
            &mut cursor,
            link_layer.get_network_layer_type(),
        ) {
            Ok(layer) => layer,
            Err(err) => {
                return Err(err);
            },
        };
        let transport_layer = match TransportLayer::parse(
            &mut cursor,
            network_layer.get_transport_layer_type(),
        ) {
            Ok(layer) => layer,
            Err(err) => {
                return Err(err);
            },
        };

        Ok(Self { link_layer, network_layer, transport_layer })
    }

    /// The direction-reversed counterpart of a dissection: source and
    /// destination addresses swapped, and the matching ports swapped.
    pub open spec fn reversed_spec(self) -> PacketDissection {
        PacketDissection {
            link_layer: self.link_layer,
            network_layer: match self.network_layer {
                NetworkLayer::IPv4(source, destination, next) => NetworkLayer::IPv4(
                    destination,
                    source,
                    next,
                ),
                NetworkLayer::IPv6(source, destination, next) => NetworkLayer::IPv6(
                    destination,
                    source,
                    next,
                ),
            },
            transport_layer: match self.transport_layer {
                TransportLayer::Tcp(source, destination, app) => TransportLayer::Tcp(
                    destination,
                    source,
                    app,
                ),
                TransportLayer::Udp(source, destination, app) => TransportLayer::Udp(
                    destination,
                    source,
                    app,
                ),
            },
        }
    }

    /// The source endpoint: the network layer's source address with the
    /// port that traveled in the transport layer's source field.
    pub open spec fn source_socket_address_spec(self) -> SocketAddress {
        let port = match self.transport_layer {
            TransportLayer::Tcp(source, _, _) => source,
            TransportLayer::Udp(source, _, _) => source,
        };
        match self.network_layer {
            NetworkLayer::IPv4(source, _, _) => SocketAddress {
                is_v6: false,
                address: source as u128,
                port,
            },
            NetworkLayer::IPv6(source, _, _) => SocketAddress {
                is_v6: true,
                address: source,
                port,
            },
        }
    }

    /// The destination endpoint: the network layer's destination address
    /// with the port that traveled in the transport layer's destination
    /// field.
    pub open spec fn destination_socket_address_spec(self) -> SocketAddress {
        let port = match self.transport_layer {
            TransportLayer::Tcp(_, destination, _) => destination,
            TransportLayer::Udp(_, destination, _) => destination,
        };
        match self.network_layer {
            NetworkLayer::IPv4(_, destination, _) => SocketAddress {
                is_v6: false,
                address: destination as u128,
                port,
            },
            NetworkLayer::IPv6(_, destination, _) => SocketAddress {
                is_v6: true,
                address: destination,
                port,
            },
        }
    }

    /// The source and destination endpoints of the dissected frame.
    pub fn socket_addresses(&self) -> (r: (SocketAddress, SocketAddress))
        ensures
            r.0 == self.source_socket_address_spec(),
            r.1 == self.destination_socket_address_spec(),
    {
        let (source_port, destination_port): (u16, u16) = match self.transport_layer {
            TransportLayer::Tcp(source, destination, _) => (source, destination),
            TransportLayer::Udp(source, destination, _) => (source, destination),
        };
        match self.network_layer {
            NetworkLayer::IPv4(source, destination, _) => (
                SocketAddress { is_v6: false, address: source as u128, port: source_port },
                SocketAddress {
                    is_v6: false,
                    address: destination as u128,
                    port: destination_port,
                },
            ),
            NetworkLayer::IPv6(source, destination, _) => (
                SocketAddress { is_v6: true, address: source, port: source_port },
                SocketAddress { is_v6: true, address: destination, port: destination_port },
            ),
        }
    }
}

} // verus!
