use vstd::prelude::*;

use crate::endianness_aware_cursor::{le_u128_bytes, le_u16_bytes, le_u32_bytes, le_u64_bytes};
use crate::packet_dissection::{NetworkLayer, PacketDissection, TransportLayer};

verus! {

/// A direction-independent identity for one conversation: the numerically
/// lower of the two addresses with the port that traveled beside it, the
/// higher address with its port, and flags for the address family and the
/// transport protocol. The two directions of one flow collapse to the same
/// value.
///
/// IPv4 addresses are carried zero-extended in the 128-bit address fields.
#[derive(Copy, Clone, Eq, PartialEq, Hash, Debug, Structural)]
pub struct FiveTuple {
    pub lower_address: u128,
    pub lower_port: u16,
    pub higher_address: u128,
    pub higher_port: u16,
    pub is_v6: bool,
    pub is_tcp: bool,
}

/// Relied-on name for what base64's standard-alphabet engine returns: the
/// encoding of a byte sequence, a function of the bytes alone.
pub uninterp spec fn base64_of(bytes: Seq<u8>) -> Seq<char>;

/// Relies on base64's `BASE64_STANDARD` engine: `encode` returns the
/// standard-alphabet base64 encoding of the input bytes and of nothing
/// else.
#[verifier::external_body]
fn encode_base64(bytes: &Vec<u8>) -> (r: String)
    ensures
        r@ == base64_of(bytes@),
{
    base64::Engine::encode(&base64::prelude::BASE64_STANDARD, bytes.as_slice())
}

fn push_le_u32(out: &mut Vec<u8>, value: u32)
    ensures
        final(out)@ == old(out)@ + le_u32_bytes(value),
{
    out.push((value % 0x100) as u8);
    out.push(((value / 0x100) % 0x100) as u8);
    out.push(((value / 0x1_0000) % 0x100) as u8);
    out.push((value / 0x100_0000) as u8);
    assert(out@ =~= old(out)@ + le_u32_bytes(value));
}

fn push_le_u64(out: &mut Vec<u8>, value: u64)
    ensures
        final(out)@ == old(out)@ + le_u64_bytes(value),
{
    push_le_u32(out, (value % 0x1_0000_0000) as u32);
    push_le_u32(out, (value / 0x1_0000_0000) as u32);
    assert(out@ =~= old(out)@ + le_u64_bytes(value));
}

fn push_le_u128(out: &mut Vec<u8>, value: u128)
    ensures
        final(out)@ == old(out)@ + le_u128_bytes(value),
{
    push_le_u64(out, (value % 0x1_0000_0000_0000_0000) as u64);
    push_le_u64(out, (value / 0x1_0000_0000_0000_0000) as u64);
    assert(out@ =~= old(out)@ + le_u128_bytes(value));
}

impl FiveTuple {
    /// The two addresses of a dissection as 128-bit values, source first,
    /// with the address-family flag.
    pub open spec fn addresses_spec(dissection: PacketDissection) -> (u128, u128, bool) {
        match dissection.network_layer {
            NetworkLayer::IPv4(source, destination, _) => (
                source as u128,
                destination as u128,
                false,
            ),
            NetworkLayer::IPv6(source, destination, _) => (source, destination, true),
        }
    }

    /// The two ports of a dissection, source first, with the
    /// transport-protocol flag.
    pub open spec fn ports_spec(dissection: PacketDissection) -> (u16, u16, bool) {
        match dissection.transport_layer {
            TransportLayer::Udp(source, destination, _) => (source, destination, false),
            TransportLayer::Tcp(source, destination, _) => (source, destination, true),
        }
    }

    /// The key a dissection maps to: the numerically lower address decides
    /// which endpoint comes first, and each port stays with the address it
    /// traveled with. When the two addresses are equal, the lower port
    /// decides instead, so the two directions of a conversation between one
    /// address still collapse to one key.
    pub open spec fn from_dissection_spec(dissection: PacketDissection) -> FiveTuple {
        let (source_address, destination_address, is_v6) = Self::addresses_spec(dissection);
        let (source_port, destination_port, is_tcp) = Self::ports_spec(dissection);
        let is_source_lower = source_address < destination_address || (source_address
            == destination_address && source_port <= destination_port);
        FiveTuple {
            lower_address: if is_source_lower {
                source_address
            } else {
                destination_address
            },
            lower_port: if is_source_lower {
                source_port
            } else {
                destination_port
            },
            higher_address: if is_source_lower {
                destination_address
            } else {
                source_address
            },
            higher_port: if is_source_lower {
                destination_port
            } else {
                source_port
            },
            is_v6,
            is_tcp,
        }
    }

    /// Derives the direction-independent key of a dissection.
    pub fn from_packet_dissection(dissection: &PacketDissection) -> (r: Self)
        ensures
            r == Self::from_dissection_spec(*dissection),
    {
        let (source_address, destination_address, is_v6): (u128, u128, bool) = match dissection
            .network_layer {
            NetworkLayer::IPv4(source, destination, _) => (
                source as u128,
                destination as u128,
                false,
            ),
            NetworkLayer::IPv6(source, destination, _) => (source, destination, true),
        };
        let (source_port, destination_port, is_tcp): (u16, u16, bool) = match dissection
            .transport_layer {
            TransportLayer::Udp(source, destination, _) => (source, destination, false),
            TransportLayer::Tcp(source, destination, _) => (source, destination, true),
        };

        let is_source_lower: bool = source_address < destination_address || (source_address
            == destination_address && source_port <= destination_port);
        if is_source_lower {
            Self {
                lower_address: source_address,
                lower_port: source_port,
                higher_address: destination_address,
                higher_port: destination_port,
                is_v6,
                is_tcp,
            }
        } else {
            Self {
                lower_address: destination_address,
                lower_port: destination_port,
                higher_address: source_address,
                higher_port: source_port,
                is_v6,
                is_tcp,
            }
        }
    }

    /// The key's canonical byte form: both addresses little-endian (16
    /// bytes each, lower first), both ports little-endian (lower first),
    /// then one byte for each flag.
    pub open spec fn serialized_spec(self) -> Seq<u8> {
        le_u128_bytes(self.lower_address) + le_u128_bytes(self.higher_address) + le_u16_bytes(
            self.lower_port,
        ) + le_u16_bytes(self.higher_port) + seq![
            if self.is_v6 {
                1u8
            } else {
                0u8
            },
        ] + seq![
            if self.is_tcp {
                1u8
            } else {
                0u8
            },
        ]
    }

    fn serialized(&self) -> (r: Vec<u8>)
        ensures
            r@ == self.serialized_spec(),
    {
        let mut out: Vec<u8> = Vec::new();
        push_le_u128(&mut out, self.lower_address);
        push_le_u128(&mut out, self.higher_address);
        out.push((self.lower_port % 0x100) as u8);
        out.push((self.lower_port / 0x100) as u8);
        out.push((self.higher_port % 0x100) as u8);
        out.push((self.higher_port / 0x100) as u8);
        out.push(if self.is_v6 { 1 } else { 0 });
        out.push(if self.is_tcp { 1 } else { 0 });
        assert(out@ =~= self.serialized_spec());
        out
    }

    /// The key's canonical byte form, base64-encoded for display.
    pub fn as_base64(&self) -> (r: String)
        ensures
            r@ == base64_of(self.serialized_spec()),
    {
        let bytes = self.serialized();
        encode_base64(&bytes)
    }

    /// Five-tuple symmetry: every dissection and its direction-reversed
    /// counterpart produce the same key.
    pub proof fn lemma_five_tuple_symmetry(dissection: PacketDissection)
        ensures
            Self::from_dissection_spec(dissection) == Self::from_dissection_spec(
                dissection.reversed_spec(),
            ),
    {
    }
}

} // verus!
