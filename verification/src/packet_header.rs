use vstd::prelude::*;

use crate::capture_header::TimestampPrecision;
use crate::endianness_aware_cursor::{
    lemma_write_read_u32_at, read_u32_at, write_u32_bytes, Endianness,
    ReadOnlyEndiannessAwareCursor, WriteOnlyEndiannessAwareCursor,
};

verus! {

/// A record's capture time: precision tag, whole seconds, and a fractional
/// part counted in the precision's unit.
#[derive(Copy, Clone, Eq, PartialEq, Ord, PartialOrd, Hash, Debug, Structural)]
pub struct Timestamp(pub TimestampPrecision, pub u32, pub u32);

/// Length of a record's payload, in bytes.
#[derive(Copy, Clone, Eq, PartialEq, Ord, PartialOrd, Hash, Debug, Structural)]
pub struct PacketLength(pub u32);

/// The per-record header: 16 bytes on the wire, in the byte order the
/// capture's global header established.
#[derive(Copy, Clone, Eq, PartialEq, Ord, PartialOrd, Hash, Debug, Structural)]
pub struct PacketHeader {
    pub timestamp: Timestamp,
    pub captured_length: PacketLength,
    pub actual_length: PacketLength,
}

impl Timestamp {
    /// How many of the fractional unit make one second under each
    /// precision. This is also the factor that turns whole seconds into the
    /// linear count that `nanos` returns.
    pub open spec fn multiplier(precision: TimestampPrecision) -> u64 {
        match precision {
            TimestampPrecision::Micro => 1_000_000u64,
            TimestampPrecision::Nano => 1_000_000_000u64,
        }
    }

    /// The timestamp as one linear count: seconds times the precision's
    /// multiplier, plus the fractional part.
    pub open spec fn nanos_spec(self) -> u64 {
        (self.1 * Self::multiplier(self.0) + self.2) as u64
    }

    pub fn nanos(&self) -> (r: u64)
        ensures
            r == self.nanos_spec(),
    {
        let multiplier: u64 = match self.0 {
            TimestampPrecision::Micro => 1_000_000u64,
            TimestampPrecision::Nano => 1_000_000_000u64,
        };
        (self.1 as u64) * multiplier + (self.2 as u64)
    }

}

impl PacketLength {
    pub fn as_usize(self) -> (r: usize)
        ensures
            r == self.0,
    {
        self.0 as usize
    }
}

impl PacketHeader {
    /// Size of the per-record header on the wire, in bytes.
    pub const LENGTH: usize = 16;

    /// What `parse` makes of 16 record-header bytes under selector `e`:
    /// two timestamp components, then captured length, then actual length.
    /// Parsing is infallible.
    pub open spec fn parse_spec(
        b: Seq<u8>,
        e: Endianness,
        precision: TimestampPrecision,
    ) -> PacketHeader {
        PacketHeader {
            timestamp: Timestamp(precision, read_u32_at(e, b, 0), read_u32_at(e, b, 4)),
            captured_length: PacketLength(read_u32_at(e, b, 8)),
            actual_length: PacketLength(read_u32_at(e, b, 12)),
        }
    }

    /// The 16 bytes that `compose` emits under selector `e`.
    pub open spec fn compose_spec(self, e: Endianness) -> Seq<u8> {
        write_u32_bytes(e, self.timestamp.1) + write_u32_bytes(e, self.timestamp.2)
            + write_u32_bytes(e, self.captured_length.0) + write_u32_bytes(e, self.actual_length.0)
    }

    /// Parses the first 16 bytes of `buffer` as a record header.
    pub fn parse(
        buffer: &[u8],
        endianness: Endianness,
        timestamp_precision: TimestampPrecision,
    ) -> (r: Self)
        requires
            buffer@.len() >= 16,
        ensures
            r == Self::parse_spec(buffer@, endianness, timestamp_precision),
    {
        let mut cursor = ReadOnlyEndiannessAwareCursor::new(buffer, endianness);

        let seconds: u32 = cursor.get_u32();
        let fraction: u32 = cursor.get_u32();
        let captured_length: u32 = cursor.get_u32();
        let actual_length: u32 = cursor.get_u32();

        Self {
            timestamp: Timestamp(timestamp_precision, seconds, fraction),
            captured_length: PacketLength(captured_length),
            actual_length: PacketLength(actual_length),
        }
    }

    /// Composes the 16-byte wire form of this header.
    pub fn compose(&self, endianness: Endianness) -> (r: Vec<u8>)
        ensures
            r@ == self.compose_spec(endianness),
            r@.len() == 16,
    {
        let mut cursor = WriteOnlyEndiannessAwareCursor::new(endianness);

        cursor.put_u32(self.timestamp.1);
        cursor.put_u32(self.timestamp.2);
        cursor.put_u32(self.captured_length.0);
        cursor.put_u32(self.actual_length.0);

        let r = cursor.into_vec();
        assert(r@ =~= self.compose_spec(endianness));
        r
    }

    /// Round trip: for every header and chosen byte-order selector, the
    /// bytes composed under that selector parse back to the same header
    /// under the same selector and the same precision.
    pub proof fn lemma_packet_header_round_trip(h: PacketHeader, e: Endianness)
        ensures
            Self::parse_spec(h.compose_spec(e), e, h.timestamp.0) == h,
    {
        let b = h.compose_spec(e);
        let c0 = write_u32_bytes(e, h.timestamp.1);
        let c1 = write_u32_bytes(e, h.timestamp.2);
        let c2 = write_u32_bytes(e, h.captured_length.0);
        let c3 = write_u32_bytes(e, h.actual_length.0);
        assert(c0.len() == 4 && c1.len() == 4 && c2.len() == 4 && c3.len() == 4);
        assert(b[0] == c0[0] && b[1] == c0[1] && b[2] == c0[2] && b[3] == c0[3]);
        assert(b[4] == c1[0] && b[5] == c1[1] && b[6] == c1[2] && b[7] == c1[3]);
        assert(b[8] == c2[0] && b[9] == c2[1] && b[10] == c2[2] && b[11] == c2[3]);
        assert(b[12] == c3[0] && b[13] == c3[1] && b[14] == c3[2] && b[15] == c3[3]);
        lemma_write_read_u32_at(e, b, 0, h.timestamp.1);
        lemma_write_read_u32_at(e, b, 4, h.timestamp.2);
        lemma_write_read_u32_at(e, b, 8, h.captured_length.0);
        lemma_write_read_u32_at(e, b, 12, h.actual_length.0);
    }
}

} // verus!
