use vstd::prelude::*;

use crate::endianness_aware_cursor::{
    be_u32_at, lemma_write_read_u16_at, lemma_write_read_u32_at, read_u16_at, read_u32_at,
    write_u16_bytes, write_u32_bytes, zero_bytes, Endianness, ReadOnlyEndiannessAwareCursor,
    WriteOnlyEndiannessAwareCursor,
};
use crate::error::Error;
use crate::packet_layer::LinkLayerType;

verus! {

/// Whether a record's fractional timestamp field counts microseconds or
/// nanoseconds. Determined, together with the byte order, by the capture's
/// magic number.
#[derive(Copy, Clone, Eq, PartialEq, Ord, PartialOrd, Hash, Debug, Structural)]
pub enum TimestampPrecision {
    Micro,
    Nano,
}

/// Major and minor version of the capture format.
#[derive(Copy, Clone, Eq, PartialEq, Ord, PartialOrd, Hash, Debug, Structural)]
pub struct Version(pub u16, pub u16);

/// Length frames are captured up to; longer frames are truncated.
#[derive(Copy, Clone, Eq, PartialEq, Ord, PartialOrd, Hash, Debug, Structural)]
pub struct MaximumPacketLength(pub u32);

/// Number of frame-check-sequence bytes appended to each frame, 0 to 7.
#[derive(Copy, Clone, Eq, PartialEq, Ord, PartialOrd, Hash, Debug, Structural)]
pub struct FrameCyclicSequence(pub u8);

/// The capture container's global header: 24 bytes on the wire.
#[derive(Copy, Clone, Eq, PartialEq, Ord, PartialOrd, Hash, Debug, Structural)]
pub struct CaptureHeader {
    pub endianness: Endianness,
    pub timestamp_precision: TimestampPrecision,
    pub version: Version,
    pub maximum_packet_length: MaximumPacketLength,
    pub frame_cyclic_sequence: Option<FrameCyclicSequence>,
    pub link_layer_type: LinkLayerType,
}

pub const MAGIC_NUMBER_IDENTICAL_MICRO: u32 = 0xA1_B2_C3_D4;

pub const MAGIC_NUMBER_SWAPPED_MICRO: u32 = 0xD4_C3_B2_A1;

pub const MAGIC_NUMBER_IDENTICAL_NANO: u32 = 0xA1_B2_3C_4D;

pub const MAGIC_NUMBER_SWAPPED_NANO: u32 = 0x4D_3C_B2_A1;

impl CaptureHeader {
    /// Size of the global header on the wire, in bytes.
    pub const LENGTH: usize = 24;

    /// A header is well formed when its frame-check-sequence length fits in
    /// the three bits the wire format gives it.
    pub open spec fn wf(self) -> bool {
        match self.frame_cyclic_sequence {
            Some(f) => f.0 < 8,
            None => true,
        }
    }

    /// The magic value that `compose` emits for each timestamp precision:
    /// always the identical-order constant, so the composed container
    /// declares the native byte order.
    pub open spec fn magic_for(precision: TimestampPrecision) -> u32 {
        match precision {
            TimestampPrecision::Micro => MAGIC_NUMBER_IDENTICAL_MICRO,
            TimestampPrecision::Nano => MAGIC_NUMBER_IDENTICAL_NANO,
        }
    }

    /// The combined field at offset 20: link-layer code 1 in the low 28
    /// bits, the frame-check-sequence flag in bit 28 and its length in bits
    /// 29 to 31 (reduced modulo 8, as three bits can hold no more).
    pub open spec fn combined_field(self) -> u32 {
        match self.frame_cyclic_sequence {
            Some(f) => (1 + 0x1000_0000 + (f.0 % 8) * 0x2000_0000) as u32,
            None => 1u32,
        }
    }

    /// What `parse` makes of 24 header bytes, stated field by field over the
    /// byte-order helpers.
    ///
    /// The magic number is read as fixed bytes (big-endian); the value picks
    /// the byte-order selector and timestamp precision for every following
    /// field. An unmatched magic fails with `UnknownMagicNumber`; a
    /// link-layer code other than 1 fails with `UnknownLinkLayerType`.
    pub open spec fn parse_spec(b: Seq<u8>) -> Result<CaptureHeader, Error> {
        let magic = be_u32_at(b, 0);
        if magic == MAGIC_NUMBER_IDENTICAL_MICRO {
            Self::parse_rest_spec(b, Endianness::Identical, TimestampPrecision::Micro)
        } else if magic == MAGIC_NUMBER_SWAPPED_MICRO {
            Self::parse_rest_spec(b, Endianness::Swapped, TimestampPrecision::Micro)
        } else if magic == MAGIC_NUMBER_IDENTICAL_NANO {
            Self::parse_rest_spec(b, Endianness::Identical, TimestampPrecision::Nano)
        } else if magic == MAGIC_NUMBER_SWAPPED_NANO {
            Self::parse_rest_spec(b, Endianness::Swapped, TimestampPrecision::Nano)
        } else {
            Err(Error::UnknownMagicNumber(magic))
        }
    }

    /// The fields after the magic number, read under the selector the magic
    /// established.
    pub open spec fn parse_rest_spec(
        b: Seq<u8>,
        endianness: Endianness,
        precision: TimestampPrecision,
    ) -> Result<CaptureHeader, Error> {
        let combined = read_u32_at(endianness, b, 20);
        let link_layer_code = (combined % 0x1000_0000) as u32;
        if link_layer_code != 1 {
            Err(Error::UnknownLinkLayerType(link_layer_code))
        } else {
            Ok(
                CaptureHeader {
                    endianness,
                    timestamp_precision: precision,
                    version: Version(
                        read_u16_at(endianness, b, 4),
                        read_u16_at(endianness, b, 6),
                    ),
                    maximum_packet_length: MaximumPacketLength(read_u32_at(endianness, b, 16)),
                    frame_cyclic_sequence: if (combined / 0x1000_0000) % 2 == 1 {
                        Some(FrameCyclicSequence((combined / 0x2000_0000) as u8))
                    } else {
                        None
                    },
                    link_layer_type: LinkLayerType::En10Mb,
                },
            )
        }
    }

    /// The 24 bytes that `compose` emits: the identical-order magic for the
    /// header's precision, then version, eight reserved zero bytes, maximum
    /// packet length and the combined field. Composition intentionally
    /// normalizes to native order: every field is written under the
    /// `Identical` selector, whatever byte order the header was read with.
    pub open spec fn compose_spec(self) -> Seq<u8> {
        write_u32_bytes(Endianness::Identical, Self::magic_for(self.timestamp_precision))
            + write_u16_bytes(Endianness::Identical, self.version.0)
            + write_u16_bytes(Endianness::Identical, self.version.1)
            + zero_bytes(8)
            + write_u32_bytes(Endianness::Identical, self.maximum_packet_length.0)
            + write_u32_bytes(Endianness::Identical, self.combined_field())
    }

    /// Parses the first 24 bytes of `buffer` as a capture header.
    pub fn parse(buffer: &[u8]) -> (r: Result<Self, Error>)
        requires
            buffer@.len() >= 24,
        ensures
            r == Self::parse_spec(buffer@),
            (r matches Ok(h) ==> h.wf()),
    {
        let mut cursor = ReadOnlyEndiannessAwareCursor::new(buffer, Endianness::Identical);

        let magic: u32 = cursor.get_u32();
        let endianness: Endianness;
        let timestamp_precision: TimestampPrecision;
        if magic == MAGIC_NUMBER_IDENTICAL_MICRO {
            endianness = Endianness::Identical;
            timestamp_precision = TimestampPrecision::Micro;
        } else if magic == MAGIC_NUMBER_SWAPPED_MICRO {
            endianness = Endianness::Swapped;
            timestamp_precision = TimestampPrecision::Micro;
        } else if magic == MAGIC_NUMBER_IDENTICAL_NANO {
            endianness = Endianness::Identical;
            timestamp_precision = TimestampPrecision::Nano;
        } else if magic == MAGIC_NUMBER_SWAPPED_NANO {
            endianness = Endianness::Swapped;
            timestamp_precision = TimestampPrecision::Nano;
        } else {
            return Err(Error::UnknownMagicNumber(magic));
        }

        cursor.set_endianness(endianness);

        let version_major: u16 = cursor.get_u16();
        let version_minor: u16 = cursor.get_u16();
        cursor.advance(4 + 4);
        let maximum_packet_length: u32 = cursor.get_u32();

        let combined: u32 = cursor.get_u32();
        let link_layer_code: u32 = combined % 0x1000_0000;
        if link_layer_code != 1 {
            return Err(Error::UnknownLinkLayerType(link_layer_code));
        }

        let frame_cyclic_sequence: Option<FrameCyclicSequence> = if (combined / 0x1000_0000) % 2
            == 1 {
            Some(FrameCyclicSequence((combined / 0x2000_0000) as u8))
        } else {
            None
        };

        Ok(
            Self {
                endianness,
                timestamp_precision,
                version: Version(version_major, version_minor),
                maximum_packet_length: MaximumPacketLength(maximum_packet_length),
                frame_cyclic_sequence,
                link_layer_type: LinkLayerType::En10Mb,
            },
        )
    }

    /// Composes the 24-byte wire form of this header, normalized to native
    /// byte order.
    pub fn compose(&self) -> (r: Vec<u8>)
        ensures
            r@ == self.compose_spec(),
            r@.len() == 24,
    {
        let mut cursor = WriteOnlyEndiannessAwareCursor::new(Endianness::Identical);

        match self.timestamp_precision {
            TimestampPrecision::Micro => cursor.put_u32(MAGIC_NUMBER_IDENTICAL_MICRO),
            TimestampPrecision::Nano => cursor.put_u32(MAGIC_NUMBER_IDENTICAL_NANO),
        }

        cursor.put_u16(self.version.0);
        cursor.put_u16(self.version.1);

        cursor.advance(4 + 4);

        cursor.put_u32(self.maximum_packet_length.0);

        let frame_cyclic_sequence: u32 = match self.frame_cyclic_sequence {
            Some(sequence) => (sequence.0 % 8) as u32 * 0x2000_0000 + 0x1000_0000,
            None => 0,
        };

        cursor.put_u32(1 + frame_cyclic_sequence);

        let r = cursor.into_vec();
        assert(r@ =~= self.compose_spec());
        r
    }

    /// Where each written chunk of `compose_spec` lands in the 24 bytes.
    proof fn lemma_compose_layout(h: CaptureHeader)
        ensures
            ({
                let b = h.compose_spec();
                let c0 = write_u32_bytes(
                    Endianness::Identical,
                    Self::magic_for(h.timestamp_precision),
                );
                let c1 = write_u16_bytes(Endianness::Identical, h.version.0);
                let c2 = write_u16_bytes(Endianness::Identical, h.version.1);
                let c4 = write_u32_bytes(Endianness::Identical, h.maximum_packet_length.0);
                let c5 = write_u32_bytes(Endianness::Identical, h.combined_field());
                &&& b.len() == 24
                &&& b[0] == c0[0] && b[1] == c0[1] && b[2] == c0[2] && b[3] == c0[3]
                &&& b[4] == c1[0] && b[5] == c1[1]
                &&& b[6] == c2[0] && b[7] == c2[1]
                &&& b[16] == c4[0] && b[17] == c4[1] && b[18] == c4[2] && b[19] == c4[3]
                &&& b[20] == c5[0] && b[21] == c5[1] && b[22] == c5[2] && b[23] == c5[3]
            }),
    {
        let b = h.compose_spec();
        let c0 = write_u32_bytes(Endianness::Identical, Self::magic_for(h.timestamp_precision));
        let c1 = write_u16_bytes(Endianness::Identical, h.version.0);
        let c2 = write_u16_bytes(Endianness::Identical, h.version.1);
        let c3 = zero_bytes(8);
        let c4 = write_u32_bytes(Endianness::Identical, h.maximum_packet_length.0);
        let c5 = write_u32_bytes(Endianness::Identical, h.combined_field());
        assert(c0.len() == 4 && c1.len() == 2 && c2.len() == 2 && c3.len() == 8 && c4.len() == 4
            && c5.len() == 4);
        assert(b[0] == c0[0] && b[1] == c0[1] && b[2] == c0[2] && b[3] == c0[3]);
        assert(b[4] == c1[0] && b[5] == c1[1]);
        assert(b[6] == c2[0] && b[7] == c2[1]);
        assert(b[16] == c4[0] && b[17] == c4[1] && b[18] == c4[2] && b[19] == c4[3]);
        assert(b[20] == c5[0] && b[21] == c5[1] && b[22] == c5[2] && b[23] == c5[3]);
    }

    /// Round trip: parsing the bytes that `compose` emits for a well-formed
    /// header reproduces every byte-order-independent field of the header.
    /// Only the byte-order selector is normalized rather than reproduced:
    /// compose always writes native-order bytes, so parse reports
    /// `Identical` whatever selector the header was first read with.
    #[verifier::rlimit(50)]
    pub proof fn lemma_capture_header_round_trip(h: CaptureHeader)
        requires
            h.wf(),
        ensures
            Self::parse_spec(h.compose_spec()) == Ok::<CaptureHeader, Error>(
                CaptureHeader { endianness: Endianness::Identical, ..h },
            ),
    {
        let b = h.compose_spec();
        Self::lemma_compose_layout(h);
        assert(be_u32_at(b, 0) == Self::magic_for(h.timestamp_precision));

        lemma_write_read_u16_at(Endianness::Identical, b, 4, h.version.0);
        lemma_write_read_u16_at(Endianness::Identical, b, 6, h.version.1);
        lemma_write_read_u32_at(Endianness::Identical, b, 16, h.maximum_packet_length.0);
        lemma_write_read_u32_at(Endianness::Identical, b, 20, h.combined_field());

        let combined = h.combined_field();
        match h.frame_cyclic_sequence {
            Some(f) => {
                let fv: u32 = f.0 as u32;
                assert(combined == (1 + 0x1000_0000 + fv * 0x2000_0000) as u32);
                assert((1 + 0x1000_0000 + fv * 0x2000_0000) as u32 % 0x1000_0000 == 1 && ((1
                    + 0x1000_0000 + fv * 0x2000_0000) as u32 / 0x1000_0000) % 2 == 1 && (1
                    + 0x1000_0000 + fv * 0x2000_0000) as u32 / 0x2000_0000 == fv)
                    by (bit_vector)
                    requires
                        fv < 8,
                ;
            },
            None => {
                assert(combined == 1u32);
            },
        }
    }

    /// Magic-number coverage: each of the four defined magic values fixes
    /// the documented byte-order selector and timestamp precision for a
    /// successful parse, and any other value fails with
    /// `UnknownMagicNumber`.
    pub proof fn lemma_magic_number_determines_layout(b: Seq<u8>)
        requires
            b.len() >= 24,
        ensures
            ({
                let magic = be_u32_at(b, 0);
                &&& (Self::parse_spec(b) matches Ok(h) ==> {
                    &&& magic == MAGIC_NUMBER_IDENTICAL_MICRO ==> h.endianness
                        == Endianness::Identical && h.timestamp_precision
                        == TimestampPrecision::Micro
                    &&& magic == MAGIC_NUMBER_SWAPPED_MICRO ==> h.endianness
                        == Endianness::Swapped && h.timestamp_precision
                        == TimestampPrecision::Micro
                    &&& magic == MAGIC_NUMBER_IDENTICAL_NANO ==> h.endianness
                        == Endianness::Identical && h.timestamp_precision
                        == TimestampPrecision::Nano
                    &&& magic == MAGIC_NUMBER_SWAPPED_NANO ==> h.endianness
                        == Endianness::Swapped && h.timestamp_precision
                        == TimestampPrecision::Nano
                })
                &&& (magic != MAGIC_NUMBER_IDENTICAL_MICRO && magic != MAGIC_NUMBER_SWAPPED_MICRO
                    && magic != MAGIC_NUMBER_IDENTICAL_NANO && magic != MAGIC_NUMBER_SWAPPED_NANO
                    ==> Self::parse_spec(b) == Err::<CaptureHeader, Error>(Error::UnknownMagicNumber(magic)))
            }),
    {
    }

    /// Frame-check-sequence decoding: in the combined field at offset 20,
    /// bit 28 set means the three bits above it decode to a length 0 to 7;
    /// bit 28 clear means the length is reported absent whatever those bits
    /// hold.
    pub proof fn lemma_frame_cyclic_sequence_decoding(b: Seq<u8>, h: CaptureHeader)
        requires
            b.len() >= 24,
            Self::parse_spec(b) == Ok::<CaptureHeader, Error>(h),
        ensures
            ({
                let combined = read_u32_at(h.endianness, b, 20);
                &&& ((combined / 0x1000_0000) % 2 == 1 ==> h.frame_cyclic_sequence == Some(
                    FrameCyclicSequence((combined / 0x2000_0000) as u8),
                ) && combined / 0x2000_0000 < 8)
                &&& ((combined / 0x1000_0000) % 2 != 1 ==> h.frame_cyclic_sequence is None)
            }),
    {
    }
}

} // verus!
