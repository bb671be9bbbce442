use vstd::prelude::*;

verus! {

/// Everything that can go wrong while decoding a capture container or
/// dissecting one captured frame.
///
/// Container-format problems (`UnknownMagicNumber`, `UnknownLinkLayerType`)
/// are fatal to opening a capture; the remaining variants are fatal only to
/// the one frame being dissected. `MalformedPacket` reports a frame whose
/// declared lengths run past the bytes that were actually captured, so that
/// dissection never reads outside its buffer.
#[derive(Copy, Clone, Debug, PartialEq, Eq, Structural)]
pub enum Error {
    UnknownMagicNumber(u32),
    UnknownLinkLayerType(u32),
    UnknownNetworkLayerType(u16),
    UnknownTransportLayerType(u8),
    UnknownIPv6AdditionalHeaderLength(u8),
    MalformedPacket,
}

} // verus!
