use vstd::prelude::*;

verus! {

/// Link layer of the frames in a capture. Only IEEE 802.3 Ethernet is known.
#[derive(Copy, Clone, Eq, PartialEq, Ord, PartialOrd, Hash, Debug, Structural)]
pub enum LinkLayerType {
    /// IEEE 802.3 Ethernet
    En10Mb,
}

/// Network layer found inside a frame.
#[derive(Copy, Clone, Eq, PartialEq, Ord, PartialOrd, Hash, Debug, Structural)]
pub enum NetworkLayerType {
    IPv4,
    IPv6,
}

/// Transport layer found inside a network-layer packet.
#[derive(Copy, Clone, Eq, PartialEq, Ord, PartialOrd, Hash, Debug, Structural)]
pub enum TransportLayerType {
    Tcp,
    Udp,
}

/// What the transport layer carries. No deeper parsing is attempted.
#[derive(Copy, Clone, Eq, PartialEq, Ord, PartialOrd, Hash, Debug, Structural)]
pub enum ApplicationLayerType {
    OctetArray,
}

} // verus!
