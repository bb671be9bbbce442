//! A verified library for reading and writing packet-capture containers,
//! dissecting captured frames into their protocol layers, deriving
//! direction-independent flow identities, and aggregating per-flow statistics.

pub mod capture_header;
pub mod endianness_aware_cursor;
pub mod error;
pub mod five_tuple;
pub mod flow;
pub mod packet;
pub mod packet_dissection;
pub mod packet_header;
pub mod packet_layer;
