//! A verified model of a Wireshark dissector framework: packet buffers and the ranges read from
//! them, the registry of a protocol's fields, subtrees and expert infos, and the protocol tree
//! that a dissector builds for each packet.
pub mod types;
pub mod tvb;
pub mod handles;
pub mod protocol;
pub mod address;
pub mod packet;
pub mod dissector;
