//! Network-layer decoders.

pub mod ipv4;
pub mod ipv6;
pub mod protocol_types;
