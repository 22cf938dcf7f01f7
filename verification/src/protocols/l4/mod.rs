//! Transport-layer decoders.

pub mod icmp6;
pub mod tcp;
