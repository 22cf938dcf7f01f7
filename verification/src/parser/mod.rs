//! The dispatcher that chains the decoders.

pub mod pkt_parser;
