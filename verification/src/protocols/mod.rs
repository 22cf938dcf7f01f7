//! Frame buffer and per-layer header decoders.

pub mod decode;
pub mod l2;
pub mod l3;
pub mod l4;
pub mod packet;
