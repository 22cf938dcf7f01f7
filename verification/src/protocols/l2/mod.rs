//! Link-layer decoders.

pub mod arp;
pub mod eth;
pub mod ethertypes;
pub mod vlan;
