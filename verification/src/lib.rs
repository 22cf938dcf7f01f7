//! Decoding and validation engine of a single-interface intrusion-detection
//! probe.
//!
//! A received Ethernet frame is held in a [`protocols::packet::packet`], a
//! bounds-checked big-endian cursor.  The decoders under [`protocols`] read one
//! protocol layer each, check it against the rules of the probe and raise a
//! `Deny` event in the [`events::event_mgr::event_mgr`] for the first rule that
//! is broken.  [`parser::pkt_parser::pkt_parser`] chains the decoders by the
//! type field of the preceding layer.
#![allow(non_camel_case_types)]
#![allow(dead_code)]
#![allow(unused_imports)]

pub mod c_lib;
pub mod cmd_args;
pub mod cmd_opts;
pub mod config;
pub mod debug;
pub mod events;
pub mod idsm_context;
pub mod parser;
pub mod pcap;
pub mod pktgen;
pub mod protocols;
pub mod stats;
pub mod time_linux;
