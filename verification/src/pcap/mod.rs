//! Capture files in pcap format.

pub mod pcap_write;
