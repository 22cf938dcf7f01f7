//! Catalogue of the anomalies that the decoders report.

use vstd::prelude::*;

verus! {

/// The rule that a frame broke.  The codes are opaque: nothing depends on
/// their order.
#[derive(Clone, Copy, PartialEq, Eq, Structural, Debug)]
pub enum event_desc {
    // Ethernet
    EthShortHeader,
    EthSrcZeroMac,
    EthSrcBroadcastMac,
    // IPv4
    Ipv4ShortHeader,
    Ipv4InvalidVersion,
    Ipv4IhlInvalid,
    Ipv4ReservedSet,
    // TCP
    TcpShortHeader,
    TcpSrcPortZero,
    TcpDstPortZero,
    TcpFlagsAllSet,
    TcpFlagsAllZero,
    TcpFlagsSynFinSet,
    TcpUnknownOpt,
    TcpTimestampOptLenInvalid,
    // VLAN
    VlanIdReserved,
    // ARP
    ArpInvalHwAddrLen,
    ArpInvalProtocolLen,
    ArpOpInvalid,
    // IPv6
    Ipv6ShortHeader,
    Ipv6InvalidVersion,
    Ipv6SrcAddrInvalid,
    Ipv6DstAddrInvalid,
    // ICMPv6
    Icmp6ShortHeader,
    Icmp6ShortDestUnreachHeader,
    /// No anomaly: the descriptor of a record that was never set.
    NoEvent,
}

} // verus!
