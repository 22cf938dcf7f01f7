//! Upper-layer protocols that the probe decodes.

use vstd::prelude::*;

verus! {

/// The protocol that an IPv4 protocol number or an IPv6 next-header names.
#[derive(Clone, Copy, PartialEq, Eq, Structural, Debug)]
pub enum ProtocolTypes {
    Tcp,
    Icmp6,
    /// Any number without a decoder.
    Unsupported,
}

impl ProtocolTypes {
    /// Protocol number of TCP.
    pub const TCP: u8 = 6;

    /// Protocol number of ICMPv6.
    pub const ICMP6: u8 = 58;

    /// The protocol that `protocol` names.
    pub open spec fn spec_classify(protocol: u8) -> ProtocolTypes {
        if protocol == 6 {
            ProtocolTypes::Tcp
        } else if protocol == 58 {
            ProtocolTypes::Icmp6
        } else {
            ProtocolTypes::Unsupported
        }
    }

    /// The protocol that `protocol` names.
    pub fn classify(protocol: u8) -> (t: ProtocolTypes)
        ensures
            t == Self::spec_classify(protocol),
    {
        if protocol == Self::TCP {
            ProtocolTypes::Tcp
        } else if protocol == Self::ICMP6 {
            ProtocolTypes::Icmp6
        } else {
            ProtocolTypes::Unsupported
        }
    }
}

} // verus!
