//! Ethertypes that the probe decodes.

use vstd::prelude::*;

verus! {

/// The protocol that an ethertype names.
#[derive(Clone, Copy, PartialEq, Eq, Structural, Debug)]
pub enum Ethertypes {
    Ipv4,
    Arp,
    Ieee8021q,
    Ipv6,
    /// Any ethertype without a decoder.
    Unsupported,
}

impl Ethertypes {
    pub const IPV4: u16 = 0x0800;

    pub const ARP: u16 = 0x0806;

    pub const IEEE_8021Q: u16 = 0x8100;

    pub const IPV6: u16 = 0x86DD;

    /// The protocol that `ethertype` names.
    pub open spec fn spec_classify(ethertype: u16) -> Ethertypes {
        if ethertype == 0x0800 {
            Ethertypes::Ipv4
        } else if ethertype == 0x0806 {
            Ethertypes::Arp
        } else if ethertype == 0x8100 {
            Ethertypes::Ieee8021q
        } else if ethertype == 0x86DD {
            Ethertypes::Ipv6
        } else {
            Ethertypes::Unsupported
        }
    }

    /// The protocol that `ethertype` names.
    pub fn classify(ethertype: u16) -> (t: Ethertypes)
        ensures
            t == Self::spec_classify(ethertype),
    {
        if ethertype == Self::IPV4 {
            Ethertypes::Ipv4
        } else if ethertype == Self::ARP {
            Ethertypes::Arp
        } else if ethertype == Self::IEEE_8021Q {
            Ethertypes::Ieee8021q
        } else if ethertype == Self::IPV6 {
            Ethertypes::Ipv6
        } else {
            Ethertypes::Unsupported
        }
    }

    /// Whether a network-layer header follows, directly or behind a VLAN tag:
    /// true for IPv4, IPv6 and 802.1Q.
    #[inline(always)]
    pub fn has_l3(ethertype: u16) -> (r: bool)
        ensures
            r == (ethertype == 0x0800 || ethertype == 0x86DD || ethertype == 0x8100),
    {
        return (ethertype == Ethertypes::IPV4) || (ethertype == Ethertypes::IPV6) || (ethertype
            == Ethertypes::IEEE_8021Q);
    }
}

} // verus!
