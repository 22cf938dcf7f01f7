//! The counters.

use vstd::prelude::*;

verus! {

/// How many frames were received, and how many headers of each layer were
/// decoded.
#[derive(Clone, Copy, PartialEq, Eq, Structural, Debug)]
pub struct idsm_stats {
    pub n_rx: u64,
    pub n_eth_rx: u64,
    pub n_vlan_rx: u64,
    pub n_arp_rx: u64,
    pub n_ipv4_rx: u64,
    pub n_ipv6_rx: u64,
    pub n_tcp_rx: u64,
}

impl idsm_stats {
    /// The counters at zero.
    pub open spec fn spec_new() -> idsm_stats {
        idsm_stats {
            n_rx: 0,
            n_eth_rx: 0,
            n_vlan_rx: 0,
            n_arp_rx: 0,
            n_ipv4_rx: 0,
            n_ipv6_rx: 0,
            n_tcp_rx: 0,
        }
    }

    /// All counters zero.
    pub fn new() -> (stats: idsm_stats)
        ensures
            stats == Self::spec_new(),
    {
        idsm_stats {
            n_rx: 0,
            n_eth_rx: 0,
            n_vlan_rx: 0,
            n_arp_rx: 0,
            n_ipv4_rx: 0,
            n_ipv6_rx: 0,
            n_tcp_rx: 0,
        }
    }
}

} // verus!
