//! Keeper of the counters.

use vstd::prelude::*;
use crate::stats::stats::idsm_stats;

verus! {

/// Owns the counters; they change only by the increments below.
pub struct idsm_stats_mgr {
    stats: idsm_stats,
}

impl View for idsm_stats_mgr {
    type V = idsm_stats;

    closed spec fn view(&self) -> idsm_stats {
        self.stats
    }
}

impl idsm_stats_mgr {
    /// All counters zero.
    pub fn new() -> (stats_mgr: idsm_stats_mgr)
        ensures
            stats_mgr@ == idsm_stats::spec_new(),
    {
        idsm_stats_mgr { stats: idsm_stats::new() }
    }

    /// Every counter of `s` can grow by `n`.
    pub open spec fn spec_room(s: idsm_stats, n: u64) -> bool {
        &&& s.n_rx + n <= u64::MAX
        &&& s.n_eth_rx + n <= u64::MAX
        &&& s.n_vlan_rx + n <= u64::MAX
        &&& s.n_arp_rx + n <= u64::MAX
        &&& s.n_ipv4_rx + n <= u64::MAX
        &&& s.n_ipv6_rx + n <= u64::MAX
        &&& s.n_tcp_rx + n <= u64::MAX
    }

    /// Whether every counter can grow by `n`.
    pub fn has_room(&self, n: u64) -> (r: bool)
        ensures
            r == Self::spec_room(self@, n),
    {
        let top: u64 = u64::MAX - n;
        self.stats.n_rx <= top && self.stats.n_eth_rx <= top && self.stats.n_vlan_rx <= top
            && self.stats.n_arp_rx <= top && self.stats.n_ipv4_rx <= top && self.stats.n_ipv6_rx
            <= top && self.stats.n_tcp_rx <= top
    }

    /// The counters as they stand.
    pub fn get(&mut self) -> (s: &idsm_stats)
        ensures
            *s == old(self)@,
            final(self)@ == old(self)@,
    {
        return &self.stats;
    }

    /// Counts a received frame.
    pub fn inc_rx(&mut self)
        requires
            old(self)@.n_rx < u64::MAX,
        ensures
            final(self)@ == (idsm_stats { n_rx: (old(self)@.n_rx + 1) as u64, ..old(self)@ }),
    {
        self.stats.n_rx += 1;
    }

    /// Counts a decoded Ethernet header.
    pub fn inc_eth_rx(&mut self)
        requires
            old(self)@.n_eth_rx < u64::MAX,
        ensures
            final(self)@ == (idsm_stats {
                n_eth_rx: (old(self)@.n_eth_rx + 1) as u64,
                ..old(self)@
            }),
    {
        self.stats.n_eth_rx += 1;
    }

    /// Counts a decoded ARP header.
    pub fn inc_arp_rx(&mut self)
        requires
            old(self)@.n_arp_rx < u64::MAX,
        ensures
            final(self)@ == (idsm_stats {
                n_arp_rx: (old(self)@.n_arp_rx + 1) as u64,
                ..old(self)@
            }),
    {
        self.stats.n_arp_rx += 1;
    }

    /// Counts a decoded VLAN tag.
    pub fn inc_vlan_rx(&mut self)
        requires
            old(self)@.n_vlan_rx < u64::MAX,
        ensures
            final(self)@ == (idsm_stats {
                n_vlan_rx: (old(self)@.n_vlan_rx + 1) as u64,
                ..old(self)@
            }),
    {
        self.stats.n_vlan_rx += 1;
    }

    /// Counts a decoded IPv4 header.
    pub fn inc_ipv4_rx(&mut self)
        requires
            old(self)@.n_ipv4_rx < u64::MAX,
        ensures
            final(self)@ == (idsm_stats {
                n_ipv4_rx: (old(self)@.n_ipv4_rx + 1) as u64,
                ..old(self)@
            }),
    {
        self.stats.n_ipv4_rx += 1;
    }

    /// Counts a decoded IPv6 header.
    pub fn inc_ipv6_rx(&mut self)
        requires
            old(self)@.n_ipv6_rx < u64::MAX,
        ensures
            final(self)@ == (idsm_stats {
                n_ipv6_rx: (old(self)@.n_ipv6_rx + 1) as u64,
                ..old(self)@
            }),
    {
        self.stats.n_ipv6_rx += 1;
    }

    /// Counts a decoded TCP header.
    pub fn inc_tcp_rx(&mut self)
        requires
            old(self)@.n_tcp_rx < u64::MAX,
        ensures
            final(self)@ == (idsm_stats {
                n_tcp_rx: (old(self)@.n_tcp_rx + 1) as u64,
                ..old(self)@
            }),
    {
        self.stats.n_tcp_rx += 1;
    }
}

} // verus!
