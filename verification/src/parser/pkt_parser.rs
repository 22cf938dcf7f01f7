//! Layer dispatch: Ethernet, VLAN tags, then ARP, IPv4 or IPv6, then TCP or
//! ICMPv6.  The first decoder that refuses the frame ends the run.

use vstd::prelude::*;
use crate::events::event_desc::event_desc;
use crate::events::event_mgr::event_mgr;
use crate::protocols::decode::{decode_error, events_logged};
use crate::protocols::l2::arp::arp_hdr;
use crate::protocols::l2::eth::eth_hdr;
use crate::protocols::l2::ethertypes::Ethertypes;
use crate::protocols::l2::vlan::vlan_hdr;
use crate::protocols::l3::ipv4::ipv4_hdr;
use crate::protocols::l3::ipv6::ipv6_hdr;
use crate::protocols::l3::protocol_types::ProtocolTypes;
use crate::protocols::l4::icmp6::icmp6_hdr;
use crate::protocols::l4::tcp::tcp_hdr;
use crate::protocols::packet::{packet, rest_of};
use crate::stats::stats::idsm_stats;
use crate::stats::stats_mgr::idsm_stats_mgr;

verus! {

/// The headers of one frame, which of them were present, and the ethertype
/// behind the VLAN tags.
#[derive(Clone, Copy, Debug)]
pub struct pkt_parser {
    pub eh: eth_hdr,
    pub ah: arp_hdr,
    pub vh: vlan_hdr,
    pub ipv4_h: ipv4_hdr,
    pub ipv6_h: ipv6_hdr,
    pub tcp_h: tcp_hdr,
    pub icmp6_h: icmp6_hdr,
    pub has_vlan_h: bool,
    pub has_ipv4_h: bool,
    pub has_ipv6_h: bool,
    pub has_tcp_h: bool,
    pub has_icmp6_h: bool,
    pub ethertype: u16,
}

/// What a run of the dispatcher, or of one of its stages, comes to.
pub struct parse_run {
    /// Whether the frame was accepted, else why the run stopped.
    pub verdict: Result<(), decode_error>,
    /// Number of bytes consumed.
    pub consumed: nat,
    /// The parser at the end of the run.
    pub parser: pkt_parser,
    /// Number of headers decoded, for each counter.
    pub n_eth: nat,
    pub n_vlan: nat,
    pub n_arp: nat,
    pub n_ipv4: nat,
    pub n_ipv6: nat,
    pub n_tcp: nat,
}

impl parse_run {
    /// A run that decodes no header: it ends with `verdict` after `consumed`
    /// bytes and leaves the parser as it is.
    pub open spec fn idle(parser: pkt_parser, verdict: Result<(), decode_error>, consumed: nat)
        -> parse_run {
        parse_run {
            verdict,
            consumed,
            parser,
            n_eth: 0,
            n_vlan: 0,
            n_arp: 0,
            n_ipv4: 0,
            n_ipv6: 0,
            n_tcp: 0,
        }
    }

    /// The run `self` followed by the run `next`, which starts where `self`
    /// ends.
    pub open spec fn followed_by(self, next: parse_run) -> parse_run {
        parse_run {
            verdict: next.verdict,
            consumed: self.consumed + next.consumed,
            parser: next.parser,
            n_eth: self.n_eth + next.n_eth,
            n_vlan: self.n_vlan + next.n_vlan,
            n_arp: self.n_arp + next.n_arp,
            n_ipv4: self.n_ipv4 + next.n_ipv4,
            n_ipv6: self.n_ipv6 + next.n_ipv6,
            n_tcp: self.n_tcp + next.n_tcp,
        }
    }

    /// The counters `s` can take the headers of the run.
    pub open spec fn countable(self, s: idsm_stats) -> bool {
        &&& s.n_eth_rx + self.n_eth <= u64::MAX
        &&& s.n_vlan_rx + self.n_vlan <= u64::MAX
        &&& s.n_arp_rx + self.n_arp <= u64::MAX
        &&& s.n_ipv4_rx + self.n_ipv4 <= u64::MAX
        &&& s.n_ipv6_rx + self.n_ipv6 <= u64::MAX
        &&& s.n_tcp_rx + self.n_tcp <= u64::MAX
    }

    /// The counters `s` after the headers of the run were counted.
    pub open spec fn counted(self, s: idsm_stats) -> idsm_stats {
        idsm_stats {
            n_rx: s.n_rx,
            n_eth_rx: (s.n_eth_rx + self.n_eth) as u64,
            n_vlan_rx: (s.n_vlan_rx + self.n_vlan) as u64,
            n_arp_rx: (s.n_arp_rx + self.n_arp) as u64,
            n_ipv4_rx: (s.n_ipv4_rx + self.n_ipv4) as u64,
            n_ipv6_rx: (s.n_ipv6_rx + self.n_ipv6) as u64,
            n_tcp_rx: (s.n_tcp_rx + self.n_tcp) as u64,
        }
    }

    /// The run `self` is what happened: it gave the result `ret` and the
    /// parser `parser`, moved the cursor of `pa` to that of `pb` and changed
    /// nothing else of the frame, raised in `e1` the event that `ret` names,
    /// if any, behind the events of `e0`, and counted its headers from `s0`
    /// to `s1`.
    pub open spec fn describes(
        self,
        ret: Result<(), decode_error>,
        parser: pkt_parser,
        pa: packet,
        pb: packet,
        e0: event_mgr,
        e1: event_mgr,
        s0: idsm_stats,
        s1: idsm_stats,
    ) -> bool {
        &&& ret == self.verdict
        &&& parser == self.parser
        &&& pb.advanced(&pa, self.consumed)
        &&& events_logged(&e0, &e1, ret)
        &&& s1 == self.counted(s0)
    }
}

impl pkt_parser {
    /// The TCP stage on the bytes `b`.
    pub open spec fn spec_tcp(self, b: Seq<u8>) -> parse_run {
        if tcp_hdr::spec_verdict(b) is Ok {
            parse_run {
                n_tcp: 1,
                ..parse_run::idle(
                    pkt_parser {
                        tcp_h: tcp_hdr::spec_unpack(b, self.tcp_h),
                        has_tcp_h: true,
                        ..self
                    },
                    tcp_hdr::spec_verdict(b),
                    tcp_hdr::spec_consumed(b),
                )
            }
        } else {
            parse_run::idle(self, tcp_hdr::spec_verdict(b), tcp_hdr::spec_consumed(b))
        }
    }

    /// The ICMPv6 stage on the bytes `b`.
    pub open spec fn spec_icmp6(self, b: Seq<u8>) -> parse_run {
        if icmp6_hdr::spec_verdict(b) is Ok {
            parse_run::idle(
                pkt_parser {
                    icmp6_h: icmp6_hdr::spec_unpack(b, self.icmp6_h),
                    has_icmp6_h: true,
                    ..self
                },
                icmp6_hdr::spec_verdict(b),
                icmp6_hdr::spec_consumed(b),
            )
        } else {
            parse_run::idle(self, icmp6_hdr::spec_verdict(b), icmp6_hdr::spec_consumed(b))
        }
    }

    /// The transport stage on the bytes `b`, chosen by the protocol number:
    /// TCP, ICMPv6, or nothing for any other number.
    pub open spec fn spec_l4(self, b: Seq<u8>, protocol: u8) -> parse_run {
        match ProtocolTypes::spec_classify(protocol) {
            ProtocolTypes::Tcp => self.spec_tcp(b),
            ProtocolTypes::Icmp6 => self.spec_icmp6(b),
            ProtocolTypes::Unsupported => parse_run::idle(self, Err(decode_error::Unsupported), 0),
        }
    }

    /// The IPv4 stage on the bytes `b`, and the transport stage behind it.
    pub open spec fn spec_ipv4(self, b: Seq<u8>) -> parse_run {
        if ipv4_hdr::spec_verdict(b) is Ok {
            let hdr = ipv4_hdr::spec_unpack(b);
            let mid = pkt_parser { ipv4_h: hdr, has_ipv4_h: true, ..self };
            (parse_run { n_ipv4: 1, ..parse_run::idle(mid, Ok(()), 20) }).followed_by(
                mid.spec_l4(b.skip(20), hdr.protocol),
            )
        } else {
            parse_run::idle(self, ipv4_hdr::spec_verdict(b), ipv4_hdr::spec_consumed(b))
        }
    }

    /// The IPv6 stage on the bytes `b`, and the transport stage behind it.
    pub open spec fn spec_ipv6(self, b: Seq<u8>) -> parse_run {
        if ipv6_hdr::spec_verdict(b) is Ok {
            let hdr = ipv6_hdr::spec_unpack(b);
            let mid = pkt_parser { ipv6_h: hdr, has_ipv6_h: true, ..self };
            (parse_run { n_ipv6: 1, ..parse_run::idle(mid, Ok(()), 40) }).followed_by(
                mid.spec_l4(b.skip(40), hdr.next_hdr),
            )
        } else {
            parse_run::idle(self, ipv6_hdr::spec_verdict(b), ipv6_hdr::spec_consumed(b))
        }
    }

    /// One VLAN tag on the bytes `b`: the ethertype of the tag becomes the
    /// ethertype to dispatch on.
    pub open spec fn spec_vlan(self, b: Seq<u8>) -> parse_run {
        if vlan_hdr::spec_verdict(b) is Ok {
            let hdr = vlan_hdr::spec_unpack(b);
            parse_run {
                n_vlan: 1,
                ..parse_run::idle(
                    pkt_parser { vh: hdr, has_vlan_h: true, ethertype: hdr.ethertype, ..self },
                    vlan_hdr::spec_verdict(b),
                    vlan_hdr::spec_consumed(b),
                )
            }
        } else {
            parse_run::idle(self, vlan_hdr::spec_verdict(b), vlan_hdr::spec_consumed(b))
        }
    }

    /// The VLAN tags on the bytes `b`, one after the other, for as long as
    /// the ethertype to dispatch on is 802.1Q.
    pub open spec fn spec_tags(self, b: Seq<u8>) -> parse_run
        decreases b.len(),
    {
        if Ethertypes::spec_classify(self.ethertype) != Ethertypes::Ieee8021q {
            parse_run::idle(self, Ok(()), 0)
        } else if vlan_hdr::spec_verdict(b) is Ok {
            self.spec_vlan(b).followed_by(self.spec_vlan(b).parser.spec_tags(b.skip(4)))
        } else {
            self.spec_vlan(b)
        }
    }

    /// The ARP stage on the bytes `b`.
    pub open spec fn spec_arp(self, b: Seq<u8>) -> parse_run {
        if arp_hdr::spec_verdict(b) is Ok {
            parse_run {
                n_arp: 1,
                ..parse_run::idle(
                    pkt_parser { ah: arp_hdr::spec_unpack(b), ..self },
                    arp_hdr::spec_verdict(b),
                    arp_hdr::spec_consumed(b),
                )
            }
        } else {
            parse_run::idle(self, arp_hdr::spec_verdict(b), arp_hdr::spec_consumed(b))
        }
    }

    /// The Ethernet header on the bytes `b`: its ethertype becomes the
    /// ethertype to dispatch on.
    pub open spec fn spec_eth(self, b: Seq<u8>, check_src_mac: bool) -> parse_run {
        if eth_hdr::spec_verdict(b, check_src_mac) is Ok {
            let hdr = eth_hdr::spec_unpack(b);
            parse_run {
                n_eth: 1,
                ..parse_run::idle(
                    pkt_parser { eh: hdr, ethertype: hdr.ethertype, ..self },
                    eth_hdr::spec_verdict(b, check_src_mac),
                    eth_hdr::spec_consumed(b),
                )
            }
        } else {
            parse_run::idle(
                self,
                eth_hdr::spec_verdict(b, check_src_mac),
                eth_hdr::spec_consumed(b),
            )
        }
    }

    /// What follows the VLAN tags at the link layer, on the bytes `b`: the
    /// ARP stage for ARP, nothing for IPv4 and IPv6, which the network stage
    /// takes up, and a refusal for any other ethertype.
    pub open spec fn spec_l2_tail(self, b: Seq<u8>) -> parse_run {
        match Ethertypes::spec_classify(self.ethertype) {
            Ethertypes::Arp => self.spec_arp(b),
            Ethertypes::Ipv4 => parse_run::idle(self, Ok(()), 0),
            Ethertypes::Ipv6 => parse_run::idle(self, Ok(()), 0),
            _ => parse_run::idle(self, Err(decode_error::Unsupported), 0),
        }
    }

    /// The link stage on the bytes `b`: Ethernet header, VLAN tags, and ARP
    /// where the ethertype behind the tags is ARP.
    pub open spec fn spec_l2(self, b: Seq<u8>, check_src_mac: bool) -> parse_run {
        let eth = self.spec_eth(b, check_src_mac);
        if eth.verdict is Err {
            eth
        } else {
            let tags = eth.followed_by(eth.parser.spec_tags(b.skip(14)));
            if tags.verdict is Err {
                tags
            } else {
                tags.followed_by(tags.parser.spec_l2_tail(rest_of(b, tags.consumed)))
            }
        }
    }

    /// The parser with every presence flag cleared.
    pub open spec fn spec_cleared(self) -> pkt_parser {
        pkt_parser {
            has_vlan_h: false,
            has_ipv4_h: false,
            has_ipv6_h: false,
            has_tcp_h: false,
            has_icmp6_h: false,
            ..self
        }
    }

    /// The network stage on the bytes `b`, chosen by the ethertype behind the
    /// VLAN tags: IPv4, IPv6, or nothing where the link stage did it all.
    pub open spec fn spec_l3(self, b: Seq<u8>) -> parse_run {
        match Ethertypes::spec_classify(self.ethertype) {
            Ethertypes::Ipv4 => self.spec_ipv4(b),
            Ethertypes::Ipv6 => self.spec_ipv6(b),
            Ethertypes::Arp => parse_run::idle(self, Ok(()), 0),
            _ => parse_run::idle(self, Err(decode_error::Unsupported), 0),
        }
    }

    /// The whole run on the bytes `b` of a frame: the presence flags are
    /// cleared, then the link stage, the network stage and the transport
    /// stage follow each other until one of them refuses the frame.
    pub open spec fn spec_parse(self, b: Seq<u8>, check_src_mac: bool) -> parse_run {
        let l2 = self.spec_cleared().spec_l2(b, check_src_mac);
        if l2.verdict is Err {
            l2
        } else {
            l2.followed_by(l2.parser.spec_l3(rest_of(b, l2.consumed)))
        }
    }

    /// The parser with zeroed headers and no header present.
    pub open spec fn spec_new() -> pkt_parser {
        pkt_parser {
            eh: eth_hdr::spec_new(),
            ah: arp_hdr::spec_new(),
            vh: vlan_hdr::spec_new(),
            ipv4_h: ipv4_hdr::spec_new(),
            ipv6_h: ipv6_hdr::spec_new(),
            tcp_h: tcp_hdr::spec_new(),
            icmp6_h: icmp6_hdr::spec_new(),
            has_vlan_h: false,
            has_ipv4_h: false,
            has_ipv6_h: false,
            has_tcp_h: false,
            has_icmp6_h: false,
            ethertype: 0,
        }
    }

    /// A parser with zeroed headers and no header present.
    pub fn new() -> (parser: pkt_parser)
        ensures
            parser == Self::spec_new(),
    {
        pkt_parser {
            eh: eth_hdr::new(),
            ah: arp_hdr::new(),
            vh: vlan_hdr::new(),
            ipv4_h: ipv4_hdr::new(),
            ipv6_h: ipv6_hdr::new(),
            tcp_h: tcp_hdr::new(),
            icmp6_h: icmp6_hdr::new(),
            has_vlan_h: false,
            has_ipv4_h: false,
            has_ipv6_h: false,
            has_tcp_h: false,
            has_icmp6_h: false,
            ethertype: 0,
        }
    }

    /// Decodes a TCP header and counts it.
    fn parse_tcp(
        &mut self,
        p: &mut packet,
        evt_mgr: &mut event_mgr,
        stats_mgr: &mut idsm_stats_mgr,
    ) -> (ret: Result<(), decode_error>)
        requires
            old(p).wf(),
            old(self).spec_tcp(old(p).remaining()).countable(old(stats_mgr)@),
        ensures
            old(self).spec_tcp(old(p).remaining()).describes(
                ret,
                *final(self),
                *old(p),
                *final(p),
                *old(evt_mgr),
                *final(evt_mgr),
                old(stats_mgr)@,
                final(stats_mgr)@,
            ),
    {
        let ret = self.tcp_h.deserialize(p, evt_mgr);
        if ret.is_err() {
            return ret;
        }
        stats_mgr.inc_tcp_rx();
        self.has_tcp_h = true;

        return ret;
    }

    /// Decodes the transport header that the protocol number names.
    fn match_l4(
        &mut self,
        p: &mut packet,
        evt_mgr: &mut event_mgr,
        protocol: u8,
        stats_mgr: &mut idsm_stats_mgr,
    ) -> (ret: Result<(), decode_error>)
        requires
            old(p).wf(),
            old(self).spec_l4(old(p).remaining(), protocol).countable(old(stats_mgr)@),
        ensures
            old(self).spec_l4(old(p).remaining(), protocol).describes(
                ret,
                *final(self),
                *old(p),
                *final(p),
                *old(evt_mgr),
                *final(evt_mgr),
                old(stats_mgr)@,
                final(stats_mgr)@,
            ),
    {
        match ProtocolTypes::classify(protocol) {
            ProtocolTypes::Tcp => self.parse_tcp(p, evt_mgr, stats_mgr),
            ProtocolTypes::Icmp6 => {
                let ret = self.icmp6_h.deserialize(p, evt_mgr);
                if ret.is_ok() {
                    self.has_icmp6_h = true;
                }
                ret
            },
            ProtocolTypes::Unsupported => Err(decode_error::Unsupported),
        }
    }

    /// Decodes an IPv4 header, counts it, and goes on with the transport
    /// header.
    fn parse_ipv4(
        &mut self,
        p: &mut packet,
        evt_mgr: &mut event_mgr,
        stats_mgr: &mut idsm_stats_mgr,
    ) -> (ret: Result<(), decode_error>)
        requires
            old(p).wf(),
            old(self).spec_ipv4(old(p).remaining()).countable(old(stats_mgr)@),
        ensures
            old(self).spec_ipv4(old(p).remaining()).describes(
                ret,
                *final(self),
                *old(p),
                *final(p),
                *old(evt_mgr),
                *final(evt_mgr),
                old(stats_mgr)@,
                final(stats_mgr)@,
            ),
    {
        let ghost b = p.remaining();
        let ret = self.ipv4_h.deserialize(p, evt_mgr);
        if ret.is_err() {
            return ret;
        }
        stats_mgr.inc_ipv4_rx();
        self.has_ipv4_h = true;
        assert(p.remaining() =~= b.skip(20));

        let protocol = self.ipv4_h.protocol;
        self.match_l4(p, evt_mgr, protocol, stats_mgr)
    }

    /// Decodes an IPv6 header, counts it, and goes on with the transport
    /// header.
    fn parse_ipv6(
        &mut self,
        p: &mut packet,
        evt_mgr: &mut event_mgr,
        stats_mgr: &mut idsm_stats_mgr,
    ) -> (ret: Result<(), decode_error>)
        requires
            old(p).wf(),
            old(self).spec_ipv6(old(p).remaining()).countable(old(stats_mgr)@),
        ensures
            old(self).spec_ipv6(old(p).remaining()).describes(
                ret,
                *final(self),
                *old(p),
                *final(p),
                *old(evt_mgr),
                *final(evt_mgr),
                old(stats_mgr)@,
                final(stats_mgr)@,
            ),
    {
        let ghost b = p.remaining();
        let ret = self.ipv6_h.deserialize(p, evt_mgr);
        if ret.is_err() {
            return ret;
        }
        stats_mgr.inc_ipv6_rx();
        self.has_ipv6_h = true;
        assert(p.remaining() =~= b.skip(40));

        let next_hdr = self.ipv6_h.next_hdr;
        self.match_l4(p, evt_mgr, next_hdr, stats_mgr)
    }

    /// Decodes one VLAN tag, counts it, and takes its ethertype as the one to
    /// dispatch on.
    fn parse_vlan(
        &mut self,
        p: &mut packet,
        evt_mgr: &mut event_mgr,
        stats_mgr: &mut idsm_stats_mgr,
    ) -> (ret: Result<(), decode_error>)
        requires
            old(p).wf(),
            old(self).spec_vlan(old(p).remaining()).countable(old(stats_mgr)@),
        ensures
            old(self).spec_vlan(old(p).remaining()).describes(
                ret,
                *final(self),
                *old(p),
                *final(p),
                *old(evt_mgr),
                *final(evt_mgr),
                old(stats_mgr)@,
                final(stats_mgr)@,
            ),
    {
        let ret = self.vh.deserialize(p, evt_mgr);
        if ret.is_err() {
            return ret;
        }
        stats_mgr.inc_vlan_rx();
        self.has_vlan_h = true;
        self.ethertype = self.vh.ethertype;

        return ret;
    }

    /// Decodes the Ethernet header, counts it, and takes its ethertype as the
    /// one to dispatch on.
    fn parse_eth(
        &mut self,
        p: &mut packet,
        evt_mgr: &mut event_mgr,
        stats_mgr: &mut idsm_stats_mgr,
        check_src_mac: bool,
    ) -> (ret: Result<(), decode_error>)
        requires
            old(p).wf(),
            old(self).spec_eth(old(p).remaining(), check_src_mac).countable(old(stats_mgr)@),
        ensures
            old(self).spec_eth(old(p).remaining(), check_src_mac).describes(
                ret,
                *final(self),
                *old(p),
                *final(p),
                *old(evt_mgr),
                *final(evt_mgr),
                old(stats_mgr)@,
                final(stats_mgr)@,
            ),
    {
        let ret = self.eh.deserialize(p, evt_mgr, check_src_mac);
        if ret.is_err() {
            return ret;
        }
        stats_mgr.inc_eth_rx();
        self.ethertype = self.eh.ethertype;

        return ret;
    }

    /// Decodes VLAN tags for as long as the ethertype to dispatch on is
    /// 802.1Q.
    fn parse_tags(
        &mut self,
        p: &mut packet,
        evt_mgr: &mut event_mgr,
        stats_mgr: &mut idsm_stats_mgr,
    ) -> (ret: Result<(), decode_error>)
        requires
            old(p).wf(),
            old(self).spec_tags(old(p).remaining()).countable(old(stats_mgr)@),
        ensures
            old(self).spec_tags(old(p).remaining()).describes(
                ret,
                *final(self),
                *old(p),
                *final(p),
                *old(evt_mgr),
                *final(evt_mgr),
                old(stats_mgr)@,
                final(stats_mgr)@,
            ),
    {
        let ghost all = self.spec_tags(p.remaining());
        let ghost mut done = parse_run::idle(*self, Ok(()), 0);

        while self.ethertype == Ethertypes::IEEE_8021Q
            invariant
                p.wf(),
                all == old(self).spec_tags(old(p).remaining()),
                all.countable(old(stats_mgr)@),
                all == done.followed_by(self.spec_tags(p.remaining())),
                done.verdict is Ok,
                done.describes(
                    done.verdict,
                    *self,
                    *old(p),
                    *p,
                    *old(evt_mgr),
                    *evt_mgr,
                    old(stats_mgr)@,
                    stats_mgr@,
                ),
            decreases p.remaining_len(),
        {
            let ghost rest = p.remaining();
            let ghost one = self.spec_vlan(rest);
            let ghost pb = *p;
            let ghost e1 = *evt_mgr;
            let ghost s1 = stats_mgr@;
            proof {
                lemma_run_split(done, self.spec_tags(rest), old(stats_mgr)@);
                if vlan_hdr::spec_verdict(rest) is Ok {
                    lemma_run_split(one, one.parser.spec_tags(rest.skip(4)), s1);
                }
            }
            let ret = self.parse_vlan(p, evt_mgr, stats_mgr);
            proof {
                lemma_run_joined(
                    done,
                    one,
                    ret,
                    *self,
                    *old(p),
                    pb,
                    *p,
                    *old(evt_mgr),
                    e1,
                    *evt_mgr,
                    old(stats_mgr)@,
                    s1,
                    stats_mgr@,
                );
            }
            if ret.is_err() {
                return ret;
            }
            proof {
                assert(p.remaining() =~= rest.skip(4));
                done = done.followed_by(one);
            }
        }
        Ok(())
    }

    /// Decodes what the ethertype behind the VLAN tags names at the link
    /// layer: the ARP header, which it counts, or nothing.
    fn parse_l2_tail(
        &mut self,
        p: &mut packet,
        evt_mgr: &mut event_mgr,
        stats_mgr: &mut idsm_stats_mgr,
    ) -> (ret: Result<(), decode_error>)
        requires
            old(p).wf(),
            old(self).spec_l2_tail(old(p).remaining()).countable(old(stats_mgr)@),
        ensures
            old(self).spec_l2_tail(old(p).remaining()).describes(
                ret,
                *final(self),
                *old(p),
                *final(p),
                *old(evt_mgr),
                *final(evt_mgr),
                old(stats_mgr)@,
                final(stats_mgr)@,
            ),
    {
        match Ethertypes::classify(self.ethertype) {
            Ethertypes::Arp => {
                let ret = self.ah.deserialize(p, evt_mgr);
                if ret.is_ok() {
                    stats_mgr.inc_arp_rx();
                }
                ret
            },
            Ethertypes::Ipv4 => Ok(()),
            Ethertypes::Ipv6 => Ok(()),
            _ => Err(decode_error::Unsupported),
        }
    }

    /// Decodes the Ethernet header, the VLAN tags behind it and, for ARP, the
    /// ARP header, and counts each.
    fn parse_l2(
        &mut self,
        p: &mut packet,
        evt_mgr: &mut event_mgr,
        stats_mgr: &mut idsm_stats_mgr,
        check_src_mac: bool,
    ) -> (ret: Result<(), decode_error>)
        requires
            old(p).wf(),
            old(self).spec_l2(old(p).remaining(), check_src_mac).countable(old(stats_mgr)@),
        ensures
            old(self).spec_l2(old(p).remaining(), check_src_mac).describes(
                ret,
                *final(self),
                *old(p),
                *final(p),
                *old(evt_mgr),
                *final(evt_mgr),
                old(stats_mgr)@,
                final(stats_mgr)@,
            ),
    {
        let ghost b = p.remaining();
        let ghost s0 = stats_mgr@;
        let ghost eth = self.spec_eth(b, check_src_mac);
        let ghost tags = eth.parser.spec_tags(b.skip(14));
        let ghost both = eth.followed_by(tags);
        let ghost tail = both.parser.spec_l2_tail(rest_of(b, both.consumed));
        proof {
            if eth.verdict is Ok {
                if both.verdict is Ok {
                    lemma_run_split(both, tail, s0);
                }
                lemma_run_split(eth, tags, s0);
            }
        }
        let ret = self.parse_eth(p, evt_mgr, stats_mgr, check_src_mac);
        if ret.is_err() {
            return ret;
        }
        let ghost pb = *p;
        let ghost e1 = *evt_mgr;
        let ghost s1 = stats_mgr@;
        assert(p.remaining() =~= b.skip(14));

        let ret = self.parse_tags(p, evt_mgr, stats_mgr);
        proof {
            lemma_run_joined(
                eth,
                tags,
                ret,
                *self,
                *old(p),
                pb,
                *p,
                *old(evt_mgr),
                e1,
                *evt_mgr,
                s0,
                s1,
                stats_mgr@,
            );
        }
        if ret.is_err() {
            return ret;
        }
        let ghost pc = *p;
        let ghost e2 = *evt_mgr;
        let ghost s2 = stats_mgr@;

        let ret = self.parse_l2_tail(p, evt_mgr, stats_mgr);
        proof {
            lemma_run_joined(
                both,
                tail,
                ret,
                *self,
                *old(p),
                pc,
                *p,
                *old(evt_mgr),
                e2,
                *evt_mgr,
                s0,
                s2,
                stats_mgr@,
            );
        }
        ret
    }

    /// Decodes the network header that the ethertype behind the VLAN tags
    /// names, and the transport header behind it.
    fn parse_l3(
        &mut self,
        p: &mut packet,
        evt_mgr: &mut event_mgr,
        stats_mgr: &mut idsm_stats_mgr,
    ) -> (ret: Result<(), decode_error>)
        requires
            old(p).wf(),
            old(self).spec_l3(old(p).remaining()).countable(old(stats_mgr)@),
        ensures
            old(self).spec_l3(old(p).remaining()).describes(
                ret,
                *final(self),
                *old(p),
                *final(p),
                *old(evt_mgr),
                *final(evt_mgr),
                old(stats_mgr)@,
                final(stats_mgr)@,
            ),
    {
        match Ethertypes::classify(self.ethertype) {
            Ethertypes::Ipv4 => self.parse_ipv4(p, evt_mgr, stats_mgr),
            Ethertypes::Ipv6 => self.parse_ipv6(p, evt_mgr, stats_mgr),
            Ethertypes::Arp => Ok(()),
            _ => Err(decode_error::Unsupported),
        }
    }

    /// Parses the frame at the cursor: the presence flags are cleared, then
    /// each layer is decoded by the decoder that the layer before names.  The
    /// first refusal ends the run; the flags and the counters then tell how
    /// far it came.  With `check_src_mac` an Ethernet source address of all
    /// zeros or all ones is refused.
    pub fn parse(
        &mut self,
        p: &mut packet,
        evt_mgr: &mut event_mgr,
        stats_mgr: &mut idsm_stats_mgr,
        check_src_mac: bool,
    ) -> (ret: Result<(), decode_error>)
        requires
            old(p).wf(),
            old(self).spec_parse(old(p).remaining(), check_src_mac).countable(old(stats_mgr)@),
        ensures
            old(self).spec_parse(old(p).remaining(), check_src_mac).describes(
                ret,
                *final(self),
                *old(p),
                *final(p),
                *old(evt_mgr),
                *final(evt_mgr),
                old(stats_mgr)@,
                final(stats_mgr)@,
            ),
    {
        let ghost b = p.remaining();
        let ghost s0 = stats_mgr@;
        self.has_vlan_h = false;
        self.has_ipv4_h = false;
        self.has_ipv6_h = false;
        self.has_tcp_h = false;
        self.has_icmp6_h = false;

        let ghost l2 = self.spec_l2(b, check_src_mac);
        let ghost l3 = l2.parser.spec_l3(rest_of(b, l2.consumed));
        proof {
            if l2.verdict is Ok {
                lemma_run_split(l2, l3, s0);
            }
        }
        let ret = self.parse_l2(p, evt_mgr, stats_mgr, check_src_mac);
        if ret.is_err() {
            return ret;
        }
        let ghost pb = *p;
        let ghost e1 = *evt_mgr;
        let ghost s1 = stats_mgr@;
        assert(p.remaining() =~= rest_of(b, l2.consumed));

        let ret = self.parse_l3(p, evt_mgr, stats_mgr);
        proof {
            lemma_run_joined(
                l2,
                l3,
                ret,
                *self,
                *old(p),
                pb,
                *p,
                *old(evt_mgr),
                e1,
                *evt_mgr,
                s0,
                s1,
                stats_mgr@,
            );
        }
        ret
    }
}

/// A frame shorter than an Ethernet header is refused as `EthShortHeader`
/// before any layer is decoded: nothing is consumed, no header is counted,
/// and the parser is left with its presence flags cleared and nothing else
/// changed.
pub proof fn lemma_short_frame_stops_at_ethernet(
    parser: pkt_parser,
    b: Seq<u8>,
    check_src_mac: bool,
)
    requires
        b.len() < 14,
    ensures
        parser.spec_parse(b, check_src_mac) == parse_run::idle(
            parser.spec_cleared(),
            Err(decode_error::Denied(event_desc::EthShortHeader)),
            0,
        ),
{
}

/// Parsing is a function of the frame.  Two runs that start from the same
/// parser on the same bytes, each with a cursor of its own at the same place,
/// end with the same result, the same headers and flags, and the same cursor;
/// and if the events raised before were the same, by disposition and
/// descriptor, so are the events raised after.
pub proof fn lemma_parse_twice_same(
    start: pkt_parser,
    b: Seq<u8>,
    check_src_mac: bool,
    pa: packet,
    ret1: Result<(), decode_error>,
    parser1: pkt_parser,
    pb: packet,
    e0: event_mgr,
    e1: event_mgr,
    s0: idsm_stats,
    s1: idsm_stats,
    ret2: Result<(), decode_error>,
    parser2: pkt_parser,
    pc: packet,
    f0: event_mgr,
    f1: event_mgr,
    t0: idsm_stats,
    t1: idsm_stats,
)
    requires
        start.spec_parse(b, check_src_mac).describes(ret1, parser1, pa, pb, e0, e1, s0, s1),
        start.spec_parse(b, check_src_mac).describes(ret2, parser2, pa, pc, f0, f1, t0, t1),
        e0.kinds() == f0.kinds(),
    ensures
        ret1 == ret2,
        parser1 == parser2,
        pb == pc,
        e1.kinds() == f1.kinds(),
{
    match ret1 {
        Err(decode_error::Denied(d)) => {
            assert(f1.kinds().drop_last() =~= f0.kinds());
            assert(f1.kinds() =~= f1.kinds().drop_last().push(f1.kinds().last()));
        },
        _ => {},
    }
}

/// The VLAN tags of a frame take four bytes each, and nothing else is counted
/// while they are decoded.
proof fn lemma_tags_bounded(parser: pkt_parser, b: Seq<u8>)
    ensures
        4 * parser.spec_tags(b).n_vlan <= b.len(),
        parser.spec_tags(b).n_eth == 0,
        parser.spec_tags(b).n_arp == 0,
        parser.spec_tags(b).n_ipv4 == 0,
        parser.spec_tags(b).n_ipv6 == 0,
        parser.spec_tags(b).n_tcp == 0,
    decreases b.len(),
{
    if Ethertypes::spec_classify(parser.ethertype) == Ethertypes::Ieee8021q
        && vlan_hdr::spec_verdict(b) is Ok {
        lemma_tags_bounded(parser.spec_vlan(b).parser, b.skip(4));
    }
}

/// No frame moves a counter far: a run counts one header at most of each
/// kind but VLAN tags, and of those one for every four bytes of the frame at
/// most.
pub proof fn lemma_run_bounded(parser: pkt_parser, b: Seq<u8>, check_src_mac: bool)
    ensures
        parser.spec_parse(b, check_src_mac).n_eth <= 1,
        4 * parser.spec_parse(b, check_src_mac).n_vlan <= b.len(),
        parser.spec_parse(b, check_src_mac).n_arp <= 1,
        parser.spec_parse(b, check_src_mac).n_ipv4 <= 1,
        parser.spec_parse(b, check_src_mac).n_ipv6 <= 1,
        parser.spec_parse(b, check_src_mac).n_tcp <= 1,
{
    let eth = parser.spec_cleared().spec_eth(b, check_src_mac);
    if eth.verdict is Ok {
        lemma_tags_bounded(eth.parser, b.skip(14));
    }
}

/// The counters that can take two runs in a row can take the first, and then
/// the second; counting both at once or one after the other is the same.
proof fn lemma_run_split(a: parse_run, b: parse_run, s: idsm_stats)
    requires
        a.followed_by(b).countable(s),
    ensures
        a.countable(s),
        b.countable(a.counted(s)),
        a.followed_by(b).counted(s) == b.counted(a.counted(s)),
{
}

/// Two stages in a row make the run of the first followed by the second.
proof fn lemma_run_joined(
    a: parse_run,
    b: parse_run,
    ret: Result<(), decode_error>,
    parser: pkt_parser,
    pa: packet,
    pb: packet,
    pc: packet,
    e0: event_mgr,
    e1: event_mgr,
    e2: event_mgr,
    s0: idsm_stats,
    s1: idsm_stats,
    s2: idsm_stats,
)
    requires
        a.verdict is Ok,
        a.followed_by(b).countable(s0),
        pb.advanced(&pa, a.consumed),
        e1@ == e0@,
        s1 == a.counted(s0),
        b.describes(ret, parser, pb, pc, e1, e2, s1, s2),
    ensures
        a.followed_by(b).describes(ret, parser, pa, pc, e0, e2, s0, s2),
{
    lemma_run_split(a, b, s0);
}

} // verus!
