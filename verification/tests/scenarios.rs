use idsm::events::event_desc::event_desc;
use idsm::events::event_info::event_info;
use idsm::events::event_mgr::event_mgr;
use idsm::events::event_type::event_type;
use idsm::parser::pkt_parser::pkt_parser;
use idsm::protocols::decode::decode_error;
use idsm::protocols::l4::tcp::tcp_opt_timestamp;
use idsm::protocols::packet::packet;
use idsm::stats::stats::idsm_stats;
use idsm::stats::stats_mgr::idsm_stats_mgr;

fn frame(bytes: &[u8]) -> packet {
    let mut p = packet::new();
    p.buf[..bytes.len()].copy_from_slice(bytes);
    p.pkt_len = bytes.len();
    p
}

fn denied(d: event_desc) -> Result<(), decode_error> {
    Err(decode_error::Denied(d))
}

fn kinds(m: &mut event_mgr) -> Vec<(event_type, event_desc)> {
    let evs: Vec<event_info> = m.drain();
    evs.iter().map(|e| (e.event_type, e.event_desc)).collect()
}

fn eth(ethertype: u16) -> Vec<u8> {
    let mut v = vec![0x00, 0x11, 0x22, 0x33, 0x44, 0x55, 0x66, 0x77, 0x88, 0x99, 0xAA, 0xBB];
    v.push((ethertype >> 8) as u8);
    v.push((ethertype & 0xFF) as u8);
    v
}

fn vlan(vid: u16, ethertype: u16) -> Vec<u8> {
    vec![
        0x60 | ((vid >> 8) as u8 & 0x0F),
        (vid & 0xFF) as u8,
        (ethertype >> 8) as u8,
        (ethertype & 0xFF) as u8,
    ]
}

fn ipv4(protocol: u8) -> Vec<u8> {
    vec![
        0x45, 0x00, 0x00, 0x2E, 0x12, 0x34, 0x40, 0x00, 0x40, protocol, 0x00, 0x00, 10, 0, 0, 1,
        10, 0, 0, 2,
    ]
}

fn ipv6(next_hdr: u8) -> Vec<u8> {
    let mut v = vec![0x60, 0x00, 0x00, 0x00, 0x00, 0x14, next_hdr, 0x40];
    v.extend_from_slice(&[0x20, 0x01, 0x0D, 0xB8, 0, 0, 0, 0, 0, 0, 0, 0, 0, 0, 0, 1]);
    v.extend_from_slice(&[0x20, 0x01, 0x0D, 0xB8, 0, 0, 0, 0, 0, 0, 0, 0, 0, 0, 0, 2]);
    v
}

fn tcp_syn() -> Vec<u8> {
    vec![
        0x12, 0x34, 0x00, 0x50, 0x00, 0x00, 0x00, 0x01, 0x00, 0x00, 0x00, 0x00, 0x50, 0x02, 0xFF,
        0xFF, 0x00, 0x00, 0x00, 0x00,
    ]
}

fn arp() -> Vec<u8> {
    vec![
        0x00, 0x01, 0x08, 0x00, 6, 4, 0x00, 0x02, 0xDE, 0xAD, 0xBE, 0xEF, 0x00, 0x01, 10, 0, 0, 1,
        0x66, 0x77, 0x88, 0x99, 0xAA, 0xBB, 10, 0, 0, 2,
    ]
}

fn cat(parts: &[Vec<u8>]) -> Vec<u8> {
    parts.iter().flat_map(|p| p.iter().copied()).collect()
}

/// Ethernet + IPv4 + TCP (SYN) and six bytes of no-op options: 60 bytes.
fn scenario_a_frame() -> Vec<u8> {
    let f = cat(&[eth(0x0800), ipv4(6), tcp_syn(), vec![1, 1, 1, 1, 1, 1]]);
    assert_eq!(f.len(), 60);
    f
}

struct Outcome {
    ret: Result<(), decode_error>,
    parser: pkt_parser,
    off: usize,
    events: Vec<(event_type, event_desc)>,
    stats: idsm_stats,
}

fn run(bytes: &[u8], check_src_mac: bool) -> Outcome {
    let mut p = frame(bytes);
    let mut m = event_mgr::new();
    let mut s = idsm_stats_mgr::new();
    let mut parser = pkt_parser::new();
    let ret = parser.parse(&mut p, &mut m, &mut s, check_src_mac);
    assert_eq!(&p.buf[..bytes.len()], bytes);
    assert_eq!(p.pkt_len, bytes.len());
    Outcome { ret, parser, off: p.off, events: kinds(&mut m), stats: *s.get() }
}

fn stats(eth: u64, vlan: u64, arp: u64, ipv4: u64, ipv6: u64, tcp: u64) -> idsm_stats {
    idsm_stats {
        n_rx: 0,
        n_eth_rx: eth,
        n_vlan_rx: vlan,
        n_arp_rx: arp,
        n_ipv4_rx: ipv4,
        n_ipv6_rx: ipv6,
        n_tcp_rx: tcp,
    }
}

#[test]
fn scenario_a_well_formed_ipv4_tcp_syn() {
    let o = run(&scenario_a_frame(), true);
    assert_eq!(o.ret, Ok(()));
    assert!(o.parser.has_ipv4_h);
    assert!(o.parser.has_tcp_h);
    assert!(!o.parser.has_vlan_h);
    assert!(!o.parser.has_ipv6_h);
    assert!(!o.parser.has_icmp6_h);
    assert_eq!(o.events, vec![]);
    assert_eq!(o.off, 60);
    assert_eq!(o.parser.ethertype, 0x0800);
    assert_eq!(o.parser.eh.src_mac, [0x66, 0x77, 0x88, 0x99, 0xAA, 0xBB]);
    assert_eq!(o.parser.ipv4_h.ihl, 5);
    assert_eq!(o.parser.ipv4_h.protocol, 6);
    assert_eq!(o.parser.ipv4_h.src_ipaddr, 0x0A000001);
    assert_eq!(o.parser.tcp_h.src_port, 0x1234);
    assert_eq!(o.parser.tcp_h.dst_port, 80);
    assert_eq!(o.parser.tcp_h.flags.syn, 1);
    assert_eq!(o.parser.tcp_h.flags.ack, 0);
    assert_eq!(o.parser.tcp_h.options.available_options, 1);
    assert_eq!(o.stats, stats(1, 0, 0, 1, 0, 1));
}

#[test]
fn scenario_b_ipv4_ihl_6() {
    let mut f = scenario_a_frame();
    f[14] = 0x46;
    let o = run(&f, true);
    assert_eq!(o.ret, denied(event_desc::Ipv4IhlInvalid));
    assert_eq!(o.events, vec![(event_type::Deny, event_desc::Ipv4IhlInvalid)]);
    assert!(!o.parser.has_ipv4_h);
    assert!(!o.parser.has_tcp_h);
    assert_eq!(o.off, 14);
    assert_eq!(o.parser.tcp_h.src_port, 0);
    assert_eq!(o.stats, stats(1, 0, 0, 0, 0, 0));
}

#[test]
fn scenario_c_vlan_id_zero() {
    let f = cat(&[eth(0x8100), vec![0x00, 0x00, 0x08, 0x00], ipv4(6), tcp_syn()]);
    let o = run(&f, true);
    assert_eq!(o.ret, denied(event_desc::VlanIdReserved));
    assert_eq!(o.events, vec![(event_type::Deny, event_desc::VlanIdReserved)]);
    assert!(!o.parser.has_vlan_h);
    assert!(!o.parser.has_ipv4_h);
    assert!(!o.parser.has_tcp_h);
    assert_eq!(o.off, 16);
    assert_eq!(o.parser.ethertype, 0x8100);
    assert_eq!(o.parser.ipv4_h.version, 0);
    assert_eq!(o.stats, stats(1, 0, 0, 0, 0, 0));
}

#[test]
fn scenario_d_arp_hw_addr_len_4() {
    let mut a = arp();
    a[4] = 4;
    let f = cat(&[eth(0x0806), a]);
    let o = run(&f, true);
    assert_eq!(o.ret, denied(event_desc::ArpInvalHwAddrLen));
    assert_eq!(o.events, vec![(event_type::Deny, event_desc::ArpInvalHwAddrLen)]);
    assert_eq!(o.off, 14 + 5);
    assert_eq!(o.parser.ah.sender_hw_addr, [0; 6]);
    assert_eq!(o.parser.ah.target_hw_addr, [0; 6]);
    assert_eq!(o.parser.ah.sender_proto_addr, 0);
    assert_eq!(o.parser.ah.target_proto_addr, 0);
    assert_eq!(o.stats, stats(1, 0, 0, 0, 0, 0));
}

#[test]
fn short_frames_fail_at_ethernet_and_go_no_further() {
    let f = scenario_a_frame();
    for n in 0..14 {
        for check in [false, true] {
            let o = run(&f[..n], check);
            assert_eq!(o.ret, denied(event_desc::EthShortHeader));
            assert_eq!(o.events, vec![(event_type::Deny, event_desc::EthShortHeader)]);
            assert_eq!(o.off, 0);
            assert!(!o.parser.has_vlan_h && !o.parser.has_ipv4_h && !o.parser.has_ipv6_h);
            assert!(!o.parser.has_tcp_h && !o.parser.has_icmp6_h);
            assert_eq!(o.parser.ethertype, 0);
            assert_eq!(o.stats, stats(0, 0, 0, 0, 0, 0));
        }
    }
}

#[test]
fn arp_reply_is_done_at_the_link_layer() {
    let f = cat(&[eth(0x0806), arp()]);
    let o = run(&f, true);
    assert_eq!(o.ret, Ok(()));
    assert_eq!(o.events, vec![]);
    assert_eq!(o.off, 42);
    assert_eq!(o.parser.ah.op, 2);
    assert_eq!(o.parser.ah.sender_hw_addr, [0xDE, 0xAD, 0xBE, 0xEF, 0x00, 0x01]);
    assert_eq!(o.parser.ah.target_proto_addr, 0x0A000002);
    assert!(!o.parser.has_ipv4_h && !o.parser.has_tcp_h);
    assert_eq!(o.stats, stats(1, 0, 1, 0, 0, 0));
}

#[test]
fn vlan_tag_in_front_of_ipv4() {
    let f = cat(&[eth(0x8100), vlan(100, 0x0800), ipv4(6), tcp_syn()]);
    let o = run(&f, true);
    assert_eq!(o.ret, Ok(()));
    assert!(o.parser.has_vlan_h && o.parser.has_ipv4_h && o.parser.has_tcp_h);
    assert_eq!(o.parser.vh.vid, 100);
    assert_eq!(o.parser.vh.pcp, 3);
    assert_eq!(o.parser.eh.ethertype, 0x8100);
    assert_eq!(o.parser.ethertype, 0x0800);
    assert_eq!(o.off, 58);
    assert_eq!(o.stats, stats(1, 1, 0, 1, 0, 1));
}

#[test]
fn vlan_tag_in_front_of_arp() {
    let f = cat(&[eth(0x8100), vlan(7, 0x0806), arp()]);
    let o = run(&f, false);
    assert_eq!(o.ret, Ok(()));
    assert!(o.parser.has_vlan_h);
    assert_eq!(o.parser.ethertype, 0x0806);
    assert_eq!(o.parser.ah.op, 2);
    assert_eq!(o.stats, stats(1, 1, 1, 0, 0, 0));
}

#[test]
fn two_vlan_tags_loop_back_into_the_dispatch() {
    let f = cat(&[eth(0x8100), vlan(100, 0x8100), vlan(200, 0x86DD), ipv6(6), tcp_syn()]);
    let o = run(&f, true);
    assert_eq!(o.ret, Ok(()));
    assert!(o.parser.has_vlan_h && o.parser.has_ipv6_h && o.parser.has_tcp_h);
    assert!(!o.parser.has_ipv4_h);
    assert_eq!(o.parser.vh.vid, 200);
    assert_eq!(o.parser.ethertype, 0x86DD);
    assert_eq!(o.off, 14 + 8 + 40 + 20);
    assert_eq!(o.stats, stats(1, 2, 0, 0, 1, 1));
}

#[test]
fn second_vlan_tag_reserved() {
    let f = cat(&[eth(0x8100), vlan(100, 0x8100), vlan(4095, 0x0800), ipv4(6), tcp_syn()]);
    let o = run(&f, true);
    assert_eq!(o.ret, denied(event_desc::VlanIdReserved));
    assert_eq!(o.events, vec![(event_type::Deny, event_desc::VlanIdReserved)]);
    assert!(o.parser.has_vlan_h);
    assert_eq!(o.parser.vh.vid, 100);
    assert_eq!(o.parser.ethertype, 0x8100);
    assert_eq!(o.off, 14 + 4 + 2);
    assert_eq!(o.stats, stats(1, 1, 0, 0, 0, 0));
}

#[test]
fn truncated_vlan_tag_fails_without_an_event() {
    let f = cat(&[eth(0x8100), vec![0x00, 0x64, 0x08]]);
    let o = run(&f, true);
    assert_eq!(o.ret, Err(decode_error::OutOfBounds));
    assert_eq!(o.events, vec![]);
    assert_eq!(o.off, 16);
    assert_eq!(o.stats, stats(1, 0, 0, 0, 0, 0));
}

#[test]
fn unknown_ethertype_is_unsupported() {
    for et in [0x0000u16, 0x88CC, 0x0801, 0xFFFF] {
        let f = cat(&[eth(et), ipv4(6), tcp_syn()]);
        let o = run(&f, true);
        assert_eq!(o.ret, Err(decode_error::Unsupported));
        assert_eq!(o.events, vec![]);
        assert_eq!(o.off, 14);
        assert_eq!(o.parser.ethertype, et);
        assert!(!o.parser.has_ipv4_h);
        assert_eq!(o.stats, stats(1, 0, 0, 0, 0, 0));
    }
}

#[test]
fn unknown_ip_protocol_is_unsupported() {
    let f = cat(&[eth(0x0800), ipv4(17), tcp_syn()]);
    let o = run(&f, true);
    assert_eq!(o.ret, Err(decode_error::Unsupported));
    assert_eq!(o.events, vec![]);
    assert!(o.parser.has_ipv4_h);
    assert!(!o.parser.has_tcp_h);
    assert_eq!(o.off, 34);
    assert_eq!(o.stats, stats(1, 0, 0, 1, 0, 0));
    let f = cat(&[eth(0x86DD), ipv6(0), tcp_syn()]);
    let o = run(&f, true);
    assert_eq!(o.ret, Err(decode_error::Unsupported));
    assert!(o.parser.has_ipv6_h);
    assert_eq!(o.off, 54);
    assert_eq!(o.stats, stats(1, 0, 0, 0, 1, 0));
}

#[test]
fn ipv6_icmp6_echo() {
    let f = cat(&[eth(0x86DD), ipv6(58), vec![128, 0, 0xAB, 0xCD, 0, 1, 0, 2]]);
    let o = run(&f, true);
    assert_eq!(o.ret, Ok(()));
    assert!(o.parser.has_ipv6_h && o.parser.has_icmp6_h);
    assert!(!o.parser.has_tcp_h && !o.parser.has_ipv4_h);
    assert_eq!(o.parser.icmp6_h.icmp6_type, 128);
    assert_eq!(o.parser.icmp6_h.checksum, 0xABCD);
    assert_eq!(o.off, 58);
    assert_eq!(o.events, vec![]);
    assert_eq!(o.stats, stats(1, 0, 0, 0, 1, 0));
}

#[test]
fn ipv6_icmp6_destination_unreachable() {
    let f = cat(&[eth(0x86DD), ipv6(58), vec![1, 0, 0, 0, 0, 0, 0x05, 0x00]]);
    let o = run(&f, true);
    assert_eq!(o.ret, Ok(()));
    assert!(o.parser.has_icmp6_h);
    assert_eq!(o.parser.icmp6_h.dest_unreach.next_hop_mtu, 0x0500);
    assert_eq!(o.off, 62);
    let f = cat(&[eth(0x86DD), ipv6(58), vec![1, 0, 0, 0, 0, 0]]);
    let o = run(&f, true);
    assert_eq!(o.ret, denied(event_desc::Icmp6ShortDestUnreachHeader));
    assert!(o.parser.has_ipv6_h && !o.parser.has_icmp6_h);
    assert_eq!(o.events, vec![(event_type::Deny, event_desc::Icmp6ShortDestUnreachHeader)]);
}

#[test]
fn ipv6_icmp6_short_header() {
    let f = cat(&[eth(0x86DD), ipv6(58), vec![128, 0, 0]]);
    let o = run(&f, true);
    assert_eq!(o.ret, denied(event_desc::Icmp6ShortHeader));
    assert_eq!(o.events, vec![(event_type::Deny, event_desc::Icmp6ShortHeader)]);
    assert!(!o.parser.has_icmp6_h);
}

#[test]
fn ipv6_tcp_with_timestamp_option() {
    let mut t = tcp_syn();
    t[12] = 0x80;
    let f = cat(&[eth(0x86DD), ipv6(6), t, vec![1, 1, 8, 10, 0, 0, 0, 1, 0, 0, 0, 2]]);
    let o = run(&f, true);
    assert_eq!(o.ret, Ok(()));
    assert!(o.parser.has_ipv6_h && o.parser.has_tcp_h);
    assert_eq!(o.parser.tcp_h.hdr_len, 8);
    assert_eq!(o.parser.tcp_h.options.available_options, 9);
    assert_eq!(
        o.parser.tcp_h.options.opt_timestamp,
        tcp_opt_timestamp { len: 10, ts_val: 1, ts_echo_reply: 2 }
    );
    assert_eq!(o.stats, stats(1, 0, 0, 0, 1, 1));
}

#[test]
fn tcp_failure_after_ipv4_keeps_the_ipv4_flag() {
    let mut f = scenario_a_frame();
    f[34] = 0;
    f[35] = 0;
    let o = run(&f, true);
    assert_eq!(o.ret, denied(event_desc::TcpSrcPortZero));
    assert_eq!(o.events, vec![(event_type::Deny, event_desc::TcpSrcPortZero)]);
    assert!(o.parser.has_ipv4_h);
    assert!(!o.parser.has_tcp_h);
    assert_eq!(o.stats, stats(1, 0, 0, 1, 0, 0));
}

#[test]
fn zero_padding_behind_tcp_is_an_unknown_option() {
    let f = cat(&[eth(0x0800), ipv4(6), tcp_syn(), vec![0, 0, 0, 0, 0, 0]]);
    let o = run(&f, true);
    assert_eq!(o.ret, denied(event_desc::TcpUnknownOpt));
    assert_eq!(o.events, vec![(event_type::Deny, event_desc::TcpUnknownOpt)]);
    assert_eq!(o.off, 54);
}

#[test]
fn source_mac_policy_reaches_the_dispatcher() {
    let mut f = scenario_a_frame();
    for b in &mut f[6..12] {
        *b = 0;
    }
    let o = run(&f, true);
    assert_eq!(o.ret, denied(event_desc::EthSrcZeroMac));
    assert_eq!(o.events, vec![(event_type::Deny, event_desc::EthSrcZeroMac)]);
    assert_eq!(o.stats, stats(0, 0, 0, 0, 0, 0));
    let o = run(&f, false);
    assert_eq!(o.ret, Ok(()));
    for b in &mut f[6..12] {
        *b = 0xFF;
    }
    let o = run(&f, true);
    assert_eq!(o.ret, denied(event_desc::EthSrcBroadcastMac));
    let o = run(&f, false);
    assert_eq!(o.ret, Ok(()));
}

#[test]
fn decoding_the_same_frame_twice_gives_the_same() {
    let mut frames: Vec<Vec<u8>> = vec![
        scenario_a_frame(),
        cat(&[eth(0x8100), vlan(100, 0x8100), vlan(4095, 0x0800)]),
        cat(&[eth(0x0806), arp()]),
        cat(&[eth(0x86DD), ipv6(58), vec![1, 0, 0, 0, 0, 0, 0x05, 0x00]]),
        cat(&[eth(0x0800), ipv4(6), tcp_syn(), vec![0]]),
        vec![1, 2, 3],
    ];
    let mut bad = scenario_a_frame();
    bad[14] = 0x46;
    frames.push(bad);
    for f in &frames {
        let a = run(f, true);
        let b = run(f, true);
        assert_eq!(a.ret, b.ret);
        assert_eq!(a.off, b.off);
        assert_eq!(a.events, b.events);
        assert_eq!(a.stats, b.stats);
        assert_eq!(format!("{:?}", a.parser), format!("{:?}", b.parser));
    }
}

#[test]
fn a_failure_on_one_frame_has_no_effect_on_the_next() {
    let mut m = event_mgr::new();
    let mut s = idsm_stats_mgr::new();
    let mut parser = pkt_parser::new();
    let good = cat(&[eth(0x8100), vlan(5, 0x0800), ipv4(6), tcp_syn()]);
    let mut p = frame(&good);
    assert_eq!(parser.parse(&mut p, &mut m, &mut s, true), Ok(()));
    assert!(parser.has_vlan_h && parser.has_ipv4_h && parser.has_tcp_h);
    let mut p = frame(&[0u8; 5]);
    assert_eq!(parser.parse(&mut p, &mut m, &mut s, true), denied(event_desc::EthShortHeader));
    assert!(!parser.has_vlan_h && !parser.has_ipv4_h && !parser.has_tcp_h);
    let mut p = frame(&cat(&[eth(0x0806), arp()]));
    assert_eq!(parser.parse(&mut p, &mut m, &mut s, true), Ok(()));
    assert!(!parser.has_vlan_h && !parser.has_ipv4_h && !parser.has_tcp_h);
    assert_eq!(*s.get(), stats(2, 1, 1, 1, 0, 1));
    assert_eq!(kinds(&mut m), vec![(event_type::Deny, event_desc::EthShortHeader)]);
}

#[test]
fn parse_starts_at_the_cursor() {
    let f = cat(&[vec![0xEE; 10], eth(0x0806), arp()]);
    let mut p = frame(&f);
    p.off = 10;
    let mut m = event_mgr::new();
    let mut s = idsm_stats_mgr::new();
    let mut parser = pkt_parser::new();
    assert_eq!(parser.parse(&mut p, &mut m, &mut s, true), Ok(()));
    assert_eq!(p.off, 52);
    assert_eq!(parser.eh.ethertype, 0x0806);
}
