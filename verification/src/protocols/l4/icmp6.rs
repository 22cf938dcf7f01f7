//! ICMPv6 header and the destination-unreachable message.

use vstd::prelude::*;
use crate::events::event_desc::event_desc;
use crate::events::event_mgr::event_mgr;
use crate::protocols::decode::{decode_error, deny, events_logged};
use crate::protocols::packet::{be16, packet};

verus! {

/// The ICMPv6 message types.
#[non_exhaustive]
pub struct icmp6_types;

impl icmp6_types {
    pub const DEST_UNREACHABLE: u8 = 1;

    pub const PKT_TOO_BIG: u8 = 2;

    pub const TIME_EXCEEDED: u8 = 3;

    pub const PARAM_PROBLEM: u8 = 4;

    pub const ECHO_REQ: u8 = 128;

    pub const ECHO_REPLY: u8 = 129;

    pub const MCAST_LISTENER_DISC: u8 = 130;

    pub const MCAST_LISTENER_REPORT: u8 = 131;

    pub const MCAST_LISTENER_DONE: u8 = 132;

    pub const ROUTER_SOL: u8 = 133;

    pub const ROUTER_ADV: u8 = 134;

    pub const NEIGHBOR_SOL: u8 = 135;

    pub const NEIGHBOR_ADV: u8 = 136;

    pub const REDIR_MSG: u8 = 137;

    pub const ROUTER_RENUMBERING: u8 = 138;

    pub const ICMP_NODE_INFO_QUERY: u8 = 139;
}

/// The codes of a destination-unreachable message.
#[non_exhaustive]
pub struct icmp6_dest_unreach_codes;

impl icmp6_dest_unreach_codes {
    pub const NO_ROUTE_TO_DEST: u8 = 0;

    pub const COMM_IS_ADMINISTRATIVELY_PROHIBITED: u8 = 1;

    pub const BEYOND_SCOPE_OF_SRC_ADDR: u8 = 2;

    pub const ADDR_UNREACHABLE: u8 = 3;

    pub const PORT_UNREACHABLE: u8 = 4;

    pub const SRC_ADDR_FAILED_INGRESS_EGRESS_POLICY: u8 = 5;

    pub const REJECT_ROUTE_TO_DESTINATION: u8 = 6;

    pub const ERR_IN_SRC_ROUTING_HDR: u8 = 7;
}

/// The codes of a time-exceeded message.
#[non_exhaustive]
pub struct icmp6_time_exceeded_codes;

impl icmp6_time_exceeded_codes {
    pub const HOP_LIM_EXCEEDED_IN_TRANSIT: u8 = 0;

    pub const FRAG_REASSEMBLY_TIME_EXCEEDED: u8 = 1;
}

/// The codes of a parameter-problem message.
#[non_exhaustive]
pub struct icmp6_parameter_problem;

impl icmp6_parameter_problem {
    pub const ERRONEOUS_HDR_FIELD_ENCOUNTERED: u32 = 0;

    pub const UNRECOG_NH_TYPE: u32 = 1;

    pub const UNRECOG_IPV6_OPT: u32 = 2;
}

/// The four bytes that follow the ICMPv6 header in a destination-unreachable
/// message.
#[derive(Clone, Copy, PartialEq, Eq, Structural, Debug)]
pub struct icmp6_dest_unreachable {
    pub unused: u8,
    pub length: u8,
    pub next_hop_mtu: u16,
}

impl icmp6_dest_unreachable {
    /// Length of the sub-header.
    pub const DEST_UNREACHABLE_LEN: u32 = 4;

    /// Result of decoding the sub-header from the bytes `b`.
    pub open spec fn spec_verdict(b: Seq<u8>) -> Result<(), decode_error> {
        if b.len() < 4 {
            Err(decode_error::Denied(event_desc::Icmp6ShortDestUnreachHeader))
        } else {
            Ok(())
        }
    }

    /// Number of bytes that decoding the sub-header from `b` consumes.
    pub open spec fn spec_consumed(b: Seq<u8>) -> nat {
        if b.len() < 4 {
            0
        } else {
            4
        }
    }

    /// The sub-header that the bytes `b` hold.
    pub open spec fn spec_unpack(b: Seq<u8>) -> icmp6_dest_unreachable {
        icmp6_dest_unreachable { unused: b[0], length: b[1], next_hop_mtu: be16(b[2], b[3]) }
    }

    /// The sub-header with all fields zero.
    pub open spec fn spec_new() -> icmp6_dest_unreachable {
        icmp6_dest_unreachable { unused: 0, length: 0, next_hop_mtu: 0 }
    }

    /// A sub-header with all fields zero.
    #[inline(always)]
    pub fn new() -> (d: icmp6_dest_unreachable)
        ensures
            d == Self::spec_new(),
    {
        icmp6_dest_unreachable { unused: 0, length: 0, next_hop_mtu: 0 }
    }

    /// Decodes the sub-header at the cursor.  It is stored only if it is
    /// there in full.
    pub fn deserialize(&mut self, p: &mut packet, evt_mgr: &mut event_mgr) -> (ret: Result<
        (),
        decode_error,
    >)
        requires
            old(p).wf(),
        ensures
            ret == Self::spec_verdict(old(p).remaining()),
            final(p).advanced(old(p), Self::spec_consumed(old(p).remaining())),
            events_logged(old(evt_mgr), final(evt_mgr), ret),
            ret is Ok ==> *final(self) == Self::spec_unpack(old(p).remaining()),
            ret is Err ==> *final(self) == *old(self),
    {
        let mut d = *self;

        if !p.remaining_len_in_bounds(Self::DEST_UNREACHABLE_LEN) {
            return deny(evt_mgr, event_desc::Icmp6ShortDestUnreachHeader);
        }
        if p.deserialize_byte(&mut d.unused).is_err() {
            return Err(decode_error::OutOfBounds);
        }
        if p.deserialize_byte(&mut d.length).is_err() {
            return Err(decode_error::OutOfBounds);
        }
        if p.deserialize_2_bytes(&mut d.next_hop_mtu).is_err() {
            return Err(decode_error::OutOfBounds);
        }
        *self = d;
        Ok(())
    }
}

/// The ICMPv6 header, with the sub-header of a destination-unreachable
/// message.
#[derive(Clone, Copy, PartialEq, Eq, Structural, Debug)]
pub struct icmp6_hdr {
    pub icmp6_type: u8,
    pub code: u8,
    pub checksum: u16,
    pub dest_unreach: icmp6_dest_unreachable,
}

impl icmp6_hdr {
    /// Length of the ICMPv6 header.
    pub const ICMP6_MIN_HDR_LEN: u32 = 4;

    /// Result of decoding an ICMPv6 message from the bytes `b`.  Only a
    /// destination-unreachable message is looked into beyond the header.
    pub open spec fn spec_verdict(b: Seq<u8>) -> Result<(), decode_error> {
        if b.len() < 4 {
            Err(decode_error::Denied(event_desc::Icmp6ShortHeader))
        } else if b[0] == 1 {
            icmp6_dest_unreachable::spec_verdict(b.skip(4))
        } else {
            Ok(())
        }
    }

    /// Number of bytes that decoding an ICMPv6 message from `b` consumes.
    pub open spec fn spec_consumed(b: Seq<u8>) -> nat {
        if b.len() < 4 {
            0
        } else if b[0] == 1 {
            4 + icmp6_dest_unreachable::spec_consumed(b.skip(4))
        } else {
            4
        }
    }

    /// The header that the bytes `b` hold; `prev` gives the sub-header that
    /// stays where the message is of another type.
    pub open spec fn spec_unpack(b: Seq<u8>, prev: icmp6_hdr) -> icmp6_hdr {
        icmp6_hdr {
            icmp6_type: b[0],
            code: b[1],
            checksum: be16(b[2], b[3]),
            dest_unreach: if b[0] == 1 {
                icmp6_dest_unreachable::spec_unpack(b.skip(4))
            } else {
                prev.dest_unreach
            },
        }
    }

    /// The header with all fields zero.
    pub open spec fn spec_new() -> icmp6_hdr {
        icmp6_hdr {
            icmp6_type: 0,
            code: 0,
            checksum: 0,
            dest_unreach: icmp6_dest_unreachable::spec_new(),
        }
    }

    /// A header with all fields zero.
    #[inline(always)]
    pub fn new() -> (icmp6_h: icmp6_hdr)
        ensures
            icmp6_h == Self::spec_new(),
    {
        icmp6_hdr {
            icmp6_type: 0,
            code: 0,
            checksum: 0,
            dest_unreach: icmp6_dest_unreachable::new(),
        }
    }

    /// Decodes the ICMPv6 header at the cursor and, for a
    /// destination-unreachable message, the sub-header behind it.  The header
    /// is stored only if every rule holds.
    pub fn deserialize(&mut self, p: &mut packet, evt_mgr: &mut event_mgr) -> (ret: Result<
        (),
        decode_error,
    >)
        requires
            old(p).wf(),
        ensures
            ret == Self::spec_verdict(old(p).remaining()),
            final(p).advanced(old(p), Self::spec_consumed(old(p).remaining())),
            events_logged(old(evt_mgr), final(evt_mgr), ret),
            ret is Ok ==> *final(self) == Self::spec_unpack(old(p).remaining(), *old(self)),
            ret is Err ==> *final(self) == *old(self),
    {
        let mut h = *self;

        if !p.remaining_len_in_bounds(Self::ICMP6_MIN_HDR_LEN) {
            return deny(evt_mgr, event_desc::Icmp6ShortHeader);
        }
        if p.deserialize_byte(&mut h.icmp6_type).is_err() {
            return Err(decode_error::OutOfBounds);
        }
        if p.deserialize_byte(&mut h.code).is_err() {
            return Err(decode_error::OutOfBounds);
        }
        if p.deserialize_2_bytes(&mut h.checksum).is_err() {
            return Err(decode_error::OutOfBounds);
        }
        if h.icmp6_type == icmp6_types::DEST_UNREACHABLE {
            let r = h.dest_unreach.deserialize(p, evt_mgr);
            if r.is_err() {
                return r;
            }
        }
        *self = h;
        Ok(())
    }
}

} // verus!
