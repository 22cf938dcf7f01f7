//! ARP over Ethernet and IPv4.

use vstd::prelude::*;
use crate::events::event_desc::event_desc;
use crate::events::event_mgr::event_mgr;
use crate::protocols::decode::{decode_error, deny, events_logged};
use crate::protocols::packet::{be16, be32, mac_at, packet, zero_mac_addr};

verus! {

/// The ARP operation codes.
#[non_exhaustive]
pub struct arp_operation_types;

impl arp_operation_types {
    pub const REQUEST: u16 = 1;

    pub const REPLY: u16 = 2;

    pub const RARP_REQUEST: u16 = 3;

    pub const RARP_REPLY: u16 = 4;

    pub const DRARP_REQUEST: u16 = 5;

    pub const DRARP_REPLY: u16 = 6;

    pub const DRARP_ERROR: u16 = 7;

    pub const INARP_REQUEST: u16 = 8;

    pub const INARP_REPLY: u16 = 9;

    /// The operations that the probe accepts: request and reply, of ARP and
    /// of RARP.
    pub open spec fn spec_valid_arp_op(op: u16) -> bool {
        op == 1 || op == 2 || op == 3 || op == 4
    }

    /// Whether the probe accepts the operation.
    pub fn valid_arp_op(op: u16) -> (r: bool)
        ensures
            r == Self::spec_valid_arp_op(op),
    {
        if (op == arp_operation_types::REQUEST) || (op == arp_operation_types::REPLY) || (op
            == arp_operation_types::RARP_REQUEST) || (op == arp_operation_types::RARP_REPLY) {
            return true;
        }
        return false;
    }
}

/// The ARP header.
#[derive(Clone, Copy, Debug)]
pub struct arp_hdr {
    pub hdr_type: u16,
    pub protocol_type: u16,
    pub hw_addr_len: u8,
    pub protocol_len: u8,
    pub op: u16,
    pub sender_hw_addr: [u8; 6],
    pub sender_proto_addr: u32,
    pub target_hw_addr: [u8; 6],
    pub target_proto_addr: u32,
}

impl arp_hdr {
    /// Length of an ARP header for Ethernet and IPv4.
    pub const ARP_HDR_LEN: u32 = 28;

    /// The only hardware address length accepted.
    pub const ARP_HW_ADDR_LEN: u32 = 6;

    /// The only protocol address length accepted.
    pub const ARP_PROTOCOL_ADDR_LEN: u32 = 4;

    /// Result of decoding an ARP header from the bytes `b`.  The fields are
    /// taken in wire order and each rule is checked as soon as its field is
    /// read: hardware address length, protocol address length, operation.
    pub open spec fn spec_verdict(b: Seq<u8>) -> Result<(), decode_error> {
        if b.len() < 5 {
            Err(decode_error::OutOfBounds)
        } else if b[4] != 6 {
            Err(decode_error::Denied(event_desc::ArpInvalHwAddrLen))
        } else if b.len() < 6 {
            Err(decode_error::OutOfBounds)
        } else if b[5] != 4 {
            Err(decode_error::Denied(event_desc::ArpInvalProtocolLen))
        } else if b.len() < 8 {
            Err(decode_error::OutOfBounds)
        } else if !arp_operation_types::spec_valid_arp_op(be16(b[6], b[7])) {
            Err(decode_error::Denied(event_desc::ArpOpInvalid))
        } else if b.len() < 28 {
            Err(decode_error::OutOfBounds)
        } else {
            Ok(())
        }
    }

    /// Number of bytes that decoding an ARP header from `b` consumes: the
    /// fields up to and including the one that is refused, and nothing of a
    /// group of fields that is not there in full.
    pub open spec fn spec_consumed(b: Seq<u8>) -> nat {
        if b.len() < 5 {
            0
        } else if b[4] != 6 || b.len() < 6 {
            5
        } else if b[5] != 4 || b.len() < 8 {
            6
        } else if !arp_operation_types::spec_valid_arp_op(be16(b[6], b[7])) || b.len() < 28 {
            8
        } else {
            28
        }
    }

    /// The header that the bytes `b` hold.
    pub open spec fn spec_unpack(b: Seq<u8>) -> arp_hdr {
        arp_hdr {
            hdr_type: be16(b[0], b[1]),
            protocol_type: be16(b[2], b[3]),
            hw_addr_len: b[4],
            protocol_len: b[5],
            op: be16(b[6], b[7]),
            sender_hw_addr: mac_at(b, 8),
            sender_proto_addr: be32(b[14], b[15], b[16], b[17]),
            target_hw_addr: mac_at(b, 18),
            target_proto_addr: be32(b[24], b[25], b[26], b[27]),
        }
    }

    /// The header with all fields zero.
    pub open spec fn spec_new() -> arp_hdr {
        arp_hdr {
            hdr_type: 0,
            protocol_type: 0,
            hw_addr_len: 0,
            protocol_len: 0,
            op: 0,
            sender_hw_addr: zero_mac_addr(),
            sender_proto_addr: 0,
            target_hw_addr: zero_mac_addr(),
            target_proto_addr: 0,
        }
    }

    /// A header with all fields zero.
    pub fn new() -> (arp_h: arp_hdr)
        ensures
            arp_h == Self::spec_new(),
    {
        let arp_h = arp_hdr {
            hdr_type: 0,
            protocol_type: 0,
            hw_addr_len: 0,
            protocol_len: 0,
            op: 0,
            sender_hw_addr: [0; 6],
            sender_proto_addr: 0,
            target_hw_addr: [0; 6],
            target_proto_addr: 0,
        };
        assert(arp_h.target_hw_addr =~= zero_mac_addr());
        arp_h
    }

    /// Decodes the ARP header at the cursor.  The header is stored only if
    /// every rule holds.
    pub fn deserialize(&mut self, p: &mut packet, evt_mgr: &mut event_mgr) -> (ret: Result<
        (),
        decode_error,
    >)
        requires
            old(p).wf(),
        ensures
            ret == Self::spec_verdict(old(p).remaining()),
            final(p).advanced(old(p), Self::spec_consumed(old(p).remaining())),
            events_logged(old(evt_mgr), final(evt_mgr), ret),
            ret is Ok ==> *final(self) == Self::spec_unpack(old(p).remaining()),
            ret is Err ==> *final(self) == *old(self),
    {
        let mut h = *self;

        if !p.remaining_len_in_bounds(5) {
            return Err(decode_error::OutOfBounds);
        }
        if p.deserialize_2_bytes(&mut h.hdr_type).is_err() {
            return Err(decode_error::OutOfBounds);
        }
        if p.deserialize_2_bytes(&mut h.protocol_type).is_err() {
            return Err(decode_error::OutOfBounds);
        }
        if p.deserialize_byte(&mut h.hw_addr_len).is_err() {
            return Err(decode_error::OutOfBounds);
        }

        // invalid hw address length
        if (h.hw_addr_len as u32) != Self::ARP_HW_ADDR_LEN {
            return deny(evt_mgr, event_desc::ArpInvalHwAddrLen);
        }
        if p.deserialize_byte(&mut h.protocol_len).is_err() {
            return Err(decode_error::OutOfBounds);
        }

        // invalid protocol address length
        if (h.protocol_len as u32) != Self::ARP_PROTOCOL_ADDR_LEN {
            return deny(evt_mgr, event_desc::ArpInvalProtocolLen);
        }
        if p.deserialize_2_bytes(&mut h.op).is_err() {
            return Err(decode_error::OutOfBounds);
        }

        // invalid ARP op
        if !arp_operation_types::valid_arp_op(h.op) {
            return deny(evt_mgr, event_desc::ArpOpInvalid);
        }
        if !p.remaining_len_in_bounds(20) {
            return Err(decode_error::OutOfBounds);
        }
        if p.deserialize_mac(&mut h.sender_hw_addr).is_err() {
            return Err(decode_error::OutOfBounds);
        }
        if p.deserialize_4_bytes(&mut h.sender_proto_addr).is_err() {
            return Err(decode_error::OutOfBounds);
        }
        if p.deserialize_mac(&mut h.target_hw_addr).is_err() {
            return Err(decode_error::OutOfBounds);
        }
        if p.deserialize_4_bytes(&mut h.target_proto_addr).is_err() {
            return Err(decode_error::OutOfBounds);
        }
        *self = h;
        Ok(())
    }
}

} // verus!
