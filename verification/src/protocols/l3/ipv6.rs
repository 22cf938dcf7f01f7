//! IPv6 fixed header.

use vstd::prelude::*;
use crate::c_lib::memcmp::{c_memcmp, same_prefix};
use crate::events::event_desc::event_desc;
use crate::events::event_mgr::event_mgr;
use crate::protocols::decode::{decode_error, deny, events_logged};
use crate::protocols::packet::{be16, be32, ip6addr_at, make_be32, packet, zero_ip6addr};

verus! {

/// The bytes of `addr` are not all zero.
pub open spec fn spec_valid_address(addr: Seq<u8>) -> bool {
    exists|i: int| 0 <= i < addr.len() && addr[i] != 0
}

/// The IPv6 header, bit-packed fields unpacked.
#[derive(Clone, Copy, Debug)]
pub struct ipv6_hdr {
    pub version: u8,
    pub traffic_class: u8,
    pub flow_lable: u32,
    pub payload_len: u16,
    pub next_hdr: u8,
    pub hop_limit: u8,
    pub src_ip6addr: [u8; 16],
    pub dst_ip6addr: [u8; 16],
}

impl ipv6_hdr {
    /// Length of the IPv6 fixed header.
    pub const IPV6_MIN_HDR_LEN: u32 = 40;

    /// The only version accepted.
    pub const IPV6_VERSION: u32 = 6;

    /// Result of decoding an IPv6 header from the bytes `b`: the first rule
    /// broken, in the order length, version, source address, destination
    /// address.
    pub open spec fn spec_verdict(b: Seq<u8>) -> Result<(), decode_error> {
        if b.len() < 40 {
            Err(decode_error::Denied(event_desc::Ipv6ShortHeader))
        } else if (b[0] & 0xF0) >> 4 != 6 {
            Err(decode_error::Denied(event_desc::Ipv6InvalidVersion))
        } else if !spec_valid_address(ip6addr_at(b, 8)@) {
            Err(decode_error::Denied(event_desc::Ipv6SrcAddrInvalid))
        } else if !spec_valid_address(ip6addr_at(b, 24)@) {
            Err(decode_error::Denied(event_desc::Ipv6DstAddrInvalid))
        } else {
            Ok(())
        }
    }

    /// Number of bytes that decoding an IPv6 header from `b` consumes: none
    /// where the length or the version is refused, else all up to and
    /// including the address that is refused.
    pub open spec fn spec_consumed(b: Seq<u8>) -> nat {
        if b.len() < 40 || (b[0] & 0xF0) >> 4 != 6 {
            0
        } else if !spec_valid_address(ip6addr_at(b, 8)@) {
            24
        } else {
            40
        }
    }

    /// The header that the bytes `b` hold.
    pub open spec fn spec_unpack(b: Seq<u8>) -> ipv6_hdr {
        ipv6_hdr {
            version: (b[0] & 0xF0) >> 4,
            traffic_class: ((b[0] & 0x0F) << 4) | ((b[1] & 0xF0) >> 4),
            flow_lable: be32(0, b[1] & 0x0F, b[2], b[3]),
            payload_len: be16(b[4], b[5]),
            next_hdr: b[6],
            hop_limit: b[7],
            src_ip6addr: ip6addr_at(b, 8),
            dst_ip6addr: ip6addr_at(b, 24),
        }
    }

    /// The header with all fields zero.
    pub open spec fn spec_new() -> ipv6_hdr {
        ipv6_hdr {
            version: 0,
            traffic_class: 0,
            flow_lable: 0,
            payload_len: 0,
            next_hdr: 0,
            hop_limit: 0,
            src_ip6addr: zero_ip6addr(),
            dst_ip6addr: zero_ip6addr(),
        }
    }

    /// A header with all fields zero.
    #[inline(always)]
    pub fn new() -> (ipv6_h: ipv6_hdr)
        ensures
            ipv6_h == Self::spec_new(),
    {
        let ipv6_h = ipv6_hdr {
            version: 0,
            traffic_class: 0,
            flow_lable: 0,
            payload_len: 0,
            next_hdr: 0,
            hop_limit: 0,
            src_ip6addr: [0; 16],
            dst_ip6addr: [0; 16],
        };
        assert(ipv6_h.dst_ip6addr =~= zero_ip6addr());
        ipv6_h
    }

    /// Whether an address is usable: any address but the all-zero one.
    pub(crate) fn is_valid_address(addr: &[u8]) -> (r: bool)
        requires
            addr@.len() >= 16,
        ensures
            r == spec_valid_address(addr@.take(16)),
    {
        let z_ip6addr: [u8; 16] = [0; 16];

        if c_memcmp(addr, &z_ip6addr, 16) {
            return false;
        }
        assert(exists|i: int| 0 <= i < 16 && addr@.take(16)[i] != 0) by {
            if forall|i: int| 0 <= i < 16 ==> addr@.take(16)[i] == 0 {
                assert(addr@.take(16) =~= z_ip6addr@.take(16));
            }
        }
        true
    }

    /// Decodes the IPv6 header at the cursor.  The header is stored only if
    /// every rule holds.
    pub fn deserialize(&mut self, p: &mut packet, evt_mgr: &mut event_mgr) -> (ret: Result<
        (),
        decode_error,
    >)
        requires
            old(p).wf(),
        ensures
            ret == Self::spec_verdict(old(p).remaining()),
            final(p).advanced(old(p), Self::spec_consumed(old(p).remaining())),
            events_logged(old(evt_mgr), final(evt_mgr), ret),
            ret is Ok ==> *final(self) == Self::spec_unpack(old(p).remaining()),
            ret is Err ==> *final(self) == *old(self),
    {
        let mut h = *self;

        // drop if packet is too short
        if !p.remaining_len_in_bounds(Self::IPV6_MIN_HDR_LEN) {
            return deny(evt_mgr, event_desc::Ipv6ShortHeader);
        }

        // drop if version is invalid
        h.version = (p.buf[p.off] & 0xF0) >> 4;
        if h.version as u32 != Self::IPV6_VERSION {
            return deny(evt_mgr, event_desc::Ipv6InvalidVersion);
        }
        h.traffic_class = ((p.buf[p.off] & 0x0F) << 4) | ((p.buf[p.off + 1] & 0xF0) >> 4);
        p.off += 1;

        h.flow_lable = make_be32(0, p.buf[p.off] & 0x0F, p.buf[p.off + 1], p.buf[p.off + 2]);
        p.off += 3;

        if p.deserialize_2_bytes(&mut h.payload_len).is_err() {
            return Err(decode_error::OutOfBounds);
        }
        if p.deserialize_byte(&mut h.next_hdr).is_err() {
            return Err(decode_error::OutOfBounds);
        }
        if p.deserialize_byte(&mut h.hop_limit).is_err() {
            return Err(decode_error::OutOfBounds);
        }
        if p.deserialize_ip6addr(&mut h.src_ip6addr).is_err() {
            return Err(decode_error::OutOfBounds);
        }
        assert(h.src_ip6addr@.take(16) =~= h.src_ip6addr@);
        if !Self::is_valid_address(&h.src_ip6addr) {
            return deny(evt_mgr, event_desc::Ipv6SrcAddrInvalid);
        }
        if p.deserialize_ip6addr(&mut h.dst_ip6addr).is_err() {
            return Err(decode_error::OutOfBounds);
        }
        assert(h.dst_ip6addr@.take(16) =~= h.dst_ip6addr@);
        if !Self::is_valid_address(&h.dst_ip6addr) {
            return deny(evt_mgr, event_desc::Ipv6DstAddrInvalid);
        }
        *self = h;
        Ok(())
    }
}

} // verus!
