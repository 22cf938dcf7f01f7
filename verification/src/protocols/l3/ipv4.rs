//! IPv4 header without options.

use vstd::prelude::*;
use crate::events::event_desc::event_desc;
use crate::events::event_mgr::event_mgr;
use crate::protocols::decode::{decode_error, deny, events_logged, flag, flag_bit};
use crate::protocols::packet::{be16, be32, make_be16, packet};

verus! {

/// The IPv4 header, bit-packed fields unpacked.
#[derive(Clone, Copy, PartialEq, Eq, Structural, Debug)]
pub struct ipv4_hdr {
    pub version: u8,
    pub ihl: u8,
    pub dscp: u8,
    pub ecn: u8,
    pub total_len: u16,
    pub id: u16,
    pub flags_res: u8,
    pub flags_df: u8,
    pub flags_mf: u8,
    pub frag_off: u16,
    pub ttl: u8,
    pub protocol: u8,
    pub hdr_checksum: u16,
    pub src_ipaddr: u32,
    pub dst_ipaddr: u32,
}

impl ipv4_hdr {
    /// Length of an IPv4 header without options.
    pub const IPV4_MIN_HDR_LEN: u32 = 20;

    /// The only version accepted.
    pub const IPV4_VERSION: u32 = 4;

    /// The only header length accepted, in 32-bit words.
    pub const IPV4_IHL_DEFAULT: u32 = 5;

    /// Result of decoding an IPv4 header from the bytes `b`: the first rule
    /// broken, in the order length, version, header length, reserved flag.
    pub open spec fn spec_verdict(b: Seq<u8>) -> Result<(), decode_error> {
        if b.len() < 20 {
            Err(decode_error::Denied(event_desc::Ipv4ShortHeader))
        } else if (b[0] & 0xF0) >> 4 != 4 {
            Err(decode_error::Denied(event_desc::Ipv4InvalidVersion))
        } else if b[0] & 0x0F != 5 {
            Err(decode_error::Denied(event_desc::Ipv4IhlInvalid))
        } else if flag(b[6], 0x80) != 0 {
            Err(decode_error::Denied(event_desc::Ipv4ReservedSet))
        } else {
            Ok(())
        }
    }

    /// Number of bytes that decoding an IPv4 header from `b` consumes: none
    /// where the length, the version or the header length is refused, the
    /// six bytes before the flags where the reserved flag is set.
    pub open spec fn spec_consumed(b: Seq<u8>) -> nat {
        if b.len() < 20 || (b[0] & 0xF0) >> 4 != 4 || b[0] & 0x0F != 5 {
            0
        } else if flag(b[6], 0x80) != 0 {
            6
        } else {
            20
        }
    }

    /// The header that the bytes `b` hold.
    pub open spec fn spec_unpack(b: Seq<u8>) -> ipv4_hdr {
        ipv4_hdr {
            version: (b[0] & 0xF0) >> 4,
            ihl: b[0] & 0x0F,
            dscp: (b[1] & 0xFC) >> 2,
            ecn: b[1] & 0x03,
            total_len: be16(b[2], b[3]),
            id: be16(b[4], b[5]),
            flags_res: flag(b[6], 0x80),
            flags_df: flag(b[6], 0x40),
            flags_mf: flag(b[6], 0x20),
            frag_off: be16(b[6] & 0x1F, b[7]),
            ttl: b[8],
            protocol: b[9],
            hdr_checksum: be16(b[10], b[11]),
            src_ipaddr: be32(b[12], b[13], b[14], b[15]),
            dst_ipaddr: be32(b[16], b[17], b[18], b[19]),
        }
    }

    /// The header with all fields zero.
    pub open spec fn spec_new() -> ipv4_hdr {
        ipv4_hdr {
            version: 0,
            ihl: 0,
            dscp: 0,
            ecn: 0,
            total_len: 0,
            id: 0,
            flags_res: 0,
            flags_df: 0,
            flags_mf: 0,
            frag_off: 0,
            ttl: 0,
            protocol: 0,
            hdr_checksum: 0,
            src_ipaddr: 0,
            dst_ipaddr: 0,
        }
    }

    /// A header with all fields zero.
    #[inline(always)]
    pub fn new() -> (hdr: ipv4_hdr)
        ensures
            hdr == Self::spec_new(),
    {
        ipv4_hdr {
            version: 0,
            ihl: 0,
            dscp: 0,
            ecn: 0,
            total_len: 0,
            id: 0,
            flags_res: 0,
            flags_df: 0,
            flags_mf: 0,
            frag_off: 0,
            ttl: 0,
            protocol: 0,
            hdr_checksum: 0,
            src_ipaddr: 0,
            dst_ipaddr: 0,
        }
    }

    /// Decodes the IPv4 header at the cursor.  The header is stored only if
    /// every rule holds.
    pub fn deserialize(&mut self, p: &mut packet, evt_mgr: &mut event_mgr) -> (ret: Result<
        (),
        decode_error,
    >)
        requires
            old(p).wf(),
        ensures
            ret == Self::spec_verdict(old(p).remaining()),
            final(p).advanced(old(p), Self::spec_consumed(old(p).remaining())),
            events_logged(old(evt_mgr), final(evt_mgr), ret),
            ret is Ok ==> *final(self) == Self::spec_unpack(old(p).remaining()),
            ret is Err ==> *final(self) == *old(self),
    {
        let mut h = *self;

        if !p.remaining_len_in_bounds(Self::IPV4_MIN_HDR_LEN) {
            return deny(evt_mgr, event_desc::Ipv4ShortHeader);
        }
        h.version = (p.buf[p.off] & 0xF0) >> 4;
        if (h.version as u32) != Self::IPV4_VERSION {
            return deny(evt_mgr, event_desc::Ipv4InvalidVersion);
        }
        h.ihl = p.buf[p.off] & 0x0F;
        if (h.ihl as u32) != Self::IPV4_IHL_DEFAULT {
            return deny(evt_mgr, event_desc::Ipv4IhlInvalid);
        }
        p.off += 1;

        h.dscp = (p.buf[p.off] & 0xFC) >> 2;
        h.ecn = p.buf[p.off] & 0x03;
        p.off += 1;

        if p.deserialize_2_bytes(&mut h.total_len).is_err() {
            return Err(decode_error::OutOfBounds);
        }
        if p.deserialize_2_bytes(&mut h.id).is_err() {
            return Err(decode_error::OutOfBounds);
        }
        h.flags_res = flag_bit(p.buf[p.off], 0x80);
        if h.flags_res != 0 {
            return deny(evt_mgr, event_desc::Ipv4ReservedSet);
        }
        h.flags_df = flag_bit(p.buf[p.off], 0x40);
        h.flags_mf = flag_bit(p.buf[p.off], 0x20);
        h.frag_off = make_be16(p.buf[p.off] & 0x1F, p.buf[p.off + 1]);
        p.off += 2;

        if p.deserialize_byte(&mut h.ttl).is_err() {
            return Err(decode_error::OutOfBounds);
        }
        if p.deserialize_byte(&mut h.protocol).is_err() {
            return Err(decode_error::OutOfBounds);
        }
        if p.deserialize_2_bytes(&mut h.hdr_checksum).is_err() {
            return Err(decode_error::OutOfBounds);
        }
        if p.deserialize_4_bytes(&mut h.src_ipaddr).is_err() {
            return Err(decode_error::OutOfBounds);
        }
        if p.deserialize_4_bytes(&mut h.dst_ipaddr).is_err() {
            return Err(decode_error::OutOfBounds);
        }
        *self = h;
        Ok(())
    }
}

/// The checks on an IPv4 header, in numbers.  A header of fewer than 20
/// bytes is refused for its length.  Else a version other than 4 is refused
/// whatever the rest holds; with version 4, a header length other than 5;
/// with both in order, a set reserved flag, the top bit of the seventh byte.
/// A header that passes all four is accepted.
pub proof fn lemma_ipv4_first_violation(b: Seq<u8>)
    ensures
        b.len() < 20 ==> ipv4_hdr::spec_verdict(b) == Err::<(), decode_error>(
            decode_error::Denied(event_desc::Ipv4ShortHeader),
        ),
        b.len() >= 20 && b[0] / 16 != 4 ==> ipv4_hdr::spec_verdict(b) == Err::<(), decode_error>(
            decode_error::Denied(event_desc::Ipv4InvalidVersion),
        ),
        b.len() >= 20 && b[0] / 16 == 4 && b[0] % 16 != 5 ==> ipv4_hdr::spec_verdict(b) == Err::<
            (),
            decode_error,
        >(decode_error::Denied(event_desc::Ipv4IhlInvalid)),
        b.len() >= 20 && b[0] == 0x45 && b[6] >= 0x80 ==> ipv4_hdr::spec_verdict(b) == Err::<
            (),
            decode_error,
        >(decode_error::Denied(event_desc::Ipv4ReservedSet)),
        b.len() >= 20 && b[0] == 0x45 && b[6] < 0x80 ==> ipv4_hdr::spec_verdict(b) is Ok,
{
    if b.len() >= 20 {
        let v = b[0];
        let f = b[6];
        assert((v & 0xF0) >> 4 == v / 16 && v & 0x0F == v % 16) by (bit_vector);
        assert((f & 0x80 == 0x80) <==> f >= 0x80) by (bit_vector);
    }
}

} // verus!
