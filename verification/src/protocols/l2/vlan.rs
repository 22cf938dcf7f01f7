//! 802.1Q VLAN tag.

use vstd::prelude::*;
use crate::events::event_desc::event_desc;
use crate::events::event_mgr::event_mgr;
use crate::protocols::decode::{decode_error, deny, events_logged, flag, flag_bit};
use crate::protocols::packet::{
    be16,
    be16_bytes,
    lemma_rewind_reads_written,
    make_be16,
    packet,
    packet_error,
    splice,
    PKT_BUF_LEN,
};

verus! {

/// The VLAN tag: priority, drop-eligible indicator, VLAN identifier and the
/// ethertype of what follows the tag.
#[derive(Clone, Copy, PartialEq, Eq, Structural, Debug)]
pub struct vlan_hdr {
    pub pcp: u8,
    pub dei: u8,
    pub vid: u16,
    pub ethertype: u16,
}

impl vlan_hdr {
    /// Each field fits the bits that the tag has for it.
    pub open spec fn wf(&self) -> bool {
        &&& self.pcp <= 7
        &&& self.dei <= 1
        &&& self.vid <= 4095
    }

    /// The VLAN identifier that the first two bytes of a tag hold.
    pub open spec fn spec_vid(b0: u8, b1: u8) -> u16 {
        be16(b0 & 0x0F, b1)
    }

    /// The identifiers 0 and 4095 are reserved.
    pub open spec fn spec_reserved(vid: u16) -> bool {
        vid == 0 || vid == 4095
    }

    /// Result of decoding a VLAN tag from the bytes `b`.
    pub open spec fn spec_verdict(b: Seq<u8>) -> Result<(), decode_error> {
        if b.len() < 2 {
            Err(decode_error::OutOfBounds)
        } else if Self::spec_reserved(Self::spec_vid(b[0], b[1])) {
            Err(decode_error::Denied(event_desc::VlanIdReserved))
        } else if b.len() < 4 {
            Err(decode_error::OutOfBounds)
        } else {
            Ok(())
        }
    }

    /// Number of bytes that decoding a VLAN tag from `b` consumes: the two
    /// bytes of the tag control information once they are there, and the
    /// ethertype if the identifier is accepted.
    pub open spec fn spec_consumed(b: Seq<u8>) -> nat {
        if b.len() < 2 {
            0
        } else if Self::spec_reserved(Self::spec_vid(b[0], b[1])) || b.len() < 4 {
            2
        } else {
            4
        }
    }

    /// The tag that the bytes `b` hold.
    pub open spec fn spec_unpack(b: Seq<u8>) -> vlan_hdr {
        vlan_hdr {
            pcp: (b[0] & 0xE0) >> 5,
            dei: flag(b[0], 0x10),
            vid: Self::spec_vid(b[0], b[1]),
            ethertype: be16(b[2], b[3]),
        }
    }

    /// The bytes of the tag on the wire.  Of each field only the bits that
    /// the tag has for it are written.
    pub open spec fn spec_encode(&self) -> Seq<u8> {
        seq![
            ((self.pcp & 0x07) << 5) | ((self.dei & 0x01) << 4) | (((self.vid & 0x0F00) >> 8)
                as u8),
            (self.vid & 0x00FF) as u8,
        ] + be16_bytes(self.ethertype)
    }

    /// The tag with all fields zero.
    pub open spec fn spec_new() -> vlan_hdr {
        vlan_hdr { pcp: 0, dei: 0, vid: 0, ethertype: 0 }
    }

    /// A tag with all fields zero.
    #[inline(always)]
    pub fn new() -> (vh: vlan_hdr)
        ensures
            vh == Self::spec_new(),
    {
        vlan_hdr { pcp: 0, dei: 0, vid: 0, ethertype: 0 }
    }

    /// Decodes the VLAN tag at the cursor.  The tag is stored only if its
    /// identifier is accepted.
    pub fn deserialize(&mut self, p: &mut packet, evt_mgr: &mut event_mgr) -> (ret: Result<
        (),
        decode_error,
    >)
        requires
            old(p).wf(),
        ensures
            ret == Self::spec_verdict(old(p).remaining()),
            final(p).advanced(old(p), Self::spec_consumed(old(p).remaining())),
            events_logged(old(evt_mgr), final(evt_mgr), ret),
            ret is Ok ==> *final(self) == Self::spec_unpack(old(p).remaining()),
            ret is Ok ==> final(self).wf(),
            ret is Err ==> *final(self) == *old(self),
    {
        let mut h = *self;

        if !p.remaining_len_in_bounds(2) {
            return Err(decode_error::OutOfBounds);
        }
        let b0: u8 = p.buf[p.off];
        let b1: u8 = p.buf[p.off + 1];
        h.pcp = (b0 & 0xE0) >> 5;
        h.dei = flag_bit(b0, 0x10);
        h.vid = make_be16(b0 & 0x0F, b1);
        p.off += 2;

        if h.vid == 0 || h.vid == 4095 {
            return deny(evt_mgr, event_desc::VlanIdReserved);
        }
        if p.deserialize_2_bytes(&mut h.ethertype).is_err() {
            return Err(decode_error::OutOfBounds);
        }
        proof {
            assert((b0 & 0xE0) >> 5 <= 7) by (bit_vector);
            assert(b0 & 0x0F <= 15) by (bit_vector);
        }
        *self = h;
        Ok(())
    }

    /// Writes the tag at the cursor, or nothing if it does not fit the
    /// buffer.
    pub fn serialize(&mut self, p: &mut packet) -> (ret: Result<(), packet_error>)
        ensures
            *final(self) == *old(self),
            ret is Ok <==> old(p).off + 4 <= PKT_BUF_LEN,
            ret is Ok ==> final(p).written(old(p), old(self).spec_encode()),
            ret is Err ==> *final(p) == *old(p),
    {
        if p.off > PKT_BUF_LEN - 4 {
            return Err(packet_error::OutOfBounds);
        }
        let mut b0: u8 = (self.pcp & 0x07) << 5;
        b0 |= (self.dei & 0x01) << 4;
        b0 |= ((self.vid & 0x0F00) >> 8) as u8;
        let mut b1: u8 = (self.vid & 0x00FF) as u8;
        p.serialize_byte(&mut b0)?;
        p.serialize_byte(&mut b1)?;
        p.serialize_2_bytes(&mut self.ethertype)?;
        assert(p.buf@ =~= splice(old(p).buf@, old(p).off as int, old(self).spec_encode()));
        Ok(())
    }
}

/// The VLAN identifier is the low nibble of the first byte and all of the
/// second: a number from 0 to 4095.  A tag with the identifier 0 or 4095 is
/// refused as `VlanIdReserved`; a tag of four bytes with any identifier from
/// 1 to 4094 is accepted.
pub proof fn lemma_vlan_ids(b: Seq<u8>)
    requires
        b.len() >= 4,
    ensures
        vlan_hdr::spec_vid(b[0], b[1]) == (b[0] % 16) * 256 + b[1],
        vlan_hdr::spec_vid(b[0], b[1]) <= 4095,
        vlan_hdr::spec_vid(b[0], b[1]) == 0 || vlan_hdr::spec_vid(b[0], b[1]) == 4095
            ==> vlan_hdr::spec_verdict(b) == Err::<(), decode_error>(
            decode_error::Denied(event_desc::VlanIdReserved),
        ),
        1 <= vlan_hdr::spec_vid(b[0], b[1]) <= 4094 ==> vlan_hdr::spec_verdict(b) is Ok,
{
    let b0 = b[0];
    assert(b0 & 0x0F == b0 % 16) by (bit_vector);
}

/// Encoding a tag and decoding the bytes gives the tag back: priority,
/// drop-eligible indicator, identifier and ethertype.  This holds of every
/// tag whose fields fit their bits and whose identifier is not reserved,
/// whatever bytes follow the tag.
pub proof fn lemma_vlan_roundtrip(h: vlan_hdr, tail: Seq<u8>)
    requires
        h.wf(),
        !vlan_hdr::spec_reserved(h.vid),
    ensures
        vlan_hdr::spec_verdict(h.spec_encode() + tail) is Ok,
        vlan_hdr::spec_consumed(h.spec_encode() + tail) == 4,
        vlan_hdr::spec_unpack(h.spec_encode() + tail) == h,
{
    let pcp = h.pcp;
    let dei = h.dei;
    let vid = h.vid;
    let b0: u8 = ((pcp & 0x07) << 5) | ((dei & 0x01) << 4) | (((vid & 0x0F00) >> 8) as u8);
    let b1: u8 = (vid & 0x00FF) as u8;
    assert(pcp <= 7 && dei <= 1 && vid <= 4095 ==> (b0 & 0xE0) >> 5 == pcp && (b0 & 0x10 == 0x10
        <==> dei == 1) && (((b0 & 0x0F) as u16) * 0x100 + (b1 as u16)) == vid) by (bit_vector)
        requires
            b0 == ((pcp & 0x07) << 5) | ((dei & 0x01) << 4) | (((vid & 0x0F00) >> 8) as u8),
            b1 == (vid & 0x00FF) as u8,
    ;
}

/// The same with a cursor.  After a tag was written into a frame and the
/// cursor was put back to where the writing began, decoding at the cursor
/// gives the tag back, provided the captured length reaches to the end of the
/// tag.
pub proof fn lemma_vlan_roundtrip_same_cursor(h: vlan_hdr, before: packet, after: packet)
    requires
        h.wf(),
        !vlan_hdr::spec_reserved(h.vid),
        after.wf(),
        after.written(&before, h.spec_encode()),
        before.off + 4 <= after.pkt_len,
    ensures
        vlan_hdr::spec_verdict((packet { off: before.off, ..after }).remaining()) is Ok,
        vlan_hdr::spec_consumed((packet { off: before.off, ..after }).remaining()) == 4,
        vlan_hdr::spec_unpack((packet { off: before.off, ..after }).remaining()) == h,
{
    lemma_rewind_reads_written(before, after, h.spec_encode());
    lemma_vlan_roundtrip(h, (packet { off: before.off, ..after }).remaining().skip(4));
}

} // verus!
