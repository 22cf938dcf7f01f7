//! Ethernet header.

use vstd::prelude::*;
use crate::c_lib::memcmp::{c_memcmp, same_prefix};
use crate::events::event_desc::event_desc;
use crate::events::event_mgr::event_mgr;
use crate::protocols::decode::{decode_error, deny, events_logged};
use crate::protocols::packet::{
    be16,
    be16_bytes,
    mac_at,
    packet,
    packet_error,
    splice,
    zero_mac_addr,
    PKT_BUF_LEN,
};

verus! {

/// The all-zero MAC address.
pub open spec fn zero_mac() -> Seq<u8> {
    seq![0u8, 0u8, 0u8, 0u8, 0u8, 0u8]
}

/// The broadcast MAC address.
pub open spec fn broadcast_mac() -> Seq<u8> {
    seq![0xFFu8, 0xFFu8, 0xFFu8, 0xFFu8, 0xFFu8, 0xFFu8]
}

/// The Ethernet header.
#[derive(Clone, Copy, Debug)]
pub struct eth_hdr {
    pub dst_mac: [u8; 6],
    pub src_mac: [u8; 6],
    pub ethertype: u16,
}

impl eth_hdr {
    /// Length of the Ethernet header.
    pub const ETH_HDR_LEN: u32 = 14;

    /// Result of decoding an Ethernet header from the bytes `b`.  A frame
    /// shorter than the header is always refused; the source address is
    /// checked against the all-zero and the broadcast address only where
    /// `check_src_mac` asks for it.
    pub open spec fn spec_verdict(b: Seq<u8>, check_src_mac: bool) -> Result<(), decode_error> {
        if b.len() < 14 {
            Err(decode_error::Denied(event_desc::EthShortHeader))
        } else if check_src_mac && mac_at(b, 6)@ == zero_mac() {
            Err(decode_error::Denied(event_desc::EthSrcZeroMac))
        } else if check_src_mac && mac_at(b, 6)@ == broadcast_mac() {
            Err(decode_error::Denied(event_desc::EthSrcBroadcastMac))
        } else {
            Ok(())
        }
    }

    /// Number of bytes that decoding an Ethernet header from `b` consumes:
    /// none of a short frame, else the whole header.
    pub open spec fn spec_consumed(b: Seq<u8>) -> nat {
        if b.len() < 14 {
            0
        } else {
            14
        }
    }

    /// The header that the bytes `b` hold.
    pub open spec fn spec_unpack(b: Seq<u8>) -> eth_hdr {
        eth_hdr { dst_mac: mac_at(b, 0), src_mac: mac_at(b, 6), ethertype: be16(b[12], b[13]) }
    }

    /// The bytes of the header on the wire.
    pub open spec fn spec_encode(&self) -> Seq<u8> {
        self.dst_mac@ + self.src_mac@ + be16_bytes(self.ethertype)
    }

    /// The header with all fields zero.
    pub open spec fn spec_new() -> eth_hdr {
        eth_hdr { dst_mac: zero_mac_addr(), src_mac: zero_mac_addr(), ethertype: 0 }
    }

    /// A header with all fields zero.
    pub fn new() -> (eh: eth_hdr)
        ensures
            eh == Self::spec_new(),
    {
        let eh = eth_hdr { dst_mac: [0; 6], src_mac: [0; 6], ethertype: 0 };
        assert(eh.src_mac =~= zero_mac_addr());
        eh
    }

    /// Decodes the Ethernet header at the cursor.  With `check_src_mac` a
    /// source address of all zeros or all ones is refused as well.  The
    /// header is stored only if every rule holds.
    pub fn deserialize(
        &mut self,
        p: &mut packet,
        evt_mgr: &mut event_mgr,
        check_src_mac: bool,
    ) -> (ret: Result<(), decode_error>)
        requires
            old(p).wf(),
        ensures
            ret == Self::spec_verdict(old(p).remaining(), check_src_mac),
            final(p).advanced(old(p), Self::spec_consumed(old(p).remaining())),
            events_logged(old(evt_mgr), final(evt_mgr), ret),
            ret is Ok ==> *final(self) == Self::spec_unpack(old(p).remaining()),
            ret is Err ==> *final(self) == *old(self),
    {
        let z_mac: [u8; 6] = [0x00, 0x00, 0x00, 0x00, 0x00, 0x00];
        let b_mac: [u8; 6] = [0xFF, 0xFF, 0xFF, 0xFF, 0xFF, 0xFF];
        let mut h = *self;

        // short ethernet frame length
        if !p.remaining_len_in_bounds(Self::ETH_HDR_LEN) {
            return deny(evt_mgr, event_desc::EthShortHeader);
        }
        if p.deserialize_mac(&mut h.dst_mac).is_err() {
            return Err(decode_error::OutOfBounds);
        }
        if p.deserialize_mac(&mut h.src_mac).is_err() {
            return Err(decode_error::OutOfBounds);
        }
        if p.deserialize_2_bytes(&mut h.ethertype).is_err() {
            return Err(decode_error::OutOfBounds);
        }
        proof {
            assert(z_mac@.take(6) =~= zero_mac());
            assert(b_mac@.take(6) =~= broadcast_mac());
        }
        if check_src_mac {
            // zero source mac.. raise event
            if c_memcmp(&h.src_mac, &z_mac, 6) {
                return deny(evt_mgr, event_desc::EthSrcZeroMac);
            }

            // broadcast source mac.. raise event
            if c_memcmp(&h.src_mac, &b_mac, 6) {
                return deny(evt_mgr, event_desc::EthSrcBroadcastMac);
            }
        }
        *self = h;
        Ok(())
    }

    /// Writes the header at the cursor, or nothing if it does not fit the
    /// buffer.
    pub fn serialize(&mut self, p: &mut packet) -> (ret: Result<(), packet_error>)
        ensures
            *final(self) == *old(self),
            ret is Ok <==> old(p).off + 14 <= PKT_BUF_LEN,
            ret is Ok ==> final(p).written(old(p), old(self).spec_encode()),
            ret is Err ==> *final(p) == *old(p),
    {
        if p.off > PKT_BUF_LEN - 14 {
            return Err(packet_error::OutOfBounds);
        }
        p.serialize_mac(&mut self.dst_mac)?;
        p.serialize_mac(&mut self.src_mac)?;
        p.serialize_2_bytes(&mut self.ethertype)?;
        assert(p.buf@ =~= splice(old(p).buf@, old(p).off as int, old(self).spec_encode()));
        Ok(())
    }
}

} // verus!
