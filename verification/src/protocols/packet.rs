//! Bounds-checked, big-endian cursor over a fixed-capacity frame buffer.

use vstd::prelude::*;

verus! {

/// Capacity of a frame buffer in bytes.
pub const PKT_BUF_LEN: usize = 2048;

/// Why a cursor operation did not take place.
#[derive(Clone, Copy, PartialEq, Eq, Structural, Debug)]
pub enum packet_error {
    /// Fewer bytes are left than the operation needs.
    OutOfBounds,
}

/// The 16-bit value whose big-endian encoding is `hi lo`.
pub open spec fn be16(hi: u8, lo: u8) -> u16 {
    (hi as int * 0x100 + lo as int) as u16
}

/// The 32-bit value whose big-endian encoding is `b0 b1 b2 b3`.
pub open spec fn be32(b0: u8, b1: u8, b2: u8, b3: u8) -> u32 {
    (b0 as int * 0x100_0000 + b1 as int * 0x1_0000 + b2 as int * 0x100 + b3 as int) as u32
}

/// Big-endian encoding of a 16-bit value.
pub open spec fn be16_bytes(v: u16) -> Seq<u8> {
    seq![(v / 0x100) as u8, (v % 0x100) as u8]
}

/// Big-endian encoding of a 32-bit value.
pub open spec fn be32_bytes(v: u32) -> Seq<u8> {
    seq![
        (v / 0x100_0000) as u8,
        (v / 0x1_0000 % 0x100) as u8,
        (v / 0x100 % 0x100) as u8,
        (v % 0x100) as u8,
    ]
}

/// The all-zero MAC address.
pub open spec fn zero_mac_addr() -> [u8; 6] {
    [0u8, 0u8, 0u8, 0u8, 0u8, 0u8]
}

/// The all-zero IPv6 address.
pub open spec fn zero_ip6addr() -> [u8; 16] {
    [0u8, 0u8, 0u8, 0u8, 0u8, 0u8, 0u8, 0u8, 0u8, 0u8, 0u8, 0u8, 0u8, 0u8, 0u8, 0u8]
}

/// The MAC address that `b` holds from index `i` on.
pub open spec fn mac_at(b: Seq<u8>, i: int) -> [u8; 6] {
    [b[i], b[i + 1], b[i + 2], b[i + 3], b[i + 4], b[i + 5]]
}

/// The IPv6 address that `b` holds from index `i` on.
pub open spec fn ip6addr_at(b: Seq<u8>, i: int) -> [u8; 16] {
    [
        b[i],
        b[i + 1],
        b[i + 2],
        b[i + 3],
        b[i + 4],
        b[i + 5],
        b[i + 6],
        b[i + 7],
        b[i + 8],
        b[i + 9],
        b[i + 10],
        b[i + 11],
        b[i + 12],
        b[i + 13],
        b[i + 14],
        b[i + 15],
    ]
}

/// The bytes of `b` behind the first `n`.
pub open spec fn rest_of(b: Seq<u8>, n: nat) -> Seq<u8> {
    b.skip(n as int)
}

/// `s` with the bytes from index `at` on replaced by `data`.
pub open spec fn splice(s: Seq<u8>, at: int, data: Seq<u8>) -> Seq<u8> {
    Seq::new(s.len(), |i: int| if at <= i < at + data.len() { data[i - at] } else { s[i] })
}

/// Puts two bytes together, most significant first.
pub(crate) fn make_be16(hi: u8, lo: u8) -> (v: u16)
    ensures
        v == be16(hi, lo),
{
    assert(((hi as u16) << 8) | (lo as u16) == (hi as u16) * 0x100 + (lo as u16)) by (bit_vector);
    ((hi as u16) << 8) | (lo as u16)
}

/// Puts four bytes together, most significant first.
pub(crate) fn make_be32(b0: u8, b1: u8, b2: u8, b3: u8) -> (v: u32)
    ensures
        v == be32(b0, b1, b2, b3),
{
    assert(((b0 as u32) << 24) | ((b1 as u32) << 16) | ((b2 as u32) << 8) | (b3 as u32) == (
    b0 as u32) * 0x100_0000 + (b1 as u32) * 0x1_0000 + (b2 as u32) * 0x100 + (b3 as u32))
        by (bit_vector);
    ((b0 as u32) << 24) | ((b1 as u32) << 16) | ((b2 as u32) << 8) | (b3 as u32)
}

/// A received frame: the buffer, the number of bytes captured into it and the
/// read/write position.
pub struct packet {
    pub buf: [u8; PKT_BUF_LEN],
    pub pkt_len: usize,
    pub off: usize,
}

impl packet {
    /// The captured length fits the buffer.
    pub open spec fn wf(&self) -> bool {
        self.pkt_len <= PKT_BUF_LEN
    }

    /// Number of captured bytes from the cursor on.
    pub open spec fn remaining_len(&self) -> nat {
        if self.off <= self.pkt_len {
            (self.pkt_len - self.off) as nat
        } else {
            0
        }
    }

    /// The captured bytes from the cursor on.
    pub open spec fn remaining(&self) -> Seq<u8> {
        if self.off <= self.pkt_len {
            self.buf@.subrange(self.off as int, self.pkt_len as int)
        } else {
            Seq::empty()
        }
    }

    /// `self` is `prev` with the cursor moved forward by `n` of the bytes that
    /// were left, and nothing else changed.
    pub open spec fn advanced(&self, prev: &packet, n: nat) -> bool {
        &&& self.buf == prev.buf
        &&& self.pkt_len == prev.pkt_len
        &&& self.off == prev.off + n
        &&& n <= prev.remaining_len()
    }

    /// `self` is `prev` with `data` written at the cursor of `prev` and the
    /// cursor moved behind it.
    pub open spec fn written(&self, prev: &packet, data: Seq<u8>) -> bool {
        &&& self.buf@ == splice(prev.buf@, prev.off as int, data)
        &&& self.pkt_len == prev.pkt_len
        &&& self.off == prev.off + data.len()
    }

    /// An empty frame: all bytes zero, nothing captured, cursor at the start.
    #[inline(always)]
    pub fn new() -> (p: packet)
        ensures
            p.wf(),
            p.pkt_len == 0,
            p.off == 0,
            p.buf@ == Seq::new(PKT_BUF_LEN as nat, |i: int| 0u8),
    {
        let p = packet { buf: [0; PKT_BUF_LEN], pkt_len: 0, off: 0 };
        p
    }

    /// Whether at least `hdr_len` captured bytes are left at the cursor.
    pub fn remaining_len_in_bounds(&self, hdr_len: u32) -> (r: bool)
        ensures
            r == (self.remaining_len() >= hdr_len),
    {
        if self.off <= self.pkt_len {
            self.pkt_len - self.off >= hdr_len as usize
        } else {
            hdr_len == 0
        }
    }

    /// Capacity of the buffer.
    pub fn buf_len(&self) -> (n: usize)
        ensures
            n == PKT_BUF_LEN,
    {
        PKT_BUF_LEN
    }

    /// Whether `n` more bytes fit the buffer at the cursor.
    fn room_for(&self, n: usize) -> (r: bool)
        requires
            n <= PKT_BUF_LEN,
        ensures
            r == (self.off + n <= PKT_BUF_LEN),
    {
        self.off <= PKT_BUF_LEN - n
    }

    /// Writes the 16 bytes of an IPv6 address at the cursor.
    pub fn serialize_ip6addr(&mut self, ip6addr: &mut [u8; 16]) -> (r: Result<(), packet_error>)
        ensures
            *final(ip6addr) == *old(ip6addr),
            r is Ok <==> old(self).off + 16 <= PKT_BUF_LEN,
            r is Ok ==> final(self).written(old(self), old(ip6addr)@),
            r is Err ==> *final(self) == *old(self),
    {
        if !self.room_for(16) {
            return Err(packet_error::OutOfBounds);
        }
        let start = self.off;
        let mut i: usize = 0;
        while i < 16
            invariant
                i <= 16,
                start + 16 <= PKT_BUF_LEN,
                self.off == start,
                self.pkt_len == old(self).pkt_len,
                self.buf@ == splice(old(self).buf@, start as int, ip6addr@.take(i as int)),
            decreases 16 - i,
        {
            self.buf[start + i] = ip6addr[i];
            i += 1;
        }
        assert(ip6addr@.take(16) =~= ip6addr@);
        self.off += 16;
        Ok(())
    }

    /// Reads the 16 bytes of an IPv6 address at the cursor.
    pub fn deserialize_ip6addr(&mut self, ip6addr: &mut [u8; 16]) -> (r: Result<(), packet_error>)
        requires
            old(self).wf(),
        ensures
            r is Ok <==> old(self).remaining_len() >= 16,
            r is Ok ==> final(self).advanced(old(self), 16),
            r is Ok ==> *final(ip6addr) == ip6addr_at(old(self).remaining(), 0),
            r is Err ==> *final(self) == *old(self) && *final(ip6addr) == *old(ip6addr),
    {
        if !self.remaining_len_in_bounds(16) {
            return Err(packet_error::OutOfBounds);
        }
        let start = self.off;
        let mut i: usize = 0;
        while i < 16
            invariant
                i <= 16,
                start + 16 <= self.pkt_len <= PKT_BUF_LEN,
                *self == *old(self),
                self.off == start,
                forall|j: int| 0 <= j < i ==> ip6addr@[j] == self.buf@[start + j],
            decreases 16 - i,
        {
            ip6addr[i] = self.buf[start + i];
            i += 1;
        }
        self.off += 16;
        Ok(())
    }

    /// Writes the 6 bytes of a MAC address at the cursor.
    pub fn serialize_mac(&mut self, mac: &mut [u8; 6]) -> (r: Result<(), packet_error>)
        ensures
            *final(mac) == *old(mac),
            r is Ok <==> old(self).off + 6 <= PKT_BUF_LEN,
            r is Ok ==> final(self).written(old(self), old(mac)@),
            r is Err ==> *final(self) == *old(self),
    {
        if !self.room_for(6) {
            return Err(packet_error::OutOfBounds);
        }
        let start = self.off;
        let mut i: usize = 0;
        while i < 6
            invariant
                i <= 6,
                start + 6 <= PKT_BUF_LEN,
                self.off == start,
                self.pkt_len == old(self).pkt_len,
                self.buf@ == splice(old(self).buf@, start as int, mac@.take(i as int)),
            decreases 6 - i,
        {
            self.buf[start + i] = mac[i];
            i += 1;
        }
        assert(mac@.take(6) =~= mac@);
        self.off += 6;
        Ok(())
    }

    /// Reads the 6 bytes of a MAC address at the cursor.
    pub fn deserialize_mac(&mut self, mac: &mut [u8; 6]) -> (r: Result<(), packet_error>)
        requires
            old(self).wf(),
        ensures
            r is Ok <==> old(self).remaining_len() >= 6,
            r is Ok ==> final(self).advanced(old(self), 6),
            r is Ok ==> *final(mac) == mac_at(old(self).remaining(), 0),
            r is Err ==> *final(self) == *old(self) && *final(mac) == *old(mac),
    {
        if !self.remaining_len_in_bounds(6) {
            return Err(packet_error::OutOfBounds);
        }
        let start = self.off;
        let mut i: usize = 0;
        while i < 6
            invariant
                i <= 6,
                start + 6 <= self.pkt_len <= PKT_BUF_LEN,
                *self == *old(self),
                self.off == start,
                forall|j: int| 0 <= j < i ==> mac@[j] == self.buf@[start + j],
            decreases 6 - i,
        {
            mac[i] = self.buf[start + i];
            i += 1;
        }
        self.off += 6;
        Ok(())
    }

    /// Writes one byte at the cursor.
    pub fn serialize_byte(&mut self, val8: &mut u8) -> (r: Result<(), packet_error>)
        ensures
            *final(val8) == *old(val8),
            r is Ok <==> old(self).off + 1 <= PKT_BUF_LEN,
            r is Ok ==> final(self).written(old(self), seq![*old(val8)]),
            r is Err ==> *final(self) == *old(self),
    {
        if !self.room_for(1) {
            return Err(packet_error::OutOfBounds);
        }
        self.buf[self.off] = *val8;
        self.off += 1;
        assert(self.buf@ =~= splice(old(self).buf@, old(self).off as int, seq![*val8]));
        Ok(())
    }

    /// Reads one byte at the cursor.
    pub fn deserialize_byte(&mut self, val8: &mut u8) -> (r: Result<(), packet_error>)
        requires
            old(self).wf(),
        ensures
            r is Ok <==> old(self).remaining_len() >= 1,
            r is Ok ==> final(self).advanced(old(self), 1) && *final(val8) == old(
                self,
            ).remaining()[0],
            r is Err ==> *final(self) == *old(self) && *final(val8) == *old(val8),
    {
        if !self.remaining_len_in_bounds(1) {
            return Err(packet_error::OutOfBounds);
        }
        *val8 = self.buf[self.off];
        self.off += 1;
        Ok(())
    }

    /// Writes a 16-bit value at the cursor, most significant byte first.
    pub fn serialize_2_bytes(&mut self, val16: &mut u16) -> (r: Result<(), packet_error>)
        ensures
            *final(val16) == *old(val16),
            r is Ok <==> old(self).off + 2 <= PKT_BUF_LEN,
            r is Ok ==> final(self).written(old(self), be16_bytes(*old(val16))),
            r is Err ==> *final(self) == *old(self),
    {
        if !self.room_for(2) {
            return Err(packet_error::OutOfBounds);
        }
        let v: u16 = *val16;
        assert(((v & 0xFF00) >> 8) == v / 0x100 && (v & 0x00FF) == v % 0x100) by (bit_vector);
        self.buf[self.off] = ((v & 0xFF00) >> 8) as u8;
        self.buf[self.off + 1] = (v & 0x00FF) as u8;
        self.off += 2;
        assert(self.buf@ =~= splice(old(self).buf@, old(self).off as int, be16_bytes(v)));
        Ok(())
    }

    /// Reads a 16-bit value at the cursor, most significant byte first.
    pub fn deserialize_2_bytes(&mut self, val16: &mut u16) -> (r: Result<(), packet_error>)
        requires
            old(self).wf(),
        ensures
            r is Ok <==> old(self).remaining_len() >= 2,
            r is Ok ==> final(self).advanced(old(self), 2) && *final(val16) == be16(
                old(self).remaining()[0],
                old(self).remaining()[1],
            ),
            r is Err ==> *final(self) == *old(self) && *final(val16) == *old(val16),
    {
        if !self.remaining_len_in_bounds(2) {
            return Err(packet_error::OutOfBounds);
        }
        *val16 = make_be16(self.buf[self.off], self.buf[self.off + 1]);
        self.off += 2;
        Ok(())
    }

    /// Writes a 32-bit value at the cursor, most significant byte first.
    pub fn serialize_4_bytes(&mut self, val32: &mut u32) -> (r: Result<(), packet_error>)
        ensures
            *final(val32) == *old(val32),
            r is Ok <==> old(self).off + 4 <= PKT_BUF_LEN,
            r is Ok ==> final(self).written(old(self), be32_bytes(*old(val32))),
            r is Err ==> *final(self) == *old(self),
    {
        if !self.room_for(4) {
            return Err(packet_error::OutOfBounds);
        }
        let v: u32 = *val32;
        assert(((v & 0xFF000000) >> 24) == v / 0x100_0000 && ((v & 0x00FF0000) >> 16) == v
            / 0x1_0000 % 0x100 && ((v & 0x0000FF00) >> 8) == v / 0x100 % 0x100 && (v & 0x000000FF)
            == v % 0x100) by (bit_vector);
        self.buf[self.off] = ((v & 0xFF000000) >> 24) as u8;
        self.buf[self.off + 1] = ((v & 0x00FF0000) >> 16) as u8;
        self.buf[self.off + 2] = ((v & 0x0000FF00) >> 8) as u8;
        self.buf[self.off + 3] = (v & 0x000000FF) as u8;
        self.off += 4;
        assert(self.buf@ =~= splice(old(self).buf@, old(self).off as int, be32_bytes(v)));
        Ok(())
    }

    /// Reads a 32-bit value at the cursor, most significant byte first.
    pub fn deserialize_4_bytes(&mut self, val32: &mut u32) -> (r: Result<(), packet_error>)
        requires
            old(self).wf(),
        ensures
            r is Ok <==> old(self).remaining_len() >= 4,
            r is Ok ==> final(self).advanced(old(self), 4) && *final(val32) == be32(
                old(self).remaining()[0],
                old(self).remaining()[1],
                old(self).remaining()[2],
                old(self).remaining()[3],
            ),
            r is Err ==> *final(self) == *old(self) && *final(val32) == *old(val32),
    {
        if !self.remaining_len_in_bounds(4) {
            return Err(packet_error::OutOfBounds);
        }
        *val32 = make_be32(
            self.buf[self.off],
            self.buf[self.off + 1],
            self.buf[self.off + 2],
            self.buf[self.off + 3],
        );
        self.off += 4;
        Ok(())
    }
}

/// What was written can be read back with the same cursor.  After `data` was
/// written into `before`, giving `after`, a cursor put back to where the writing
/// began finds `data` first, provided the captured length reaches to the end
/// of the data.
pub proof fn lemma_rewind_reads_written(before: packet, after: packet, data: Seq<u8>)
    requires
        after.wf(),
        after.written(&before, data),
        before.off + data.len() <= after.pkt_len,
    ensures
        (packet { off: before.off, ..after }).remaining().take(data.len() as int) == data,
        (packet { off: before.off, ..after }).remaining().skip(data.len() as int)
            == after.remaining(),
{
}

} // verus!
