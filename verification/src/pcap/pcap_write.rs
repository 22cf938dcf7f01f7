//! Encoder of a pcap capture: the global header, then one record per frame,
//! all multi-byte fields big-endian.  The encoder produces bytes; writing
//! them to a file is the caller's part.

use vstd::prelude::*;
use crate::protocols::packet::{be16_bytes, be32_bytes, splice};
use crate::time_linux::timestamp::{get_wallclock, timestamp};

verus! {

/// Largest frame that a record takes, in bytes.
pub const PCAP_MAX_FRAME_LEN: u32 = 2048;

/// Writes a 32-bit value into `buf` at `off`, most significant byte first,
/// and moves `off` behind it.
pub fn serialize_4_bytes(val32: u32, buf: &mut [u8], off: &mut usize)
    requires
        *old(off) + 4 <= old(buf)@.len(),
    ensures
        final(buf)@ == splice(old(buf)@, *old(off) as int, be32_bytes(val32)),
        *final(off) == *old(off) + 4,
{
    let o: usize = *off;
    assert(((val32 & 0xFF000000) >> 24) == val32 / 0x100_0000 && ((val32 & 0x00FF0000) >> 16)
        == val32 / 0x1_0000 % 0x100 && ((val32 & 0x0000FF00) >> 8) == val32 / 0x100 % 0x100 && (
    val32 & 0x000000FF) == val32 % 0x100) by (bit_vector);
    buf[o] = ((val32 & 0xFF000000) >> 24) as u8;
    buf[o + 1] = ((val32 & 0x00FF0000) >> 16) as u8;
    buf[o + 2] = ((val32 & 0x0000FF00) >> 8) as u8;
    buf[o + 3] = (val32 & 0x000000FF) as u8;

    *off += 4;
}

/// Writes a 16-bit value into `buf` at `off`, most significant byte first,
/// and moves `off` behind it.
pub fn serialize_2_bytes(val16: u16, buf: &mut [u8], off: &mut usize)
    requires
        *old(off) + 2 <= old(buf)@.len(),
    ensures
        final(buf)@ == splice(old(buf)@, *old(off) as int, be16_bytes(val16)),
        *final(off) == *old(off) + 2,
{
    let o: usize = *off;
    assert(((val16 & 0xFF00) >> 8) == val16 / 0x100 && (val16 & 0x00FF) == val16 % 0x100)
        by (bit_vector);
    buf[o] = ((val16 & 0xFF00) >> 8) as u8;
    buf[o + 1] = (val16 & 0x00FF) as u8;

    *off += 2;
}

/// The global header of a capture file.
#[derive(Clone, Copy, PartialEq, Eq, Structural, Debug)]
pub struct pcap_header {
    pub magic_number: u32,
    pub version_major: u16,
    pub version_minor: u16,
    pub thiszone: i32,
    pub sigfigs: u32,
    pub snaplen: u32,
    pub network: u32,
}

impl pcap_header {
    /// Length of the encoded header.
    pub const PCAP_HEADER_LEN: usize = 24;

    /// The header that every capture of the probe starts with: magic number
    /// `0xA1B2C3D4`, version 2.4, GMT, snapshot length 65535, link type
    /// Ethernet.
    pub open spec fn spec_new() -> pcap_header {
        pcap_header {
            magic_number: 0xA1B2C3D4,
            version_major: 2,
            version_minor: 4,
            thiszone: 0,
            sigfigs: 0,
            snaplen: 65535,
            network: 1,
        }
    }

    /// The bytes of the header in the file.
    pub open spec fn spec_encode(&self) -> Seq<u8> {
        be32_bytes(self.magic_number) + be16_bytes(self.version_major) + be16_bytes(
            self.version_minor,
        ) + be32_bytes(self.thiszone as u32) + be32_bytes(self.sigfigs) + be32_bytes(self.snaplen)
            + be32_bytes(self.network)
    }

    /// The header that every capture of the probe starts with.
    pub fn new() -> (pcap_hdr: pcap_header)
        ensures
            pcap_hdr == Self::spec_new(),
    {
        pcap_header {
            magic_number: 0xA1B2C3D4,
            version_major: 2,
            version_minor: 4,
            thiszone: 0,
            sigfigs: 0,
            snaplen: 65535,
            network: 1,
        }
    }

    /// Writes the 24 bytes of the header into `buf` at `off` and moves `off`
    /// behind them.
    pub fn serialize(&mut self, buf: &mut [u8], off: &mut usize)
        requires
            *old(off) + 24 <= old(buf)@.len(),
        ensures
            *final(self) == *old(self),
            final(buf)@ == splice(old(buf)@, *old(off) as int, old(self).spec_encode()),
            *final(off) == *old(off) + 24,
    {
        serialize_4_bytes(self.magic_number, buf, off);
        serialize_2_bytes(self.version_major, buf, off);
        serialize_2_bytes(self.version_minor, buf, off);
        serialize_4_bytes(
            #[verifier::truncate]
            (self.thiszone as u32),
            buf,
            off,
        );
        serialize_4_bytes(self.sigfigs, buf, off);
        serialize_4_bytes(self.snaplen, buf, off);
        serialize_4_bytes(self.network, buf, off);
    }
}

/// The header of one record of a capture file.
#[derive(Clone, Copy, PartialEq, Eq, Structural, Debug)]
pub struct pcap_record {
    pub ts_sec: u32,
    pub ts_usec: u32,
    pub incl_len: u32,
    pub orig_len: u32,
}

impl pcap_record {
    /// Length of the encoded record header.
    pub const PCAP_RECORD_LEN: usize = 16;

    /// The record header of a frame of `len` bytes captured at `t`: nothing
    /// of the frame is cut off, so both lengths are `len`.
    pub open spec fn spec_of_frame(t: timestamp, len: u32) -> pcap_record {
        pcap_record { ts_sec: t.sec, ts_usec: t.usec, incl_len: len, orig_len: len }
    }

    /// The bytes of the record header in the file.
    pub open spec fn spec_encode(&self) -> Seq<u8> {
        be32_bytes(self.ts_sec) + be32_bytes(self.ts_usec) + be32_bytes(self.incl_len)
            + be32_bytes(self.orig_len)
    }

    /// A record header with all fields zero.
    pub fn new() -> (pcap_rec: pcap_record)
        ensures
            pcap_rec == (pcap_record { ts_sec: 0, ts_usec: 0, incl_len: 0, orig_len: 0 }),
    {
        pcap_record { ts_sec: 0, ts_usec: 0, incl_len: 0, orig_len: 0 }
    }

    /// Writes the 16 bytes of the record header into `buf` at `off` and moves
    /// `off` behind them.
    pub fn serialize(&mut self, buf: &mut [u8], off: &mut usize)
        requires
            *old(off) + 16 <= old(buf)@.len(),
        ensures
            *final(self) == *old(self),
            final(buf)@ == splice(old(buf)@, *old(off) as int, old(self).spec_encode()),
            *final(off) == *old(off) + 16,
    {
        serialize_4_bytes(self.ts_sec, buf, off);
        serialize_4_bytes(self.ts_usec, buf, off);
        serialize_4_bytes(self.incl_len, buf, off);
        serialize_4_bytes(self.orig_len, buf, off);
    }
}

/// Appends the first `n` bytes of `src` to `out`.
fn append_bytes(out: &mut Vec<u8>, src: &[u8], n: usize)
    requires
        n <= src@.len(),
    ensures
        final(out)@ == old(out)@ + src@.take(n as int),
{
    let mut i: usize = 0;
    while i < n
        invariant
            i <= n,
            n <= src@.len(),
            out@ == old(out)@ + src@.take(i as int),
        decreases n - i,
    {
        out.push(src[i]);
        i += 1;
    }
}

/// Encoder of one capture.  It collects the bytes of the capture that were
/// encoded and not yet handed out.
pub struct pcap_writer {
    pending: Vec<u8>,
}

impl View for pcap_writer {
    type V = Seq<u8>;

    closed spec fn view(&self) -> Seq<u8> {
        self.pending@
    }
}

impl pcap_writer {
    /// The bytes of the record of a frame: the record header, then the first
    /// `buf_len` bytes of `buf`.
    pub open spec fn spec_record(buf: Seq<u8>, buf_len: u32, t: timestamp) -> Seq<u8> {
        pcap_record::spec_of_frame(t, buf_len).spec_encode() + buf.take(buf_len as int)
    }

    /// A frame of `buf_len` bytes in `buf` can be recorded: it is no longer
    /// than the largest frame, and `buf` holds that many bytes.
    pub open spec fn spec_recordable(buf: Seq<u8>, buf_len: u32) -> bool {
        buf_len <= PCAP_MAX_FRAME_LEN && buf_len <= buf.len()
    }

    /// An encoder with nothing pending.
    pub fn new() -> (pcap: pcap_writer)
        ensures
            pcap@.len() == 0,
    {
        pcap_writer { pending: Vec::new() }
    }

    /// Starts a capture: appends the global header to the pending bytes.
    /// Returns 0.
    pub fn create(&mut self) -> (ret: i32)
        ensures
            ret == 0,
            final(self)@ == old(self)@ + pcap_header::spec_new().spec_encode(),
    {
        let mut pcap_hdr: pcap_header = pcap_header::new();
        let mut buf: [u8; pcap_header::PCAP_HEADER_LEN] = [0; pcap_header::PCAP_HEADER_LEN];
        let mut off: usize = 0;

        pcap_hdr.serialize(&mut buf, &mut off);
        append_bytes(&mut self.pending, &buf, off);
        return 0;
    }

    /// Appends the record of a frame captured at `t`.  Returns 0, or -1 and
    /// appends nothing where the frame cannot be recorded.
    pub fn write_at(&mut self, buf: &[u8], buf_len: u32, t: &timestamp) -> (ret: i32)
        ensures
            Self::spec_recordable(buf@, buf_len) ==> ret == 0 && final(self)@ == old(self)@
                + Self::spec_record(buf@, buf_len, *t),
            !Self::spec_recordable(buf@, buf_len) ==> ret == -1 && final(self)@ == old(self)@,
    {
        let mut pcap_rec: pcap_record = pcap_record::new();
        let mut pcap_rec_buf: [u8; pcap_record::PCAP_RECORD_LEN] =
            [0; pcap_record::PCAP_RECORD_LEN];
        let mut off: usize = 0;

        if buf_len > PCAP_MAX_FRAME_LEN || buf_len as usize > buf.len() {
            return -1;
        }
        pcap_rec.ts_sec = t.sec;
        pcap_rec.ts_usec = t.usec;
        pcap_rec.incl_len = buf_len;
        pcap_rec.orig_len = buf_len;

        pcap_rec.serialize(&mut pcap_rec_buf, &mut off);
        append_bytes(&mut self.pending, &pcap_rec_buf, 16);
        append_bytes(&mut self.pending, buf, buf_len as usize);

        return 0;
    }

    /// Appends the record of a frame, stamped with the wall clock.  Returns
    /// 0, or -1 and appends nothing where the frame cannot be recorded or the
    /// clock cannot be read.
    pub fn write(&mut self, buf: &[u8], buf_len: u32) -> (ret: i32)
        ensures
            ret == 0 || ret == -1,
            !Self::spec_recordable(buf@, buf_len) ==> ret == -1,
            ret == -1 ==> final(self)@ == old(self)@,
            ret == 0 ==> exists|t: timestamp|
                t.usec < 1_000_000 && final(self)@ == old(self)@ + #[trigger] Self::spec_record(
                    buf@,
                    buf_len,
                    t,
                ),
    {
        let mut t: timestamp = timestamp::new();

        if buf_len > PCAP_MAX_FRAME_LEN || buf_len as usize > buf.len() {
            return -1;
        }
        let ret = get_wallclock(&mut t);
        if ret < 0 {
            return -1;
        }
        self.write_at(buf, buf_len, &t)
    }

    /// Hands out the pending bytes, in the order in which they were encoded,
    /// and forgets them.
    pub fn take(&mut self) -> (out: Vec<u8>)
        ensures
            out@ == old(self)@,
            final(self)@.len() == 0,
    {
        let mut out: Vec<u8> = Vec::new();
        core::mem::swap(&mut self.pending, &mut out);
        out
    }
}

} // verus!
