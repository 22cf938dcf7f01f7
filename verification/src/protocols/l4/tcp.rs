//! TCP header: ports, sequence numbers, flags and options.

use vstd::prelude::*;
use crate::events::event_desc::event_desc;
use crate::events::event_mgr::event_mgr;
use crate::protocols::decode::{decode_error, deny, events_logged, flag, flag_bit};
use crate::protocols::packet::{be16, be32, packet};

verus! {

/// The flags of a TCP header, one field per flag; `res` holds the three
/// reserved bits as a number.
#[derive(Clone, Copy, PartialEq, Eq, Structural, Debug)]
pub struct tcp_flags {
    pub res: u8,
    pub accurate_ecn: u8,
    pub cwr: u8,
    pub ece: u8,
    pub urg: u8,
    pub ack: u8,
    pub psh: u8,
    pub rst: u8,
    pub syn: u8,
    pub fin: u8,
}

impl tcp_flags {
    /// The flags that the byte pair `b0 b1` holds: the low nibble of `b0` and
    /// all of `b1`.
    pub open spec fn spec_unpack(b0: u8, b1: u8) -> tcp_flags {
        tcp_flags {
            res: (b0 & 0x0E) >> 1,
            accurate_ecn: flag(b0, 0x01),
            cwr: flag(b1, 0x80),
            ece: flag(b1, 0x40),
            urg: flag(b1, 0x20),
            ack: flag(b1, 0x10),
            psh: flag(b1, 0x08),
            rst: flag(b1, 0x04),
            syn: flag(b1, 0x02),
            fin: flag(b1, 0x01),
        }
    }

    /// Every flag is set, the reserved bits included.
    pub open spec fn all_set(&self) -> bool {
        &&& self.res == 7
        &&& self.accurate_ecn == 1
        &&& self.cwr == 1
        &&& self.ece == 1
        &&& self.urg == 1
        &&& self.ack == 1
        &&& self.psh == 1
        &&& self.rst == 1
        &&& self.syn == 1
        &&& self.fin == 1
    }

    /// No flag is set.
    pub open spec fn all_clear(&self) -> bool {
        &&& self.res == 0
        &&& self.accurate_ecn == 0
        &&& self.cwr == 0
        &&& self.ece == 0
        &&& self.urg == 0
        &&& self.ack == 0
        &&& self.psh == 0
        &&& self.rst == 0
        &&& self.syn == 0
        &&& self.fin == 0
    }

    /// The first rule that the flags break, if any: all set, all clear, SYN
    /// together with FIN.
    pub open spec fn spec_check(&self) -> Result<(), decode_error> {
        if self.all_set() {
            Err(decode_error::Denied(event_desc::TcpFlagsAllSet))
        } else if self.all_clear() {
            Err(decode_error::Denied(event_desc::TcpFlagsAllZero))
        } else if self.syn != 0 && self.fin != 0 {
            Err(decode_error::Denied(event_desc::TcpFlagsSynFinSet))
        } else {
            Ok(())
        }
    }

    /// Result of decoding the flags from the bytes `b`.
    pub open spec fn spec_verdict(b: Seq<u8>) -> Result<(), decode_error> {
        if b.len() < 2 {
            Err(decode_error::OutOfBounds)
        } else {
            Self::spec_unpack(b[0], b[1]).spec_check()
        }
    }

    /// Number of bytes that decoding the flags from `b` consumes.
    pub open spec fn spec_consumed(b: Seq<u8>) -> nat {
        if b.len() < 2 {
            0
        } else {
            2
        }
    }

    /// The flags with none set.
    pub open spec fn spec_new() -> tcp_flags {
        tcp_flags {
            res: 0,
            accurate_ecn: 0,
            cwr: 0,
            ece: 0,
            urg: 0,
            ack: 0,
            psh: 0,
            rst: 0,
            syn: 0,
            fin: 0,
        }
    }

    /// All flags clear.
    #[inline(always)]
    pub fn new() -> (flags: tcp_flags)
        ensures
            flags == Self::spec_new(),
    {
        tcp_flags {
            res: 0,
            accurate_ecn: 0,
            cwr: 0,
            ece: 0,
            urg: 0,
            ack: 0,
            psh: 0,
            rst: 0,
            syn: 0,
            fin: 0,
        }
    }

    /// Decodes the two flag bytes at the cursor and checks the combination.
    /// The flags are stored only if the combination is accepted.
    pub fn deserialize(&mut self, p: &mut packet, evt_mgr: &mut event_mgr) -> (ret: Result<
        (),
        decode_error,
    >)
        requires
            old(p).wf(),
        ensures
            ret == Self::spec_verdict(old(p).remaining()),
            final(p).advanced(old(p), Self::spec_consumed(old(p).remaining())),
            events_logged(old(evt_mgr), final(evt_mgr), ret),
            ret is Ok ==> *final(self) == Self::spec_unpack(
                old(p).remaining()[0],
                old(p).remaining()[1],
            ),
            ret is Err ==> *final(self) == *old(self),
    {
        if !p.remaining_len_in_bounds(2) {
            return Err(decode_error::OutOfBounds);
        }
        let b0: u8 = p.buf[p.off];
        let b1: u8 = p.buf[p.off + 1];
        p.off += 2;

        let f = tcp_flags {
            res: (b0 & 0x0E) >> 1,
            accurate_ecn: flag_bit(b0, 0x01),
            cwr: flag_bit(b1, 0x80),
            ece: flag_bit(b1, 0x40),
            urg: flag_bit(b1, 0x20),
            ack: flag_bit(b1, 0x10),
            psh: flag_bit(b1, 0x08),
            rst: flag_bit(b1, 0x04),
            syn: flag_bit(b1, 0x02),
            fin: flag_bit(b1, 0x01),
        };

        // raise event if all flags are set
        if (f.res == 7) && (f.accurate_ecn == 1) && (f.cwr == 1) && (f.ece == 1) && (f.urg == 1)
            && (f.ack == 1) && (f.psh == 1) && (f.rst == 1) && (f.syn == 1) && (f.fin == 1) {
            return deny(evt_mgr, event_desc::TcpFlagsAllSet);
        }

        // raise event if no flags are set
        if (f.res == 0) && (f.accurate_ecn == 0) && (f.cwr == 0) && (f.ece == 0) && (f.urg == 0)
            && (f.ack == 0) && (f.psh == 0) && (f.rst == 0) && (f.syn == 0) && (f.fin == 0) {
            return deny(evt_mgr, event_desc::TcpFlagsAllZero);
        }

        // raise event if both syn and fin are set
        if (f.syn != 0) && (f.fin != 0) {
            return deny(evt_mgr, event_desc::TcpFlagsSynFinSet);
        }
        *self = f;
        Ok(())
    }
}

/// Every pair of flag bytes falls under exactly one case: all twelve flag
/// bits set, rejected as `TcpFlagsAllSet`; all clear, rejected as
/// `TcpFlagsAllZero`; SYN and FIN both set, rejected as `TcpFlagsSynFinSet`
/// whatever the other bits; anything else is accepted.  The high nibble of the
/// first byte is the header length and has no part in it.
pub proof fn lemma_flag_byte_pairs(b0: u8, b1: u8)
    ensures
        (b0 & 0x0F == 0x0F && b1 == 0xFF) ==> tcp_flags::spec_unpack(b0, b1).spec_check() == Err::<
            (),
            decode_error,
        >(decode_error::Denied(event_desc::TcpFlagsAllSet)),
        (b0 & 0x0F == 0 && b1 == 0) ==> tcp_flags::spec_unpack(b0, b1).spec_check() == Err::<
            (),
            decode_error,
        >(decode_error::Denied(event_desc::TcpFlagsAllZero)),
        (b1 & 0x03 == 0x03 && !(b0 & 0x0F == 0x0F && b1 == 0xFF)) ==> tcp_flags::spec_unpack(
            b0,
            b1,
        ).spec_check() == Err::<(), decode_error>(
            decode_error::Denied(event_desc::TcpFlagsSynFinSet),
        ),
        (b1 & 0x03 != 0x03 && !(b0 & 0x0F == 0 && b1 == 0)) ==> tcp_flags::spec_unpack(
            b0,
            b1,
        ).spec_check() is Ok,
{
    let f = tcp_flags::spec_unpack(b0, b1);
    assert(f.all_set() <==> (b0 & 0x0F == 0x0F && b1 == 0xFF)) by {
        assert(((b0 & 0x0E) >> 1 == 7 && b0 & 0x01 == 0x01) <==> b0 & 0x0F == 0x0F)
            by (bit_vector);
        assert((b1 & 0x80 == 0x80 && b1 & 0x40 == 0x40 && b1 & 0x20 == 0x20 && b1 & 0x10 == 0x10
            && b1 & 0x08 == 0x08 && b1 & 0x04 == 0x04 && b1 & 0x02 == 0x02 && b1 & 0x01 == 0x01)
            <==> b1 == 0xFF) by (bit_vector);
    }
    assert(f.all_clear() <==> (b0 & 0x0F == 0 && b1 == 0)) by {
        assert(((b0 & 0x0E) >> 1 == 0 && b0 & 0x01 != 0x01) <==> b0 & 0x0F == 0)
            by (bit_vector);
        assert((b1 & 0x80 != 0x80 && b1 & 0x40 != 0x40 && b1 & 0x20 != 0x20 && b1 & 0x10 != 0x10
            && b1 & 0x08 != 0x08 && b1 & 0x04 != 0x04 && b1 & 0x02 != 0x02 && b1 & 0x01 != 0x01)
            <==> b1 == 0) by (bit_vector);
    }
    assert((b1 & 0x02 == 0x02 && b1 & 0x01 == 0x01) <==> b1 & 0x03 == 0x03) by (bit_vector);
}

/// The timestamp option of a TCP header, without its kind byte.
#[derive(Clone, Copy, PartialEq, Eq, Structural, Debug)]
pub struct tcp_opt_timestamp {
    pub len: u8,
    pub ts_val: u32,
    pub ts_echo_reply: u32,
}

impl tcp_opt_timestamp {
    /// Length that the option states for itself, kind and length bytes
    /// included.
    pub const TCP_TIMESTAMP_OPT_LEN: u8 = 10;

    /// Result of decoding the option from the bytes `b` that follow its kind
    /// byte.
    pub open spec fn spec_verdict(b: Seq<u8>) -> Result<(), decode_error> {
        if b.len() < 1 {
            Err(decode_error::OutOfBounds)
        } else if b[0] != 10 {
            Err(decode_error::Denied(event_desc::TcpTimestampOptLenInvalid))
        } else if b.len() < 9 {
            Err(decode_error::OutOfBounds)
        } else {
            Ok(())
        }
    }

    /// Number of bytes that decoding the option from `b` consumes: the length
    /// byte once it could be read, and the two values if both are there.
    pub open spec fn spec_consumed(b: Seq<u8>) -> nat {
        if b.len() < 1 {
            0
        } else if b[0] != 10 || b.len() < 9 {
            1
        } else {
            9
        }
    }

    /// The option that the bytes `b` hold behind the kind byte.
    pub open spec fn spec_unpack(b: Seq<u8>) -> tcp_opt_timestamp {
        tcp_opt_timestamp {
            len: b[0],
            ts_val: be32(b[1], b[2], b[3], b[4]),
            ts_echo_reply: be32(b[5], b[6], b[7], b[8]),
        }
    }

    /// The option with all fields zero.
    pub open spec fn spec_new() -> tcp_opt_timestamp {
        tcp_opt_timestamp { len: 0, ts_val: 0, ts_echo_reply: 0 }
    }

    /// An option with all fields zero.
    #[inline(always)]
    pub fn new() -> (opt_timestamp: tcp_opt_timestamp)
        ensures
            opt_timestamp == Self::spec_new(),
    {
        tcp_opt_timestamp { len: 0, ts_val: 0, ts_echo_reply: 0 }
    }

    /// Decodes the length byte and the two values of a timestamp option whose
    /// kind byte was consumed already.
    pub fn deserialize(&mut self, p: &mut packet, evt_mgr: &mut event_mgr) -> (ret: Result<
        (),
        decode_error,
    >)
        requires
            old(p).wf(),
        ensures
            ret == Self::spec_verdict(old(p).remaining()),
            final(p).advanced(old(p), Self::spec_consumed(old(p).remaining())),
            events_logged(old(evt_mgr), final(evt_mgr), ret),
            ret is Ok ==> *final(self) == Self::spec_unpack(old(p).remaining()),
            ret is Err ==> *final(self) == *old(self),
    {
        let mut opt = *self;

        if p.deserialize_byte(&mut opt.len).is_err() {
            return Err(decode_error::OutOfBounds);
        }
        if opt.len != Self::TCP_TIMESTAMP_OPT_LEN {
            return deny(evt_mgr, event_desc::TcpTimestampOptLenInvalid);
        }
        if !p.remaining_len_in_bounds(8) {
            return Err(decode_error::OutOfBounds);
        }
        if p.deserialize_4_bytes(&mut opt.ts_val).is_err() {
            return Err(decode_error::OutOfBounds);
        }
        if p.deserialize_4_bytes(&mut opt.ts_echo_reply).is_err() {
            return Err(decode_error::OutOfBounds);
        }
        *self = opt;
        Ok(())
    }
}

/// What a walk over the option bytes of a TCP header finds.
pub struct opt_scan {
    /// Whether every option was accepted, else why the walk stopped.
    pub verdict: Result<(), decode_error>,
    /// Number of bytes consumed.
    pub consumed: nat,
    /// The kinds of the options found, or-ed together.
    pub seen: u32,
    /// The last timestamp option found.
    pub timestamp: Option<tcp_opt_timestamp>,
}

/// The options of a TCP header.
#[derive(Clone, Copy, PartialEq, Eq, Structural, Debug)]
pub struct tcp_opt {
    pub available_options: u32,
    pub opt_timestamp: tcp_opt_timestamp,
}

proof fn lemma_or_u32(x: u32, y: u32, z: u32)
    by (bit_vector)
    ensures
        (x | y) | z == x | (y | z),
        x | 0 == x,
        0 | x == x,
{
}

impl tcp_opt {
    /// Kind of the one-byte option that does nothing.
    pub const OPT_NO_OP: u8 = 1;

    /// Kind of the timestamp option.
    pub const OPT_TIMESTAMP: u8 = 8;

    /// Walks the option bytes `b` to their end: a no-op takes one byte, a
    /// timestamp ten; any other kind is denied as `TcpUnknownOpt` and is not
    /// consumed.
    pub open spec fn spec_scan(b: Seq<u8>) -> opt_scan
        decreases b.len(),
    {
        if b.len() == 0 {
            opt_scan { verdict: Ok(()), consumed: 0, seen: 0, timestamp: None }
        } else if b[0] == 1 {
            let rest = Self::spec_scan(b.skip(1));
            opt_scan {
                verdict: rest.verdict,
                consumed: 1 + rest.consumed,
                seen: 1 | rest.seen,
                timestamp: rest.timestamp,
            }
        } else if b[0] == 8 {
            let body = b.skip(1);
            if tcp_opt_timestamp::spec_verdict(body) is Ok {
                let rest = Self::spec_scan(b.skip(10));
                opt_scan {
                    verdict: rest.verdict,
                    consumed: 10 + rest.consumed,
                    seen: 8 | rest.seen,
                    timestamp: if rest.timestamp is Some {
                        rest.timestamp
                    } else {
                        Some(tcp_opt_timestamp::spec_unpack(body))
                    },
                }
            } else {
                opt_scan {
                    verdict: tcp_opt_timestamp::spec_verdict(body),
                    consumed: 1 + tcp_opt_timestamp::spec_consumed(body),
                    seen: 0,
                    timestamp: None,
                }
            }
        } else {
            opt_scan {
                verdict: Err(decode_error::Denied(event_desc::TcpUnknownOpt)),
                consumed: 0,
                seen: 0,
                timestamp: None,
            }
        }
    }

    /// The options `prev` after a walk that found `scan`.
    pub open spec fn spec_merge(prev: tcp_opt, scan: opt_scan) -> tcp_opt {
        tcp_opt {
            available_options: prev.available_options | scan.seen,
            opt_timestamp: if scan.timestamp is Some {
                scan.timestamp.unwrap()
            } else {
                prev.opt_timestamp
            },
        }
    }

    /// The options with none seen.
    pub open spec fn spec_new() -> tcp_opt {
        tcp_opt { available_options: 0, opt_timestamp: tcp_opt_timestamp::spec_new() }
    }

    /// No option seen.
    #[inline(always)]
    pub fn new() -> (opts: tcp_opt)
        ensures
            opts == Self::spec_new(),
    {
        tcp_opt { available_options: 0, opt_timestamp: tcp_opt_timestamp::new() }
    }

    /// Decodes options from the cursor to the end of the captured bytes.  The
    /// kinds found are or-ed into `available_options`; the options are stored
    /// only if all of them are accepted.
    pub fn deserialize(&mut self, p: &mut packet, evt_mgr: &mut event_mgr) -> (ret: Result<
        (),
        decode_error,
    >)
        requires
            old(p).wf(),
        ensures
            ret == Self::spec_scan(old(p).remaining()).verdict,
            final(p).advanced(old(p), Self::spec_scan(old(p).remaining()).consumed),
            events_logged(old(evt_mgr), final(evt_mgr), ret),
            ret is Ok ==> *final(self) == Self::spec_merge(
                *old(self),
                Self::spec_scan(old(p).remaining()),
            ),
            ret is Err ==> *final(self) == *old(self),
    {
        let ghost b = p.remaining();
        let ghost start = p.off as int;
        let ghost mut seen: u32 = 0;
        let ghost mut ts: Option<tcp_opt_timestamp> = None;
        let mut opts = *self;

        proof {
            lemma_or_u32(opts.available_options, 0, 0);
            lemma_or_u32(Self::spec_scan(b).seen, 0, 0);
        }
        // nothing to do where no options are present
        while p.off < p.pkt_len
            invariant
                p.wf(),
                p.buf == old(p).buf,
                p.pkt_len == old(p).pkt_len,
                old(p).off <= old(p).pkt_len ==> start <= p.off <= p.pkt_len,
                old(p).off > old(p).pkt_len ==> p.off == old(p).off,
                b == old(p).remaining(),
                start == old(p).off,
                evt_mgr@ == old(evt_mgr)@,
                Self::spec_scan(b).verdict == Self::spec_scan(p.remaining()).verdict,
                Self::spec_scan(b).consumed == p.off - start + Self::spec_scan(
                    p.remaining(),
                ).consumed,
                Self::spec_scan(b).seen == seen | Self::spec_scan(p.remaining()).seen,
                Self::spec_scan(b).timestamp == (if Self::spec_scan(p.remaining()).timestamp
                    is Some {
                    Self::spec_scan(p.remaining()).timestamp
                } else {
                    ts
                }),
                opts.available_options == old(self).available_options | seen,
                opts.opt_timestamp == (if ts is Some {
                    ts.unwrap()
                } else {
                    old(self).opt_timestamp
                }),
            decreases p.pkt_len - p.off,
        {
            let ghost rest = p.remaining();
            let opt: u8 = p.buf[p.off];

            if opt == Self::OPT_NO_OP {
                p.off += 1;
                opts.available_options |= Self::OPT_NO_OP as u32;
                proof {
                    assert(p.remaining() =~= rest.skip(1));
                    lemma_or_u32(seen, 1, Self::spec_scan(rest.skip(1)).seen);
                    lemma_or_u32(old(self).available_options, seen, 1);
                    seen = seen | 1;
                }
            } else if opt == Self::OPT_TIMESTAMP {
                p.off += 1;
                let ghost body = p.remaining();
                let r = opts.opt_timestamp.deserialize(p, evt_mgr);
                if r.is_err() {
                    return r;
                }
                opts.available_options |= Self::OPT_TIMESTAMP as u32;
                proof {
                    assert(p.remaining() =~= rest.skip(10));
                    lemma_or_u32(seen, 8, Self::spec_scan(rest.skip(10)).seen);
                    lemma_or_u32(old(self).available_options, seen, 8);
                    seen = seen | 8;
                    ts = Some(tcp_opt_timestamp::spec_unpack(body));
                }
            } else {
                // unknown option
                return deny(evt_mgr, event_desc::TcpUnknownOpt);
            }
        }
        proof {
            lemma_or_u32(seen, 0, 0);
        }
        *self = opts;
        Ok(())
    }
}

/// The TCP header.
#[derive(Clone, Copy, PartialEq, Eq, Structural, Debug)]
pub struct tcp_hdr {
    pub src_port: u16,
    pub dst_port: u16,
    pub seq_no: u32,
    pub ack_no: u32,
    pub hdr_len: u8,
    pub flags: tcp_flags,
    pub window: u16,
    pub hdr_checksum: u16,
    pub urg_ptr: u16,
    pub options: tcp_opt,
}

impl tcp_hdr {
    /// Length of a TCP header without options.
    pub const TCP_MIN_HDR_LEN: u32 = 20;

    /// Result of decoding a TCP header from the bytes `b`: the first rule
    /// broken, in the order length, source port, destination port, flags,
    /// options.
    pub open spec fn spec_verdict(b: Seq<u8>) -> Result<(), decode_error> {
        if b.len() < 20 {
            Err(decode_error::Denied(event_desc::TcpShortHeader))
        } else if be16(b[0], b[1]) == 0 {
            Err(decode_error::Denied(event_desc::TcpSrcPortZero))
        } else if be16(b[2], b[3]) == 0 {
            Err(decode_error::Denied(event_desc::TcpDstPortZero))
        } else if tcp_flags::spec_unpack(b[12], b[13]).spec_check() is Err {
            tcp_flags::spec_unpack(b[12], b[13]).spec_check()
        } else {
            tcp_opt::spec_scan(b.skip(20)).verdict
        }
    }

    /// Number of bytes that decoding a TCP header from `b` consumes: the
    /// fields up to the one that broke a rule.
    pub open spec fn spec_consumed(b: Seq<u8>) -> nat {
        if b.len() < 20 {
            0
        } else if be16(b[0], b[1]) == 0 {
            2
        } else if be16(b[2], b[3]) == 0 {
            4
        } else if tcp_flags::spec_unpack(b[12], b[13]).spec_check() is Err {
            14
        } else {
            20 + tcp_opt::spec_scan(b.skip(20)).consumed
        }
    }

    /// The header that the bytes `b` hold; `prev` gives the options that were
    /// known before.
    pub open spec fn spec_unpack(b: Seq<u8>, prev: tcp_hdr) -> tcp_hdr {
        tcp_hdr {
            src_port: be16(b[0], b[1]),
            dst_port: be16(b[2], b[3]),
            seq_no: be32(b[4], b[5], b[6], b[7]),
            ack_no: be32(b[8], b[9], b[10], b[11]),
            hdr_len: (b[12] & 0xF0) >> 4,
            flags: tcp_flags::spec_unpack(b[12], b[13]),
            window: be16(b[14], b[15]),
            hdr_checksum: be16(b[16], b[17]),
            urg_ptr: be16(b[18], b[19]),
            options: tcp_opt::spec_merge(prev.options, tcp_opt::spec_scan(b.skip(20))),
        }
    }

    /// The header with all fields zero.
    pub open spec fn spec_new() -> tcp_hdr {
        tcp_hdr {
            src_port: 0,
            dst_port: 0,
            seq_no: 0,
            ack_no: 0,
            hdr_len: 0,
            flags: tcp_flags::spec_new(),
            window: 0,
            hdr_checksum: 0,
            urg_ptr: 0,
            options: tcp_opt::spec_new(),
        }
    }

    /// A header with all fields zero.
    #[inline(always)]
    pub fn new() -> (tcp_h: tcp_hdr)
        ensures
            tcp_h == Self::spec_new(),
    {
        tcp_hdr {
            src_port: 0,
            dst_port: 0,
            seq_no: 0,
            ack_no: 0,
            hdr_len: 0,
            flags: tcp_flags::new(),
            window: 0,
            hdr_checksum: 0,
            urg_ptr: 0,
            options: tcp_opt::new(),
        }
    }

    /// Decodes the TCP header at the cursor and the options behind it, up to
    /// the end of the captured bytes.  The header is stored only if every rule
    /// holds.
    pub fn deserialize(&mut self, p: &mut packet, evt_mgr: &mut event_mgr) -> (ret: Result<
        (),
        decode_error,
    >)
        requires
            old(p).wf(),
        ensures
            ret == Self::spec_verdict(old(p).remaining()),
            final(p).advanced(old(p), Self::spec_consumed(old(p).remaining())),
            events_logged(old(evt_mgr), final(evt_mgr), ret),
            ret is Ok ==> *final(self) == Self::spec_unpack(old(p).remaining(), *old(self)),
            ret is Err ==> *final(self) == *old(self),
    {
        let ghost b = p.remaining();
        let mut h = *self;

        // check if the packet within the TCP header length
        if !p.remaining_len_in_bounds(Self::TCP_MIN_HDR_LEN) {
            return deny(evt_mgr, event_desc::TcpShortHeader);
        }
        if p.deserialize_2_bytes(&mut h.src_port).is_err() {
            return Err(decode_error::OutOfBounds);
        }
        if h.src_port == 0 {
            return deny(evt_mgr, event_desc::TcpSrcPortZero);
        }
        if p.deserialize_2_bytes(&mut h.dst_port).is_err() {
            return Err(decode_error::OutOfBounds);
        }
        if h.dst_port == 0 {
            return deny(evt_mgr, event_desc::TcpDstPortZero);
        }
        if p.deserialize_4_bytes(&mut h.seq_no).is_err() {
            return Err(decode_error::OutOfBounds);
        }
        if p.deserialize_4_bytes(&mut h.ack_no).is_err() {
            return Err(decode_error::OutOfBounds);
        }
        h.hdr_len = (p.buf[p.off] & 0xF0) >> 4;

        let r = h.flags.deserialize(p, evt_mgr);
        if r.is_err() {
            return r;
        }
        if p.deserialize_2_bytes(&mut h.window).is_err() {
            return Err(decode_error::OutOfBounds);
        }
        if p.deserialize_2_bytes(&mut h.hdr_checksum).is_err() {
            return Err(decode_error::OutOfBounds);
        }
        if p.deserialize_2_bytes(&mut h.urg_ptr).is_err() {
            return Err(decode_error::OutOfBounds);
        }
        assert(p.remaining() =~= b.skip(20));

        let r = h.options.deserialize(p, evt_mgr);
        if r.is_err() {
            return r;
        }
        *self = h;
        r
    }
}

} // verus!
