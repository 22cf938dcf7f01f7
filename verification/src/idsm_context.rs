//! The state of the running probe, and what it does with each frame.

use vstd::prelude::*;
use vstd::string::StringExecFns;
use crate::cmd_args::{idsm_cmd_args, idsm_cmd_args_view};
use crate::config::config_parser::idsm_config;
use crate::events::event_info::event_info;
use crate::events::event_mgr::event_mgr;
use crate::parser::pkt_parser::{lemma_run_bounded, parse_run, pkt_parser};
use crate::pcap::pcap_write::{pcap_header, pcap_writer};
use crate::protocols::decode::events_logged;
use crate::protocols::packet::{packet, PKT_BUF_LEN};
use crate::stats::stats::idsm_stats;
use crate::stats::stats_mgr::idsm_stats_mgr;
use crate::time_linux::gmtime::{gmtime_filename, spec_time_tag, tm_linux};
use crate::time_linux::timestamp::timestamp;

verus! {

/// Everything the probe keeps while it runs: arguments, configuration,
/// events, counters and the capture that is being written.
pub struct idsm_context {
    pub cmd_args: idsm_cmd_args,
    pub config_data: idsm_config,
    pub evt_mgr: event_mgr,
    pub stats_mgr: idsm_stats_mgr,
    pub pcap_write: pcap_writer,
    /// Whether an Ethernet source address of all zeros or all ones is
    /// refused.
    pub check_src_mac: bool,
}

impl idsm_context {
    /// The run of the dispatcher over the frame in `p`, with a fresh parser.
    pub open spec fn spec_frame_run(&self, p: packet) -> parse_run {
        pkt_parser::spec_new().spec_parse(p.remaining(), self.check_src_mac)
    }

    /// The counters `s` with one more frame received.
    pub open spec fn spec_received(s: idsm_stats) -> idsm_stats {
        idsm_stats { n_rx: (s.n_rx + 1) as u64, ..s }
    }

    /// The frame in `p` can be counted: the counter of received frames has
    /// room for it, and the other counters for its headers.
    pub open spec fn spec_countable(&self, p: packet) -> bool {
        &&& self.stats_mgr@.n_rx < u64::MAX
        &&& self.spec_frame_run(p).countable(self.stats_mgr@)
    }

    /// A context before anything is read: no arguments, no configuration, no
    /// events, counters at zero, no capture, and the source address of a
    /// frame not checked.
    pub fn new() -> (context: idsm_context)
        ensures
            context.cmd_args@ == (idsm_cmd_args_view { config_file: Seq::empty(), debug: 0 }),
            context.config_data@ == idsm_config::spec_new(),
            context.evt_mgr@.len() == 0,
            context.stats_mgr@ == idsm_stats::spec_new(),
            context.pcap_write@.len() == 0,
            !context.check_src_mac,
    {
        idsm_context {
            cmd_args: idsm_cmd_args::new(),
            config_data: idsm_config::new(),
            evt_mgr: event_mgr::new(),
            stats_mgr: idsm_stats_mgr::new(),
            pcap_write: pcap_writer::new(),
            check_src_mac: false,
        }
    }

    /// The name of the capture file made at the time `t`: where capture
    /// files are on, the configured prefix, the time, the extension `.pcap`
    /// and a terminating NUL; where they are off, nothing.
    pub open spec fn spec_pcap_filename(&self, t: tm_linux) -> Seq<char> {
        if self.config_data.pcap_config.enable {
            self.config_data.pcap_config.file_prefix@ + spec_time_tag(t) + ".pcap"@ + seq!['\0']
        } else {
            Seq::empty()
        }
    }

    /// The bytes that start the capture: where capture files are on, the
    /// global header; where they are off, nothing.
    pub open spec fn spec_pcap_start(&self) -> Seq<u8> {
        if self.config_data.pcap_config.enable {
            pcap_header::spec_new().spec_encode()
        } else {
            Seq::empty()
        }
    }

    /// Prepares the capture at the time `t`.  Where capture files are on, the
    /// name of the file is appended to `pcap_filename`: the configured
    /// prefix, the time, the extension `.pcap` and a terminating NUL; and the
    /// capture is started, so that its global header is pending.  Where they
    /// are off nothing happens.  Returns 0.
    pub fn init_pcap_writing(&mut self, t: &tm_linux, pcap_filename: &mut String) -> (ret: i32)
        ensures
            ret == 0,
            final(self).cmd_args@ == old(self).cmd_args@,
            final(self).config_data@ == old(self).config_data@,
            final(self).evt_mgr@ == old(self).evt_mgr@,
            final(self).stats_mgr@ == old(self).stats_mgr@,
            final(self).check_src_mac == old(self).check_src_mac,
            final(pcap_filename)@ == old(pcap_filename)@ + old(self).spec_pcap_filename(*t),
            final(self).pcap_write@ == old(self).pcap_write@ + old(self).spec_pcap_start(),
    {
        // create pcap file if enabled
        if self.config_data.pcap_config.enable {
            let file_ext = String::from_str(".pcap");

            gmtime_filename(&self.config_data.pcap_config.file_prefix, &file_ext, t, pcap_filename);
            self.pcap_write.create();
        }
        return 0;
    }

    /// Whether the frame in `p` can be taken up: its captured length fits the
    /// buffer, and every counter has room for the most that a frame can add.
    pub fn can_process(&self, p: &packet) -> (r: bool)
        ensures
            r == (p.wf() && idsm_stats_mgr::spec_room(self.stats_mgr@, 512)),
            r ==> self.spec_countable(*p),
    {
        proof {
            lemma_run_bounded(pkt_parser::spec_new(), p.remaining(), self.check_src_mac);
        }
        p.pkt_len <= PKT_BUF_LEN && self.stats_mgr.has_room(512)
    }

    /// Takes up a frame that was received into `p`: counts it, parses it with
    /// a fresh parser, and where it is accepted and capture files are on,
    /// appends its record to the capture.  Returns 0 for an accepted frame
    /// and -1 for any other.
    pub fn process_raw_sock_recv(&mut self, p: &mut packet) -> (ret: i32)
        requires
            old(p).wf(),
            old(self).spec_countable(*old(p)),
        ensures
            ret == 0 <==> old(self).spec_frame_run(*old(p)).verdict is Ok,
            ret == -1 <==> old(self).spec_frame_run(*old(p)).verdict is Err,
            final(p).advanced(old(p), old(self).spec_frame_run(*old(p)).consumed),
            events_logged(
                &old(self).evt_mgr,
                &final(self).evt_mgr,
                old(self).spec_frame_run(*old(p)).verdict,
            ),
            final(self).stats_mgr@ == old(self).spec_frame_run(*old(p)).counted(
                Self::spec_received(old(self).stats_mgr@),
            ),
            final(self).cmd_args@ == old(self).cmd_args@,
            final(self).config_data@ == old(self).config_data@,
            final(self).check_src_mac == old(self).check_src_mac,
            ret == -1 || !old(self).config_data.pcap_config.enable ==> final(self).pcap_write@
                == old(self).pcap_write@,
            ret == 0 && old(self).config_data.pcap_config.enable ==> final(self).pcap_write@
                == old(self).pcap_write@ || exists|t: timestamp|
                t.usec < 1_000_000 && final(self).pcap_write@ == old(self).pcap_write@
                    + #[trigger] pcap_writer::spec_record(
                    old(p).buf@,
                    old(p).pkt_len as u32,
                    t,
                ),
    {
        // allocate a new parser context
        let mut parser: pkt_parser = pkt_parser::new();

        // update stats for rx
        self.stats_mgr.inc_rx();

        // parse the incoming frame, store events if necessary
        let ret = parser.parse(p, &mut self.evt_mgr, &mut self.stats_mgr, self.check_src_mac);
        if ret.is_err() {
            return -1;
        }
        if self.config_data.pcap_config.enable {
            let _ = self.pcap_write.write(&p.buf, p.pkt_len as u32);
        }
        return 0;
    }

    /// Hands out the events collected since the last call, oldest first, for
    /// export, and forgets them.
    pub fn process_evt_upload(&mut self) -> (out: Vec<event_info>)
        ensures
            out@ == old(self).evt_mgr@,
            final(self).evt_mgr@.len() == 0,
            final(self).cmd_args@ == old(self).cmd_args@,
            final(self).config_data@ == old(self).config_data@,
            final(self).stats_mgr@ == old(self).stats_mgr@,
            final(self).pcap_write@ == old(self).pcap_write@,
            final(self).check_src_mac == old(self).check_src_mac,
    {
        self.evt_mgr.drain()
    }
}

} // verus!
