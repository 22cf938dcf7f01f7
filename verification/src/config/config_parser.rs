//! The configuration of the probe: interface, capture files, event export.

use vstd::prelude::*;
use vstd::string::StringExecFns;
use crate::config::json::{
    json_as_bool,
    json_as_str,
    json_as_u64,
    json_bool,
    json_from_str,
    json_get,
    json_is_object,
    json_member,
    json_parsed,
    json_text,
    json_u64,
    json_value_is_object,
};

verus! {

/// The boolean member `key` of the object `obj`.
pub open spec fn spec_bool_member(obj: serde_json::Value, key: Seq<char>) -> Option<bool> {
    match json_member(obj, key) {
        Some(m) => json_bool(m),
        None => None,
    }
}

/// The string member `key` of the object `obj`.
pub open spec fn spec_text_member(obj: serde_json::Value, key: Seq<char>) -> Option<Seq<char>> {
    match json_member(obj, key) {
        Some(m) => json_text(m),
        None => None,
    }
}

/// The unsigned integer member `key` of the object `obj`.
pub open spec fn spec_u64_member(obj: serde_json::Value, key: Seq<char>) -> Option<u64> {
    match json_member(obj, key) {
        Some(m) => json_u64(m),
        None => None,
    }
}

/// Reads the boolean member `key` of `obj`.
pub(crate) fn bool_member(obj: &serde_json::Value, key: &str) -> (r: Option<bool>)
    ensures
        r == spec_bool_member(*obj, key@),
{
    match json_get(obj, key) {
        Some(m) => json_as_bool(m),
        None => None,
    }
}

/// Reads the string member `key` of `obj`.
pub(crate) fn text_member(obj: &serde_json::Value, key: &str) -> (r: Option<String>)
    ensures
        r is Some == spec_text_member(*obj, key@) is Some,
        r is Some ==> r.unwrap()@ == spec_text_member(*obj, key@).unwrap(),
{
    match json_get(obj, key) {
        Some(m) => match json_as_str(m) {
            Some(s) => Some(String::from_str(s)),
            None => None,
        },
        None => None,
    }
}

/// Reads the unsigned integer member `key` of `obj`.
pub(crate) fn u64_member(obj: &serde_json::Value, key: &str) -> (r: Option<u64>)
    ensures
        r == spec_u64_member(*obj, key@),
{
    match json_get(obj, key) {
        Some(m) => json_as_u64(m),
        None => None,
    }
}

/// What a capture-file configuration holds.
pub struct idsm_pcap_config_view {
    pub enable: bool,
    pub file_prefix: Seq<char>,
}

/// Whether frames are written to capture files, and how the files are named.
pub struct idsm_pcap_config {
    pub enable: bool,
    pub file_prefix: String,
}

impl View for idsm_pcap_config {
    type V = idsm_pcap_config_view;

    open spec fn view(&self) -> idsm_pcap_config_view {
        idsm_pcap_config_view { enable: self.enable, file_prefix: self.file_prefix@ }
    }
}

impl idsm_pcap_config {
    /// The configuration under the member `pcap` of `config_data`: an object
    /// with a boolean `enable` and a string `file_prefix`.  `None` where any
    /// of that is missing or of another type.
    pub open spec fn spec_parse(config_data: serde_json::Value) -> Option<idsm_pcap_config_view> {
        match json_member(config_data, "pcap"@) {
            Some(pcap_obj) => if json_is_object(pcap_obj) && spec_bool_member(pcap_obj, "enable"@)
                is Some && spec_text_member(pcap_obj, "file_prefix"@) is Some {
                Some(
                    idsm_pcap_config_view {
                        enable: spec_bool_member(pcap_obj, "enable"@).unwrap(),
                        file_prefix: spec_text_member(pcap_obj, "file_prefix"@).unwrap(),
                    },
                )
            } else {
                None
            },
            None => None,
        }
    }

    /// What a configuration holds before anything is read: capture files
    /// off, no prefix.
    pub open spec fn spec_new() -> idsm_pcap_config_view {
        idsm_pcap_config_view { enable: false, file_prefix: Seq::empty() }
    }

    /// Capture files off, no prefix.
    pub fn new() -> (pcap_config: idsm_pcap_config)
        ensures
            pcap_config@ == Self::spec_new(),
    {
        idsm_pcap_config { enable: false, file_prefix: String::new() }
    }

    /// Takes the capture-file configuration from `config_data`.  Returns 0;
    /// where the configuration is not there in full, returns -1 and changes
    /// nothing.
    pub fn parse(&mut self, config_data: &serde_json::Value) -> (ret: i32)
        ensures
            Self::spec_parse(*config_data) is Some ==> ret == 0 && final(self)@ == Self::spec_parse(
                *config_data,
            ).unwrap(),
            Self::spec_parse(*config_data) is None ==> ret == -1 && final(self)@ == old(self)@,
    {
        let pcap_obj = match json_get(config_data, "pcap") {
            Some(o) => o,
            None => {
                return -1;
            },
        };
        if !json_value_is_object(pcap_obj) {
            return -1;
        }
        let enable = match bool_member(pcap_obj, "enable") {
            Some(b) => b,
            None => {
                return -1;
            },
        };
        let file_prefix = match text_member(pcap_obj, "file_prefix") {
            Some(s) => s,
            None => {
                return -1;
            },
        };
        self.enable = enable;
        self.file_prefix = file_prefix;

        return 0;
    }
}

/// What a UDP export configuration holds.
pub struct idsm_event_transport_udp_view {
    pub ipaddr: Seq<char>,
    pub port: u16,
    pub interval_sec: u32,
}

/// Where events are sent over UDP, and how often.
pub struct idsm_event_transport_udp {
    pub ipaddr: String,
    pub port: u16,
    pub interval_sec: u32,
}

impl View for idsm_event_transport_udp {
    type V = idsm_event_transport_udp_view;

    open spec fn view(&self) -> idsm_event_transport_udp_view {
        idsm_event_transport_udp_view {
            ipaddr: self.ipaddr@,
            port: self.port,
            interval_sec: self.interval_sec,
        }
    }
}

impl idsm_event_transport_udp {
    /// The configuration that the object `udp_obj` holds: a string `ipaddr`
    /// and the unsigned integers `port` and `interval_sec`, of which the low
    /// 16 and the low 32 bits are kept.  `None` where any of them is missing
    /// or of another type.
    pub open spec fn spec_of_object(udp_obj: serde_json::Value) -> Option<
        idsm_event_transport_udp_view,
    > {
        if spec_text_member(udp_obj, "ipaddr"@) is Some && spec_u64_member(udp_obj, "port"@)
            is Some && spec_u64_member(udp_obj, "interval_sec"@) is Some {
            Some(
                idsm_event_transport_udp_view {
                    ipaddr: spec_text_member(udp_obj, "ipaddr"@).unwrap(),
                    port: (spec_u64_member(udp_obj, "port"@).unwrap() % 0x1_0000) as u16,
                    interval_sec: (spec_u64_member(udp_obj, "interval_sec"@).unwrap()
                        % 0x1_0000_0000) as u32,
                },
            )
        } else {
            None
        }
    }

    /// The configuration under the member `udp` of `config_data`, which has
    /// to be an object.
    pub open spec fn spec_parse(config_data: serde_json::Value) -> Option<
        idsm_event_transport_udp_view,
    > {
        match json_member(config_data, "udp"@) {
            Some(udp_obj) => if json_is_object(udp_obj) {
                Self::spec_of_object(udp_obj)
            } else {
                None
            },
            None => None,
        }
    }

    /// What a configuration holds before anything is read: no address, port
    /// 0, interval 0.
    pub open spec fn spec_new() -> idsm_event_transport_udp_view {
        idsm_event_transport_udp_view { ipaddr: Seq::empty(), port: 0, interval_sec: 0 }
    }

    /// No address, port 0, interval 0.
    pub fn new() -> (udp_config: idsm_event_transport_udp)
        ensures
            udp_config@ == Self::spec_new(),
    {
        idsm_event_transport_udp { ipaddr: String::new(), port: 0, interval_sec: 0 }
    }

    /// Takes the UDP export configuration from `config_data`.  Returns 0;
    /// where the configuration is not there in full, returns -1 and changes
    /// nothing.
    pub fn parse(&mut self, config_data: &serde_json::Value) -> (ret: i32)
        ensures
            Self::spec_parse(*config_data) is Some ==> ret == 0 && final(self)@ == Self::spec_parse(
                *config_data,
            ).unwrap(),
            Self::spec_parse(*config_data) is None ==> ret == -1 && final(self)@ == old(self)@,
    {
        let udp_obj = match json_get(config_data, "udp") {
            Some(o) => o,
            None => {
                return -1;
            },
        };
        if !json_value_is_object(udp_obj) {
            return -1;
        }
        let ipaddr = match text_member(udp_obj, "ipaddr") {
            Some(s) => s,
            None => {
                return -1;
            },
        };
        let port = match u64_member(udp_obj, "port") {
            Some(n) => n,
            None => {
                return -1;
            },
        };
        let interval_sec = match u64_member(udp_obj, "interval_sec") {
            Some(n) => n,
            None => {
                return -1;
            },
        };
        self.ipaddr = ipaddr;
        self.port = (port % 0x1_0000) as u16;
        self.interval_sec = (interval_sec % 0x1_0000_0000) as u32;

        return 0;
    }
}

/// The transports over which events can be sent.
#[non_exhaustive]
pub struct idsm_event_transport_type;

impl idsm_event_transport_type {
    pub const UDP: u32 = 1;
}

/// What an event export configuration holds.
pub struct idsm_events_config_view {
    pub enable: bool,
    pub evt_transport_type: u32,
    pub udp_config: idsm_event_transport_udp_view,
}

/// Whether events are exported, and over which transport.
pub struct idsm_events_config {
    pub enable: bool,
    pub evt_transport_type: u32,
    pub udp_config: idsm_event_transport_udp,
}

impl View for idsm_events_config {
    type V = idsm_events_config_view;

    open spec fn view(&self) -> idsm_events_config_view {
        idsm_events_config_view {
            enable: self.enable,
            evt_transport_type: self.evt_transport_type,
            udp_config: self.udp_config@,
        }
    }
}

impl idsm_events_config {
    /// The configuration that the object `evt_obj` gives, starting from
    /// `prev`: a boolean `enable`, a string `transport`, which selects UDP
    /// where it is `udp` and else leaves the transport as it was, and a member
    /// `udp`.  Where that member is an object it gives the UDP configuration;
    /// where it is anything else the UDP configuration stays as it was.
    /// `None` where a member is missing or of another type.
    pub open spec fn spec_of_object(prev: idsm_events_config_view, evt_obj: serde_json::Value)
        -> Option<idsm_events_config_view> {
        if spec_bool_member(evt_obj, "enable"@) is Some && spec_text_member(evt_obj, "transport"@)
            is Some && json_member(evt_obj, "udp"@) is Some && (json_is_object(
            json_member(evt_obj, "udp"@).unwrap(),
        ) ==> idsm_event_transport_udp::spec_parse(evt_obj) is Some) {
            Some(
                idsm_events_config_view {
                    enable: spec_bool_member(evt_obj, "enable"@).unwrap(),
                    evt_transport_type: if spec_text_member(evt_obj, "transport"@).unwrap()
                        == "udp"@ {
                        1
                    } else {
                        prev.evt_transport_type
                    },
                    udp_config: if idsm_event_transport_udp::spec_parse(evt_obj) is Some {
                        idsm_event_transport_udp::spec_parse(evt_obj).unwrap()
                    } else {
                        prev.udp_config
                    },
                },
            )
        } else {
            None
        }
    }

    /// The configuration under the member `events` of `config_data`, which
    /// has to be an object.
    pub open spec fn spec_parse(prev: idsm_events_config_view, config_data: serde_json::Value)
        -> Option<idsm_events_config_view> {
        match json_member(config_data, "events"@) {
            Some(evt_obj) => if json_is_object(evt_obj) {
                Self::spec_of_object(prev, evt_obj)
            } else {
                None
            },
            None => None,
        }
    }

    /// What a configuration holds before anything is read: export off,
    /// transport UDP, no UDP configuration.
    pub open spec fn spec_new() -> idsm_events_config_view {
        idsm_events_config_view {
            enable: false,
            evt_transport_type: 1,
            udp_config: idsm_event_transport_udp::spec_new(),
        }
    }

    /// Export off, transport UDP, no UDP configuration.
    pub fn new() -> (evt_config: idsm_events_config)
        ensures
            evt_config@ == Self::spec_new(),
    {
        idsm_events_config {
            enable: false,
            evt_transport_type: idsm_event_transport_type::UDP,
            udp_config: idsm_event_transport_udp::new(),
        }
    }

    /// Takes the event export configuration from `config_data`.  Returns 0;
    /// where the configuration is not there in full, returns -1 and changes
    /// nothing.
    pub fn parse(&mut self, config_data: &serde_json::Value) -> (ret: i32)
        ensures
            Self::spec_parse(old(self)@, *config_data) is Some ==> ret == 0 && final(self)@
                == Self::spec_parse(old(self)@, *config_data).unwrap(),
            Self::spec_parse(old(self)@, *config_data) is None ==> ret == -1 && final(self)@
                == old(self)@,
    {
        let evt_obj = match json_get(config_data, "events") {
            Some(o) => o,
            None => {
                return -1;
            },
        };
        if !json_value_is_object(evt_obj) {
            return -1;
        }
        let enable = match bool_member(evt_obj, "enable") {
            Some(b) => b,
            None => {
                return -1;
            },
        };
        let evt_transport_type_str = match text_member(evt_obj, "transport") {
            Some(s) => s,
            None => {
                return -1;
            },
        };
        let udp_obj = match json_get(evt_obj, "udp") {
            Some(o) => o,
            None => {
                return -1;
            },
        };
        let mut udp_config = idsm_event_transport_udp::new();
        let udp_is_object = json_value_is_object(udp_obj);
        if udp_is_object {
            if udp_config.parse(evt_obj) < 0 {
                return -1;
            }
        }
        self.enable = enable;
        if evt_transport_type_str == String::from_str("udp") {
            self.evt_transport_type = idsm_event_transport_type::UDP;
        }
        if udp_is_object {
            self.udp_config = udp_config;
        }
        return 0;
    }
}

/// What a configuration holds.
pub struct idsm_config_view {
    pub ifname: Seq<char>,
    pub pcap_config: idsm_pcap_config_view,
    pub evt_config: idsm_events_config_view,
}

/// The configuration of the probe.
pub struct idsm_config {
    pub ifname: String,
    pub pcap_config: idsm_pcap_config,
    pub evt_config: idsm_events_config,
}

impl View for idsm_config {
    type V = idsm_config_view;

    open spec fn view(&self) -> idsm_config_view {
        idsm_config_view {
            ifname: self.ifname@,
            pcap_config: self.pcap_config@,
            evt_config: self.evt_config@,
        }
    }
}

impl idsm_config {
    /// The configuration that the JSON value `json` gives, starting from
    /// `prev`: the string `ifname`, the capture-file configuration and the
    /// event export configuration.  `None` where any of them is not there in
    /// full.
    pub open spec fn spec_of_value(prev: idsm_config_view, json: serde_json::Value) -> Option<
        idsm_config_view,
    > {
        if spec_text_member(json, "ifname"@) is Some && idsm_pcap_config::spec_parse(json) is Some
            && idsm_events_config::spec_parse(prev.evt_config, json) is Some {
            Some(
                idsm_config_view {
                    ifname: spec_text_member(json, "ifname"@).unwrap(),
                    pcap_config: idsm_pcap_config::spec_parse(json).unwrap(),
                    evt_config: idsm_events_config::spec_parse(prev.evt_config, json).unwrap(),
                },
            )
        } else {
            None
        }
    }

    /// The configuration that the text `config_text` gives, starting from
    /// `prev`.  `None` where the text is not JSON, or the configuration is not
    /// there in full.
    pub open spec fn spec_parse(prev: idsm_config_view, config_text: Seq<char>) -> Option<
        idsm_config_view,
    > {
        match json_parsed(config_text) {
            Some(json) => Self::spec_of_value(prev, json),
            None => None,
        }
    }

    /// What a configuration holds before anything is read: no interface,
    /// capture files off, export off.
    pub open spec fn spec_new() -> idsm_config_view {
        idsm_config_view {
            ifname: Seq::empty(),
            pcap_config: idsm_pcap_config::spec_new(),
            evt_config: idsm_events_config::spec_new(),
        }
    }

    /// No interface, capture files off, export off.
    pub fn new() -> (config: idsm_config)
        ensures
            config@ == Self::spec_new(),
    {
        idsm_config {
            ifname: String::new(),
            pcap_config: idsm_pcap_config::new(),
            evt_config: idsm_events_config::new(),
        }
    }

    /// Takes the configuration from a parsed JSON value.  Returns 0; where
    /// the configuration is not there in full, returns -1 and changes
    /// nothing.
    pub fn parse_value(&mut self, json: &serde_json::Value) -> (ret: i32)
        ensures
            Self::spec_of_value(old(self)@, *json) is Some ==> ret == 0 && final(self)@
                == Self::spec_of_value(old(self)@, *json).unwrap(),
            Self::spec_of_value(old(self)@, *json) is None ==> ret == -1 && final(self)@
                == old(self)@,
    {
        let ifname = match text_member(json, "ifname") {
            Some(s) => s,
            None => {
                return -1;
            },
        };
        let mut pcap_config = idsm_pcap_config::new();
        if pcap_config.parse(json) < 0 {
            return -1;
        }
        if self.evt_config.parse(json) < 0 {
            return -1;
        }
        self.ifname = ifname;
        self.pcap_config = pcap_config;

        return 0;
    }

    /// Takes the configuration from JSON text.  Returns 0; where the text is
    /// not JSON or the configuration is not there in full, returns -1 and
    /// changes nothing.
    pub fn parse(&mut self, config_text: &str) -> (ret: i32)
        ensures
            Self::spec_parse(old(self)@, config_text@) is Some ==> ret == 0 && final(self)@
                == Self::spec_parse(old(self)@, config_text@).unwrap(),
            Self::spec_parse(old(self)@, config_text@) is None ==> ret == -1 && final(self)@
                == old(self)@,
    {
        match json_from_str(config_text) {
            Some(json) => self.parse_value(&json),
            None => -1,
        }
    }
}

} // verus!
