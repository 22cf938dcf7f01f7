//! The configuration of the packet generator: the Ethernet frames to send.

use vstd::prelude::*;
use crate::config::config_parser::{bool_member, spec_bool_member, spec_u64_member, u64_member};
use crate::config::json::{
    json_from_str,
    json_get,
    json_is_object,
    json_member,
    json_parsed,
    json_value_is_object,
};
use crate::protocols::l2::eth::eth_hdr;

verus! {

/// How the packet generator sends Ethernet frames.
#[derive(Clone, Copy, Debug)]
pub struct pktgen_eth_config {
    pub repeat: bool,
    pub repeat_intvl_us: u32,
    pub eth_hdr: eth_hdr,
}

impl pktgen_eth_config {
    /// The configuration that `config_data` gives, starting from `prev`.  The
    /// member `eth` has to be there.  Where it is an object, it has to hold a
    /// boolean `repeat` and an unsigned integer `replay_intvl_us` that fits 32
    /// bits; where it is anything else, the configuration stays as it was.
    /// The Ethernet header always stays as it was.  `None` where a member is
    /// missing or does not fit.
    pub open spec fn spec_parse(prev: pktgen_eth_config, config_data: serde_json::Value)
        -> Option<pktgen_eth_config> {
        match json_member(config_data, "eth"@) {
            Some(eth_obj) => if !json_is_object(eth_obj) {
                Some(prev)
            } else if spec_bool_member(eth_obj, "repeat"@) is Some && spec_u64_member(
                eth_obj,
                "replay_intvl_us"@,
            ) is Some && spec_u64_member(eth_obj, "replay_intvl_us"@).unwrap() <= u32::MAX {
                Some(
                    pktgen_eth_config {
                        repeat: spec_bool_member(eth_obj, "repeat"@).unwrap(),
                        repeat_intvl_us: spec_u64_member(eth_obj, "replay_intvl_us"@).unwrap()
                            as u32,
                        eth_hdr: prev.eth_hdr,
                    },
                )
            } else {
                None
            },
            None => None,
        }
    }

    /// The configuration before anything is read: no repeat, an interval of
    /// one microsecond, a zeroed Ethernet header.
    pub open spec fn spec_new() -> pktgen_eth_config {
        pktgen_eth_config { repeat: false, repeat_intvl_us: 1, eth_hdr: eth_hdr::spec_new() }
    }

    /// No repeat, an interval of one microsecond, a zeroed Ethernet header.
    pub fn new() -> (eth_config: pktgen_eth_config)
        ensures
            eth_config == Self::spec_new(),
    {
        pktgen_eth_config { repeat: false, repeat_intvl_us: 1, eth_hdr: eth_hdr::new() }
    }

    /// Takes the Ethernet configuration from `config_data`.  Returns 0; where
    /// the configuration is not there in full, returns -1 and changes
    /// nothing.
    pub fn parse(&mut self, config_data: &serde_json::Value) -> (ret: i32)
        ensures
            Self::spec_parse(*old(self), *config_data) is Some ==> ret == 0 && *final(self)
                == Self::spec_parse(*old(self), *config_data).unwrap(),
            Self::spec_parse(*old(self), *config_data) is None ==> ret == -1 && *final(self)
                == *old(self),
    {
        let eth_obj = match json_get(config_data, "eth") {
            Some(o) => o,
            None => {
                return -1;
            },
        };
        if json_value_is_object(eth_obj) {
            let repeat = match bool_member(eth_obj, "repeat") {
                Some(b) => b,
                None => {
                    return -1;
                },
            };
            let intvl = match u64_member(eth_obj, "replay_intvl_us") {
                Some(n) => n,
                None => {
                    return -1;
                },
            };
            if intvl > 0xFFFF_FFFF {
                return -1;
            }
            self.repeat = repeat;
            self.repeat_intvl_us = intvl as u32;
        }
        return 0;
    }
}

/// The configuration of the packet generator.
#[derive(Clone, Copy, Debug)]
pub struct pktgen_config {
    pub eth_config: pktgen_eth_config,
}

impl pktgen_config {
    /// The configuration that the text `config_text` gives, starting from
    /// `prev`.  `None` where the text is not JSON or the configuration is not
    /// there in full.
    pub open spec fn spec_parse(prev: pktgen_config, config_text: Seq<char>) -> Option<
        pktgen_config,
    > {
        match json_parsed(config_text) {
            Some(json) => match pktgen_eth_config::spec_parse(prev.eth_config, json) {
                Some(eth_config) => Some(pktgen_config { eth_config }),
                None => None,
            },
            None => None,
        }
    }

    /// The configuration before anything is read.
    pub open spec fn spec_new() -> pktgen_config {
        pktgen_config { eth_config: pktgen_eth_config::spec_new() }
    }

    /// The configuration before anything is read.
    pub fn new() -> (config: pktgen_config)
        ensures
            config == Self::spec_new(),
    {
        pktgen_config { eth_config: pktgen_eth_config::new() }
    }

    /// Takes the configuration from JSON text.  Returns 0; where the text is
    /// not JSON or the configuration is not there in full, returns -1 and
    /// changes nothing.
    pub fn parse(&mut self, config_text: &str) -> (ret: i32)
        ensures
            Self::spec_parse(*old(self), config_text@) is Some ==> ret == 0 && *final(self)
                == Self::spec_parse(*old(self), config_text@).unwrap(),
            Self::spec_parse(*old(self), config_text@) is None ==> ret == -1 && *final(self)
                == *old(self),
    {
        match json_from_str(config_text) {
            Some(json) => self.eth_config.parse(&json),
            None => -1,
        }
    }
}

} // verus!
