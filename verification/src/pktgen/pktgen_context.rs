//! The state of the packet generator.

use vstd::prelude::*;
use crate::pktgen::pktgen_cmdargs::{pktgen_cmd_args, pktgen_cmd_args_view};
use crate::pktgen::pktgen_config::pktgen_config;

verus! {

/// Everything the packet generator keeps: arguments and configuration.
pub struct pktgen_context {
    pub cmd_args: pktgen_cmd_args,
    pub config: pktgen_config,
}

impl pktgen_context {
    /// A context before anything is read: no arguments, the configuration at
    /// its defaults.
    pub fn new() -> (ctx: pktgen_context)
        ensures
            ctx.cmd_args@ == (pktgen_cmd_args_view { config_file: Seq::empty(), debug: 0 }),
            ctx.config == pktgen_config::spec_new(),
    {
        pktgen_context { cmd_args: pktgen_cmd_args::new(), config: pktgen_config::new() }
    }
}

} // verus!
