//! Arguments and configuration of the packet generator.

pub mod pktgen_cmdargs;
pub mod pktgen_config;
pub mod pktgen_context;
