//! Debug levels of the probe.

use vstd::prelude::*;

verus! {

/// What the probe prints while it runs.
#[non_exhaustive]
pub struct debug_levels;

impl debug_levels {
    /// Print the headers of every frame.
    pub const PROTOCOLS: u32 = 1;

    /// Print the configuration once it is read.
    pub const CONFIG_DATA: u32 = 2;
}

/// Whether the level asks for the headers of every frame.
pub fn is_debug_level_protocol(debug_level: u32) -> (r: bool)
    ensures
        r == (debug_level == 1),
{
    return debug_level == debug_levels::PROTOCOLS;
}

/// Whether the level asks for the configuration.
pub fn is_debug_level_config_data(debug_level: u32) -> (r: bool)
    ensures
        r == (debug_level == 2),
{
    return debug_level == debug_levels::CONFIG_DATA;
}

} // verus!
