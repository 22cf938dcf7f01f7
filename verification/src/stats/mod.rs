//! Running counts of the frames seen, per layer.

pub mod stats;
pub mod stats_mgr;
