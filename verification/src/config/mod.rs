//! Configuration of the probe, read from JSON text.

pub mod config_parser;
pub mod json;
