//! Wall-clock time.

pub mod gmtime;
pub mod timestamp;
