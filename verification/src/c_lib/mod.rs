//! Helpers on byte strings.

pub mod c_strcpy;
pub mod memcmp;
