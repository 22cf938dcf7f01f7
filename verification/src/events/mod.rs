//! Security events: what the decoders raise and where it is kept.

pub mod event_desc;
pub mod event_info;
pub mod event_mgr;
pub mod event_type;
