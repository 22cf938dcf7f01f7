//! What a header decoder reports, and how it raises an event.

use vstd::prelude::*;
use crate::events::event_desc::event_desc;
use crate::events::event_mgr::event_mgr;
use crate::events::event_type::event_type;

verus! {

/// Why the decoding of a frame stopped.
#[derive(Clone, Copy, PartialEq, Eq, Structural, Debug)]
pub enum decode_error {
    /// The captured bytes ended inside a field.  No event is raised.
    OutOfBounds,
    /// The frame broke the rule named; one `Deny` event with this descriptor
    /// was raised.
    Denied(event_desc),
    /// No decoder exists for the ethertype or the protocol number.  No event
    /// is raised.
    Unsupported,
}

/// 1 if every bit of `mask` is set in `b`, else 0.
pub open spec fn flag(b: u8, mask: u8) -> u8 {
    if b & mask == mask {
        1
    } else {
        0
    }
}

/// Tests the bits of `mask` in `b`.
pub(crate) fn flag_bit(b: u8, mask: u8) -> (r: u8)
    ensures
        r == flag(b, mask),
{
    if (b & mask) == mask {
        1
    } else {
        0
    }
}

/// The events of `cur` are those of `prev`, followed by the one `Deny` event
/// that a decode with the result `r` raises, if it raises one.
pub open spec fn events_logged(prev: &event_mgr, cur: &event_mgr, r: Result<(), decode_error>)
    -> bool {
    match r {
        Err(decode_error::Denied(d)) => cur.raised(prev, event_type::Deny, d),
        _ => cur@ == prev@,
    }
}

/// Raises a `Deny` event for the rule `d` and gives the error to return.
pub fn deny(evt_mgr: &mut event_mgr, d: event_desc) -> (r: Result<(), decode_error>)
    ensures
        r == Err::<(), decode_error>(decode_error::Denied(d)),
        final(evt_mgr).raised(old(evt_mgr), event_type::Deny, d),
{
    evt_mgr.insert_evt_info(event_type::Deny, d);
    Err(decode_error::Denied(d))
}

} // verus!
