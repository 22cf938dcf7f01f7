//! One recorded event.

use vstd::prelude::*;
use crate::events::event_desc::event_desc;
use crate::events::event_type::event_type;
use crate::time_linux::timestamp::{get_wallclock, timestamp};

verus! {

/// An event: its disposition, the rule that was broken and when it was
/// detected.
#[derive(Clone, Copy, Debug)]
pub struct event_info {
    pub event_type: event_type,
    pub event_desc: event_desc,
    pub detection_ts: timestamp,
}

impl event_info {
    /// What the record reports, without the time: disposition and
    /// descriptor.
    pub open spec fn spec_kind(&self) -> (event_type, event_desc) {
        (self.event_type, self.event_desc)
    }

    /// A record that reports nothing.
    pub fn new() -> (e: event_info)
        ensures
            e.event_type == event_type::Allow,
            e.event_desc == event_desc::NoEvent,
            e.detection_ts == (timestamp { sec: 0, usec: 0 }),
    {
        event_info {
            event_type: event_type::Allow,
            event_desc: event_desc::NoEvent,
            detection_ts: timestamp::new(),
        }
    }

    /// Sets what the record reports and stamps it with the wall clock.  Where
    /// the clock cannot be read the earlier stamp stays.
    pub fn set(&mut self, event_type: event_type, event_desc: event_desc)
        ensures
            final(self).event_type == event_type,
            final(self).event_desc == event_desc,
            final(self).detection_ts.usec < 1_000_000 || final(self).detection_ts == old(
                self,
            ).detection_ts,
    {
        self.event_type = event_type;
        self.event_desc = event_desc;
        let _ = get_wallclock(&mut self.detection_ts);
    }
}

} // verus!
