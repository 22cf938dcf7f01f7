//! The ordered collection of the events raised so far.

use vstd::prelude::*;
use crate::events::event_desc::event_desc;
use crate::events::event_info::event_info;
use crate::events::event_type::event_type;

verus! {

/// Keeps the raised events in the order in which they arrived.
pub struct event_mgr {
    evt_list: Vec<event_info>,
}

impl View for event_mgr {
    type V = Seq<event_info>;

    closed spec fn view(&self) -> Seq<event_info> {
        self.evt_list@
    }
}

impl event_mgr {
    /// `self` holds the events of `prev` and, behind them, one more with the
    /// given disposition and descriptor, stamped with a time whose
    /// microseconds are a fraction of a second.
    pub open spec fn raised(&self, prev: &event_mgr, t: event_type, d: event_desc) -> bool {
        &&& self@.len() == prev@.len() + 1
        &&& self@.drop_last() == prev@
        &&& self@.last().event_type == t
        &&& self@.last().event_desc == d
        &&& self@.last().detection_ts.usec < 1_000_000
    }

    /// Disposition and descriptor of each event held, oldest first.
    pub open spec fn kinds(&self) -> Seq<(event_type, event_desc)> {
        Seq::new(self@.len(), |i: int| self@[i].spec_kind())
    }

    /// An event manager without events.
    pub fn new() -> (m: event_mgr)
        ensures
            m@.len() == 0,
    {
        event_mgr { evt_list: Vec::new() }
    }

    /// Appends an event with the given disposition and descriptor, stamped
    /// with the wall clock.
    pub fn insert_evt_info(&mut self, event_type: event_type, event_desc: event_desc)
        ensures
            final(self).raised(old(self), event_type, event_desc),
    {
        let mut evt_info: event_info = event_info::new();

        evt_info.set(event_type, event_desc);
        self.evt_list.push(evt_info);
        assert(self@.drop_last() =~= old(self)@);
    }

    /// Number of events held.
    pub fn len(&self) -> (n: usize)
        ensures
            n == self@.len(),
    {
        self.evt_list.len()
    }

    /// Hands out the events held, oldest first, and forgets them.
    pub fn drain(&mut self) -> (out: Vec<event_info>)
        ensures
            out@ == old(self)@,
            final(self)@.len() == 0,
    {
        let mut out: Vec<event_info> = Vec::new();
        core::mem::swap(&mut self.evt_list, &mut out);
        out
    }
}

} // verus!
