//! Disposition of an event.

use vstd::prelude::*;

verus! {

/// What the probe decided about the frame that raised the event.
#[derive(Clone, Copy, PartialEq, Eq, Structural, Debug)]
pub enum event_type {
    Allow,
    Deny,
}

} // verus!
