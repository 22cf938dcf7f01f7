//! Seconds and microseconds since the Unix epoch.

use vstd::prelude::*;

verus! {

/// A point in time: whole seconds since the Unix epoch, and the microseconds
/// within that second.
#[derive(Clone, Copy, PartialEq, Eq, Structural, Debug)]
pub struct timestamp {
    pub sec: u32,
    pub usec: u32,
}

impl timestamp {
    /// The epoch itself.
    pub fn new() -> (t: timestamp)
        ensures
            t.sec == 0,
            t.usec == 0,
    {
        timestamp { sec: 0, usec: 0 }
    }

    /// The timestamp of a clock reading of `secs` whole seconds and `micros`
    /// microseconds.  The seconds are kept modulo 2^32.
    pub fn from_reading(secs: u64, micros: u32) -> (t: timestamp)
        ensures
            t.sec == secs % 0x1_0000_0000,
            t.usec == micros,
    {
        timestamp { sec: (secs % 0x1_0000_0000) as u32, usec: micros }
    }
}

/// Calls `std::time::SystemTime::elapsed` on `std::time::UNIX_EPOCH` and hands
/// out the whole seconds and the microseconds of the duration it returns, or
/// `None` where the system clock stands before the epoch.  Of the reading the
/// contract claims only what `Duration::subsec_micros` documents: the
/// microseconds are a fraction of a second.
#[verifier::external_body]
fn unix_epoch_elapsed() -> (r: Option<(u64, u32)>)
    ensures
        r matches Some((_, micros)) ==> micros < 1_000_000,
{
    match std::time::UNIX_EPOCH.elapsed() {
        Ok(d) => Some((d.as_secs(), d.subsec_micros())),
        Err(_) => None,
    }
}

/// Reads the wall clock into `t`.  Returns 0 on success; where the clock
/// cannot be read, returns -1 and leaves `t` as it was.
pub fn get_wallclock(t: &mut timestamp) -> (ret: i32)
    ensures
        ret == 0 || ret == -1,
        ret == 0 ==> final(t).usec < 1_000_000,
        ret == -1 ==> *final(t) == *old(t),
{
    match unix_epoch_elapsed() {
        Some((secs, micros)) => {
            *t = timestamp::from_reading(secs, micros);
            0
        },
        None => -1,
    }
}

} // verus!
