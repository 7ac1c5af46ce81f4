//! Injected monotonic time.
//!
//! The controllers never read a clock themselves: every update receives
//! the current instant from the caller. An instant is counted in ticks of
//! `2^-32` seconds, so a tick difference is directly a fixed-point number
//! of seconds. A sample earlier than the previous one is the one error
//! this library reports.

use vstd::prelude::*;

use crate::fx::Fx;
use crate::fx::fx_clip;

verus! {

/// An instant of the injected monotonic clock, in ticks of `2^-32` s.
#[derive(Clone, Copy, Debug, PartialEq, Eq, Structural)]
pub struct Timestamp {
    pub ticks: i64,
}

/// The monotonic clock reported an instant earlier than the previous one.
#[derive(Clone, Copy, Debug, PartialEq, Eq, Structural)]
pub struct ClockError;

/// Exact value of the elapsed time between two instants, as fixed-point
/// seconds, defined when the later instant is not earlier.
pub open spec fn dt_v(now: Timestamp, last: Timestamp) -> int {
    fx_clip(now.ticks - last.ticks)
}

impl Timestamp {
    /// Build an instant from its tick count.
    pub fn from_ticks(ticks: i64) -> (r: Timestamp)
        ensures
            r.ticks == ticks,
    {
        Timestamp { ticks }
    }

    /// The seconds elapsed since `last`, or `ClockError` when this
    /// instant lies before `last`.
    pub fn elapsed_since(self, last: Timestamp) -> (r: Result<Fx, ClockError>)
        ensures
            self.ticks >= last.ticks ==> r == Ok::<Fx, ClockError>(
                Fx { bits: dt_v(self, last) as i64 },
            ),
            self.ticks < last.ticks ==> r == Err::<Fx, ClockError>(ClockError),
    {
        if self.ticks >= last.ticks {
            match self.ticks.checked_sub(last.ticks) {
                Some(d) => Ok(Fx { bits: d }),
                None => Ok(Fx { bits: i64::MAX }),
            }
        } else {
            Err(ClockError)
        }
    }
}

} // verus!
