//! Round-trip-time values, stored as whole microseconds.
//!
//! Careful resume compares round-trip times and tolerance bands at
//! microsecond resolution, so a plain microsecond count is the model
//! every contract in this crate speaks of.

use vstd::prelude::*;

verus! {

/// A round-trip-time (or any non-negative span of time) as a whole
/// number of microseconds.
#[derive(Clone, Copy, Debug, PartialEq, Eq, Structural)]
pub struct Rtt {
    pub micros: u64,
}

impl Rtt {
    /// The zero-length span.
    pub fn zero() -> (r: Self)
        ensures
            r.micros == 0,
    {
        Rtt { micros: 0 }
    }

    /// An exact number of microseconds.
    pub fn from_micros(micros: u64) -> (r: Self)
        ensures
            r.micros == micros,
    {
        Rtt { micros }
    }

    /// A number of milliseconds; saturates at the largest representable
    /// span instead of overflowing.
    pub fn from_millis(millis: u64) -> (r: Self)
        ensures
            millis <= u64::MAX / 1000 ==> r.micros == millis * 1000,
            millis > u64::MAX / 1000 ==> r.micros == u64::MAX,
    {
        if millis <= u64::MAX / 1000 {
            Rtt { micros: millis * 1000 }
        } else {
            Rtt { micros: u64::MAX }
        }
    }

    /// A number of seconds; saturates at the largest representable span
    /// instead of overflowing.
    pub fn from_secs(secs: u64) -> (r: Self)
        ensures
            secs <= u64::MAX / 1_000_000 ==> r.micros == secs * 1_000_000,
            secs > u64::MAX / 1_000_000 ==> r.micros == u64::MAX,
    {
        if secs <= u64::MAX / 1_000_000 {
            Rtt { micros: secs * 1_000_000 }
        } else {
            Rtt { micros: u64::MAX }
        }
    }

    /// The span as whole microseconds.
    pub fn as_micros(&self) -> (r: u64)
        ensures
            r == self.micros,
    {
        self.micros
    }

    /// True iff the span is zero.
    pub fn is_zero(&self) -> (r: bool)
        ensures
            r == (self.micros == 0),
    {
        self.micros == 0
    }
}

} // verus!
