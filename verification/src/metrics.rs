//! The careful-resume observer.
//!
//! A single-slot sampler that produces a `(min_rtt, cwnd)` summary
//! worth persisting for a future connection's careful resume.  A new
//! sample is emitted when the path measurements have drifted outside a
//! tolerance band around the last emitted sample — a band that shrinks
//! as the reciprocal of the time since that emission — or when more
//! than the maximum gap has passed.
//!
//! All decisions are made by `maybe_update_at`, which takes the clock
//! reading as an argument and is verified for every value of it;
//! `maybe_update` merely reads the clock.

use vstd::prelude::*;
use crate::rtt::Rtt;

verus! {

/// Emissions are forced once more than this many nanoseconds have
/// passed since the last one.
pub const CR_EVENT_MAXIMUM_GAP_NANOS: u64 = 60_000_000_000;

/// An update in observed careful-resume parameters, to be stored or
/// transmitted for future connections.
#[derive(Clone, Copy, Debug, PartialEq, Eq, Structural)]
pub struct CREvent {
    /// A windowed minimum round-trip-time observation.
    pub min_rtt: Rtt,
    /// The current congestion window, in bytes.
    pub cwnd: usize,
}

/// The observer: the last emitted sample, the clock reading at that
/// emission, and the host's initial window as a gating floor.
#[derive(Debug)]
pub struct CRMetrics {
    /// The host's initial window, in bytes.
    pub iw: usize,
    /// The minimum round-trip time of the last emitted sample.
    pub min_rtt: Rtt,
    /// The congestion window of the last emitted sample, in bytes.
    pub cwnd: usize,
    /// The clock reading, in nanoseconds, at the last emission.
    pub last_update: u64,
}

/// Nanoseconds from the observer's last emission to the clock reading
/// `now`; zero if the clock ran backwards.
pub open spec fn elapsed_of(m: CRMetrics, now: u64) -> int {
    if now >= m.last_update {
        now - m.last_update
    } else {
        0
    }
}

/// True iff `observed` lies outside the tolerance band around
/// `stored`, the band whose half-width is `stored` divided by the
/// elapsed time in seconds.  Stated without division: the distance from
/// the stored value, scaled by the elapsed nanoseconds, exceeds the
/// stored value scaled by one second.
pub open spec fn outside_band(stored: int, observed: int, elapsed_nanos: int) -> bool {
    let diff = if observed >= stored {
        observed - stored
    } else {
        stored - observed
    };
    diff * elapsed_nanos > stored * 1_000_000_000
}

/// True iff the observer emits a new sample for the inputs at clock
/// reading `now`: the window must reach four initial windows, and the
/// inputs must either arrive after the maximum gap or fall outside the
/// shrinking tolerance band around the last sample.
pub open spec fn observer_should_update(
    m: CRMetrics,
    now: u64,
    new_min_rtt: Rtt,
    new_cwnd: usize,
) -> bool {
    let elapsed = elapsed_of(m, now);
    if (new_cwnd as int) < 4 * (m.iw as int) {
        false
    } else if elapsed > CR_EVENT_MAXIMUM_GAP_NANOS {
        true
    } else if elapsed == 0 {
        false
    } else {
        outside_band(m.min_rtt.micros as int, new_min_rtt.micros as int, elapsed) || outside_band(
            m.cwnd as int,
            new_cwnd as int,
            elapsed,
        )
    }
}

/// What one observation does: when a sample is emitted the observer
/// stores the inputs and the clock reading, otherwise it is unchanged.
pub open spec fn observer_step(m: CRMetrics, now: u64, new_min_rtt: Rtt, new_cwnd: usize) -> (
    CRMetrics,
    Option<CREvent>,
) {
    if observer_should_update(m, now, new_min_rtt, new_cwnd) {
        (
            CRMetrics { iw: m.iw, min_rtt: new_min_rtt, cwnd: new_cwnd, last_update: now },
            Some(CREvent { min_rtt: new_min_rtt, cwnd: new_cwnd }),
        )
    } else {
        (m, None)
    }
}

proof fn lemma_mul_le(a: int, b: int, a_bound: int, b_bound: int)
    by (nonlinear_arith)
    requires
        0 <= a <= a_bound,
        0 <= b <= b_bound,
    ensures
        a * b <= a_bound * b_bound,
{
}

/// Relies on std::time::SystemTime::now: a wall-clock reading, reduced
/// to whole nanoseconds since the Unix epoch; zero if the clock reads
/// before the epoch.  Nothing is promised of the value: every caller
/// hands it to a verified function that is correct for all of them.
#[verifier::external_body]
fn clock_nanos() -> (t: u64) {
    match std::time::SystemTime::now().duration_since(std::time::UNIX_EPOCH) {
        Ok(d) => d.as_nanos() as u64,
        Err(_) => 0,
    }
}

/// True iff `observed` lies outside the tolerance band around
/// `stored` after `elapsed_nanos` of quiet; the products are widened so
/// they cannot overflow.
fn outside_tolerance(stored: u64, observed: u64, elapsed_nanos: u64) -> (r: bool)
    requires
        0 < elapsed_nanos <= CR_EVENT_MAXIMUM_GAP_NANOS,
    ensures
        r == outside_band(stored as int, observed as int, elapsed_nanos as int),
{
    let diff: u64 = if observed >= stored {
        observed - stored
    } else {
        stored - observed
    };
    proof {
        lemma_mul_le(diff as int, elapsed_nanos as int, u64::MAX as int, 60_000_000_000);
    }
    let scaled_diff: u128 = (diff as u128) * (elapsed_nanos as u128);
    let scaled_stored: u128 = (stored as u128) * 1_000_000_000;
    scaled_diff > scaled_stored
}

impl CRMetrics {
    /// A fresh observer gated on `iw`, with an empty sample and the
    /// clock read now.
    pub fn new(_trace_id: &str, iw: usize) -> (r: Self)
        ensures
            r.iw == iw,
            r.min_rtt.micros == 0,
            r.cwnd == 0,
    {
        CRMetrics { iw, min_rtt: Rtt::zero(), cwnd: 0, last_update: clock_nanos() }
    }

    /// One observation at clock reading `now`: emits and stores a new
    /// sample exactly when `observer_step` says so.
    pub fn maybe_update_at(&mut self, now: u64, new_min_rtt: Rtt, new_cwnd: usize) -> (r: Option<
        CREvent,
    >)
        ensures
            (*final(self), r) == observer_step(*old(self), now, new_min_rtt, new_cwnd),
            final(self).iw == old(self).iw,
            // A window under four initial windows never emits.
            (new_cwnd as int) < 4 * (old(self).iw as int) ==> r is None,
            r is None ==> *final(self) == *old(self),
            r is Some ==> *final(self) == (CRMetrics {
                iw: old(self).iw,
                min_rtt: new_min_rtt,
                cwnd: new_cwnd,
                last_update: now,
            }) && r == Some(CREvent { min_rtt: new_min_rtt, cwnd: new_cwnd }),
    {
        let elapsed: u64 = if now >= self.last_update {
            now - self.last_update
        } else {
            0
        };
        let should_update: bool = if (new_cwnd as u128) < 4 * (self.iw as u128) {
            false
        } else if elapsed > CR_EVENT_MAXIMUM_GAP_NANOS {
            true
        } else if elapsed == 0 {
            false
        } else {
            let rtt_outside = outside_tolerance(
                self.min_rtt.as_micros(),
                new_min_rtt.as_micros(),
                elapsed,
            );
            let cwnd_outside = outside_tolerance(self.cwnd as u64, new_cwnd as u64, elapsed);
            rtt_outside || cwnd_outside
        };
        if should_update {
            self.min_rtt = new_min_rtt;
            self.cwnd = new_cwnd;
            self.last_update = now;
            Some(CREvent { min_rtt: new_min_rtt, cwnd: new_cwnd })
        } else {
            None
        }
    }

    /// One observation at the current wall clock.  Whatever the clock
    /// returned, the observer behaves as `observer_step` for some
    /// reading, and the clauses below hold of every reading.
    pub fn maybe_update(&mut self, new_min_rtt: Rtt, new_cwnd: usize) -> (r: Option<CREvent>)
        ensures
            exists|now: u64|
                (*final(self), r) == observer_step(*old(self), now, new_min_rtt, new_cwnd),
            final(self).iw == old(self).iw,
            // A window under four initial windows never emits.
            (new_cwnd as int) < 4 * (old(self).iw as int) ==> r is None,
            r is None ==> *final(self) == *old(self),
            r is Some ==> final(self).min_rtt == new_min_rtt && final(self).cwnd == new_cwnd && r
                == Some(CREvent { min_rtt: new_min_rtt, cwnd: new_cwnd }),
    {
        let now: u64 = clock_nanos();
        let r = self.maybe_update_at(now, new_min_rtt, new_cwnd);
        proof {
            assert(exists|n: u64|
                (*self, r) == observer_step(*old(self), n, new_min_rtt, new_cwnd)) by {
                assert((*self, r) == observer_step(*old(self), now, new_min_rtt, new_cwnd));
            }
        }
        r
    }
}

/// Law: once the observer emits a sample, calls with identical inputs
/// emit nothing until more than the maximum gap has passed since that
/// emission.
pub proof fn repeated_sample_suppressed(
    m: CRMetrics,
    now0: u64,
    now1: u64,
    new_min_rtt: Rtt,
    new_cwnd: usize,
)
    requires
        observer_step(m, now0, new_min_rtt, new_cwnd).1 is Some,
        now0 <= now1,
        now1 - now0 <= CR_EVENT_MAXIMUM_GAP_NANOS,
    ensures
        observer_step(
            observer_step(m, now0, new_min_rtt, new_cwnd).0,
            now1,
            new_min_rtt,
            new_cwnd,
        ).1 is None,
{
    let m1 = observer_step(m, now0, new_min_rtt, new_cwnd).0;
    assert(m1.last_update == now0);
    let elapsed = elapsed_of(m1, now1);
    assert(elapsed <= CR_EVENT_MAXIMUM_GAP_NANOS);
    if elapsed != 0 {
        assert(!outside_band(
            new_min_rtt.micros as int,
            new_min_rtt.micros as int,
            elapsed,
        ));
        assert(!outside_band(new_cwnd as int, new_cwnd as int, elapsed));
    }
}

} // verus!
