//! Trace-event value types for careful resume.
//!
//! Every phase transition of the state machine is an observable event.
//! These types give the event its abstract shape; turning an event into
//! a serialized record is the host's business, not this crate's.

use vstd::prelude::*;
use crate::rtt::Rtt;

verus! {

/// The reason for the most recent phase transition.
#[derive(Clone, Copy, Debug, PartialEq, Eq, Structural)]
pub enum CarefulResumeTrigger {
    /// Loss triggers moving to safe retreat, or abandons careful resume
    /// while still in reconnaissance.
    PacketLoss,
    /// Trigger for moving to unvalidated, or to normal when the window
    /// has already grown past what careful resume would offer.
    CwndLimited,
    /// Trigger for moving to validating or normal once the phase's mark
    /// has been acknowledged.
    CrMarkAcknowledged,
    /// Trigger for moving to normal when the current round-trip time is
    /// too far from the previous connection's.
    RttNotValidated,
    /// Reserved for ECN-CE-driven entry to safe retreat.
    EcnCe,
    /// Trigger for moving to normal once safe retreat has drained the
    /// tail of jump-era packets.
    ExitRecovery,
}

/// The phase tag alone, without the packet-number mark.
#[derive(Clone, Copy, Debug, PartialEq, Eq, Structural)]
pub enum CarefulResumePhase {
    Reconnaissance,
    Unvalidated,
    Validating,
    Normal,
    SafeRetreat,
}

/// A snapshot of the state machine's counters at the transition.
#[derive(Clone, Copy, Debug, PartialEq, Eq)]
pub struct CarefulResumeStateParameters {
    pub pipesize: u64,
    pub cr_mark: u64,
    pub cwnd: Option<u64>,
    pub ssthresh: Option<u64>,
}

/// The previous connection's snapshot, present when either value is
/// non-zero.
#[derive(Clone, Copy, Debug, PartialEq, Eq)]
pub struct CarefulResumeRestoredParameters {
    pub previous_cwnd: u64,
    pub previous_rtt: Rtt,
}

/// A phase transition of the careful-resume state machine.
#[derive(Clone, Copy, Debug, PartialEq)]
pub struct CarefulResumePhaseUpdated {
    /// The phase before the transition; absent on the very first emission.
    pub old: Option<CarefulResumePhase>,
    /// The phase after the transition.
    pub new: CarefulResumePhase,
    /// The counters at the moment of the transition.
    pub state_data: CarefulResumeStateParameters,
    /// The previous connection's snapshot, if one was restored.
    pub restored_data: Option<CarefulResumeRestoredParameters>,
    /// The reason for the transition.
    pub trigger: Option<CarefulResumeTrigger>,
}

} // verus!
