//! The careful-resume state machine.
//!
//! A new connection that knows a previous connection's minimum
//! round-trip time and congestion window may jump its congestion window
//! far above the slow-start trajectory, then either validate that the
//! path sustains the jump or retreat safely.  The `Resume` type drives
//! that decision from the three host hook points: packet sent, packet
//! acknowledged, congestion detected.

use vstd::prelude::*;
use crate::events::{
    CarefulResumePhase, CarefulResumePhaseUpdated, CarefulResumeRestoredParameters,
    CarefulResumeStateParameters, CarefulResumeTrigger,
};
use crate::rtt::Rtt;

verus! {

/// The phase of the state machine.  Three phases carry a packet-number
/// mark, captured at phase entry, that tells the machine when the
/// phase's defining packet has been acknowledged.
#[derive(Clone, Copy, Debug, PartialEq, Eq, Structural)]
pub enum CrState {
    /// Probing whether the path still matches the prior snapshot.
    Reconnaissance,
    /// The window has jumped; holds the first packet number sent in this
    /// phase.
    Unvalidated(u64),
    /// The jump was partly acknowledged; holds the last packet number
    /// sent during the unvalidated phase.
    Validating(u64),
    /// Congestion was detected during the jump; holds the last packet
    /// number that bounds the tail still to be drained.
    SafeRetreat(u64),
    /// Terminal: careful resume is no longer active on this connection.
    Normal,
}

impl Default for CrState {
    fn default() -> (r: Self)
        ensures
            r == CrState::Reconnaissance,
    {
        CrState::Reconnaissance
    }
}

/// What the machine reads of an acknowledged packet: its number and its
/// payload size in bytes.  The host's ack records carry more; careful
/// resume ignores the rest.
#[derive(Clone, Copy, Debug, PartialEq, Eq, Structural)]
pub struct Acked {
    pub pkt_num: u64,
    pub size: usize,
}

/// The one-shot window increment offered on entry to the unvalidated
/// phase: half the previous window less the current one, never negative.
pub open spec fn jump_size(previous_cwnd: int, cwnd: int) -> int {
    if previous_cwnd / 2 - cwnd > 0 {
        previous_cwnd / 2 - cwnd
    } else {
        0
    }
}

/// True iff a round-trip-time sample is close enough to the previous
/// connection's for the jump to be considered: strictly more than half
/// of it and strictly less than ten times it.
pub open spec fn rtt_plausible(sample: Rtt, previous: Rtt) -> bool {
    sample.micros > previous.micros / 2 && sample.micros < previous.micros * 10
}

/// The phase tag of a state, without its mark.
pub open spec fn phase_of(state: CrState) -> CarefulResumePhase {
    match state {
        CrState::Reconnaissance => CarefulResumePhase::Reconnaissance,
        CrState::Unvalidated(_) => CarefulResumePhase::Unvalidated,
        CrState::Validating(_) => CarefulResumePhase::Validating,
        CrState::SafeRetreat(_) => CarefulResumePhase::SafeRetreat,
        CrState::Normal => CarefulResumePhase::Normal,
    }
}

/// The packet-number mark of a state; zero for the unmarked phases.
pub open spec fn mark_of(state: CrState) -> u64 {
    match state {
        CrState::Reconnaissance => 0,
        CrState::Normal => 0,
        CrState::Unvalidated(m) => m,
        CrState::Validating(m) => m,
        CrState::SafeRetreat(m) => m,
    }
}

/// The careful-resume controller for one connection.
#[derive(Debug)]
pub struct Resume {
    /// True iff `setup` has been called with a prior snapshot.
    pub enabled: bool,
    /// The current phase.
    pub cr_state: CrState,
    /// The previous connection's smoothed round-trip time.
    pub previous_rtt: Rtt,
    /// The previous connection's congestion window, in bytes.
    pub previous_cwnd: usize,
    /// Bytes the path has demonstrated it can carry, accumulated from
    /// acknowledgments received during the jump.
    pub pipesize: usize,
    /// Cumulative acknowledged bytes, for observability.
    pub total_acked: usize,
    /// The last phase tag emitted as a trace event.
    pub qlog_metrics: QlogMetrics,
    /// The reason for the most recent phase transition.
    pub last_trigger: Option<CarefulResumeTrigger>,
}

impl Resume {
    /// A reachable controller holds no validated bytes before the jump:
    /// in reconnaissance the pipe accumulator is still zero.
    pub open spec fn wf(self) -> bool {
        self.cr_state is Reconnaissance ==> self.pipesize == 0
    }

    /// A fresh, disarmed controller in reconnaissance.
    pub fn new(_trace_id: &str) -> (r: Self)
        ensures
            !r.enabled,
            r.cr_state == CrState::Reconnaissance,
            r.previous_rtt.micros == 0,
            r.previous_cwnd == 0,
            r.pipesize == 0,
            r.total_acked == 0,
            r.qlog_metrics.state is None,
            r.last_trigger is None,
            r.wf(),
    {
        Resume {
            enabled: false,
            cr_state: CrState::Reconnaissance,
            previous_rtt: Rtt::zero(),
            previous_cwnd: 0,
            pipesize: 0,
            total_acked: 0,
            qlog_metrics: QlogMetrics {
                state: None,
                pipesize: 0,
                cwnd: 0,
                ssthresh: 0,
                trigger: None,
                previous_rtt: Rtt { micros: 0 },
                previous_cwnd: 0,
            },
            last_trigger: None,
        }
    }

    /// Arms the controller with the previous connection's snapshot.
    /// The phase is left as it stands; a fresh controller is already in
    /// reconnaissance.
    pub fn setup(&mut self, previous_rtt: Rtt, previous_cwnd: usize)
        ensures
            *final(self) == (Resume {
                enabled: true,
                previous_rtt: previous_rtt,
                previous_cwnd: previous_cwnd,
                ..*old(self)
            }),
    {
        self.enabled = true;
        self.previous_rtt = previous_rtt;
        self.previous_cwnd = previous_cwnd;
    }

    /// True iff the controller was armed and has not yet reached the
    /// terminal phase.
    pub fn enabled(&self) -> (r: bool)
        ensures
            r == (self.enabled && !(self.cr_state is Normal)),
    {
        if self.enabled {
            !matches!(self.cr_state, CrState::Normal)
        } else {
            false
        }
    }

    /// The current phase.
    pub fn get_state(&self) -> (r: CrState)
        ensures
            r == self.cr_state,
    {
        self.cr_state
    }

    /// Moves to `state` and records `trigger` as the reason.
    pub fn change_state(&mut self, state: CrState, trigger: CarefulResumeTrigger)
        ensures
            *final(self) == (Resume {
                cr_state: state,
                last_trigger: Some(trigger),
                ..*old(self)
            }),
    {
        self.cr_state = state;
        self.last_trigger = Some(trigger);
    }

    /// The packet-number mark of the current phase; zero in the
    /// unmarked phases.
    pub fn get_cr_mark(&self) -> (r: u64)
        ensures
            r == mark_of(self.cr_state),
    {
        match self.cr_state {
            CrState::Reconnaissance | CrState::Normal => 0,
            CrState::Unvalidated(m) | CrState::Validating(m) | CrState::SafeRetreat(m) => m,
        }
    }

    /// Observes one newly acknowledged packet and returns
    /// `(new_cwnd, new_ssthresh)` adjustments for the host to apply,
    /// either of which may be absent.
    ///
    /// During the jump (unvalidated and validating) each acknowledged
    /// byte is added to the pipe accumulator; acknowledging the phase's
    /// mark advances the machine.  In safe retreat, acknowledging the
    /// mark resolves the retreat and hands the accumulated pipe size to
    /// the host as the new slow-start threshold.
    pub fn process_ack(&mut self, largest_pkt_sent: u64, packet: &Acked, flightsize: usize) -> (r:
        (Option<usize>, Option<usize>))
        requires
            old(self).total_acked + packet.size <= usize::MAX,
            (old(self).cr_state is Unvalidated || old(self).cr_state is Validating
                || (old(self).cr_state matches CrState::SafeRetreat(last) && packet.pkt_num
                < last)) ==> old(self).pipesize + packet.size <= usize::MAX,
        ensures
            final(self).enabled == old(self).enabled,
            final(self).previous_rtt == old(self).previous_rtt,
            final(self).previous_cwnd == old(self).previous_cwnd,
            final(self).qlog_metrics == old(self).qlog_metrics,
            // Acknowledged bytes are counted unconditionally.
            final(self).total_acked == old(self).total_acked + packet.size,
            match old(self).cr_state {
                CrState::Unvalidated(first_packet) => {
                    let pipe = old(self).pipesize + packet.size;
                    &&& final(self).pipesize == pipe
                    &&& if packet.pkt_num >= first_packet {
                        if flightsize <= pipe {
                            &&& final(self).cr_state is Normal
                            &&& final(self).last_trigger == Some(
                                CarefulResumeTrigger::CrMarkAcknowledged,
                            )
                            &&& r == (Some(pipe as usize), None::<usize>)
                        } else {
                            &&& final(self).cr_state == CrState::Validating(largest_pkt_sent)
                            &&& final(self).last_trigger == Some(
                                CarefulResumeTrigger::CrMarkAcknowledged,
                            )
                            &&& r == (Some(flightsize), None::<usize>)
                        }
                    } else {
                        &&& final(self).cr_state == old(self).cr_state
                        &&& final(self).last_trigger == old(self).last_trigger
                        &&& r == (None::<usize>, None::<usize>)
                    }
                },
                CrState::Validating(last_packet) => {
                    &&& final(self).pipesize == old(self).pipesize + packet.size
                    &&& if packet.pkt_num >= last_packet {
                        &&& final(self).cr_state is Normal
                        &&& final(self).last_trigger == Some(
                            CarefulResumeTrigger::CrMarkAcknowledged,
                        )
                    } else {
                        &&& final(self).cr_state == old(self).cr_state
                        &&& final(self).last_trigger == old(self).last_trigger
                    }
                    &&& r == (None::<usize>, None::<usize>)
                },
                CrState::SafeRetreat(last_packet) => {
                    if packet.pkt_num >= last_packet {
                        &&& final(self).pipesize == old(self).pipesize
                        &&& final(self).cr_state is Normal
                        &&& final(self).last_trigger == Some(CarefulResumeTrigger::ExitRecovery)
                        &&& r == (None::<usize>, Some(old(self).pipesize))
                    } else {
                        &&& final(self).pipesize == old(self).pipesize + packet.size
                        &&& final(self).cr_state == old(self).cr_state
                        &&& final(self).last_trigger == old(self).last_trigger
                        &&& r == (None::<usize>, None::<usize>)
                    }
                },
                _ => {
                    &&& final(self).pipesize == old(self).pipesize
                    &&& final(self).cr_state == old(self).cr_state
                    &&& final(self).last_trigger == old(self).last_trigger
                    &&& r == (None::<usize>, None::<usize>)
                },
            },
            // Once normal, the phase never changes again.
            old(self).cr_state is Normal ==> final(self).cr_state is Normal,
            // Acknowledgments never move the phase out of reconnaissance
            // or normal.
            old(self).cr_state is Reconnaissance || old(self).cr_state is Normal
                ==> final(self).cr_state == old(self).cr_state,
            // The pipe accumulator never shrinks.
            old(self).pipesize <= final(self).pipesize,
            old(self).wf() ==> final(self).wf(),
    {
        self.total_acked = self.total_acked + packet.size;
        match self.cr_state {
            CrState::Unvalidated(first_packet) => {
                self.pipesize = self.pipesize + packet.size;
                if packet.pkt_num >= first_packet {
                    if flightsize <= self.pipesize {
                        self.change_state(
                            CrState::Normal,
                            CarefulResumeTrigger::CrMarkAcknowledged,
                        );
                        (Some(self.pipesize), None)
                    } else {
                        // Store the last packet number that was sent in
                        // the unvalidated phase.
                        self.change_state(
                            CrState::Validating(largest_pkt_sent),
                            CarefulResumeTrigger::CrMarkAcknowledged,
                        );
                        (Some(flightsize), None)
                    }
                } else {
                    (None, None)
                }
            },
            CrState::Validating(last_packet) => {
                self.pipesize = self.pipesize + packet.size;
                if packet.pkt_num >= last_packet {
                    self.change_state(CrState::Normal, CarefulResumeTrigger::CrMarkAcknowledged);
                }
                (None, None)
            },
            CrState::SafeRetreat(last_packet) => {
                if packet.pkt_num >= last_packet {
                    self.change_state(CrState::Normal, CarefulResumeTrigger::ExitRecovery);
                    (None, Some(self.pipesize))
                } else {
                    self.pipesize = self.pipesize + packet.size;
                    (None, None)
                }
            },
            _ => (None, None),
        }
    }

    /// Observes a packet being sent and returns the window increment to
    /// add to the host's congestion window: positive exactly when the
    /// machine takes the jump and enters the unvalidated phase.
    ///
    /// The jump is taken only from reconnaissance, only when the
    /// application has enough offered data and the initial window has
    /// been acknowledged, only when half the previous window still
    /// exceeds the current one, and only when a round-trip-time sample
    /// exists and is plausible against the previous connection's.
    pub fn send_packet(
        &mut self,
        rtt_sample: Option<Rtt>,
        cwnd: usize,
        largest_pkt_sent: u64,
        app_limited: bool,
        iw_acked: bool,
    ) -> (jump: usize)
        ensures
            final(self).enabled == old(self).enabled,
            final(self).previous_rtt == old(self).previous_rtt,
            final(self).previous_cwnd == old(self).previous_cwnd,
            final(self).total_acked == old(self).total_acked,
            final(self).qlog_metrics == old(self).qlog_metrics,
            // Sending while application-limited, or before the initial
            // window is acknowledged, changes nothing.
            app_limited || !iw_acked ==> *final(self) == *old(self) && jump == 0,
            !app_limited && iw_acked && !(old(self).cr_state is Reconnaissance) ==> *final(self)
                == *old(self) && jump == 0,
            !app_limited && iw_acked && old(self).cr_state is Reconnaissance ==> {
                let offered = jump_size(old(self).previous_cwnd as int, cwnd as int);
                &&& offered == 0 ==> {
                    &&& final(self).cr_state is Normal
                    &&& final(self).last_trigger == Some(CarefulResumeTrigger::CwndLimited)
                    &&& final(self).pipesize == old(self).pipesize
                    &&& jump == 0
                }
                &&& offered > 0 && rtt_sample is None ==> *final(self) == *old(self) && jump == 0
                &&& (rtt_sample matches Some(sample) && offered > 0 && !rtt_plausible(
                    sample,
                    old(self).previous_rtt,
                )) ==> {
                    &&& final(self).cr_state is Normal
                    &&& final(self).last_trigger == Some(CarefulResumeTrigger::RttNotValidated)
                    &&& final(self).pipesize == old(self).pipesize
                    &&& jump == 0
                }
                &&& (rtt_sample matches Some(sample) && offered > 0 && rtt_plausible(
                    sample,
                    old(self).previous_rtt,
                )) ==> {
                    &&& final(self).cr_state == CrState::Unvalidated(largest_pkt_sent)
                    &&& final(self).last_trigger == Some(CarefulResumeTrigger::CwndLimited)
                    &&& final(self).pipesize == cwnd
                    &&& jump == offered
                }
            },
            // Once normal, the phase never changes again.
            old(self).cr_state is Normal ==> final(self).cr_state is Normal,
            old(self).wf() ==> final(self).wf() && old(self).pipesize <= final(self).pipesize,
    {
        // Do nothing when data limited, to avoid having insufficient
        // data to validate transmission at a higher rate.
        if app_limited {
            return 0;
        }
        if !iw_acked {
            return 0;
        }
        if matches!(self.cr_state, CrState::Reconnaissance) {
            let half_prev: usize = self.previous_cwnd / 2;
            let jump: usize = if half_prev > cwnd {
                half_prev - cwnd
            } else {
                0
            };

            if jump == 0 {
                // The host has already grown past what careful resume
                // would offer.
                self.change_state(CrState::Normal, CarefulResumeTrigger::CwndLimited);
                return 0;
            }

            let current_rtt = match rtt_sample {
                Some(s) => s,
                None => {
                    // Make no decision until a sample exists.
                    return 0;
                },
            };

            // Confirm the round-trip time is similar to the previous
            // connection's; widen before multiplying so an absurd prior
            // value cannot overflow.
            if current_rtt.micros <= self.previous_rtt.micros / 2 || (current_rtt.micros as u128)
                >= (self.previous_rtt.micros as u128) * 10 {
                self.change_state(CrState::Normal, CarefulResumeTrigger::RttNotValidated);
                return 0;
            }

            // Store the first packet number sent in the unvalidated
            // phase; the host applies the returned window increase.
            self.change_state(
                CrState::Unvalidated(largest_pkt_sent),
                CarefulResumeTrigger::CwndLimited,
            );
            self.pipesize = cwnd;
            return jump;
        }
        0
    }

    /// Observes a loss-detection signal and returns a floor hint for
    /// the post-loss congestion window: half the accumulated pipe size
    /// when loss strikes during the jump, zero otherwise.
    ///
    /// Loss during the unvalidated phase retreats behind the largest
    /// packet sent; loss during validation retreats behind the phase's
    /// existing mark.  Loss during reconnaissance abandons careful
    /// resume altogether.
    pub fn congestion_event(&mut self, largest_pkt_sent: u64) -> (r: usize)
        ensures
            final(self).enabled == old(self).enabled,
            final(self).previous_rtt == old(self).previous_rtt,
            final(self).previous_cwnd == old(self).previous_cwnd,
            final(self).total_acked == old(self).total_acked,
            final(self).qlog_metrics == old(self).qlog_metrics,
            final(self).pipesize == old(self).pipesize,
            match old(self).cr_state {
                CrState::Unvalidated(_) => {
                    &&& final(self).cr_state == CrState::SafeRetreat(largest_pkt_sent)
                    &&& final(self).last_trigger == Some(CarefulResumeTrigger::PacketLoss)
                    &&& r == old(self).pipesize / 2
                },
                CrState::Validating(mark) => {
                    // The retreat keeps the validating phase's mark.
                    &&& final(self).cr_state == CrState::SafeRetreat(mark)
                    &&& final(self).last_trigger == Some(CarefulResumeTrigger::PacketLoss)
                    &&& r == old(self).pipesize / 2
                },
                CrState::Reconnaissance => {
                    &&& final(self).cr_state is Normal
                    &&& final(self).last_trigger == Some(CarefulResumeTrigger::PacketLoss)
                    &&& r == 0
                },
                _ => {
                    &&& final(self).cr_state == old(self).cr_state
                    &&& final(self).last_trigger == old(self).last_trigger
                    &&& r == 0
                },
            },
            // Once normal, the phase never changes again.
            old(self).cr_state is Normal ==> final(self).cr_state is Normal,
            old(self).wf() ==> final(self).wf(),
    {
        match self.cr_state {
            CrState::Unvalidated(_) => {
                self.change_state(
                    CrState::SafeRetreat(largest_pkt_sent),
                    CarefulResumeTrigger::PacketLoss,
                );
                self.pipesize / 2
            },
            CrState::Validating(p) => {
                self.change_state(CrState::SafeRetreat(p), CarefulResumeTrigger::PacketLoss);
                self.pipesize / 2
            },
            CrState::Reconnaissance => {
                self.change_state(CrState::Normal, CarefulResumeTrigger::PacketLoss);
                0
            },
            _ => 0,
        }
    }

    /// The snapshot that an emission attempt made now would report,
    /// given the host's current window and slow-start threshold.
    pub open spec fn latest_snapshot(self, cwnd: usize, ssthresh: usize) -> QlogMetrics {
        QlogMetrics {
            state: Some(self.cr_state),
            pipesize: self.pipesize as u64,
            cwnd: cwnd as u64,
            ssthresh: ssthresh as u64,
            trigger: self.last_trigger,
            previous_rtt: self.previous_rtt,
            previous_cwnd: self.previous_cwnd as u64,
        }
    }

    /// Returns a trace event when the phase tag has changed since the
    /// last emitted event, and nothing otherwise.  Repeated calls in
    /// the same phase emit nothing.
    pub fn maybe_qlog(&mut self, cwnd: usize, ssthresh: usize) -> (r: Option<
        CarefulResumePhaseUpdated,
    >)
        ensures
            final(self).enabled == old(self).enabled,
            final(self).cr_state == old(self).cr_state,
            final(self).previous_rtt == old(self).previous_rtt,
            final(self).previous_cwnd == old(self).previous_cwnd,
            final(self).pipesize == old(self).pipesize,
            final(self).total_acked == old(self).total_acked,
            final(self).last_trigger == old(self).last_trigger,
            (final(self).qlog_metrics, r) == qlog_step(
                old(self).qlog_metrics,
                old(self).latest_snapshot(cwnd, ssthresh),
            ),
    {
        let latest = QlogMetrics {
            state: Some(self.cr_state),
            pipesize: self.pipesize as u64,
            cwnd: cwnd as u64,
            ssthresh: ssthresh as u64,
            trigger: self.last_trigger,
            previous_rtt: self.previous_rtt,
            previous_cwnd: self.previous_cwnd as u64,
        };
        self.qlog_metrics.maybe_update(latest)
    }

    /// A numeric code for the current phase, for coarse reporting.
    pub fn get_cr_state(&self) -> (r: u64)
        ensures
            self.cr_state is Reconnaissance ==> r == 1,
            self.cr_state is Unvalidated ==> r == 2,
            self.cr_state is Validating ==> r == 3,
            self.cr_state is Normal ==> r == 4,
            self.cr_state is SafeRetreat ==> r == 100,
    {
        match self.cr_state {
            CrState::Reconnaissance => 1,
            CrState::Unvalidated(_) => 2,
            CrState::Validating(_) => 3,
            CrState::Normal => 4,
            CrState::SafeRetreat(_) => 100,
        }
    }
}

/// The last emitted trace event's view of the controller, used to emit
/// a new event only when the phase tag changes.
#[derive(Debug)]
pub struct QlogMetrics {
    pub state: Option<CrState>,
    pub pipesize: u64,
    pub cwnd: u64,
    pub ssthresh: u64,
    pub trigger: Option<CarefulResumeTrigger>,
    pub previous_rtt: Rtt,
    pub previous_cwnd: u64,
}

/// The previous connection's snapshot as it appears in an event:
/// present exactly when either value is non-zero.
pub open spec fn restored_of(previous_rtt: Rtt, previous_cwnd: u64) -> Option<
    CarefulResumeRestoredParameters,
> {
    if previous_rtt.micros != 0 || previous_cwnd != 0 {
        Some(
            CarefulResumeRestoredParameters {
                previous_cwnd: previous_cwnd,
                previous_rtt: previous_rtt,
            },
        )
    } else {
        None
    }
}

/// The event that reports a move to `new_state`, built from the
/// snapshot `latest`.
pub open spec fn event_of(
    old_state: Option<CrState>,
    new_state: CrState,
    latest: QlogMetrics,
) -> CarefulResumePhaseUpdated {
    CarefulResumePhaseUpdated {
        old: match old_state {
            Some(s) => Some(phase_of(s)),
            None => None,
        },
        new: phase_of(new_state),
        state_data: CarefulResumeStateParameters {
            pipesize: latest.pipesize,
            cr_mark: mark_of(new_state),
            cwnd: Some(latest.cwnd),
            ssthresh: Some(latest.ssthresh),
        },
        restored_data: restored_of(latest.previous_rtt, latest.previous_cwnd),
        trigger: latest.trigger,
    }
}

/// What one emission attempt does: an event is produced exactly when
/// `latest` carries a state whose tag differs from the remembered one,
/// and only then is the remembered snapshot replaced.
pub open spec fn qlog_step(m: QlogMetrics, latest: QlogMetrics) -> (QlogMetrics, Option<
    CarefulResumePhaseUpdated,
>) {
    match latest.state {
        Some(new_state) => {
            if m.state == Some(new_state) {
                (m, None)
            } else {
                (latest, Some(event_of(m.state, new_state, latest)))
            }
        },
        None => (m, None),
    }
}

impl QlogMetrics {
    /// The phase tag of a state.
    pub fn map_state(state: CrState) -> (r: CarefulResumePhase)
        ensures
            r == phase_of(state),
    {
        match state {
            CrState::Reconnaissance => CarefulResumePhase::Reconnaissance,
            CrState::Unvalidated(_) => CarefulResumePhase::Unvalidated,
            CrState::Validating(_) => CarefulResumePhase::Validating,
            CrState::SafeRetreat(_) => CarefulResumePhase::SafeRetreat,
            CrState::Normal => CarefulResumePhase::Normal,
        }
    }

    /// The packet-number mark of a state; zero for the unmarked phases.
    pub fn map_cr_mark(state: CrState) -> (r: u64)
        ensures
            r == mark_of(state),
    {
        match state {
            CrState::Reconnaissance | CrState::Normal => 0,
            CrState::Unvalidated(m) | CrState::Validating(m) | CrState::SafeRetreat(m) => m,
        }
    }

    /// Diffs the remembered snapshot against `latest` and returns the
    /// transition event when the phase tag changed.
    pub fn maybe_update(&mut self, latest: QlogMetrics) -> (r: Option<CarefulResumePhaseUpdated>)
        ensures
            (*final(self), r) == qlog_step(*old(self), latest),
    {
        if let Some(new_state) = latest.state {
            let same = match self.state {
                Some(prev) => prev == new_state,
                None => false,
            };
            if !same {
                let old_state = self.state;
                let event = CarefulResumePhaseUpdated {
                    old: match old_state {
                        Some(s) => Some(Self::map_state(s)),
                        None => None,
                    },
                    new: Self::map_state(new_state),
                    state_data: CarefulResumeStateParameters {
                        pipesize: latest.pipesize,
                        cr_mark: Self::map_cr_mark(new_state),
                        cwnd: Some(latest.cwnd),
                        ssthresh: Some(latest.ssthresh),
                    },
                    restored_data: if latest.previous_rtt.micros != 0 || latest.previous_cwnd != 0 {
                        Some(
                            CarefulResumeRestoredParameters {
                                previous_cwnd: latest.previous_cwnd,
                                previous_rtt: latest.previous_rtt,
                            },
                        )
                    } else {
                        None
                    },
                    trigger: latest.trigger,
                };
                self.state = latest.state;
                self.pipesize = latest.pipesize;
                self.trigger = latest.trigger;
                self.cwnd = latest.cwnd;
                self.ssthresh = latest.ssthresh;
                self.previous_rtt = latest.previous_rtt;
                self.previous_cwnd = latest.previous_cwnd;
                Some(event)
            } else {
                None
            }
        } else {
            None
        }
    }
}

} // verus!
