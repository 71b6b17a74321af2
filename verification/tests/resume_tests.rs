use careful_resume::events::CarefulResumeTrigger;
use careful_resume::resume::{Acked, CrState, Resume};
use careful_resume::rtt::Rtt;

// for cwnd > jump window, check crstate moves to normal
#[test]
fn cwnd_larger_than_jump() {
    let mut r = Resume::new("");
    r.setup(Rtt::from_millis(50), 80_000);
    r.send_packet(Some(Rtt::from_millis(50)), 45_000, 50, false, true);

    assert_eq!(r.cr_state, CrState::Normal);
}

// for a set rtt that does not meet the conditions, check crstate moves to normal
#[test]
fn rtt_less_than_half() {
    let mut r = Resume::new("");
    r.setup(Rtt::from_millis(50), 80_000);
    r.send_packet(Some(Rtt::from_millis(10)), 30_000, 10, false, true);

    assert_eq!(r.cr_state, CrState::Normal);
}

#[test]
fn rtt_greater_than_10() {
    let mut r = Resume::new("");
    r.setup(Rtt::from_millis(50), 80_000);
    r.send_packet(Some(Rtt::from_millis(600)), 30_000, 10, false, true);

    assert_eq!(r.cr_state, CrState::Normal);
}

// for a set rtt that meets the conditions and assuming cwnd = jump window already, check we move to unvalidated
#[test]
fn valid_rtt() {
    let mut r = Resume::new("");
    r.setup(Rtt::from_millis(50), 80_000);
    let jump = r.send_packet(Some(Rtt::from_millis(60)), 20_500, 20, false, true);
    assert_eq!(jump, 19_500);

    assert_eq!(r.cr_state, CrState::Unvalidated(20));
    assert_eq!(r.pipesize, 20_500);
}

#[test]
fn packet_loss_recon() {
    let mut r = Resume::new("");
    r.setup(Rtt::from_millis(50), 80_000);
    r.congestion_event(20);
    assert_eq!(r.cr_state, CrState::Normal);
}

#[test]
fn pipesize_update_unval() {
    let mut r = Resume::new("");

    r.setup(Rtt::from_millis(50), 80_000);
    r.change_state(CrState::Unvalidated(30), CarefulResumeTrigger::CwndLimited);

    let p = Acked { pkt_num: 29, size: 2000 };
    r.process_ack(35, &p, 5_000);

    let p = Acked { pkt_num: 30, size: 2000 };
    r.process_ack(35, &p, 5_000);
    assert_eq!(r.pipesize, 4_000);
    assert_eq!(r.cr_state, CrState::Validating(35));
}

#[test]
fn unvalidated_ack_returns_at_mark() {
    let mut r = Resume::new("");
    r.setup(Rtt::from_millis(50), 80_000);
    r.change_state(CrState::Unvalidated(30), CarefulResumeTrigger::CwndLimited);

    let below_mark = r.process_ack(35, &Acked { pkt_num: 29, size: 2000 }, 5_000);
    assert_eq!(below_mark, (None, None));

    let at_mark = r.process_ack(35, &Acked { pkt_num: 30, size: 2000 }, 5_000);
    assert_eq!(at_mark, (Some(5_000), None));
    assert_eq!(r.last_trigger, Some(CarefulResumeTrigger::CrMarkAcknowledged));
}

#[test]
fn unvalidated_completes_when_flight_fits_pipe() {
    let mut r = Resume::new("");
    r.setup(Rtt::from_millis(50), 80_000);
    r.change_state(CrState::Unvalidated(30), CarefulResumeTrigger::CwndLimited);

    let out = r.process_ack(35, &Acked { pkt_num: 30, size: 2000 }, 1_500);
    assert_eq!(out, (Some(2_000), None));
    assert_eq!(r.cr_state, CrState::Normal);
    assert_eq!(r.last_trigger, Some(CarefulResumeTrigger::CrMarkAcknowledged));
}

#[test]
fn validating_completes_at_mark() {
    let mut r = Resume::new("");
    r.setup(Rtt::from_millis(50), 80_000);
    r.change_state(CrState::Validating(40), CarefulResumeTrigger::CrMarkAcknowledged);

    let below = r.process_ack(45, &Acked { pkt_num: 39, size: 1_000 }, 6_000);
    assert_eq!(below, (None, None));
    assert_eq!(r.cr_state, CrState::Validating(40));
    assert_eq!(r.pipesize, 1_000);

    let at_mark = r.process_ack(45, &Acked { pkt_num: 40, size: 1_000 }, 6_000);
    assert_eq!(at_mark, (None, None));
    assert_eq!(r.cr_state, CrState::Normal);
    assert_eq!(r.pipesize, 2_000);
}

#[test]
fn safe_retreat_resolution_sets_ssthresh() {
    let mut r = Resume::new("");
    r.setup(Rtt::from_millis(50), 80_000);
    r.change_state(CrState::SafeRetreat(100), CarefulResumeTrigger::PacketLoss);
    r.pipesize = 12_000;

    let out = r.process_ack(150, &Acked { pkt_num: 100, size: 500 }, 9_999);
    assert_eq!(out, (None, Some(12_000)));
    assert_eq!(r.cr_state, CrState::Normal);
    assert_eq!(r.last_trigger, Some(CarefulResumeTrigger::ExitRecovery));
    // The resolving acknowledgment itself is not added to the pipe.
    assert_eq!(r.pipesize, 12_000);
}

#[test]
fn safe_retreat_accumulates_below_mark() {
    let mut r = Resume::new("");
    r.setup(Rtt::from_millis(50), 80_000);
    r.change_state(CrState::SafeRetreat(100), CarefulResumeTrigger::PacketLoss);
    r.pipesize = 12_000;

    let out = r.process_ack(150, &Acked { pkt_num: 99, size: 500 }, 9_999);
    assert_eq!(out, (None, None));
    assert_eq!(r.cr_state, CrState::SafeRetreat(100));
    assert_eq!(r.pipesize, 12_500);
}

#[test]
fn send_packet_app_limited_is_noop() {
    let mut r = Resume::new("");
    r.setup(Rtt::from_millis(50), 80_000);
    let jump = r.send_packet(Some(Rtt::from_millis(60)), 20_500, 20, true, true);
    assert_eq!(jump, 0);
    assert_eq!(r.cr_state, CrState::Reconnaissance);
    assert_eq!(r.pipesize, 0);

    r.change_state(CrState::Unvalidated(7), CarefulResumeTrigger::CwndLimited);
    let jump = r.send_packet(Some(Rtt::from_millis(60)), 20_500, 20, true, true);
    assert_eq!(jump, 0);
    assert_eq!(r.cr_state, CrState::Unvalidated(7));
}

#[test]
fn send_packet_before_iw_acked_is_noop() {
    let mut r = Resume::new("");
    r.setup(Rtt::from_millis(50), 80_000);
    let jump = r.send_packet(Some(Rtt::from_millis(60)), 20_500, 20, false, false);
    assert_eq!(jump, 0);
    assert_eq!(r.cr_state, CrState::Reconnaissance);
}

#[test]
fn send_packet_without_sample_waits() {
    let mut r = Resume::new("");
    r.setup(Rtt::from_millis(50), 80_000);
    let jump = r.send_packet(None, 20_500, 20, false, true);
    assert_eq!(jump, 0);
    assert_eq!(r.cr_state, CrState::Reconnaissance);
}

#[test]
fn ack_keeps_phase_in_recon_and_normal() {
    let mut r = Resume::new("");
    r.setup(Rtt::from_millis(50), 80_000);
    let out = r.process_ack(5, &Acked { pkt_num: 1, size: 1_200 }, 2_400);
    assert_eq!(out, (None, None));
    assert_eq!(r.cr_state, CrState::Reconnaissance);
    assert_eq!(r.pipesize, 0);

    r.change_state(CrState::Normal, CarefulResumeTrigger::CwndLimited);
    let out = r.process_ack(6, &Acked { pkt_num: 2, size: 1_200 }, 2_400);
    assert_eq!(out, (None, None));
    assert_eq!(r.cr_state, CrState::Normal);
    assert_eq!(r.total_acked, 2_400);
}

#[test]
fn total_acked_sums_every_ack() {
    let mut r = Resume::new("");
    r.setup(Rtt::from_millis(50), 80_000);
    assert_eq!(r.total_acked, 0);
    r.process_ack(5, &Acked { pkt_num: 1, size: 1_200 }, 2_400);
    r.change_state(CrState::Unvalidated(9), CarefulResumeTrigger::CwndLimited);
    r.process_ack(9, &Acked { pkt_num: 2, size: 800 }, 2_400);
    r.change_state(CrState::SafeRetreat(9), CarefulResumeTrigger::PacketLoss);
    r.process_ack(9, &Acked { pkt_num: 9, size: 300 }, 2_400);
    assert_eq!(r.total_acked, 2_300);
}

#[test]
fn congestion_in_unvalidated_retreats_behind_largest() {
    let mut r = Resume::new("");
    r.setup(Rtt::from_millis(50), 80_000);
    r.change_state(CrState::Unvalidated(20), CarefulResumeTrigger::CwndLimited);
    r.pipesize = 9_000;
    let hint = r.congestion_event(33);
    assert_eq!(hint, 4_500);
    assert_eq!(r.cr_state, CrState::SafeRetreat(33));
    assert_eq!(r.last_trigger, Some(CarefulResumeTrigger::PacketLoss));
}

#[test]
fn congestion_in_validating_keeps_mark() {
    let mut r = Resume::new("");
    r.setup(Rtt::from_millis(50), 80_000);
    r.change_state(CrState::Validating(44), CarefulResumeTrigger::CrMarkAcknowledged);
    r.pipesize = 9_000;
    let hint = r.congestion_event(77);
    assert_eq!(hint, 4_500);
    assert_eq!(r.cr_state, CrState::SafeRetreat(44));
}

#[test]
fn congestion_in_safe_retreat_and_normal_is_noop() {
    let mut r = Resume::new("");
    r.setup(Rtt::from_millis(50), 80_000);
    r.change_state(CrState::SafeRetreat(44), CarefulResumeTrigger::PacketLoss);
    r.pipesize = 9_000;
    assert_eq!(r.congestion_event(90), 0);
    assert_eq!(r.cr_state, CrState::SafeRetreat(44));

    r.change_state(CrState::Normal, CarefulResumeTrigger::ExitRecovery);
    assert_eq!(r.congestion_event(91), 0);
    assert_eq!(r.cr_state, CrState::Normal);
}

#[test]
fn normal_is_terminal() {
    let mut r = Resume::new("");
    r.setup(Rtt::from_millis(50), 80_000);
    r.congestion_event(20);
    assert_eq!(r.cr_state, CrState::Normal);

    r.send_packet(Some(Rtt::from_millis(60)), 20_500, 30, false, true);
    assert_eq!(r.cr_state, CrState::Normal);
    r.process_ack(35, &Acked { pkt_num: 30, size: 2_000 }, 5_000);
    assert_eq!(r.cr_state, CrState::Normal);
    r.congestion_event(40);
    assert_eq!(r.cr_state, CrState::Normal);
}

#[test]
fn pipesize_never_shrinks() {
    let mut r = Resume::new("");
    r.setup(Rtt::from_millis(50), 80_000);
    let mut last = r.pipesize;

    r.send_packet(Some(Rtt::from_millis(60)), 20_500, 20, false, true);
    assert!(r.pipesize >= last);
    last = r.pipesize;

    r.process_ack(25, &Acked { pkt_num: 10, size: 2_000 }, 50_000);
    assert!(r.pipesize >= last);
    last = r.pipesize;

    r.congestion_event(25);
    assert!(r.pipesize >= last);
    last = r.pipesize;

    r.process_ack(25, &Acked { pkt_num: 12, size: 700 }, 50_000);
    assert!(r.pipesize >= last);
}

#[test]
fn enabled_reflects_setup_and_phase() {
    let mut r = Resume::new("");
    assert!(!r.enabled());
    r.setup(Rtt::from_millis(50), 80_000);
    assert!(r.enabled());
    r.congestion_event(20);
    assert!(!r.enabled());
}

#[test]
fn state_accessors() {
    let mut r = Resume::new("");
    assert_eq!(r.get_state(), CrState::Reconnaissance);
    assert_eq!(r.get_cr_mark(), 0);
    assert_eq!(r.get_cr_state(), 1);

    r.change_state(CrState::Unvalidated(17), CarefulResumeTrigger::CwndLimited);
    assert_eq!(r.get_cr_mark(), 17);
    assert_eq!(r.get_cr_state(), 2);

    r.change_state(CrState::Validating(18), CarefulResumeTrigger::CrMarkAcknowledged);
    assert_eq!(r.get_cr_mark(), 18);
    assert_eq!(r.get_cr_state(), 3);

    r.change_state(CrState::SafeRetreat(19), CarefulResumeTrigger::PacketLoss);
    assert_eq!(r.get_cr_mark(), 19);
    assert_eq!(r.get_cr_state(), 100);

    r.change_state(CrState::Normal, CarefulResumeTrigger::ExitRecovery);
    assert_eq!(r.get_cr_mark(), 0);
    assert_eq!(r.get_cr_state(), 4);
}

#[test]
fn default_state_is_reconnaissance() {
    assert_eq!(CrState::default(), CrState::Reconnaissance);
}
