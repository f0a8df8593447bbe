//! Scenario tests of the session engine: windows, counters, test frames
//! and the connection lifecycle.

use iec104::link::connection_handler::{lifecycle_step, ConnectionHandlerState, LifecycleEvent};
use iec104::link::errors::{LinkError, SessionError};
use iec104::client::{
    build_command_bs, build_command_dp, build_command_rc, check_can_start, check_connected,
    check_connection_started,
};
use iec104::link::receive_handler::{
    start_dt_con_frame, stop_dt_con_frame, test_fr_con_frame, ReceiveHandler,
};
use iec104::types::objects::InformationObjects;
use iec104::types::quality_descriptors::Qds;
use iec104::types::time::{Cp24Time2a, Cp56Time2a};

#[test]
fn send_window_backpressure() {
    // k = 12: the thirteenth send fails fast with a full output buffer, and
    // an acknowledgement drains the window so sending resumes.
    let mut s = ReceiveHandler::new(12, 8);
    for i in 0..12u16 {
        let (ssn, rsn) = s.handle_send_asdu(i as u64).unwrap();
        assert_eq!(ssn, i);
        assert_eq!(rsn, 0);
    }
    assert!(s.output_full());
    assert_eq!(s.handle_send_asdu(12).unwrap_err(), SessionError::OutputBufferFull);
    assert!(s.handle_receive_s_frame(12).is_ok());
    assert!(!s.output_full());
    assert!(s.handle_send_asdu(13).is_ok());
    assert_eq!(s.sent_counter, 13);
}

#[test]
fn receive_window_forces_supervisory() {
    // w = 8: after the ninth accepted I-frame the engine must answer with
    // an S-frame carrying the receive counter.
    let mut s = ReceiveHandler::new(12, 8);
    for i in 0..8u16 {
        assert!(s.handle_receive_i_frame(i, 0).is_ok());
        assert!(!s.needs_supervisory());
    }
    assert!(s.handle_receive_i_frame(8, 0).is_ok());
    assert!(s.needs_supervisory());
    let rsn = s.confirm_all_messages();
    assert_eq!(rsn, 9);
    assert!(!s.needs_supervisory());
    assert_eq!(s.unacknowledged_rcv_frames, 0);
}

#[test]
fn wrong_incoming_sequence_is_fatal() {
    let mut s = ReceiveHandler::new(12, 8);
    assert!(s.handle_receive_i_frame(0, 0).is_ok());
    assert_eq!(
        s.handle_receive_i_frame(5, 0).unwrap_err(),
        SessionError::SequenceNumberMismatch
    );
}

#[test]
fn counters_stay_in_ring() {
    let mut s = ReceiveHandler::new(1, 1);
    s.sent_counter = 32767;
    s.received_counter = 32767;
    let (ssn, _) = s.handle_send_asdu(0).unwrap();
    assert_eq!(ssn, 32767);
    assert_eq!(s.sent_counter, 0);
    assert!(s.handle_receive_i_frame(32767, 0).is_ok());
    assert_eq!(s.received_counter, 0);
}

#[test]
fn test_frames_counted_and_settled() {
    // Three activations may go unanswered; the fourth is fatal; one
    // confirmation settles the debt.
    let mut s = ReceiveHandler::new(12, 8);
    assert!(s.send_test_frame().is_ok());
    assert!(s.send_test_frame().is_ok());
    assert!(s.send_test_frame().is_ok());
    assert_eq!(s.send_test_frame().unwrap_err(), SessionError::TooManyTestFrames);
    s.handle_test_confirmation();
    assert_eq!(s.outstanding_test_fr_con_messages, 0);
    assert!(s.send_test_frame().is_ok());
}

#[test]
fn lifecycle_walks_the_spec_states() {
    // Start, confirm, fail, reconnect, start again.
    let mut st = ConnectionHandlerState::WaitingForStart;
    st = lifecycle_step(st, LifecycleEvent::CommandOther);
    assert_eq!(st, ConnectionHandlerState::WaitingForStart);
    st = lifecycle_step(st, LifecycleEvent::CommandStart);
    assert_eq!(st, ConnectionHandlerState::Starting);
    st = lifecycle_step(st, LifecycleEvent::StartConfirmed);
    assert_eq!(st, ConnectionHandlerState::Started);
    st = lifecycle_step(st, LifecycleEvent::SessionFailed);
    assert_eq!(st, ConnectionHandlerState::Reconnecting);
    st = lifecycle_step(st, LifecycleEvent::ConnectFailed);
    assert_eq!(st, ConnectionHandlerState::Reconnecting);
    st = lifecycle_step(st, LifecycleEvent::ConnectSucceeded);
    assert_eq!(st, ConnectionHandlerState::Starting);
    st = lifecycle_step(st, LifecycleEvent::StartConfirmed);
    assert_eq!(st, ConnectionHandlerState::Started);
    st = lifecycle_step(st, LifecycleEvent::SessionStopped);
    assert_eq!(st, ConnectionHandlerState::WaitingForStart);
}

#[test]
fn client_guards_name_each_refusal() {
    assert_eq!(check_connected(None).unwrap_err(), LinkError::NotConnected);
    assert_eq!(
        check_connected(Some(ConnectionHandlerState::Reconnecting)).unwrap_err(),
        LinkError::Reconnecting
    );
    assert!(check_connected(Some(ConnectionHandlerState::Started)).is_ok());
    assert_eq!(
        check_connection_started(Some(ConnectionHandlerState::Starting)).unwrap_err(),
        LinkError::NotReceiving
    );
    assert!(check_connection_started(Some(ConnectionHandlerState::Started)).is_ok());
    assert_eq!(
        check_can_start(Some(ConnectionHandlerState::Started)).unwrap_err(),
        LinkError::AlreadyStarted
    );
    assert!(check_can_start(Some(ConnectionHandlerState::WaitingForStart)).is_ok());
}

#[test]
fn codec_round_trips_on_values() {
    let q = Qds { iv: true, nt: false, sb: true, bl: false, ov: true };
    assert_eq!(Qds::from_byte(q.to_byte()), q);
    let t = Cp56Time2a {
        ms: 59999,
        iv: false,
        min: 59,
        summer_time: true,
        hour: 23,
        weekday: 7,
        day: 31,
        month: 12,
        year: 99,
    };
    assert_eq!(Cp56Time2a::from_bytes(&t.to_bytes()).unwrap(), t);
    let bad = [0x60u8, 0xEA, 0x00];
    assert!(Cp24Time2a::from_bytes(&bad).is_err());
}

#[test]
fn u_frame_dispatch_follows_the_table() {
    let mut u = iec104::apdu::UFrame::default();
    u.test_fr_activation = true;
    assert_eq!(
        ReceiveHandler::handle_receive_u_frame(&u, false).unwrap(),
        (Some(test_fr_con_frame()), false)
    );
    let mut u = iec104::apdu::UFrame::default();
    u.start_dt_activation = true;
    assert_eq!(
        ReceiveHandler::handle_receive_u_frame(&u, true).unwrap(),
        (Some(start_dt_con_frame()), false)
    );
    assert_eq!(
        ReceiveHandler::handle_receive_u_frame(&u, false).unwrap_err(),
        SessionError::UnexpectedStartActivation
    );
    let mut u = iec104::apdu::UFrame::default();
    u.stop_dt_activation = true;
    assert_eq!(
        ReceiveHandler::handle_receive_u_frame(&u, false).unwrap(),
        (Some(stop_dt_con_frame()), true)
    );
    let mut u = iec104::apdu::UFrame::default();
    u.stop_dt_confirmation = true;
    assert_eq!(ReceiveHandler::handle_receive_u_frame(&u, false).unwrap(), (None, true));
    let u = iec104::apdu::UFrame::default();
    assert_eq!(ReceiveHandler::handle_receive_u_frame(&u, false).unwrap(), (None, false));
}

#[test]
fn timer_supervision_follows_the_deadlines() {
    // Idle for t3: a test frame goes out and the answer deadline arms.
    let mut s = ReceiveHandler::new(12, 8);
    let far = 1_000_000_000u64;
    let a = s.check_timeouts(20_000, far, far, far, 20_000).unwrap();
    assert!(a.test_frame && a.rearm_t3 && a.rearm_t1_u);
    assert_eq!(s.outstanding_test_fr_con_messages, 1);
    // Receive debt past t2: a supervisory frame with the receive counter.
    let mut s = ReceiveHandler::new(12, 8);
    assert!(s.handle_receive_i_frame(0, 0).is_ok());
    let a = s.check_timeouts(10_000, far, far, 10_000, far).unwrap();
    assert_eq!(a.supervisory, Some(1));
    assert_eq!(s.unacknowledged_rcv_frames, 0);
    // A passed answer deadline is fatal.
    let mut s = ReceiveHandler::new(12, 8);
    assert_eq!(
        s.check_timeouts(12_000, far, 12_000, far, far).unwrap_err(),
        SessionError::AcknowledgementTimeout
    );
    // A passed I-frame deadline is fatal only with frames pending.
    let mut s = ReceiveHandler::new(12, 8);
    assert!(s.check_timeouts(12_000, 12_000, far, far, far).is_ok());
    s.handle_send_asdu(0).unwrap();
    assert_eq!(
        s.check_timeouts(12_000, 12_000, far, far, far).unwrap_err(),
        SessionError::AcknowledgementTimeout
    );
}

#[test]
fn command_builders_pin_their_objects() {
    let a = build_command_dp(7, 42, iec104::types::information_elements::Dpi::On, None, None, None);
    assert_eq!(a.type_id, iec104::types_id::TypeId::C_DC_NA_1);
    let InformationObjects::CdcNa1(v) = &a.information_objects else {
        panic!("expected a double command")
    };
    assert_eq!(v[0].address, 42);
    assert_eq!(v[0].object.dco.dcs, iec104::types::information_elements::Dpi::On);
    let a = build_command_rc(7, 1, iec104::types::commands::Rcs::Increment, None, None, None);
    assert_eq!(a.type_id, iec104::types_id::TypeId::C_RC_NA_1);
    let a = build_command_bs(7, 1, 0xDEAD_BEEF, None);
    let InformationObjects::CBoNa1(v) = &a.information_objects else {
        panic!("expected a bit-string command")
    };
    assert_eq!(v[0].object.bsi, 0xDEAD_BEEF);
}
