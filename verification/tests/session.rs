use sdr_web::commands::{RtlCommand, SET_FREQUENCY, SET_SAMPLE_RATE};
use sdr_web::header::RtlTcpHeader;
use sdr_web::session::{Session, SessionAction, SessionEvent, SessionPhase, MAX_BACKOFF_SECS};
use sdr_web::state::ServerState;

#[test]
fn session_sets_up_connection() {
    let mut s = Session::new(90_100_000, 2_048_000);
    let mut state = ServerState::new(0, 0);
    let hdr = RtlTcpHeader { tuner_type: 5, gain_count: 29 };
    assert_eq!(
        s.step(SessionEvent::Connected(hdr), &mut state),
        Some(SessionAction::Write(RtlCommand { opcode: SET_FREQUENCY, param: 90_100_000 }))
    );
    assert_eq!(
        state,
        ServerState { frequency: 90_100_000, sample_rate: 2_048_000, tuner_type: 5, gain_count: 29 }
    );
    assert_eq!(
        s.step(SessionEvent::CommandSent, &mut state),
        Some(SessionAction::Write(RtlCommand { opcode: SET_SAMPLE_RATE, param: 2_048_000 }))
    );
    assert_eq!(s.step(SessionEvent::CommandSent, &mut state), Some(SessionAction::RunProxy));
    assert_eq!(s.phase, SessionPhase::Proxying);
}

#[test]
fn session_backoff_doubles_up_to_ten() {
    let mut s = Session::new(1, 2);
    let mut state = ServerState::new(1, 2);
    let mut waits = Vec::new();
    for _ in 0..6 {
        match s.step(SessionEvent::ConnectFailed, &mut state) {
            Some(SessionAction::Wait(secs)) => waits.push(secs),
            other => panic!("unexpected {:?}", other),
        }
        assert_eq!(s.step(SessionEvent::WaitOver, &mut state), Some(SessionAction::Connect));
    }
    assert_eq!(waits, vec![1, 2, 4, 8, 10, 10]);
    assert_eq!(MAX_BACKOFF_SECS, 10);
}

#[test]
fn session_backoff_resets_after_setup() {
    let mut s = Session::new(1, 2);
    let mut state = ServerState::new(1, 2);
    s.step(SessionEvent::ConnectFailed, &mut state);
    s.step(SessionEvent::WaitOver, &mut state);
    s.step(SessionEvent::ConnectFailed, &mut state);
    s.step(SessionEvent::WaitOver, &mut state);
    assert_eq!(s.backoff_secs, 4);
    s.step(SessionEvent::Connected(RtlTcpHeader { tuner_type: 1, gain_count: 1 }), &mut state);
    s.step(SessionEvent::CommandSent, &mut state);
    s.step(SessionEvent::CommandSent, &mut state);
    assert_eq!(s.backoff_secs, 1);
    assert_eq!(s.step(SessionEvent::ProxyEnded, &mut state), Some(SessionAction::Wait(1)));
}

#[test]
fn session_setup_failure_reconnects_immediately() {
    let mut s = Session::new(1, 2);
    let mut state = ServerState::new(1, 2);
    s.step(SessionEvent::Connected(RtlTcpHeader { tuner_type: 1, gain_count: 1 }), &mut state);
    assert_eq!(s.step(SessionEvent::CommandFailed, &mut state), Some(SessionAction::Connect));
    assert_eq!(s.phase, SessionPhase::Connecting);
    assert_eq!(s.backoff_secs, 1);
}

#[test]
fn session_ignores_out_of_phase_events() {
    let mut s = Session::new(1, 2);
    let mut state = ServerState::new(1, 2);
    let before = s;
    assert_eq!(s.step(SessionEvent::WaitOver, &mut state), None);
    assert_eq!(s, before);
}
