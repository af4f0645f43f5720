use sdr_web::header::RtlTcpHeader;
use sdr_web::state::ServerState;

#[test]
fn test_new_defaults() {
    let state = ServerState::new(90_100_000, 2_048_000);
    assert_eq!(state.frequency, 90_100_000);
    assert_eq!(state.sample_rate, 2_048_000);
    assert_eq!(state.tuner_type, 0);
    assert_eq!(state.gain_count, 0);
}

#[test]
fn record_connection_sets_all_fields() {
    let mut state = ServerState::new(1, 2);
    state.record_connection(&RtlTcpHeader { tuner_type: 5, gain_count: 29 }, 90_100_000, 2_048_000);
    assert_eq!(
        state,
        ServerState { frequency: 90_100_000, sample_rate: 2_048_000, tuner_type: 5, gain_count: 29 }
    );
}
