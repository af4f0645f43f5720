use sdr_web::commands::{
    RtlCommand, SET_AGC_MODE, SET_FREQUENCY, SET_GAIN, SET_GAIN_MODE, SET_SAMPLE_RATE,
};
use sdr_web::control::{
    plan_control, CommandHandler, CommandPlan, HandlerAction, HandlerStage, StateUpdate,
};
use sdr_web::protocol::{ControlMessage, ControlParams};
use sdr_web::state::ServerState;

fn msg(command: &str, value: Option<u64>, enabled: Option<bool>) -> ControlMessage {
    ControlMessage { command: command.to_string(), params: ControlParams { value, enabled } }
}

fn cmd(opcode: u8, param: u32) -> RtlCommand {
    RtlCommand { opcode, param }
}

#[test]
fn plan_set_frequency() {
    assert_eq!(
        plan_control(&msg("set_frequency", Some(90_100_000), None)),
        Some(CommandPlan {
            first: cmd(SET_FREQUENCY, 90_100_000),
            follow_up: None,
            update: StateUpdate::Frequency(90_100_000),
        })
    );
}

#[test]
fn plan_set_gain() {
    assert_eq!(
        plan_control(&msg("set_gain", Some(400), None)),
        Some(CommandPlan {
            first: cmd(SET_GAIN_MODE, 1),
            follow_up: Some(cmd(SET_GAIN, 400)),
            update: StateUpdate::Nothing,
        })
    );
}

#[test]
fn plan_set_agc_on_and_off() {
    assert_eq!(
        plan_control(&msg("set_agc", None, Some(true))),
        Some(CommandPlan {
            first: cmd(SET_AGC_MODE, 1),
            follow_up: Some(cmd(SET_GAIN_MODE, 0)),
            update: StateUpdate::Nothing,
        })
    );
    assert_eq!(
        plan_control(&msg("set_agc", None, Some(false))),
        Some(CommandPlan {
            first: cmd(SET_AGC_MODE, 0),
            follow_up: Some(cmd(SET_GAIN_MODE, 1)),
            update: StateUpdate::Nothing,
        })
    );
}

#[test]
fn plan_set_sample_rate() {
    assert_eq!(
        plan_control(&msg("set_sample_rate", Some(2_048_000), None)),
        Some(CommandPlan {
            first: cmd(SET_SAMPLE_RATE, 2_048_000),
            follow_up: None,
            update: StateUpdate::SampleRate(2_048_000),
        })
    );
}

#[test]
fn plan_truncates_large_values() {
    let v = (1u64 << 32) + 7;
    assert_eq!(
        plan_control(&msg("set_frequency", Some(v), None)).unwrap().first,
        cmd(SET_FREQUENCY, 7)
    );
}

#[test]
fn plan_rejects_missing_param_and_unknown_command() {
    assert_eq!(plan_control(&msg("set_frequency", None, Some(true))), None);
    assert_eq!(plan_control(&msg("set_gain", None, None)), None);
    assert_eq!(plan_control(&msg("set_agc", Some(1), None)), None);
    assert_eq!(plan_control(&msg("set_sample_rate", None, None)), None);
    assert_eq!(plan_control(&msg("reboot", Some(1), Some(true))), None);
    assert_eq!(plan_control(&msg("SET_FREQUENCY", Some(1), None)), None);
}

#[test]
fn handler_frequency_updates_state_after_write() {
    let mut h = CommandHandler::new();
    let mut state = ServerState::new(1, 2);
    let a = h.on_message(&msg("set_frequency", Some(100_000_000), None));
    assert_eq!(a, HandlerAction::Write(cmd(SET_FREQUENCY, 100_000_000)));
    assert_eq!(state.frequency, 1);
    let a = h.on_write(true, &mut state);
    assert_eq!(a, HandlerAction::Await);
    assert_eq!(state.frequency, 100_000_000);
    assert_eq!(state.sample_rate, 2);
    assert_eq!(h.stage, HandlerStage::Idle);
}

#[test]
fn handler_failed_final_write_stops() {
    let mut h = CommandHandler::new();
    let mut state = ServerState::new(1, 2);
    h.on_message(&msg("set_sample_rate", Some(1_024_000), None));
    assert_eq!(h.on_write(false, &mut state), HandlerAction::Stop);
    assert_eq!(state, ServerState::new(1, 2));
    assert_eq!(h.on_message(&msg("set_frequency", Some(5), None)), HandlerAction::Stop);
}

#[test]
fn handler_gain_two_writes() {
    let mut h = CommandHandler::new();
    let mut state = ServerState::new(1, 2);
    assert_eq!(h.on_message(&msg("set_gain", Some(400), None)), HandlerAction::Write(cmd(SET_GAIN_MODE, 1)));
    assert_eq!(h.on_write(true, &mut state), HandlerAction::Write(cmd(SET_GAIN, 400)));
    assert_eq!(h.on_write(true, &mut state), HandlerAction::Await);
    assert_eq!(state, ServerState::new(1, 2));
}

#[test]
fn handler_failed_prelude_skips_message() {
    let mut h = CommandHandler::new();
    let mut state = ServerState::new(1, 2);
    h.on_message(&msg("set_agc", None, Some(true)));
    assert_eq!(h.on_write(false, &mut state), HandlerAction::Await);
    assert_eq!(h.stage, HandlerStage::Idle);
    // the handler keeps serving messages
    assert_eq!(
        h.on_message(&msg("set_frequency", Some(3), None)),
        HandlerAction::Write(cmd(SET_FREQUENCY, 3))
    );
}

#[test]
fn handler_unknown_message_waits() {
    let mut h = CommandHandler::new();
    assert_eq!(h.on_message(&msg("nope", None, None)), HandlerAction::Await);
    assert_eq!(h.stage, HandlerStage::Idle);
}

#[test]
fn handler_tuner_info_untouched() {
    let mut h = CommandHandler::new();
    let mut state = ServerState { frequency: 1, sample_rate: 2, tuner_type: 5, gain_count: 29 };
    h.on_message(&msg("set_sample_rate", Some(9), None));
    h.on_write(true, &mut state);
    assert_eq!(state, ServerState { frequency: 1, sample_rate: 9, tuner_type: 5, gain_count: 29 });
}
