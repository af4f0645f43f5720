use vstd::prelude::*;

use crate::commands::{
    RtlCommand, SET_AGC_MODE, SET_FREQUENCY, SET_GAIN, SET_GAIN_MODE, SET_SAMPLE_RATE,
};
use crate::protocol::ControlMessage;
use crate::state::ServerState;

verus! {

/// What the shared state records once a command went through.
#[derive(Clone, Copy, Debug, PartialEq, Eq, Structural)]
pub enum StateUpdate {
    Nothing,
    Frequency(u32),
    SampleRate(u32),
}

/// The rtl_tcp commands that answer one control message: `first` is written
/// first; `follow_up`, where present, follows it once `first` went through.
#[derive(Clone, Copy, Debug, PartialEq, Eq, Structural)]
pub struct CommandPlan {
    pub first: RtlCommand,
    pub follow_up: Option<RtlCommand>,
    pub update: StateUpdate,
}

/// The low 32 bits of a JSON integer, as `value as u32` keeps them.
pub open spec fn low_u32(v: u64) -> u32 {
    (v % 0x1_0000_0000) as u32
}

/// The commands a control message asks for, or `None` when the command is
/// unknown or its parameter is missing or of the wrong type.
///
/// - `set_frequency {value}`: SET_FREQUENCY; after it, the state records it.
/// - `set_gain {value}`: manual gain mode; after it, SET_GAIN.
/// - `set_agc {enabled}`: SET_AGC_MODE (1 when enabled); after it, SET_GAIN_MODE
///   (automatic, 0, when enabled; manual, 1, otherwise).
/// - `set_sample_rate {value}`: SET_SAMPLE_RATE; after it, the state records it.
pub open spec fn control_plan(msg: ControlMessage) -> Option<CommandPlan> {
    if msg.command@ == "set_frequency"@ {
        match msg.params.value {
            Some(v) => Some(CommandPlan {
                first: RtlCommand { opcode: SET_FREQUENCY, param: low_u32(v) },
                follow_up: None,
                update: StateUpdate::Frequency(low_u32(v)),
            }),
            None => None,
        }
    } else if msg.command@ == "set_gain"@ {
        match msg.params.value {
            Some(v) => Some(CommandPlan {
                first: RtlCommand { opcode: SET_GAIN_MODE, param: 1 },
                follow_up: Some(RtlCommand { opcode: SET_GAIN, param: low_u32(v) }),
                update: StateUpdate::Nothing,
            }),
            None => None,
        }
    } else if msg.command@ == "set_agc"@ {
        match msg.params.enabled {
            Some(e) => Some(CommandPlan {
                first: RtlCommand { opcode: SET_AGC_MODE, param: if e { 1 } else { 0 } },
                follow_up: Some(RtlCommand { opcode: SET_GAIN_MODE, param: if e { 0 } else { 1 } }),
                update: StateUpdate::Nothing,
            }),
            None => None,
        }
    } else if msg.command@ == "set_sample_rate"@ {
        match msg.params.value {
            Some(v) => Some(CommandPlan {
                first: RtlCommand { opcode: SET_SAMPLE_RATE, param: low_u32(v) },
                follow_up: None,
                update: StateUpdate::SampleRate(low_u32(v)),
            }),
            None => None,
        }
    } else {
        None
    }
}

/// The state after `update` was recorded.
pub open spec fn apply_update(state: ServerState, update: StateUpdate) -> ServerState {
    match update {
        StateUpdate::Nothing => state,
        StateUpdate::Frequency(hz) => ServerState { frequency: hz, ..state },
        StateUpdate::SampleRate(rate) => ServerState { sample_rate: rate, ..state },
    }
}

/// Where the command handler stands.
#[derive(Clone, Copy, Debug, PartialEq, Eq, Structural)]
pub enum HandlerStage {
    /// Waiting for the next control message.
    Idle,
    /// A command was handed out for writing. If `follow_up` is present, that
    /// write was a preliminary one and `follow_up` comes next; otherwise it was
    /// the last one, and `update` is recorded once it went through.
    Sent { follow_up: Option<RtlCommand>, update: StateUpdate },
    /// A last write failed: the connection is gone and the handler is done.
    Stopped,
}

/// What the caller is to do next.
#[derive(Clone, Copy, Debug, PartialEq, Eq, Structural)]
pub enum HandlerAction {
    /// Write this command to the rtl_tcp connection and report the outcome.
    Write(RtlCommand),
    /// Wait for the next control message.
    Await,
    /// Stop handling control messages.
    Stop,
}

/// The handler's reaction to a control message.
pub open spec fn message_step(stage: HandlerStage, msg: ControlMessage) -> (
    HandlerStage,
    HandlerAction,
) {
    match stage {
        HandlerStage::Idle => match control_plan(msg) {
            Some(plan) => (
                HandlerStage::Sent { follow_up: plan.follow_up, update: plan.update },
                HandlerAction::Write(plan.first),
            ),
            None => (HandlerStage::Idle, HandlerAction::Await),
        },
        HandlerStage::Stopped => (HandlerStage::Stopped, HandlerAction::Stop),
        HandlerStage::Sent { .. } => (stage, HandlerAction::Await),
    }
}

/// The handler's reaction to the outcome of a write, and the shared state
/// after it.
pub open spec fn write_step(stage: HandlerStage, ok: bool, state: ServerState) -> (
    HandlerStage,
    ServerState,
    HandlerAction,
) {
    match stage {
        HandlerStage::Sent { follow_up: Some(next), update } => if ok {
            (HandlerStage::Sent { follow_up: None, update }, state, HandlerAction::Write(next))
        } else {
            (HandlerStage::Idle, state, HandlerAction::Await)
        },
        HandlerStage::Sent { follow_up: None, update } => if ok {
            (HandlerStage::Idle, apply_update(state, update), HandlerAction::Await)
        } else {
            (HandlerStage::Stopped, state, HandlerAction::Stop)
        },
        HandlerStage::Idle => (HandlerStage::Idle, state, HandlerAction::Await),
        HandlerStage::Stopped => (HandlerStage::Stopped, state, HandlerAction::Stop),
    }
}

fn low_u32_of(v: u64) -> (r: u32)
    ensures
        r == low_u32(v),
{
    let r = v as u32;
    assert(r == (v % 0x1_0000_0000) as u32) by (bit_vector)
        requires
            r == v as u32,
    ;
    r
}

/// The commands a control message asks for.
pub fn plan_control(msg: &ControlMessage) -> (r: Option<CommandPlan>)
    ensures
        r == control_plan(*msg),
{
    if msg.command == "set_frequency".to_owned() {
        match msg.params.value {
            Some(v) => {
                let hz = low_u32_of(v);
                Some(CommandPlan {
                    first: RtlCommand { opcode: SET_FREQUENCY, param: hz },
                    follow_up: None,
                    update: StateUpdate::Frequency(hz),
                })
            },
            None => None,
        }
    } else if msg.command == "set_gain".to_owned() {
        match msg.params.value {
            Some(v) => Some(CommandPlan {
                first: RtlCommand { opcode: SET_GAIN_MODE, param: 1 },
                follow_up: Some(RtlCommand { opcode: SET_GAIN, param: low_u32_of(v) }),
                update: StateUpdate::Nothing,
            }),
            None => None,
        }
    } else if msg.command == "set_agc".to_owned() {
        match msg.params.enabled {
            Some(e) => {
                let agc_value: u32 = if e { 1 } else { 0 };
                let gain_mode: u32 = if e { 0 } else { 1 };
                Some(CommandPlan {
                    first: RtlCommand { opcode: SET_AGC_MODE, param: agc_value },
                    follow_up: Some(RtlCommand { opcode: SET_GAIN_MODE, param: gain_mode }),
                    update: StateUpdate::Nothing,
                })
            },
            None => None,
        }
    } else if msg.command == "set_sample_rate".to_owned() {
        match msg.params.value {
            Some(v) => {
                let rate = low_u32_of(v);
                Some(CommandPlan {
                    first: RtlCommand { opcode: SET_SAMPLE_RATE, param: rate },
                    follow_up: None,
                    update: StateUpdate::SampleRate(rate),
                })
            },
            None => None,
        }
    } else {
        None
    }
}

impl ServerState {
    /// Record what a command that went through changed.
    pub fn apply(&mut self, update: StateUpdate)
        ensures
            *final(self) == apply_update(*old(self), update),
    {
        match update {
            StateUpdate::Nothing => {},
            StateUpdate::Frequency(hz) => {
                self.frequency = hz;
            },
            StateUpdate::SampleRate(rate) => {
                self.sample_rate = rate;
            },
        }
    }
}

/// Turns control messages from browser clients into rtl_tcp commands.
///
/// The caller feeds it each message, writes the commands it hands out to the
/// rtl_tcp connection, and reports each write's outcome.
#[derive(Clone, Copy, Debug)]
pub struct CommandHandler {
    pub stage: HandlerStage,
}

impl CommandHandler {
    pub fn new() -> (h: Self)
        ensures
            h.stage == HandlerStage::Idle,
    {
        CommandHandler { stage: HandlerStage::Idle }
    }

    /// React to a control message.
    pub fn on_message(&mut self, msg: &ControlMessage) -> (a: HandlerAction)
        ensures
            (final(self).stage, a) == message_step(old(self).stage, *msg),
    {
        match self.stage {
            HandlerStage::Idle => match plan_control(msg) {
                Some(plan) => {
                    self.stage = HandlerStage::Sent { follow_up: plan.follow_up, update: plan.update };
                    HandlerAction::Write(plan.first)
                },
                None => HandlerAction::Await,
            },
            HandlerStage::Stopped => HandlerAction::Stop,
            HandlerStage::Sent { .. } => HandlerAction::Await,
        }
    }

    /// React to the outcome of the write last handed out; `ok` tells
    /// whether it went through.
    pub fn on_write(&mut self, ok: bool, state: &mut ServerState) -> (a: HandlerAction)
        ensures
            (final(self).stage, *final(state), a) == write_step(old(self).stage, ok, *old(state)),
    {
        match self.stage {
            HandlerStage::Sent { follow_up: Some(next), update } => {
                if ok {
                    self.stage = HandlerStage::Sent { follow_up: None, update };
                    HandlerAction::Write(next)
                } else {
                    self.stage = HandlerStage::Idle;
                    HandlerAction::Await
                }
            },
            HandlerStage::Sent { follow_up: None, update } => {
                if ok {
                    state.apply(update);
                    self.stage = HandlerStage::Idle;
                    HandlerAction::Await
                } else {
                    self.stage = HandlerStage::Stopped;
                    HandlerAction::Stop
                }
            },
            HandlerStage::Idle => HandlerAction::Await,
            HandlerStage::Stopped => HandlerAction::Stop,
        }
    }
}

/// The four command names differ from one another (they differ in length).
pub proof fn lemma_command_names_distinct()
    ensures
        "set_frequency"@.len() == 13,
        "set_gain"@.len() == 8,
        "set_agc"@.len() == 7,
        "set_sample_rate"@.len() == 15,
{
    reveal_strlit("set_frequency");
    reveal_strlit("set_gain");
    reveal_strlit("set_agc");
    reveal_strlit("set_sample_rate");
}

/// Control messages never change what the server reported about its tuner:
/// only the frequency and the sample rate follow the commands.
pub proof fn lemma_control_keeps_tuner_info(stage: HandlerStage, ok: bool, state: ServerState)
    ensures
        write_step(stage, ok, state).1.tuner_type == state.tuner_type,
        write_step(stage, ok, state).1.gain_count == state.gain_count,
{
}

/// The shared state changes only when a write went through.
pub proof fn lemma_failed_write_keeps_state(stage: HandlerStage, state: ServerState)
    ensures
        write_step(stage, false, state).1 == state,
{
}

/// Once a last write failed, the handler stays stopped whatever comes.
pub proof fn lemma_stopped_is_final(msg: ControlMessage, ok: bool, state: ServerState)
    ensures
        message_step(HandlerStage::Stopped, msg) == (HandlerStage::Stopped, HandlerAction::Stop),
        write_step(HandlerStage::Stopped, ok, state) == (
            HandlerStage::Stopped,
            state,
            HandlerAction::Stop,
        ),
{
}

/// A message is skipped, with nothing written and the handler waiting for
/// the next one, exactly when its command is none of the four known names or
/// the parameter that command reads is missing.
pub proof fn lemma_skipped_messages(msg: ControlMessage)
    ensures
        (message_step(HandlerStage::Idle, msg) == (HandlerStage::Idle, HandlerAction::Await)) <==> (
        (msg.command@ != "set_frequency"@ && msg.command@ != "set_gain"@ && msg.command@
            != "set_agc"@ && msg.command@ != "set_sample_rate"@) || (msg.command@
            == "set_frequency"@ && msg.params.value is None) || (msg.command@ == "set_gain"@
            && msg.params.value is None) || (msg.command@ == "set_agc"@ && msg.params.enabled is None)
            || (msg.command@ == "set_sample_rate"@ && msg.params.value is None)),
{
    lemma_command_names_distinct();
}

/// The parameter sent for a JSON integer is that integer when it fits in 32
/// bits, and otherwise its low 32 bits.
pub proof fn lemma_low_u32(v: u64)
    ensures
        v <= u32::MAX ==> low_u32(v) == v,
        low_u32(v) + 0x1_0000_0000 * (v / 0x1_0000_0000) == v,
{
}

/// A message that asks for nothing the handler knows is skipped: the
/// handler waits for the next one and nothing is written.
pub proof fn lemma_unknown_message_skipped(msg: ControlMessage)
    requires
        control_plan(msg) is None,
    ensures
        message_step(HandlerStage::Idle, msg) == (HandlerStage::Idle, HandlerAction::Await),
{
}

/// A `set_frequency` message writes SET_FREQUENCY with the requested value.
/// If that write goes through, the shared state holds that very frequency
/// and nothing else changes; if it fails, the handler stops and the state is
/// untouched.
pub proof fn lemma_set_frequency_recorded(msg: ControlMessage, v: u64, state: ServerState)
    requires
        msg.command@ == "set_frequency"@,
        msg.params.value == Some(v),
    ensures
        message_step(HandlerStage::Idle, msg).1 == HandlerAction::Write(
            RtlCommand { opcode: SET_FREQUENCY, param: low_u32(v) },
        ),
        write_step(message_step(HandlerStage::Idle, msg).0, true, state) == (
            HandlerStage::Idle,
            ServerState {
                frequency: low_u32(v),
                sample_rate: state.sample_rate,
                tuner_type: state.tuner_type,
                gain_count: state.gain_count,
            },
            HandlerAction::Await,
        ),
        write_step(message_step(HandlerStage::Idle, msg).0, false, state) == (
            HandlerStage::Stopped,
            state,
            HandlerAction::Stop,
        ),
{
}

/// A `set_sample_rate` message writes SET_SAMPLE_RATE with the requested
/// value. If that write goes through, the shared state holds that very
/// sample rate and nothing else changes; if it fails, the handler stops and
/// the state is untouched.
pub proof fn lemma_set_sample_rate_recorded(msg: ControlMessage, v: u64, state: ServerState)
    requires
        msg.command@ == "set_sample_rate"@,
        msg.params.value == Some(v),
    ensures
        message_step(HandlerStage::Idle, msg).1 == HandlerAction::Write(
            RtlCommand { opcode: SET_SAMPLE_RATE, param: low_u32(v) },
        ),
        write_step(message_step(HandlerStage::Idle, msg).0, true, state) == (
            HandlerStage::Idle,
            ServerState {
                frequency: state.frequency,
                sample_rate: low_u32(v),
                tuner_type: state.tuner_type,
                gain_count: state.gain_count,
            },
            HandlerAction::Await,
        ),
        write_step(message_step(HandlerStage::Idle, msg).0, false, state) == (
            HandlerStage::Stopped,
            state,
            HandlerAction::Stop,
        ),
{
    lemma_command_names_distinct();
}

/// A `set_gain` message switches the tuner to manual gain, then sets the
/// gain. If the switch fails, the gain is not sent and the handler waits for
/// the next message. If the switch goes through and setting the gain fails,
/// the handler stops; if both go through, it waits for the next message.
/// The shared state is never changed.
pub proof fn lemma_set_gain_sequence(
    msg: ControlMessage,
    v: u64,
    state: ServerState,
    later: ServerState,
)
    requires
        msg.command@ == "set_gain"@,
        msg.params.value == Some(v),
    ensures
        ({
            let (s1, a1) = message_step(HandlerStage::Idle, msg);
            let (s2, st2, a2) = write_step(s1, true, state);
            &&& a1 == HandlerAction::Write(RtlCommand { opcode: SET_GAIN_MODE, param: 1 })
            &&& st2 == state
            &&& a2 == HandlerAction::Write(RtlCommand { opcode: SET_GAIN, param: low_u32(v) })
            &&& write_step(s1, false, state) == (HandlerStage::Idle, state, HandlerAction::Await)
            &&& write_step(s2, false, later) == (HandlerStage::Stopped, later, HandlerAction::Stop)
            &&& write_step(s2, true, later) == (HandlerStage::Idle, later, HandlerAction::Await)
        }),
{
    lemma_command_names_distinct();
}

/// A `set_agc` message writes SET_AGC_MODE (1 to enable, 0 to disable), then
/// SET_GAIN_MODE with the opposite value (automatic gain, 0, with AGC on;
/// manual, 1, with AGC off). If the first write fails, the second is not sent
/// and the handler waits for the next message. If the first goes through and
/// the second fails, the handler stops; if both go through, it waits for the
/// next message. The shared state is never changed.
pub proof fn lemma_agc_gain_mode_opposite(
    msg: ControlMessage,
    enabled: bool,
    state: ServerState,
    later: ServerState,
)
    requires
        msg.command@ == "set_agc"@,
        msg.params.enabled == Some(enabled),
    ensures
        ({
            let (s1, a1) = message_step(HandlerStage::Idle, msg);
            let (s2, st2, a2) = write_step(s1, true, state);
            &&& a1 == HandlerAction::Write(
                RtlCommand { opcode: SET_AGC_MODE, param: if enabled { 1 } else { 0 } },
            )
            &&& st2 == state
            &&& a2 == HandlerAction::Write(
                RtlCommand { opcode: SET_GAIN_MODE, param: if enabled { 0 } else { 1 } },
            )
            &&& write_step(s1, false, state) == (HandlerStage::Idle, state, HandlerAction::Await)
            &&& write_step(s2, false, later) == (HandlerStage::Stopped, later, HandlerAction::Stop)
            &&& write_step(s2, true, later) == (HandlerStage::Idle, later, HandlerAction::Await)
        }),
{
    lemma_command_names_distinct();
}

} // verus!
