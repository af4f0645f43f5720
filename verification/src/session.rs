use vstd::prelude::*;

use crate::commands::{RtlCommand, SET_FREQUENCY, SET_SAMPLE_RATE};
use crate::header::RtlTcpHeader;
use crate::state::{connected_state, ServerState};

verus! {

/// Seconds to wait before the first reconnection attempt, and again after
/// every connection that came up.
pub const INITIAL_BACKOFF_SECS: u64 = 1;

/// The longest wait between reconnection attempts, in seconds.
pub const MAX_BACKOFF_SECS: u64 = 10;

/// The wait after the current one: twice as long, but no more than the
/// longest wait.
pub open spec fn next_backoff(secs: u64) -> u64 {
    if 2 * secs < MAX_BACKOFF_SECS {
        (2 * secs) as u64
    } else {
        MAX_BACKOFF_SECS
    }
}

/// Where the connection to the rtl_tcp server stands.
#[derive(Clone, Copy, Debug, PartialEq, Eq, Structural)]
pub enum SessionPhase {
    /// A connection attempt is under way.
    Connecting,
    /// The initial frequency is being sent.
    SettingFrequency,
    /// The initial sample rate is being sent.
    SettingSampleRate,
    /// The proxy runs until the connection ends.
    Proxying,
    /// Waiting before the next connection attempt.
    Waiting,
}

/// What happened to the last action.
#[derive(Clone, Copy, Debug, PartialEq, Eq, Structural)]
pub enum SessionEvent {
    /// The server accepted the connection and sent this header.
    Connected(RtlTcpHeader),
    /// The connection could not be made, or its header was refused.
    ConnectFailed,
    /// The command was written.
    CommandSent,
    /// Writing the command failed.
    CommandFailed,
    /// The proxy stopped.
    ProxyEnded,
    /// The wait is over.
    WaitOver,
}

/// What the caller is to do next.
#[derive(Clone, Copy, Debug, PartialEq, Eq, Structural)]
pub enum SessionAction {
    /// Connect to the rtl_tcp server and read its header.
    Connect,
    /// Write this command to the connection.
    Write(RtlCommand),
    /// Run the proxy on the connection.
    RunProxy,
    /// Wait this many seconds.
    Wait(u64),
}

/// The reconnecting client of one rtl_tcp server: it sets the configured
/// frequency and sample rate on every new connection and waits longer after
/// each attempt that does not come up, up to a limit.
#[derive(Clone, Copy, Debug, PartialEq, Eq, Structural)]
pub struct Session {
    pub phase: SessionPhase,
    pub backoff_secs: u64,
    pub frequency: u32,
    pub sample_rate: u32,
}

/// The session, the shared state and the next action after `event`, or no
/// action where the event does not belong to the phase (then nothing
/// changes).
pub open spec fn session_step(s: Session, state: ServerState, event: SessionEvent) -> (
    Session,
    ServerState,
    Option<SessionAction>,
) {
    match (s.phase, event) {
        (SessionPhase::Connecting, SessionEvent::Connected(header)) => (
            Session { phase: SessionPhase::SettingFrequency, ..s },
            connected_state(header, s.frequency, s.sample_rate),
            Some(SessionAction::Write(RtlCommand { opcode: SET_FREQUENCY, param: s.frequency })),
        ),
        (SessionPhase::Connecting, SessionEvent::ConnectFailed) => (
            Session { phase: SessionPhase::Waiting, ..s },
            state,
            Some(SessionAction::Wait(s.backoff_secs)),
        ),
        (SessionPhase::SettingFrequency, SessionEvent::CommandSent) => (
            Session { phase: SessionPhase::SettingSampleRate, ..s },
            state,
            Some(
                SessionAction::Write(RtlCommand { opcode: SET_SAMPLE_RATE, param: s.sample_rate }),
            ),
        ),
        (SessionPhase::SettingFrequency, SessionEvent::CommandFailed) => (
            Session { phase: SessionPhase::Connecting, ..s },
            state,
            Some(SessionAction::Connect),
        ),
        (SessionPhase::SettingSampleRate, SessionEvent::CommandSent) => (
            Session { phase: SessionPhase::Proxying, backoff_secs: INITIAL_BACKOFF_SECS, ..s },
            state,
            Some(SessionAction::RunProxy),
        ),
        (SessionPhase::SettingSampleRate, SessionEvent::CommandFailed) => (
            Session { phase: SessionPhase::Connecting, ..s },
            state,
            Some(SessionAction::Connect),
        ),
        (SessionPhase::Proxying, SessionEvent::ProxyEnded) => (
            Session { phase: SessionPhase::Waiting, ..s },
            state,
            Some(SessionAction::Wait(s.backoff_secs)),
        ),
        (SessionPhase::Waiting, SessionEvent::WaitOver) => (
            Session {
                phase: SessionPhase::Connecting,
                backoff_secs: next_backoff(s.backoff_secs),
                ..s
            },
            state,
            Some(SessionAction::Connect),
        ),
        _ => (s, state, None),
    }
}

impl Session {
    /// A session that is about to make its first connection attempt.
    pub fn new(frequency: u32, sample_rate: u32) -> (s: Self)
        ensures
            s == (Session {
                phase: SessionPhase::Connecting,
                backoff_secs: INITIAL_BACKOFF_SECS,
                frequency,
                sample_rate,
            }),
    {
        Session {
            phase: SessionPhase::Connecting,
            backoff_secs: INITIAL_BACKOFF_SECS,
            frequency,
            sample_rate,
        }
    }

    /// React to what happened to the last action.
    pub fn step(&mut self, event: SessionEvent, state: &mut ServerState) -> (a: Option<
        SessionAction,
    >)
        ensures
            (*final(self), *final(state), a) == session_step(*old(self), *old(state), event),
    {
        match (self.phase, event) {
            (SessionPhase::Connecting, SessionEvent::Connected(header)) => {
                state.record_connection(&header, self.frequency, self.sample_rate);
                self.phase = SessionPhase::SettingFrequency;
                Some(SessionAction::Write(RtlCommand { opcode: SET_FREQUENCY, param: self.frequency }))
            },
            (SessionPhase::Connecting, SessionEvent::ConnectFailed) => {
                self.phase = SessionPhase::Waiting;
                Some(SessionAction::Wait(self.backoff_secs))
            },
            (SessionPhase::SettingFrequency, SessionEvent::CommandSent) => {
                self.phase = SessionPhase::SettingSampleRate;
                Some(
                    SessionAction::Write(
                        RtlCommand { opcode: SET_SAMPLE_RATE, param: self.sample_rate },
                    ),
                )
            },
            (SessionPhase::SettingFrequency, SessionEvent::CommandFailed) => {
                self.phase = SessionPhase::Connecting;
                Some(SessionAction::Connect)
            },
            (SessionPhase::SettingSampleRate, SessionEvent::CommandSent) => {
                self.phase = SessionPhase::Proxying;
                self.backoff_secs = INITIAL_BACKOFF_SECS;
                Some(SessionAction::RunProxy)
            },
            (SessionPhase::SettingSampleRate, SessionEvent::CommandFailed) => {
                self.phase = SessionPhase::Connecting;
                Some(SessionAction::Connect)
            },
            (SessionPhase::Proxying, SessionEvent::ProxyEnded) => {
                self.phase = SessionPhase::Waiting;
                Some(SessionAction::Wait(self.backoff_secs))
            },
            (SessionPhase::Waiting, SessionEvent::WaitOver) => {
                self.phase = SessionPhase::Connecting;
                self.backoff_secs = if self.backoff_secs < MAX_BACKOFF_SECS / 2 {
                    2 * self.backoff_secs
                } else {
                    MAX_BACKOFF_SECS
                };
                Some(SessionAction::Connect)
            },
            _ => None,
        }
    }
}

/// The wait between attempts stays between one and ten seconds: it starts
/// at one, doubles after every attempt that does not come up, stops growing
/// at ten, and goes back to one once a connection is set up.
pub proof fn lemma_backoff_bounded(s: Session, state: ServerState, event: SessionEvent)
    requires
        INITIAL_BACKOFF_SECS <= s.backoff_secs <= MAX_BACKOFF_SECS,
    ensures
        INITIAL_BACKOFF_SECS <= session_step(s, state, event).0.backoff_secs <= MAX_BACKOFF_SECS,
        session_step(s, state, event).2 matches Some(SessionAction::Wait(secs)) ==> (
        INITIAL_BACKOFF_SECS <= secs <= MAX_BACKOFF_SECS),
{
}

/// Every connection that comes up gets the configured frequency, then the
/// configured sample rate, before the proxy runs; the shared state records
/// the reported tuner; and the wait goes back to its initial length.
pub proof fn lemma_connection_setup(
    s: Session,
    state: ServerState,
    header: RtlTcpHeader,
    later: ServerState,
)
    requires
        s.phase == SessionPhase::Connecting,
    ensures
        ({
            let (s1, st1, a1) = session_step(s, state, SessionEvent::Connected(header));
            let (s2, st2, a2) = session_step(s1, later, SessionEvent::CommandSent);
            let (s3, st3, a3) = session_step(s2, later, SessionEvent::CommandSent);
            &&& st1 == ServerState {
                frequency: s.frequency,
                sample_rate: s.sample_rate,
                tuner_type: header.tuner_type,
                gain_count: header.gain_count,
            }
            &&& a1 == Some(
                SessionAction::Write(RtlCommand { opcode: SET_FREQUENCY, param: s.frequency }),
            )
            &&& a2 == Some(
                SessionAction::Write(RtlCommand { opcode: SET_SAMPLE_RATE, param: s.sample_rate }),
            )
            &&& a3 == Some(SessionAction::RunProxy)
            &&& s3.backoff_secs == INITIAL_BACKOFF_SECS
            &&& st2 == later && st3 == later
        }),
{
}

/// A failed initial command makes the session connect again at once,
/// without waiting and without lengthening the wait.
pub proof fn lemma_setup_failure_reconnects(s: Session, state: ServerState)
    requires
        s.phase == SessionPhase::SettingFrequency || s.phase == SessionPhase::SettingSampleRate,
    ensures
        session_step(s, state, SessionEvent::CommandFailed) == (
            Session { phase: SessionPhase::Connecting, ..s },
            state,
            Some(SessionAction::Connect),
        ),
{
}

/// The configured frequency and sample rate never change: every new
/// connection gets the same ones.
pub proof fn lemma_configuration_fixed(s: Session, state: ServerState, event: SessionEvent)
    ensures
        session_step(s, state, event).0.frequency == s.frequency,
        session_step(s, state, event).0.sample_rate == s.sample_rate,
{
}

/// The wait changes only in two places: when a wait is over, the next one
/// is twice as long but at most ten seconds; when a connection has been set
/// up, it goes back to one second. Every wait handed out is the current one.
pub proof fn lemma_backoff_changes(s: Session, state: ServerState, event: SessionEvent)
    ensures
        (s.phase == SessionPhase::Waiting && event == SessionEvent::WaitOver) ==> session_step(
            s,
            state,
            event,
        ).0.backoff_secs == (if 2 * s.backoff_secs < 10 {
            2 * s.backoff_secs
        } else {
            10
        }),
        (s.phase == SessionPhase::SettingSampleRate && event == SessionEvent::CommandSent)
            ==> session_step(s, state, event).0.backoff_secs == 1,
        !(s.phase == SessionPhase::Waiting && event == SessionEvent::WaitOver) && !(s.phase
            == SessionPhase::SettingSampleRate && event == SessionEvent::CommandSent)
            ==> session_step(s, state, event).0.backoff_secs == s.backoff_secs,
        session_step(s, state, event).2 matches Some(SessionAction::Wait(d)) ==> d
            == s.backoff_secs,
{
}

/// After a wait of `d` seconds, a reconnection attempt that fails leads to a
/// wait of twice `d`, but at most ten seconds.
pub proof fn lemma_failed_retry_doubles_wait(
    s: Session,
    state: ServerState,
    later: ServerState,
)
    requires
        s.phase == SessionPhase::Waiting,
    ensures
        ({
            let (s1, st1, a1) = session_step(s, state, SessionEvent::WaitOver);
            let (s2, st2, a2) = session_step(s1, later, SessionEvent::ConnectFailed);
            &&& a1 == Some(SessionAction::Connect)
            &&& a2 == Some(
                SessionAction::Wait(
                    if 2 * s.backoff_secs < 10 {
                        (2 * s.backoff_secs) as u64
                    } else {
                        10
                    },
                ),
            )
            &&& st1 == state && st2 == later
        }),
{
}

/// When a proxied connection ends, the next attempt comes after a wait of
/// one second: the wait was reset when that connection was set up.
pub proof fn lemma_wait_after_session_is_initial(
    s: Session,
    state: ServerState,
    header: RtlTcpHeader,
)
    requires
        s.phase == SessionPhase::Connecting,
    ensures
        ({
            let (s1, st1, a1) = session_step(s, state, SessionEvent::Connected(header));
            let (s2, st2, a2) = session_step(s1, st1, SessionEvent::CommandSent);
            let (s3, st3, a3) = session_step(s2, st2, SessionEvent::CommandSent);
            let (s4, st4, a4) = session_step(s3, st3, SessionEvent::ProxyEnded);
            a4 == Some(SessionAction::Wait(1))
        }),
{
}

} // verus!
