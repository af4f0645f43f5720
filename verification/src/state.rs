use vstd::prelude::*;

use crate::header::RtlTcpHeader;

verus! {

/// Shared server state tracking current SDR configuration.
///
/// The server keeps it behind a lock so that the WebSocket side can read it
/// while the command handler and the connection loop update it.
#[derive(Clone, Copy, Debug, PartialEq, Eq, Structural)]
pub struct ServerState {
    pub frequency: u32,
    pub sample_rate: u32,
    pub tuner_type: u32,
    pub gain_count: u32,
}

/// The state once a server has answered with `header` and the configured
/// frequency and sample rate are being set again.
pub open spec fn connected_state(
    header: RtlTcpHeader,
    frequency: u32,
    sample_rate: u32,
) -> ServerState {
    ServerState {
        frequency,
        sample_rate,
        tuner_type: header.tuner_type,
        gain_count: header.gain_count,
    }
}

impl ServerState {
    pub fn new(frequency: u32, sample_rate: u32) -> (s: Self)
        ensures
            s == (ServerState { frequency, sample_rate, tuner_type: 0, gain_count: 0 }),
    {
        Self { frequency, sample_rate, tuner_type: 0, gain_count: 0 }
    }

    /// Record the tuner a server reported, with the frequency and sample
    /// rate that are about to be sent to it.
    pub fn record_connection(&mut self, header: &RtlTcpHeader, frequency: u32, sample_rate: u32)
        ensures
            *final(self) == connected_state(*header, frequency, sample_rate),
            final(self).frequency == frequency,
            final(self).sample_rate == sample_rate,
            final(self).tuner_type == header.tuner_type,
            final(self).gain_count == header.gain_count,
    {
        self.tuner_type = header.tuner_type;
        self.gain_count = header.gain_count;
        self.frequency = frequency;
        self.sample_rate = sample_rate;
    }
}

} // verus!
