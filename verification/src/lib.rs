//! Verified core of a browser-based software defined radio backend:
//! the rtl_tcp wire protocol, the WebSocket framing, the control-command
//! state machine and the index arithmetic of the streaming DSP blocks.

pub mod big_endian;
pub mod commands;
pub mod header;
pub mod protocol;
pub mod state;
pub mod control;
pub mod session;
pub mod dsp;
