use vstd::prelude::*;

use crate::big_endian::{be_bytes, be_value, lemma_be_value_of_bytes, u32_to_be};

verus! {

/// SET_FREQUENCY command opcode (parameter: frequency in Hz)
pub const SET_FREQUENCY: u8 = 0x01;

/// SET_SAMPLE_RATE command opcode (parameter: sample rate in Hz)
pub const SET_SAMPLE_RATE: u8 = 0x02;

/// SET_GAIN_MODE command opcode (parameter: 0=auto, 1=manual)
pub const SET_GAIN_MODE: u8 = 0x03;

/// SET_GAIN command opcode (parameter: gain in tenths of dB)
pub const SET_GAIN: u8 = 0x04;

/// SET_AGC_MODE command opcode (parameter: 0=off, 1=on)
pub const SET_AGC_MODE: u8 = 0x08;

/// The five bytes of an rtl_tcp command: the opcode, then the parameter
/// in big-endian order.
pub open spec fn command_bytes(opcode: u8, param: u32) -> Seq<u8> {
    seq![opcode] + be_bytes(param)
}

/// Encode an rtl_tcp command as a 5-byte array.
///
/// Format: 1-byte opcode followed by 4-byte big-endian parameter.
pub fn encode_command(opcode: u8, param: u32) -> (cmd: [u8; 5])
    ensures
        cmd@ == command_bytes(opcode, param),
{
    let p = u32_to_be(param);
    let cmd = [opcode, p[0], p[1], p[2], p[3]];
    assert(cmd@ =~= command_bytes(opcode, param));
    cmd
}

/// One rtl_tcp command: an opcode and its 32-bit parameter.
#[derive(Clone, Copy, Debug, PartialEq, Eq, Structural)]
pub struct RtlCommand {
    pub opcode: u8,
    pub param: u32,
}

impl RtlCommand {
    /// The command's five bytes on the wire.
    pub fn encode(&self) -> (cmd: [u8; 5])
        ensures
            cmd@ == command_bytes(self.opcode, self.param),
    {
        encode_command(self.opcode, self.param)
    }
}

/// A receiver reading an encoded command recovers the opcode from the first
/// byte and the parameter from the four that follow.
pub proof fn lemma_command_decodes(opcode: u8, param: u32)
    ensures
        command_bytes(opcode, param).len() == 5,
        command_bytes(opcode, param)[0] == opcode,
        be_value(
            command_bytes(opcode, param)[1],
            command_bytes(opcode, param)[2],
            command_bytes(opcode, param)[3],
            command_bytes(opcode, param)[4],
        ) == param,
{
    lemma_be_value_of_bytes(param);
}

/// Two commands with the same bytes are the same command.
pub proof fn lemma_command_bytes_injective(op1: u8, p1: u32, op2: u8, p2: u32)
    requires
        command_bytes(op1, p1) == command_bytes(op2, p2),
    ensures
        op1 == op2,
        p1 == p2,
{
    lemma_command_decodes(op1, p1);
    lemma_command_decodes(op2, p2);
}

} // verus!
