use vstd::prelude::*;

use crate::big_endian::{be_bytes, be_value, lemma_be_bytes_of_value, lemma_be_value_of_bytes, u32_from_be};

verus! {

/// Length of the header an rtl_tcp server sends when a client connects.
pub const HEADER_LEN: usize = 12;

/// The magic that opens the header: the ASCII bytes of "RTL0".
pub open spec fn magic() -> Seq<u8> {
    seq![0x52u8, 0x54u8, 0x4cu8, 0x30u8]
}

/// The twelve header bytes a server sends for the given tuner type and
/// gain count: the magic, then both numbers in big-endian order.
pub open spec fn header_bytes(tuner_type: u32, gain_count: u32) -> Seq<u8> {
    magic() + be_bytes(tuner_type) + be_bytes(gain_count)
}

/// Header sent by rtl_tcp server on initial connection.
#[derive(Clone, Copy, Debug, PartialEq, Eq, Structural)]
pub struct RtlTcpHeader {
    pub tuner_type: u32,
    pub gain_count: u32,
}

/// Why a header was refused.
#[derive(Clone, Copy, Debug, PartialEq, Eq, Structural)]
pub enum HeaderError {
    /// The first four bytes were not "RTL0"; they are given here.
    InvalidMagic(u8, u8, u8, u8),
}

/// The header that twelve bytes stand for, or `None` where they do not open
/// with the magic.
pub open spec fn header_of(b: Seq<u8>) -> Option<RtlTcpHeader> {
    if b.subrange(0, 4) == magic() {
        Some(RtlTcpHeader {
            tuner_type: be_value(b[4], b[5], b[6], b[7]) as u32,
            gain_count: be_value(b[8], b[9], b[10], b[11]) as u32,
        })
    } else {
        None
    }
}

impl RtlTcpHeader {
    /// Validate and decode the 12-byte header read from an rtl_tcp server.
    pub fn parse(buf: &[u8; 12]) -> (r: Result<RtlTcpHeader, HeaderError>)
        ensures
            r is Ok <==> header_of(buf@) is Some,
            r matches Ok(h) ==> Some(h) == header_of(buf@),
            r matches Err(HeaderError::InvalidMagic(m0, m1, m2, m3)) ==> seq![m0, m1, m2, m3]
                == buf@.subrange(0, 4),
    {
        proof {
            lemma_be_bytes_of_value(buf[4], buf[5], buf[6], buf[7]);
            lemma_be_bytes_of_value(buf[8], buf[9], buf[10], buf[11]);
        }
        if buf[0] == 0x52 && buf[1] == 0x54 && buf[2] == 0x4c && buf[3] == 0x30 {
            assert(buf@.subrange(0, 4) =~= magic());
            let tuner_type = u32_from_be(buf[4], buf[5], buf[6], buf[7]);
            let gain_count = u32_from_be(buf[8], buf[9], buf[10], buf[11]);
            Ok(RtlTcpHeader { tuner_type, gain_count })
        } else {
            assert(buf@.subrange(0, 4) != magic()) by {
                if buf@.subrange(0, 4) == magic() {
                    assert(buf@.subrange(0, 4)[0] == buf[0]);
                    assert(buf@.subrange(0, 4)[1] == buf[1]);
                    assert(buf@.subrange(0, 4)[2] == buf[2]);
                    assert(buf@.subrange(0, 4)[3] == buf[3]);
                }
            }
            let err = HeaderError::InvalidMagic(buf[0], buf[1], buf[2], buf[3]);
            assert(seq![buf[0], buf[1], buf[2], buf[3]] =~= buf@.subrange(0, 4));
            Err(err)
        }
    }
}

/// The header a server sends for a tuner is read back as that tuner.
pub proof fn lemma_header_roundtrip(tuner_type: u32, gain_count: u32)
    ensures
        header_bytes(tuner_type, gain_count).len() == HEADER_LEN,
        header_of(header_bytes(tuner_type, gain_count)) == Some(
            RtlTcpHeader { tuner_type, gain_count },
        ),
{
    let b = header_bytes(tuner_type, gain_count);
    lemma_be_value_of_bytes(tuner_type);
    lemma_be_value_of_bytes(gain_count);
    assert(b.subrange(0, 4) =~= magic());
}

/// Every twelve bytes that are accepted are exactly the bytes a server sends
/// for the header they are read as.
pub proof fn lemma_accepted_header_is_canonical(b: Seq<u8>)
    requires
        b.len() == HEADER_LEN,
        header_of(b) is Some,
    ensures
        b == header_bytes(header_of(b)->0.tuner_type, header_of(b)->0.gain_count),
{
    lemma_be_bytes_of_value(b[4], b[5], b[6], b[7]);
    lemma_be_bytes_of_value(b[8], b[9], b[10], b[11]);
    let h = header_of(b)->0;
    assert(b.subrange(0, 4) == magic());
    assert forall|i: int| 0 <= i < 4 implies b[i] == magic()[i] by {
        assert(b.subrange(0, 4)[i] == b[i]);
    }
    assert(b =~= header_bytes(h.tuner_type, h.gain_count));
}

} // verus!
