use vstd::prelude::*;

verus! {

/// Message type tag for raw IQ data.
pub const MSG_RAW_IQ: u8 = 0x01;

/// Message type tag for status information (JSON).
pub const MSG_STATUS: u8 = 0x03;

#[verifier::external_type_specification]
#[verifier::external_body]
pub struct ExJsonValue(serde_json::Value);

#[verifier::external_type_specification]
#[verifier::external_body]
pub struct ExJsonError(serde_json::Error);

/// What `serde_json::to_vec` gives for a JSON value: its bytes, or `None`
/// where it returns an error. It depends on the value alone.
pub uninterp spec fn json_vec(value: serde_json::Value) -> Option<Seq<u8>>;

/// Serializes a JSON value with `serde_json::to_vec`.
///
/// The contract claims only that the result is a function of the value: the
/// bytes, or the fact of an error, are what `json_vec` names for it. What
/// those bytes are is serde_json's JSON text, which is not restated here.
#[verifier::external_body]
fn json_value_to_vec(value: &serde_json::Value) -> (r: Result<Vec<u8>, serde_json::Error>)
    ensures
        r is Ok <==> json_vec(*value) is Some,
        r matches Ok(b) ==> json_vec(*value) == Some(b@),
{
    serde_json::to_vec(value)
}

/// The payload of a status frame: the JSON bytes of the value, or nothing
/// where it cannot be serialized.
pub open spec fn status_payload(status: serde_json::Value) -> Seq<u8> {
    match json_vec(status) {
        Some(b) => b,
        None => Seq::empty(),
    }
}

/// A binary WebSocket frame: the one-byte type tag, then the payload.
pub open spec fn framed(tag: u8, payload: Seq<u8>) -> Seq<u8> {
    seq![tag] + payload
}

/// Build a binary frame from a type tag and a payload.
pub fn frame_message(tag: u8, payload: &[u8]) -> (frame: Vec<u8>)
    ensures
        frame@ == framed(tag, payload@),
{
    let mut frame: Vec<u8> = Vec::new();
    frame.push(tag);
    let mut i: usize = 0;
    while i < payload.len()
        invariant
            i <= payload.len(),
            frame@ == framed(tag, payload@.subrange(0, i as int)),
        decreases payload.len() - i,
    {
        frame.push(payload[i]);
        i += 1;
        assert(frame@ =~= framed(tag, payload@.subrange(0, i as int)));
    }
    assert(payload@.subrange(0, payload.len() as int) =~= payload@);
    frame
}

/// The frame to broadcast after a read of `n` bytes into `buf` from the
/// rtl_tcp connection, or `None` when the read returned nothing, which
/// means that the server closed the connection.
pub fn iq_frame(buf: &[u8], n: usize) -> (r: Option<Vec<u8>>)
    requires
        n <= buf.len(),
    ensures
        n == 0 <==> r is None,
        r matches Some(frame) ==> frame@ == framed(MSG_RAW_IQ, buf@.subrange(0, n as int)),
{
    if n == 0 {
        None
    } else {
        let frame = frame_message(MSG_RAW_IQ, vstd::slice::slice_subrange(buf, 0, n));
        Some(frame)
    }
}

/// Encode a status frame with type tag and JSON payload.
///
/// Output: [0x03, json_bytes...]; the payload is empty if the value could
/// not be serialized.
pub fn encode_status_frame(status: &serde_json::Value) -> (frame: Vec<u8>)
    ensures
        frame@ == framed(MSG_STATUS, status_payload(*status)),
        json_vec(*status) matches Some(b) ==> frame@ == seq![MSG_STATUS] + b,
        json_vec(*status) is None ==> frame@ == seq![MSG_STATUS],
{
    let json = match json_value_to_vec(status) {
        Ok(bytes) => bytes,
        Err(_) => Vec::new(),
    };
    frame_message(MSG_STATUS, json.as_slice())
}

/// The parameters of a control message that the command handler reads:
/// `params.value` as an unsigned integer and `params.enabled` as a boolean,
/// each `None` where it is absent or of another JSON type.
#[derive(Clone, Copy, Debug, PartialEq, Eq, Structural)]
pub struct ControlParams {
    pub value: Option<u64>,
    pub enabled: Option<bool>,
}

/// Control message received from browser clients via WebSocket text frames.
#[derive(Clone, Debug)]
pub struct ControlMessage {
    pub command: String,
    pub params: ControlParams,
}

/// Whenever serde_json serializes the value, the status payload is all of
/// its bytes, whatever their number; otherwise it is empty.
pub proof fn lemma_status_payload_is_json(status: serde_json::Value)
    ensures
        json_vec(status) matches Some(b) ==> status_payload(status) == b,
        json_vec(status) is None ==> status_payload(status).len() == 0,
{
}

/// A frame opens with its tag and carries every payload byte after it, in
/// order.
pub proof fn lemma_frame_layout(tag: u8, payload: Seq<u8>)
    ensures
        framed(tag, payload).len() == payload.len() + 1,
        framed(tag, payload)[0] == tag,
        framed(tag, payload).subrange(1, payload.len() + 1 as int) == payload,
{
    assert(framed(tag, payload).subrange(1, payload.len() + 1 as int) =~= payload);
}

} // verus!
