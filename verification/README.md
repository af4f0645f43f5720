# sdr_web

The verified core of a browser-based software defined radio: a backend
connects to an `rtl_tcp` server and relays raw IQ samples to browsers over
WebSocket, and the browsers run the DSP.

- `src/` is the library, verified with Verus:
  - `big_endian`, `commands`, `header`: the rtl_tcp wire format (5-byte
    commands, the 12-byte server header) with round-trip laws;
  - `protocol`: the binary WebSocket frames (type tag + payload) and the
    plain form of browser control messages;
  - `state`: the server state shared between the connection loop, the
    command handler and the WebSocket side;
  - `control`: the state machine that turns control messages into rtl_tcp
    commands and records what went through;
  - `session`: the reconnection loop's decisions (initial commands,
    exponential backoff);
  - `dsp`: the sample bookkeeping of the DSP blocks (FIR delay line,
    decimation, FFT shift), generic over the sample type.
- `app/` is the executable around it: networking with tokio and
  tokio-tungstenite, JSON with serde, and the floating-point DSP.
- `tests/` exercises the library.
