use sdr_web::protocol::{encode_status_frame, frame_message, iq_frame, MSG_RAW_IQ, MSG_STATUS};

#[test]
fn test_encode_status_frame() {
    let mut map = serde_json::Map::new();
    map.insert("tuner".to_string(), serde_json::Value::String("R820T".to_string()));
    map.insert("frequency".to_string(), serde_json::Value::from(90100000));
    let status = serde_json::Value::Object(map);
    let frame = encode_status_frame(&status);
    assert_eq!(frame[0], MSG_STATUS);

    let json_str = std::str::from_utf8(&frame[1..]).unwrap();
    let parsed: serde_json::Value = serde_json::from_str(json_str).unwrap();
    assert_eq!(parsed["tuner"], "R820T");
    assert_eq!(parsed["frequency"], 90100000);
}

#[test]
fn status_frame_payload_is_the_json() {
    let status = serde_json::Value::Bool(true);
    assert_eq!(encode_status_frame(&status), vec![MSG_STATUS, b't', b'r', b'u', b'e']);
}

#[test]
fn frame_message_prepends_tag() {
    assert_eq!(frame_message(7, &[1, 2, 3]), vec![7, 1, 2, 3]);
    assert_eq!(frame_message(MSG_STATUS, &[]), vec![MSG_STATUS]);
}

#[test]
fn iq_frame_takes_only_the_bytes_read() {
    let buf = [0u8, 255, 128, 128, 127, 128, 9, 9];
    assert_eq!(iq_frame(&buf, 6), Some(vec![MSG_RAW_IQ, 0, 255, 128, 128, 127, 128]));
}

#[test]
fn iq_frame_zero_read_means_closed() {
    let buf = [1u8, 2, 3];
    assert_eq!(iq_frame(&buf, 0), None);
}

#[test]
fn iq_frame_full_buffer() {
    let buf = [4u8; 16];
    let frame = iq_frame(&buf, 16).unwrap();
    assert_eq!(frame.len(), 17);
    assert_eq!(frame[0], 0x01);
    assert!(frame[1..].iter().all(|&b| b == 4));
}
