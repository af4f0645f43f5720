use sdr_web::commands::{
    encode_command, RtlCommand, SET_AGC_MODE, SET_FREQUENCY, SET_GAIN, SET_GAIN_MODE,
    SET_SAMPLE_RATE,
};

#[test]
fn test_encode_set_frequency() {
    // 90.1 MHz = 90_100_000 Hz = 0x055_E44A0
    let cmd = encode_command(SET_FREQUENCY, 90_100_000);
    assert_eq!(cmd[0], 0x01);
    assert_eq!(&cmd[1..], &90_100_000_u32.to_be_bytes());
}

#[test]
fn test_encode_set_sample_rate() {
    let cmd = encode_command(SET_SAMPLE_RATE, 2_048_000);
    assert_eq!(cmd[0], 0x02);
    assert_eq!(&cmd[1..], &2_048_000_u32.to_be_bytes());
}

#[test]
fn test_encode_set_gain_mode_auto() {
    let cmd = encode_command(SET_GAIN_MODE, 0);
    assert_eq!(cmd[0], 0x03);
    assert_eq!(&cmd[1..], &[0, 0, 0, 0]);
}

#[test]
fn test_encode_set_gain_mode_manual() {
    let cmd = encode_command(SET_GAIN_MODE, 1);
    assert_eq!(cmd[0], 0x03);
    assert_eq!(&cmd[1..], &[0, 0, 0, 1]);
}

#[test]
fn test_encode_set_gain() {
    // 40.0 dB = 400 tenths
    let cmd = encode_command(SET_GAIN, 400);
    assert_eq!(cmd[0], 0x04);
    assert_eq!(&cmd[1..], &400_u32.to_be_bytes());
}

#[test]
fn test_encode_set_agc_mode() {
    let cmd = encode_command(SET_AGC_MODE, 1);
    assert_eq!(cmd[0], 0x08);
    assert_eq!(&cmd[1..], &[0, 0, 0, 1]);
}

#[test]
fn test_encode_zero_param() {
    let cmd = encode_command(0xFF, 0);
    assert_eq!(cmd, [0xFF, 0, 0, 0, 0]);
}

#[test]
fn test_encode_max_param() {
    let cmd = encode_command(0x01, u32::MAX);
    assert_eq!(cmd, [0x01, 0xFF, 0xFF, 0xFF, 0xFF]);
}

#[test]
fn encode_known_frequency_bytes() {
    // 90_100_000 = 0x055E_D120
    let cmd = encode_command(SET_FREQUENCY, 90_100_000);
    assert_eq!(cmd, [0x01, 0x05, 0x5E, 0xD1, 0x20]);
}

#[test]
fn encode_param_byte_order() {
    let cmd = encode_command(SET_GAIN, 0x0102_0304);
    assert_eq!(cmd, [0x04, 0x01, 0x02, 0x03, 0x04]);
}

#[test]
fn rtl_command_encode_matches_encode_command() {
    let c = RtlCommand { opcode: SET_SAMPLE_RATE, param: 2_048_000 };
    assert_eq!(c.encode(), encode_command(SET_SAMPLE_RATE, 2_048_000));
    assert_eq!(c.encode(), [0x02, 0x00, 0x1F, 0x40, 0x00]);
}

#[test]
fn encoded_param_decodes_back() {
    for &p in &[0u32, 1, 255, 256, 65_535, 90_100_000, u32::MAX] {
        let cmd = encode_command(SET_FREQUENCY, p);
        assert_eq!(u32::from_be_bytes([cmd[1], cmd[2], cmd[3], cmd[4]]), p);
    }
}
