use sdr_web::big_endian::{u32_from_be, u32_to_be};

#[test]
fn u32_to_be_matches_std() {
    for &v in &[0u32, 1, 0x1234_5678, 0xFF00_00FF, u32::MAX] {
        assert_eq!(u32_to_be(v), v.to_be_bytes());
    }
}

#[test]
fn u32_from_be_matches_std() {
    assert_eq!(u32_from_be(0x12, 0x34, 0x56, 0x78), 0x1234_5678);
    assert_eq!(u32_from_be(0, 0, 0, 29), 29);
    assert_eq!(u32_from_be(0xFF, 0xFF, 0xFF, 0xFF), u32::MAX);
}

#[test]
fn be_roundtrip() {
    for &v in &[0u32, 5, 29, 90_100_000, u32::MAX] {
        let b = u32_to_be(v);
        assert_eq!(u32_from_be(b[0], b[1], b[2], b[3]), v);
    }
}
