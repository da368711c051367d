//! Checks of the checksum and Base-91 building blocks.

use hab_telemetry::base91;
use hab_telemetry::crc16;
use hab_telemetry::crc32;

#[test]
fn crc16_known_value() {
    // CRC-16/X-25 of "123456789": register 0x6F91, check bytes 0x6E 0x90.
    let reg = crc16::fold(crc16::CRC_INIT, b"123456789");
    assert_eq!(reg, 0x6F91);
    let (lo, hi) = crc16::finalize(reg);
    assert_eq!(lo, 0x6E);
    assert_eq!(hi, 0x90);
}

#[test]
fn crc16_deterministic() {
    let a = crc16::fold(crc16::CRC_INIT, &[1, 2, 3, 250, 0, 77]);
    let b = crc16::fold(crc16::CRC_INIT, &[1, 2, 3, 250, 0, 77]);
    assert_eq!(a, b);
    assert_eq!(crc16::finalize(a), crc16::finalize(b));
}

#[test]
fn crc16_empty_input_is_seed() {
    assert_eq!(crc16::fold(crc16::CRC_INIT, &[]), 0xFFFF);
}

#[test]
fn crc32_known_value() {
    assert_eq!(crc32::compute(b"123456789"), 0xCBF43926);
}

#[test]
fn base91_empty_is_single_33() {
    assert_eq!(base91::encode(&[]), vec![33u8]);
}

#[test]
fn base91_single_small_byte() {
    assert_eq!(base91::encode(&[0]), vec![33u8]);
    assert_eq!(base91::encode(&[90]), vec![123u8]);
    assert_eq!(base91::encode(&[57]), vec![90u8]);
}

#[test]
fn base91_known_values() {
    // 0xFFFF little-endian = 65535 = 7*91*91 + 83*91 + 15.
    assert_eq!(base91::encode(&[255, 255]), vec![40u8, 116, 48]);
    // [1,2,3] little-endian = 197121.
    assert_eq!(base91::encode(&[1, 2, 3]), vec![56u8, 106, 48]);
}

#[test]
fn base91_digits_stay_printable() {
    let data: Vec<u8> = (0..=255u8).map(|b| b.wrapping_mul(37)).collect();
    let out = base91::encode(&data);
    assert!(!out.is_empty());
    for b in out {
        assert!((33..=123).contains(&b));
    }
}

#[test]
fn base91_trailing_zero_bytes_do_not_change_the_value() {
    // The buffer is read as a little-endian integer, so high zero bytes
    // vanish: [90, 0, 0] is the integer 90.
    assert_eq!(base91::encode(&[90, 0, 0]), vec![123u8]);
    assert_eq!(base91::encode(&[1, 2, 3, 0]), base91::encode(&[1, 2, 3]));
}
