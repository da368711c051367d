//! Checks of the AX.25 address encoding and whole-frame assembly.

use hab_telemetry::ax25::{encode_address, Dest, Header, Source};
use hab_telemetry::base91;
use hab_telemetry::crc16;
use hab_telemetry::framer::{
    frame_image_chunk, frame_location, write_header, AltimeterReading, FrameError, LocationFix,
    TimeOfDay, FLAG_SIZE,
};

fn test_header() -> Header {
    Header {
        dest: Dest { call_sign: *b"APRS  ", ssid: 0 },
        source: Source { call_sign: *b"N0CALL", ssid: 11 },
    }
}

fn test_fix() -> LocationFix {
    LocationFix {
        latitude_udeg: Some(45_000_000),
        longitude_udeg: Some(-93_000_000),
        time: Some(TimeOfDay { hour: 12, minute: 0, second: 0 }),
        course_speed: None,
    }
}

fn test_reading() -> AltimeterReading {
    AltimeterReading { altitude_mm: 100_000, pressure_pa: 101_325, temperature_cc: 2000 }
}

#[test]
fn address_destination_low_bit_clear() {
    let a = encode_address(b"APRS  ", 0, false);
    assert_eq!(a, [0x82, 0xA0, 0xA4, 0xA6, 0x40, 0x40, 0x60]);
    assert_eq!(a[6] & 1, 0);
}

#[test]
fn address_source_low_bit_set() {
    let a = encode_address(b"N0CALL", 11, true);
    assert_eq!(a, [0x9C, 0x60, 0x86, 0x82, 0x98, 0x98, 0x77]);
    assert_eq!(a[6] & 1, 1);
}

#[test]
fn header_raw_bytes() {
    let h = test_header();
    let b = h.to_bytes();
    assert_eq!(&b[0..6], b"APRS  ");
    assert_eq!(b[6], 0);
    assert_eq!(&b[7..13], b"N0CALL");
    assert_eq!(b[13], 11);
    assert_eq!(b[14], 0x03);
    assert_eq!(b[15], 0xF0);
}

#[test]
fn write_header_layout() {
    let h = test_header();
    let mut buf = Vec::new();
    write_header(&mut buf, &h);
    assert_eq!(buf.len(), FLAG_SIZE + 16);
    for k in 0..FLAG_SIZE {
        assert_eq!(buf[k], 0x7E);
    }
    assert_eq!(&buf[FLAG_SIZE..FLAG_SIZE + 7], &[0x82, 0xA0, 0xA4, 0xA6, 0x40, 0x40, 0x60]);
    assert_eq!(&buf[FLAG_SIZE + 7..FLAG_SIZE + 14], &[0x9C, 0x60, 0x86, 0x82, 0x98, 0x98, 0x77]);
    assert_eq!(buf[FLAG_SIZE + 14], 0x03);
    assert_eq!(buf[FLAG_SIZE + 15], 0xF0);
}

#[test]
fn location_frame_end_to_end() {
    let frame = frame_location(&test_header(), &test_fix(), &test_reading()).unwrap();

    // Flag runs on both ends.
    for k in 0..FLAG_SIZE {
        assert_eq!(frame[k], 0x7E);
        assert_eq!(frame[frame.len() - 1 - k], 0x7E);
    }

    // The address fields decode back to both callsigns and SSIDs.
    let body = &frame[FLAG_SIZE..frame.len() - FLAG_SIZE - 2];
    let dest: Vec<u8> = body[0..6].iter().map(|b| b >> 1).collect();
    assert_eq!(&dest, b"APRS  ");
    assert_eq!((body[6] >> 1) - b'0', 0);
    assert_eq!(body[6] & 1, 0);
    let src: Vec<u8> = body[7..13].iter().map(|b| b >> 1).collect();
    assert_eq!(&src, b"N0CALL");
    assert_eq!((body[13] >> 1) - b'0', 11);
    assert_eq!(body[13] & 1, 1);
    assert_eq!(body[14], 0x03);
    assert_eq!(body[15], 0xF0);

    // The payload text, field by field.
    let payload = &body[16..];
    assert_eq!(payload, b"/120000h4500.00N/09300.00WO /A=000328/Pa=101325/Ti=20.00");

    // The two bytes before the closing flags are the CRC of the body.
    let reg = crc16::fold(crc16::CRC_INIT, body);
    let (lo, hi) = crc16::finalize(reg);
    assert_eq!(frame[frame.len() - FLAG_SIZE - 2], lo);
    assert_eq!(frame[frame.len() - FLAG_SIZE - 1], hi);
}

#[test]
fn location_frame_with_course_and_speed() {
    let mut fix = test_fix();
    fix.course_speed = Some(hab_telemetry::framer::CourseSpeed { course: 74, speed: 8 });
    let frame = frame_location(&test_header(), &fix, &test_reading()).unwrap();
    let body = &frame[FLAG_SIZE..frame.len() - FLAG_SIZE - 2];
    let payload = &body[16..];
    assert_eq!(payload, b"/120000h4500.00N/09300.00WO 074/008/A=000328/Pa=101325/Ti=20.00");
}

#[test]
fn location_frame_negative_temperature() {
    let mut reading = test_reading();
    reading.temperature_cc = -525;
    let frame = frame_location(&test_header(), &test_fix(), &reading).unwrap();
    let body = &frame[FLAG_SIZE..frame.len() - FLAG_SIZE - 2];
    assert!(body.ends_with(b"/Ti=-5.25"));
}

#[test]
fn location_frame_missing_fix() {
    let mut fix = test_fix();
    fix.time = None;
    assert_eq!(
        frame_location(&test_header(), &fix, &test_reading()),
        Err(FrameError::MissingFix)
    );
    let mut fix2 = test_fix();
    fix2.latitude_udeg = None;
    assert_eq!(
        frame_location(&test_header(), &fix2, &test_reading()),
        Err(FrameError::MissingFix)
    );
}

#[test]
fn image_chunk_halves() {
    let packet: Vec<u8> = (0..256u32).map(|i| (i * 7 % 251) as u8).collect();
    let first = frame_image_chunk(&test_header(), &packet, false);
    let second = frame_image_chunk(&test_header(), &packet, true);
    assert_ne!(first, second);

    for (frame, lo, hi) in [(&first, 15usize, 15 + 237 / 2), (&second, 15 + 237 / 2, 252)] {
        let body = &frame[FLAG_SIZE..frame.len() - FLAG_SIZE - 2];
        // Header, then the tag and the SSDV packet header verbatim.
        assert_eq!(&body[16..19], b"{{I");
        assert_eq!(&body[19..34], &packet[0..15]);
        // Then the Base-91 encoding of the selected half.
        let encoded = base91::encode(&packet[lo..hi]);
        assert_eq!(&body[34..], &encoded[..]);
        // And the CRC over the body.
        let (clo, chi) = crc16::finalize(crc16::fold(crc16::CRC_INIT, body));
        assert_eq!(frame[frame.len() - FLAG_SIZE - 2], clo);
        assert_eq!(frame[frame.len() - FLAG_SIZE - 1], chi);
    }
}

#[test]
fn location_frame_south_east_hemispheres() {
    let fix = LocationFix {
        latitude_udeg: Some(-12_500_000),
        longitude_udeg: Some(45_250_000),
        time: Some(TimeOfDay { hour: 6, minute: 15, second: 30 }),
        course_speed: None,
    };
    let frame = frame_location(&test_header(), &fix, &test_reading()).unwrap();
    let body = &frame[FLAG_SIZE..frame.len() - FLAG_SIZE - 2];
    let payload = &body[16..];
    assert!(payload.starts_with(b"/061530h1230.00S/04515.00E"));
}

#[test]
fn location_frame_minutes_round_to_hundredths() {
    // 44.999999 degrees is 59.99994 minutes, which rounds to 60.00.
    let fix = LocationFix {
        latitude_udeg: Some(44_999_999),
        longitude_udeg: Some(0),
        time: Some(TimeOfDay { hour: 0, minute: 0, second: 0 }),
        course_speed: None,
    };
    let frame = frame_location(&test_header(), &fix, &test_reading()).unwrap();
    let body = &frame[FLAG_SIZE..frame.len() - FLAG_SIZE - 2];
    let payload = &body[16..];
    assert!(payload.starts_with(b"/000000h4460.00N/00000.00E"));
}

#[test]
fn location_frame_negative_altitude_reads_zero_feet() {
    let mut reading = test_reading();
    reading.altitude_mm = -2_500;
    let frame = frame_location(&test_header(), &test_fix(), &reading).unwrap();
    let body = &frame[FLAG_SIZE..frame.len() - FLAG_SIZE - 2];
    let text = String::from_utf8_lossy(&body[16..]).to_string();
    assert!(text.contains("/A=000000"));
}

#[test]
fn padded_decimal_fields() {
    let mut buf = Vec::new();
    hab_telemetry::textfmt::push_dec_padded(&mut buf, 42, 6);
    assert_eq!(buf, b"000042");
    buf.clear();
    hab_telemetry::textfmt::push_dec_padded(&mut buf, 1234567, 6);
    assert_eq!(buf, b"1234567");
    buf.clear();
    hab_telemetry::textfmt::push_centi(&mut buf, -525);
    assert_eq!(buf, b"-5.25");
    buf.clear();
    hab_telemetry::textfmt::push_centi(&mut buf, 5);
    assert_eq!(buf, b"0.05");
}
