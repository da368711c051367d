//! Checks of the SSDV encoder state machine.

use hab_telemetry::crc32;
use hab_telemetry::ssdv::{encode_callsign, PacketType, Ssdv, SsdvError, State};

/// A minimal baseline JPEG: SOI, SOF0 with 32x16 geometry, SOS, a short
/// entropy-coded run with one stuffed 0xFF, then EOI.
fn sample_jpeg() -> Vec<u8> {
    let mut v = Vec::new();
    v.extend_from_slice(&[0xFF, 0xD8]); // SOI
    v.extend_from_slice(&[0xFF, 0xC0, 0x00, 0x0B]); // SOF0, length 11
    v.extend_from_slice(&[0x08, 0x00, 0x10, 0x00, 0x20, 0x01, 0x11, 0x00, 0x00]);
    v.extend_from_slice(&[0xFF, 0xDA, 0x00, 0x08]); // SOS, length 8
    v.extend_from_slice(&[0x01, 0x01, 0x00, 0x00, 0x3F, 0x00]);
    v.extend_from_slice(&[0x12, 0x34, 0xFF, 0x00, 0x56]); // scan data
    v.extend_from_slice(&[0xFF, 0xD9]); // EOI
    v
}

#[test]
fn callsign_packs_base40() {
    assert_eq!(encode_callsign(b"NOCALL"), 2624922747);
    assert_eq!(encode_callsign(b"N0CALL"), 2624921667);
    assert_eq!(encode_callsign(b"nocall"), 2624922747);
    assert_eq!(encode_callsign(b"      "), 0);
}

#[test]
fn tiny_image_gives_one_final_packet() {
    let mut enc = Ssdv::new(PacketType::NoFEC, b"NOCALL", 1, 4, sample_jpeg());
    let first = enc.next_packet();
    let p = match first {
        Some(Ok(p)) => p,
        _ => panic!("expected one packet"),
    };
    assert_eq!(p.len(), 256);
    assert_eq!(p[0], 0x55);
    assert_eq!(p[1], 0x67); // no-FEC type byte
    let cs = encode_callsign(b"NOCALL");
    assert_eq!(&p[2..6], &cs.to_be_bytes());
    assert_eq!(p[6], 1); // image id
    assert_eq!(&p[7..9], &[0, 0]); // packet id 0
    assert_eq!(p[9], 32 / 16); // width
    assert_eq!(p[10], 16 / 16); // height
    assert_eq!(p[11], 0x08 | 4); // end-of-image flag over quality
    // Scan bytes verbatim, stuffing kept, zero padding after.
    assert_eq!(&p[15..20], &[0x12, 0x34, 0xFF, 0x00, 0x56]);
    assert!(p[20..252].iter().all(|b| *b == 0));
    // Trailing check bytes.
    let crc = crc32::compute(&p[1..252]);
    assert_eq!(&p[252..256], &crc.to_be_bytes());

    // The machine is terminal: the sequence ends here.
    assert!(matches!(enc.state, State::Eoi));
    assert!(enc.next_packet().is_none());
    assert!(enc.next_packet().is_none());
}

#[test]
fn long_scan_splits_into_packets() {
    let mut v = Vec::new();
    v.extend_from_slice(&[0xFF, 0xD8]);
    v.extend_from_slice(&[0xFF, 0xDA, 0x00, 0x08]);
    v.extend_from_slice(&[0x01, 0x01, 0x00, 0x00, 0x3F, 0x00]);
    let scan: Vec<u8> = (0..300u32).map(|i| ((i % 200) + 1) as u8).collect();
    v.extend_from_slice(&scan);
    v.extend_from_slice(&[0xFF, 0xD9]);

    let mut enc = Ssdv::new(PacketType::NoFEC, b"NOCALL", 1, 0, v);
    let p1 = match enc.next_packet() {
        Some(Ok(p)) => p,
        _ => panic!("expected a full packet"),
    };
    assert_eq!(p1[11], 0); // not the last packet
    assert_eq!(&p1[7..9], &[0, 0]);
    assert_eq!(&p1[15..252], &scan[0..237]);
    let p2 = match enc.next_packet() {
        Some(Ok(p)) => p,
        _ => panic!("expected the final packet"),
    };
    assert_eq!(p2[11], 0x08); // end of image
    assert_eq!(&p2[7..9], &[0, 1]);
    assert_eq!(&p2[15..15 + 63], &scan[237..300]);
    assert!(p2[15 + 63..252].iter().all(|b| *b == 0));
    assert!(enc.next_packet().is_none());
}

#[test]
fn progressive_image_fails_then_terminates() {
    let v = vec![0xFF, 0xD8, 0xFF, 0xC2, 0x00, 0x0B];
    let mut enc = Ssdv::new(PacketType::NoFEC, b"NOCALL", 1, 4, v);
    match enc.next_packet() {
        Some(Err(SsdvError::Progressive)) => {},
        _ => panic!("expected the progressive failure"),
    }
    assert!(matches!(enc.state, State::Eoi));
    assert!(enc.next_packet().is_none());
}

#[test]
fn oversized_tables_fail_with_memory() {
    // A DQT segment declaring 766 data bytes outgrows the 562-byte buffer.
    let v = vec![0xFF, 0xD8, 0xFF, 0xDB, 0x03, 0x00];
    let mut enc = Ssdv::new(PacketType::NoFEC, b"NOCALL", 1, 4, v);
    match enc.next_packet() {
        Some(Err(SsdvError::Memory)) => {},
        _ => panic!("expected the memory failure"),
    }
    assert!(enc.next_packet().is_none());
}

#[test]
fn truncated_input_still_terminates() {
    // No EOI marker: the encoder closes the image at the end of input.
    let mut v = Vec::new();
    v.extend_from_slice(&[0xFF, 0xD8]);
    v.extend_from_slice(&[0xFF, 0xDA, 0x00, 0x08]);
    v.extend_from_slice(&[0x01, 0x01, 0x00, 0x00, 0x3F, 0x00]);
    v.extend_from_slice(&[0x0A, 0x0B]);
    let mut enc = Ssdv::new(PacketType::NoFEC, b"NOCALL", 1, 4, v);
    let p = match enc.next_packet() {
        Some(Ok(p)) => p,
        _ => panic!("expected a final packet"),
    };
    assert_eq!(&p[15..17], &[0x0A, 0x0B]);
    assert_eq!(p[11] & 0x08, 0x08);
    assert!(enc.next_packet().is_none());
}

#[test]
fn unknown_segments_are_skipped() {
    // An APP0 segment sits between SOI and the scan; its bytes must not
    // leak into the payload.
    let mut v = Vec::new();
    v.extend_from_slice(&[0xFF, 0xD8]);
    v.extend_from_slice(&[0xFF, 0xE0, 0x00, 0x06, 0x41, 0x42, 0x43, 0x44]); // APP0
    v.extend_from_slice(&[0xFF, 0xDA, 0x00, 0x08]);
    v.extend_from_slice(&[0x01, 0x01, 0x00, 0x00, 0x3F, 0x00]);
    v.extend_from_slice(&[0x77]);
    v.extend_from_slice(&[0xFF, 0xD9]);
    let mut enc = Ssdv::new(PacketType::NoFEC, b"NOCALL", 1, 4, v);
    let p = match enc.next_packet() {
        Some(Ok(p)) => p,
        _ => panic!("expected a packet"),
    };
    assert_eq!(p[15], 0x77);
    assert!(p[16..252].iter().all(|b| *b == 0));
}

#[test]
fn quality_is_clamped() {
    let enc = Ssdv::new(PacketType::NoFEC, b"NOCALL", 1, 12, sample_jpeg());
    assert_eq!(enc.quality, 7);
}
