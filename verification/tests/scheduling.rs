//! Scenario checks of the transmission scheduler.

use hab_telemetry::ax25::{Dest, Header, Source};
use hab_telemetry::framer::{AltimeterReading, LocationFix, TimeOfDay};
use hab_telemetry::scheduler::{Action, Event, Scheduler, MAX_RETRIES};

fn station_header() -> Header {
    Header {
        dest: Dest { call_sign: *b"APRS  ", ssid: 0 },
        source: Source { call_sign: *b"N0CALL", ssid: 11 },
    }
}

fn usable_fix() -> LocationFix {
    LocationFix {
        latitude_udeg: Some(45_000_000),
        longitude_udeg: Some(-93_000_000),
        time: Some(TimeOfDay { hour: 12, minute: 0, second: 0 }),
        course_speed: None,
    }
}

fn usable_reading() -> AltimeterReading {
    AltimeterReading { altitude_mm: 100_000, pressure_pa: 101_325, temperature_cc: 2000 }
}

fn capture_jpeg() -> Vec<u8> {
    let mut v = Vec::new();
    v.extend_from_slice(&[0xFF, 0xD8]);
    v.extend_from_slice(&[0xFF, 0xC0, 0x00, 0x0B]);
    v.extend_from_slice(&[0x08, 0x00, 0x10, 0x00, 0x20, 0x01, 0x11, 0x00, 0x00]);
    v.extend_from_slice(&[0xFF, 0xDA, 0x00, 0x08]);
    v.extend_from_slice(&[0x01, 0x01, 0x00, 0x00, 0x3F, 0x00]);
    v.extend_from_slice(&[0x12, 0x34, 0xFF, 0x00, 0x56]);
    v.extend_from_slice(&[0xFF, 0xD9]);
    v
}

#[test]
fn location_tick_happy_path() {
    let mut s = Scheduler::new(station_header(), 1, 4);
    assert!(matches!(s.step(Event::Start), Action::ReadSensors));
    let a = s.step(Event::Sensors { fix: Some(usable_fix()), alt: Some(usable_reading()) });
    let frame = match a {
        Action::TransmitLocation(f) => f,
        _ => panic!("expected a location frame"),
    };
    assert!(frame.len() > 40);
    assert!(matches!(s.step(Event::TransmitResult { ok: true }), Action::ReadAltitude));
    assert!(matches!(
        s.step(Event::Altitude { altitude_mm: Some(5_000_000) }),
        Action::EndTick
    ));
    assert_eq!(s.packet_num, 1);
}

#[test]
fn retry_budget_exhausts_after_max_retries() {
    let mut s = Scheduler::new(station_header(), 1, 4);
    assert!(matches!(s.step(Event::Start), Action::ReadSensors));
    let mut transmits = 0usize;
    let mut ev = Event::Sensors { fix: Some(usable_fix()), alt: Some(usable_reading()) };
    loop {
        match s.step(ev) {
            Action::TransmitLocation(_) => {
                transmits += 1;
                ev = Event::TransmitResult { ok: false };
            },
            Action::ReadSensors => {
                ev = Event::Sensors { fix: Some(usable_fix()), alt: Some(usable_reading()) };
            },
            Action::ReadAltitude => break,
            _ => panic!("unexpected action in a failing location tick"),
        }
        assert!(transmits <= MAX_RETRIES);
    }
    // The transmission was attempted exactly MAX_RETRIES times, then the
    // tick gave up without a frame delivered.
    assert_eq!(transmits, MAX_RETRIES);
}

#[test]
fn unusable_sensor_reads_count_against_the_budget() {
    let mut s = Scheduler::new(station_header(), 1, 4);
    assert!(matches!(s.step(Event::Start), Action::ReadSensors));
    let mut reads = 1usize;
    loop {
        match s.step(Event::Sensors { fix: None, alt: None }) {
            Action::ReadSensors => {
                reads += 1;
            },
            Action::ReadAltitude => break,
            _ => panic!("unexpected action"),
        }
    }
    assert_eq!(reads, MAX_RETRIES);
}

#[test]
fn altitude_trigger_starts_exactly_one_capture() {
    let mut s = Scheduler::new(station_header(), 1, 4);

    // Tick below the trigger: no capture.
    assert!(matches!(s.step(Event::Start), Action::ReadSensors));
    assert!(matches!(
        s.step(Event::Sensors { fix: Some(usable_fix()), alt: Some(usable_reading()) }),
        Action::TransmitLocation(_)
    ));
    assert!(matches!(s.step(Event::TransmitResult { ok: true }), Action::ReadAltitude));
    assert!(matches!(
        s.step(Event::Altitude { altitude_mm: Some(19_999_999) }),
        Action::EndTick
    ));
    assert!(!s.transmitting_image);

    // Tick crossing the trigger: one capture starts.
    assert!(matches!(s.step(Event::Start), Action::ReadSensors));
    assert!(matches!(
        s.step(Event::Sensors { fix: Some(usable_fix()), alt: Some(usable_reading()) }),
        Action::TransmitLocation(_)
    ));
    assert!(matches!(s.step(Event::TransmitResult { ok: true }), Action::ReadAltitude));
    assert!(matches!(
        s.step(Event::Altitude { altitude_mm: Some(25_000_000) }),
        Action::CaptureImage
    ));
    assert!(matches!(s.step(Event::Capture { image: Some(capture_jpeg()) }), Action::EndTick));
    assert!(s.transmitting_image);

    // While the image is active the scheduler never asks for the
    // altitude, so no second capture can start, however high the
    // balloon drifts.
    let a = s.step(Event::Start);
    let first_half = match a {
        Action::TransmitImage(f) => f,
        _ => panic!("expected the first image half-frame"),
    };
    assert!(matches!(s.step(Event::TransmitResult { ok: true }), Action::EndTick));

    let a = s.step(Event::Start);
    let second_half = match a {
        Action::TransmitImage(f) => f,
        _ => panic!("expected the second image half-frame"),
    };
    assert_ne!(first_half, second_half);
    assert!(matches!(s.step(Event::TransmitResult { ok: true }), Action::EndTick));

    // The tiny image had one packet: the next even cycle finds the
    // encoder finished and location reporting resumes.
    assert!(matches!(s.step(Event::Start), Action::ReadSensors));
    assert!(!s.transmitting_image);
}

#[test]
fn failed_capture_retries_then_gives_up() {
    let mut s = Scheduler::new(station_header(), 1, 4);
    assert!(matches!(s.step(Event::Start), Action::ReadSensors));
    assert!(matches!(
        s.step(Event::Sensors { fix: Some(usable_fix()), alt: Some(usable_reading()) }),
        Action::TransmitLocation(_)
    ));
    assert!(matches!(s.step(Event::TransmitResult { ok: true }), Action::ReadAltitude));
    let mut captures = 1usize;
    assert!(matches!(
        s.step(Event::Altitude { altitude_mm: Some(25_000_000) }),
        Action::CaptureImage
    ));
    loop {
        match s.step(Event::Capture { image: None }) {
            Action::CaptureImage => captures += 1,
            Action::EndTick => break,
            _ => panic!("unexpected action"),
        }
    }
    assert_eq!(captures, MAX_RETRIES);
    assert!(!s.transmitting_image);
}

#[test]
fn image_transmit_failure_retries_same_half() {
    let mut s = Scheduler::new(station_header(), 1, 4);
    assert!(matches!(s.step(Event::Start), Action::ReadSensors));
    assert!(matches!(
        s.step(Event::Sensors { fix: Some(usable_fix()), alt: Some(usable_reading()) }),
        Action::TransmitLocation(_)
    ));
    assert!(matches!(s.step(Event::TransmitResult { ok: true }), Action::ReadAltitude));
    assert!(matches!(
        s.step(Event::Altitude { altitude_mm: Some(25_000_000) }),
        Action::CaptureImage
    ));
    assert!(matches!(s.step(Event::Capture { image: Some(capture_jpeg()) }), Action::EndTick));

    let first = match s.step(Event::Start) {
        Action::TransmitImage(f) => f,
        _ => panic!("expected an image half-frame"),
    };
    // A failed transmission resends the very same half-frame.
    let retry = match s.step(Event::TransmitResult { ok: false }) {
        Action::TransmitImage(f) => f,
        _ => panic!("expected a retransmission"),
    };
    assert_eq!(first, retry);
}
