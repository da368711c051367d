//! Over-the-air frame assembly.
//!
//! A frame is `FLAG*20 | dest address | source address | 0x03 | 0xF0 |
//! payload | CRC-low | CRC-high | FLAG*20`. The CRC is computed over
//! everything between the flag runs and the CRC field itself. The flag
//! run is deliberately longer than the single-flag AX.25 norm, as a link
//! margin for receiver synchronisation.
//!
//! Two payloads exist: a human-readable location report, and an image
//! chunk that carries an SSDV packet header verbatim plus one
//! Base-91-encoded half of the SSDV payload region.

use crate::ax25::{spec_address, Header};
use crate::base91;
use crate::base91::{b91_digits, le_value};
use crate::crc16;
use crate::crc16::{crc_fold, crc_high_byte, crc_low_byte, CRC_INIT};
use crate::textfmt::{push_centi, push_dec_padded, spec_centi, spec_dec_padded};
use vstd::prelude::*;
use vstd::slice::slice_subrange;

verus! {

/// The AX.25 flag octet that delimits a frame.
pub const FLAG_BYTE: u8 = 0x7E;

/// How many flag octets open and close each frame.
pub const FLAG_SIZE: usize = 20;

/// APRS symbol code for a balloon.
pub const SYMBOL: u8 = 79;

/// Offset of the SSDV payload region inside an SSDV packet.
pub const SSDV_HEADER_SIZE: usize = crate::ssdv::HEADER_SIZE;

/// Length of the SSDV payload region.
pub const SSDV_PAYLOAD_SIZE: usize = crate::ssdv::PAYLOAD_SIZE;

/// Length of the SSDV trailing check field.
pub const SSDV_CRC_SIZE: usize = crate::ssdv::CRC_SIZE;

/// A GPS fix timestamp, hours, minutes and seconds of the day.
#[derive(Debug, Clone, Copy, PartialEq, Eq)]
pub struct TimeOfDay {
    pub hour: u8,
    pub minute: u8,
    pub second: u8,
}

/// Course over ground in whole degrees and speed in whole knots, both
/// already rounded up to integers.
#[derive(Debug, Clone, Copy, PartialEq, Eq)]
pub struct CourseSpeed {
    pub course: u16,
    pub speed: u16,
}

/// What the GPS reported: each part is present only when the receiver
/// had it. Latitude and longitude are in microdegrees, north and east
/// positive.
#[derive(Debug, Clone, Copy, PartialEq, Eq)]
pub struct LocationFix {
    pub latitude_udeg: Option<i64>,
    pub longitude_udeg: Option<i64>,
    pub time: Option<TimeOfDay>,
    pub course_speed: Option<CourseSpeed>,
}

/// One altimeter sample: altitude in millimetres, pressure in whole
/// pascals, temperature in hundredths of a degree Celsius.
#[derive(Debug, Clone, Copy, PartialEq, Eq)]
pub struct AltimeterReading {
    pub altitude_mm: i64,
    pub pressure_pa: u32,
    pub temperature_cc: i32,
}

/// Why a frame could not be built.
#[derive(Debug, Clone, Copy, PartialEq, Eq)]
pub enum FrameError {
    /// The fix lacks latitude, longitude or a timestamp.
    MissingFix,
}

/// The run of flag octets that opens and closes a frame.
pub open spec fn spec_flags() -> Seq<u8> {
    Seq::new(FLAG_SIZE as nat, |i: int| FLAG_BYTE)
}

/// Header octets after the opening flags: both encoded addresses, the
/// control byte and the PID byte.
pub open spec fn spec_header_body(h: Header) -> Seq<u8> {
    spec_address(h.dest.call_sign@, h.dest.ssid, false) + spec_address(
        h.source.call_sign@,
        h.source.ssid,
        true,
    ) + seq![0x03u8, 0xF0u8]
}

/// "HHMMSSh": the fix timestamp, two digits each, then a literal 'h'.
pub open spec fn spec_time_field(t: TimeOfDay) -> Seq<u8> {
    spec_dec_padded(t.hour as nat, 2) + spec_dec_padded(t.minute as nat, 2) + spec_dec_padded(
        t.second as nat,
        2,
    ) + seq![104u8]
}

/// "MM.mm": the fractional degrees turned into minutes, rounded to
/// hundredths.
pub open spec fn spec_minutes_field(frac_udeg: nat) -> Seq<u8> {
    let mc = (frac_udeg * 6 + 500) / 1000;
    spec_dec_padded(mc / 100, 2) + seq![46u8] + spec_dec_padded(mc % 100, 2)
}

/// "DDMM.mmN" or "DDMM.mmS": latitude in degrees and minutes with
/// hemisphere letter.
pub open spec fn spec_latitude_field(udeg: i64) -> Seq<u8> {
    let a = (if udeg < 0 { -udeg } else { udeg as int }) as nat;
    spec_dec_padded(a / 1000000, 2) + spec_minutes_field(a % 1000000) + seq![
        if udeg < 0 { 83u8 } else { 78u8 },
    ]
}

/// "DDDMM.mmE" or "DDDMM.mmW": longitude with three degree digits.
pub open spec fn spec_longitude_field(udeg: i64) -> Seq<u8> {
    let a = (if udeg < 0 { -udeg } else { udeg as int }) as nat;
    spec_dec_padded(a / 1000000, 3) + spec_minutes_field(a % 1000000) + seq![
        if udeg < 0 { 87u8 } else { 69u8 },
    ]
}

/// "CCC/SSS": course and speed, three digits each.
pub open spec fn spec_course_speed_field(cs: CourseSpeed) -> Seq<u8> {
    spec_dec_padded(cs.course as nat, 3) + seq![47u8] + spec_dec_padded(cs.speed as nat, 3)
}

/// Altitude in whole feet, rounded to nearest from millimetres
/// (1 foot = 0.3048 m exactly), never negative.
pub open spec fn spec_feet(mm: int) -> nat {
    if mm <= 0 {
        0
    } else {
        ((mm * 1250 + 190500) / 381000) as nat
    }
}

/// "/A=FFFFFF": altitude in feet, six digits.
pub open spec fn spec_altitude_field(mm: int) -> Seq<u8> {
    seq![47u8, 65u8, 61u8] + spec_dec_padded(spec_feet(mm), 6)
}

/// "/Pa=PPPPPP": pressure in pascals, six digits.
pub open spec fn spec_pressure_field(pa: u32) -> Seq<u8> {
    seq![47u8, 80u8, 97u8, 61u8] + spec_dec_padded(pa as nat, 6)
}

/// "/Ti=T.TT": temperature in degrees Celsius with two decimals.
pub open spec fn spec_temperature_field(cc: i32) -> Seq<u8> {
    seq![47u8, 84u8, 105u8, 61u8] + spec_centi(cc as int)
}

/// The whole location payload: data-type indicator '/', timestamp,
/// position with symbol, optional course/speed, then altitude, pressure
/// and temperature fields.
pub open spec fn spec_location_payload(
    t: TimeOfDay,
    lat: i64,
    lon: i64,
    cs: Option<CourseSpeed>,
    alt: AltimeterReading,
) -> Seq<u8> {
    seq![47u8] + spec_time_field(t) + spec_latitude_field(lat) + seq![47u8] + spec_longitude_field(
        lon,
    ) + seq![SYMBOL, 32u8] + (match cs {
        Some(c) => spec_course_speed_field(c),
        None => Seq::<u8>::empty(),
    }) + spec_altitude_field(alt.altitude_mm as int) + spec_pressure_field(alt.pressure_pa)
        + spec_temperature_field(alt.temperature_cc)
}

/// A finished frame around `body`: flags, the body, the CRC of the body
/// low byte first, flags again.
pub open spec fn spec_frame(body: Seq<u8>) -> Seq<u8> {
    let c = crc_fold(CRC_INIT, body);
    spec_flags() + body + seq![crc_low_byte(c), crc_high_byte(c)] + spec_flags()
}

/// The complete location frame for a header, fix and altimeter sample.
pub open spec fn spec_location_frame(
    h: Header,
    t: TimeOfDay,
    lat: i64,
    lon: i64,
    cs: Option<CourseSpeed>,
    alt: AltimeterReading,
) -> Seq<u8> {
    spec_frame(spec_header_body(h) + spec_location_payload(t, lat, lon, cs, alt))
}

/// The image-chunk payload: the "{{I" tag, the SSDV packet header
/// verbatim, and one Base-91-encoded half of the SSDV payload region.
pub open spec fn spec_image_payload(packet: Seq<u8>, second: bool) -> Seq<u8> {
    let half = if second {
        packet.subrange(
            SSDV_HEADER_SIZE + SSDV_PAYLOAD_SIZE / 2,
            (256 - SSDV_CRC_SIZE) as int,
        )
    } else {
        packet.subrange(SSDV_HEADER_SIZE as int, SSDV_HEADER_SIZE + SSDV_PAYLOAD_SIZE / 2)
    };
    seq![123u8, 123u8, 73u8] + packet.subrange(0, SSDV_HEADER_SIZE as int) + b91_digits(
        le_value(half),
    )
}

/// The complete image-chunk frame.
pub open spec fn spec_image_frame(h: Header, packet: Seq<u8>, second: bool) -> Seq<u8> {
    spec_frame(spec_header_body(h) + spec_image_payload(packet, second))
}

/// Appends the opening or closing run of flag octets.
fn push_flags(buf: &mut Vec<u8>)
    ensures
        final(buf)@ == old(buf)@ + spec_flags(),
{
    let mut i: usize = 0;
    while i < FLAG_SIZE
        invariant
            i <= FLAG_SIZE,
            buf@.len() == old(buf)@.len() + i,
            buf@.subrange(0, old(buf)@.len() as int) =~= old(buf)@,
            forall|k: int| old(buf)@.len() <= k < buf@.len() ==> buf@[k] == FLAG_BYTE,
        decreases FLAG_SIZE - i,
    {
        buf.push(FLAG_BYTE);
        i = i + 1;
    }
    proof {
        assert(buf@ =~= old(buf)@ + spec_flags());
    }
}

/// Appends both encoded addresses, the control byte and the PID byte.
fn push_header_body(buf: &mut Vec<u8>, header: &Header)
    requires
        header.dest.ssid < 16,
        header.source.ssid < 16,
    ensures
        final(buf)@ == old(buf)@ + spec_header_body(*header),
{
    let d = crate::ax25::encode_address(&header.dest.call_sign, header.dest.ssid, false);
    let s = crate::ax25::encode_address(&header.source.call_sign, header.source.ssid, true);
    let mut i: usize = 0;
    while i < 7
        invariant
            i <= 7,
            buf@ =~= old(buf)@ + d@.take(i as int),
        decreases 7 - i,
    {
        buf.push(d[i]);
        i = i + 1;
        proof {
            assert(d@.take(i as int) =~= d@.take(i - 1).push(d@[i - 1]));
            assert(buf@ =~= old(buf)@ + d@.take(i as int));
        }
    }
    proof {
        assert(d@.take(7) =~= d@);
    }
    let mut j: usize = 0;
    while j < 7
        invariant
            j <= 7,
            buf@ =~= old(buf)@ + d@ + s@.take(j as int),
        decreases 7 - j,
    {
        buf.push(s[j]);
        j = j + 1;
        proof {
            assert(s@.take(j as int) =~= s@.take(j - 1).push(s@[j - 1]));
            assert(buf@ =~= old(buf)@ + d@ + s@.take(j as int));
        }
    }
    proof {
        assert(s@.take(7) =~= s@);
    }
    buf.push(0x03);
    buf.push(0xF0);
    proof {
        assert(buf@ =~= old(buf)@ + spec_header_body(*header));
    }
}

/// Appends the flag run and the frame header: flags, both addresses,
/// control and PID bytes. Every frame starts this way.
pub fn write_header(buf: &mut Vec<u8>, header: &Header)
    requires
        header.dest.ssid < 16,
        header.source.ssid < 16,
    ensures
        final(buf)@ == old(buf)@ + spec_flags() + spec_header_body(*header),
{
    push_flags(buf);
    push_header_body(buf, header);
}

/// Appends "MM.mm" for a fractional degree part.
fn push_minutes(buf: &mut Vec<u8>, frac_udeg: u64)
    requires
        frac_udeg < 1000000,
    ensures
        final(buf)@ == old(buf)@ + spec_minutes_field(frac_udeg as nat),
{
    let mc: u64 = (frac_udeg * 6 + 500) / 1000;
    push_dec_padded(buf, mc / 100, 2);
    buf.push(46);
    push_dec_padded(buf, mc % 100, 2);
    proof {
        assert(buf@ =~= old(buf)@ + spec_minutes_field(frac_udeg as nat));
    }
}

/// Appends "HHMMSSh".
fn push_time_field(buf: &mut Vec<u8>, t: TimeOfDay)
    ensures
        final(buf)@ == old(buf)@ + spec_time_field(t),
{
    push_dec_padded(buf, t.hour as u64, 2);
    push_dec_padded(buf, t.minute as u64, 2);
    push_dec_padded(buf, t.second as u64, 2);
    buf.push(104);
    proof {
        assert(buf@ =~= old(buf)@ + spec_time_field(t));
    }
}

/// Appends "DDMM.mmN" or "DDMM.mmS".
fn push_latitude_field(buf: &mut Vec<u8>, udeg: i64)
    requires
        -90000000 <= udeg <= 90000000,
    ensures
        final(buf)@ == old(buf)@ + spec_latitude_field(udeg),
{
    let a: u64 = if udeg < 0 {
        (-udeg) as u64
    } else {
        udeg as u64
    };
    push_dec_padded(buf, a / 1000000, 2);
    push_minutes(buf, a % 1000000);
    buf.push(if udeg < 0 {
        83
    } else {
        78
    });
    proof {
        assert(buf@ =~= old(buf)@ + spec_latitude_field(udeg));
    }
}

/// Appends "DDDMM.mmE" or "DDDMM.mmW".
fn push_longitude_field(buf: &mut Vec<u8>, udeg: i64)
    requires
        -180000000 <= udeg <= 180000000,
    ensures
        final(buf)@ == old(buf)@ + spec_longitude_field(udeg),
{
    let a: u64 = if udeg < 0 {
        (-udeg) as u64
    } else {
        udeg as u64
    };
    push_dec_padded(buf, a / 1000000, 3);
    push_minutes(buf, a % 1000000);
    buf.push(if udeg < 0 {
        87
    } else {
        69
    });
    proof {
        assert(buf@ =~= old(buf)@ + spec_longitude_field(udeg));
    }
}

/// Appends "CCC/SSS".
fn push_course_speed_field(buf: &mut Vec<u8>, cs: CourseSpeed)
    ensures
        final(buf)@ == old(buf)@ + spec_course_speed_field(cs),
{
    push_dec_padded(buf, cs.course as u64, 3);
    buf.push(47);
    push_dec_padded(buf, cs.speed as u64, 3);
    proof {
        assert(buf@ =~= old(buf)@ + spec_course_speed_field(cs));
    }
}

/// Appends "/A=FFFFFF", the altitude converted to whole feet.
fn push_altitude_field(buf: &mut Vec<u8>, mm: i64)
    requires
        -100000000000 <= mm <= 100000000000,
    ensures
        final(buf)@ == old(buf)@ + spec_altitude_field(mm as int),
{
    let feet: u64 = if mm <= 0 {
        0
    } else {
        ((mm * 1250 + 190500) / 381000) as u64
    };
    buf.push(47);
    buf.push(65);
    buf.push(61);
    push_dec_padded(buf, feet, 6);
    proof {
        assert(buf@ =~= old(buf)@ + spec_altitude_field(mm as int));
    }
}

/// Appends "/Pa=PPPPPP".
fn push_pressure_field(buf: &mut Vec<u8>, pa: u32)
    ensures
        final(buf)@ == old(buf)@ + spec_pressure_field(pa),
{
    buf.push(47);
    buf.push(80);
    buf.push(97);
    buf.push(61);
    push_dec_padded(buf, pa as u64, 6);
    proof {
        assert(buf@ =~= old(buf)@ + spec_pressure_field(pa));
    }
}

/// Appends "/Ti=T.TT".
fn push_temperature_field(buf: &mut Vec<u8>, cc: i32)
    ensures
        final(buf)@ == old(buf)@ + spec_temperature_field(cc),
{
    buf.push(47);
    buf.push(84);
    buf.push(105);
    buf.push(61);
    push_centi(buf, cc);
    proof {
        assert(buf@ =~= old(buf)@ + spec_temperature_field(cc));
    }
}

/// Appends the whole location payload.
#[verifier::rlimit(100)]
fn push_location_payload(
    buf: &mut Vec<u8>,
    t: TimeOfDay,
    lat: i64,
    lon: i64,
    cs: Option<CourseSpeed>,
    alt: &AltimeterReading,
)
    requires
        -90000000 <= lat <= 90000000,
        -180000000 <= lon <= 180000000,
        -100000000000 <= alt.altitude_mm <= 100000000000,
    ensures
        final(buf)@ == old(buf)@ + spec_location_payload(t, lat, lon, cs, *alt),
{
    buf.push(47);
    push_time_field(buf, t);
    push_latitude_field(buf, lat);
    buf.push(47);
    push_longitude_field(buf, lon);
    buf.push(SYMBOL);
    buf.push(32);
    proof {
        assert(buf@ =~= old(buf)@ + (seq![47u8] + spec_time_field(t) + spec_latitude_field(lat)
            + seq![47u8] + spec_longitude_field(lon) + seq![SYMBOL, 32u8]));
    }
    let ghost mid = buf@;
    match cs {
        Some(c) => {
            push_course_speed_field(buf, c);
        },
        None => {},
    }
    push_altitude_field(buf, alt.altitude_mm);
    push_pressure_field(buf, alt.pressure_pa);
    push_temperature_field(buf, alt.temperature_cc);
    proof {
        assert(buf@ =~= mid + (match cs {
            Some(c) => spec_course_speed_field(c),
            None => Seq::<u8>::empty(),
        }) + spec_altitude_field(alt.altitude_mm as int) + spec_pressure_field(alt.pressure_pa)
            + spec_temperature_field(alt.temperature_cc));
        assert(buf@ =~= old(buf)@ + spec_location_payload(t, lat, lon, cs, *alt));
    }
}

/// Takes the CRC of `body`, then lays out flags, body, check bytes and
/// flags as one frame.
fn assemble_frame(body: Vec<u8>) -> (r: Vec<u8>)
    ensures
        r@ == spec_frame(body@),
{
    let ghost body0 = body@;
    let mut body = body;
    let crc = crc16::fold(CRC_INIT, body.as_slice());
    let (lo, hi) = crc16::finalize(crc);
    let mut frame: Vec<u8> = Vec::new();
    push_flags(&mut frame);
    frame.append(&mut body);
    frame.push(lo);
    frame.push(hi);
    push_flags(&mut frame);
    proof {
        assert(frame@ =~= spec_frame(body0));
    }
    frame
}

/// Builds the complete location-report frame.
///
/// Succeeds exactly when the fix carries latitude, longitude and a
/// timestamp; otherwise no frame is built and `MissingFix` says so.
#[verifier::rlimit(100)]
pub fn frame_location(header: &Header, fix: &LocationFix, alt: &AltimeterReading) -> (r: Result<
    Vec<u8>,
    FrameError,
>)
    requires
        header.dest.ssid < 16,
        header.source.ssid < 16,
        fix.latitude_udeg matches Some(la) ==> -90000000 <= la <= 90000000,
        fix.longitude_udeg matches Some(lo) ==> -180000000 <= lo <= 180000000,
        -100000000000 <= alt.altitude_mm <= 100000000000,
    ensures
        r is Ok <==> (fix.time is Some && fix.latitude_udeg is Some && fix.longitude_udeg
            is Some),
        r matches Ok(f) ==> (fix.time matches Some(t) && fix.latitude_udeg matches Some(la)
            && fix.longitude_udeg matches Some(lo) && f@ == spec_location_frame(
            *header,
            t,
            la,
            lo,
            fix.course_speed,
            *alt,
        )),
        r matches Err(e) ==> e == FrameError::MissingFix,
{
    let (t, la, lo) = match (&fix.time, &fix.latitude_udeg, &fix.longitude_udeg) {
        (Some(t), Some(la), Some(lo)) => (*t, *la, *lo),
        _ => {
            return Err(FrameError::MissingFix);
        },
    };
    let mut body: Vec<u8> = Vec::new();
    push_header_body(&mut body, header);
    push_location_payload(&mut body, t, la, lo, fix.course_speed, alt);
    proof {
        assert(body@ =~= spec_header_body(*header) + spec_location_payload(
            t,
            la,
            lo,
            fix.course_speed,
            *alt,
        ));
    }
    Ok(assemble_frame(body))
}

/// Builds the complete image-chunk frame for one half of an SSDV packet.
///
/// `second` selects the second half of the payload region; the packet's
/// 15 header bytes ride along verbatim either way.
pub fn frame_image_chunk(header: &Header, packet: &Vec<u8>, second: bool) -> (r: Vec<u8>)
    requires
        header.dest.ssid < 16,
        header.source.ssid < 16,
        packet@.len() == 256,
    ensures
        r@ == spec_image_frame(*header, packet@, second),
{
    let mut body: Vec<u8> = Vec::new();
    push_header_body(&mut body, header);
    body.push(123);
    body.push(123);
    body.push(73);
    let mut i: usize = 0;
    let ghost after_tag = body@;
    while i < SSDV_HEADER_SIZE
        invariant
            i <= SSDV_HEADER_SIZE,
            packet@.len() == 256,
            body@ =~= after_tag + packet@.take(i as int),
        decreases SSDV_HEADER_SIZE - i,
    {
        body.push(packet[i]);
        i = i + 1;
        proof {
            assert(packet@.take(i as int) =~= packet@.take(i - 1).push(packet@[i - 1]));
            assert(body@ =~= after_tag + packet@.take(i as int));
        }
    }
    let half: &[u8] = if second {
        slice_subrange(packet.as_slice(), SSDV_HEADER_SIZE + SSDV_PAYLOAD_SIZE / 2, 256
            - SSDV_CRC_SIZE)
    } else {
        slice_subrange(packet.as_slice(), SSDV_HEADER_SIZE, SSDV_HEADER_SIZE + SSDV_PAYLOAD_SIZE
            / 2)
    };
    let mut encoded = base91::encode(half);
    body.append(&mut encoded);
    proof {
        assert(packet@.take(SSDV_HEADER_SIZE as int) =~= packet@.subrange(
            0,
            SSDV_HEADER_SIZE as int,
        ));
        assert(body@ =~= spec_header_body(*header) + spec_image_payload(packet@, second));
    }
    assemble_frame(body)
}

} // verus!
