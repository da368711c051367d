//! SSDV image encoder: a pull-based, single-pass state machine that
//! consumes a baseline JPEG byte stream and emits fixed 256-byte image
//! packets.
//!
//! The machine scans JPEG markers; the SOF0, SOS, DRI, DHT and DQT
//! segments are captured into a bounded table buffer (overflow is a
//! `Memory` failure, and any SOF variant other than baseline SOF0 is a
//! `Progressive` failure; both end the image). After the SOS segment the
//! entropy-coded scan bytes are packed into packets verbatim, restart
//! markers and byte stuffing included. Reaching the EOI marker, or the
//! end of the input, flushes a final zero-padded packet and leaves the
//! machine in its terminal state, after which no further items come.

use crate::crc32;
use crate::crc32::crc32_of;
use vstd::prelude::*;
use vstd::slice::slice_subrange;

verus! {

/// Combined size limit for the captured DQT and DHT tables.
pub const TABLE_LEN: usize = 546;

/// Extra space for reading marker data.
pub const HBUF_LEN: usize = 16;

/// Capacity of the table capture buffer.
pub const STBL_CAP: usize = TABLE_LEN + HBUF_LEN;

/// Size of every emitted packet.
pub const PACKET_SIZE: usize = 256;

/// Size of the packet header.
pub const HEADER_SIZE: usize = 15;

/// Size of the packet payload region.
pub const PAYLOAD_SIZE: usize = 237;

/// Size of the packet's trailing check field.
pub const CRC_SIZE: usize = 4;

/// Marker codes the machine decides by.
pub const M_TEM: u16 = 0xFF01;

pub const M_SOF0: u16 = 0xFFC0;

pub const M_DHT: u16 = 0xFFC4;

pub const M_RST0: u16 = 0xFFD0;

pub const M_RST7: u16 = 0xFFD7;

pub const M_SOI: u16 = 0xFFD8;

pub const M_EOI: u16 = 0xFFD9;

pub const M_SOS: u16 = 0xFFDA;

pub const M_DQT: u16 = 0xFFDB;

pub const M_DRI: u16 = 0xFFDD;

pub const M_COM: u16 = 0xFFFE;

/// Why the encoder gave up on the current image. Both cases are final:
/// the caller must abandon this image, not pull again.
#[derive(Debug, Clone, Copy, PartialEq, Eq, Hash)]
pub enum SsdvError {
    /// The marker tables outgrew the capture buffer.
    Memory,
    /// Progressive (non-baseline) images are not supported.
    Progressive,
}

/// Packet flavours; this encoder emits `NoFEC` packets.
#[derive(Debug, Clone, Copy, PartialEq, Eq, Hash)]
pub enum PacketType {
    /// Normal mode (224 byte packet + 32 byte FEC).
    Normal,
    /// No-FEC mode (256 byte packet).
    NoFEC,
    Padding,
}

/// Where the machine stands in the JPEG stream.
#[derive(Debug, Clone, Copy, PartialEq, Eq, Hash)]
pub enum State {
    /// Hunting for the next marker code.
    Marker,
    /// Reading the two length bytes of a marker segment.
    MarkerLen,
    /// Capturing a marker segment into the table buffer.
    MarkerData,
    /// Inside the entropy-coded scan data.
    Huff,
    /// Saw 0xFF inside scan data; deciding what follows.
    Int,
    /// Terminal: the image is finished.
    Eoi,
}

/// The machine part of the encoder, as plain mathematical values.
#[verifier::ext_equal]
pub struct EncView {
    pub state: State,
    pub marker: u16,
    pub marker_len: u16,
    pub len_bytes: u8,
    pub capture_remaining: nat,
    pub capture_base: nat,
    pub skip: nat,
    pub stbls: Seq<u8>,
    pub width: u16,
    pub height: u16,
    pub payload: Seq<u8>,
}

/// SOF variants other than baseline SOF0: progressive and extended
/// modes, which the encoder rejects.
pub open spec fn spec_is_unsupported_sof(m: u16) -> bool {
    0xFFC1 <= m <= 0xFFCF && m != M_DHT && m != 0xFFC8 && m != 0xFFCC
}

/// Markers whose segments are captured into the table buffer.
pub open spec fn spec_is_captured_marker(m: u16) -> bool {
    m == M_SOF0 || m == M_SOS || m == M_DRI || m == M_DHT || m == M_DQT
}

/// What a freshly completed marker code does to the machine.
pub open spec fn spec_classify_marker(v: EncView, m: u16) -> EncView {
    if m == M_EOI {
        EncView { state: State::Eoi, marker: m, ..v }
    } else if m == M_TEM || m == M_SOI || (M_RST0 <= m && m <= M_RST7) {
        EncView { state: State::Marker, marker: m, ..v }
    } else if M_SOF0 <= m && m <= M_COM {
        EncView { state: State::MarkerLen, marker: m, marker_len: 0, len_bytes: 0, ..v }
    } else {
        EncView { state: State::Marker, marker: m, ..v }
    }
}

/// What happens when a captured segment is complete: SOF0 yields the
/// image geometry, SOS opens the scan data, the rest return to marker
/// hunting.
pub open spec fn spec_after_capture(v: EncView) -> EncView {
    if v.marker == M_SOF0 {
        let seg = v.stbls.subrange(v.capture_base as int, v.stbls.len() as int);
        if seg.len() >= 5 {
            EncView {
                state: State::Marker,
                height: ((seg[1] as u16) << 8) | (seg[2] as u16),
                width: ((seg[3] as u16) << 8) | (seg[4] as u16),
                ..v
            }
        } else {
            EncView { state: State::Marker, ..v }
        }
    } else if v.marker == M_SOS {
        EncView { state: State::Huff, ..v }
    } else {
        EncView { state: State::Marker, ..v }
    }
}

/// The decision taken once a marker's length is known: reject
/// non-baseline SOF frames, start capturing the interesting segments if
/// the buffer can hold them, skip everything else.
pub open spec fn spec_have_marker(v: EncView) -> (EncView, Option<SsdvError>) {
    let data_len: nat = if v.marker_len >= 2 {
        (v.marker_len - 2) as nat
    } else {
        0
    };
    if spec_is_unsupported_sof(v.marker) {
        (EncView { state: State::Eoi, ..v }, Some(SsdvError::Progressive))
    } else if spec_is_captured_marker(v.marker) {
        if v.stbls.len() + data_len > STBL_CAP as nat {
            (EncView { state: State::Eoi, ..v }, Some(SsdvError::Memory))
        } else if data_len == 0 {
            (spec_after_capture(EncView { capture_base: v.stbls.len(), ..v }), None)
        } else {
            (
                EncView {
                    state: State::MarkerData,
                    capture_remaining: data_len,
                    capture_base: v.stbls.len(),
                    ..v
                },
                None,
            )
        }
    } else {
        (EncView { state: State::Marker, skip: data_len, ..v }, None)
    }
}

/// One input byte folded into the machine. The terminal state ignores
/// input; a pending skip count eats the byte.
pub open spec fn spec_step_byte(v: EncView, b: u8) -> (EncView, Option<SsdvError>) {
    if v.state is Eoi {
        (v, None)
    } else if v.skip > 0 {
        (EncView { skip: (v.skip - 1) as nat, ..v }, None)
    } else {
        match v.state {
            State::Marker => (spec_classify_marker(v, (v.marker << 8) | (b as u16)), None),
            State::MarkerLen => {
                if v.len_bytes == 0 {
                    (EncView { marker_len: (b as u16) << 8, len_bytes: 1, ..v }, None)
                } else {
                    spec_have_marker(
                        EncView { marker_len: v.marker_len | (b as u16), len_bytes: 0, ..v },
                    )
                }
            },
            State::MarkerData => {
                let v2 = EncView {
                    stbls: v.stbls.push(b),
                    capture_remaining: (v.capture_remaining - 1) as nat,
                    ..v
                };
                if v.capture_remaining <= 1 {
                    (spec_after_capture(v2), None)
                } else {
                    (v2, None)
                }
            },
            State::Huff => {
                if b == 0xFF {
                    (EncView { state: State::Int, ..v }, None)
                } else {
                    (EncView { payload: v.payload.push(b), ..v }, None)
                }
            },
            State::Int => {
                if b == 0x00 {
                    (EncView { state: State::Huff, payload: v.payload.push(0xFF).push(0x00), ..v }, None)
                } else if b == 0xD9 {
                    (EncView { state: State::Eoi, ..v }, None)
                } else if 0xD0 <= b && b <= 0xD7 {
                    (EncView { state: State::Huff, payload: v.payload.push(0xFF).push(b), ..v }, None)
                } else {
                    (spec_classify_marker(v, 0xFF00u16 | (b as u16)), None)
                }
            },
            State::Eoi => (v, None),
        }
    }
}

/// The machine run over a whole byte sequence.
pub open spec fn run_machine(v: EncView, s: Seq<u8>) -> EncView
    decreases s.len(),
{
    if s.len() == 0 {
        v
    } else {
        run_machine(spec_step_byte(v, s[0]).0, s.drop_first())
    }
}

/// Running over `s` then one more byte is one step after running over
/// `s`.
pub proof fn lemma_run_snoc(v: EncView, s: Seq<u8>, b: u8)
    ensures
        run_machine(v, s.push(b)) == spec_step_byte(run_machine(v, s), b).0,
    decreases s.len(),
{
    let t = s.push(b);
    if s.len() == 0 {
        assert(t.drop_first() =~= Seq::<u8>::empty());
        assert(t[0] == b);
        assert(run_machine(v, t) == run_machine(spec_step_byte(v, b).0, t.drop_first()));
        assert(run_machine(spec_step_byte(v, b).0, t.drop_first()) == spec_step_byte(v, b).0);
        assert(run_machine(v, s) == v);
    } else {
        assert(t[0] == s[0]);
        assert(t.drop_first() =~= s.drop_first().push(b));
        assert(run_machine(v, t) == run_machine(spec_step_byte(v, t[0]).0, t.drop_first()));
        lemma_run_snoc(spec_step_byte(v, s[0]).0, s.drop_first(), b);
        assert(run_machine(v, s) == run_machine(spec_step_byte(v, s[0]).0, s.drop_first()));
    }
}

/// The base-40 value of one callsign character.
pub open spec fn spec_char_value(c: u8) -> nat {
    if 65 <= c <= 90 {
        (c - 65 + 14) as nat
    } else if 97 <= c <= 122 {
        (c - 97 + 14) as nat
    } else if 48 <= c <= 57 {
        (c - 48 + 1) as nat
    } else {
        0
    }
}

/// The callsign packed base-40, first character least significant.
pub open spec fn spec_encode_callsign(cs: Seq<u8>) -> nat
    decreases cs.len(),
{
    if cs.len() == 0 {
        0
    } else {
        (spec_char_value(cs[0]) + 40 * spec_encode_callsign(cs.subrange(1, cs.len() as int))) as nat
    }
}

/// The base-40 value of one callsign character.
fn char_value(c: u8) -> (r: u8)
    ensures
        r as nat == spec_char_value(c),
        r < 40,
{
    if 65 <= c && c <= 90 {
        c - 65 + 14
    } else if 97 <= c && c <= 122 {
        c - 97 + 14
    } else if 48 <= c && c <= 57 {
        c - 48 + 1
    } else {
        0
    }
}

/// Packs a 6-character callsign into 32 bits, base 40: upper and lower
/// case letters count alike, digits and anything else take the low
/// codes.
pub fn encode_callsign(call_sign: &[u8; 6]) -> (r: u32)
    ensures
        r as nat == spec_encode_callsign(call_sign@),
{
    let v0 = char_value(call_sign[0]);
    let v1 = char_value(call_sign[1]);
    let v2 = char_value(call_sign[2]);
    let v3 = char_value(call_sign[3]);
    let v4 = char_value(call_sign[4]);
    let v5 = char_value(call_sign[5]);
    let mut x: u32 = 0;
    x = x * 40 + (v5 as u32);
    x = x * 40 + (v4 as u32);
    x = x * 40 + (v3 as u32);
    x = x * 40 + (v2 as u32);
    x = x * 40 + (v1 as u32);
    x = x * 40 + (v0 as u32);
    proof {
        let s = call_sign@;
        let s1 = s.subrange(1, 6);
        let s2 = s1.subrange(1, 5);
        let s3 = s2.subrange(1, 4);
        let s4 = s3.subrange(1, 3);
        let s5 = s4.subrange(1, 2);
        let s6 = s5.subrange(1, 1);
        assert(s1 =~= s.subrange(1, 6));
        assert(s2 =~= s.subrange(2, 6));
        assert(s3 =~= s.subrange(3, 6));
        assert(s4 =~= s.subrange(4, 6));
        assert(s5 =~= s.subrange(5, 6));
        assert(s6 =~= Seq::<u8>::empty());
        assert(spec_encode_callsign(s6) == 0);
        assert(spec_encode_callsign(s5) == spec_char_value(s[5]));
        assert(spec_encode_callsign(s4) == spec_char_value(s[4]) + 40 * spec_encode_callsign(s5));
        assert(spec_encode_callsign(s3) == spec_char_value(s[3]) + 40 * spec_encode_callsign(s4));
        assert(spec_encode_callsign(s2) == spec_char_value(s[2]) + 40 * spec_encode_callsign(s3));
        assert(spec_encode_callsign(s1) == spec_char_value(s[1]) + 40 * spec_encode_callsign(s2));
        assert(spec_encode_callsign(s) == spec_char_value(s[0]) + 40 * spec_encode_callsign(s1));
    }
    x
}

/// The packet-type octet on the wire.
pub open spec fn spec_type_byte(t: PacketType) -> u8 {
    match t {
        PacketType::Normal => 0x66,
        PacketType::NoFEC => 0x67,
        PacketType::Padding => 0x68,
    }
}

/// The packet flags octet: the end-of-image bit over the quality level.
pub open spec fn spec_flags_byte(quality: u8, eoi: bool) -> u8 {
    (if eoi {
        8u8
    } else {
        0u8
    }) | (quality & 7)
}

/// The 15 header octets of a packet: sync byte, type, packed callsign
/// big-endian, image id, packet id big-endian, geometry in 16-pixel
/// units, flags, and the MCU position bytes (not tracked here, zero).
pub open spec fn spec_packet_header(
    ty: PacketType,
    callsign: u32,
    image_id: u8,
    packet_id: u16,
    width: u16,
    height: u16,
    quality: u8,
    eoi: bool,
) -> Seq<u8> {
    seq![
        0x55u8,
        spec_type_byte(ty),
        ((callsign >> 24) & 0xFF) as u8,
        ((callsign >> 16) & 0xFF) as u8,
        ((callsign >> 8) & 0xFF) as u8,
        (callsign & 0xFF) as u8,
        image_id,
        ((packet_id >> 8) & 0xFF) as u8,
        (packet_id & 0xFF) as u8,
        ((width / 16) & 0xFF) as u8,
        ((height / 16) & 0xFF) as u8,
        spec_flags_byte(quality, eoi),
        0u8,
        0u8,
        0u8,
    ]
}

/// A payload zero-padded to the full payload region.
pub open spec fn spec_pad_payload(s: Seq<u8>) -> Seq<u8> {
    s + Seq::new((PAYLOAD_SIZE - s.len()) as nat, |i: int| 0u8)
}

/// The checksum bytes of a packet, big-endian, over everything after
/// the sync byte and before the check field.
pub open spec fn spec_packet_crc(front: Seq<u8>) -> Seq<u8> {
    let c = crc32_of(front.subrange(1, front.len() as int));
    seq![
        ((c >> 24) & 0xFF) as u8,
        ((c >> 16) & 0xFF) as u8,
        ((c >> 8) & 0xFF) as u8,
        (c & 0xFF) as u8,
    ]
}

/// One whole 256-byte packet: header, padded payload, check bytes.
pub open spec fn spec_packet(
    ty: PacketType,
    callsign: u32,
    image_id: u8,
    packet_id: u16,
    width: u16,
    height: u16,
    quality: u8,
    eoi: bool,
    payload: Seq<u8>,
) -> Seq<u8> {
    let front = spec_packet_header(ty, callsign, image_id, packet_id, width, height, quality, eoi)
        + spec_pad_payload(payload);
    front + spec_packet_crc(front)
}

/// The packet counter after one more packet: one up, wrapping at the
/// 16-bit field's end.
pub open spec fn spec_next_packet_id(id: u16) -> u16 {
    if id == 0xFFFF {
        0
    } else {
        (id + 1) as u16
    }
}

/// The SSDV encoder: configuration, the input bytes with a read
/// position, and the scan machine.
pub struct Ssdv {
    pub ty: PacketType,
    pub callsign: u32,
    pub image_id: u8,
    pub quality: u8,
    pub packet_id: u16,
    pub width: u16,
    pub height: u16,
    pub input: Vec<u8>,
    pub pos: usize,
    pub state: State,
    pub marker: u16,
    pub marker_len: u16,
    pub len_bytes: u8,
    pub capture_remaining: usize,
    pub capture_base: usize,
    pub skip: usize,
    pub stbls: Vec<u8>,
    pub payload: Vec<u8>,
}

impl Ssdv {
    /// The machine fields as plain values.
    pub open spec fn machine(self) -> EncView {
        EncView {
            state: self.state,
            marker: self.marker,
            marker_len: self.marker_len,
            len_bytes: self.len_bytes,
            capture_remaining: self.capture_remaining as nat,
            capture_base: self.capture_base as nat,
            skip: self.skip as nat,
            stbls: self.stbls@,
            width: self.width,
            height: self.height,
            payload: self.payload@,
        }
    }

    /// Everything the packets are built from, held fixed while pulling.
    pub open spec fn cfg_unchanged(self, other: Ssdv) -> bool {
        &&& self.ty == other.ty
        &&& self.callsign == other.callsign
        &&& self.image_id == other.image_id
        &&& self.quality == other.quality
        &&& self.input@ == other.input@
    }

    /// Well-formedness between pulls.
    pub open spec fn wf(self) -> bool {
        &&& self.quality <= 7
        &&& self.pos <= self.input@.len()
        &&& self.stbls@.len() + self.capture_remaining <= STBL_CAP
        &&& self.capture_base <= self.stbls@.len()
        &&& (self.state is MarkerData ==> self.capture_remaining >= 1)
        &&& self.len_bytes <= 1
        &&& self.payload@.len() < PAYLOAD_SIZE
    }

    /// Builds a fresh encoder over a JPEG byte buffer. A quality above 7
    /// is clamped to 7.
    pub fn new(ty: PacketType, call_sign: &[u8; 6], image_id: u8, quality: u8, image: Vec<u8>) -> (r:
        Ssdv)
        ensures
            r.wf(),
            r.ty == ty,
            r.callsign as nat == spec_encode_callsign(call_sign@),
            r.image_id == image_id,
            r.quality == (if quality > 7 { 7u8 } else { quality }),
            r.packet_id == 0,
            r.input@ == image@,
            r.pos == 0,
            r.state is Marker,
            r.machine() == (EncView {
                state: State::Marker,
                marker: 0,
                marker_len: 0,
                len_bytes: 0,
                capture_remaining: 0,
                capture_base: 0,
                skip: 0,
                stbls: Seq::<u8>::empty(),
                width: 0,
                height: 0,
                payload: Seq::<u8>::empty(),
            }),
    {
        let q: u8 = if quality > 7 {
            7
        } else {
            quality
        };
        let r = Ssdv {
            ty,
            callsign: encode_callsign(call_sign),
            image_id,
            quality: q,
            packet_id: 0,
            width: 0,
            height: 0,
            input: image,
            pos: 0,
            state: State::Marker,
            marker: 0,
            marker_len: 0,
            len_bytes: 0,
            capture_remaining: 0,
            capture_base: 0,
            skip: 0,
            stbls: Vec::new(),
            payload: Vec::new(),
        };
        proof {
            assert(r.machine() =~= EncView {
                state: State::Marker,
                marker: 0,
                marker_len: 0,
                len_bytes: 0,
                capture_remaining: 0,
                capture_base: 0,
                skip: 0,
                stbls: Seq::<u8>::empty(),
                width: 0,
                height: 0,
                payload: Seq::<u8>::empty(),
            });
        }
        r
    }

    /// Applies a completed marker code to the machine.
    fn apply_marker(&mut self, m: u16)
        ensures
            final(self).machine() == spec_classify_marker(old(self).machine(), m),
            final(self).cfg_unchanged(*old(self)),
            final(self).pos == old(self).pos,
            final(self).packet_id == old(self).packet_id,
    {
        if m == M_EOI {
            self.state = State::Eoi;
            self.marker = m;
        } else if m == M_TEM || m == M_SOI || (M_RST0 <= m && m <= M_RST7) {
            self.state = State::Marker;
            self.marker = m;
        } else if M_SOF0 <= m && m <= M_COM {
            self.state = State::MarkerLen;
            self.marker = m;
            self.marker_len = 0;
            self.len_bytes = 0;
        } else {
            self.state = State::Marker;
            self.marker = m;
        }
        proof {
            assert(final(self).machine() =~= spec_classify_marker(old(self).machine(), m));
        }
    }

    /// Finishes a captured segment: reads the geometry out of an SOF0
    /// segment, opens the scan after SOS.
    fn finish_capture(&mut self)
        requires
            old(self).capture_base <= old(self).stbls@.len(),
        ensures
            final(self).machine() == spec_after_capture(old(self).machine()),
            final(self).cfg_unchanged(*old(self)),
            final(self).pos == old(self).pos,
            final(self).packet_id == old(self).packet_id,
    {
        if self.marker == M_SOF0 {
            if self.stbls.len() - self.capture_base >= 5 {
                let b = self.capture_base;
                self.height = ((self.stbls[b + 1] as u16) << 8) | (self.stbls[b + 2] as u16);
                self.width = ((self.stbls[b + 3] as u16) << 8) | (self.stbls[b + 4] as u16);
            }
            self.state = State::Marker;
        } else if self.marker == M_SOS {
            self.state = State::Huff;
        } else {
            self.state = State::Marker;
        }
        proof {
            let v = old(self).machine();
            let seg = v.stbls.subrange(v.capture_base as int, v.stbls.len() as int);
            if v.marker == M_SOF0 && seg.len() >= 5 {
                assert(seg[1] == v.stbls[v.capture_base as int + 1]);
                assert(seg[2] == v.stbls[v.capture_base as int + 2]);
                assert(seg[3] == v.stbls[v.capture_base as int + 3]);
                assert(seg[4] == v.stbls[v.capture_base as int + 4]);
            }
            assert(final(self).machine() =~= spec_after_capture(old(self).machine()));
        }
    }

    /// Decides what to do with the marker whose length was just read:
    /// capture it, skip it, or fail the image.
    pub fn have_marker(&mut self) -> (r: Result<(), SsdvError>)
        requires
            old(self).stbls@.len() + old(self).capture_remaining <= STBL_CAP,
            old(self).capture_base <= old(self).stbls@.len(),
        ensures
            ({
                let (v2, e) = spec_have_marker(old(self).machine());
                &&& final(self).machine() == v2
                &&& r == (match e {
                    Some(err) => Err::<(), SsdvError>(err),
                    None => Ok(()),
                })
            }),
            final(self).cfg_unchanged(*old(self)),
            final(self).pos == old(self).pos,
            final(self).packet_id == old(self).packet_id,
    {
        let m = self.marker;
        let data_len: u16 = if self.marker_len >= 2 {
            self.marker_len - 2
        } else {
            0
        };
        if 0xFFC1 <= m && m <= 0xFFCF && m != M_DHT && m != 0xFFC8 && m != 0xFFCC {
            self.state = State::Eoi;
            proof {
                assert(final(self).machine() =~= spec_have_marker(old(self).machine()).0);
            }
            return Err(SsdvError::Progressive);
        }
        if m == M_SOF0 || m == M_SOS || m == M_DRI || m == M_DHT || m == M_DQT {
            if (data_len as usize) > STBL_CAP - self.stbls.len() {
                self.state = State::Eoi;
                proof {
                    assert(final(self).machine() =~= spec_have_marker(old(self).machine()).0);
                }
                return Err(SsdvError::Memory);
            }
            self.capture_base = self.stbls.len();
            if data_len == 0 {
                self.finish_capture();
                proof {
                    assert(final(self).machine() =~= spec_have_marker(old(self).machine()).0);
                }
            } else {
                self.capture_remaining = data_len as usize;
                self.state = State::MarkerData;
                proof {
                    assert(final(self).machine() =~= spec_have_marker(old(self).machine()).0);
                }
            }
            Ok(())
        } else {
            self.skip = data_len as usize;
            self.state = State::Marker;
            proof {
                assert(final(self).machine() =~= spec_have_marker(old(self).machine()).0);
            }
            Ok(())
        }
    }

    /// Folds one input byte into the machine.
    fn process_byte(&mut self, b: u8) -> (r: Result<(), SsdvError>)
        requires
            old(self).stbls@.len() + old(self).capture_remaining <= STBL_CAP,
            old(self).capture_base <= old(self).stbls@.len(),
            old(self).state is MarkerData ==> old(self).capture_remaining >= 1,
        ensures
            ({
                let (v2, e) = spec_step_byte(old(self).machine(), b);
                &&& final(self).machine() == v2
                &&& r == (match e {
                    Some(err) => Err::<(), SsdvError>(err),
                    None => Ok(()),
                })
            }),
            final(self).cfg_unchanged(*old(self)),
            final(self).pos == old(self).pos,
            final(self).packet_id == old(self).packet_id,
    {
        match self.state {
            State::Eoi => {
                return Ok(());
            },
            _ => {},
        }
        if self.skip > 0 {
            self.skip = self.skip - 1;
            proof {
                assert(final(self).machine() =~= spec_step_byte(old(self).machine(), b).0);
            }
            return Ok(());
        }
        match self.state {
            State::Marker => {
                let m: u16 = (self.marker << 8) | (b as u16);
                self.apply_marker(m);
                Ok(())
            },
            State::MarkerLen => {
                if self.len_bytes == 0 {
                    self.marker_len = (b as u16) << 8;
                    self.len_bytes = 1;
                    proof {
                        assert(final(self).machine() =~= spec_step_byte(old(self).machine(), b).0);
                    }
                    Ok(())
                } else {
                    self.marker_len = self.marker_len | (b as u16);
                    self.len_bytes = 0;
                    let r = self.have_marker();
                    r
                }
            },
            State::MarkerData => {
                self.stbls.push(b);
                let was_last = self.capture_remaining <= 1;
                self.capture_remaining = self.capture_remaining - 1;
                if was_last {
                    self.finish_capture();
                }
                proof {
                    assert(final(self).machine() =~= spec_step_byte(old(self).machine(), b).0);
                }
                Ok(())
            },
            State::Huff => {
                if b == 0xFF {
                    self.state = State::Int;
                } else {
                    self.payload.push(b);
                }
                proof {
                    assert(final(self).machine() =~= spec_step_byte(old(self).machine(), b).0);
                }
                Ok(())
            },
            State::Int => {
                if b == 0x00 {
                    self.payload.push(0xFF);
                    self.payload.push(0x00);
                    self.state = State::Huff;
                    proof {
                        assert(final(self).machine() =~= spec_step_byte(old(self).machine(), b).0);
                    }
                    Ok(())
                } else if b == 0xD9 {
                    self.state = State::Eoi;
                    proof {
                        assert(final(self).machine() =~= spec_step_byte(old(self).machine(), b).0);
                    }
                    Ok(())
                } else if 0xD0 <= b && b <= 0xD7 {
                    self.payload.push(0xFF);
                    self.payload.push(b);
                    self.state = State::Huff;
                    proof {
                        assert(final(self).machine() =~= spec_step_byte(old(self).machine(), b).0);
                    }
                    Ok(())
                } else {
                    self.apply_marker(0xFF00u16 | (b as u16));
                    Ok(())
                }
            },
            State::Eoi => Ok(()),
        }
    }

    /// Builds one packet around a payload chunk of at most the payload
    /// region's size; shorter chunks are zero-padded.
    fn make_packet(&self, eoi: bool, chunk: &Vec<u8>) -> (r: Vec<u8>)
        requires
            chunk@.len() <= PAYLOAD_SIZE,
        ensures
            r@ == spec_packet(
                self.ty,
                self.callsign,
                self.image_id,
                self.packet_id,
                self.width,
                self.height,
                self.quality,
                eoi,
                chunk@,
            ),
            r@.len() == PACKET_SIZE,
    {
        let mut out: Vec<u8> = Vec::new();
        out.push(0x55);
        out.push(match self.ty {
            PacketType::Normal => 0x66,
            PacketType::NoFEC => 0x67,
            PacketType::Padding => 0x68,
        });
        out.push(((self.callsign >> 24) & 0xFF) as u8);
        out.push(((self.callsign >> 16) & 0xFF) as u8);
        out.push(((self.callsign >> 8) & 0xFF) as u8);
        out.push((self.callsign & 0xFF) as u8);
        out.push(self.image_id);
        out.push(((self.packet_id >> 8) & 0xFF) as u8);
        out.push((self.packet_id & 0xFF) as u8);
        out.push(((self.width / 16) & 0xFF) as u8);
        out.push(((self.height / 16) & 0xFF) as u8);
        out.push((if eoi {
            8u8
        } else {
            0u8
        }) | (self.quality & 7));
        out.push(0);
        out.push(0);
        out.push(0);
        proof {
            assert(out@ =~= spec_packet_header(
                self.ty,
                self.callsign,
                self.image_id,
                self.packet_id,
                self.width,
                self.height,
                self.quality,
                eoi,
            ));
        }
        let ghost header = out@;
        let mut i: usize = 0;
        while i < chunk.len()
            invariant
                i <= chunk@.len(),
                out@ =~= header + chunk@.take(i as int),
            decreases chunk@.len() - i,
        {
            out.push(chunk[i]);
            i = i + 1;
            proof {
                assert(chunk@.take(i as int) =~= chunk@.take(i - 1).push(chunk@[i - 1]));
                assert(out@ =~= header + chunk@.take(i as int));
            }
        }
        proof {
            assert(chunk@.take(chunk@.len() as int) =~= chunk@);
        }
        while out.len() < HEADER_SIZE + PAYLOAD_SIZE
            invariant
                out@.len() >= header.len() + chunk@.len(),
                out@.len() <= HEADER_SIZE + PAYLOAD_SIZE,
                out@.subrange(0, (header.len() + chunk@.len()) as int) =~= header + chunk@,
                forall|k: int|
                    header.len() + chunk@.len() <= k < out@.len() ==> out@[k] == 0u8,
            decreases HEADER_SIZE + PAYLOAD_SIZE - out@.len(),
        {
            out.push(0);
        }
        proof {
            assert(out@.len() == HEADER_SIZE + PAYLOAD_SIZE);
            assert forall|k: int| 0 <= k < out@.len() implies out@[k] == (header
                + spec_pad_payload(chunk@))[k] by {
                if k < header.len() + chunk@.len() {
                    assert(out@[k] == out@.subrange(
                        0,
                        (header.len() + chunk@.len()) as int,
                    )[k]);
                }
            }
            assert(out@ =~= header + spec_pad_payload(chunk@));
        }
        let ghost front = out@;
        let crc = crc32::compute(slice_subrange(out.as_slice(), 1, HEADER_SIZE + PAYLOAD_SIZE));
        out.push(((crc >> 24) & 0xFF) as u8);
        out.push(((crc >> 16) & 0xFF) as u8);
        out.push(((crc >> 8) & 0xFF) as u8);
        out.push((crc & 0xFF) as u8);
        proof {
            assert(out@ =~= front + spec_packet_crc(front));
            assert(out@ =~= spec_packet(
                self.ty,
                self.callsign,
                self.image_id,
                self.packet_id,
                self.width,
                self.height,
                self.quality,
                eoi,
                chunk@,
            ));
        }
        out
    }

    /// Takes up to one payload region's worth of pending bytes out of
    /// the accumulator.
    fn take_chunk(&mut self) -> (r: Vec<u8>)
        ensures
            final(self).machine() == (EncView {
                payload: old(self).payload@.skip(
                    if old(self).payload@.len() >= PAYLOAD_SIZE {
                        PAYLOAD_SIZE as int
                    } else {
                        old(self).payload@.len() as int
                    },
                ),
                ..old(self).machine()
            }),
            r@ == old(self).payload@.take(
                if old(self).payload@.len() >= PAYLOAD_SIZE {
                    PAYLOAD_SIZE as int
                } else {
                    old(self).payload@.len() as int
                },
            ),
            final(self).cfg_unchanged(*old(self)),
            final(self).pos == old(self).pos,
            final(self).packet_id == old(self).packet_id,
            final(self).state == old(self).state,
    {
        let k: usize = if self.payload.len() >= PAYLOAD_SIZE {
            PAYLOAD_SIZE
        } else {
            self.payload.len()
        };
        let mut chunk: Vec<u8> = Vec::new();
        let mut i: usize = 0;
        while i < k
            invariant
                i <= k,
                k <= self.payload@.len(),
                self == old(self),
                chunk@ =~= self.payload@.take(i as int),
            decreases k - i,
        {
            chunk.push(self.payload[i]);
            i = i + 1;
            proof {
                assert(self.payload@.take(i as int) =~= self.payload@.take(i - 1).push(
                    self.payload@[i - 1],
                ));
            }
        }
        let mut rest: Vec<u8> = Vec::new();
        let mut j: usize = k;
        while j < self.payload.len()
            invariant
                k <= j <= self.payload@.len(),
                self == old(self),
                rest@ =~= self.payload@.subrange(k as int, j as int),
            decreases self.payload@.len() - j,
        {
            rest.push(self.payload[j]);
            j = j + 1;
            proof {
                assert(self.payload@.subrange(k as int, j as int) =~= self.payload@.subrange(
                    k as int,
                    j - 1,
                ).push(self.payload@[j - 1]));
            }
        }
        self.payload = rest;
        proof {
            assert(final(self).machine() =~= EncView {
                payload: old(self).payload@.skip(k as int),
                ..old(self).machine()
            });
        }
        chunk
    }

    /// How much work a pull can still do: unread input, plus one for
    /// an image not yet closed. Every produced item strictly lowers it,
    /// so the packet sequence of any input is finite.
    pub open spec fn pull_measure(self) -> nat {
        (2 * (self.input@.len() - self.pos) + (if self.state is Eoi {
            0int
        } else {
            1int
        })) as nat
    }

    /// Pulls the next packet of the image.
    ///
    /// Returns `None` once the machine is terminal: after the packet
    /// that carried the end of the image, after a failure, or at once on
    /// an empty tail. Every `Some` either consumed input or finished the
    /// image, so the sequence of packets is finite. A failure is final:
    /// the machine lands in the terminal state and the next pull
    /// returns `None`.
    pub fn next_packet(&mut self) -> (r: Option<Result<Vec<u8>, SsdvError>>)
        requires
            old(self).wf(),
        ensures
            final(self).wf(),
            final(self).cfg_unchanged(*old(self)),
            old(self).pos <= final(self).pos <= final(self).input@.len(),
            old(self).state is Eoi ==> r is None && *final(self) == *old(self),
            r is None ==> final(self).state is Eoi && final(self).packet_id == old(
                self,
            ).packet_id,
            r is Some ==> (final(self).pos > old(self).pos || final(self).state is Eoi),
            r is Some ==> final(self).pull_measure() < old(self).pull_measure(),
            ({
                let v0 = old(self).machine();
                let c = final(self).input@.subrange(old(self).pos as int, final(self).pos as int);
                let vr = run_machine(v0, c);
                &&& (r matches Some(Err(e)) ==> {
                    &&& final(self).machine() == vr
                    &&& final(self).state is Eoi
                    &&& c.len() > 0
                    &&& spec_step_byte(run_machine(v0, c.drop_last()), c.last()).1 == Some(e)
                    &&& final(self).packet_id == old(self).packet_id
                })
                &&& (r matches Some(Ok(p)) ==> {
                    &&& final(self).packet_id == spec_next_packet_id(old(self).packet_id)
                    &&& p@.len() == PACKET_SIZE
                    &&& if vr.payload.len() >= PAYLOAD_SIZE {
                        &&& p@ == spec_packet(
                            old(self).ty,
                            old(self).callsign,
                            old(self).image_id,
                            old(self).packet_id,
                            vr.width,
                            vr.height,
                            old(self).quality,
                            false,
                            vr.payload.take(PAYLOAD_SIZE as int),
                        )
                        &&& final(self).machine() == EncView {
                            payload: vr.payload.skip(PAYLOAD_SIZE as int),
                            ..vr
                        }
                    } else {
                        &&& vr.payload.len() > 0
                        &&& p@ == spec_packet(
                            old(self).ty,
                            old(self).callsign,
                            old(self).image_id,
                            old(self).packet_id,
                            vr.width,
                            vr.height,
                            old(self).quality,
                            true,
                            vr.payload,
                        )
                        &&& final(self).machine() == EncView {
                            state: State::Eoi,
                            payload: Seq::<u8>::empty(),
                            ..vr
                        }
                        &&& (vr.state is Eoi || final(self).pos == final(self).input@.len())
                    }
                })
                &&& ((r is None && !(old(self).state is Eoi)) ==> {
                    &&& vr.payload.len() == 0
                    &&& final(self).machine() == EncView { state: State::Eoi, ..vr }
                    &&& (vr.state is Eoi || final(self).pos == final(self).input@.len())
                })
            }),
    {
        match self.state {
            State::Eoi => {
                return None;
            },
            _ => {},
        }
        let ghost v0 = old(self).machine();
        let ghost pos0 = old(self).pos as int;
        while self.pos < self.input.len()
            invariant
                old(self).pos <= self.pos <= self.input@.len(),
                self.cfg_unchanged(*old(self)),
                self.packet_id == old(self).packet_id,
                self.machine() == run_machine(v0, self.input@.subrange(pos0, self.pos as int)),
                v0 == old(self).machine(),
                pos0 == old(self).pos as int,
                self.stbls@.len() + self.capture_remaining <= STBL_CAP,
                self.capture_base <= self.stbls@.len(),
                self.state is MarkerData ==> self.capture_remaining >= 1,
                self.len_bytes <= 1,
                self.payload@.len() < PAYLOAD_SIZE,
                !(self.state is Eoi),
                !(v0.state is Eoi),
                self.quality <= 7,
            decreases self.input@.len() - self.pos,
        {
            let ghost c_prev = self.input@.subrange(pos0, self.pos as int);
            let b = self.input[self.pos];
            self.pos = self.pos + 1;
            let ghost c_now = self.input@.subrange(pos0, self.pos as int);
            proof {
                assert(c_now =~= c_prev.push(b));
                lemma_run_snoc(v0, c_prev, b);
            }
            let step = self.process_byte(b);
            match step {
                Err(e) => {
                    proof {
                        assert(c_now.drop_last() =~= c_prev);
                        assert(c_now.last() == b);
                    }
                    return Some(Err(e));
                },
                Ok(()) => {},
            }
            let terminal = match self.state {
                State::Eoi => true,
                _ => false,
            };
            if terminal {
                if self.payload.len() > 0 {
                    let chunk = self.take_chunk();
                    let p = self.make_packet(true, &chunk);
                    self.packet_id = self.packet_id.wrapping_add(1);
                    proof {
                        let vr = run_machine(v0, c_now);
                        assert(vr.payload.skip(vr.payload.len() as int) =~= Seq::<u8>::empty());
                        assert(vr.payload.take(vr.payload.len() as int) =~= vr.payload);
                        assert(final(self).machine() =~= EncView {
                            state: State::Eoi,
                            payload: Seq::<u8>::empty(),
                            ..vr
                        });
                    }
                    return Some(Ok(p));
                } else {
                    return None;
                }
            }
            if self.payload.len() >= PAYLOAD_SIZE {
                let chunk = self.take_chunk();
                let p = self.make_packet(false, &chunk);
                self.packet_id = self.packet_id.wrapping_add(1);
                return Some(Ok(p));
            }
        }
        // The input ran out before the end-of-image marker: close the
        // image all the same.
        self.state = State::Eoi;
        if self.payload.len() > 0 {
            let chunk = self.take_chunk();
            let p = self.make_packet(true, &chunk);
            self.packet_id = self.packet_id.wrapping_add(1);
            proof {
                let vr = run_machine(v0, self.input@.subrange(pos0, self.pos as int));
                assert(vr.payload.skip(vr.payload.len() as int) =~= Seq::<u8>::empty());
                assert(vr.payload.take(vr.payload.len() as int) =~= vr.payload);
                assert(final(self).machine() =~= EncView {
                    state: State::Eoi,
                    payload: Seq::<u8>::empty(),
                    ..vr
                });
            }
            return Some(Ok(p));
        }
        proof {
            let vr = run_machine(v0, self.input@.subrange(pos0, self.pos as int));
            assert(final(self).machine() =~= EncView { state: State::Eoi, ..vr });
        }
        None
    }
}

} // verus!
