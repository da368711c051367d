//! AX.25 address-field encoding.
//!
//! A station is a 6-byte callsign (uppercase ASCII, space padded) plus a
//! 4-bit SSID. On the air each station takes 7 octets: the callsign bytes
//! shifted left by one bit, then an SSID octet. The low bit of the SSID
//! octet is set only on the last address of the field, which for these
//! frames is always the source; the destination comes first with the bit
//! clear.

use vstd::prelude::*;

verus! {

/// Destination station: raw callsign bytes and SSID, not yet shifted.
#[derive(Debug, Clone, Copy, PartialEq, Eq, Hash)]
pub struct Dest {
    pub call_sign: [u8; 6],
    pub ssid: u8,
}

/// Source station: raw callsign bytes and SSID, not yet shifted.
#[derive(Debug, Clone, Copy, PartialEq, Eq, Hash)]
pub struct Source {
    pub call_sign: [u8; 6],
    pub ssid: u8,
}

/// The address pair of a frame: destination first, then source.
#[derive(Debug, Clone, Copy, PartialEq, Eq, Hash)]
pub struct Header {
    pub dest: Dest,
    pub source: Source,
}

/// A position broken into whole degrees, minutes and seconds.
#[derive(Debug, Clone, Copy, PartialEq, Eq, Hash)]
pub struct Coordinate {
    pub degree: i16,
    pub minute: u8,
    pub second: u8,
}

/// A callsign byte on the air: shifted left one bit, low bit clear.
pub open spec fn spec_shifted_byte(c: u8) -> u8 {
    c << 1
}

/// The SSID octet: `(ssid + '0') << 1`, low bit set only on the last
/// address of the field.
pub open spec fn spec_ssid_octet(ssid: u8, is_last: bool) -> u8 {
    if is_last {
        (((ssid + 48) as u8) << 1) | 1
    } else {
        ((ssid + 48) as u8) << 1
    }
}

/// The 7 octets of one encoded address.
pub open spec fn spec_address(call_sign: Seq<u8>, ssid: u8, is_last: bool) -> Seq<u8> {
    Seq::new(7, |i: int| if i < 6 {
        spec_shifted_byte(call_sign[i])
    } else {
        spec_ssid_octet(ssid, is_last)
    })
}

/// Encodes one station into its 7 address octets.
///
/// The callsign bytes are taken as given: a callsign that is not
/// uppercase ASCII or space is shifted all the same.
pub fn encode_address(call_sign: &[u8; 6], ssid: u8, is_last: bool) -> (r: [u8; 7])
    requires
        ssid < 16,
    ensures
        r@ == spec_address(call_sign@, ssid, is_last),
{
    let ssid_octet: u8 = if is_last {
        ((ssid + 48) << 1) | 1
    } else {
        (ssid + 48) << 1
    };
    let r: [u8; 7] = [
        call_sign[0] << 1,
        call_sign[1] << 1,
        call_sign[2] << 1,
        call_sign[3] << 1,
        call_sign[4] << 1,
        call_sign[5] << 1,
        ssid_octet,
    ];
    proof {
        assert(r@ =~= spec_address(call_sign@, ssid, is_last));
    }
    r
}

/// The low bit of the SSID octet marks the end of the address field: it
/// is clear on every destination and set on every source, whatever the
/// callsign and SSID.
pub proof fn lemma_address_termination_bit(call_sign: Seq<u8>, ssid: u8)
    requires
        ssid < 16,
    ensures
        spec_address(call_sign, ssid, false)[6] & 1 == 0,
        spec_address(call_sign, ssid, true)[6] & 1 == 1,
{
    let x = (ssid + 48) as u8;
    assert((x << 1) & 1 == 0) by (bit_vector);
    assert(((x << 1) | 1) & 1 == 1) by (bit_vector);
}

/// The raw byte image of an address pair: both stations' stored bytes
/// verbatim, then the control byte 0x03 and the PID byte 0xF0.
pub open spec fn spec_header_raw_bytes(h: Header) -> Seq<u8> {
    h.dest.call_sign@ + seq![h.dest.ssid] + h.source.call_sign@ + seq![h.source.ssid]
        + seq![0x03u8, 0xF0u8]
}

impl Header {
    /// Lays the stored address bytes out as the 16 header octets,
    /// without shifting them.
    pub fn to_bytes(&self) -> (r: [u8; 16])
        ensures
            r@ == spec_header_raw_bytes(*self),
    {
        let dcs = self.dest.call_sign;
        let scs = self.source.call_sign;
        let r: [u8; 16] = [
            dcs[0],
            dcs[1],
            dcs[2],
            dcs[3],
            dcs[4],
            dcs[5],
            self.dest.ssid,
            scs[0],
            scs[1],
            scs[2],
            scs[3],
            scs[4],
            scs[5],
            self.source.ssid,
            0x03,
            0xF0,
        ];
        proof {
            assert(r@ =~= spec_header_raw_bytes(*self));
        }
        r
    }
}

} // verus!
