//! CRC-16/CCITT (reversed) accumulator used by the packet framer.
//!
//! The register starts at `0xFFFF`; each data byte is folded in bit by bit,
//! least-significant bit first, with polynomial `0x8408`. The two check
//! bytes appended to a frame are the complemented low and high halves of
//! the final register value, in that order.

use vstd::prelude::*;

verus! {

/// Seed value of the CRC register.
pub const CRC_INIT: u16 = 0xFFFF;

/// Reversed CRC-16/CCITT polynomial.
pub const CRC_POLY: u16 = 0x8408;

/// One bit folded into the register. `bit` is 0 or 1.
pub open spec fn crc_step_bit(state: u16, bit: u8) -> u16 {
    let x = state ^ (bit as u16);
    if x & 1 == 1 {
        (x >> 1) ^ CRC_POLY
    } else {
        x >> 1
    }
}

/// The register after folding in the low `k` bits of `byte`,
/// least-significant bit first.
pub open spec fn crc_fold_bits(state: u16, byte: u8, k: nat) -> u16
    decreases k,
{
    if k == 0 {
        state
    } else {
        crc_step_bit(crc_fold_bits(state, byte, (k - 1) as nat), (byte >> ((k - 1) as u8)) & 1)
    }
}

/// The register after folding in one whole byte.
pub open spec fn crc_update(state: u16, byte: u8) -> u16 {
    crc_fold_bits(state, byte, 8)
}

/// The register after folding in a byte sequence, in order.
pub open spec fn crc_fold(state: u16, bytes: Seq<u8>) -> u16
    decreases bytes.len(),
{
    if bytes.len() == 0 {
        state
    } else {
        crc_update(crc_fold(state, bytes.drop_last()), bytes.last())
    }
}

/// Low check byte: complemented low half of the register.
pub open spec fn crc_low_byte(state: u16) -> u8 {
    ((state ^ 0xFFFF) & 0xFF) as u8
}

/// High check byte: complemented high half of the register.
pub open spec fn crc_high_byte(state: u16) -> u8 {
    (((state >> 8) ^ 0xFF) & 0xFF) as u8
}

/// Folds one byte into the CRC register, least-significant bit first.
pub fn update(state: u16, byte: u8) -> (r: u16)
    ensures
        r == crc_update(state, byte),
{
    let mut crc: u16 = state;
    let mut i: u8 = 0;
    while i < 8
        invariant
            i <= 8,
            crc == crc_fold_bits(state, byte, i as nat),
        decreases 8 - i,
    {
        let bit: u8 = (byte >> i) & 1;
        let x: u16 = crc ^ (bit as u16);
        crc = if x & 1 == 1 {
            (x >> 1) ^ CRC_POLY
        } else {
            x >> 1
        };
        i = i + 1;
    }
    crc
}

/// Folds a whole byte sequence into the CRC register, starting from `state`.
pub fn fold(state: u16, bytes: &[u8]) -> (r: u16)
    ensures
        r == crc_fold(state, bytes@),
{
    let mut crc: u16 = state;
    let mut i: usize = 0;
    while i < bytes.len()
        invariant
            i <= bytes@.len(),
            crc == crc_fold(state, bytes@.take(i as int)),
        decreases bytes@.len() - i,
    {
        proof {
            assert(bytes@.take(i + 1).drop_last() =~= bytes@.take(i as int));
            assert(bytes@.take(i + 1).last() == bytes@[i as int]);
        }
        crc = update(crc, bytes[i]);
        i = i + 1;
    }
    proof {
        assert(bytes@.take(bytes@.len() as int) =~= bytes@);
    }
    crc
}

/// Returns the two check bytes for a final register value, low byte first.
pub fn finalize(state: u16) -> (r: (u8, u8))
    ensures
        r.0 == crc_low_byte(state),
        r.1 == crc_high_byte(state),
{
    (((state ^ 0xFFFF) & 0xFF) as u8, (((state >> 8) ^ 0xFF) & 0xFF) as u8)
}

/// The checksum is a function of the input bytes alone: two computations
/// over equal byte sequences, each from the standard seed, end in the same
/// register value and so in the same pair of check bytes.
pub proof fn lemma_crc_deterministic(a: Seq<u8>, b: Seq<u8>)
    requires
        a == b,
    ensures
        crc_fold(CRC_INIT, a) == crc_fold(CRC_INIT, b),
        crc_low_byte(crc_fold(CRC_INIT, a)) == crc_low_byte(crc_fold(CRC_INIT, b)),
        crc_high_byte(crc_fold(CRC_INIT, a)) == crc_high_byte(crc_fold(CRC_INIT, b)),
{
}

} // verus!
