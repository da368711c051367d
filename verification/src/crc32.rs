//! CRC-32 used for the trailing check bytes of an SSDV packet.
//!
//! Same bit-serial structure as the frame CRC: the register starts at
//! `0xFFFFFFFF`, data bytes are folded in least-significant bit first
//! with the reversed polynomial `0xEDB88320`, and the final register
//! value is complemented.

use vstd::prelude::*;

verus! {

/// Seed value of the CRC-32 register.
pub const CRC32_INIT: u32 = 0xFFFFFFFF;

/// Reversed CRC-32 polynomial.
pub const CRC32_POLY: u32 = 0xEDB88320;

/// One bit folded into the register. `bit` is 0 or 1.
pub open spec fn crc32_step_bit(state: u32, bit: u8) -> u32 {
    let x = state ^ (bit as u32);
    if x & 1 == 1 {
        (x >> 1) ^ CRC32_POLY
    } else {
        x >> 1
    }
}

/// The register after folding in the low `k` bits of `byte`,
/// least-significant bit first.
pub open spec fn crc32_fold_bits(state: u32, byte: u8, k: nat) -> u32
    decreases k,
{
    if k == 0 {
        state
    } else {
        crc32_step_bit(crc32_fold_bits(state, byte, (k - 1) as nat), (byte >> ((k - 1) as u8)) & 1)
    }
}

/// The register after folding in one whole byte.
pub open spec fn crc32_update(state: u32, byte: u8) -> u32 {
    crc32_fold_bits(state, byte, 8)
}

/// The register after folding in a byte sequence, in order.
pub open spec fn crc32_fold(state: u32, bytes: Seq<u8>) -> u32
    decreases bytes.len(),
{
    if bytes.len() == 0 {
        state
    } else {
        crc32_update(crc32_fold(state, bytes.drop_last()), bytes.last())
    }
}

/// The finished checksum of a byte sequence: seeded fold, complemented.
pub open spec fn crc32_of(bytes: Seq<u8>) -> u32 {
    crc32_fold(CRC32_INIT, bytes) ^ 0xFFFFFFFF
}

/// Folds one byte into the CRC-32 register.
pub fn update(state: u32, byte: u8) -> (r: u32)
    ensures
        r == crc32_update(state, byte),
{
    let mut crc: u32 = state;
    let mut i: u8 = 0;
    while i < 8
        invariant
            i <= 8,
            crc == crc32_fold_bits(state, byte, i as nat),
        decreases 8 - i,
    {
        let bit: u8 = (byte >> i) & 1;
        let x: u32 = crc ^ (bit as u32);
        crc = if x & 1 == 1 {
            (x >> 1) ^ CRC32_POLY
        } else {
            x >> 1
        };
        i = i + 1;
    }
    crc
}

/// The finished checksum of a byte slice.
pub fn compute(bytes: &[u8]) -> (r: u32)
    ensures
        r == crc32_of(bytes@),
{
    let mut crc: u32 = CRC32_INIT;
    let mut i: usize = 0;
    while i < bytes.len()
        invariant
            i <= bytes@.len(),
            crc == crc32_fold(CRC32_INIT, bytes@.take(i as int)),
        decreases bytes@.len() - i,
    {
        proof {
            assert(bytes@.take(i + 1).drop_last() =~= bytes@.take(i as int));
            assert(bytes@.take(i + 1).last() == bytes@[i as int]);
        }
        crc = update(crc, bytes[i]);
        i = i + 1;
    }
    proof {
        assert(bytes@.take(bytes@.len() as int) =~= bytes@);
    }
    crc ^ 0xFFFFFFFF
}

} // verus!
