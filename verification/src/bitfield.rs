//! Little-endian multi-byte reassembly and extraction of packed bit fields
//! from a short run of bytes.

use vstd::prelude::*;

verus! {

/// The 16-bit value carried by two consecutive report bytes, least-significant
/// byte first.
pub open spec fn spec_le_u16(lo: u8, hi: u8) -> u16 {
    (lo + hi * 256) as u16
}

/// Reassembles a 16-bit little-endian value from its two bytes.
pub fn little_endian_u16(lo: u8, hi: u8) -> (r: u16)
    ensures
        r == spec_le_u16(lo, hi),
{
    proof {
        assert((lo as u16) | ((hi as u16) << 8) == (lo + hi * 256) as u16) by (bit_vector);
        assert(lo + hi * 256 <= 0xFFFF) by (bit_vector);
    }
    (lo as u16) | ((hi as u16) << 8)
}

/// The 32-bit value in which a three-byte coordinate window travels: the
/// window occupies the high three bytes and the low byte is zero.
pub open spec fn spec_window_u32(b0: u8, b1: u8, b2: u8) -> u32 {
    ((b0 as u32) << 8) | ((b1 as u32) << 16) | ((b2 as u32) << 24)
}

/// The `width`-bit field found `shift` bits up from the bottom of the window
/// value of `(b0, b1, b2)`.
pub open spec fn spec_extract_bits(b0: u8, b1: u8, b2: u8, shift: u32, width: u32) -> u16
    recommends
        shift < 32,
        width <= 16,
{
    ((spec_window_u32(b0, b1, b2) >> shift) & (((1u32 << width) - 1) as u32)) as u16
}

/// The X coordinate packed into a three-byte touch window.
pub open spec fn spec_touch_x(b0: u8, b1: u8, b2: u8) -> u16 {
    spec_extract_bits(b0, b1, b2, 8, 12)
}

/// The Y coordinate packed into a three-byte touch window.
pub open spec fn spec_touch_y(b0: u8, b1: u8, b2: u8) -> u16 {
    spec_extract_bits(b0, b1, b2, 20, 12)
}

/// Extracts the `width`-bit field `shift` bits up from the bottom of the
/// window value of the three bytes.
pub fn extract_bits(b0: u8, b1: u8, b2: u8, shift: u32, width: u32) -> (r: u16)
    requires
        shift < 32,
        width <= 16,
    ensures
        r == spec_extract_bits(b0, b1, b2, shift, width),
{
    let value: u32 = ((b0 as u32) << 8) | ((b1 as u32) << 16) | ((b2 as u32) << 24);
    proof {
        assert(1u32 << width >= 1) by (bit_vector)
            requires
                width <= 16,
        ;
    }
    let mask: u32 = (1u32 << width) - 1;
    ((value >> shift) & mask) as u16
}

/// How the two 12-bit coordinates sit in a three-byte window: byte 0 carries
/// the low eight bits of X, the low nibble of byte 1 the high four bits of X,
/// the high nibble of byte 1 the low four bits of Y, and byte 2 the high
/// eight bits of Y. Both coordinates fit in twelve bits.
pub proof fn lemma_touch_packing(b0: u8, b1: u8, b2: u8)
    ensures
        spec_touch_x(b0, b1, b2) == (b0 as u16) | (((b1 as u16) & 0x0F) << 8),
        spec_touch_y(b0, b1, b2) == ((b1 as u16) >> 4) | ((b2 as u16) << 4),
        spec_touch_x(b0, b1, b2) <= 0xFFF,
        spec_touch_y(b0, b1, b2) <= 0xFFF,
{
    assert(spec_touch_x(b0, b1, b2) == (b0 as u16) | (((b1 as u16) & 0x0F) << 8))
        by (bit_vector);
    assert(spec_touch_y(b0, b1, b2) == ((b1 as u16) >> 4) | ((b2 as u16) << 4))
        by (bit_vector);
    assert(spec_touch_x(b0, b1, b2) <= 0xFFF) by (bit_vector);
    assert(spec_touch_y(b0, b1, b2) <= 0xFFF) by (bit_vector);
}

} // verus!
