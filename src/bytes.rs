use vstd::prelude::*;

verus! {

/// The byte of `d` at `p`.
pub open spec fn u8_at(d: Seq<u8>, p: int) -> u8 {
    d[p]
}

/// The unsigned value of the four little-endian bytes of `d` at `p`.
pub open spec fn le_u32(d: Seq<u8>, p: int) -> int {
    d[p] + 256 * d[p + 1] + 65536 * d[p + 2] + 16777216 * d[p + 3]
}

/// The four little-endian bytes of `d` at `p`, as an unsigned 32-bit value
/// (the bit pattern of a float).
pub open spec fn u32_at(d: Seq<u8>, p: int) -> u32 {
    le_u32(d, p) as u32
}

/// The four little-endian bytes of `d` at `p`, read as a two's-complement
/// signed 32-bit value.
pub open spec fn i32_at(d: Seq<u8>, p: int) -> i32 {
    let u = le_u32(d, p);
    (if u >= 0x8000_0000 { u - 0x1_0000_0000 } else { u }) as i32
}

/// Four little-endian bytes read as an unsigned 32-bit value.
pub fn u32_from_le(b0: u8, b1: u8, b2: u8, b3: u8) -> (r: u32)
    ensures
        r == le_u32(seq![b0, b1, b2, b3], 0),
{
    let r: u32 = b0 as u32 + 256 * (b1 as u32) + 65536 * (b2 as u32) + 16777216 * (b3 as u32);
    r
}

/// Four little-endian bytes read as a two's-complement signed 32-bit value.
pub fn i32_from_le(b0: u8, b1: u8, b2: u8, b3: u8) -> (r: i32)
    ensures
        r == i32_at(seq![b0, b1, b2, b3], 0),
{
    let u = u32_from_le(b0, b1, b2, b3);
    let wide: i64 = if u >= 0x8000_0000 { u as i64 - 0x1_0000_0000 } else { u as i64 };
    wide as i32
}

} // verus!
