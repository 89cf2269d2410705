//! Little-endian integers in byte strings.

use vstd::prelude::*;

verus! {

/// The 16-bit little-endian value at offset `at`.
pub open spec fn le_u16(b: Seq<u8>, at: int) -> int
    recommends
        0 <= at,
        at + 2 <= b.len(),
{
    b[at] as int + b[at + 1] as int * 0x100
}

/// The 32-bit little-endian value at offset `at`.
pub open spec fn le_u32(b: Seq<u8>, at: int) -> int
    recommends
        0 <= at,
        at + 4 <= b.len(),
{
    b[at] as int + b[at + 1] as int * 0x100 + b[at + 2] as int * 0x1_0000 + b[at + 3] as int
        * 0x100_0000
}

/// The four little-endian bytes of a 32-bit value.
pub open spec fn u32_le_bytes(x: u32) -> Seq<u8> {
    seq![
        (x as int % 0x100) as u8,
        (x as int / 0x100 % 0x100) as u8,
        (x as int / 0x1_0000 % 0x100) as u8,
        (x as int / 0x100_0000) as u8,
    ]
}

/// Reading back the bytes of a value gives the value.
pub proof fn lemma_u32_le_round_trip(x: u32)
    ensures
        u32_le_bytes(x).len() == 4,
        le_u32(u32_le_bytes(x), 0) == x,
{
}

/// Reads a 16-bit little-endian value.
pub fn read_u16_le(b: &[u8], at: usize) -> (r: u16)
    requires
        at + 2 <= b@.len(),
    ensures
        r == le_u16(b@, at as int),
{
    b[at] as u16 + b[at + 1] as u16 * 0x100
}

/// Reads a 32-bit little-endian value.
pub fn read_u32_le(b: &[u8], at: usize) -> (r: u32)
    requires
        at + 4 <= b@.len(),
    ensures
        r == le_u32(b@, at as int),
{
    b[at] as u32 + b[at + 1] as u32 * 0x100 + b[at + 2] as u32 * 0x1_0000 + b[at + 3] as u32
        * 0x100_0000
}

/// Appends the four little-endian bytes of `x`.
pub fn push_u32_le(out: &mut Vec<u8>, x: u32)
    ensures
        final(out)@ == old(out)@ + u32_le_bytes(x),
{
    out.push((x % 0x100) as u8);
    out.push((x / 0x100 % 0x100) as u8);
    out.push((x / 0x1_0000 % 0x100) as u8);
    out.push((x / 0x100_0000) as u8);
    assert(out@ =~= old(out)@ + u32_le_bytes(x));
}

} // verus!
