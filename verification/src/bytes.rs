//! Big-endian byte decompositions of the header's two- and four-byte
//! integer fields.

use vstd::prelude::*;

verus! {

/// The two big-endian bytes of `x`.
pub open spec fn spec_u16_bytes(x: u16) -> Seq<u8> {
    seq![(x / 0x100) as u8, (x % 0x100) as u8]
}

/// The integer two big-endian bytes denote.
pub open spec fn spec_u16_from_bytes(hi: u8, lo: u8) -> u16 {
    (hi * 0x100 + lo) as u16
}

/// The four big-endian bytes of `x`.
pub open spec fn spec_u32_bytes(x: u32) -> Seq<u8> {
    seq![
        (x / 0x100_0000) as u8,
        ((x / 0x1_0000) % 0x100) as u8,
        ((x / 0x100) % 0x100) as u8,
        (x % 0x100) as u8,
    ]
}

/// The integer four big-endian bytes denote.
pub open spec fn spec_u32_from_bytes(b0: u8, b1: u8, b2: u8, b3: u8) -> u32 {
    (b0 * 0x100_0000 + b1 * 0x1_0000 + b2 * 0x100 + b3) as u32
}

/// Reassembling the two bytes of `x` yields `x`.
pub proof fn lemma_u16_bytes_roundtrip(x: u16)
    ensures
        spec_u16_from_bytes(spec_u16_bytes(x)[0], spec_u16_bytes(x)[1]) == x,
{
}

/// Reassembling the four bytes of `x` yields `x`.
pub proof fn lemma_u32_bytes_roundtrip(x: u32)
    ensures
        spec_u32_from_bytes(
            spec_u32_bytes(x)[0],
            spec_u32_bytes(x)[1],
            spec_u32_bytes(x)[2],
            spec_u32_bytes(x)[3],
        ) == x,
{
    assert((x / 0x100_0000) * 0x100_0000 + ((x / 0x1_0000) % 0x100) * 0x1_0000 + ((x / 0x100)
        % 0x100) * 0x100 + x % 0x100 == x) by (nonlinear_arith);
}

/// Emit the two big-endian bytes of `x`.
pub fn u16_to_bytes(x: u16) -> (r: (u8, u8))
    ensures
        seq![r.0, r.1] == spec_u16_bytes(x),
{
    ((x / 0x100) as u8, (x % 0x100) as u8)
}

/// Read an integer from two big-endian bytes.
pub fn u16_from_bytes(hi: u8, lo: u8) -> (r: u16)
    ensures
        r == spec_u16_from_bytes(hi, lo),
{
    (hi as u16) * 0x100 + (lo as u16)
}

/// Emit the four big-endian bytes of `x`.
pub fn u32_to_bytes(x: u32) -> (r: (u8, u8, u8, u8))
    ensures
        seq![r.0, r.1, r.2, r.3] == spec_u32_bytes(x),
{
    (
        (x / 0x100_0000) as u8,
        ((x / 0x1_0000) % 0x100) as u8,
        ((x / 0x100) % 0x100) as u8,
        (x % 0x100) as u8,
    )
}

/// Read an integer from four big-endian bytes.
pub fn u32_from_bytes(b0: u8, b1: u8, b2: u8, b3: u8) -> (r: u32)
    ensures
        r == spec_u32_from_bytes(b0, b1, b2, b3),
{
    (b0 as u32) * 0x100_0000 + (b1 as u32) * 0x1_0000 + (b2 as u32) * 0x100 + (b3 as u32)
}

} // verus!
