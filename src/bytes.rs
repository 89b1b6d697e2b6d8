//! Big-endian byte layouts and the facts that tie shifts and masks to them.
use vstd::prelude::*;

verus! {

/// The byte `0` or `1` that a flag is sent as.
pub open spec fn bool_byte(b: bool) -> u8 {
    if b {
        1
    } else {
        0
    }
}

/// The two bytes of `x`, most significant first.
pub open spec fn be_u16(x: u16) -> Seq<u8> {
    seq![(x / 0x100) as u8, (x % 0x100) as u8]
}

/// The low three bytes of `x`, most significant first (the top byte is dropped).
pub open spec fn be_u24(x: u32) -> Seq<u8> {
    seq![(x / 0x1_0000 % 0x100) as u8, (x / 0x100 % 0x100) as u8, (x % 0x100) as u8]
}

/// The four bytes of `x`, most significant first.
pub open spec fn be_u32(x: u32) -> Seq<u8> {
    seq![(x / 0x100_0000) as u8, (x / 0x1_0000 % 0x100) as u8, (x / 0x100 % 0x100) as u8, (x % 0x100) as u8]
}

/// The number that a most-significant-first pair of bytes stands for.
pub open spec fn be_value(hi: u8, lo: u8) -> nat {
    hi as nat * 0x100 + lo as nat
}

/// Sends a flag as one byte.
pub fn flag_byte(b: bool) -> (r: u8)
    ensures
        r == bool_byte(b),
{
    if b {
        1
    } else {
        0
    }
}

/// Splits `x` into its two bytes, most significant first.
pub fn split_u16(x: u16) -> (r: (u8, u8))
    ensures
        seq![r.0, r.1] == be_u16(x),
{
    assert((x >> 8) as u8 == (x / 0x100) as u8 && x as u8 == (x % 0x100) as u8) by (bit_vector);
    ((x >> 8) as u8, x as u8)
}

/// Splits the low three bytes of `x`, most significant first.
pub fn split_u24(x: u32) -> (r: (u8, u8, u8))
    ensures
        seq![r.0, r.1, r.2] == be_u24(x),
{
    assert((x >> 16) as u8 == (x / 0x1_0000 % 0x100) as u8 && (x >> 8) as u8 == (x / 0x100
        % 0x100) as u8 && x as u8 == (x % 0x100) as u8) by (bit_vector);
    ((x >> 16) as u8, (x >> 8) as u8, x as u8)
}

/// Splits `x` into its four bytes, most significant first.
pub fn split_u32(x: u32) -> (r: (u8, u8, u8, u8))
    ensures
        seq![r.0, r.1, r.2, r.3] == be_u32(x),
{
    assert((x >> 24) as u8 == (x / 0x100_0000) as u8 && (x >> 16) as u8 == (x / 0x1_0000
        % 0x100) as u8 && (x >> 8) as u8 == (x / 0x100 % 0x100) as u8 && x as u8 == (x
        % 0x100) as u8) by (bit_vector);
    ((x >> 24) as u8, (x >> 16) as u8, (x >> 8) as u8, x as u8)
}

/// Joins two bytes, most significant first, into one word.
pub fn join_u16(hi: u8, lo: u8) -> (r: u16)
    ensures
        r as nat == be_value(hi, lo),
{
    assert(((hi as u16) << 8 | lo as u16) == hi as u16 * 0x100 + lo as u16) by (bit_vector);
    (hi as u16) << 8 | lo as u16
}

} // verus!
