//! Little-endian wire format helpers.
//!
//! The mailbox property interface and the boot protocol both move
//! 32-bit words as four little-endian bytes; these are the byte-level
//! readers and writers, stated against one pair of spec functions.

use vstd::prelude::*;

verus! {

/// The 32-bit value stored little-endian at offset `i` of `s`.
pub open spec fn le32_spec(s: Seq<u8>, i: int) -> int {
    s[i] + 0x100 * s[i + 1] + 0x1_0000 * s[i + 2] + 0x100_0000 * s[i + 3]
}

/// The four little-endian bytes of a 32-bit value.
pub open spec fn le32_bytes(v: u32) -> Seq<u8> {
    seq![
        (v % 0x100) as u8,
        ((v / 0x100) % 0x100) as u8,
        ((v / 0x1_0000) % 0x100) as u8,
        ((v / 0x100_0000) % 0x100) as u8,
    ]
}

/// Reading the bytes of a value gives the value back.
pub proof fn lemma_le32_round_trip(v: u32)
    ensures
        le32_spec(le32_bytes(v), 0) == v,
{
}

/// Reads the 32-bit little-endian word at offset `i` of `buf`.
pub fn read_le32(buf: &[u8], i: usize) -> (r: u32)
    requires
        i + 4 <= buf@.len(),
    ensures
        r == le32_spec(buf@, i as int),
{
    let b0 = buf[i] as u32;
    let b1 = buf[i + 1] as u32;
    let b2 = buf[i + 2] as u32;
    let b3 = buf[i + 3] as u32;
    b0 + 0x100 * b1 + 0x1_0000 * b2 + 0x100_0000 * b3
}

/// The four little-endian bytes of `v`, lowest first.
pub fn u32_le_bytes(v: u32) -> (r: Vec<u8>)
    ensures
        r@ =~= le32_bytes(v),
        r@.len() == 4,
        le32_spec(r@, 0) == v,
{
    let mut r: Vec<u8> = Vec::new();
    r.push((v % 0x100) as u8);
    r.push(((v / 0x100) % 0x100) as u8);
    r.push(((v / 0x1_0000) % 0x100) as u8);
    r.push(((v / 0x100_0000) % 0x100) as u8);
    r
}

} // verus!
