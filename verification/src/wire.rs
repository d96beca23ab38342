//! Big-endian numbers, as the format spells them.

use vstd::prelude::*;

verus! {

/// The number that the first two bytes of `s` spell, the first byte
/// being the more significant.
pub open spec fn u16_be(s: Seq<u8>) -> u16
    recommends
        s.len() >= 2,
{
    (s[0] as int * 256 + s[1] as int) as u16
}

/// The number that the first four bytes of `s` spell, the first byte
/// being the most significant.
pub open spec fn u32_be(s: Seq<u8>) -> u32
    recommends
        s.len() >= 4,
{
    (s[0] as int * 16777216 + s[1] as int * 65536 + s[2] as int * 256 + s[3] as int) as u32
}

/// The two bytes that spell `v`.
pub open spec fn u16_bytes(v: u16) -> Seq<u8> {
    seq![(v / 256) as u8, (v % 256) as u8]
}

/// The four bytes that spell `v`.
pub open spec fn u32_bytes(v: u32) -> Seq<u8> {
    seq![
        (v / 16777216) as u8,
        (v / 65536 % 256) as u8,
        (v / 256 % 256) as u8,
        (v % 256) as u8,
    ]
}

/// Two bytes that are read as a number and written back are the same
/// two bytes.
pub proof fn lemma_u16_read_write(s: Seq<u8>)
    requires
        s.len() >= 2,
    ensures
        u16_bytes(u16_be(s)) == s.take(2),
{
}

/// A number that is written as two bytes and read back is the same
/// number, whatever follows the two bytes.
pub proof fn lemma_u16_write_read(v: u16, tail: Seq<u8>)
    ensures
        u16_be(u16_bytes(v) + tail) == v,
{
}

/// Four bytes that are read as a number and written back are the same
/// four bytes.
pub proof fn lemma_u32_read_write(s: Seq<u8>)
    requires
        s.len() >= 4,
    ensures
        u32_bytes(u32_be(s)) == s.take(4),
{
}

/// A number that is written as four bytes and read back is the same
/// number, whatever follows the four bytes.
pub proof fn lemma_u32_write_read(v: u32, tail: Seq<u8>)
    ensures
        u32_be(u32_bytes(v) + tail) == v,
{
}

} // verus!
