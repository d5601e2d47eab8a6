//! Little-endian and big-endian numbers in byte sequences.

use vstd::prelude::*;

verus! {

/// The two bytes of `s` from `at` on, low byte first.
pub open spec fn le16(s: Seq<u8>, at: int) -> int {
    s[at] + s[at + 1] * 0x100
}

/// The four bytes of `s` from `at` on, low byte first.
pub open spec fn le32(s: Seq<u8>, at: int) -> int {
    le16(s, at) + le16(s, at + 2) * 0x1_0000
}

/// The eight bytes of `s` from `at` on, low byte first.
pub open spec fn le64(s: Seq<u8>, at: int) -> int {
    le32(s, at) + le32(s, at + 4) * 0x1_0000_0000
}

/// The two bytes of `s` from `at` on, high byte first.
pub open spec fn be16(s: Seq<u8>, at: int) -> int {
    s[at] * 0x100 + s[at + 1]
}

/// The four bytes of `s` from `at` on, high byte first.
pub open spec fn be32(s: Seq<u8>, at: int) -> int {
    be16(s, at) * 0x1_0000 + be16(s, at + 2)
}

/// The eight bytes of `v`, low byte first.
pub open spec fn le_bytes(v: u64) -> Seq<u8> {
    seq![
        (v % 0x100) as u8,
        (v / 0x100 % 0x100) as u8,
        (v / 0x1_0000 % 0x100) as u8,
        (v / 0x100_0000 % 0x100) as u8,
        (v / 0x1_0000_0000 % 0x100) as u8,
        (v / 0x100_0000_0000 % 0x100) as u8,
        (v / 0x1_0000_0000_0000 % 0x100) as u8,
        (v / 0x100_0000_0000_0000 % 0x100) as u8,
    ]
}

/// Reads a little-endian 16-bit number.
pub fn read_le16(s: &[u8], at: usize) -> (r: u16)
    requires
        at + 2 <= s.len(),
    ensures
        r == le16(s@, at as int),
{
    s[at] as u16 + s[at + 1] as u16 * 0x100
}

/// Reads a little-endian 32-bit number.
pub fn read_le32(s: &[u8], at: usize) -> (r: u32)
    requires
        at + 4 <= s.len(),
    ensures
        r == le32(s@, at as int),
{
    read_le16(s, at) as u32 + read_le16(s, at + 2) as u32 * 0x1_0000
}

/// Reads a little-endian 64-bit number.
pub fn read_le64(s: &[u8], at: usize) -> (r: u64)
    requires
        at + 8 <= s.len(),
    ensures
        r == le64(s@, at as int),
{
    read_le32(s, at) as u64 + read_le32(s, at + 4) as u64 * 0x1_0000_0000
}

/// The bytes of a number give the number back when they are read.
pub proof fn law_le_bytes_read_back(v: u64)
    ensures
        le64(le_bytes(v), 0) == v,
{
    assert(v == v % 0x100 + (v / 0x100 % 0x100) * 0x100 + (v / 0x1_0000 % 0x100) * 0x1_0000 + (v
        / 0x100_0000 % 0x100) * 0x100_0000 + (v / 0x1_0000_0000 % 0x100) * 0x1_0000_0000 + (v
        / 0x100_0000_0000 % 0x100) * 0x100_0000_0000 + (v / 0x1_0000_0000_0000 % 0x100)
        * 0x1_0000_0000_0000 + (v / 0x100_0000_0000_0000 % 0x100) * 0x100_0000_0000_0000)
        by (bit_vector);
}

/// A number that is read is made of its bytes, each worth 256 times the one before it.
pub proof fn law_bytes_make_numbers(s: &[u8], at: usize, a: u16, b: u32, c: u64)
    requires
        at + 8 <= s@.len(),
        call_ensures(read_le16, (s, at), a),
        call_ensures(read_le32, (s, at), b),
        call_ensures(read_le64, (s, at), c),
    ensures
        a == s@[at as int] + s@[at + 1] * 0x100,
        b == a + s@[at + 2] * 0x1_0000 + s@[at + 3] * 0x100_0000,
        c == b + s@[at + 4] * 0x1_0000_0000 + s@[at + 5] * 0x100_0000_0000 + s@[at + 6]
            * 0x1_0000_0000_0000 + s@[at + 7] * 0x100_0000_0000_0000,
{
}

} // verus!
