//! Integers on the wire: what a run of bytes means as a number, in either
//! byte order, and the readers that fetch such numbers from a frame.

use byteorder::{ByteOrder, LittleEndian};
use vstd::prelude::*;
use vstd::slice::slice_subrange;

verus! {

/// The two bytes of `s` at `at`, least significant first, as a number.
pub open spec fn le_u16_at(s: Seq<u8>, at: int) -> int {
    s[at] as int + 256 * (s[at + 1] as int)
}

/// The four bytes of `s` at `at`, least significant first, as a number.
pub open spec fn le_u32_at(s: Seq<u8>, at: int) -> int {
    s[at] as int + 256 * (s[at + 1] as int) + 65536 * (s[at + 2] as int) + 16777216 * (
    s[at + 3] as int)
}

/// The four bytes of `s` at `at`, most significant first, as a number.
pub open spec fn be_u32_at(s: Seq<u8>, at: int) -> int {
    s[at + 3] as int + 256 * (s[at + 2] as int) + 65536 * (s[at + 1] as int) + 16777216 * (
    s[at] as int)
}

/// The eight bytes of `s` at `at`, least significant first, as a number.
pub open spec fn le_u64_at(s: Seq<u8>, at: int) -> int {
    le_u32_at(s, at) + 4294967296 * le_u32_at(s, at + 4)
}

/// The two's complement reading of a 64-bit pattern.
pub open spec fn signed_64(pattern: int) -> int {
    if pattern < 9223372036854775808 {
        pattern
    } else {
        pattern - 18446744073709551616
    }
}

/// `count` consecutive 32-bit little-endian words of `s`, the first at `at`.
pub open spec fn le_words(s: Seq<u8>, at: int, count: nat) -> Seq<u32> {
    Seq::new(count, |i: int| le_u32_at(s, at + 4 * i) as u32)
}

/// Calls `byteorder::LittleEndian::read_u16`, which reads the first two bytes
/// of `buf` as a little-endian number and panics on a shorter slice.
#[verifier::external_body]
pub(crate) fn read_u16_le(buf: &[u8]) -> (value: u16)
    requires
        buf@.len() >= 2,
    ensures
        value as int == le_u16_at(buf@, 0),
{
    LittleEndian::read_u16(buf)
}

/// Calls `byteorder::LittleEndian::read_u32`, which reads the first four bytes
/// of `buf` as a little-endian number and panics on a shorter slice.
#[verifier::external_body]
pub(crate) fn read_u32_le(buf: &[u8]) -> (value: u32)
    requires
        buf@.len() >= 4,
    ensures
        value as int == le_u32_at(buf@, 0),
{
    LittleEndian::read_u32(buf)
}

/// Calls `byteorder::LittleEndian::read_i64`, which reads the first eight
/// bytes of `buf` as a little-endian two's complement number and panics on a
/// shorter slice.
#[verifier::external_body]
pub(crate) fn read_i64_le(buf: &[u8]) -> (value: i64)
    requires
        buf@.len() >= 8,
    ensures
        value as int == signed_64(le_u64_at(buf@, 0)),
{
    LittleEndian::read_i64(buf)
}

/// Reads `N` little-endian 32-bit words of `data`, the first at `offset`.
pub fn read_words<const N: usize>(data: &[u8], offset: usize) -> (words: [u32; N])
    requires
        offset + 4 * N <= data@.len(),
    ensures
        words@ == le_words(data@, offset as int, N as nat),
{
    let len = data.len();
    let mut words = [0u32; N];
    let mut i: usize = 0;
    while i < N
        invariant
            i <= N,
            len == data@.len(),
            offset + 4 * N <= len,
            forall|k: int| 0 <= k < i ==> words@[k] as int == le_u32_at(data@, offset + 4 * k),
        decreases N - i,
    {
        let start = offset + 4 * i;
        let chunk = slice_subrange(data, start, start + 4);
        let word = read_u32_le(chunk);
        words[i] = word;
        i = i + 1;
    }
    words
}

} // verus!
