//! Integers in little-endian and big-endian byte order.

use vstd::prelude::*;

verus! {

/// The number that two bytes at `at` make in little-endian order.
pub open spec fn le16(s: Seq<u8>, at: int) -> int {
    s[at] + 0x100 * s[at + 1]
}

/// The number that two bytes at `at` make in big-endian order.
pub open spec fn be16(s: Seq<u8>, at: int) -> int {
    0x100 * s[at] + s[at + 1]
}

/// The number that four bytes at `at` make in little-endian order.
pub open spec fn le32(s: Seq<u8>, at: int) -> int {
    le16(s, at) + 0x1_0000 * le16(s, at + 2)
}

/// The number that four bytes at `at` make in big-endian order.
pub open spec fn be32(s: Seq<u8>, at: int) -> int {
    0x1_0000 * be16(s, at) + be16(s, at + 2)
}

/// The number that eight bytes at `at` make in little-endian order.
pub open spec fn le64(s: Seq<u8>, at: int) -> int {
    le32(s, at) + 0x1_0000_0000 * le32(s, at + 4)
}

/// The two bytes of `v`, low byte first.
pub open spec fn le16_bytes(v: u16) -> Seq<u8> {
    seq![(v % 0x100) as u8, (v / 0x100) as u8]
}

/// The four bytes of `v`, low byte first.
pub open spec fn le32_bytes(v: u32) -> Seq<u8> {
    le16_bytes((v % 0x1_0000) as u16) + le16_bytes((v / 0x1_0000) as u16)
}

/// The eight bytes of `v`, low byte first.
pub open spec fn le64_bytes(v: u64) -> Seq<u8> {
    le32_bytes((v % 0x1_0000_0000) as u32) + le32_bytes((v / 0x1_0000_0000) as u32)
}

/// `s` with the bytes of `patch` in place of those from `at` on.
pub open spec fn overwrite(s: Seq<u8>, at: int, patch: Seq<u8>) -> Seq<u8> {
    s.subrange(0, at) + patch + s.subrange(at + patch.len(), s.len() as int)
}

/// Reads a little-endian `u16` at `at`.
pub fn read_le_u16(s: &[u8], at: usize) -> (v: u16)
    requires
        at + 2 <= s.len(),
    ensures
        v == le16(s@, at as int),
{
    s[at] as u16 + 0x100 * (s[at + 1] as u16)
}

/// Reads a big-endian `u16` at `at`.
pub fn read_be_u16(s: &[u8], at: usize) -> (v: u16)
    requires
        at + 2 <= s.len(),
    ensures
        v == be16(s@, at as int),
{
    0x100 * (s[at] as u16) + s[at + 1] as u16
}

/// Reads a little-endian `u32` at `at`.
pub fn read_le_u32(s: &[u8], at: usize) -> (v: u32)
    requires
        at + 4 <= s.len(),
    ensures
        v == le32(s@, at as int),
{
    read_le_u16(s, at) as u32 + 0x1_0000 * (read_le_u16(s, at + 2) as u32)
}

/// Reads a big-endian `u32` at `at`.
pub fn read_be_u32(s: &[u8], at: usize) -> (v: u32)
    requires
        at + 4 <= s.len(),
    ensures
        v == be32(s@, at as int),
{
    0x1_0000 * (read_be_u16(s, at) as u32) + read_be_u16(s, at + 2) as u32
}

/// Reads a little-endian `u64` at `at`.
pub fn read_le_u64(s: &[u8], at: usize) -> (v: u64)
    requires
        at + 8 <= s.len(),
    ensures
        v == le64(s@, at as int),
{
    read_le_u32(s, at) as u64 + 0x1_0000_0000 * (read_le_u32(s, at + 4) as u64)
}

/// The two bytes of `v`, low byte first.
pub fn u16_to_le(v: u16) -> (bytes: [u8; 2])
    ensures
        bytes@ == le16_bytes(v),
{
    [(v % 0x100) as u8, (v / 0x100) as u8]
}

/// The four bytes of `v`, low byte first.
pub fn u32_to_le(v: u32) -> (bytes: [u8; 4])
    ensures
        bytes@ == le32_bytes(v),
{
    let low: [u8; 2] = u16_to_le((v % 0x1_0000) as u16);
    let high: [u8; 2] = u16_to_le((v / 0x1_0000) as u16);
    [low[0], low[1], high[0], high[1]]
}

/// The eight bytes of `v`, low byte first.
pub fn u64_to_le(v: u64) -> (bytes: [u8; 8])
    ensures
        bytes@ == le64_bytes(v),
{
    let low: [u8; 4] = u32_to_le((v % 0x1_0000_0000) as u32);
    let high: [u8; 4] = u32_to_le((v / 0x1_0000_0000) as u32);
    [low[0], low[1], low[2], low[3], high[0], high[1], high[2], high[3]]
}

/// Reading at `at` gives back the `u16` that was written there.
pub proof fn le16_reads_back(s: Seq<u8>, at: int, v: u16)
    requires
        0 <= at,
        at + 2 <= s.len(),
    ensures
        le16(overwrite(s, at, le16_bytes(v)), at) == v,
{
}

/// Reading at `at` gives back the `u32` that was written there.
pub proof fn le32_reads_back(s: Seq<u8>, at: int, v: u32)
    requires
        0 <= at,
        at + 4 <= s.len(),
    ensures
        le32(overwrite(s, at, le32_bytes(v)), at) == v,
{
}

/// Reading at `at` gives back the `u64` that was written there.
pub proof fn le64_reads_back(s: Seq<u8>, at: int, v: u64)
    requires
        0 <= at,
        at + 8 <= s.len(),
    ensures
        le64(overwrite(s, at, le64_bytes(v)), at) == v,
{
    let low = (v % 0x1_0000_0000) as u32;
    let high = (v / 0x1_0000_0000) as u32;
    le32_reads_back(s, at, low);
    le32_reads_back(s, at + 4, high);
}

/// In little-endian order each byte is worth 256 times the one before it, in big-endian
/// order 256 times the one behind it.
pub proof fn numbers_are_sums_of_bytes(s: Seq<u8>, at: int)
    ensures
        le16(s, at) == s[at] + 256 * s[at + 1],
        be16(s, at) == 256 * s[at] + s[at + 1],
        le32(s, at) == s[at] + 256 * s[at + 1] + 65536 * s[at + 2] + 16777216 * s[at + 3],
        be32(s, at) == 16777216 * s[at] + 65536 * s[at + 1] + 256 * s[at + 2] + s[at + 3],
        le64(s, at) == s[at] + 256 * s[at + 1] + 65536 * s[at + 2] + 16777216 * s[at + 3]
            + 4294967296 * (s[at + 4] + 256 * s[at + 5] + 65536 * s[at + 6] + 16777216 * s[at + 7]),
{
}

/// The bytes of a number are as many as its size, and make the number again in
/// little-endian order.
pub proof fn bytes_sum_to_the_number(half: u16, word: u32, wide: u64)
    ensures
        le16_bytes(half).len() == 2,
        le16_bytes(half)[0] + 256 * le16_bytes(half)[1] == half,
        le32_bytes(word).len() == 4,
        ({
            let b = le32_bytes(word);
            b[0] + 256 * b[1] + 65536 * b[2] + 16777216 * b[3] == word
        }),
        le64_bytes(wide).len() == 8,
        ({
            let b = le64_bytes(wide);
            b[0] + 256 * b[1] + 65536 * b[2] + 16777216 * b[3] + 4294967296 * (b[4] + 256 * b[5]
                + 65536 * b[6] + 16777216 * b[7]) == wide
        }),
{
}

/// Overwriting changes the bytes that the patch covers to those of the patch, and no
/// others.
pub proof fn overwriting_changes_the_patch_alone(s: Seq<u8>, at: int, patch: Seq<u8>, i: int)
    requires
        0 <= at,
        at + patch.len() <= s.len(),
        0 <= i < s.len(),
    ensures
        overwrite(s, at, patch).len() == s.len(),
        at <= i < at + patch.len() ==> overwrite(s, at, patch)[i] == patch[i - at],
        i < at || at + patch.len() <= i ==> overwrite(s, at, patch)[i] == s[i],
{
}

/// The readers give the numbers that the bytes make, and the writers the bytes that make
/// the number.
pub proof fn readers_and_writers_agree(s: &[u8], at: usize, half: u16, word: u32, wide: u64)
    ensures
        forall|v: u16| #[trigger]
            call_ensures(read_le_u16, (s, at), v) ==> v == s@[at as int] + 256 * s@[at + 1],
        forall|v: u16| #[trigger]
            call_ensures(read_be_u16, (s, at), v) ==> v == 256 * s@[at as int] + s@[at + 1],
        forall|v: u32| #[trigger]
            call_ensures(read_le_u32, (s, at), v) ==> v == s@[at as int] + 256 * s@[at + 1] + 65536
                * s@[at + 2] + 16777216 * s@[at + 3],
        forall|v: u32| #[trigger]
            call_ensures(read_be_u32, (s, at), v) ==> v == 16777216 * s@[at as int] + 65536 * s@[at
                + 1] + 256 * s@[at + 2] + s@[at + 3],
        forall|v: u64| #[trigger]
            call_ensures(read_le_u64, (s, at), v) ==> v == s@[at as int] + 256 * s@[at + 1] + 65536
                * s@[at + 2] + 16777216 * s@[at + 3] + 4294967296 * (s@[at + 4] + 256 * s@[at + 5]
                + 65536 * s@[at + 6] + 16777216 * s@[at + 7]),
        forall|b: [u8; 2]| #[trigger]
            call_ensures(u16_to_le, (half,), b) ==> b@[0] + 256 * b@[1] == half,
        forall|b: [u8; 4]| #[trigger]
            call_ensures(u32_to_le, (word,), b) ==> b@[0] + 256 * b@[1] + 65536 * b@[2] + 16777216
                * b@[3] == word,
        forall|b: [u8; 8]| #[trigger]
            call_ensures(u64_to_le, (wide,), b) ==> b@[0] + 256 * b@[1] + 65536 * b@[2] + 16777216
                * b@[3] + 4294967296 * (b@[4] + 256 * b@[5] + 65536 * b@[6] + 16777216 * b@[7])
                == wide,
{
}

} // verus!
