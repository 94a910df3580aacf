use vstd::prelude::*;

use byteorder::{ByteOrder, LittleEndian};

verus! {

/// Value of the two bytes of `s` at `off`, read as a little-endian integer.
pub open spec fn le16(s: Seq<u8>, off: int) -> int {
    s[off] as int + 256 * (s[off + 1] as int)
}

/// Value of the four bytes of `s` at `off`, read as a little-endian integer.
pub open spec fn le32(s: Seq<u8>, off: int) -> int {
    le16(s, off) + 65536 * le16(s, off + 2)
}

/// Value of the eight bytes of `s` at `off`, read as a little-endian integer.
pub open spec fn le64(s: Seq<u8>, off: int) -> int {
    le32(s, off) + 4294967296 * le32(s, off + 4)
}

/// `byteorder::LittleEndian::read_u16`: the first two bytes of `buf` as a
/// little-endian integer (its source is `u16::from_le_bytes`).
#[verifier::external_body]
pub(crate) fn read_u16_le(buf: &[u8]) -> (r: u16)
    requires
        buf@.len() >= 2,
    ensures
        r as int == le16(buf@, 0),
{
    LittleEndian::read_u16(buf)
}

/// `byteorder::LittleEndian::read_u32`: the first four bytes of `buf` as a
/// little-endian integer (its source is `u32::from_le_bytes`).
#[verifier::external_body]
pub(crate) fn read_u32_le(buf: &[u8]) -> (r: u32)
    requires
        buf@.len() >= 4,
    ensures
        r as int == le32(buf@, 0),
{
    LittleEndian::read_u32(buf)
}

/// `byteorder::LittleEndian::read_u64`: the first eight bytes of `buf` as a
/// little-endian integer (its source is `u64::from_le_bytes`).
#[verifier::external_body]
pub(crate) fn read_u64_le(buf: &[u8]) -> (r: u64)
    requires
        buf@.len() >= 8,
    ensures
        r as int == le64(buf@, 0),
{
    LittleEndian::read_u64(buf)
}

/// Reads the little-endian `u16` at `off` in `buf`.
pub fn u16_at(buf: &[u8], off: usize) -> (r: u16)
    requires
        off + 2 <= buf@.len(),
    ensures
        r as int == le16(buf@, off as int),
{
    let _n = buf.len();
    let part = &buf[off..off + 2];
    read_u16_le(part)
}

/// Reads the little-endian `u32` at `off` in `buf`.
pub fn u32_at(buf: &[u8], off: usize) -> (r: u32)
    requires
        off + 4 <= buf@.len(),
    ensures
        r as int == le32(buf@, off as int),
{
    let _n = buf.len();
    let part = &buf[off..off + 4];
    read_u32_le(part)
}

/// Reads the little-endian `u64` at `off` in `buf`.
pub fn u64_at(buf: &[u8], off: usize) -> (r: u64)
    requires
        off + 8 <= buf@.len(),
    ensures
        r as int == le64(buf@, off as int),
{
    let _n = buf.len();
    let part = &buf[off..off + 8];
    read_u64_le(part)
}

/// The eight bytes of `w`, least significant first.
pub open spec fn le_bytes(w: u64) -> Seq<u8> {
    seq![
        (w & 0xff) as u8,
        ((w >> 8u64) & 0xff) as u8,
        ((w >> 16u64) & 0xff) as u8,
        ((w >> 24u64) & 0xff) as u8,
        ((w >> 32u64) & 0xff) as u8,
        ((w >> 40u64) & 0xff) as u8,
        ((w >> 48u64) & 0xff) as u8,
        ((w >> 56u64) & 0xff) as u8,
    ]
}

/// Reading back the bytes of a word gives the word.
pub proof fn lemma_le64_of_le_bytes(w: u64)
    ensures
        le64(le_bytes(w), 0) == w as int,
{
    let b0 = w & 0xff;
    let b1 = (w >> 8u64) & 0xff;
    let b2 = (w >> 16u64) & 0xff;
    let b3 = (w >> 24u64) & 0xff;
    let b4 = (w >> 32u64) & 0xff;
    let b5 = (w >> 40u64) & 0xff;
    let b6 = (w >> 48u64) & 0xff;
    let b7 = (w >> 56u64) & 0xff;
    assert(w == b0 + 256 * b1 + 65536 * b2 + 16777216 * b3 + 4294967296 * b4 + 1099511627776 * b5
        + 281474976710656 * b6 + 72057594037927936 * b7) by (bit_vector)
        requires
            b0 == w & 0xff,
            b1 == (w >> 8u64) & 0xff,
            b2 == (w >> 16u64) & 0xff,
            b3 == (w >> 24u64) & 0xff,
            b4 == (w >> 32u64) & 0xff,
            b5 == (w >> 40u64) & 0xff,
            b6 == (w >> 48u64) & 0xff,
            b7 == (w >> 56u64) & 0xff,
    ;
    let s = le_bytes(w);
    assert(s[0] == b0 as u8 && s[1] == b1 as u8 && s[2] == b2 as u8 && s[3] == b3 as u8);
    assert(s[4] == b4 as u8 && s[5] == b5 as u8 && s[6] == b6 as u8 && s[7] == b7 as u8);
    assert(b0 < 256 && b1 < 256 && b2 < 256 && b3 < 256) by (bit_vector)
        requires
            b0 == w & 0xff,
            b1 == (w >> 8u64) & 0xff,
            b2 == (w >> 16u64) & 0xff,
            b3 == (w >> 24u64) & 0xff,
    ;
    assert(b4 < 256 && b5 < 256 && b6 < 256 && b7 < 256) by (bit_vector)
        requires
            b4 == (w >> 32u64) & 0xff,
            b5 == (w >> 40u64) & 0xff,
            b6 == (w >> 48u64) & 0xff,
            b7 == (w >> 56u64) & 0xff,
    ;
}

/// The bytes of the word read from eight bytes are those bytes.
pub proof fn lemma_le_bytes_of_le64(s: Seq<u8>)
    requires
        s.len() == 8,
    ensures
        0 <= le64(s, 0) <= u64::MAX,
        le_bytes(le64(s, 0) as u64) == s,
{
    let b0 = s[0];
    let b1 = s[1];
    let b2 = s[2];
    let b3 = s[3];
    let b4 = s[4];
    let b5 = s[5];
    let b6 = s[6];
    let b7 = s[7];
    let v = le64(s, 0);
    assert(v == b0 + 256 * b1 + 65536 * b2 + 16777216 * b3 + 4294967296 * b4 + 1099511627776 * b5
        + 281474976710656 * b6 + 72057594037927936 * b7);
    assert(0 <= b0 + 256 * b1 + 65536 * b2 + 16777216 * b3 + 4294967296 * b4 + 1099511627776 * b5
        + 281474976710656 * b6 + 72057594037927936 * b7 <= 0xffff_ffff_ffff_ffff) by (bit_vector);
    let w = v as u64;
    assert(w == b0 + 256 * b1 + 65536 * b2 + 16777216 * b3 + 4294967296 * b4 + 1099511627776 * b5
        + 281474976710656 * b6 + 72057594037927936 * b7);
    assert({
        &&& (w & 0xff) as u8 == b0
        &&& ((w >> 8u64) & 0xff) as u8 == b1
        &&& ((w >> 16u64) & 0xff) as u8 == b2
        &&& ((w >> 24u64) & 0xff) as u8 == b3
        &&& ((w >> 32u64) & 0xff) as u8 == b4
        &&& ((w >> 40u64) & 0xff) as u8 == b5
        &&& ((w >> 48u64) & 0xff) as u8 == b6
        &&& ((w >> 56u64) & 0xff) as u8 == b7
    }) by (bit_vector)
        requires
            w == b0 + 256 * b1 + 65536 * b2 + 16777216 * b3 + 4294967296 * b4 + 1099511627776 * b5
                + 281474976710656 * b6 + 72057594037927936 * b7,
    ;
    assert(le_bytes(w) =~= s);
}

} // verus!
