//! Bit fields packed into one register byte, least significant bit first.
use vstd::prelude::*;

verus! {

/// The largest value a field of `width` bits can hold.
pub open spec fn field_max(width: u8) -> u8 {
    0xffu8 >> ((8 - width) as u8)
}

/// A field layout is valid when it is non-empty and lies inside one byte.
pub open spec fn valid_field(off: u8, width: u8) -> bool {
    1 <= width && off < 8 && off + width <= 8
}

/// The value of the field of `width` bits that starts at bit `off` of `b`.
pub open spec fn field_of(b: u8, off: u8, width: u8) -> u8 {
    (b >> off) & field_max(width)
}

/// `b` with the field of `width` bits at bit `off` replaced by `v`.
pub open spec fn with_field(b: u8, off: u8, width: u8, v: u8) -> u8 {
    (b & !(field_max(width) << off)) | ((v & field_max(width)) << off)
}

/// Reads the field of `width` bits that starts at bit `off` of `b`.
pub fn get_field(b: u8, off: u8, width: u8) -> (r: u8)
    requires
        valid_field(off, width),
    ensures
        r == field_of(b, off, width),
        r <= field_max(width),
{
    let mask: u8 = 0xffu8 >> (8 - width);
    let r = (b >> off) & mask;
    assert(r <= mask) by (bit_vector)
        requires
            r == (b >> off) & mask,
    ;
    r
}

/// Replaces the field of `width` bits at bit `off` of `b` by `v`.
pub fn put_field(b: u8, off: u8, width: u8, v: u8) -> (r: u8)
    requires
        valid_field(off, width),
    ensures
        r == with_field(b, off, width, v),
{
    let mask: u8 = 0xffu8 >> (8 - width);
    (b & !(mask << off)) | ((v & mask) << off)
}

/// Writing a value that fits a field and reading the field back gives the
/// value; every bit outside the field keeps its value; and writing back the
/// value just read leaves the byte as it was.
pub proof fn lemma_field_round_trip(b: u8, off: u8, width: u8, v: u8, off2: u8, width2: u8)
    requires
        valid_field(off, width),
        valid_field(off2, width2),
        v <= field_max(width),
    ensures
        field_of(with_field(b, off, width, v), off, width) == v,
        off2 + width2 <= off || off + width <= off2 ==> field_of(
            with_field(b, off, width, v),
            off2,
            width2,
        ) == field_of(b, off2, width2),
        with_field(b, off, width, field_of(b, off, width)) == b,
{
    let m: u8 = field_max(width);
    let m2: u8 = field_max(width2);
    assert(((((b & !(m << off)) | ((v & m) << off)) >> off) & m) == v) by (bit_vector)
        requires
            1 <= width && off < 8 && off + width <= 8,
            m == 0xffu8 >> ((8 - width) as u8),
            v <= m,
    ;
    assert(off2 + width2 <= off || off + width <= off2 ==> ((((b & !(m << off)) | ((v & m)
        << off)) >> off2) & m2) == ((b >> off2) & m2)) by (bit_vector)
        requires
            1 <= width && off < 8 && off + width <= 8,
            1 <= width2 && off2 < 8 && off2 + width2 <= 8,
            m == 0xffu8 >> ((8 - width) as u8),
            m2 == 0xffu8 >> ((8 - width2) as u8),
    ;
    assert(((b & !(m << off)) | ((((b >> off) & m) & m) << off)) == b) by (bit_vector)
        requires
            1 <= width && off < 8 && off + width <= 8,
            m == 0xffu8 >> ((8 - width) as u8),
    ;
}

/// The largest value of each field width, one through eight bits.
pub proof fn lemma_field_max()
    ensures
        field_max(1) == 0x01,
        field_max(2) == 0x03,
        field_max(3) == 0x07,
        field_max(4) == 0x0F,
        field_max(5) == 0x1F,
        field_max(6) == 0x3F,
        field_max(7) == 0x7F,
        field_max(8) == 0xFF,
{
    assert(0xffu8 >> 7u8 == 0x01u8 && 0xffu8 >> 6u8 == 0x03u8 && 0xffu8 >> 5u8 == 0x07u8
        && 0xffu8 >> 4u8 == 0x0Fu8 && 0xffu8 >> 3u8 == 0x1Fu8 && 0xffu8 >> 2u8 == 0x3Fu8
        && 0xffu8 >> 1u8 == 0x7Fu8 && 0xffu8 >> 0u8 == 0xFFu8) by (bit_vector);
}

/// The unsigned number that two bytes encode, least significant byte first.
pub open spec fn le_u16(s: Seq<u8>) -> int {
    s[0] + 256 * s[1]
}

/// The unsigned number that four bytes encode, least significant byte first.
pub open spec fn le_u32(s: Seq<u8>) -> int {
    s[0] + 256 * s[1] + 65536 * s[2] + 16777216 * s[3]
}

/// The two's complement reading of a 16-bit word.
pub open spec fn signed16(u: int) -> int {
    if u < 32768 {
        u
    } else {
        u - 65536
    }
}

/// Decodes two bytes, least significant first.
pub fn u16_from_le(b: [u8; 2]) -> (r: u16)
    ensures
        r == le_u16(b@),
{
    b[0] as u16 + (b[1] as u16) * 256
}

/// The two bytes of a 16-bit word, least significant first.
pub open spec fn le16_bytes(v: u16) -> Seq<u8> {
    seq![(v % 256) as u8, (v / 256) as u8]
}

/// Encodes a 16-bit word as two bytes, least significant first.
pub fn u16_to_le(v: u16) -> (r: [u8; 2])
    ensures
        le_u16(r@) == v,
        r@ == le16_bytes(v),
{
    let r = [(v % 256) as u8, (v / 256) as u8];
    assert(r@ =~= le16_bytes(v));
    r
}

/// Decodes four bytes, least significant first.
pub fn u32_from_le(b: [u8; 4]) -> (r: u32)
    ensures
        r == le_u32(b@),
{
    b[0] as u32 + (b[1] as u32) * 256 + (b[2] as u32) * 65536 + (b[3] as u32) * 16777216
}

/// Encodes a 32-bit word as four bytes, least significant first.
pub fn u32_to_le(v: u32) -> (r: [u8; 4])
    ensures
        le_u32(r@) == v,
{
    [(v % 256) as u8, ((v / 256) % 256) as u8, ((v / 65536) % 256) as u8, (v / 16777216) as u8]
}

/// Decodes a two's complement 16-bit word from two bytes, least significant first.
pub fn i16_from_le(b: [u8; 2]) -> (r: i16)
    ensures
        r == signed16(le_u16(b@)),
{
    let u = u16_from_le(b);
    if u < 32768 {
        u as i16
    } else {
        (u as i32 - 65536) as i16
    }
}

} // verus!
