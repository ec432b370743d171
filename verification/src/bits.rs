//! Bit fields of 8-bit registers and little-endian decoding of sample words.
use vstd::prelude::*;

verus! {

/// The mask of a field `msb..=lsb`, aligned at bit 0.
pub open spec fn field_mask(msb: u8, lsb: u8) -> u8 {
    0xffu8 >> ((7 - msb + lsb) as u8)
}

/// The value of bits `msb..=lsb` of `v`, shifted down to bit 0.
pub open spec fn field(v: u8, msb: u8, lsb: u8) -> u8 {
    (v >> lsb) & field_mask(msb, lsb)
}

/// `v` with bits `msb..=lsb` replaced by the low bits of `x`; the other bits are kept.
pub open spec fn with_field(v: u8, msb: u8, lsb: u8, x: u8) -> u8 {
    (v & !(field_mask(msb, lsb) << lsb)) | ((x & field_mask(msb, lsb)) << lsb)
}

/// A field position inside an 8-bit register.
pub open spec fn valid_field(msb: u8, lsb: u8) -> bool {
    lsb <= msb < 8
}

/// Reads bits `msb..=lsb` of `v`.
pub fn get_field(v: u8, msb: u8, lsb: u8) -> (r: u8)
    requires
        valid_field(msb, lsb),
    ensures
        r == field(v, msb, lsb),
{
    let m: u8 = 0xffu8 >> (7 - msb + lsb);
    (v >> lsb) & m
}

/// Replaces bits `msb..=lsb` of `v` by the low bits of `x`.
pub fn set_field(v: u8, msb: u8, lsb: u8, x: u8) -> (r: u8)
    requires
        valid_field(msb, lsb),
    ensures
        r == with_field(v, msb, lsb, x),
{
    let m: u8 = 0xffu8 >> (7 - msb + lsb);
    (v & !(m << lsb)) | ((x & m) << lsb)
}

/// Reading back a field that was just written gives the written value, cut to the field's width.
pub proof fn lemma_field_of_with_field(v: u8, msb: u8, lsb: u8, x: u8)
    requires
        valid_field(msb, lsb),
    ensures
        field(with_field(v, msb, lsb, x), msb, lsb) == x & field_mask(msb, lsb),
{
    assert(((((v & !((0xffu8 >> ((7 - msb + lsb) as u8)) << lsb)) | ((x & (0xffu8 >> ((7 - msb + lsb) as u8))) << lsb)) >> lsb) & (0xffu8 >> ((7 - msb + lsb) as u8))) == x & (0xffu8 >> ((7 - msb + lsb) as u8))) by (bit_vector)
        requires lsb <= msb < 8;
}

/// Little-endian 16-bit word made of two bytes, read as two's complement.
pub open spec fn le_i16(lo: u8, hi: u8) -> int {
    if hi < 128 { lo + 256 * hi } else { lo + 256 * hi - 65536 }
}

pub fn i16_from_le(lo: u8, hi: u8) -> (r: i16)
    ensures
        r == le_i16(lo, hi),
{
    let w: u16 = lo as u16 | (hi as u16) << 8;
    assert(w == lo + 256 * hi) by (bit_vector)
        requires w == (lo as u16 | (hi as u16) << 8);
    let r = w as i16;
    assert(r == if w < 32768 { w as int } else { w - 65536 }) by (bit_vector)
        requires r == w as i16;
    r
}

}

verus! {

/// Little-endian 32-bit word made of four bytes.
pub open spec fn le_u32(b0: u8, b1: u8, b2: u8, b3: u8) -> int {
    b0 + 256 * b1 + 65536 * b2 + 16777216 * b3
}

pub fn u32_from_le(b0: u8, b1: u8, b2: u8, b3: u8) -> (r: u32)
    ensures
        r == le_u32(b0, b1, b2, b3),
{
    let r: u32 = b0 as u32 | (b1 as u32) << 8 | (b2 as u32) << 16 | (b3 as u32) << 24;
    assert(r == b0 + 256 * b1 + 65536 * b2 + 16777216 * b3) by (bit_vector)
        requires r == (b0 as u32 | (b1 as u32) << 8 | (b2 as u32) << 16 | (b3 as u32) << 24);
    r
}

/// Bit `n` of a 32-bit word.
pub open spec fn bit32(v: u32, n: u32) -> u32 {
    (v >> n) & 1
}

pub fn get_bit32(v: u32, n: u32) -> (r: u32)
    requires
        n < 32,
    ensures
        r == bit32(v, n),
{
    (v >> n) & 1
}

}

verus! {

/// Writing a field leaves every bit outside it as it was.
pub proof fn lemma_with_field_keeps_other_bits(v: u8, msb: u8, lsb: u8, x: u8, i: u8)
    requires
        valid_field(msb, lsb),
        i < 8,
        i < lsb || msb < i,
    ensures
        field(with_field(v, msb, lsb, x), i, i) == field(v, i, i),
{
    assert((((v & !((0xffu8 >> ((7 - msb + lsb) as u8)) << lsb)) | ((x & (0xffu8 >> ((7 - msb + lsb) as u8))) << lsb)) >> i) & (0xffu8 >> ((7 - i + i) as u8))
        == (v >> i) & (0xffu8 >> ((7 - i + i) as u8))) by (bit_vector)
        requires lsb <= msb < 8, i < 8, i < lsb || msb < i;
}

/// A value that fits in the field is read back unchanged.
pub proof fn lemma_field_round_trip(v: u8, msb: u8, lsb: u8, x: u8)
    requires
        valid_field(msb, lsb),
        x & field_mask(msb, lsb) == x,
    ensures
        field(with_field(v, msb, lsb, x), msb, lsb) == x,
{
    lemma_field_of_with_field(v, msb, lsb, x);
}

/// Bit `n` of the little-endian word of four bytes is bit `n % 8` of byte `n / 8`.
pub proof fn lemma_le_u32_bit(b0: u8, b1: u8, b2: u8, b3: u8, n: u32)
    requires
        n < 32,
    ensures
        bit32(le_u32(b0, b1, b2, b3) as u32, n) == (if n < 8 {
            field(b0, n as u8, n as u8)
        } else if n < 16 {
            field(b1, (n - 8) as u8, (n - 8) as u8)
        } else if n < 24 {
            field(b2, (n - 16) as u8, (n - 16) as u8)
        } else {
            field(b3, (n - 24) as u8, (n - 24) as u8)
        }) as u32,
{
    let w: u32 = (b0 as u32 | (b1 as u32) << 8 | (b2 as u32) << 16 | (b3 as u32) << 24);
    assert(w == b0 + 256 * b1 + 65536 * b2 + 16777216 * b3) by (bit_vector)
        requires w == (b0 as u32 | (b1 as u32) << 8 | (b2 as u32) << 16 | (b3 as u32) << 24);
    if n < 8 {
        let k = n as u8;
        assert(((w >> n) & 1) == (((b0 >> k) & (0xffu8 >> ((7 - k + k) as u8))) as u32)) by (bit_vector)
            requires w == (b0 as u32 | (b1 as u32) << 8 | (b2 as u32) << 16 | (b3 as u32) << 24), n < 8, k == n;
    } else if n < 16 {
        let k = (n - 8) as u8;
        assert(((w >> n) & 1) == (((b1 >> k) & (0xffu8 >> ((7 - k + k) as u8))) as u32)) by (bit_vector)
            requires w == (b0 as u32 | (b1 as u32) << 8 | (b2 as u32) << 16 | (b3 as u32) << 24), 8 <= n < 16, k == n - 8;
    } else if n < 24 {
        let k = (n - 16) as u8;
        assert(((w >> n) & 1) == (((b2 >> k) & (0xffu8 >> ((7 - k + k) as u8))) as u32)) by (bit_vector)
            requires w == (b0 as u32 | (b1 as u32) << 8 | (b2 as u32) << 16 | (b3 as u32) << 24), 16 <= n < 24, k == n - 16;
    } else {
        let k = (n - 24) as u8;
        assert(((w >> n) & 1) == (((b3 >> k) & (0xffu8 >> ((7 - k + k) as u8))) as u32)) by (bit_vector)
            requires w == (b0 as u32 | (b1 as u32) << 8 | (b2 as u32) << 16 | (b3 as u32) << 24), 24 <= n < 32, k == n - 24;
    }
}

}
