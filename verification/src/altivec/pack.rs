use vstd::prelude::*;
use crate::altivec::types::{Vector128, saturate_u8, saturate_i8, saturate_u16, saturate_i16, sat_u8, sat_i8, sat_u16, sat_i16};

verus! {

/// A 32-bit pixel reduced to 1/5/5/5: the top bit of the alpha byte and the
/// top five bits of each colour byte.
pub open spec fn pack_pixel(word: u32) -> u16 {
    let a = ((word >> 24u32) & 0x80u32) >> 7u32;
    let r = ((word >> 16u32) & 0xF8u32) >> 3u32;
    let g = ((word >> 8u32) & 0xF8u32) >> 3u32;
    let b = (word & 0xF8u32) >> 3u32;
    ((a << 15u32) | (r << 10u32) | (g << 5u32) | b) as u16
}

/// A 1/5/5/5 pixel widened to 32 bits: the alpha bit fills the alpha byte and
/// each colour field lands in the top five bits of its byte.
pub open spec fn unpack_pixel(pixel: u16) -> u32 {
    let a: u32 = if (pixel & 0x8000u16) != 0 { 0xFFu32 } else { 0u32 };
    let r = (((pixel >> 10u16) & 0x1Fu16) << 3u16) as u32;
    let g = (((pixel >> 5u16) & 0x1Fu16) << 3u16) as u32;
    let b = ((pixel & 0x1Fu16) << 3u16) as u32;
    (a << 24u32) | (r << 16u32) | (g << 8u32) | b
}

/// A 1/5/5/5 pixel survives widening and packing again unchanged; a 32-bit
/// pixel whose alpha byte is all ones or all zeros and whose colour bytes
/// carry no low-order bits survives packing and widening unchanged.
pub proof fn law_pixel_round_trip(pixel: u16, word: u32)
    ensures
        pack_pixel(unpack_pixel(pixel)) == pixel,
        ((word >> 24u32) == 0 || (word >> 24u32) == 0xFF) && word & 0x0007_0707u32 == 0 ==> unpack_pixel(pack_pixel(word)) == word,
{
    assert(pack_pixel(unpack_pixel(pixel)) == pixel
        && (((word >> 24u32) == 0 || (word >> 24u32) == 0xFF) && word & 0x0007_0707u32 == 0 ==> unpack_pixel(pack_pixel(word)) == word))
        by (bit_vector);
}

fn pack_pixel_exec(word: u32) -> (r: u16)
    ensures
        r == pack_pixel(word),
{
    let a = ((word >> 24) & 0x80) >> 7;
    let r = ((word >> 16) & 0xF8) >> 3;
    let g = ((word >> 8) & 0xF8) >> 3;
    let b = (word & 0xF8) >> 3;
    assert(a <= 1 && r < 32 && g < 32 && b < 32) by (bit_vector)
        requires
            a == ((word >> 24u32) & 0x80u32) >> 7u32,
            r == ((word >> 16u32) & 0xF8u32) >> 3u32,
            g == ((word >> 8u32) & 0xF8u32) >> 3u32,
            b == (word & 0xF8u32) >> 3u32;
    ((a << 15) | (r << 10) | (g << 5) | b) as u16
}

fn unpack_pixel_exec(pixel: u16) -> (r: u32)
    ensures
        r == unpack_pixel(pixel),
{
    let a: u32 = if (pixel & 0x8000) != 0 { 0xFF } else { 0x00 };
    let r = ((pixel >> 10) & 0x1F) << 3;
    let g = ((pixel >> 5) & 0x1F) << 3;
    let b = (pixel & 0x1F) << 3;
    ((a as u32) << 24) | ((r as u32) << 16) | ((g as u32) << 8) | (b as u32)
}

/// An unsigned halfword saturated to an unsigned byte.
fn narrow_u16_u8(h: u16) -> (r: u8)
    ensures
        r == sat_u8(h as int),
{
    if h > 255 {
        255
    } else {
        h as u8
    }
}

/// An unsigned word saturated to an unsigned halfword.
fn narrow_u32_u16(w: u32) -> (r: u16)
    ensures
        r == sat_u16(w as int),
{
    if w > 65535 {
        65535
    } else {
        w as u16
    }
}

/// Vector Pack Unsigned Halfword Unsigned Saturate (vpkuhus)
///
/// The lanes of `va` fill the first half of the result and those of `vb`
/// the second half.
pub fn vpkuhus(va: Vector128, vb: Vector128) -> (r: Vector128)
    ensures
        forall|i: int| 0 <= i < 8 ==> #[trigger] r.byte(i) == sat_u8(va.half(i) as int),
        forall|i: int| 0 <= i < 8 ==> #[trigger] r.byte(i + 8) == sat_u8(vb.half(i) as int),
{
    let a = va.as_halfwords();
    let b = vb.as_halfwords();
    let mut result = [0u8; 16];
    let mut i: usize = 0;
    while i < 8
        invariant
            0 <= i <= 8,
            forall|j: int| 0 <= j < 8 ==> #[trigger] a@[j] == va.half(j),
            forall|j: int| 0 <= j < i ==> #[trigger] result@[j] == sat_u8(va.half(j) as int),
        decreases 8 - i,
    {
        result[i] = narrow_u16_u8(a[i]);
        i = i + 1;
    }
    let mut i: usize = 0;
    while i < 8
        invariant
            0 <= i <= 8,
            forall|j: int| 0 <= j < 8 ==> #[trigger] b@[j] == vb.half(j),
            forall|j: int| 0 <= j < 8 ==> #[trigger] result@[j] == sat_u8(va.half(j) as int),
            forall|j: int| 0 <= j < i ==> #[trigger] result@[j + 8] == sat_u8(vb.half(j) as int),
        decreases 8 - i,
    {
        result[i + 8] = narrow_u16_u8(b[i]);
        i = i + 1;
    }
    Vector128::from_bytes(result)
}

/// Vector Pack Unsigned Halfword Signed Saturate (vpkuhss)
///
/// The lanes of `va` fill the first half of the result and those of `vb`
/// the second half.
pub fn vpkuhss(va: Vector128, vb: Vector128) -> (r: Vector128)
    ensures
        forall|i: int| 0 <= i < 8 ==> #[trigger] r.byte(i) == sat_i8(va.shalf(i) as int) as u8,
        forall|i: int| 0 <= i < 8 ==> #[trigger] r.byte(i + 8) == sat_i8(vb.shalf(i) as int) as u8,
{
    let a = va.as_signed_halfwords();
    let b = vb.as_signed_halfwords();
    let mut result = [0u8; 16];
    let mut i: usize = 0;
    while i < 8
        invariant
            0 <= i <= 8,
            forall|j: int| 0 <= j < 8 ==> #[trigger] a@[j] == va.shalf(j),
            forall|j: int| 0 <= j < i ==> #[trigger] result@[j] == sat_i8(va.shalf(j) as int) as u8,
        decreases 8 - i,
    {
        result[i] = saturate_i8(a[i]) as u8;
        i = i + 1;
    }
    let mut i: usize = 0;
    while i < 8
        invariant
            0 <= i <= 8,
            forall|j: int| 0 <= j < 8 ==> #[trigger] b@[j] == vb.shalf(j),
            forall|j: int| 0 <= j < 8 ==> #[trigger] result@[j] == sat_i8(va.shalf(j) as int) as u8,
            forall|j: int| 0 <= j < i ==> #[trigger] result@[j + 8] == sat_i8(vb.shalf(j) as int) as u8,
        decreases 8 - i,
    {
        result[i + 8] = saturate_i8(b[i]) as u8;
        i = i + 1;
    }
    Vector128::from_bytes(result)
}

/// Vector Pack Unsigned Word Unsigned Saturate (vpkuwus)
///
/// The lanes of `va` fill the first half of the result and those of `vb`
/// the second half.
pub fn vpkuwus(va: Vector128, vb: Vector128) -> (r: Vector128)
    ensures
        forall|i: int| 0 <= i < 4 ==> #[trigger] r.half(i) == sat_u16(va.word(i) as int),
        forall|i: int| 0 <= i < 4 ==> #[trigger] r.half(i + 4) == sat_u16(vb.word(i) as int),
{
    let a = va.as_words();
    let b = vb.as_words();
    let mut result = [0u16; 8];
    let mut i: usize = 0;
    while i < 4
        invariant
            0 <= i <= 4,
            forall|j: int| 0 <= j < 4 ==> #[trigger] a@[j] == va.word(j),
            forall|j: int| 0 <= j < i ==> #[trigger] result@[j] == sat_u16(va.word(j) as int),
        decreases 4 - i,
    {
        result[i] = narrow_u32_u16(a[i]);
        i = i + 1;
    }
    let mut i: usize = 0;
    while i < 4
        invariant
            0 <= i <= 4,
            forall|j: int| 0 <= j < 4 ==> #[trigger] b@[j] == vb.word(j),
            forall|j: int| 0 <= j < 4 ==> #[trigger] result@[j] == sat_u16(va.word(j) as int),
            forall|j: int| 0 <= j < i ==> #[trigger] result@[j + 4] == sat_u16(vb.word(j) as int),
        decreases 4 - i,
    {
        result[i + 4] = narrow_u32_u16(b[i]);
        i = i + 1;
    }
    Vector128::from_halfwords(result)
}

/// Vector Pack Unsigned Word Signed Saturate (vpkuwss)
///
/// The lanes of `va` fill the first half of the result and those of `vb`
/// the second half.
pub fn vpkuwss(va: Vector128, vb: Vector128) -> (r: Vector128)
    ensures
        forall|i: int| 0 <= i < 4 ==> #[trigger] r.half(i) == sat_i16(va.sword(i) as int) as u16,
        forall|i: int| 0 <= i < 4 ==> #[trigger] r.half(i + 4) == sat_i16(vb.sword(i) as int) as u16,
{
    let a = va.as_signed_words();
    let b = vb.as_signed_words();
    let mut result = [0u16; 8];
    let mut i: usize = 0;
    while i < 4
        invariant
            0 <= i <= 4,
            forall|j: int| 0 <= j < 4 ==> #[trigger] a@[j] == va.sword(j),
            forall|j: int| 0 <= j < i ==> #[trigger] result@[j] == sat_i16(va.sword(j) as int) as u16,
        decreases 4 - i,
    {
        result[i] = saturate_i16(a[i]) as u16;
        i = i + 1;
    }
    let mut i: usize = 0;
    while i < 4
        invariant
            0 <= i <= 4,
            forall|j: int| 0 <= j < 4 ==> #[trigger] b@[j] == vb.sword(j),
            forall|j: int| 0 <= j < 4 ==> #[trigger] result@[j] == sat_i16(va.sword(j) as int) as u16,
            forall|j: int| 0 <= j < i ==> #[trigger] result@[j + 4] == sat_i16(vb.sword(j) as int) as u16,
        decreases 4 - i,
    {
        result[i + 4] = saturate_i16(b[i]) as u16;
        i = i + 1;
    }
    Vector128::from_halfwords(result)
}

/// Vector Pack Signed Halfword Signed Saturate (vpkshss)
///
/// The lanes of `va` fill the first half of the result and those of `vb`
/// the second half.
pub fn vpkshss(va: Vector128, vb: Vector128) -> (r: Vector128)
    ensures
        forall|i: int| 0 <= i < 8 ==> #[trigger] r.byte(i) == sat_i8(va.shalf(i) as int) as u8,
        forall|i: int| 0 <= i < 8 ==> #[trigger] r.byte(i + 8) == sat_i8(vb.shalf(i) as int) as u8,
{
    let a = va.as_signed_halfwords();
    let b = vb.as_signed_halfwords();
    let mut result = [0u8; 16];
    let mut i: usize = 0;
    while i < 8
        invariant
            0 <= i <= 8,
            forall|j: int| 0 <= j < 8 ==> #[trigger] a@[j] == va.shalf(j),
            forall|j: int| 0 <= j < i ==> #[trigger] result@[j] == sat_i8(va.shalf(j) as int) as u8,
        decreases 8 - i,
    {
        result[i] = saturate_i8(a[i]) as u8;
        i = i + 1;
    }
    let mut i: usize = 0;
    while i < 8
        invariant
            0 <= i <= 8,
            forall|j: int| 0 <= j < 8 ==> #[trigger] b@[j] == vb.shalf(j),
            forall|j: int| 0 <= j < 8 ==> #[trigger] result@[j] == sat_i8(va.shalf(j) as int) as u8,
            forall|j: int| 0 <= j < i ==> #[trigger] result@[j + 8] == sat_i8(vb.shalf(j) as int) as u8,
        decreases 8 - i,
    {
        result[i + 8] = saturate_i8(b[i]) as u8;
        i = i + 1;
    }
    Vector128::from_bytes(result)
}

/// Vector Pack Signed Halfword Unsigned Saturate (vpkshus)
///
/// The lanes of `va` fill the first half of the result and those of `vb`
/// the second half.
pub fn vpkshus(va: Vector128, vb: Vector128) -> (r: Vector128)
    ensures
        forall|i: int| 0 <= i < 8 ==> #[trigger] r.byte(i) == sat_u8(va.shalf(i) as int),
        forall|i: int| 0 <= i < 8 ==> #[trigger] r.byte(i + 8) == sat_u8(vb.shalf(i) as int),
{
    let a = va.as_signed_halfwords();
    let b = vb.as_signed_halfwords();
    let mut result = [0u8; 16];
    let mut i: usize = 0;
    while i < 8
        invariant
            0 <= i <= 8,
            forall|j: int| 0 <= j < 8 ==> #[trigger] a@[j] == va.shalf(j),
            forall|j: int| 0 <= j < i ==> #[trigger] result@[j] == sat_u8(va.shalf(j) as int),
        decreases 8 - i,
    {
        result[i] = saturate_u8(a[i]);
        i = i + 1;
    }
    let mut i: usize = 0;
    while i < 8
        invariant
            0 <= i <= 8,
            forall|j: int| 0 <= j < 8 ==> #[trigger] b@[j] == vb.shalf(j),
            forall|j: int| 0 <= j < 8 ==> #[trigger] result@[j] == sat_u8(va.shalf(j) as int),
            forall|j: int| 0 <= j < i ==> #[trigger] result@[j + 8] == sat_u8(vb.shalf(j) as int),
        decreases 8 - i,
    {
        result[i + 8] = saturate_u8(b[i]);
        i = i + 1;
    }
    Vector128::from_bytes(result)
}

/// Vector Pack Signed Word Signed Saturate (vpkswss)
///
/// The lanes of `va` fill the first half of the result and those of `vb`
/// the second half.
pub fn vpkswss(va: Vector128, vb: Vector128) -> (r: Vector128)
    ensures
        forall|i: int| 0 <= i < 4 ==> #[trigger] r.half(i) == sat_i16(va.sword(i) as int) as u16,
        forall|i: int| 0 <= i < 4 ==> #[trigger] r.half(i + 4) == sat_i16(vb.sword(i) as int) as u16,
{
    let a = va.as_signed_words();
    let b = vb.as_signed_words();
    let mut result = [0u16; 8];
    let mut i: usize = 0;
    while i < 4
        invariant
            0 <= i <= 4,
            forall|j: int| 0 <= j < 4 ==> #[trigger] a@[j] == va.sword(j),
            forall|j: int| 0 <= j < i ==> #[trigger] result@[j] == sat_i16(va.sword(j) as int) as u16,
        decreases 4 - i,
    {
        result[i] = saturate_i16(a[i]) as u16;
        i = i + 1;
    }
    let mut i: usize = 0;
    while i < 4
        invariant
            0 <= i <= 4,
            forall|j: int| 0 <= j < 4 ==> #[trigger] b@[j] == vb.sword(j),
            forall|j: int| 0 <= j < 4 ==> #[trigger] result@[j] == sat_i16(va.sword(j) as int) as u16,
            forall|j: int| 0 <= j < i ==> #[trigger] result@[j + 4] == sat_i16(vb.sword(j) as int) as u16,
        decreases 4 - i,
    {
        result[i + 4] = saturate_i16(b[i]) as u16;
        i = i + 1;
    }
    Vector128::from_halfwords(result)
}

/// Vector Pack Signed Word Unsigned Saturate (vpkswus)
///
/// The lanes of `va` fill the first half of the result and those of `vb`
/// the second half.
pub fn vpkswus(va: Vector128, vb: Vector128) -> (r: Vector128)
    ensures
        forall|i: int| 0 <= i < 4 ==> #[trigger] r.half(i) == sat_u16(va.sword(i) as int),
        forall|i: int| 0 <= i < 4 ==> #[trigger] r.half(i + 4) == sat_u16(vb.sword(i) as int),
{
    let a = va.as_signed_words();
    let b = vb.as_signed_words();
    let mut result = [0u16; 8];
    let mut i: usize = 0;
    while i < 4
        invariant
            0 <= i <= 4,
            forall|j: int| 0 <= j < 4 ==> #[trigger] a@[j] == va.sword(j),
            forall|j: int| 0 <= j < i ==> #[trigger] result@[j] == sat_u16(va.sword(j) as int),
        decreases 4 - i,
    {
        result[i] = saturate_u16(a[i]);
        i = i + 1;
    }
    let mut i: usize = 0;
    while i < 4
        invariant
            0 <= i <= 4,
            forall|j: int| 0 <= j < 4 ==> #[trigger] b@[j] == vb.sword(j),
            forall|j: int| 0 <= j < 4 ==> #[trigger] result@[j] == sat_u16(va.sword(j) as int),
            forall|j: int| 0 <= j < i ==> #[trigger] result@[j + 4] == sat_u16(vb.sword(j) as int),
        decreases 4 - i,
    {
        result[i + 4] = saturate_u16(b[i]);
        i = i + 1;
    }
    Vector128::from_halfwords(result)
}

/// Vector Pack Pixel (vpkpx): each 32-bit 8/8/8/8 pixel becomes a 1/5/5/5 halfword
///
/// The lanes of `va` fill the first half of the result and those of `vb`
/// the second half.
pub fn vpkpx(va: Vector128, vb: Vector128) -> (r: Vector128)
    ensures
        forall|i: int| 0 <= i < 4 ==> #[trigger] r.half(i) == pack_pixel(va.word(i)),
        forall|i: int| 0 <= i < 4 ==> #[trigger] r.half(i + 4) == pack_pixel(vb.word(i)),
{
    let a = va.as_words();
    let b = vb.as_words();
    let mut result = [0u16; 8];
    let mut i: usize = 0;
    while i < 4
        invariant
            0 <= i <= 4,
            forall|j: int| 0 <= j < 4 ==> #[trigger] a@[j] == va.word(j),
            forall|j: int| 0 <= j < i ==> #[trigger] result@[j] == pack_pixel(va.word(j)),
        decreases 4 - i,
    {
        result[i] = pack_pixel_exec(a[i]);
        i = i + 1;
    }
    let mut i: usize = 0;
    while i < 4
        invariant
            0 <= i <= 4,
            forall|j: int| 0 <= j < 4 ==> #[trigger] b@[j] == vb.word(j),
            forall|j: int| 0 <= j < 4 ==> #[trigger] result@[j] == pack_pixel(va.word(j)),
            forall|j: int| 0 <= j < i ==> #[trigger] result@[j + 4] == pack_pixel(vb.word(j)),
        decreases 4 - i,
    {
        result[i + 4] = pack_pixel_exec(b[i]);
        i = i + 1;
    }
    Vector128::from_halfwords(result)
}

/// Vector Unpack High Signed Byte (vupkhsb)
pub fn vupkhsb(vb: Vector128) -> (r: Vector128)
    ensures
        forall|i: int| 0 <= i < 8 ==> #[trigger] r.half(i) == (vb.sbyte(i) as i16) as u16,
{
    let a = vb.as_signed_bytes();
    let mut result = [0u16; 8];
    let mut i: usize = 0;
    while i < 8
        invariant
            0 <= i <= 8,
            forall|j: int| 0 <= j < 16 ==> #[trigger] a@[j] == vb.sbyte(j),
            forall|j: int| 0 <= j < i ==> #[trigger] result@[j] == (vb.sbyte(j) as i16) as u16,
        decreases 8 - i,
    {
        result[i] = (a[i] as i16) as u16;
        i = i + 1;
    }
    Vector128::from_halfwords(result)
}

/// Vector Unpack Low Signed Byte (vupklsb)
pub fn vupklsb(vb: Vector128) -> (r: Vector128)
    ensures
        forall|i: int| 0 <= i < 8 ==> #[trigger] r.half(i) == (vb.sbyte(i + 8) as i16) as u16,
{
    let a = vb.as_signed_bytes();
    let mut result = [0u16; 8];
    let mut i: usize = 0;
    while i < 8
        invariant
            0 <= i <= 8,
            forall|j: int| 0 <= j < 16 ==> #[trigger] a@[j] == vb.sbyte(j),
            forall|j: int| 0 <= j < i ==> #[trigger] result@[j] == (vb.sbyte(j + 8) as i16) as u16,
        decreases 8 - i,
    {
        result[i] = (a[i + 8] as i16) as u16;
        i = i + 1;
    }
    Vector128::from_halfwords(result)
}

/// Vector Unpack High Signed Halfword (vupkhsh)
pub fn vupkhsh(vb: Vector128) -> (r: Vector128)
    ensures
        forall|i: int| 0 <= i < 4 ==> #[trigger] r.word(i) == (vb.shalf(i) as i32) as u32,
{
    let a = vb.as_signed_halfwords();
    let mut result = [0u32; 4];
    let mut i: usize = 0;
    while i < 4
        invariant
            0 <= i <= 4,
            forall|j: int| 0 <= j < 8 ==> #[trigger] a@[j] == vb.shalf(j),
            forall|j: int| 0 <= j < i ==> #[trigger] result@[j] == (vb.shalf(j) as i32) as u32,
        decreases 4 - i,
    {
        result[i] = (a[i] as i32) as u32;
        i = i + 1;
    }
    Vector128::from_words(result)
}

/// Vector Unpack Low Signed Halfword (vupklsh)
pub fn vupklsh(vb: Vector128) -> (r: Vector128)
    ensures
        forall|i: int| 0 <= i < 4 ==> #[trigger] r.word(i) == (vb.shalf(i + 4) as i32) as u32,
{
    let a = vb.as_signed_halfwords();
    let mut result = [0u32; 4];
    let mut i: usize = 0;
    while i < 4
        invariant
            0 <= i <= 4,
            forall|j: int| 0 <= j < 8 ==> #[trigger] a@[j] == vb.shalf(j),
            forall|j: int| 0 <= j < i ==> #[trigger] result@[j] == (vb.shalf(j + 4) as i32) as u32,
        decreases 4 - i,
    {
        result[i] = (a[i + 4] as i32) as u32;
        i = i + 1;
    }
    Vector128::from_words(result)
}

/// Vector Unpack High Pixel (vupkhpx)
pub fn vupkhpx(vb: Vector128) -> (r: Vector128)
    ensures
        forall|i: int| 0 <= i < 4 ==> #[trigger] r.word(i) == unpack_pixel(vb.half(i)),
{
    let a = vb.as_halfwords();
    let mut result = [0u32; 4];
    let mut i: usize = 0;
    while i < 4
        invariant
            0 <= i <= 4,
            forall|j: int| 0 <= j < 8 ==> #[trigger] a@[j] == vb.half(j),
            forall|j: int| 0 <= j < i ==> #[trigger] result@[j] == unpack_pixel(vb.half(j)),
        decreases 4 - i,
    {
        result[i] = unpack_pixel_exec(a[i]);
        i = i + 1;
    }
    Vector128::from_words(result)
}

/// Vector Unpack Low Pixel (vupklpx)
pub fn vupklpx(vb: Vector128) -> (r: Vector128)
    ensures
        forall|i: int| 0 <= i < 4 ==> #[trigger] r.word(i) == unpack_pixel(vb.half(i + 4)),
{
    let a = vb.as_halfwords();
    let mut result = [0u32; 4];
    let mut i: usize = 0;
    while i < 4
        invariant
            0 <= i <= 4,
            forall|j: int| 0 <= j < 8 ==> #[trigger] a@[j] == vb.half(j),
            forall|j: int| 0 <= j < i ==> #[trigger] result@[j] == unpack_pixel(vb.half(j + 4)),
        decreases 4 - i,
    {
        result[i] = unpack_pixel_exec(a[i + 4]);
        i = i + 1;
    }
    Vector128::from_words(result)
}

} // verus!
