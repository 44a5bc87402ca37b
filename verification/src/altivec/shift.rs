use vstd::prelude::*;
use crate::altivec::types::Vector128;

verus! {

/// An 8-bit value rotated left by `r` (0..8) bits.
pub open spec fn rotl8(x: u8, r: u8) -> u8 {
    if r == 0 { x } else { ((x << r) | (x >> ((8 - r) as u8))) as u8 }
}

/// A 16-bit value rotated left by `r` (0..16) bits.
pub open spec fn rotl16(x: u16, r: u16) -> u16 {
    if r == 0 { x } else { ((x << r) | (x >> ((16 - r) as u16))) as u16 }
}

/// A 32-bit value rotated left by `r` (0..32) bits.
pub open spec fn rotl32(x: u32, r: u32) -> u32 {
    if r == 0 { x } else { ((x << r) | (x >> ((32 - r) as u32))) as u32 }
}

/// Vector Shift Left Byte (vslb)
pub fn vslb(va: Vector128, vb: Vector128) -> (r: Vector128)
    ensures
        forall|i: int| 0 <= i < 16 ==> #[trigger] r.byte(i) == (va.byte(i) << (vb.byte(i) & 7u8)),
{
    let a = va.as_bytes();
    let b = vb.as_bytes();
    let mut result = [0u8; 16];
    let mut i: usize = 0;
    while i < 16
        invariant
            0 <= i <= 16,
            forall|j: int| 0 <= j < 16 ==> #[trigger] a@[j] == va.byte(j),
            forall|j: int| 0 <= j < 16 ==> #[trigger] b@[j] == vb.byte(j),
            forall|j: int| 0 <= j < i ==> #[trigger] result@[j] == (va.byte(j) << (vb.byte(j) & 7u8)),
        decreases 16 - i,
    {
        let sh = b[i];
        assert(sh & 7u8 <= 7u8) by (bit_vector);
        result[i] = (a[i] << (b[i] & 7u8));
        i = i + 1;
    }
    Vector128::from_bytes(result)
}

/// Vector Shift Left Halfword (vslh)
pub fn vslh(va: Vector128, vb: Vector128) -> (r: Vector128)
    ensures
        forall|i: int| 0 <= i < 8 ==> #[trigger] r.half(i) == (va.half(i) << (vb.half(i) & 15u16)),
{
    let a = va.as_halfwords();
    let b = vb.as_halfwords();
    let mut result = [0u16; 8];
    let mut i: usize = 0;
    while i < 8
        invariant
            0 <= i <= 8,
            forall|j: int| 0 <= j < 8 ==> #[trigger] a@[j] == va.half(j),
            forall|j: int| 0 <= j < 8 ==> #[trigger] b@[j] == vb.half(j),
            forall|j: int| 0 <= j < i ==> #[trigger] result@[j] == (va.half(j) << (vb.half(j) & 15u16)),
        decreases 8 - i,
    {
        let sh = b[i];
        assert(sh & 15u16 <= 15u16) by (bit_vector);
        result[i] = (a[i] << (b[i] & 15u16));
        i = i + 1;
    }
    Vector128::from_halfwords(result)
}

/// Vector Shift Left Word (vslw)
pub fn vslw(va: Vector128, vb: Vector128) -> (r: Vector128)
    ensures
        forall|i: int| 0 <= i < 4 ==> #[trigger] r.word(i) == (va.word(i) << (vb.word(i) & 31u32)),
{
    let a = va.as_words();
    let b = vb.as_words();
    let mut result = [0u32; 4];
    let mut i: usize = 0;
    while i < 4
        invariant
            0 <= i <= 4,
            forall|j: int| 0 <= j < 4 ==> #[trigger] a@[j] == va.word(j),
            forall|j: int| 0 <= j < 4 ==> #[trigger] b@[j] == vb.word(j),
            forall|j: int| 0 <= j < i ==> #[trigger] result@[j] == (va.word(j) << (vb.word(j) & 31u32)),
        decreases 4 - i,
    {
        let sh = b[i];
        assert(sh & 31u32 <= 31u32) by (bit_vector);
        result[i] = (a[i] << (b[i] & 31u32));
        i = i + 1;
    }
    Vector128::from_words(result)
}

/// Vector Shift Right Byte (vsrb)
pub fn vsrb(va: Vector128, vb: Vector128) -> (r: Vector128)
    ensures
        forall|i: int| 0 <= i < 16 ==> #[trigger] r.byte(i) == (va.byte(i) >> (vb.byte(i) & 7u8)),
{
    let a = va.as_bytes();
    let b = vb.as_bytes();
    let mut result = [0u8; 16];
    let mut i: usize = 0;
    while i < 16
        invariant
            0 <= i <= 16,
            forall|j: int| 0 <= j < 16 ==> #[trigger] a@[j] == va.byte(j),
            forall|j: int| 0 <= j < 16 ==> #[trigger] b@[j] == vb.byte(j),
            forall|j: int| 0 <= j < i ==> #[trigger] result@[j] == (va.byte(j) >> (vb.byte(j) & 7u8)),
        decreases 16 - i,
    {
        let sh = b[i];
        assert(sh & 7u8 <= 7u8) by (bit_vector);
        result[i] = (a[i] >> (b[i] & 7u8));
        i = i + 1;
    }
    Vector128::from_bytes(result)
}

/// Vector Shift Right Halfword (vsrh)
pub fn vsrh(va: Vector128, vb: Vector128) -> (r: Vector128)
    ensures
        forall|i: int| 0 <= i < 8 ==> #[trigger] r.half(i) == (va.half(i) >> (vb.half(i) & 15u16)),
{
    let a = va.as_halfwords();
    let b = vb.as_halfwords();
    let mut result = [0u16; 8];
    let mut i: usize = 0;
    while i < 8
        invariant
            0 <= i <= 8,
            forall|j: int| 0 <= j < 8 ==> #[trigger] a@[j] == va.half(j),
            forall|j: int| 0 <= j < 8 ==> #[trigger] b@[j] == vb.half(j),
            forall|j: int| 0 <= j < i ==> #[trigger] result@[j] == (va.half(j) >> (vb.half(j) & 15u16)),
        decreases 8 - i,
    {
        let sh = b[i];
        assert(sh & 15u16 <= 15u16) by (bit_vector);
        result[i] = (a[i] >> (b[i] & 15u16));
        i = i + 1;
    }
    Vector128::from_halfwords(result)
}

/// Vector Shift Right Word (vsrw)
pub fn vsrw(va: Vector128, vb: Vector128) -> (r: Vector128)
    ensures
        forall|i: int| 0 <= i < 4 ==> #[trigger] r.word(i) == (va.word(i) >> (vb.word(i) & 31u32)),
{
    let a = va.as_words();
    let b = vb.as_words();
    let mut result = [0u32; 4];
    let mut i: usize = 0;
    while i < 4
        invariant
            0 <= i <= 4,
            forall|j: int| 0 <= j < 4 ==> #[trigger] a@[j] == va.word(j),
            forall|j: int| 0 <= j < 4 ==> #[trigger] b@[j] == vb.word(j),
            forall|j: int| 0 <= j < i ==> #[trigger] result@[j] == (va.word(j) >> (vb.word(j) & 31u32)),
        decreases 4 - i,
    {
        let sh = b[i];
        assert(sh & 31u32 <= 31u32) by (bit_vector);
        result[i] = (a[i] >> (b[i] & 31u32));
        i = i + 1;
    }
    Vector128::from_words(result)
}

/// Vector Shift Right Algebraic Byte (vsrab)
pub fn vsrab(va: Vector128, vb: Vector128) -> (r: Vector128)
    ensures
        forall|i: int| 0 <= i < 16 ==> #[trigger] r.byte(i) == (va.sbyte(i) >> (vb.byte(i) & 7u8)) as u8,
{
    let a = va.as_signed_bytes();
    let b = vb.as_bytes();
    let mut result = [0u8; 16];
    let mut i: usize = 0;
    while i < 16
        invariant
            0 <= i <= 16,
            forall|j: int| 0 <= j < 16 ==> #[trigger] a@[j] == va.sbyte(j),
            forall|j: int| 0 <= j < 16 ==> #[trigger] b@[j] == vb.byte(j),
            forall|j: int| 0 <= j < i ==> #[trigger] result@[j] == (va.sbyte(j) >> (vb.byte(j) & 7u8)) as u8,
        decreases 16 - i,
    {
        let sh = b[i];
        assert(sh & 7u8 <= 7u8) by (bit_vector);
        result[i] = (a[i] >> (b[i] & 7u8)) as u8;
        i = i + 1;
    }
    Vector128::from_bytes(result)
}

/// Vector Shift Right Algebraic Halfword (vsrah)
pub fn vsrah(va: Vector128, vb: Vector128) -> (r: Vector128)
    ensures
        forall|i: int| 0 <= i < 8 ==> #[trigger] r.half(i) == (va.shalf(i) >> (vb.half(i) & 15u16)) as u16,
{
    let a = va.as_signed_halfwords();
    let b = vb.as_halfwords();
    let mut result = [0u16; 8];
    let mut i: usize = 0;
    while i < 8
        invariant
            0 <= i <= 8,
            forall|j: int| 0 <= j < 8 ==> #[trigger] a@[j] == va.shalf(j),
            forall|j: int| 0 <= j < 8 ==> #[trigger] b@[j] == vb.half(j),
            forall|j: int| 0 <= j < i ==> #[trigger] result@[j] == (va.shalf(j) >> (vb.half(j) & 15u16)) as u16,
        decreases 8 - i,
    {
        let sh = b[i];
        assert(sh & 15u16 <= 15u16) by (bit_vector);
        result[i] = (a[i] >> (b[i] & 15u16)) as u16;
        i = i + 1;
    }
    Vector128::from_halfwords(result)
}

/// Vector Shift Right Algebraic Word (vsraw)
pub fn vsraw(va: Vector128, vb: Vector128) -> (r: Vector128)
    ensures
        forall|i: int| 0 <= i < 4 ==> #[trigger] r.word(i) == (va.sword(i) >> (vb.word(i) & 31u32)) as u32,
{
    let a = va.as_signed_words();
    let b = vb.as_words();
    let mut result = [0u32; 4];
    let mut i: usize = 0;
    while i < 4
        invariant
            0 <= i <= 4,
            forall|j: int| 0 <= j < 4 ==> #[trigger] a@[j] == va.sword(j),
            forall|j: int| 0 <= j < 4 ==> #[trigger] b@[j] == vb.word(j),
            forall|j: int| 0 <= j < i ==> #[trigger] result@[j] == (va.sword(j) >> (vb.word(j) & 31u32)) as u32,
        decreases 4 - i,
    {
        let sh = b[i];
        assert(sh & 31u32 <= 31u32) by (bit_vector);
        result[i] = (a[i] >> (b[i] & 31u32)) as u32;
        i = i + 1;
    }
    Vector128::from_words(result)
}

/// Vector Rotate Left Byte (vrlb)
pub fn vrlb(va: Vector128, vb: Vector128) -> (r: Vector128)
    ensures
        forall|i: int| 0 <= i < 16 ==> #[trigger] r.byte(i) == rotl8(va.byte(i), vb.byte(i) & 7u8),
{
    let a = va.as_bytes();
    let b = vb.as_bytes();
    let mut result = [0u8; 16];
    let mut i: usize = 0;
    while i < 16
        invariant
            0 <= i <= 16,
            forall|j: int| 0 <= j < 16 ==> #[trigger] a@[j] == va.byte(j),
            forall|j: int| 0 <= j < 16 ==> #[trigger] b@[j] == vb.byte(j),
            forall|j: int| 0 <= j < i ==> #[trigger] result@[j] == rotl8(va.byte(j), vb.byte(j) & 7u8),
        decreases 16 - i,
    {
        let sh = b[i];
        assert(sh & 7u8 <= 7u8) by (bit_vector);
        result[i] = { let r = b[i] & 7u8; if r == 0 { a[i] } else { ((a[i] << r) | (a[i] >> (8 - r))) as u8 } };
        i = i + 1;
    }
    Vector128::from_bytes(result)
}

/// Vector Rotate Left Halfword (vrlh)
pub fn vrlh(va: Vector128, vb: Vector128) -> (r: Vector128)
    ensures
        forall|i: int| 0 <= i < 8 ==> #[trigger] r.half(i) == rotl16(va.half(i), vb.half(i) & 15u16),
{
    let a = va.as_halfwords();
    let b = vb.as_halfwords();
    let mut result = [0u16; 8];
    let mut i: usize = 0;
    while i < 8
        invariant
            0 <= i <= 8,
            forall|j: int| 0 <= j < 8 ==> #[trigger] a@[j] == va.half(j),
            forall|j: int| 0 <= j < 8 ==> #[trigger] b@[j] == vb.half(j),
            forall|j: int| 0 <= j < i ==> #[trigger] result@[j] == rotl16(va.half(j), vb.half(j) & 15u16),
        decreases 8 - i,
    {
        let sh = b[i];
        assert(sh & 15u16 <= 15u16) by (bit_vector);
        result[i] = { let r = b[i] & 15u16; if r == 0 { a[i] } else { ((a[i] << r) | (a[i] >> (16 - r))) as u16 } };
        i = i + 1;
    }
    Vector128::from_halfwords(result)
}

/// Vector Rotate Left Word (vrlw)
pub fn vrlw(va: Vector128, vb: Vector128) -> (r: Vector128)
    ensures
        forall|i: int| 0 <= i < 4 ==> #[trigger] r.word(i) == rotl32(va.word(i), vb.word(i) & 31u32),
{
    let a = va.as_words();
    let b = vb.as_words();
    let mut result = [0u32; 4];
    let mut i: usize = 0;
    while i < 4
        invariant
            0 <= i <= 4,
            forall|j: int| 0 <= j < 4 ==> #[trigger] a@[j] == va.word(j),
            forall|j: int| 0 <= j < 4 ==> #[trigger] b@[j] == vb.word(j),
            forall|j: int| 0 <= j < i ==> #[trigger] result@[j] == rotl32(va.word(j), vb.word(j) & 31u32),
        decreases 4 - i,
    {
        let sh = b[i];
        assert(sh & 31u32 <= 31u32) by (bit_vector);
        result[i] = { let r = b[i] & 31u32; if r == 0 { a[i] } else { ((a[i] << r) | (a[i] >> (32 - r))) as u32 } };
        i = i + 1;
    }
    Vector128::from_words(result)
}

/// Vector Shift Left (vsl): the whole vector shifted left by the low three
/// bits of byte 15 of `vb`.
pub fn vsl(va: Vector128, vb: Vector128) -> (r: Vector128)
    ensures
        vb.byte(15) & 7u8 == 0 ==> r == va,
        vb.byte(15) & 7u8 != 0 ==> forall|i: int|
            0 <= i < 16 ==> #[trigger] r.byte(i) == (if i < 15 {
                ((va.byte(i) << (vb.byte(15) & 7u8)) | (va.byte(i + 1) >> ((8 - (vb.byte(15) & 7u8)) as u8))) as u8
            } else {
                va.byte(i) << (vb.byte(15) & 7u8)
            }),
{
    let bytes_a = va.as_bytes();
    let bytes_b = vb.as_bytes();
    let last: u8 = bytes_b[15];
    let shift_bits: u8 = last & 0x07;
    let mut result = [0u8; 16];
    if shift_bits == 0 {
        return va;
    }
    assert(last & 7u8 <= 7u8) by (bit_vector);
    let mut i: usize = 0;
    while i < 16
        invariant
            0 <= i <= 16,
            0 < shift_bits <= 7,
            shift_bits == vb.byte(15) & 7u8,
            forall|j: int| 0 <= j < 16 ==> #[trigger] bytes_a@[j] == va.byte(j),
            forall|j: int| 0 <= j < i ==> #[trigger] result@[j] == (if j < 15 {
                ((va.byte(j) << shift_bits) | (va.byte(j + 1) >> ((8 - shift_bits) as u8))) as u8
            } else {
                va.byte(j) << shift_bits
            }),
        decreases 16 - i,
    {
        let mut byte: u8 = bytes_a[i] << shift_bits;
        if i < 15 {
            byte = byte | (bytes_a[i + 1] >> (8 - shift_bits));
        }
        result[i] = byte;
        i = i + 1;
    }
    Vector128::from_bytes(result)
}

/// Vector Shift Right (vsr): the whole vector shifted right by the low three
/// bits of byte 15 of `vb`.
pub fn vsr(va: Vector128, vb: Vector128) -> (r: Vector128)
    ensures
        vb.byte(15) & 7u8 == 0 ==> r == va,
        vb.byte(15) & 7u8 != 0 ==> forall|i: int|
            0 <= i < 16 ==> #[trigger] r.byte(i) == (if i > 0 {
                ((va.byte(i) >> (vb.byte(15) & 7u8)) | (va.byte(i - 1) << ((8 - (vb.byte(15) & 7u8)) as u8))) as u8
            } else {
                va.byte(i) >> (vb.byte(15) & 7u8)
            }),
{
    let bytes_a = va.as_bytes();
    let bytes_b = vb.as_bytes();
    let last: u8 = bytes_b[15];
    let shift_bits: u8 = last & 0x07;
    let mut result = [0u8; 16];
    if shift_bits == 0 {
        return va;
    }
    assert(last & 7u8 <= 7u8) by (bit_vector);
    let mut k: usize = 16;
    while k > 0
        invariant
            0 <= k <= 16,
            0 < shift_bits <= 7,
            shift_bits == vb.byte(15) & 7u8,
            forall|j: int| 0 <= j < 16 ==> #[trigger] bytes_a@[j] == va.byte(j),
            forall|j: int| k <= j < 16 ==> #[trigger] result@[j] == (if j > 0 {
                ((va.byte(j) >> shift_bits) | (va.byte(j - 1) << ((8 - shift_bits) as u8))) as u8
            } else {
                va.byte(j) >> shift_bits
            }),
        decreases k,
    {
        let i = k - 1;
        let mut byte: u8 = bytes_a[i] >> shift_bits;
        if i > 0 {
            byte = byte | (bytes_a[i - 1] << (8 - shift_bits));
        }
        result[i] = byte;
        k = i;
    }
    Vector128::from_bytes(result)
}

} // verus!
