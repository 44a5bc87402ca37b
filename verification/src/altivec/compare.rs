use vstd::prelude::*;
use crate::altivec::types::Vector128;

verus! {

/// Vector Compare Equal Unsigned Byte (vcmpequb)
pub fn vcmpequb(va: Vector128, vb: Vector128) -> (r: Vector128)
    ensures
        forall|i: int| 0 <= i < 16 ==> #[trigger] r.byte(i) == (if va.byte(i) == vb.byte(i) { 0xFFu8 } else { 0u8 }),
{
    let a = va.as_bytes();
    let b = vb.as_bytes();
    let mut result = [0u8; 16];
    let mut i: usize = 0;
    while i < 16
        invariant
            0 <= i <= 16,
            forall|j: int| 0 <= j < 16 ==> #[trigger] a@[j] == va.byte(j),
            forall|j: int| 0 <= j < 16 ==> #[trigger] b@[j] == vb.byte(j),
            forall|j: int| 0 <= j < i ==> #[trigger] result@[j] == (if va.byte(j) == vb.byte(j) { 0xFFu8 } else { 0u8 }),
        decreases 16 - i,
    {
        result[i] = (if a[i] == b[i] { 0xFFu8 } else { 0u8 });
        i = i + 1;
    }
    Vector128::from_bytes(result)
}

/// Vector Compare Equal Unsigned Halfword (vcmpequh)
pub fn vcmpequh(va: Vector128, vb: Vector128) -> (r: Vector128)
    ensures
        forall|i: int| 0 <= i < 8 ==> #[trigger] r.half(i) == (if va.half(i) == vb.half(i) { 0xFFFFu16 } else { 0u16 }),
{
    let a = va.as_halfwords();
    let b = vb.as_halfwords();
    let mut result = [0u16; 8];
    let mut i: usize = 0;
    while i < 8
        invariant
            0 <= i <= 8,
            forall|j: int| 0 <= j < 8 ==> #[trigger] a@[j] == va.half(j),
            forall|j: int| 0 <= j < 8 ==> #[trigger] b@[j] == vb.half(j),
            forall|j: int| 0 <= j < i ==> #[trigger] result@[j] == (if va.half(j) == vb.half(j) { 0xFFFFu16 } else { 0u16 }),
        decreases 8 - i,
    {
        result[i] = (if a[i] == b[i] { 0xFFFFu16 } else { 0u16 });
        i = i + 1;
    }
    Vector128::from_halfwords(result)
}

/// Vector Compare Equal Unsigned Word (vcmpequw)
pub fn vcmpequw(va: Vector128, vb: Vector128) -> (r: Vector128)
    ensures
        forall|i: int| 0 <= i < 4 ==> #[trigger] r.word(i) == (if va.word(i) == vb.word(i) { 0xFFFF_FFFFu32 } else { 0u32 }),
{
    let a = va.as_words();
    let b = vb.as_words();
    let mut result = [0u32; 4];
    let mut i: usize = 0;
    while i < 4
        invariant
            0 <= i <= 4,
            forall|j: int| 0 <= j < 4 ==> #[trigger] a@[j] == va.word(j),
            forall|j: int| 0 <= j < 4 ==> #[trigger] b@[j] == vb.word(j),
            forall|j: int| 0 <= j < i ==> #[trigger] result@[j] == (if va.word(j) == vb.word(j) { 0xFFFF_FFFFu32 } else { 0u32 }),
        decreases 4 - i,
    {
        result[i] = (if a[i] == b[i] { 0xFFFF_FFFFu32 } else { 0u32 });
        i = i + 1;
    }
    Vector128::from_words(result)
}

/// Vector Compare Greater Than Unsigned Byte (vcmpgtub)
pub fn vcmpgtub(va: Vector128, vb: Vector128) -> (r: Vector128)
    ensures
        forall|i: int| 0 <= i < 16 ==> #[trigger] r.byte(i) == (if va.byte(i) > vb.byte(i) { 0xFFu8 } else { 0u8 }),
{
    let a = va.as_bytes();
    let b = vb.as_bytes();
    let mut result = [0u8; 16];
    let mut i: usize = 0;
    while i < 16
        invariant
            0 <= i <= 16,
            forall|j: int| 0 <= j < 16 ==> #[trigger] a@[j] == va.byte(j),
            forall|j: int| 0 <= j < 16 ==> #[trigger] b@[j] == vb.byte(j),
            forall|j: int| 0 <= j < i ==> #[trigger] result@[j] == (if va.byte(j) > vb.byte(j) { 0xFFu8 } else { 0u8 }),
        decreases 16 - i,
    {
        result[i] = (if a[i] > b[i] { 0xFFu8 } else { 0u8 });
        i = i + 1;
    }
    Vector128::from_bytes(result)
}

/// Vector Compare Greater Than Unsigned Halfword (vcmpgtuh)
pub fn vcmpgtuh(va: Vector128, vb: Vector128) -> (r: Vector128)
    ensures
        forall|i: int| 0 <= i < 8 ==> #[trigger] r.half(i) == (if va.half(i) > vb.half(i) { 0xFFFFu16 } else { 0u16 }),
{
    let a = va.as_halfwords();
    let b = vb.as_halfwords();
    let mut result = [0u16; 8];
    let mut i: usize = 0;
    while i < 8
        invariant
            0 <= i <= 8,
            forall|j: int| 0 <= j < 8 ==> #[trigger] a@[j] == va.half(j),
            forall|j: int| 0 <= j < 8 ==> #[trigger] b@[j] == vb.half(j),
            forall|j: int| 0 <= j < i ==> #[trigger] result@[j] == (if va.half(j) > vb.half(j) { 0xFFFFu16 } else { 0u16 }),
        decreases 8 - i,
    {
        result[i] = (if a[i] > b[i] { 0xFFFFu16 } else { 0u16 });
        i = i + 1;
    }
    Vector128::from_halfwords(result)
}

/// Vector Compare Greater Than Unsigned Word (vcmpgtuw)
pub fn vcmpgtuw(va: Vector128, vb: Vector128) -> (r: Vector128)
    ensures
        forall|i: int| 0 <= i < 4 ==> #[trigger] r.word(i) == (if va.word(i) > vb.word(i) { 0xFFFF_FFFFu32 } else { 0u32 }),
{
    let a = va.as_words();
    let b = vb.as_words();
    let mut result = [0u32; 4];
    let mut i: usize = 0;
    while i < 4
        invariant
            0 <= i <= 4,
            forall|j: int| 0 <= j < 4 ==> #[trigger] a@[j] == va.word(j),
            forall|j: int| 0 <= j < 4 ==> #[trigger] b@[j] == vb.word(j),
            forall|j: int| 0 <= j < i ==> #[trigger] result@[j] == (if va.word(j) > vb.word(j) { 0xFFFF_FFFFu32 } else { 0u32 }),
        decreases 4 - i,
    {
        result[i] = (if a[i] > b[i] { 0xFFFF_FFFFu32 } else { 0u32 });
        i = i + 1;
    }
    Vector128::from_words(result)
}

/// Vector Compare Greater Than Signed Byte (vcmpgtsb)
pub fn vcmpgtsb(va: Vector128, vb: Vector128) -> (r: Vector128)
    ensures
        forall|i: int| 0 <= i < 16 ==> #[trigger] r.byte(i) == (if va.sbyte(i) > vb.sbyte(i) { 0xFFu8 } else { 0u8 }),
{
    let a = va.as_signed_bytes();
    let b = vb.as_signed_bytes();
    let mut result = [0u8; 16];
    let mut i: usize = 0;
    while i < 16
        invariant
            0 <= i <= 16,
            forall|j: int| 0 <= j < 16 ==> #[trigger] a@[j] == va.sbyte(j),
            forall|j: int| 0 <= j < 16 ==> #[trigger] b@[j] == vb.sbyte(j),
            forall|j: int| 0 <= j < i ==> #[trigger] result@[j] == (if va.sbyte(j) > vb.sbyte(j) { 0xFFu8 } else { 0u8 }),
        decreases 16 - i,
    {
        result[i] = (if a[i] > b[i] { 0xFFu8 } else { 0u8 });
        i = i + 1;
    }
    Vector128::from_bytes(result)
}

/// Vector Compare Greater Than Signed Halfword (vcmpgtsh)
pub fn vcmpgtsh(va: Vector128, vb: Vector128) -> (r: Vector128)
    ensures
        forall|i: int| 0 <= i < 8 ==> #[trigger] r.half(i) == (if va.shalf(i) > vb.shalf(i) { 0xFFFFu16 } else { 0u16 }),
{
    let a = va.as_signed_halfwords();
    let b = vb.as_signed_halfwords();
    let mut result = [0u16; 8];
    let mut i: usize = 0;
    while i < 8
        invariant
            0 <= i <= 8,
            forall|j: int| 0 <= j < 8 ==> #[trigger] a@[j] == va.shalf(j),
            forall|j: int| 0 <= j < 8 ==> #[trigger] b@[j] == vb.shalf(j),
            forall|j: int| 0 <= j < i ==> #[trigger] result@[j] == (if va.shalf(j) > vb.shalf(j) { 0xFFFFu16 } else { 0u16 }),
        decreases 8 - i,
    {
        result[i] = (if a[i] > b[i] { 0xFFFFu16 } else { 0u16 });
        i = i + 1;
    }
    Vector128::from_halfwords(result)
}

/// Vector Compare Greater Than Signed Word (vcmpgtsw)
pub fn vcmpgtsw(va: Vector128, vb: Vector128) -> (r: Vector128)
    ensures
        forall|i: int| 0 <= i < 4 ==> #[trigger] r.word(i) == (if va.sword(i) > vb.sword(i) { 0xFFFF_FFFFu32 } else { 0u32 }),
{
    let a = va.as_signed_words();
    let b = vb.as_signed_words();
    let mut result = [0u32; 4];
    let mut i: usize = 0;
    while i < 4
        invariant
            0 <= i <= 4,
            forall|j: int| 0 <= j < 4 ==> #[trigger] a@[j] == va.sword(j),
            forall|j: int| 0 <= j < 4 ==> #[trigger] b@[j] == vb.sword(j),
            forall|j: int| 0 <= j < i ==> #[trigger] result@[j] == (if va.sword(j) > vb.sword(j) { 0xFFFF_FFFFu32 } else { 0u32 }),
        decreases 4 - i,
    {
        result[i] = (if a[i] > b[i] { 0xFFFF_FFFFu32 } else { 0u32 });
        i = i + 1;
    }
    Vector128::from_words(result)
}

} // verus!
