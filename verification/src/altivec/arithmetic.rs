use vstd::prelude::*;
use crate::altivec::types::{Vector128, saturate_i8, saturate_i16, saturate_i32, sat_i8, sat_i16, sat_i32};

verus! {

/// Lane `i` of an unsigned byte add overflows.
pub open spec fn ub_add_overflows(va: Vector128, vb: Vector128, i: int) -> bool {
    va.byte(i) as int + vb.byte(i) as int > 255
}

/// Lane `i` of an unsigned halfword add overflows.
pub open spec fn uh_add_overflows(va: Vector128, vb: Vector128, i: int) -> bool {
    va.half(i) as int + vb.half(i) as int > 65535
}

/// Lane `i` of an unsigned word add overflows.
pub open spec fn uw_add_overflows(va: Vector128, vb: Vector128, i: int) -> bool {
    va.word(i) as int + vb.word(i) as int > 0xFFFF_FFFF
}

/// Lane `i` of a signed byte add leaves the `i8` range.
pub open spec fn sb_add_overflows(va: Vector128, vb: Vector128, i: int) -> bool {
    sat_i8(va.sbyte(i) as int + vb.sbyte(i) as int) as int != va.sbyte(i) as int + vb.sbyte(i) as int
}

/// Lane `i` of a signed halfword add leaves the `i16` range.
pub open spec fn sh_add_overflows(va: Vector128, vb: Vector128, i: int) -> bool {
    sat_i16(va.shalf(i) as int + vb.shalf(i) as int) as int != va.shalf(i) as int + vb.shalf(i) as int
}

/// Lane `i` of a signed word add leaves the `i32` range.
pub open spec fn sw_add_overflows(va: Vector128, vb: Vector128, i: int) -> bool {
    sat_i32(va.sword(i) as int + vb.sword(i) as int) as int != va.sword(i) as int + vb.sword(i) as int
}

/// Division by two rounding down (an arithmetic shift right by one).
pub open spec fn half_floor(v: int) -> int {
    v / 2
}

/// Vector Add Unsigned Byte Saturate (vaddubs)
///
/// The flag is set when at least one lane saturated.
pub fn vaddubs(va: Vector128, vb: Vector128) -> (r: (Vector128, bool))
    ensures
        forall|i: int| 0 <= i < 16 ==> #[trigger] r.0.byte(i) == (if va.byte(i) as int + vb.byte(i) as int > 255 { 255u8 } else { (va.byte(i) + vb.byte(i)) as u8 }),
        r.1 == exists|i: int| 0 <= i < 16 && #[trigger] ub_add_overflows(va, vb, i),
{
    let a = va.as_bytes();
    let b = vb.as_bytes();
    let mut result = [0u8; 16];
    let mut saturated = false;
    let mut i: usize = 0;
    while i < 16
        invariant
            0 <= i <= 16,
            forall|j: int| 0 <= j < 16 ==> #[trigger] a@[j] == va.byte(j),
            forall|j: int| 0 <= j < 16 ==> #[trigger] b@[j] == vb.byte(j),
            forall|j: int| 0 <= j < i ==> #[trigger] result@[j] == (if va.byte(j) as int + vb.byte(j) as int > 255 { 255u8 } else { (va.byte(j) + vb.byte(j)) as u8 }),
            saturated == exists|j: int| 0 <= j < i && #[trigger] ub_add_overflows(va, vb, j),
        decreases 16 - i,
    {
        let sum: u16 = a[i] as u16 + b[i] as u16;
        if sum > 255 {
            result[i] = 255;
            saturated = true;
        } else {
            result[i] = sum as u8;
        }
        proof {
            assert(ub_add_overflows(va, vb, i as int) ==> (exists|j: int| 0 <= j < i + 1 && #[trigger] ub_add_overflows(va, vb, j)));
        }
        i = i + 1;
    }
    (Vector128::from_bytes(result), saturated)
}

/// Vector Add Unsigned Halfword Saturate (vadduhs)
///
/// The flag is set when at least one lane saturated.
pub fn vadduhs(va: Vector128, vb: Vector128) -> (r: (Vector128, bool))
    ensures
        forall|i: int| 0 <= i < 8 ==> #[trigger] r.0.half(i) == (if va.half(i) as int + vb.half(i) as int > 65535 { 65535u16 } else { (va.half(i) + vb.half(i)) as u16 }),
        r.1 == exists|i: int| 0 <= i < 8 && #[trigger] uh_add_overflows(va, vb, i),
{
    let a = va.as_halfwords();
    let b = vb.as_halfwords();
    let mut result = [0u16; 8];
    let mut saturated = false;
    let mut i: usize = 0;
    while i < 8
        invariant
            0 <= i <= 8,
            forall|j: int| 0 <= j < 8 ==> #[trigger] a@[j] == va.half(j),
            forall|j: int| 0 <= j < 8 ==> #[trigger] b@[j] == vb.half(j),
            forall|j: int| 0 <= j < i ==> #[trigger] result@[j] == (if va.half(j) as int + vb.half(j) as int > 65535 { 65535u16 } else { (va.half(j) + vb.half(j)) as u16 }),
            saturated == exists|j: int| 0 <= j < i && #[trigger] uh_add_overflows(va, vb, j),
        decreases 8 - i,
    {
        let sum: u32 = a[i] as u32 + b[i] as u32;
        if sum > 65535 {
            result[i] = 65535;
            saturated = true;
        } else {
            result[i] = sum as u16;
        }
        proof {
            assert(uh_add_overflows(va, vb, i as int) ==> (exists|j: int| 0 <= j < i + 1 && #[trigger] uh_add_overflows(va, vb, j)));
        }
        i = i + 1;
    }
    (Vector128::from_halfwords(result), saturated)
}

/// Vector Add Unsigned Word Saturate (vadduws)
///
/// The flag is set when at least one lane saturated.
pub fn vadduws(va: Vector128, vb: Vector128) -> (r: (Vector128, bool))
    ensures
        forall|i: int| 0 <= i < 4 ==> #[trigger] r.0.word(i) == (if va.word(i) as int + vb.word(i) as int > 0xFFFF_FFFF { 0xFFFF_FFFFu32 } else { (va.word(i) + vb.word(i)) as u32 }),
        r.1 == exists|i: int| 0 <= i < 4 && #[trigger] uw_add_overflows(va, vb, i),
{
    let a = va.as_words();
    let b = vb.as_words();
    let mut result = [0u32; 4];
    let mut saturated = false;
    let mut i: usize = 0;
    while i < 4
        invariant
            0 <= i <= 4,
            forall|j: int| 0 <= j < 4 ==> #[trigger] a@[j] == va.word(j),
            forall|j: int| 0 <= j < 4 ==> #[trigger] b@[j] == vb.word(j),
            forall|j: int| 0 <= j < i ==> #[trigger] result@[j] == (if va.word(j) as int + vb.word(j) as int > 0xFFFF_FFFF { 0xFFFF_FFFFu32 } else { (va.word(j) + vb.word(j)) as u32 }),
            saturated == exists|j: int| 0 <= j < i && #[trigger] uw_add_overflows(va, vb, j),
        decreases 4 - i,
    {
        let sum: u64 = a[i] as u64 + b[i] as u64;
        if sum > 0xFFFF_FFFF {
            result[i] = 0xFFFF_FFFF;
            saturated = true;
        } else {
            result[i] = sum as u32;
        }
        proof {
            assert(uw_add_overflows(va, vb, i as int) ==> (exists|j: int| 0 <= j < i + 1 && #[trigger] uw_add_overflows(va, vb, j)));
        }
        i = i + 1;
    }
    (Vector128::from_words(result), saturated)
}

/// Vector Add Signed Byte Saturate (vaddsbs)
///
/// The flag is set when at least one lane saturated.
pub fn vaddsbs(va: Vector128, vb: Vector128) -> (r: (Vector128, bool))
    ensures
        forall|i: int| 0 <= i < 16 ==> #[trigger] r.0.byte(i) == sat_i8(va.sbyte(i) as int + vb.sbyte(i) as int) as u8,
        r.1 == exists|i: int| 0 <= i < 16 && #[trigger] sb_add_overflows(va, vb, i),
{
    let a = va.as_signed_bytes();
    let b = vb.as_signed_bytes();
    let mut result = [0u8; 16];
    let mut saturated = false;
    let mut i: usize = 0;
    while i < 16
        invariant
            0 <= i <= 16,
            forall|j: int| 0 <= j < 16 ==> #[trigger] a@[j] == va.sbyte(j),
            forall|j: int| 0 <= j < 16 ==> #[trigger] b@[j] == vb.sbyte(j),
            forall|j: int| 0 <= j < i ==> #[trigger] result@[j] == sat_i8(va.sbyte(j) as int + vb.sbyte(j) as int) as u8,
            saturated == exists|j: int| 0 <= j < i && #[trigger] sb_add_overflows(va, vb, j),
        decreases 16 - i,
    {
        let sum: i16 = a[i] as i16 + b[i] as i16;
        let sat_result = saturate_i8(sum);
        if sat_result as i16 != sum {
            saturated = true;
        }
        result[i] = sat_result as u8;
        proof {
            assert(sb_add_overflows(va, vb, i as int) ==> (exists|j: int| 0 <= j < i + 1 && #[trigger] sb_add_overflows(va, vb, j)));
        }
        i = i + 1;
    }
    (Vector128::from_bytes(result), saturated)
}

/// Vector Add Signed Halfword Saturate (vaddshs)
///
/// The flag is set when at least one lane saturated.
pub fn vaddshs(va: Vector128, vb: Vector128) -> (r: (Vector128, bool))
    ensures
        forall|i: int| 0 <= i < 8 ==> #[trigger] r.0.half(i) == sat_i16(va.shalf(i) as int + vb.shalf(i) as int) as u16,
        r.1 == exists|i: int| 0 <= i < 8 && #[trigger] sh_add_overflows(va, vb, i),
{
    let a = va.as_signed_halfwords();
    let b = vb.as_signed_halfwords();
    let mut result = [0u16; 8];
    let mut saturated = false;
    let mut i: usize = 0;
    while i < 8
        invariant
            0 <= i <= 8,
            forall|j: int| 0 <= j < 8 ==> #[trigger] a@[j] == va.shalf(j),
            forall|j: int| 0 <= j < 8 ==> #[trigger] b@[j] == vb.shalf(j),
            forall|j: int| 0 <= j < i ==> #[trigger] result@[j] == sat_i16(va.shalf(j) as int + vb.shalf(j) as int) as u16,
            saturated == exists|j: int| 0 <= j < i && #[trigger] sh_add_overflows(va, vb, j),
        decreases 8 - i,
    {
        let sum: i32 = a[i] as i32 + b[i] as i32;
        let sat_result = saturate_i16(sum);
        if sat_result as i32 != sum {
            saturated = true;
        }
        result[i] = sat_result as u16;
        proof {
            assert(sh_add_overflows(va, vb, i as int) ==> (exists|j: int| 0 <= j < i + 1 && #[trigger] sh_add_overflows(va, vb, j)));
        }
        i = i + 1;
    }
    (Vector128::from_halfwords(result), saturated)
}

/// Vector Add Signed Word Saturate (vaddsws)
///
/// The flag is set when at least one lane saturated.
pub fn vaddsws(va: Vector128, vb: Vector128) -> (r: (Vector128, bool))
    ensures
        forall|i: int| 0 <= i < 4 ==> #[trigger] r.0.word(i) == sat_i32(va.sword(i) as int + vb.sword(i) as int) as u32,
        r.1 == exists|i: int| 0 <= i < 4 && #[trigger] sw_add_overflows(va, vb, i),
{
    let a = va.as_signed_words();
    let b = vb.as_signed_words();
    let mut result = [0u32; 4];
    let mut saturated = false;
    let mut i: usize = 0;
    while i < 4
        invariant
            0 <= i <= 4,
            forall|j: int| 0 <= j < 4 ==> #[trigger] a@[j] == va.sword(j),
            forall|j: int| 0 <= j < 4 ==> #[trigger] b@[j] == vb.sword(j),
            forall|j: int| 0 <= j < i ==> #[trigger] result@[j] == sat_i32(va.sword(j) as int + vb.sword(j) as int) as u32,
            saturated == exists|j: int| 0 <= j < i && #[trigger] sw_add_overflows(va, vb, j),
        decreases 4 - i,
    {
        let sum: i64 = a[i] as i64 + b[i] as i64;
        let sat_result = saturate_i32(sum);
        if sat_result as i64 != sum {
            saturated = true;
        }
        result[i] = sat_result as u32;
        proof {
            assert(sw_add_overflows(va, vb, i as int) ==> (exists|j: int| 0 <= j < i + 1 && #[trigger] sw_add_overflows(va, vb, j)));
        }
        i = i + 1;
    }
    (Vector128::from_words(result), saturated)
}

/// Vector Add Unsigned Byte Modulo (vaddubm)
pub fn vaddubm(va: Vector128, vb: Vector128) -> (r: Vector128)
    ensures
        forall|i: int| 0 <= i < 16 ==> #[trigger] r.byte(i) == ((va.byte(i) as int + vb.byte(i) as int) % 256) as u8,
{
    let a = va.as_bytes();
    let b = vb.as_bytes();
    let mut result = [0u8; 16];
    let mut i: usize = 0;
    while i < 16
        invariant
            0 <= i <= 16,
            forall|j: int| 0 <= j < 16 ==> #[trigger] a@[j] == va.byte(j),
            forall|j: int| 0 <= j < 16 ==> #[trigger] b@[j] == vb.byte(j),
            forall|j: int| 0 <= j < i ==> #[trigger] result@[j] == ((va.byte(j) as int + vb.byte(j) as int) % 256) as u8,
        decreases 16 - i,
    {
        result[i] = (((a[i] as u16) + (b[i] as u16)) % 256) as u8;
        i = i + 1;
    }
    Vector128::from_bytes(result)
}

/// Vector Add Unsigned Halfword Modulo (vadduhm)
pub fn vadduhm(va: Vector128, vb: Vector128) -> (r: Vector128)
    ensures
        forall|i: int| 0 <= i < 8 ==> #[trigger] r.half(i) == ((va.half(i) as int + vb.half(i) as int) % 65536) as u16,
{
    let a = va.as_halfwords();
    let b = vb.as_halfwords();
    let mut result = [0u16; 8];
    let mut i: usize = 0;
    while i < 8
        invariant
            0 <= i <= 8,
            forall|j: int| 0 <= j < 8 ==> #[trigger] a@[j] == va.half(j),
            forall|j: int| 0 <= j < 8 ==> #[trigger] b@[j] == vb.half(j),
            forall|j: int| 0 <= j < i ==> #[trigger] result@[j] == ((va.half(j) as int + vb.half(j) as int) % 65536) as u16,
        decreases 8 - i,
    {
        result[i] = (((a[i] as u32) + (b[i] as u32)) % 65536) as u16;
        i = i + 1;
    }
    Vector128::from_halfwords(result)
}

/// Vector Add Unsigned Word Modulo (vadduwm)
pub fn vadduwm(va: Vector128, vb: Vector128) -> (r: Vector128)
    ensures
        forall|i: int| 0 <= i < 4 ==> #[trigger] r.word(i) == ((va.word(i) as int + vb.word(i) as int) % 0x1_0000_0000) as u32,
{
    let a = va.as_words();
    let b = vb.as_words();
    let mut result = [0u32; 4];
    let mut i: usize = 0;
    while i < 4
        invariant
            0 <= i <= 4,
            forall|j: int| 0 <= j < 4 ==> #[trigger] a@[j] == va.word(j),
            forall|j: int| 0 <= j < 4 ==> #[trigger] b@[j] == vb.word(j),
            forall|j: int| 0 <= j < i ==> #[trigger] result@[j] == ((va.word(j) as int + vb.word(j) as int) % 0x1_0000_0000) as u32,
        decreases 4 - i,
    {
        result[i] = (((a[i] as u64) + (b[i] as u64)) % 0x1_0000_0000) as u32;
        i = i + 1;
    }
    Vector128::from_words(result)
}

/// Vector Subtract Unsigned Byte Modulo (vsububm)
pub fn vsububm(va: Vector128, vb: Vector128) -> (r: Vector128)
    ensures
        forall|i: int| 0 <= i < 16 ==> #[trigger] r.byte(i) == ((va.byte(i) as int - vb.byte(i) as int + 256) % 256) as u8,
{
    let a = va.as_bytes();
    let b = vb.as_bytes();
    let mut result = [0u8; 16];
    let mut i: usize = 0;
    while i < 16
        invariant
            0 <= i <= 16,
            forall|j: int| 0 <= j < 16 ==> #[trigger] a@[j] == va.byte(j),
            forall|j: int| 0 <= j < 16 ==> #[trigger] b@[j] == vb.byte(j),
            forall|j: int| 0 <= j < i ==> #[trigger] result@[j] == ((va.byte(j) as int - vb.byte(j) as int + 256) % 256) as u8,
        decreases 16 - i,
    {
        result[i] = (((a[i] as u16) + 256 - (b[i] as u16)) % 256) as u8;
        i = i + 1;
    }
    Vector128::from_bytes(result)
}

/// Vector Subtract Unsigned Halfword Modulo (vsubuhm)
pub fn vsubuhm(va: Vector128, vb: Vector128) -> (r: Vector128)
    ensures
        forall|i: int| 0 <= i < 8 ==> #[trigger] r.half(i) == ((va.half(i) as int - vb.half(i) as int + 65536) % 65536) as u16,
{
    let a = va.as_halfwords();
    let b = vb.as_halfwords();
    let mut result = [0u16; 8];
    let mut i: usize = 0;
    while i < 8
        invariant
            0 <= i <= 8,
            forall|j: int| 0 <= j < 8 ==> #[trigger] a@[j] == va.half(j),
            forall|j: int| 0 <= j < 8 ==> #[trigger] b@[j] == vb.half(j),
            forall|j: int| 0 <= j < i ==> #[trigger] result@[j] == ((va.half(j) as int - vb.half(j) as int + 65536) % 65536) as u16,
        decreases 8 - i,
    {
        result[i] = (((a[i] as u32) + 65536 - (b[i] as u32)) % 65536) as u16;
        i = i + 1;
    }
    Vector128::from_halfwords(result)
}

/// Vector Subtract Unsigned Word Modulo (vsubuwm)
pub fn vsubuwm(va: Vector128, vb: Vector128) -> (r: Vector128)
    ensures
        forall|i: int| 0 <= i < 4 ==> #[trigger] r.word(i) == ((va.word(i) as int - vb.word(i) as int + 0x1_0000_0000) % 0x1_0000_0000) as u32,
{
    let a = va.as_words();
    let b = vb.as_words();
    let mut result = [0u32; 4];
    let mut i: usize = 0;
    while i < 4
        invariant
            0 <= i <= 4,
            forall|j: int| 0 <= j < 4 ==> #[trigger] a@[j] == va.word(j),
            forall|j: int| 0 <= j < 4 ==> #[trigger] b@[j] == vb.word(j),
            forall|j: int| 0 <= j < i ==> #[trigger] result@[j] == ((va.word(j) as int - vb.word(j) as int + 0x1_0000_0000) % 0x1_0000_0000) as u32,
        decreases 4 - i,
    {
        result[i] = (((a[i] as u64) + 0x1_0000_0000 - (b[i] as u64)) % 0x1_0000_0000) as u32;
        i = i + 1;
    }
    Vector128::from_words(result)
}

/// Vector Multiply Even Unsigned Byte (vmuleub)
pub fn vmuleub(va: Vector128, vb: Vector128) -> (r: Vector128)
    ensures
        forall|i: int| 0 <= i < 8 ==> #[trigger] r.half(i) == (va.byte(2 * i) as int * vb.byte(2 * i) as int) as u16,
{
    let a = va.as_bytes();
    let b = vb.as_bytes();
    let mut result = [0u16; 8];
    let mut i: usize = 0;
    while i < 8
        invariant
            0 <= i <= 8,
            forall|j: int| 0 <= j < 16 ==> #[trigger] a@[j] == va.byte(j),
            forall|j: int| 0 <= j < 16 ==> #[trigger] b@[j] == vb.byte(j),
            forall|j: int| 0 <= j < i ==> #[trigger] result@[j] == (va.byte(2 * j) as int * vb.byte(2 * j) as int) as u16,
        decreases 8 - i,
    {
        assert(a[i * 2] as int * b[i * 2] as int <= 255 * 255) by (nonlinear_arith)
            requires a[i * 2] <= 255, b[i * 2] <= 255;
        result[i] = (a[i * 2] as u16) * (b[i * 2] as u16);
        i = i + 1;
    }
    Vector128::from_halfwords(result)
}

/// Vector Multiply Odd Unsigned Byte (vmuloub)
pub fn vmuloub(va: Vector128, vb: Vector128) -> (r: Vector128)
    ensures
        forall|i: int| 0 <= i < 8 ==> #[trigger] r.half(i) == (va.byte(2 * i + 1) as int * vb.byte(2 * i + 1) as int) as u16,
{
    let a = va.as_bytes();
    let b = vb.as_bytes();
    let mut result = [0u16; 8];
    let mut i: usize = 0;
    while i < 8
        invariant
            0 <= i <= 8,
            forall|j: int| 0 <= j < 16 ==> #[trigger] a@[j] == va.byte(j),
            forall|j: int| 0 <= j < 16 ==> #[trigger] b@[j] == vb.byte(j),
            forall|j: int| 0 <= j < i ==> #[trigger] result@[j] == (va.byte(2 * j + 1) as int * vb.byte(2 * j + 1) as int) as u16,
        decreases 8 - i,
    {
        assert(a[i * 2 + 1] as int * b[i * 2 + 1] as int <= 255 * 255) by (nonlinear_arith)
            requires a[i * 2 + 1] <= 255, b[i * 2 + 1] <= 255;
        result[i] = (a[i * 2 + 1] as u16) * (b[i * 2 + 1] as u16);
        i = i + 1;
    }
    Vector128::from_halfwords(result)
}

/// Vector Multiply Even Signed Byte (vmulesb)
pub fn vmulesb(va: Vector128, vb: Vector128) -> (r: Vector128)
    ensures
        forall|i: int| 0 <= i < 8 ==> #[trigger] r.half(i) == (va.sbyte(2 * i) as int * vb.sbyte(2 * i) as int) as u16,
{
    let a = va.as_signed_bytes();
    let b = vb.as_signed_bytes();
    let mut result = [0u16; 8];
    let mut i: usize = 0;
    while i < 8
        invariant
            0 <= i <= 8,
            forall|j: int| 0 <= j < 16 ==> #[trigger] a@[j] == va.sbyte(j),
            forall|j: int| 0 <= j < 16 ==> #[trigger] b@[j] == vb.sbyte(j),
            forall|j: int| 0 <= j < i ==> #[trigger] result@[j] == (va.sbyte(2 * j) as int * vb.sbyte(2 * j) as int) as u16,
        decreases 8 - i,
    {
        assert(-127*127-127-1 <= a[i * 2] as int * b[i * 2] as int <= (-128) * (-128)) by (nonlinear_arith)
            requires -128 <= a[i * 2] <= 127, -128 <= b[i * 2] <= 127;
        result[i] = ((a[i * 2] as i16) * (b[i * 2] as i16)) as u16;
        i = i + 1;
    }
    Vector128::from_halfwords(result)
}

/// Vector Multiply Odd Signed Byte (vmulosb)
pub fn vmulosb(va: Vector128, vb: Vector128) -> (r: Vector128)
    ensures
        forall|i: int| 0 <= i < 8 ==> #[trigger] r.half(i) == (va.sbyte(2 * i + 1) as int * vb.sbyte(2 * i + 1) as int) as u16,
{
    let a = va.as_signed_bytes();
    let b = vb.as_signed_bytes();
    let mut result = [0u16; 8];
    let mut i: usize = 0;
    while i < 8
        invariant
            0 <= i <= 8,
            forall|j: int| 0 <= j < 16 ==> #[trigger] a@[j] == va.sbyte(j),
            forall|j: int| 0 <= j < 16 ==> #[trigger] b@[j] == vb.sbyte(j),
            forall|j: int| 0 <= j < i ==> #[trigger] result@[j] == (va.sbyte(2 * j + 1) as int * vb.sbyte(2 * j + 1) as int) as u16,
        decreases 8 - i,
    {
        assert(-127*127-127-1 <= a[i * 2 + 1] as int * b[i * 2 + 1] as int <= (-128) * (-128)) by (nonlinear_arith)
            requires -128 <= a[i * 2 + 1] <= 127, -128 <= b[i * 2 + 1] <= 127;
        result[i] = ((a[i * 2 + 1] as i16) * (b[i * 2 + 1] as i16)) as u16;
        i = i + 1;
    }
    Vector128::from_halfwords(result)
}

/// Vector Multiply Even Unsigned Halfword (vmuleuh)
pub fn vmuleuh(va: Vector128, vb: Vector128) -> (r: Vector128)
    ensures
        forall|i: int| 0 <= i < 4 ==> #[trigger] r.word(i) == (va.half(2 * i) as int * vb.half(2 * i) as int) as u32,
{
    let a = va.as_halfwords();
    let b = vb.as_halfwords();
    let mut result = [0u32; 4];
    let mut i: usize = 0;
    while i < 4
        invariant
            0 <= i <= 4,
            forall|j: int| 0 <= j < 8 ==> #[trigger] a@[j] == va.half(j),
            forall|j: int| 0 <= j < 8 ==> #[trigger] b@[j] == vb.half(j),
            forall|j: int| 0 <= j < i ==> #[trigger] result@[j] == (va.half(2 * j) as int * vb.half(2 * j) as int) as u32,
        decreases 4 - i,
    {
        assert(a[i * 2] as int * b[i * 2] as int <= 65535 * 65535) by (nonlinear_arith)
            requires a[i * 2] <= 65535, b[i * 2] <= 65535;
        result[i] = (a[i * 2] as u32) * (b[i * 2] as u32);
        i = i + 1;
    }
    Vector128::from_words(result)
}

/// Vector Multiply Odd Unsigned Halfword (vmulouh)
pub fn vmulouh(va: Vector128, vb: Vector128) -> (r: Vector128)
    ensures
        forall|i: int| 0 <= i < 4 ==> #[trigger] r.word(i) == (va.half(2 * i + 1) as int * vb.half(2 * i + 1) as int) as u32,
{
    let a = va.as_halfwords();
    let b = vb.as_halfwords();
    let mut result = [0u32; 4];
    let mut i: usize = 0;
    while i < 4
        invariant
            0 <= i <= 4,
            forall|j: int| 0 <= j < 8 ==> #[trigger] a@[j] == va.half(j),
            forall|j: int| 0 <= j < 8 ==> #[trigger] b@[j] == vb.half(j),
            forall|j: int| 0 <= j < i ==> #[trigger] result@[j] == (va.half(2 * j + 1) as int * vb.half(2 * j + 1) as int) as u32,
        decreases 4 - i,
    {
        assert(a[i * 2 + 1] as int * b[i * 2 + 1] as int <= 65535 * 65535) by (nonlinear_arith)
            requires a[i * 2 + 1] <= 65535, b[i * 2 + 1] <= 65535;
        result[i] = (a[i * 2 + 1] as u32) * (b[i * 2 + 1] as u32);
        i = i + 1;
    }
    Vector128::from_words(result)
}

/// Vector Multiply Even Signed Halfword (vmulesh)
pub fn vmulesh(va: Vector128, vb: Vector128) -> (r: Vector128)
    ensures
        forall|i: int| 0 <= i < 4 ==> #[trigger] r.word(i) == (va.shalf(2 * i) as int * vb.shalf(2 * i) as int) as u32,
{
    let a = va.as_signed_halfwords();
    let b = vb.as_signed_halfwords();
    let mut result = [0u32; 4];
    let mut i: usize = 0;
    while i < 4
        invariant
            0 <= i <= 4,
            forall|j: int| 0 <= j < 8 ==> #[trigger] a@[j] == va.shalf(j),
            forall|j: int| 0 <= j < 8 ==> #[trigger] b@[j] == vb.shalf(j),
            forall|j: int| 0 <= j < i ==> #[trigger] result@[j] == (va.shalf(2 * j) as int * vb.shalf(2 * j) as int) as u32,
        decreases 4 - i,
    {
        assert(-32767*32767-32767-1 <= a[i * 2] as int * b[i * 2] as int <= (-32768) * (-32768)) by (nonlinear_arith)
            requires -32768 <= a[i * 2] <= 32767, -32768 <= b[i * 2] <= 32767;
        result[i] = ((a[i * 2] as i32) * (b[i * 2] as i32)) as u32;
        i = i + 1;
    }
    Vector128::from_words(result)
}

/// Vector Multiply Odd Signed Halfword (vmulosh)
pub fn vmulosh(va: Vector128, vb: Vector128) -> (r: Vector128)
    ensures
        forall|i: int| 0 <= i < 4 ==> #[trigger] r.word(i) == (va.shalf(2 * i + 1) as int * vb.shalf(2 * i + 1) as int) as u32,
{
    let a = va.as_signed_halfwords();
    let b = vb.as_signed_halfwords();
    let mut result = [0u32; 4];
    let mut i: usize = 0;
    while i < 4
        invariant
            0 <= i <= 4,
            forall|j: int| 0 <= j < 8 ==> #[trigger] a@[j] == va.shalf(j),
            forall|j: int| 0 <= j < 8 ==> #[trigger] b@[j] == vb.shalf(j),
            forall|j: int| 0 <= j < i ==> #[trigger] result@[j] == (va.shalf(2 * j + 1) as int * vb.shalf(2 * j + 1) as int) as u32,
        decreases 4 - i,
    {
        assert(-32767*32767-32767-1 <= a[i * 2 + 1] as int * b[i * 2 + 1] as int <= (-32768) * (-32768)) by (nonlinear_arith)
            requires -32768 <= a[i * 2 + 1] <= 32767, -32768 <= b[i * 2 + 1] <= 32767;
        result[i] = ((a[i * 2 + 1] as i32) * (b[i * 2 + 1] as i32)) as u32;
        i = i + 1;
    }
    Vector128::from_words(result)
}

/// Vector Sum Across Quarter Signed Word Saturate (vsumsws)
pub fn vsumsws(va: Vector128, vb: Vector128) -> (r: Vector128)
    ensures
        r.word(0) == 0,
        r.word(1) == 0,
        r.word(2) == 0,
        r.word(3) == sat_i32(
            va.sword(0) as int + va.sword(1) as int + va.sword(2) as int + va.sword(3) as int
                + vb.sword(3) as int,
        ) as u32,
{
    let a_words = va.as_signed_words();
    let b_words = vb.as_signed_words();
    let mut sum: i64 = 0;
    let mut i: usize = 0;
    while i < 4
        invariant
            0 <= i <= 4,
            forall|j: int| 0 <= j < 4 ==> #[trigger] a_words@[j] == va.sword(j),
            sum == (if i == 0 { 0 } else if i == 1 { va.sword(0) as int } else if i == 2 {
                va.sword(0) as int + va.sword(1) as int
            } else if i == 3 {
                va.sword(0) as int + va.sword(1) as int + va.sword(2) as int
            } else {
                va.sword(0) as int + va.sword(1) as int + va.sword(2) as int + va.sword(3) as int
            }),
        decreases 4 - i,
    {
        sum = sum + a_words[i] as i64;
        i = i + 1;
    }
    let total = sum + b_words[3] as i64;
    let saturated = saturate_i32(total);
    Vector128::from_words([0, 0, 0, saturated as u32])
}

/// Vector Sum Across Half Signed Word Saturate (vsum2sws)
pub fn vsum2sws(va: Vector128, vb: Vector128) -> (r: Vector128)
    ensures
        r.word(0) == 0,
        r.word(1) == sat_i32(va.sword(0) as int + va.sword(1) as int + vb.sword(1) as int) as u32,
        r.word(2) == 0,
        r.word(3) == sat_i32(va.sword(2) as int + va.sword(3) as int + vb.sword(3) as int) as u32,
{
    let a_words = va.as_signed_words();
    let b_words = vb.as_signed_words();
    let mut result = [0u32; 4];
    let sum0 = a_words[0] as i64 + a_words[1] as i64 + b_words[1] as i64;
    let sum1 = a_words[2] as i64 + a_words[3] as i64 + b_words[3] as i64;
    result[1] = saturate_i32(sum0) as u32;
    result[3] = saturate_i32(sum1) as u32;
    Vector128::from_words(result)
}

/// Vector Maximum Signed Byte (vmaxsb)
pub fn vmaxsb(va: Vector128, vb: Vector128) -> (r: Vector128)
    ensures
        forall|i: int| 0 <= i < 16 ==> #[trigger] r.byte(i) == (if va.sbyte(i) > vb.sbyte(i) { va.sbyte(i) } else { vb.sbyte(i) }) as u8,
{
    let a = va.as_signed_bytes();
    let b = vb.as_signed_bytes();
    let mut result = [0u8; 16];
    let mut i: usize = 0;
    while i < 16
        invariant
            0 <= i <= 16,
            forall|j: int| 0 <= j < 16 ==> #[trigger] a@[j] == va.sbyte(j),
            forall|j: int| 0 <= j < 16 ==> #[trigger] b@[j] == vb.sbyte(j),
            forall|j: int| 0 <= j < i ==> #[trigger] result@[j] == (if va.sbyte(j) > vb.sbyte(j) { va.sbyte(j) } else { vb.sbyte(j) }) as u8,
        decreases 16 - i,
    {
        result[i] = (if a[i] > b[i] { a[i] } else { b[i] }) as u8;
        i = i + 1;
    }
    Vector128::from_bytes(result)
}

/// Vector Maximum Unsigned Byte (vmaxub)
pub fn vmaxub(va: Vector128, vb: Vector128) -> (r: Vector128)
    ensures
        forall|i: int| 0 <= i < 16 ==> #[trigger] r.byte(i) == (if va.byte(i) > vb.byte(i) { va.byte(i) } else { vb.byte(i) }),
{
    let a = va.as_bytes();
    let b = vb.as_bytes();
    let mut result = [0u8; 16];
    let mut i: usize = 0;
    while i < 16
        invariant
            0 <= i <= 16,
            forall|j: int| 0 <= j < 16 ==> #[trigger] a@[j] == va.byte(j),
            forall|j: int| 0 <= j < 16 ==> #[trigger] b@[j] == vb.byte(j),
            forall|j: int| 0 <= j < i ==> #[trigger] result@[j] == (if va.byte(j) > vb.byte(j) { va.byte(j) } else { vb.byte(j) }),
        decreases 16 - i,
    {
        result[i] = (if a[i] > b[i] { a[i] } else { b[i] });
        i = i + 1;
    }
    Vector128::from_bytes(result)
}

/// Vector Maximum Signed Halfword (vmaxsh)
pub fn vmaxsh(va: Vector128, vb: Vector128) -> (r: Vector128)
    ensures
        forall|i: int| 0 <= i < 8 ==> #[trigger] r.half(i) == (if va.shalf(i) > vb.shalf(i) { va.shalf(i) } else { vb.shalf(i) }) as u16,
{
    let a = va.as_signed_halfwords();
    let b = vb.as_signed_halfwords();
    let mut result = [0u16; 8];
    let mut i: usize = 0;
    while i < 8
        invariant
            0 <= i <= 8,
            forall|j: int| 0 <= j < 8 ==> #[trigger] a@[j] == va.shalf(j),
            forall|j: int| 0 <= j < 8 ==> #[trigger] b@[j] == vb.shalf(j),
            forall|j: int| 0 <= j < i ==> #[trigger] result@[j] == (if va.shalf(j) > vb.shalf(j) { va.shalf(j) } else { vb.shalf(j) }) as u16,
        decreases 8 - i,
    {
        result[i] = (if a[i] > b[i] { a[i] } else { b[i] }) as u16;
        i = i + 1;
    }
    Vector128::from_halfwords(result)
}

/// Vector Maximum Unsigned Halfword (vmaxuh)
pub fn vmaxuh(va: Vector128, vb: Vector128) -> (r: Vector128)
    ensures
        forall|i: int| 0 <= i < 8 ==> #[trigger] r.half(i) == (if va.half(i) > vb.half(i) { va.half(i) } else { vb.half(i) }),
{
    let a = va.as_halfwords();
    let b = vb.as_halfwords();
    let mut result = [0u16; 8];
    let mut i: usize = 0;
    while i < 8
        invariant
            0 <= i <= 8,
            forall|j: int| 0 <= j < 8 ==> #[trigger] a@[j] == va.half(j),
            forall|j: int| 0 <= j < 8 ==> #[trigger] b@[j] == vb.half(j),
            forall|j: int| 0 <= j < i ==> #[trigger] result@[j] == (if va.half(j) > vb.half(j) { va.half(j) } else { vb.half(j) }),
        decreases 8 - i,
    {
        result[i] = (if a[i] > b[i] { a[i] } else { b[i] });
        i = i + 1;
    }
    Vector128::from_halfwords(result)
}

/// Vector Maximum Signed Word (vmaxsw)
pub fn vmaxsw(va: Vector128, vb: Vector128) -> (r: Vector128)
    ensures
        forall|i: int| 0 <= i < 4 ==> #[trigger] r.word(i) == (if va.sword(i) > vb.sword(i) { va.sword(i) } else { vb.sword(i) }) as u32,
{
    let a = va.as_signed_words();
    let b = vb.as_signed_words();
    let mut result = [0u32; 4];
    let mut i: usize = 0;
    while i < 4
        invariant
            0 <= i <= 4,
            forall|j: int| 0 <= j < 4 ==> #[trigger] a@[j] == va.sword(j),
            forall|j: int| 0 <= j < 4 ==> #[trigger] b@[j] == vb.sword(j),
            forall|j: int| 0 <= j < i ==> #[trigger] result@[j] == (if va.sword(j) > vb.sword(j) { va.sword(j) } else { vb.sword(j) }) as u32,
        decreases 4 - i,
    {
        result[i] = (if a[i] > b[i] { a[i] } else { b[i] }) as u32;
        i = i + 1;
    }
    Vector128::from_words(result)
}

/// Vector Maximum Unsigned Word (vmaxuw)
pub fn vmaxuw(va: Vector128, vb: Vector128) -> (r: Vector128)
    ensures
        forall|i: int| 0 <= i < 4 ==> #[trigger] r.word(i) == (if va.word(i) > vb.word(i) { va.word(i) } else { vb.word(i) }),
{
    let a = va.as_words();
    let b = vb.as_words();
    let mut result = [0u32; 4];
    let mut i: usize = 0;
    while i < 4
        invariant
            0 <= i <= 4,
            forall|j: int| 0 <= j < 4 ==> #[trigger] a@[j] == va.word(j),
            forall|j: int| 0 <= j < 4 ==> #[trigger] b@[j] == vb.word(j),
            forall|j: int| 0 <= j < i ==> #[trigger] result@[j] == (if va.word(j) > vb.word(j) { va.word(j) } else { vb.word(j) }),
        decreases 4 - i,
    {
        result[i] = (if a[i] > b[i] { a[i] } else { b[i] });
        i = i + 1;
    }
    Vector128::from_words(result)
}

/// Vector Minimum Signed Byte (vminsb)
pub fn vminsb(va: Vector128, vb: Vector128) -> (r: Vector128)
    ensures
        forall|i: int| 0 <= i < 16 ==> #[trigger] r.byte(i) == (if va.sbyte(i) < vb.sbyte(i) { va.sbyte(i) } else { vb.sbyte(i) }) as u8,
{
    let a = va.as_signed_bytes();
    let b = vb.as_signed_bytes();
    let mut result = [0u8; 16];
    let mut i: usize = 0;
    while i < 16
        invariant
            0 <= i <= 16,
            forall|j: int| 0 <= j < 16 ==> #[trigger] a@[j] == va.sbyte(j),
            forall|j: int| 0 <= j < 16 ==> #[trigger] b@[j] == vb.sbyte(j),
            forall|j: int| 0 <= j < i ==> #[trigger] result@[j] == (if va.sbyte(j) < vb.sbyte(j) { va.sbyte(j) } else { vb.sbyte(j) }) as u8,
        decreases 16 - i,
    {
        result[i] = (if a[i] < b[i] { a[i] } else { b[i] }) as u8;
        i = i + 1;
    }
    Vector128::from_bytes(result)
}

/// Vector Minimum Unsigned Byte (vminub)
pub fn vminub(va: Vector128, vb: Vector128) -> (r: Vector128)
    ensures
        forall|i: int| 0 <= i < 16 ==> #[trigger] r.byte(i) == (if va.byte(i) < vb.byte(i) { va.byte(i) } else { vb.byte(i) }),
{
    let a = va.as_bytes();
    let b = vb.as_bytes();
    let mut result = [0u8; 16];
    let mut i: usize = 0;
    while i < 16
        invariant
            0 <= i <= 16,
            forall|j: int| 0 <= j < 16 ==> #[trigger] a@[j] == va.byte(j),
            forall|j: int| 0 <= j < 16 ==> #[trigger] b@[j] == vb.byte(j),
            forall|j: int| 0 <= j < i ==> #[trigger] result@[j] == (if va.byte(j) < vb.byte(j) { va.byte(j) } else { vb.byte(j) }),
        decreases 16 - i,
    {
        result[i] = (if a[i] < b[i] { a[i] } else { b[i] });
        i = i + 1;
    }
    Vector128::from_bytes(result)
}

/// Vector Minimum Signed Halfword (vminsh)
pub fn vminsh(va: Vector128, vb: Vector128) -> (r: Vector128)
    ensures
        forall|i: int| 0 <= i < 8 ==> #[trigger] r.half(i) == (if va.shalf(i) < vb.shalf(i) { va.shalf(i) } else { vb.shalf(i) }) as u16,
{
    let a = va.as_signed_halfwords();
    let b = vb.as_signed_halfwords();
    let mut result = [0u16; 8];
    let mut i: usize = 0;
    while i < 8
        invariant
            0 <= i <= 8,
            forall|j: int| 0 <= j < 8 ==> #[trigger] a@[j] == va.shalf(j),
            forall|j: int| 0 <= j < 8 ==> #[trigger] b@[j] == vb.shalf(j),
            forall|j: int| 0 <= j < i ==> #[trigger] result@[j] == (if va.shalf(j) < vb.shalf(j) { va.shalf(j) } else { vb.shalf(j) }) as u16,
        decreases 8 - i,
    {
        result[i] = (if a[i] < b[i] { a[i] } else { b[i] }) as u16;
        i = i + 1;
    }
    Vector128::from_halfwords(result)
}

/// Vector Minimum Unsigned Halfword (vminuh)
pub fn vminuh(va: Vector128, vb: Vector128) -> (r: Vector128)
    ensures
        forall|i: int| 0 <= i < 8 ==> #[trigger] r.half(i) == (if va.half(i) < vb.half(i) { va.half(i) } else { vb.half(i) }),
{
    let a = va.as_halfwords();
    let b = vb.as_halfwords();
    let mut result = [0u16; 8];
    let mut i: usize = 0;
    while i < 8
        invariant
            0 <= i <= 8,
            forall|j: int| 0 <= j < 8 ==> #[trigger] a@[j] == va.half(j),
            forall|j: int| 0 <= j < 8 ==> #[trigger] b@[j] == vb.half(j),
            forall|j: int| 0 <= j < i ==> #[trigger] result@[j] == (if va.half(j) < vb.half(j) { va.half(j) } else { vb.half(j) }),
        decreases 8 - i,
    {
        result[i] = (if a[i] < b[i] { a[i] } else { b[i] });
        i = i + 1;
    }
    Vector128::from_halfwords(result)
}

/// Vector Minimum Signed Word (vminsw)
pub fn vminsw(va: Vector128, vb: Vector128) -> (r: Vector128)
    ensures
        forall|i: int| 0 <= i < 4 ==> #[trigger] r.word(i) == (if va.sword(i) < vb.sword(i) { va.sword(i) } else { vb.sword(i) }) as u32,
{
    let a = va.as_signed_words();
    let b = vb.as_signed_words();
    let mut result = [0u32; 4];
    let mut i: usize = 0;
    while i < 4
        invariant
            0 <= i <= 4,
            forall|j: int| 0 <= j < 4 ==> #[trigger] a@[j] == va.sword(j),
            forall|j: int| 0 <= j < 4 ==> #[trigger] b@[j] == vb.sword(j),
            forall|j: int| 0 <= j < i ==> #[trigger] result@[j] == (if va.sword(j) < vb.sword(j) { va.sword(j) } else { vb.sword(j) }) as u32,
        decreases 4 - i,
    {
        result[i] = (if a[i] < b[i] { a[i] } else { b[i] }) as u32;
        i = i + 1;
    }
    Vector128::from_words(result)
}

/// Vector Minimum Unsigned Word (vminuw)
pub fn vminuw(va: Vector128, vb: Vector128) -> (r: Vector128)
    ensures
        forall|i: int| 0 <= i < 4 ==> #[trigger] r.word(i) == (if va.word(i) < vb.word(i) { va.word(i) } else { vb.word(i) }),
{
    let a = va.as_words();
    let b = vb.as_words();
    let mut result = [0u32; 4];
    let mut i: usize = 0;
    while i < 4
        invariant
            0 <= i <= 4,
            forall|j: int| 0 <= j < 4 ==> #[trigger] a@[j] == va.word(j),
            forall|j: int| 0 <= j < 4 ==> #[trigger] b@[j] == vb.word(j),
            forall|j: int| 0 <= j < i ==> #[trigger] result@[j] == (if va.word(j) < vb.word(j) { va.word(j) } else { vb.word(j) }),
        decreases 4 - i,
    {
        result[i] = (if a[i] < b[i] { a[i] } else { b[i] });
        i = i + 1;
    }
    Vector128::from_words(result)
}

/// Vector Average Unsigned Byte (vavgub)
pub fn vavgub(va: Vector128, vb: Vector128) -> (r: Vector128)
    ensures
        forall|i: int| 0 <= i < 16 ==> #[trigger] r.byte(i) == ((va.byte(i) as int + vb.byte(i) as int + 1) / 2) as u8,
{
    let a = va.as_bytes();
    let b = vb.as_bytes();
    let mut result = [0u8; 16];
    let mut i: usize = 0;
    while i < 16
        invariant
            0 <= i <= 16,
            forall|j: int| 0 <= j < 16 ==> #[trigger] a@[j] == va.byte(j),
            forall|j: int| 0 <= j < 16 ==> #[trigger] b@[j] == vb.byte(j),
            forall|j: int| 0 <= j < i ==> #[trigger] result@[j] == ((va.byte(j) as int + vb.byte(j) as int + 1) / 2) as u8,
        decreases 16 - i,
    {
        result[i] = (((a[i] as u16) + (b[i] as u16) + 1) / 2) as u8;
        i = i + 1;
    }
    Vector128::from_bytes(result)
}

/// Vector Average Signed Byte (vavgsb): `(a + b + 1) >> 1` in each lane,
/// rounding down.
pub fn vavgsb(va: Vector128, vb: Vector128) -> (r: Vector128)
    ensures
        forall|i: int| 0 <= i < 16 ==> #[trigger] r.byte(i) == (half_floor(va.sbyte(i) as int + vb.sbyte(i) as int + 1) as i8) as u8,
{
    let a = va.as_signed_bytes();
    let b = vb.as_signed_bytes();
    let mut result = [0u8; 16];
    let mut i: usize = 0;
    while i < 16
        invariant
            0 <= i <= 16,
            forall|j: int| 0 <= j < 16 ==> #[trigger] a@[j] == va.sbyte(j),
            forall|j: int| 0 <= j < 16 ==> #[trigger] b@[j] == vb.sbyte(j),
            forall|j: int| 0 <= j < i ==> #[trigger] result@[j] == (half_floor(va.sbyte(j) as int + vb.sbyte(j) as int + 1) as i8) as u8,
        decreases 16 - i,
    {
        let sum = (a[i] as i16) + (b[i] as i16) + 1;
        result[i] = (if sum >= 0 { sum / 2 } else { (sum - 1) / 2 } as i8) as u8;
        i = i + 1;
    }
    Vector128::from_bytes(result)
}

/// Vector Average Unsigned Halfword (vavguh)
pub fn vavguh(va: Vector128, vb: Vector128) -> (r: Vector128)
    ensures
        forall|i: int| 0 <= i < 8 ==> #[trigger] r.half(i) == ((va.half(i) as int + vb.half(i) as int + 1) / 2) as u16,
{
    let a = va.as_halfwords();
    let b = vb.as_halfwords();
    let mut result = [0u16; 8];
    let mut i: usize = 0;
    while i < 8
        invariant
            0 <= i <= 8,
            forall|j: int| 0 <= j < 8 ==> #[trigger] a@[j] == va.half(j),
            forall|j: int| 0 <= j < 8 ==> #[trigger] b@[j] == vb.half(j),
            forall|j: int| 0 <= j < i ==> #[trigger] result@[j] == ((va.half(j) as int + vb.half(j) as int + 1) / 2) as u16,
        decreases 8 - i,
    {
        result[i] = (((a[i] as u32) + (b[i] as u32) + 1) / 2) as u16;
        i = i + 1;
    }
    Vector128::from_halfwords(result)
}

/// Vector Average Signed Halfword (vavgsh): `(a + b + 1) >> 1` in each
/// lane, rounding down.
pub fn vavgsh(va: Vector128, vb: Vector128) -> (r: Vector128)
    ensures
        forall|i: int| 0 <= i < 8 ==> #[trigger] r.half(i) == (half_floor(va.shalf(i) as int + vb.shalf(i) as int + 1) as i16) as u16,
{
    let a = va.as_signed_halfwords();
    let b = vb.as_signed_halfwords();
    let mut result = [0u16; 8];
    let mut i: usize = 0;
    while i < 8
        invariant
            0 <= i <= 8,
            forall|j: int| 0 <= j < 8 ==> #[trigger] a@[j] == va.shalf(j),
            forall|j: int| 0 <= j < 8 ==> #[trigger] b@[j] == vb.shalf(j),
            forall|j: int| 0 <= j < i ==> #[trigger] result@[j] == (half_floor(va.shalf(j) as int + vb.shalf(j) as int + 1) as i16) as u16,
        decreases 8 - i,
    {
        let sum = (a[i] as i32) + (b[i] as i32) + 1;
        result[i] = (if sum >= 0 { sum / 2 } else { (sum - 1) / 2 } as i16) as u16;
        i = i + 1;
    }
    Vector128::from_halfwords(result)
}

/// Vector Average Unsigned Word (vavguw)
pub fn vavguw(va: Vector128, vb: Vector128) -> (r: Vector128)
    ensures
        forall|i: int| 0 <= i < 4 ==> #[trigger] r.word(i) == ((va.word(i) as int + vb.word(i) as int + 1) / 2) as u32,
{
    let a = va.as_words();
    let b = vb.as_words();
    let mut result = [0u32; 4];
    let mut i: usize = 0;
    while i < 4
        invariant
            0 <= i <= 4,
            forall|j: int| 0 <= j < 4 ==> #[trigger] a@[j] == va.word(j),
            forall|j: int| 0 <= j < 4 ==> #[trigger] b@[j] == vb.word(j),
            forall|j: int| 0 <= j < i ==> #[trigger] result@[j] == ((va.word(j) as int + vb.word(j) as int + 1) / 2) as u32,
        decreases 4 - i,
    {
        result[i] = (((a[i] as u64) + (b[i] as u64) + 1) / 2) as u32;
        i = i + 1;
    }
    Vector128::from_words(result)
}

/// Vector Average Signed Word (vavgsw): `(a + b + 1) >> 1` in each lane,
/// rounding down.
pub fn vavgsw(va: Vector128, vb: Vector128) -> (r: Vector128)
    ensures
        forall|i: int| 0 <= i < 4 ==> #[trigger] r.word(i) == (half_floor(va.sword(i) as int + vb.sword(i) as int + 1) as i32) as u32,
{
    let a = va.as_signed_words();
    let b = vb.as_signed_words();
    let mut result = [0u32; 4];
    let mut i: usize = 0;
    while i < 4
        invariant
            0 <= i <= 4,
            forall|j: int| 0 <= j < 4 ==> #[trigger] a@[j] == va.sword(j),
            forall|j: int| 0 <= j < 4 ==> #[trigger] b@[j] == vb.sword(j),
            forall|j: int| 0 <= j < i ==> #[trigger] result@[j] == (half_floor(va.sword(j) as int + vb.sword(j) as int + 1) as i32) as u32,
        decreases 4 - i,
    {
        let sum = (a[i] as i64) + (b[i] as i64) + 1;
        result[i] = (if sum >= 0 { sum / 2 } else { (sum - 1) / 2 } as i32) as u32;
        i = i + 1;
    }
    Vector128::from_words(result)
}

} // verus!
