use vstd::prelude::*;
use crate::altivec::types::Vector128;

verus! {

/// The byte that `vperm` picks for selector `s`: bit 4 chooses the source
/// vector and the low four bits the byte within it.
pub open spec fn perm_pick(va: Vector128, vb: Vector128, s: u8) -> u8 {
    if s & 0x10u8 == 0 {
        va.byte((s & 0x0Fu8) as int)
    } else {
        vb.byte((s & 0x0Fu8) as int)
    }
}

/// Vector Permute (vperm)
pub fn vperm(va: Vector128, vb: Vector128, vc: Vector128) -> (r: Vector128)
    ensures
        forall|i: int| 0 <= i < 16 ==> #[trigger] r.byte(i) == perm_pick(va, vb, vc.byte(i)),
{
    let a_bytes = va.as_bytes();
    let b_bytes = vb.as_bytes();
    let c_bytes = vc.as_bytes();
    let mut result = [0u8; 16];
    let mut i: usize = 0;
    while i < 16
        invariant
            0 <= i <= 16,
            forall|j: int| 0 <= j < 16 ==> #[trigger] a_bytes@[j] == va.byte(j),
            forall|j: int| 0 <= j < 16 ==> #[trigger] b_bytes@[j] == vb.byte(j),
            forall|j: int| 0 <= j < 16 ==> #[trigger] c_bytes@[j] == vc.byte(j),
            forall|j: int| 0 <= j < i ==> #[trigger] result@[j] == perm_pick(va, vb, vc.byte(j)),
        decreases 16 - i,
    {
        let selector = c_bytes[i];
        assert(selector & 0x0Fu8 < 16u8) by (bit_vector);
        let src_idx = (selector & 0x0F) as usize;
        result[i] = if (selector & 0x10) == 0 {
            a_bytes[src_idx % 16]
        } else {
            b_bytes[src_idx % 16]
        };
        i = i + 1;
    }
    Vector128::from_bytes(result)
}

/// Vector Splat Byte (vspltb)
pub fn vspltb(vb: Vector128, uimm: u8) -> (r: Vector128)
    ensures
        forall|i: int| 0 <= i < 16 ==> #[trigger] r.byte(i) == vb.byte((uimm & 0x0Fu8) as int),
{
    let b = vb.as_bytes();
    assert(uimm & 0x0Fu8 <= 0x0Fu8) by (bit_vector);
    let idx = (uimm & 0x0Fu8) as usize;
    let splat = b[idx];
    let result = [splat; 16];
    let r = Vector128::from_bytes(result);
    assert(forall|i: int| 0 <= i < 16 ==> #[trigger] r.byte(i) == result@[i]);
    r
}

/// Vector Splat Halfword (vsplth)
pub fn vsplth(vb: Vector128, uimm: u8) -> (r: Vector128)
    ensures
        forall|i: int| 0 <= i < 8 ==> #[trigger] r.half(i) == vb.half((uimm & 0x07u8) as int),
{
    let b = vb.as_halfwords();
    assert(uimm & 0x07u8 <= 0x07u8) by (bit_vector);
    let idx = (uimm & 0x07u8) as usize;
    let splat = b[idx];
    let result = [splat; 8];
    let r = Vector128::from_halfwords(result);
    assert(forall|i: int| 0 <= i < 8 ==> #[trigger] r.half(i) == result@[i]);
    r
}

/// Vector Splat Word (vspltw)
pub fn vspltw(vb: Vector128, uimm: u8) -> (r: Vector128)
    ensures
        forall|i: int| 0 <= i < 4 ==> #[trigger] r.word(i) == vb.word((uimm & 0x03u8) as int),
{
    let b = vb.as_words();
    assert(uimm & 0x03u8 <= 0x03u8) by (bit_vector);
    let idx = (uimm & 0x03u8) as usize;
    let splat = b[idx];
    let result = [splat; 4];
    let r = Vector128::from_words(result);
    assert(forall|i: int| 0 <= i < 4 ==> #[trigger] r.word(i) == result@[i]);
    r
}

/// Vector Merge High Byte (vmrghb)
pub fn vmrghb(va: Vector128, vb: Vector128) -> (r: Vector128)
    ensures
        forall|i: int| 0 <= i < 8 ==> #[trigger] r.byte(2 * i) == va.byte(i),
        forall|i: int| 0 <= i < 8 ==> #[trigger] r.byte(2 * i + 1) == vb.byte(i),
{
    let a = va.as_bytes();
    let b = vb.as_bytes();
    let mut result = [0u8; 16];
    let mut i: usize = 0;
    while i < 8
        invariant
            0 <= i <= 8,
            forall|j: int| 0 <= j < 16 ==> #[trigger] a@[j] == va.byte(j),
            forall|j: int| 0 <= j < 16 ==> #[trigger] b@[j] == vb.byte(j),
            forall|j: int| 0 <= j < i ==> #[trigger] result@[2 * j] == va.byte(j),
            forall|j: int| 0 <= j < i ==> #[trigger] result@[2 * j + 1] == vb.byte(j),
        decreases 8 - i,
    {
        result[i * 2] = a[i];
        result[i * 2 + 1] = b[i];
        i = i + 1;
    }
    Vector128::from_bytes(result)
}

/// Vector Merge Low Byte (vmrglb)
pub fn vmrglb(va: Vector128, vb: Vector128) -> (r: Vector128)
    ensures
        forall|i: int| 0 <= i < 8 ==> #[trigger] r.byte(2 * i) == va.byte(i + 8),
        forall|i: int| 0 <= i < 8 ==> #[trigger] r.byte(2 * i + 1) == vb.byte(i + 8),
{
    let a = va.as_bytes();
    let b = vb.as_bytes();
    let mut result = [0u8; 16];
    let mut i: usize = 0;
    while i < 8
        invariant
            0 <= i <= 8,
            forall|j: int| 0 <= j < 16 ==> #[trigger] a@[j] == va.byte(j),
            forall|j: int| 0 <= j < 16 ==> #[trigger] b@[j] == vb.byte(j),
            forall|j: int| 0 <= j < i ==> #[trigger] result@[2 * j] == va.byte(j + 8),
            forall|j: int| 0 <= j < i ==> #[trigger] result@[2 * j + 1] == vb.byte(j + 8),
        decreases 8 - i,
    {
        result[i * 2] = a[i + 8];
        result[i * 2 + 1] = b[i + 8];
        i = i + 1;
    }
    Vector128::from_bytes(result)
}

/// Vector Merge High Halfword (vmrghh)
pub fn vmrghh(va: Vector128, vb: Vector128) -> (r: Vector128)
    ensures
        forall|i: int| 0 <= i < 4 ==> #[trigger] r.half(2 * i) == va.half(i),
        forall|i: int| 0 <= i < 4 ==> #[trigger] r.half(2 * i + 1) == vb.half(i),
{
    let a = va.as_halfwords();
    let b = vb.as_halfwords();
    let mut result = [0u16; 8];
    let mut i: usize = 0;
    while i < 4
        invariant
            0 <= i <= 4,
            forall|j: int| 0 <= j < 8 ==> #[trigger] a@[j] == va.half(j),
            forall|j: int| 0 <= j < 8 ==> #[trigger] b@[j] == vb.half(j),
            forall|j: int| 0 <= j < i ==> #[trigger] result@[2 * j] == va.half(j),
            forall|j: int| 0 <= j < i ==> #[trigger] result@[2 * j + 1] == vb.half(j),
        decreases 4 - i,
    {
        result[i * 2] = a[i];
        result[i * 2 + 1] = b[i];
        i = i + 1;
    }
    Vector128::from_halfwords(result)
}

/// Vector Merge Low Halfword (vmrglh)
pub fn vmrglh(va: Vector128, vb: Vector128) -> (r: Vector128)
    ensures
        forall|i: int| 0 <= i < 4 ==> #[trigger] r.half(2 * i) == va.half(i + 4),
        forall|i: int| 0 <= i < 4 ==> #[trigger] r.half(2 * i + 1) == vb.half(i + 4),
{
    let a = va.as_halfwords();
    let b = vb.as_halfwords();
    let mut result = [0u16; 8];
    let mut i: usize = 0;
    while i < 4
        invariant
            0 <= i <= 4,
            forall|j: int| 0 <= j < 8 ==> #[trigger] a@[j] == va.half(j),
            forall|j: int| 0 <= j < 8 ==> #[trigger] b@[j] == vb.half(j),
            forall|j: int| 0 <= j < i ==> #[trigger] result@[2 * j] == va.half(j + 4),
            forall|j: int| 0 <= j < i ==> #[trigger] result@[2 * j + 1] == vb.half(j + 4),
        decreases 4 - i,
    {
        result[i * 2] = a[i + 4];
        result[i * 2 + 1] = b[i + 4];
        i = i + 1;
    }
    Vector128::from_halfwords(result)
}

/// Vector Merge High Word (vmrghw)
pub fn vmrghw(va: Vector128, vb: Vector128) -> (r: Vector128)
    ensures
        r.word(0) == va.word(0),
        r.word(1) == vb.word(0),
        r.word(2) == va.word(1),
        r.word(3) == vb.word(1),
{
    let a_words = va.as_words();
    let b_words = vb.as_words();
    let result = [a_words[0], b_words[0], a_words[1], b_words[1]];
    Vector128::from_words(result)
}

/// Vector Merge Low Word (vmrglw)
pub fn vmrglw(va: Vector128, vb: Vector128) -> (r: Vector128)
    ensures
        r.word(0) == va.word(2),
        r.word(1) == vb.word(2),
        r.word(2) == va.word(3),
        r.word(3) == vb.word(3),
{
    let a_words = va.as_words();
    let b_words = vb.as_words();
    let result = [a_words[2], b_words[2], a_words[3], b_words[3]];
    Vector128::from_words(result)
}

/// Vector Splat Immediate Signed Byte (vspltisb)
pub fn vspltisb(simm: i8) -> (r: Vector128)
    ensures
        forall|i: int| 0 <= i < 16 ==> #[trigger] r.byte(i) == simm as u8,
{
    let value = simm as u8;
    let result = [value; 16];
    let r = Vector128::from_bytes(result);
    assert(forall|i: int| 0 <= i < 16 ==> #[trigger] r.byte(i) == result@[i]);
    r
}

/// Vector Splat Immediate Signed Halfword (vspltish)
pub fn vspltish(simm: i16) -> (r: Vector128)
    ensures
        forall|i: int| 0 <= i < 8 ==> #[trigger] r.half(i) == simm as u16,
{
    let value = simm as u16;
    let result = [value; 8];
    let r = Vector128::from_halfwords(result);
    assert(forall|i: int| 0 <= i < 8 ==> #[trigger] r.half(i) == result@[i]);
    r
}

/// Vector Splat Immediate Signed Word (vspltisw)
pub fn vspltisw(simm: i32) -> (r: Vector128)
    ensures
        forall|i: int| 0 <= i < 4 ==> #[trigger] r.word(i) == simm as u32,
{
    let value = simm as u32;
    let result = [value; 4];
    let r = Vector128::from_words(result);
    assert(forall|i: int| 0 <= i < 4 ==> #[trigger] r.word(i) == result@[i]);
    r
}

/// Vector Select (vsel): each bit comes from `vb` where `vc` has a one and
/// from `va` where it has a zero.
pub fn vsel(va: Vector128, vb: Vector128, vc: Vector128) -> (r: Vector128)
    ensures
        forall|i: int| 0 <= i < 4 ==> #[trigger] r.word(i) == (vb.word(i) & vc.word(i)) | (va.word(i) & !vc.word(i)),
{
    let a_words = va.as_words();
    let b_words = vb.as_words();
    let c_words = vc.as_words();
    let result = [
        (b_words[0] & c_words[0]) | (a_words[0] & !c_words[0]),
        (b_words[1] & c_words[1]) | (a_words[1] & !c_words[1]),
        (b_words[2] & c_words[2]) | (a_words[2] & !c_words[2]),
        (b_words[3] & c_words[3]) | (a_words[3] & !c_words[3]),
    ];
    let r = Vector128::from_words(result);
    assert(forall|i: int| 0 <= i < 4 ==> #[trigger] r.word(i) == result@[i]);
    r
}

} // verus!
