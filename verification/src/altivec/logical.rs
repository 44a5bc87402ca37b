use vstd::prelude::*;
use crate::altivec::types::Vector128;

verus! {

/// Vector Logical AND (vand)
pub fn vand(va: Vector128, vb: Vector128) -> (r: Vector128)
    ensures
        forall|i: int| 0 <= i < 4 ==> #[trigger] r.word(i) == va.word(i) & vb.word(i),
{
    let words_a = va.as_words();
    let words_b = vb.as_words();
    let result = [
        words_a[0] & words_b[0],
        words_a[1] & words_b[1],
        words_a[2] & words_b[2],
        words_a[3] & words_b[3],
    ];
    let r = Vector128::from_words(result);
    assert(forall|i: int| 0 <= i < 4 ==> #[trigger] r.word(i) == result@[i]);
    r
}

/// Vector Logical AND with Complement (vandc)
pub fn vandc(va: Vector128, vb: Vector128) -> (r: Vector128)
    ensures
        forall|i: int| 0 <= i < 4 ==> #[trigger] r.word(i) == va.word(i) & !vb.word(i),
{
    let words_a = va.as_words();
    let words_b = vb.as_words();
    let result = [
        words_a[0] & !words_b[0],
        words_a[1] & !words_b[1],
        words_a[2] & !words_b[2],
        words_a[3] & !words_b[3],
    ];
    let r = Vector128::from_words(result);
    assert(forall|i: int| 0 <= i < 4 ==> #[trigger] r.word(i) == result@[i]);
    r
}

/// Vector Logical OR (vor)
pub fn vor(va: Vector128, vb: Vector128) -> (r: Vector128)
    ensures
        forall|i: int| 0 <= i < 4 ==> #[trigger] r.word(i) == va.word(i) | vb.word(i),
{
    let words_a = va.as_words();
    let words_b = vb.as_words();
    let result = [
        words_a[0] | words_b[0],
        words_a[1] | words_b[1],
        words_a[2] | words_b[2],
        words_a[3] | words_b[3],
    ];
    let r = Vector128::from_words(result);
    assert(forall|i: int| 0 <= i < 4 ==> #[trigger] r.word(i) == result@[i]);
    r
}

/// Vector Logical NOR (vnor)
pub fn vnor(va: Vector128, vb: Vector128) -> (r: Vector128)
    ensures
        forall|i: int| 0 <= i < 4 ==> #[trigger] r.word(i) == !(va.word(i) | vb.word(i)),
{
    let words_a = va.as_words();
    let words_b = vb.as_words();
    let result = [
        !(words_a[0] | words_b[0]),
        !(words_a[1] | words_b[1]),
        !(words_a[2] | words_b[2]),
        !(words_a[3] | words_b[3]),
    ];
    let r = Vector128::from_words(result);
    assert(forall|i: int| 0 <= i < 4 ==> #[trigger] r.word(i) == result@[i]);
    r
}

/// Vector Logical XOR (vxor)
pub fn vxor(va: Vector128, vb: Vector128) -> (r: Vector128)
    ensures
        forall|i: int| 0 <= i < 4 ==> #[trigger] r.word(i) == va.word(i) ^ vb.word(i),
{
    let words_a = va.as_words();
    let words_b = vb.as_words();
    let result = [
        words_a[0] ^ words_b[0],
        words_a[1] ^ words_b[1],
        words_a[2] ^ words_b[2],
        words_a[3] ^ words_b[3],
    ];
    let r = Vector128::from_words(result);
    assert(forall|i: int| 0 <= i < 4 ==> #[trigger] r.word(i) == result@[i]);
    r
}

} // verus!
