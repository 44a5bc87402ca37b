//! Big-endian reads and writes on byte sequences.
use vstd::prelude::*;
use vstd::string::StringSliceAdditionalSpecFns;

verus! {

/// The big-endian 16-bit value of the two bytes at `i`.
pub open spec fn be16(d: Seq<u8>, i: int) -> int {
    d[i] * 0x100 + d[i + 1]
}

/// The big-endian 32-bit value of the four bytes at `i`.
pub open spec fn be32(d: Seq<u8>, i: int) -> int {
    d[i] * 0x100_0000 + d[i + 1] * 0x1_0000 + d[i + 2] * 0x100 + d[i + 3]
}

/// The four bytes of `v`, most significant first.
pub open spec fn be32_bytes(v: u32) -> Seq<u8> {
    seq![(v / 0x100_0000) as u8, ((v / 0x1_0000) % 0x100) as u8, ((v / 0x100) % 0x100) as u8, (v % 0x100) as u8]
}

/// The four bytes of `v`, read back big-endian, give `v`.
pub proof fn lemma_be32_bytes(v: u32)
    ensures
        be32_bytes(v)[0] * 0x100_0000 + be32_bytes(v)[1] * 0x1_0000 + be32_bytes(v)[2] * 0x100 + be32_bytes(v)[3] == v,
{
    let b0: u8 = (v >> 24u32) as u8;
    let b1: u8 = ((v >> 16u32) & 0xFF) as u8;
    let b2: u8 = ((v >> 8u32) & 0xFF) as u8;
    let b3: u8 = (v & 0xFF) as u8;
    assert(b0 == (v / 0x100_0000) as u8 && b1 == ((v / 0x1_0000) % 0x100) as u8
        && b2 == ((v / 0x100) % 0x100) as u8 && b3 == (v % 0x100) as u8) by (bit_vector)
        requires
            b0 == (v >> 24u32) as u8,
            b1 == ((v >> 16u32) & 0xFF) as u8,
            b2 == ((v >> 8u32) & 0xFF) as u8,
            b3 == (v & 0xFF) as u8,
    ;
    assert(b0 * 0x100_0000 + b1 * 0x1_0000 + b2 * 0x100 + b3 == v) by (bit_vector)
        requires
            b0 == (v >> 24u32) as u8,
            b1 == ((v >> 16u32) & 0xFF) as u8,
            b2 == ((v >> 8u32) & 0xFF) as u8,
            b3 == (v & 0xFF) as u8,
    ;
}

/// Read the big-endian 16-bit value at `i`.
pub fn read_be16(d: &[u8], i: usize) -> (r: u16)
    requires
        i + 2 <= d@.len(),
    ensures
        r == be16(d@, i as int),
{
    let a = d[i];
    let b = d[i + 1];
    assert(((a as u16) << 8u16) | (b as u16) == a * 0x100 + b) by (bit_vector);
    ((a as u16) << 8u16) | (b as u16)
}

/// Read the big-endian 32-bit value at `i`.
pub fn read_be32(d: &[u8], i: usize) -> (r: u32)
    requires
        i + 4 <= d@.len(),
    ensures
        r == be32(d@, i as int),
{
    let a = d[i];
    let b = d[i + 1];
    let c = d[i + 2];
    let e = d[i + 3];
    assert(((a as u32) << 24u32) | ((b as u32) << 16u32) | ((c as u32) << 8u32) | (e as u32)
        == a * 0x100_0000 + b * 0x1_0000 + c * 0x100 + e) by (bit_vector);
    ((a as u32) << 24u32) | ((b as u32) << 16u32) | ((c as u32) << 8u32) | (e as u32)
}

/// Write `v` big-endian at `i`.
pub fn write_be32(d: &mut [u8], i: usize, v: u32)
    requires
        i + 4 <= old(d)@.len(),
    ensures
        final(d)@ == old(d)@.subrange(0, i as int) + be32_bytes(v) + old(d)@.subrange(i + 4, old(d)@.len() as int),
        be32(final(d)@, i as int) == v,
{
    let b0 = (v >> 24u32) as u8;
    let b1 = ((v >> 16u32) & 0xFF) as u8;
    let b2 = ((v >> 8u32) & 0xFF) as u8;
    let b3 = (v & 0xFF) as u8;
    assert(b0 == (v / 0x100_0000) as u8 && b1 == ((v / 0x1_0000) % 0x100) as u8
        && b2 == ((v / 0x100) % 0x100) as u8 && b3 == (v % 0x100) as u8) by (bit_vector)
        requires
            b0 == (v >> 24u32) as u8,
            b1 == ((v >> 16u32) & 0xFF) as u8,
            b2 == ((v >> 8u32) & 0xFF) as u8,
            b3 == (v & 0xFF) as u8,
    ;
    assert(b0 * 0x100_0000 + b1 * 0x1_0000 + b2 * 0x100 + b3 == v) by (bit_vector)
        requires
            b0 == (v >> 24u32) as u8,
            b1 == ((v >> 16u32) & 0xFF) as u8,
            b2 == ((v >> 8u32) & 0xFF) as u8,
            b3 == (v & 0xFF) as u8,
    ;
    d[i] = b0;
    d[i + 1] = b1;
    d[i + 2] = b2;
    d[i + 3] = b3;
    assert(d@ =~= old(d)@.subrange(0, i as int) + be32_bytes(v) + old(d)@.subrange(i + 4, old(d)@.len() as int));
}

/// Whether `pat` occurs in `d` at position `p`.
pub open spec fn matches_at(d: Seq<u8>, pat: Seq<u8>, p: int) -> bool {
    0 <= p && p + pat.len() <= d.len() && d.subrange(p, p + pat.len()) == pat
}

/// The first position from `p` on where `pat` occurs in `d`.
pub open spec fn find_from(d: Seq<u8>, pat: Seq<u8>, p: int) -> Option<int>
    decreases d.len() + 1 - p,
{
    if p < 0 || p + pat.len() > d.len() {
        None
    } else if matches_at(d, pat, p) {
        Some(p)
    } else {
        find_from(d, pat, p + 1)
    }
}

/// The last position at or below `p` where `pat` occurs in `d`.
pub open spec fn rfind_from(d: Seq<u8>, pat: Seq<u8>, p: int) -> Option<int>
    decreases p + 1,
{
    if p < 0 {
        None
    } else if matches_at(d, pat, p) {
        Some(p)
    } else {
        rfind_from(d, pat, p - 1)
    }
}

/// What `find_from` finds: the first match, or that none is left.
pub proof fn lemma_find_from(d: Seq<u8>, pat: Seq<u8>, p: int)
    requires
        0 <= p,
    ensures
        match find_from(d, pat, p) {
            Some(q) => p <= q && matches_at(d, pat, q) && forall|k: int| p <= k < q ==> !#[trigger] matches_at(d, pat, k),
            None => forall|k: int| p <= k ==> !#[trigger] matches_at(d, pat, k),
        },
    decreases d.len() + 1 - p,
{
    if p + pat.len() <= d.len() && !matches_at(d, pat, p) {
        lemma_find_from(d, pat, p + 1);
    }
}

/// What `rfind_from` finds: the last match, or that there is none.
pub proof fn lemma_rfind_from(d: Seq<u8>, pat: Seq<u8>, p: int)
    ensures
        match rfind_from(d, pat, p) {
            Some(q) => 0 <= q <= p && matches_at(d, pat, q) && forall|k: int| q < k <= p ==> !#[trigger] matches_at(d, pat, k),
            None => forall|k: int| k <= p ==> !#[trigger] matches_at(d, pat, k),
        },
    decreases p + 1,
{
    if p >= 0 && !matches_at(d, pat, p) {
        lemma_rfind_from(d, pat, p - 1);
    }
}

/// Whether `pat` occurs at `p`, byte by byte.
pub fn bytes_equal_at(d: &[u8], pat: &[u8], p: usize) -> (r: bool)
    requires
        p + pat@.len() <= d@.len(),
    ensures
        r == matches_at(d@, pat@, p as int),
{
    let mut k: usize = 0;
    while k < pat.len()
        invariant
            k <= pat@.len(),
            p + pat.len() <= d.len(),
            forall|j: int| 0 <= j < k ==> d@[p + j] == pat@[j],
        decreases pat@.len() - k,
    {
        if d[p + k] != pat[k] {
            proof {
                assert(d@.subrange(p as int, p + pat@.len())[k as int] == d@[p + k]);
            }
            return false;
        }
        k = k + 1;
    }
    assert(d@.subrange(p as int, p + pat@.len()) =~= pat@);
    true
}

/// The first position from `from` on where `pat` occurs in `d`.
pub fn find_bytes(d: &[u8], pat: &[u8], from: usize) -> (r: Option<usize>)
    ensures
        r matches Some(q) ==> find_from(d@, pat@, from as int) == Some(q as int),
        r is None ==> find_from(d@, pat@, from as int) is None,
{
    if pat.len() > d.len() {
        return None;
    }
    let last = d.len() - pat.len();
    if from > last {
        return None;
    }
    let mut p: usize = from;
    loop
        invariant
            from <= p <= last,
            last + pat@.len() == d@.len(),
            find_from(d@, pat@, p as int) == find_from(d@, pat@, from as int),
        decreases last - p,
    {
        if bytes_equal_at(d, pat, p) {
            return Some(p);
        }
        if p == last {
            return None;
        }
        p = p + 1;
    }
}

/// The last position where `pat` occurs wholly within the first `end`
/// bytes of `d`.
pub fn rfind_bytes(d: &[u8], pat: &[u8], end: usize) -> (r: Option<usize>)
    requires
        end <= d@.len(),
    ensures
        r matches Some(q) ==> rfind_from(d@, pat@, end - pat@.len()) == Some(q as int),
        r is None ==> rfind_from(d@, pat@, end - pat@.len()) is None,
{
    if pat.len() > end {
        return None;
    }
    let mut p: usize = end - pat.len();
    loop
        invariant
            p + pat@.len() <= end <= d@.len(),
            rfind_from(d@, pat@, p as int) == rfind_from(d@, pat@, end - pat@.len()),
        decreases p,
    {
        if bytes_equal_at(d, pat, p) {
            return Some(p);
        }
        if p == 0 {
            assert(rfind_from(d@, pat@, -1) is None);
            return None;
        }
        p = p - 1;
    }
}

/// A copy of the bytes in `[a, b)`.
pub fn copy_range(d: &[u8], a: usize, b: usize) -> (r: Vec<u8>)
    requires
        a <= b <= d@.len(),
    ensures
        r@ == d@.subrange(a as int, b as int),
{
    let mut v: Vec<u8> = Vec::new();
    let mut i: usize = a;
    while i < b
        invariant
            a <= i <= b <= d@.len(),
            v@ == d@.subrange(a as int, i as int),
        decreases b - i,
    {
        v.push(d[i]);
        assert(v@ =~= d@.subrange(a as int, i + 1));
        i = i + 1;
    }
    v
}

/// The big-endian bytes of `v`.
pub fn be32_vec(v: u32) -> (r: Vec<u8>)
    ensures
        r@ == be32_bytes(v),
{
    let mut out: Vec<u8> = Vec::new();
    out.push((v >> 24u32) as u8);
    out.push(((v >> 16u32) & 0xFF) as u8);
    out.push(((v >> 8u32) & 0xFF) as u8);
    out.push((v & 0xFF) as u8);
    proof {
        let b0 = (v >> 24u32) as u8;
        let b1 = ((v >> 16u32) & 0xFF) as u8;
        let b2 = ((v >> 8u32) & 0xFF) as u8;
        let b3 = (v & 0xFF) as u8;
        assert(b0 == (v / 0x100_0000) as u8 && b1 == ((v / 0x1_0000) % 0x100) as u8
            && b2 == ((v / 0x100) % 0x100) as u8 && b3 == (v % 0x100) as u8) by (bit_vector)
            requires
                b0 == (v >> 24u32) as u8,
                b1 == ((v >> 16u32) & 0xFF) as u8,
                b2 == ((v >> 8u32) & 0xFF) as u8,
                b3 == (v & 0xFF) as u8,
        ;
    }
    assert(out@ =~= be32_bytes(v));
    out
}

/// The UTF-8 bytes of a string.
pub fn str_bytes(s: &str) -> (r: Vec<u8>)
    ensures
        r@ == s.spec_bytes(),
{
    let b = s.as_bytes();
    let mut v: Vec<u8> = Vec::new();
    let mut i: usize = 0;
    while i < b.len()
        invariant
            i <= b@.len(),
            v@ == b@.subrange(0, i as int),
        decreases b@.len() - i,
    {
        v.push(b[i]);
        assert(v@ =~= b@.subrange(0, i + 1));
        i = i + 1;
    }
    assert(v@ =~= b@);
    v
}

/// `a` followed by `b`.
pub fn concat_bytes(a: Vec<u8>, b: Vec<u8>) -> (r: Vec<u8>)
    ensures
        r@ == a@ + b@,
{
    let mut out = a;
    let mut i: usize = 0;
    let ghost a0 = out@;
    while i < b.len()
        invariant
            i <= b@.len(),
            out@ == a0 + b@.subrange(0, i as int),
        decreases b@.len() - i,
    {
        out.push(b[i]);
        assert(out@ =~= a0 + b@.subrange(0, i + 1));
        i = i + 1;
    }
    assert(b@.subrange(0, b@.len() as int) =~= b@);
    out
}

} // verus!
