//! Text helpers: string comparison, number formatting and first-match
//! lookup in keyed lists.
use vstd::prelude::*;
use vstd::string::StringSliceAdditionalSpecFns;
use vstd::string::StringExecFns;

verus! {

/// Compare two strings by their UTF-8 bytes.
pub fn str_eq(a: &str, b: &str) -> (r: bool)
    ensures
        r == (a@ == b@),
{
    let ab = a.as_bytes();
    let bb = b.as_bytes();
    proof {
        vstd::utf8::encode_utf8_decode_utf8(a@);
        vstd::utf8::encode_utf8_decode_utf8(b@);
    }
    if ab.len() != bb.len() {
        return false;
    }
    let mut i: usize = 0;
    while i < ab.len()
        invariant
            0 <= i <= ab@.len(),
            ab@.len() == bb@.len(),
            ab@ == a.spec_bytes(),
            bb@ == b.spec_bytes(),
            forall|j: int| 0 <= j < i ==> ab@[j] == bb@[j],
        decreases ab@.len() - i,
    {
        if ab[i] != bb[i] {
            return false;
        }
        i = i + 1;
    }
    assert(ab@ =~= bb@);
    true
}

/// The index of the first element of `s` whose key is `k`.
pub open spec fn first_match<T>(s: Seq<T>, key: spec_fn(T) -> Seq<char>, k: Seq<char>) -> Option<int>
    decreases s.len(),
{
    if s.len() == 0 {
        None
    } else if key(s[0]) == k {
        Some(0)
    } else {
        match first_match(s.drop_first(), key, k) {
            Some(i) => Some(i + 1),
            None => None,
        }
    }
}

/// `first_match` finds the first element with the key, or reports that
/// none has it.
pub proof fn lemma_first_match<T>(s: Seq<T>, key: spec_fn(T) -> Seq<char>, k: Seq<char>)
    ensures
        match first_match(s, key, k) {
            Some(i) => 0 <= i < s.len() && key(s[i]) == k && forall|j: int|
                0 <= j < i ==> key(#[trigger] s[j]) != k,
            None => forall|j: int| 0 <= j < s.len() ==> key(#[trigger] s[j]) != k,
        },
    decreases s.len(),
{
    if s.len() > 0 && key(s[0]) != k {
        lemma_first_match(s.drop_first(), key, k);
        assert forall|j: int| 1 <= j < s.len() implies s[j] == s.drop_first()[j - 1] by {}
    }
}

/// If every element before `i` has another key and element `i` has key
/// `k`, the first match is `i`; if no element has it, there is none.
pub proof fn lemma_first_match_is<T>(s: Seq<T>, key: spec_fn(T) -> Seq<char>, k: Seq<char>, i: int)
    requires
        0 <= i <= s.len(),
        forall|j: int| 0 <= j < i ==> key(#[trigger] s[j]) != k,
        i < s.len() ==> key(s[i]) == k,
    ensures
        first_match(s, key, k) == (if i < s.len() { Some(i) } else { None::<int> }),
{
    lemma_first_match(s, key, k);
    match first_match(s, key, k) {
        Some(m) => {
            if m < i {
                assert(key(s[m]) != k);
            }
            if m > i && i < s.len() {
                assert(key(s[i]) != k);
            }
        },
        None => {
            if i < s.len() {
                assert(key(s[i]) != k);
            }
        },
    }
}

/// A keyed list read as a map: each key stands for the value of its first
/// element with that key.
pub open spec fn keyed_map<T, V>(s: Seq<T>, key: spec_fn(T) -> Seq<char>, val: spec_fn(T) -> V) -> Map<Seq<char>, V> {
    Map::new(
        |k: Seq<char>| first_match(s, key, k) is Some,
        |k: Seq<char>| val(s[first_match(s, key, k)->0]),
    )
}

/// Replacing the first element with a key by another with that key sets
/// the key's value and keeps all others.
pub proof fn lemma_keyed_map_update<T, V>(s: Seq<T>, key: spec_fn(T) -> Seq<char>, val: spec_fn(T) -> V, i: int, x: T)
    requires
        first_match(s, key, key(x)) == Some(i),
    ensures
        keyed_map(s.update(i, x), key, val) == keyed_map(s, key, val).insert(key(x), val(x)),
{
    let t = s.update(i, x);
    lemma_first_match(s, key, key(x));
    assert forall|k: Seq<char>| #[trigger] first_match(t, key, k) == first_match(s, key, k) by {
        lemma_first_match(s, key, k);
        match first_match(s, key, k) {
            Some(m) => {
                assert forall|j: int| 0 <= j < m implies key(#[trigger] t[j]) != k by {
                    if j == i {
                        assert(key(s[i]) == key(x));
                    }
                }
                if m != i {
                    assert(t[m] == s[m]);
                }
                lemma_first_match_is(t, key, k, m);
            },
            None => {
                assert forall|j: int| 0 <= j < t.len() implies key(#[trigger] t[j]) != k by {
                    if j == i {
                        assert(key(s[i]) == key(x));
                    }
                }
                lemma_first_match_is(t, key, k, t.len() as int);
            },
        }
    }
    let target = keyed_map(s, key, val).insert(key(x), val(x));
    assert forall|k: Seq<char>| #[trigger] keyed_map(t, key, val).contains_key(k) implies target.contains_key(k)
        && keyed_map(t, key, val)[k] == target[k] by {
        assert(first_match(t, key, k) == first_match(s, key, k));
        if k != key(x) {
            lemma_first_match(s, key, k);
        }
    }
    assert forall|k: Seq<char>| #[trigger] target.contains_key(k) implies keyed_map(t, key, val).contains_key(k) by {
        assert(first_match(t, key, k) == first_match(s, key, k));
    }
    assert(keyed_map(t, key, val) =~= target);
}

/// Appending an element whose key is new sets that key's value and keeps
/// all others.
pub proof fn lemma_keyed_map_push<T, V>(s: Seq<T>, key: spec_fn(T) -> Seq<char>, val: spec_fn(T) -> V, x: T)
    requires
        first_match(s, key, key(x)) is None,
    ensures
        keyed_map(s.push(x), key, val) == keyed_map(s, key, val).insert(key(x), val(x)),
{
    let t = s.push(x);
    assert forall|k: Seq<char>| #[trigger] first_match(t, key, k) == (if k == key(x) {
        Some(s.len() as int)
    } else {
        first_match(s, key, k)
    }) by {
        lemma_first_match(s, key, k);
        if k == key(x) {
            assert forall|j: int| 0 <= j < s.len() implies key(#[trigger] t[j]) != k by {
                assert(t[j] == s[j]);
            }
            lemma_first_match_is(t, key, k, s.len() as int);
        } else {
            match first_match(s, key, k) {
                Some(m) => {
                    assert forall|j: int| 0 <= j < m implies key(#[trigger] t[j]) != k by {
                        assert(t[j] == s[j]);
                    }
                    assert(t[m] == s[m]);
                    lemma_first_match_is(t, key, k, m);
                },
                None => {
                    assert forall|j: int| 0 <= j < t.len() implies key(#[trigger] t[j]) != k by {
                        if j < s.len() {
                            assert(t[j] == s[j]);
                        }
                    }
                    lemma_first_match_is(t, key, k, t.len() as int);
                },
            }
        }
    }
    let target = keyed_map(s, key, val).insert(key(x), val(x));
    assert forall|k: Seq<char>| #[trigger] keyed_map(t, key, val).contains_key(k) implies target.contains_key(k)
        && keyed_map(t, key, val)[k] == target[k] by {
        if k != key(x) {
            lemma_first_match(s, key, k);
            let m = first_match(s, key, k)->0;
            assert(t[m] == s[m]);
        }
    }
    assert forall|k: Seq<char>| #[trigger] target.contains_key(k) implies keyed_map(t, key, val).contains_key(k) by {
        assert(first_match(t, key, k) == (if k == key(x) {
            Some(s.len() as int)
        } else {
            first_match(s, key, k)
        }));
    }
    assert(keyed_map(t, key, val) =~= target);
}

/// `String::from_utf8` from std, keeping only the success value: the
/// string the bytes encode when they are valid UTF-8, and nothing otherwise.
#[verifier::external_body]
pub(crate) fn string_from_utf8(bytes: Vec<u8>) -> (r: Option<String>)
    ensures
        r is Some <==> vstd::utf8::valid_utf8(bytes@),
        r matches Some(s) ==> s@ == vstd::utf8::decode_utf8(bytes@),
{
    String::from_utf8(bytes).ok()
}

/// The characters `String::from_utf8_lossy` makes of some bytes.
pub uninterp spec fn utf8_lossy(bytes: Seq<u8>) -> Seq<char>;

/// `String::from_utf8_lossy` from std, made an owned string: a function of
/// the bytes alone, which is the string they encode when they are valid
/// UTF-8. Where they are not, std replaces each invalid sequence with
/// U+FFFD; that case is left unsaid here.
#[verifier::external_body]
pub(crate) fn string_from_utf8_lossy(bytes: &[u8]) -> (r: String)
    ensures
        r@ == utf8_lossy(bytes@),
        vstd::utf8::valid_utf8(bytes@) ==> r@ == vstd::utf8::decode_utf8(bytes@),
{
    String::from_utf8_lossy(bytes).to_string()
}

/// A hexadecimal digit as `{:X}` prints it.
pub open spec fn hex_digit_char(d: int) -> char {
    if d < 10 {
        (d + 48) as char
    } else {
        (d + 55) as char
    }
}

/// A value as `{:08X}` prints it: eight upper-case hexadecimal digits.
pub open spec fn hex8_chars(v: u32) -> Seq<char> {
    Seq::new(8, |i: int| hex_digit_char((v as int / pow16(7 - i)) % 16))
}

/// 16 to the power `k`.
pub open spec fn pow16(k: int) -> int
    decreases k,
{
    if k <= 0 {
        1
    } else {
        16 * pow16(k - 1)
    }
}

/// Powers of 16 are positive.
pub proof fn lemma_pow16_pos(k: int)
    ensures
        pow16(k) >= 1,
    decreases k,
{
    if k > 0 {
        lemma_pow16_pos(k - 1);
    }
}

/// The one-character string of a hexadecimal digit.
pub fn digit_str(d: u32) -> (r: &'static str)
    requires
        d < 16,
    ensures
        r@ == seq![hex_digit_char(d as int)],
{
    proof {
        reveal_strlit("0");
        reveal_strlit("1");
        reveal_strlit("2");
        reveal_strlit("3");
        reveal_strlit("4");
        reveal_strlit("5");
        reveal_strlit("6");
        reveal_strlit("7");
        reveal_strlit("8");
        reveal_strlit("9");
        reveal_strlit("A");
        reveal_strlit("B");
        reveal_strlit("C");
        reveal_strlit("D");
        reveal_strlit("E");
        reveal_strlit("F");
    }
    if d == 0 {
        "0"
    } else if d == 1 {
        "1"
    } else if d == 2 {
        "2"
    } else if d == 3 {
        "3"
    } else if d == 4 {
        "4"
    } else if d == 5 {
        "5"
    } else if d == 6 {
        "6"
    } else if d == 7 {
        "7"
    } else if d == 8 {
        "8"
    } else if d == 9 {
        "9"
    } else if d == 10 {
        "A"
    } else if d == 11 {
        "B"
    } else if d == 12 {
        "C"
    } else if d == 13 {
        "D"
    } else if d == 14 {
        "E"
    } else {
        "F"
    }
}

/// `format!("{:08X}", v)`.
pub fn hex8(v: u32) -> (r: String)
    ensures
        r@ == hex8_chars(v),
{
    let mut out = String::new();
    let mut k: u32 = 0;
    let mut div: u32 = 0x1000_0000;
    assert(pow16(7) == 0x1000_0000) by {
        reveal_with_fuel(pow16, 8);
    }
    proof {
        assert(out@ =~= hex8_chars(v).subrange(0, 0));
    }
    while k < 8
        invariant
            k <= 8,
            div >= 1,
            div as int == pow16(7 - k),
            out@ == hex8_chars(v).subrange(0, k as int),
        decreases 8 - k,
    {
        let d = (v / div) % 16;
        out.append(digit_str(d));
        proof {
            assert(out@ =~= hex8_chars(v).subrange(0, k + 1));
        }
        if k < 7 {
            div = div / 16;
            proof {
                assert(pow16(7 - k) == 16 * pow16(7 - k - 1));
                lemma_pow16_pos(7 - k - 1);
            }
        }
        k = k + 1;
    }
    out
}

/// A number as `{}` prints it: its decimal digits.
pub open spec fn dec_chars(n: nat) -> Seq<char>
    decreases n,
{
    if n < 10 {
        seq![hex_digit_char(n as int)]
    } else {
        dec_chars(n / 10) + seq![hex_digit_char((n % 10) as int)]
    }
}

/// `format!("{}", n)`.
pub fn decimal(n: u64) -> (r: String)
    ensures
        r@ == dec_chars(n as nat),
    decreases n,
{
    if n < 10 {
        String::from_str(digit_str(n as u32))
    } else {
        let mut s = decimal(n / 10);
        s.append(digit_str((n % 10) as u32));
        s
    }
}

/// Whether `needle` occurs in `hay` at position `i`.
pub open spec fn occurs_at(hay: Seq<char>, needle: Seq<char>, i: int) -> bool {
    0 <= i && i + needle.len() <= hay.len() && hay.subrange(i, i + needle.len()) == needle
}

/// Whether `needle` occurs anywhere in `hay`.
pub open spec fn contains_chars(hay: Seq<char>, needle: Seq<char>) -> bool {
    exists|i: int| #[trigger] occurs_at(hay, needle, i)
}

/// Whether `needle` occurs in `hay` at position `i` (an executable check).
fn matches_at(hay: &str, needle: &str, i: usize, hay_len: usize, needle_len: usize) -> (r: bool)
    requires
        hay_len == hay@.len(),
        needle_len == needle@.len(),
        i + needle_len <= hay_len,
    ensures
        r == occurs_at(hay@, needle@, i as int),
{
    let mut k: usize = 0;
    while k < needle_len
        invariant
            hay_len == hay@.len(),
            needle_len == needle@.len(),
            i + needle_len <= hay_len,
            k <= needle_len,
            forall|j: int| 0 <= j < k ==> hay@[i + j] == needle@[j],
        decreases needle_len - k,
    {
        if hay.get_char(i + k) != needle.get_char(k) {
            assert(hay@.subrange(i as int, i + needle_len)[k as int] != needle@[k as int]);
            return false;
        }
        k = k + 1;
    }
    assert(hay@.subrange(i as int, i + needle_len) =~= needle@);
    true
}

/// The first position at which `needle` occurs in `hay`, counted in
/// characters (where `str::find` counts bytes; the two agree on ASCII text).
pub fn find_str(hay: &str, needle: &str) -> (r: Option<usize>)
    ensures
        match r {
            Some(i) => occurs_at(hay@, needle@, i as int) && forall|j: int| 0 <= j < i ==> !occurs_at(hay@, needle@, j),
            None => !contains_chars(hay@, needle@),
        },
{
    let hay_len = hay.unicode_len();
    let needle_len = needle.unicode_len();
    if needle_len > hay_len {
        return None;
    }
    if needle_len == 0 {
        assert(hay@.subrange(0, 0) =~= needle@);
        return Some(0);
    }
    let mut i: usize = 0;
    let last = hay_len - needle_len;
    while i <= last
        invariant
            hay_len == hay@.len(),
            needle_len == needle@.len(),
            0 < needle_len <= hay_len,
            last == hay_len - needle_len,
            i <= last + 1,
            forall|j: int| 0 <= j < i ==> !occurs_at(hay@, needle@, j),
        decreases last + 1 - i,
    {
        if matches_at(hay, needle, i, hay_len, needle_len) {
            return Some(i);
        }
        i = i + 1;
    }
    None
}

/// Whether `needle` occurs in `hay`, as `str::contains` says.
pub fn contains_str(hay: &str, needle: &str) -> (r: bool)
    ensures
        r == contains_chars(hay@, needle@),
{
    match find_str(hay, needle) {
        Some(_) => true,
        None => false,
    }
}

} // verus!
