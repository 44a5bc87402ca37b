//! The 128-bit AltiVec vector value and the saturation helpers that the
//! vector instructions share.
use vstd::prelude::*;

verus! {

/// Byte `k` (0 = most significant) of a big-endian 32-bit word.
pub open spec fn word_byte(w: u32, k: int) -> u8 {
    if k == 0 {
        (w >> 24u32) as u8
    } else if k == 1 {
        (w >> 16u32) as u8
    } else if k == 2 {
        (w >> 8u32) as u8
    } else {
        w as u8
    }
}

/// Halfword `k` (0 = most significant) of a big-endian 32-bit word.
pub open spec fn word_half(w: u32, k: int) -> u16 {
    if k == 0 {
        (w >> 16u32) as u16
    } else {
        w as u16
    }
}

/// Four bytes put together into a big-endian word.
pub open spec fn pack_bytes(b0: u8, b1: u8, b2: u8, b3: u8) -> u32 {
    ((b0 as u32) << 24u32) | ((b1 as u32) << 16u32) | ((b2 as u32) << 8u32) | (b3 as u32)
}

/// Two halfwords put together into a big-endian word.
pub open spec fn pack_halves(h0: u16, h1: u16) -> u32 {
    ((h0 as u32) << 16u32) | (h1 as u32)
}

pub proof fn lemma_pack_bytes(b0: u8, b1: u8, b2: u8, b3: u8)
    ensures
        word_byte(pack_bytes(b0, b1, b2, b3), 0) == b0,
        word_byte(pack_bytes(b0, b1, b2, b3), 1) == b1,
        word_byte(pack_bytes(b0, b1, b2, b3), 2) == b2,
        word_byte(pack_bytes(b0, b1, b2, b3), 3) == b3,
{
    let w = pack_bytes(b0, b1, b2, b3);
    assert(((((b0 as u32) << 24u32) | ((b1 as u32) << 16u32) | ((b2 as u32) << 8u32) | (b3 as u32)) >> 24u32) as u8 == b0) by (bit_vector);
    assert(((((b0 as u32) << 24u32) | ((b1 as u32) << 16u32) | ((b2 as u32) << 8u32) | (b3 as u32)) >> 16u32) as u8 == b1) by (bit_vector);
    assert(((((b0 as u32) << 24u32) | ((b1 as u32) << 16u32) | ((b2 as u32) << 8u32) | (b3 as u32)) >> 8u32) as u8 == b2) by (bit_vector);
    assert((((b0 as u32) << 24u32) | ((b1 as u32) << 16u32) | ((b2 as u32) << 8u32) | (b3 as u32)) as u8 == b3) by (bit_vector);
}

pub proof fn lemma_pack_halves(h0: u16, h1: u16)
    ensures
        word_half(pack_halves(h0, h1), 0) == h0,
        word_half(pack_halves(h0, h1), 1) == h1,
{
    assert(((((h0 as u32) << 16u32) | (h1 as u32)) >> 16u32) as u16 == h0) by (bit_vector);
    assert((((h0 as u32) << 16u32) | (h1 as u32)) as u16 == h1) by (bit_vector);
}

/// A word is the packing of its own bytes, and of its own halfwords.
pub proof fn lemma_word_parts(w: u32)
    ensures
        pack_bytes(word_byte(w, 0), word_byte(w, 1), word_byte(w, 2), word_byte(w, 3)) == w,
        pack_halves(word_half(w, 0), word_half(w, 1)) == w,
{
    assert(((((w >> 24u32) as u8) as u32) << 24u32) | ((((w >> 16u32) as u8) as u32) << 16u32)
        | ((((w >> 8u32) as u8) as u32) << 8u32) | ((w as u8) as u32) == w) by (bit_vector);
    assert(((((w >> 16u32) as u16) as u32) << 16u32) | ((w as u16) as u32) == w) by (bit_vector);
}

/// A 128-bit vector that can be read as 16 bytes, 8 halfwords or 4 words.
///
/// Element 0 is the most significant one, as on the PowerPC.
#[derive(Debug, Clone, Copy, PartialEq, Eq)]
pub struct Vector128 {
    /// Raw data stored as 4 x 32-bit words
    pub words: [u32; 4],
}

impl Vector128 {
    /// Byte `i` (0..16) of the vector.
    pub open spec fn byte(self, i: int) -> u8 {
        word_byte(self.words@[i / 4], i % 4)
    }

    /// Halfword `i` (0..8) of the vector.
    pub open spec fn half(self, i: int) -> u16 {
        word_half(self.words@[i / 2], i % 2)
    }

    /// Word `i` (0..4) of the vector.
    pub open spec fn word(self, i: int) -> u32 {
        self.words@[i]
    }

    /// Byte `i` read as a signed value.
    pub open spec fn sbyte(self, i: int) -> i8 {
        self.byte(i) as i8
    }

    /// Halfword `i` read as a signed value.
    pub open spec fn shalf(self, i: int) -> i16 {
        self.half(i) as i16
    }

    /// Word `i` read as a signed value.
    pub open spec fn sword(self, i: int) -> i32 {
        self.word(i) as i32
    }

    /// The 16 bytes of the vector in order.
    pub open spec fn bytes_view(self) -> Seq<u8> {
        Seq::new(16, |i: int| self.byte(i))
    }

    /// The 8 halfwords of the vector in order.
    pub open spec fn halves_view(self) -> Seq<u16> {
        Seq::new(8, |i: int| self.half(i))
    }

    /// Create a new zero vector
    pub fn zero() -> (r: Self)
        ensures
            r.words@ == seq![0u32, 0u32, 0u32, 0u32],
    {
        Self { words: [0u32; 4] }
    }

    /// Create from raw 32-bit words
    pub fn from_words(words: [u32; 4]) -> (r: Self)
        ensures
            r.words == words,
    {
        Self { words }
    }

    /// Create from bytes (16 x 8-bit)
    pub fn from_bytes(bytes: [u8; 16]) -> (r: Self)
        ensures
            forall|i: int| 0 <= i < 16 ==> #[trigger] r.byte(i) == bytes@[i],
            r.bytes_view() == bytes@,
    {
        let mut words = [0u32; 4];
        let mut i: usize = 0;
        while i < 4
            invariant
                0 <= i <= 4,
                forall|j: int|
                    0 <= j < i ==> #[trigger] words@[j] == pack_bytes(
                        bytes@[4 * j],
                        bytes@[4 * j + 1],
                        bytes@[4 * j + 2],
                        bytes@[4 * j + 3],
                    ),
            decreases 4 - i,
        {
            let b0 = bytes[i * 4];
            let b1 = bytes[i * 4 + 1];
            let b2 = bytes[i * 4 + 2];
            let b3 = bytes[i * 4 + 3];
            let w: u32 = ((b0 as u32) << 24u32) | ((b1 as u32) << 16u32) | ((b2 as u32) << 8u32)
                | (b3 as u32);
            words[i] = w;
            i = i + 1;
        }
        let r = Self { words };
        assert forall|i: int| 0 <= i < 16 implies #[trigger] r.byte(i) == bytes@[i] by {
            let j = i / 4;
            lemma_pack_bytes(bytes@[4 * j], bytes@[4 * j + 1], bytes@[4 * j + 2], bytes@[4 * j + 3]);
        }
        assert(r.bytes_view() =~= bytes@);
        r
    }

    /// Create from halfwords (8 x 16-bit)
    pub fn from_halfwords(halfwords: [u16; 8]) -> (r: Self)
        ensures
            forall|i: int| 0 <= i < 8 ==> #[trigger] r.half(i) == halfwords@[i],
            r.halves_view() == halfwords@,
    {
        let mut words = [0u32; 4];
        let mut i: usize = 0;
        while i < 4
            invariant
                0 <= i <= 4,
                forall|j: int|
                    0 <= j < i ==> #[trigger] words@[j] == pack_halves(
                        halfwords@[2 * j],
                        halfwords@[2 * j + 1],
                    ),
            decreases 4 - i,
        {
            let h0 = halfwords[i * 2];
            let h1 = halfwords[i * 2 + 1];
            words[i] = ((h0 as u32) << 16u32) | (h1 as u32);
            i = i + 1;
        }
        let r = Self { words };
        assert forall|i: int| 0 <= i < 8 implies #[trigger] r.half(i) == halfwords@[i] by {
            let j = i / 2;
            lemma_pack_halves(halfwords@[2 * j], halfwords@[2 * j + 1]);
        }
        assert(r.halves_view() =~= halfwords@);
        r
    }

    /// Get as bytes (16 x 8-bit)
    pub fn as_bytes(&self) -> (r: [u8; 16])
        ensures
            forall|i: int| 0 <= i < 16 ==> #[trigger] r@[i] == self.byte(i),
            r@ == self.bytes_view(),
    {
        let mut bytes = [0u8; 16];
        let mut i: usize = 0;
        while i < 4
            invariant
                0 <= i <= 4,
                forall|j: int| 0 <= j < 4 * i ==> #[trigger] bytes@[j] == self.byte(j),
            decreases 4 - i,
        {
            let w = self.words[i];
            bytes[i * 4] = (w >> 24u32) as u8;
            bytes[i * 4 + 1] = (w >> 16u32) as u8;
            bytes[i * 4 + 2] = (w >> 8u32) as u8;
            bytes[i * 4 + 3] = w as u8;
            i = i + 1;
        }
        assert(bytes@ =~= self.bytes_view());
        bytes
    }

    /// Get as signed bytes (16 x i8)
    pub fn as_signed_bytes(&self) -> (r: [i8; 16])
        ensures
            forall|i: int| 0 <= i < 16 ==> #[trigger] r@[i] == self.sbyte(i),
    {
        let bytes = self.as_bytes();
        let mut out = [0i8; 16];
        let mut i: usize = 0;
        while i < 16
            invariant
                0 <= i <= 16,
                forall|j: int| 0 <= j < 16 ==> #[trigger] bytes@[j] == self.byte(j),
                forall|j: int| 0 <= j < i ==> #[trigger] out@[j] == self.sbyte(j),
            decreases 16 - i,
        {
            out[i] = bytes[i] as i8;
            i = i + 1;
        }
        out
    }

    /// Get as halfwords (8 x 16-bit)
    pub fn as_halfwords(&self) -> (r: [u16; 8])
        ensures
            forall|i: int| 0 <= i < 8 ==> #[trigger] r@[i] == self.half(i),
            r@ == self.halves_view(),
    {
        let mut halfwords = [0u16; 8];
        let mut i: usize = 0;
        while i < 4
            invariant
                0 <= i <= 4,
                forall|j: int| 0 <= j < 2 * i ==> #[trigger] halfwords@[j] == self.half(j),
            decreases 4 - i,
        {
            let w = self.words[i];
            halfwords[i * 2] = (w >> 16u32) as u16;
            halfwords[i * 2 + 1] = w as u16;
            i = i + 1;
        }
        assert(halfwords@ =~= self.halves_view());
        halfwords
    }

    /// Get as signed halfwords (8 x i16)
    pub fn as_signed_halfwords(&self) -> (r: [i16; 8])
        ensures
            forall|i: int| 0 <= i < 8 ==> #[trigger] r@[i] == self.shalf(i),
    {
        let halves = self.as_halfwords();
        let mut out = [0i16; 8];
        let mut i: usize = 0;
        while i < 8
            invariant
                0 <= i <= 8,
                forall|j: int| 0 <= j < 8 ==> #[trigger] halves@[j] == self.half(j),
                forall|j: int| 0 <= j < i ==> #[trigger] out@[j] == self.shalf(j),
            decreases 8 - i,
        {
            out[i] = halves[i] as i16;
            i = i + 1;
        }
        out
    }

    /// Get as words (4 x 32-bit)
    pub fn as_words(&self) -> (r: [u32; 4])
        ensures
            r == self.words,
    {
        self.words
    }

    /// Get as signed words (4 x i32)
    pub fn as_signed_words(&self) -> (r: [i32; 4])
        ensures
            forall|i: int| 0 <= i < 4 ==> #[trigger] r@[i] == self.sword(i),
    {
        [self.words[0] as i32, self.words[1] as i32, self.words[2] as i32, self.words[3] as i32]
    }
}

/// Two vectors with the same sixteen bytes are the same vector: reading a
/// vector as bytes and building it back from them loses nothing.
pub proof fn law_vector_bytes_determine(a: Vector128, b: Vector128)
    requires
        forall|i: int| 0 <= i < 16 ==> #[trigger] a.byte(i) == b.byte(i),
    ensures
        a == b,
{
    assert forall|k: int| 0 <= k < 4 implies a.words@[k] == b.words@[k] by {
        lemma_word_parts(a.words@[k]);
        lemma_word_parts(b.words@[k]);
        assert(a.byte(4 * k) == b.byte(4 * k));
        assert(a.byte(4 * k + 1) == b.byte(4 * k + 1));
        assert(a.byte(4 * k + 2) == b.byte(4 * k + 2));
        assert(a.byte(4 * k + 3) == b.byte(4 * k + 3));
    }
    assert(a.words =~= b.words);
}

/// The integer `v` clamped to the `i8` range.
pub open spec fn sat_i8(v: int) -> i8 {
    if v > 127 { 127i8 } else if v < -128 { -128i8 } else { v as i8 }
}

/// The integer `v` clamped to the `u8` range.
pub open spec fn sat_u8(v: int) -> u8 {
    if v > 255 { 255u8 } else if v < 0 { 0u8 } else { v as u8 }
}

/// The integer `v` clamped to the `i16` range.
pub open spec fn sat_i16(v: int) -> i16 {
    if v > 32767 { 32767i16 } else if v < -32768 { -32768i16 } else { v as i16 }
}

/// The integer `v` clamped to the `u16` range.
pub open spec fn sat_u16(v: int) -> u16 {
    if v > 65535 { 65535u16 } else if v < 0 { 0u16 } else { v as u16 }
}

/// The integer `v` clamped to the `i32` range.
pub open spec fn sat_i32(v: int) -> i32 {
    if v > 0x7FFF_FFFF { 0x7FFF_FFFFi32 } else if v < -0x8000_0000 { -0x8000_0000i32 } else { v as i32 }
}

/// The integer `v` clamped to the `u32` range.
pub open spec fn sat_u32(v: int) -> u32 {
    if v > 0xFFFF_FFFF { 0xFFFF_FFFFu32 } else if v < 0 { 0u32 } else { v as u32 }
}

/// Saturate a signed value to the `i8` range.
pub fn saturate_i8(val: i16) -> (r: i8)
    ensures
        r == sat_i8(val as int),
{
    if val > 127 {
        127
    } else if val < -128 {
        -128
    } else {
        val as i8
    }
}

/// Saturate a value to the `u8` range.
pub fn saturate_u8(val: i16) -> (r: u8)
    ensures
        r == sat_u8(val as int),
{
    if val > 255 {
        255
    } else if val < 0 {
        0
    } else {
        val as u8
    }
}

/// Saturate a signed value to the `i16` range.
pub fn saturate_i16(val: i32) -> (r: i16)
    ensures
        r == sat_i16(val as int),
{
    if val > 32767 {
        32767
    } else if val < -32768 {
        -32768
    } else {
        val as i16
    }
}

/// Saturate a value to the `u16` range.
pub fn saturate_u16(val: i32) -> (r: u16)
    ensures
        r == sat_u16(val as int),
{
    if val > 65535 {
        65535
    } else if val < 0 {
        0
    } else {
        val as u16
    }
}

/// Saturate a signed value to the `i32` range (from i64).
pub fn saturate_i32(val: i64) -> (r: i32)
    ensures
        r == sat_i32(val as int),
{
    if val > 0x7FFF_FFFF {
        0x7FFF_FFFF
    } else if val < -0x8000_0000 {
        -0x8000_0000
    } else {
        val as i32
    }
}

/// Saturate a value to the `u32` range (from i64).
pub fn saturate_u32(val: i64) -> (r: u32)
    ensures
        r == sat_u32(val as int),
{
    if val > 0xFFFF_FFFF {
        0xFFFF_FFFF
    } else if val < 0 {
        0
    } else {
        val as u32
    }
}

} // verus!
