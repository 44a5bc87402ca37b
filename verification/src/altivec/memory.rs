use vstd::prelude::*;
use crate::altivec::types::Vector128;
use crate::cpu::MemoryInterface;
use crate::error::Error;

verus! {

/// The effective address `ra + rb` (modulo 2^32).
pub open spec fn effective_address(ra: u32, rb: u32) -> u32 {
    ((ra as int + rb as int) % 0x1_0000_0000) as u32
}

/// Compute the effective address `ra + rb`, aligned down to 16 bytes
/// (the low four bits are cleared).
pub fn compute_aligned_ea(ra: u32, rb: u32) -> (r: u32)
    ensures
        r == effective_address(ra, rb) & 0xFFFF_FFF0u32,
{
    let ea = ((ra as u64 + rb as u64) % 0x1_0000_0000) as u32;
    ea & 0xFFFF_FFF0
}

/// Load Vector for Shift Left (lvsl): the permute control vector that
/// `vperm` uses to shift a pair of vectors left by `(ra + rb) & 15` bytes.
pub fn lvsl(ra: u32, rb: u32) -> (r: Vector128)
    ensures
        forall|i: int| 0 <= i < 16 ==> #[trigger] r.byte(i) == ((((effective_address(ra, rb) & 0x0Fu32) as int + i) % 256) as u8) & 0x1Fu8,
{
    let ea = ((ra as u64 + rb as u64) % 0x1_0000_0000) as u32;
    assert(ea & 0x0Fu32 < 16u32) by (bit_vector);
    let shift = (ea & 0x0F) as u8;
    let mut bytes = [0u8; 16];
    let mut i: usize = 0;
    while i < 16
        invariant
            0 <= i <= 16,
            shift as int == (effective_address(ra, rb) & 0x0Fu32) as int,
            shift < 16,
            forall|j: int| 0 <= j < i ==> #[trigger] bytes@[j] == ((((effective_address(ra, rb) & 0x0Fu32) as int + j) % 256) as u8) & 0x1Fu8,
        decreases 16 - i,
    {
        bytes[i] = (shift + i as u8) & 0x1F;
        i = i + 1;
    }
    Vector128::from_bytes(bytes)
}

/// Load Vector for Shift Right (lvsr): the permute control vector that
/// `vperm` uses to shift a pair of vectors right by `(ra + rb) & 15` bytes.
pub fn lvsr(ra: u32, rb: u32) -> (r: Vector128)
    ensures
        forall|i: int| 0 <= i < 16 ==> #[trigger] r.byte(i) == (((16 - (effective_address(ra, rb) & 0x0Fu32) as int + i) % 256) as u8) & 0x1Fu8,
{
    let ea = ((ra as u64 + rb as u64) % 0x1_0000_0000) as u32;
    assert(ea & 0x0Fu32 < 16u32) by (bit_vector);
    let shift = (ea & 0x0F) as u8;
    let mut bytes = [0u8; 16];
    let mut i: usize = 0;
    while i < 16
        invariant
            0 <= i <= 16,
            shift as int == (effective_address(ra, rb) & 0x0Fu32) as int,
            shift < 16,
            forall|j: int| 0 <= j < i ==> #[trigger] bytes@[j] == (((16 - (effective_address(ra, rb) & 0x0Fu32) as int + j) % 256) as u8) & 0x1Fu8,
        decreases 16 - i,
    {
        bytes[i] = (16 - shift + i as u8) & 0x1F;
        i = i + 1;
    }
    Vector128::from_bytes(bytes)
}


/// The effective address `ra + rb`, wrapping.
fn ea_of(ra: u32, rb: u32) -> (r: u32)
    ensures
        r == effective_address(ra, rb),
{
    ((ra as u64 + rb as u64) % 0x1_0000_0000) as u32
}

/// The vector an element load gives: zero but for byte `idx`.
pub fn byte_element(idx: u32, b: u8) -> (r: Vector128)
    requires
        idx < 16,
    ensures
        r.byte(idx as int) == b,
        forall|k: int| 0 <= k < 16 && k != idx ==> #[trigger] r.byte(k) == 0,
{
    let mut bytes = [0u8; 16];
    bytes[idx as usize] = b;
    Vector128::from_bytes(bytes)
}

/// The vector an element load gives: zero but for halfword `idx`.
pub fn half_element(idx: u32, h: u16) -> (r: Vector128)
    requires
        idx < 8,
    ensures
        r.half(idx as int) == h,
        forall|k: int| 0 <= k < 8 && k != idx ==> #[trigger] r.half(k) == 0,
{
    let mut halves = [0u16; 8];
    halves[idx as usize] = h;
    Vector128::from_halfwords(halves)
}

/// The vector an element load gives: zero but for word `idx`.
pub fn word_element(idx: u32, w: u32) -> (r: Vector128)
    requires
        idx < 4,
    ensures
        r.word(idx as int) == w,
        forall|k: int| 0 <= k < 4 && k != idx ==> #[trigger] r.word(k) == 0,
{
    let mut words = [0u32; 4];
    words[idx as usize] = w;
    Vector128::from_words(words)
}

/// The aligned effective address of a whole-vector access.
pub open spec fn aligned_ea(ra: u32, rb: u32) -> u32 {
    effective_address(ra, rb) & 0xFFFF_FFF0u32
}

/// The address of word `k` of the 16 bytes at `ea`.
pub open spec fn word_addr(ea: u32, k: u32) -> u32 {
    ea.wrapping_add((4 * k) as u32)
}

/// Reading the word at `a` can succeed.
pub open spec fn can_read<M: MemoryInterface>(memory: &M, a: u32) -> bool {
    exists|w: u32| #[trigger] memory.reads_u32(a, Ok::<u32, Error>(w))
}

/// What reading the four words at `ea` in order, stopping at the first
/// failure, can give: the vector of the four words, or the error of the
/// first read that failed after the ones before it succeeded.
pub open spec fn vector_read<M: MemoryInterface>(memory: &M, ea: u32, r: Result<Vector128, Error>) -> bool {
    match r {
        Ok(v) => {
            &&& memory.reads_u32(word_addr(ea, 0), Ok::<u32, Error>(v.word(0)))
            &&& memory.reads_u32(word_addr(ea, 1), Ok::<u32, Error>(v.word(1)))
            &&& memory.reads_u32(word_addr(ea, 2), Ok::<u32, Error>(v.word(2)))
            &&& memory.reads_u32(word_addr(ea, 3), Ok::<u32, Error>(v.word(3)))
        },
        Err(e) => {
            ||| memory.reads_u32(word_addr(ea, 0), Err::<u32, Error>(e))
            ||| can_read(memory, word_addr(ea, 0)) && memory.reads_u32(word_addr(ea, 1), Err::<u32, Error>(e))
            ||| can_read(memory, word_addr(ea, 0)) && can_read(memory, word_addr(ea, 1))
                && memory.reads_u32(word_addr(ea, 2), Err::<u32, Error>(e))
            ||| can_read(memory, word_addr(ea, 0)) && can_read(memory, word_addr(ea, 1)) && can_read(memory, word_addr(ea, 2))
                && memory.reads_u32(word_addr(ea, 3), Err::<u32, Error>(e))
        },
    }
}

/// Writing `w` to the word at `a` can succeed.
pub open spec fn can_write<M: MemoryInterface>(memory: &M, a: u32, w: u32) -> bool {
    exists|ok: Result<(), Error>| ok is Ok && #[trigger] memory.writes_u32(a, w, ok)
}

/// What writing the four words of `vs` to the 16 bytes at `ea` in order,
/// stopping at the first failure, can give: success when every write can
/// succeed, or the error of the first write that failed after the ones
/// before it succeeded.
pub open spec fn vector_written<M: MemoryInterface>(memory: &M, ea: u32, vs: Vector128, r: Result<(), Error>) -> bool {
    match r {
        Ok(_) => {
            &&& can_write(memory, word_addr(ea, 0), vs.word(0))
            &&& can_write(memory, word_addr(ea, 1), vs.word(1))
            &&& can_write(memory, word_addr(ea, 2), vs.word(2))
            &&& can_write(memory, word_addr(ea, 3), vs.word(3))
        },
        Err(e) => {
            ||| memory.writes_u32(word_addr(ea, 0), vs.word(0), Err::<(), Error>(e))
            ||| can_write(memory, word_addr(ea, 0), vs.word(0)) && memory.writes_u32(word_addr(ea, 1), vs.word(1), Err::<(), Error>(e))
            ||| can_write(memory, word_addr(ea, 0), vs.word(0)) && can_write(memory, word_addr(ea, 1), vs.word(1))
                && memory.writes_u32(word_addr(ea, 2), vs.word(2), Err::<(), Error>(e))
            ||| can_write(memory, word_addr(ea, 0), vs.word(0)) && can_write(memory, word_addr(ea, 1), vs.word(1))
                && can_write(memory, word_addr(ea, 2), vs.word(2)) && memory.writes_u32(word_addr(ea, 3), vs.word(3), Err::<(), Error>(e))
        },
    }
}

/// What an element byte load at `ea` can give: the byte read, at its place
/// in an otherwise zero vector, or the error of the read.
pub open spec fn byte_element_read<M: MemoryInterface>(memory: &M, ea: u32, r: Result<Vector128, Error>) -> bool {
    match r {
        Ok(v) => {
            &&& memory.reads_u8(ea, Ok::<u8, Error>(v.byte((ea % 16) as int)))
            &&& forall|k: int| 0 <= k < 16 && k != ea % 16 ==> #[trigger] v.byte(k) == 0
        },
        Err(e) => memory.reads_u8(ea, Err::<u8, Error>(e)),
    }
}

/// What an element halfword load at `ea` can give: the halfword read at
/// `ea` aligned down to two bytes, at its place in an otherwise zero
/// vector, or the error of the read.
pub open spec fn half_element_read<M: MemoryInterface>(memory: &M, ea: u32, r: Result<Vector128, Error>) -> bool {
    match r {
        Ok(v) => {
            &&& memory.reads_u16((ea - ea % 2) as u32, Ok::<u16, Error>(v.half(((ea / 2) % 8) as int)))
            &&& forall|k: int| 0 <= k < 8 && k != (ea / 2) % 8 ==> #[trigger] v.half(k) == 0
        },
        Err(e) => memory.reads_u16((ea - ea % 2) as u32, Err::<u16, Error>(e)),
    }
}

/// What an element word load at `ea` can give: the word read at `ea`
/// aligned down to four bytes, at its place in an otherwise zero vector,
/// or the error of the read.
pub open spec fn word_element_read<M: MemoryInterface>(memory: &M, ea: u32, r: Result<Vector128, Error>) -> bool {
    match r {
        Ok(v) => {
            &&& memory.reads_u32((ea - ea % 4) as u32, Ok::<u32, Error>(v.word(((ea / 4) % 4) as int)))
            &&& forall|k: int| 0 <= k < 4 && k != (ea / 4) % 4 ==> #[trigger] v.word(k) == 0
        },
        Err(e) => memory.reads_u32((ea - ea % 4) as u32, Err::<u32, Error>(e)),
    }
}

/// Vector Load Indexed (lvx): the 16 bytes at the aligned effective
/// address, read as four words.
pub fn lvx<M: MemoryInterface>(memory: &M, ra: u32, rb: u32) -> (r: Result<Vector128, Error>)
    ensures
        vector_read(memory, aligned_ea(ra, rb), r),
{
    let ea = compute_aligned_ea(ra, rb);
    let r0 = memory.read_u32(ea);
    let word0 = match r0 {
        Ok(w) => w,
        Err(e) => return Err(e),
    };
    let r1 = memory.read_u32(ea.wrapping_add(4));
    let word1 = match r1 {
        Ok(w) => w,
        Err(e) => return Err(e),
    };
    let r2 = memory.read_u32(ea.wrapping_add(8));
    let word2 = match r2 {
        Ok(w) => w,
        Err(e) => return Err(e),
    };
    let r3 = memory.read_u32(ea.wrapping_add(12));
    let word3 = match r3 {
        Ok(w) => w,
        Err(e) => return Err(e),
    };
    Ok(Vector128::from_words([word0, word1, word2, word3]))
}

/// Vector Store Indexed (stvx): the four words of `vs` to the 16 bytes at
/// the aligned effective address.
pub fn stvx<M: MemoryInterface>(memory: &M, vs: Vector128, ra: u32, rb: u32) -> (r: Result<(), Error>)
    ensures
        vector_written(memory, aligned_ea(ra, rb), vs, r),
{
    let ea = compute_aligned_ea(ra, rb);
    let words = vs.as_words();
    let w0 = memory.write_u32(ea, words[0]);
    match w0 {
        Ok(()) => {},
        Err(e) => return Err(e),
    }
    let w1 = memory.write_u32(ea.wrapping_add(4), words[1]);
    match w1 {
        Ok(()) => {},
        Err(e) => return Err(e),
    }
    let w2 = memory.write_u32(ea.wrapping_add(8), words[2]);
    match w2 {
        Ok(()) => {},
        Err(e) => return Err(e),
    }
    let w3 = memory.write_u32(ea.wrapping_add(12), words[3]);
    match w3 {
        Ok(()) => {},
        Err(e) => return Err(e),
    }
    Ok(())
}

/// Vector Load Indexed Last (lvxl): as `lvx`; the cache hint has no effect
/// here.
pub fn lvxl<M: MemoryInterface>(memory: &M, ra: u32, rb: u32) -> (r: Result<Vector128, Error>)
    ensures
        vector_read(memory, aligned_ea(ra, rb), r),
{
    lvx(memory, ra, rb)
}

/// Vector Store Indexed Last (stvxl): as `stvx`; the cache hint has no
/// effect here.
pub fn stvxl<M: MemoryInterface>(memory: &M, vs: Vector128, ra: u32, rb: u32) -> (r: Result<(), Error>)
    ensures
        vector_written(memory, aligned_ea(ra, rb), vs, r),
{
    stvx(memory, vs, ra, rb)
}

/// Vector Load Element Byte Indexed (lvebx): the byte at the effective
/// address, at its place (the address's low four bits) in an otherwise
/// zero vector.
pub fn lvebx<M: MemoryInterface>(memory: &M, ra: u32, rb: u32) -> (r: Result<Vector128, Error>)
    ensures
        byte_element_read(memory, effective_address(ra, rb), r),
{
    let ea = ea_of(ra, rb);
    let b = match memory.read_u8(ea) {
        Ok(b) => b,
        Err(e) => return Err(e),
    };
    Ok(byte_element(ea % 16, b))
}

/// Vector Store Element Byte Indexed (stvebx): byte `ea & 15` of `vs` to
/// the effective address.
pub fn stvebx<M: MemoryInterface>(memory: &M, vs: Vector128, ra: u32, rb: u32) -> (r: Result<(), Error>)
    ensures
        memory.writes_u8(effective_address(ra, rb), vs.byte((effective_address(ra, rb) % 16) as int), r),
{
    let ea = ea_of(ra, rb);
    let bytes = vs.as_bytes();
    memory.write_u8(ea, bytes[(ea % 16) as usize])
}

/// Vector Load Element Halfword Indexed (lvehx): the halfword at the
/// effective address aligned down to two bytes, at its place (address / 2,
/// modulo 8) in an otherwise zero vector.
pub fn lvehx<M: MemoryInterface>(memory: &M, ra: u32, rb: u32) -> (r: Result<Vector128, Error>)
    ensures
        half_element_read(memory, effective_address(ra, rb), r),
{
    let raw = ea_of(ra, rb);
    let ea = raw - raw % 2;
    let h = match memory.read_u16(ea) {
        Ok(h) => h,
        Err(e) => return Err(e),
    };
    Ok(half_element((raw / 2) % 8, h))
}

/// Vector Store Element Halfword Indexed (stvehx): the halfword of `vs` at
/// the place of the aligned effective address, to that address.
pub fn stvehx<M: MemoryInterface>(memory: &M, vs: Vector128, ra: u32, rb: u32) -> (r: Result<(), Error>)
    ensures
        memory.writes_u16(
            (effective_address(ra, rb) - effective_address(ra, rb) % 2) as u32,
            vs.half(((effective_address(ra, rb) / 2) % 8) as int),
            r,
        ),
{
    let raw = ea_of(ra, rb);
    let ea = raw - raw % 2;
    let halves = vs.as_halfwords();
    memory.write_u16(ea, halves[((raw / 2) % 8) as usize])
}

/// Vector Load Element Word Indexed (lvewx): the word at the effective
/// address aligned down to four bytes, at its place (address / 4, modulo 4)
/// in an otherwise zero vector.
pub fn lvewx<M: MemoryInterface>(memory: &M, ra: u32, rb: u32) -> (r: Result<Vector128, Error>)
    ensures
        word_element_read(memory, effective_address(ra, rb), r),
{
    let raw = ea_of(ra, rb);
    let ea = raw - raw % 4;
    let w = match memory.read_u32(ea) {
        Ok(w) => w,
        Err(e) => return Err(e),
    };
    Ok(word_element((raw / 4) % 4, w))
}

/// Vector Store Element Word Indexed (stvewx): the word of `vs` at the
/// place of the aligned effective address, to that address.
pub fn stvewx<M: MemoryInterface>(memory: &M, vs: Vector128, ra: u32, rb: u32) -> (r: Result<(), Error>)
    ensures
        memory.writes_u32(
            (effective_address(ra, rb) - effective_address(ra, rb) % 4) as u32,
            vs.word(((effective_address(ra, rb) / 4) % 4) as int),
            r,
        ),
{
    let raw = ea_of(ra, rb);
    let ea = raw - raw % 4;
    let words = vs.as_words();
    memory.write_u32(ea, words[((raw / 4) % 4) as usize])
}

} // verus!
