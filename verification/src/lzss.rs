//! LZSS decompression for Mac ROM images, and the 'prcl' parcel container.
//!
//! The compressed stream is a sequence of groups: a flags byte, then up to
//! eight items, one per flag bit from the lowest. A set bit is a literal
//! byte; a clear bit is a two-byte back-reference into a 4096-byte ring
//! buffer of the most recent output, which starts zeroed with its write
//! position at 4078.
use vstd::prelude::*;
use crate::bytes::{be32, read_be32};
use crate::error::Error;

verus! {

/// LZSS ring buffer size
pub const RING_SIZE: usize = 4096;

/// Lookahead buffer size
pub const LOOKAHEAD_SIZE: usize = 18;

/// Threshold for match length
pub const THRESHOLD: usize = 2;

/// Where the first output byte is written in the ring buffer.
pub open spec fn ring_start() -> int {
    (RING_SIZE - LOOKAHEAD_SIZE) as int
}

/// The ring buffer slot `j` after `out` has been written: the last output
/// byte written to that slot, or zero.
pub open spec fn ring_at(out: Seq<u8>, j: int) -> u8
    decreases out.len(),
{
    if out.len() == 0 {
        0
    } else if (ring_start() + out.len() - 1) % (RING_SIZE as int) == j {
        out.last()
    } else {
        ring_at(out.drop_last(), j)
    }
}

/// `out` followed by the `n` bytes a back-reference to slot `offset` copies:
/// slots `offset`, `offset + 1`, ... (around the ring), each read after the
/// byte before it was written.
pub open spec fn copy_run(out: Seq<u8>, offset: int, n: nat) -> Seq<u8>
    decreases n,
{
    if n == 0 {
        out
    } else {
        copy_run(out.push(ring_at(out, offset)), (offset + 1) % (RING_SIZE as int), (n - 1) as nat)
    }
}

/// Whether flag bit `i` marks a literal.
pub open spec fn is_literal(flags: u8, i: u8) -> bool {
    flags & (1u8 << i) != 0
}

/// The ring slot a back-reference names.
pub open spec fn backref_offset(b1: u8, b2: u8) -> int {
    (b1 / 16) * 256 + b2
}

/// The number of bytes a back-reference copies.
pub open spec fn backref_length(b1: u8) -> nat {
    (b1 % 16 + THRESHOLD + 1) as nat
}

/// Decode the items of one group from flag bit `i` on, with the input at
/// `pos`: the input position and output after the group.
pub open spec fn decode_group(inp: Seq<u8>, flags: u8, pos: int, i: int, out: Seq<u8>) -> (int, Seq<u8>)
    decreases 8 - i,
{
    if i >= 8 || i < 0 || pos >= inp.len() || pos < 0 {
        (pos, out)
    } else if is_literal(flags, i as u8) {
        decode_group(inp, flags, pos + 1, i + 1, out.push(inp[pos]))
    } else if pos + 1 >= inp.len() {
        (pos, out)
    } else {
        decode_group(
            inp,
            flags,
            pos + 2,
            i + 1,
            copy_run(out, backref_offset(inp[pos], inp[pos + 1]), backref_length(inp[pos])),
        )
    }
}

/// A group never moves the input backwards.
pub proof fn lemma_decode_group_advances(inp: Seq<u8>, flags: u8, pos: int, i: int, out: Seq<u8>)
    ensures
        decode_group(inp, flags, pos, i, out).0 >= pos,
        0 <= pos <= inp.len() ==> decode_group(inp, flags, pos, i, out).0 <= inp.len(),
    decreases 8 - i,
{
    if i >= 8 || i < 0 || pos >= inp.len() || pos < 0 {
    } else if is_literal(flags, i as u8) {
        lemma_decode_group_advances(inp, flags, pos + 1, i + 1, out.push(inp[pos]));
    } else if pos + 1 >= inp.len() {
    } else {
        lemma_decode_group_advances(
            inp,
            flags,
            pos + 2,
            i + 1,
            copy_run(out, backref_offset(inp[pos], inp[pos + 1]), backref_length(inp[pos])),
        );
    }
}

/// Decode groups from input position `pos` onto `out`.
pub open spec fn decode_from(inp: Seq<u8>, pos: int, out: Seq<u8>) -> Seq<u8>
    decreases inp.len() - pos,
{
    if pos >= inp.len() || pos < 0 {
        out
    } else {
        let g = decode_group(inp, inp[pos], pos + 1, 0, out);
        proof {
            lemma_decode_group_advances(inp, inp[pos], pos + 1, 0, out);
        }
        decode_from(inp, g.0, g.1)
    }
}

/// The decompressed bytes of an LZSS stream.
pub open spec fn spec_decompress_lzss(inp: Seq<u8>) -> Seq<u8> {
    decode_from(inp, 0, Seq::empty())
}

/// Writing one byte changes only the slot it is written to.
proof fn lemma_ring_at_push(out: Seq<u8>, b: u8, j: int)
    ensures
        ring_at(out.push(b), j) == if j == (ring_start() + out.len()) % (RING_SIZE as int) {
            b
        } else {
            ring_at(out, j)
        },
{
    assert(out.push(b).drop_last() =~= out);
}

/// Append `byte` to the output and write it to the ring buffer.
fn emit(output: &mut Vec<u8>, ring: &mut Vec<u8>, ring_pos: &mut usize, byte: u8)
    requires
        old(ring)@.len() == RING_SIZE,
        *old(ring_pos) == (ring_start() + old(output)@.len()) % (RING_SIZE as int),
        forall|j: int| 0 <= j < RING_SIZE ==> #[trigger] old(ring)@[j] == ring_at(old(output)@, j),
    ensures
        final(output)@ == old(output)@.push(byte),
        final(ring)@.len() == RING_SIZE,
        *final(ring_pos) == (ring_start() + final(output)@.len()) % (RING_SIZE as int),
        forall|j: int| 0 <= j < RING_SIZE ==> #[trigger] final(ring)@[j] == ring_at(final(output)@, j),
{
    let ghost before = output@;
    output.push(byte);
    ring.set(*ring_pos, byte);
    *ring_pos = (*ring_pos + 1) % RING_SIZE;
    proof {
        assert forall|j: int| 0 <= j < RING_SIZE implies #[trigger] ring@[j] == ring_at(output@, j) by {
            lemma_ring_at_push(before, byte, j);
        }
    }
}

/// Decompress LZSS data.
///
/// This implements the classic LZSS algorithm used in Mac ROMs: a sliding
/// window dictionary with back-references. Every input decodes; a trailing
/// item that is cut short ends the output.
pub fn decompress_lzss(compressed: &[u8]) -> (r: Result<Vec<u8>, Error>)
    ensures
        r matches Ok(out) && out@ == spec_decompress_lzss(compressed@),
{
    let mut output: Vec<u8> = Vec::new();
    let mut ring: Vec<u8> = vec![0u8; RING_SIZE];
    let mut ring_pos: usize = RING_SIZE - LOOKAHEAD_SIZE;
    let mut input_pos: usize = 0;
    let ghost inp = compressed@;
    proof {
        assert forall|j: int| 0 <= j < RING_SIZE implies #[trigger] ring@[j] == ring_at(output@, j) by {
            assert(cloned(0u8, ring@[j]));
        }
    }
    while input_pos < compressed.len()
        invariant
            inp == compressed@,
            input_pos <= compressed.len(),
            ring@.len() == RING_SIZE,
            ring_pos == (ring_start() + output@.len()) % (RING_SIZE as int),
            forall|j: int| 0 <= j < RING_SIZE ==> #[trigger] ring@[j] == ring_at(output@, j),
            decode_from(inp, input_pos as int, output@) == spec_decompress_lzss(inp),
        decreases compressed.len() - input_pos,
    {
        let flags = compressed[input_pos];
        input_pos = input_pos + 1;
        let ghost group_pos = input_pos as int;
        let ghost group_out = output@;
        let mut i: u8 = 0;
        while i < 8
            invariant
                inp == compressed@,
                group_pos <= input_pos <= compressed.len(),
                i <= 8,
                ring@.len() == RING_SIZE,
                ring_pos == (ring_start() + output@.len()) % (RING_SIZE as int),
                forall|j: int| 0 <= j < RING_SIZE ==> #[trigger] ring@[j] == ring_at(output@, j),
                decode_group(inp, flags, input_pos as int, i as int, output@) == decode_group(inp, flags, group_pos, 0, group_out),
            ensures
                decode_group(inp, flags, group_pos, 0, group_out) == (input_pos as int, output@),
                group_pos <= input_pos <= compressed.len(),
                ring@.len() == RING_SIZE,
                ring_pos == (ring_start() + output@.len()) % (RING_SIZE as int),
                forall|j: int| 0 <= j < RING_SIZE ==> #[trigger] ring@[j] == ring_at(output@, j),
            decreases 8 - i,
        {
            if input_pos >= compressed.len() {
                break;
            }
            if (flags & (1u8 << i)) != 0 {
                let byte = compressed[input_pos];
                input_pos = input_pos + 1;
                emit(&mut output, &mut ring, &mut ring_pos, byte);
            } else {
                if input_pos + 1 >= compressed.len() {
                    break;
                }
                let byte1 = compressed[input_pos];
                let byte2 = compressed[input_pos + 1];
                input_pos = input_pos + 2;
                let offset: usize = ((byte1 as usize / 16) * 256) + byte2 as usize;
                let length: usize = (byte1 as usize % 16) + THRESHOLD + 1;
                let ghost run_out = output@;
                let mut k: usize = 0;
                while k < length
                    invariant
                        k <= length,
                        length <= 18,
                        offset < RING_SIZE,
                        offset == backref_offset(byte1, byte2),
                        ring@.len() == RING_SIZE,
                        ring_pos == (ring_start() + output@.len()) % (RING_SIZE as int),
                        forall|j: int| 0 <= j < RING_SIZE ==> #[trigger] ring@[j] == ring_at(output@, j),
                        copy_run(output@, (offset + k) % (RING_SIZE as int), (length - k) as nat) == copy_run(run_out, offset as int, length as nat),
                    decreases length - k,
                {
                    let slot = (offset + k) % RING_SIZE;
                    assert((slot + 1) % (RING_SIZE as int) == (offset + k + 1) % (RING_SIZE as int));
                    let byte = ring[slot];
                    emit(&mut output, &mut ring, &mut ring_pos, byte);
                    k = k + 1;
                }
            }
            i = i + 1;
        }
        proof {
            lemma_decode_group_advances(inp, flags, group_pos, 0, group_out);
        }
    }
    Ok(output)
}

/// The ring slot a back-reference names in the ROM stream's layout, where
/// the first byte holds the low eight bits.
pub open spec fn rom_backref_offset(b0: u8, b1: u8) -> int {
    b0 + (b1 / 16) * 256
}

/// The number of bytes a back-reference copies in the ROM stream's layout.
pub open spec fn rom_backref_length(b1: u8) -> nat {
    (b1 % 16 + 3) as nat
}

/// Decode one group of the ROM stream from flag bit `i` on: the input
/// position, the output, and whether the stream ended inside the group.
pub open spec fn rom_decode_group(inp: Seq<u8>, flags: u8, pos: int, i: int, out: Seq<u8>) -> (int, Seq<u8>, bool)
    decreases 8 - i,
{
    if i >= 8 || i < 0 || pos < 0 {
        (pos, out, false)
    } else if is_literal(flags, i as u8) {
        if pos >= inp.len() {
            (pos, out, true)
        } else {
            rom_decode_group(inp, flags, pos + 1, i + 1, out.push(inp[pos]))
        }
    } else if pos + 1 >= inp.len() {
        (pos, out, true)
    } else {
        rom_decode_group(
            inp,
            flags,
            pos + 2,
            i + 1,
            copy_run(out, rom_backref_offset(inp[pos], inp[pos + 1]), rom_backref_length(inp[pos + 1])),
        )
    }
}

/// A ROM-stream group never moves the input backwards.
pub proof fn lemma_rom_decode_group_advances(inp: Seq<u8>, flags: u8, pos: int, i: int, out: Seq<u8>)
    ensures
        rom_decode_group(inp, flags, pos, i, out).0 >= pos,
        0 <= pos <= inp.len() ==> rom_decode_group(inp, flags, pos, i, out).0 <= inp.len(),
    decreases 8 - i,
{
    if i >= 8 || i < 0 || pos < 0 {
    } else if is_literal(flags, i as u8) {
        if pos < inp.len() {
            lemma_rom_decode_group_advances(inp, flags, pos + 1, i + 1, out.push(inp[pos]));
        }
    } else if pos + 1 >= inp.len() {
    } else {
        lemma_rom_decode_group_advances(
            inp,
            flags,
            pos + 2,
            i + 1,
            copy_run(out, rom_backref_offset(inp[pos], inp[pos + 1]), rom_backref_length(inp[pos + 1])),
        );
    }
}

/// Decode ROM-stream groups from input position `pos` onto `out`; the
/// stream ends where an item is cut short.
pub open spec fn rom_decode_from(inp: Seq<u8>, pos: int, out: Seq<u8>) -> Seq<u8>
    decreases inp.len() - pos,
{
    if pos >= inp.len() || pos < 0 {
        out
    } else {
        let g = rom_decode_group(inp, inp[pos], pos + 1, 0, out);
        proof {
            lemma_rom_decode_group_advances(inp, inp[pos], pos + 1, 0, out);
        }
        if g.2 {
            g.1
        } else {
            rom_decode_from(inp, g.0, g.1)
        }
    }
}

/// The decompressed bytes of a ROM LZSS stream.
pub open spec fn spec_decode_rom_lzss(inp: Seq<u8>) -> Seq<u8> {
    rom_decode_from(inp, 0, Seq::empty())
}

/// Decompress the LZSS stream of a NewWorld ROM image.
pub fn decode_rom_lzss(src: &[u8]) -> (dest: Vec<u8>)
    ensures
        dest@ == spec_decode_rom_lzss(src@),
{
    let mut output: Vec<u8> = Vec::new();
    let mut ring: Vec<u8> = vec![0u8; RING_SIZE];
    let mut ring_pos: usize = RING_SIZE - LOOKAHEAD_SIZE;
    let mut src_idx: usize = 0;
    let ghost inp = src@;
    proof {
        assert forall|j: int| 0 <= j < RING_SIZE implies #[trigger] ring@[j] == ring_at(output@, j) by {
            assert(cloned(0u8, ring@[j]));
        }
    }
    while src_idx < src.len()
        invariant_except_break
            rom_decode_from(inp, src_idx as int, output@) == spec_decode_rom_lzss(inp),
        invariant
            inp == src@,
            src_idx <= src.len(),
            ring@.len() == RING_SIZE,
            ring_pos == (ring_start() + output@.len()) % (RING_SIZE as int),
            forall|j: int| 0 <= j < RING_SIZE ==> #[trigger] ring@[j] == ring_at(output@, j),
        ensures
            output@ == spec_decode_rom_lzss(inp),
        decreases src.len() - src_idx,
    {
        let flags = src[src_idx];
        src_idx = src_idx + 1;
        let ghost group_pos = src_idx as int;
        let ghost group_out = output@;
        let mut stopped = false;
        let mut i: u8 = 0;
        while i < 8
            invariant_except_break
                !stopped,
            invariant
                inp == src@,
                group_pos <= src_idx <= src.len(),
                i <= 8,
                ring@.len() == RING_SIZE,
                ring_pos == (ring_start() + output@.len()) % (RING_SIZE as int),
                forall|j: int| 0 <= j < RING_SIZE ==> #[trigger] ring@[j] == ring_at(output@, j),
                rom_decode_group(inp, flags, src_idx as int, i as int, output@) == rom_decode_group(inp, flags, group_pos, 0, group_out),
            ensures
                rom_decode_group(inp, flags, group_pos, 0, group_out) == (src_idx as int, output@, stopped),
                group_pos <= src_idx <= src.len(),
                ring@.len() == RING_SIZE,
                ring_pos == (ring_start() + output@.len()) % (RING_SIZE as int),
                forall|j: int| 0 <= j < RING_SIZE ==> #[trigger] ring@[j] == ring_at(output@, j),
            decreases 8 - i,
        {
            if (flags & (1u8 << i)) != 0 {
                if src_idx >= src.len() {
                    stopped = true;
                    break;
                }
                let c = src[src_idx];
                src_idx = src_idx + 1;
                emit(&mut output, &mut ring, &mut ring_pos, c);
            } else {
                if src_idx >= src.len() || src_idx + 1 >= src.len() {
                    stopped = true;
                    break;
                }
                let b0 = src[src_idx];
                let b1 = src[src_idx + 1];
                src_idx = src_idx + 2;
                let dict_offset: usize = b0 as usize + (b1 as usize / 16) * 256;
                let run_length: usize = (b1 as usize % 16) + 3;
                let ghost run_out = output@;
                let mut k: usize = 0;
                while k < run_length
                    invariant
                        k <= run_length,
                        run_length <= 18,
                        dict_offset < RING_SIZE,
                        ring@.len() == RING_SIZE,
                        ring_pos == (ring_start() + output@.len()) % (RING_SIZE as int),
                        forall|j: int| 0 <= j < RING_SIZE ==> #[trigger] ring@[j] == ring_at(output@, j),
                        copy_run(output@, (dict_offset + k) % (RING_SIZE as int), (run_length - k) as nat) == copy_run(run_out, dict_offset as int, run_length as nat),
                    decreases run_length - k,
                {
                    let slot = (dict_offset + k) % RING_SIZE;
                    assert((slot + 1) % (RING_SIZE as int) == (dict_offset + k + 1) % (RING_SIZE as int));
                    let c = ring[slot];
                    emit(&mut output, &mut ring, &mut ring_pos, c);
                    k = k + 1;
                }
            }
            i = i + 1;
        }
        proof {
            lemma_rom_decode_group_advances(inp, flags, group_pos, 0, group_out);
        }
        if stopped {
            break;
        }
    }
    output
}

/// The type code of the parcel holding the compressed ROM: "rom ".
pub open spec fn rom_parcel_type() -> int {
    0x726F6D20
}

/// Whether the parcel at `po` is the ROM parcel and its compressed bytes,
/// which run from its data offset to the next parcel, lie in the image.
pub open spec fn parcel_found(d: Seq<u8>, po: int) -> bool {
    be32(d, po + 4) == rom_parcel_type() && be32(d, po) > po + be32(d, po + 8) && be32(d, po) <= d.len()
}

/// Whether the walk along the parcel chain stops at `po`.
pub open spec fn parcel_stop(d: Seq<u8>, po: int) -> bool {
    po == 0 || po + 24 > d.len() || parcel_found(d, po)
}

/// Whether the walk from `po` stops within `n` steps.
pub open spec fn parcel_ends_within(d: Seq<u8>, po: int, n: nat) -> bool
    decreases n,
{
    parcel_stop(d, po) || (n > 0 && parcel_ends_within(d, be32(d, po), (n - 1) as nat))
}

/// The ROM parcel the walk from `po` reaches within `n` steps, if any.
pub open spec fn parcel_walk(d: Seq<u8>, po: int, n: nat) -> Option<int>
    decreases n,
{
    if po == 0 || po + 24 > d.len() {
        None
    } else if parcel_found(d, po) {
        Some(po)
    } else if n == 0 {
        None
    } else {
        parcel_walk(d, be32(d, po), (n - 1) as nat)
    }
}

/// Whether the parcel chain of an image, which starts at 0x14, ends:
/// with no next parcel, at a parcel that does not fit, or at the ROM parcel.
pub open spec fn parcel_chain_ends(d: Seq<u8>) -> bool {
    exists|n: nat| parcel_ends_within(d, 0x14, n)
}

/// The offset of the ROM parcel of an image whose chain ends, if any.
pub open spec fn rom_parcel(d: Seq<u8>) -> Option<int> {
    parcel_walk(d, 0x14, choose|n: nat| parcel_ends_within(d, 0x14, n))
}

/// Walk the parcel chain from 0x14 to the ROM parcel, and give the range
/// of its compressed bytes.
pub fn find_rom_parcel(data: &[u8]) -> (r: Option<(usize, usize)>)
    requires
        parcel_chain_ends(data@),
    ensures
        r matches Some((a, b)) ==> rom_parcel(data@) matches Some(po) && a == po + be32(data@, po + 8)
            && b == be32(data@, po) && a < b <= data@.len(),
        r is None ==> rom_parcel(data@) is None,
{
    let ghost d = data@;
    let ghost n: nat = choose|n: nat| parcel_ends_within(d, 0x14, n);
    let ghost mut k: nat = 0;
    let mut parcel_offset: usize = 0x14;
    while parcel_offset != 0 && parcel_offset <= data.len() && data.len() - parcel_offset >= 24
        invariant
            d == data@,
            k <= n,
            parcel_offset <= u32::MAX,
            parcel_ends_within(d, parcel_offset as int, (n - k) as nat),
            parcel_walk(d, parcel_offset as int, (n - k) as nat) == rom_parcel(d),
        decreases n - k,
    {
        let next_offset = read_be32(data, parcel_offset) as usize;
        let parcel_type = read_be32(data, parcel_offset + 4);
        if parcel_type == 0x726F6D20 {
            let lzss_offset = read_be32(data, parcel_offset + 8);
            let abs_offset: u64 = parcel_offset as u64 + lzss_offset as u64;
            if (next_offset as u64) > abs_offset && next_offset <= data.len() {
                return Some((abs_offset as usize, next_offset));
            }
        }
        parcel_offset = next_offset;
        proof {
            k = k + 1;
        }
    }
    None
}

/// The magic number of a parcel container: "prcl".
pub open spec fn prcl_magic() -> Seq<u8> {
    seq![0x70u8, 0x72u8, 0x63u8, 0x6Cu8]
}

/// Parse a 'prcl' parcel.
///
/// Format:
///   [0x00] magic: 'prcl' (4 bytes)
///   [0x14] chunk_size (4 bytes, big-endian)
///   [0x20...] payload
///
/// The payload is handed back as it stands: the boot code itself reads
/// the structured data inside it.
pub fn decompress_prcl(data: &[u8]) -> (r: Result<Vec<u8>, Error>)
    ensures
        data@.len() < 32 ==> (r matches Err(Error::Other(m)) && m@ == "Data too small for prcl header"@),
        data@.len() >= 32 && data@.subrange(0, 4) != prcl_magic() ==> (r matches Err(Error::Other(m))
            && m@ == "Not a prcl container"@),
        data@.len() >= 32 && data@.subrange(0, 4) == prcl_magic() && data@.len() < 32 + be32(data@, 0x14)
            ==> (r matches Err(Error::Other(m)) && m@ == "Data too small for chunk_size"@),
        data@.len() >= 32 && data@.subrange(0, 4) == prcl_magic() && data@.len() >= 32 + be32(data@, 0x14)
            ==> (r matches Ok(v) && v@ == data@.subrange(32, 32 + be32(data@, 0x14))),
{
    if data.len() < 32 {
        return Err(Error::Other("Data too small for prcl header".to_owned()));
    }
    if !(data[0] == 0x70 && data[1] == 0x72 && data[2] == 0x63 && data[3] == 0x6C) {
        proof {
            if data@.subrange(0, 4) == prcl_magic() {
                assert(data@.subrange(0, 4)[0] == data@[0]);
                assert(data@.subrange(0, 4)[1] == data@[1]);
                assert(data@.subrange(0, 4)[2] == data@[2]);
                assert(data@.subrange(0, 4)[3] == data@[3]);
            }
        }
        return Err(Error::Other("Not a prcl container".to_owned()));
    }
    assert(data@.subrange(0, 4) =~= prcl_magic());
    let chunk_size = read_be32(data, 0x14) as usize;
    if data.len() - 32 < chunk_size {
        return Err(Error::Other("Data too small for chunk_size".to_owned()));
    }
    let end = 32 + chunk_size;
    let mut out: Vec<u8> = Vec::new();
    let mut i: usize = 32;
    while i < end
        invariant
            end == 32 + chunk_size,
            32 <= i <= end <= data@.len(),
            out@ == data@.subrange(32, i as int),
        decreases end - i,
    {
        out.push(data[i]);
        assert(out@ =~= data@.subrange(32, i + 1));
        i = i + 1;
    }
    Ok(out)
}


/// In an output that holds only zero bytes, every ring slot holds zero.
proof fn lemma_ring_at_zero(out: Seq<u8>, j: int)
    requires
        forall|k: int| 0 <= k < out.len() ==> out[k] == 0,
    ensures
        ring_at(out, j) == 0,
    decreases out.len(),
{
    if out.len() > 0 {
        lemma_ring_at_zero(out.drop_last(), j);
    }
}

/// Copying from the ring while only zeros have been written appends `n`
/// zero bytes.
proof fn lemma_copy_run_zero(out: Seq<u8>, offset: int, n: nat)
    requires
        forall|k: int| 0 <= k < out.len() ==> out[k] == 0,
    ensures
        copy_run(out, offset, n).len() == out.len() + n,
        forall|k: int| 0 <= k < copy_run(out, offset, n).len() ==> #[trigger] copy_run(out, offset, n)[k] == 0,
    decreases n,
{
    if n > 0 {
        lemma_ring_at_zero(out, offset);
        let next = out.push(ring_at(out, offset));
        assert forall|k: int| 0 <= k < next.len() implies next[k] == 0 by {
            if k < out.len() {
                assert(next[k] == out[k]);
            }
        }
        lemma_copy_run_zero(next, (offset + 1) % (RING_SIZE as int), (n - 1) as nat);
    }
}

/// A flag byte whose lowest bit is clear marks its group's first item as a
/// back-reference.
proof fn lemma_even_flags_start_with_backref(f: u8)
    requires
        f % 2 == 0,
    ensures
        !is_literal(f, 0u8),
{
    assert(f & (1u8 << 0u8) != 0 <==> f % 2 == 1) by (bit_vector);
}

/// A stream made of a flag byte whose lowest bit is clear (its first item
/// is a back-reference) followed by that one back-reference `b1 b2`
/// decompresses to exactly `(b1 & 0x0F) + THRESHOLD + 1` bytes, from 3 to
/// 18: all four low bits of the first byte count toward the length. Since
/// nothing has been written to the ring yet, every copied byte is zero.
pub proof fn law_backref_length(inp: Seq<u8>, f: u8, b1: u8, b2: u8)
    requires
        inp == seq![f, b1, b2],
        f % 2 == 0,
    ensures
        spec_decompress_lzss(inp).len() == b1 % 16 + 3,
        3 <= spec_decompress_lzss(inp).len() <= 18,
        forall|k: int| 0 <= k < spec_decompress_lzss(inp).len() ==> #[trigger] spec_decompress_lzss(inp)[k] == 0,
{
    lemma_even_flags_start_with_backref(f);
    let empty = Seq::<u8>::empty();
    lemma_copy_run_zero(empty, backref_offset(b1, b2), backref_length(b1));
    let out = copy_run(empty, backref_offset(b1, b2), backref_length(b1));
    assert(decode_group(inp, f, 3, 1, out) == (3int, out));
    assert(decode_group(inp, f, 1, 0, empty) == (3int, out));
    assert(decode_from(inp, 3, out) == out);
    assert(decode_from(inp, 0, empty) == out);
}


/// In the ROM's stream layout a back-reference `b0 b1` copies exactly
/// `(b1 & 0x0F) + 3` bytes, from 3 to 18: a stream made of a flag byte whose
/// lowest bit is clear followed by that one back-reference decompresses to
/// that many bytes, all zero since nothing was written to the ring before.
pub proof fn law_rom_backref_length(inp: Seq<u8>, f: u8, b0: u8, b1: u8)
    requires
        inp == seq![f, b0, b1],
        f % 2 == 0,
    ensures
        spec_decode_rom_lzss(inp).len() == b1 % 16 + 3,
        forall|k: int| 0 <= k < spec_decode_rom_lzss(inp).len() ==> #[trigger] spec_decode_rom_lzss(inp)[k] == 0,
{
    lemma_even_flags_start_with_backref(f);
    let empty = Seq::<u8>::empty();
    lemma_copy_run_zero(empty, rom_backref_offset(b0, b1), rom_backref_length(b1));
    let out = copy_run(empty, rom_backref_offset(b0, b1), rom_backref_length(b1));
    assert(rom_decode_group(inp, f, 3, 1, out) == (3int, out, true));
    assert(rom_decode_group(inp, f, 1, 0, empty) == (3int, out, true));
    assert(rom_decode_from(inp, 0, empty) == out);
}

} // verus!
