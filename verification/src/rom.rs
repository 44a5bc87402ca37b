//! ROM images: type detection, boot script extraction, entry point and
//! ELF offset discovery, and decoding of compressed NewWorld images.
use vstd::prelude::*;
use vstd::string::StringSliceAdditionalSpecFns;
use crate::bytes::{be32, read_be32, find_from, rfind_from, matches_at, find_bytes, rfind_bytes, lemma_find_from, copy_range};
use crate::error::Error;
use crate::lzss::{decode_rom_lzss, spec_decode_rom_lzss, find_rom_parcel, rom_parcel, parcel_chain_ends, prcl_magic};
use crate::text::string_from_utf8;

verus! {

/// ROM type
#[derive(Debug, Clone, Copy, PartialEq, Eq, Structural)]
pub enum RomType {
    /// OldWorld ROM (pre-iMac, typically 4MB)
    OldWorld,
    /// NewWorld ROM (iMac and later, with CHRP boot script)
    NewWorld,
}

/// Mac ROM image
#[derive(Debug)]
pub struct Rom {
    data: Vec<u8>,
    base_address: u32,
    rom_type: RomType,
    entry_offset: usize,
}

/// The tag a NewWorld image starts with: "<CHRP-BOOT>".
pub open spec fn chrp_open_tag() -> Seq<u8> {
    seq![0x3Cu8, 0x43, 0x48, 0x52, 0x50, 0x2D, 0x42, 0x4F, 0x4F, 0x54, 0x3E]
}

/// The tag that ends the boot script: "</CHRP-BOOT>".
pub open spec fn chrp_close_tag() -> Seq<u8> {
    seq![0x3Cu8, 0x2F, 0x43, 0x48, 0x52, 0x50, 0x2D, 0x42, 0x4F, 0x4F, 0x54, 0x3E]
}

/// The tag that starts the Forth part of the boot script: "<BOOT-SCRIPT>".
pub open spec fn boot_script_open_tag() -> Seq<u8> {
    seq![0x3Cu8, 0x42, 0x4F, 0x4F, 0x54, 0x2D, 0x53, 0x43, 0x52, 0x49, 0x50, 0x54, 0x3E]
}

/// The tag that ends the Forth part of the boot script: "</BOOT-SCRIPT>".
pub open spec fn boot_script_close_tag() -> Seq<u8> {
    seq![0x3Cu8, 0x2F, 0x42, 0x4F, 0x4F, 0x54, 0x2D, 0x53, 0x43, 0x52, 0x49, 0x50, 0x54, 0x3E]
}

/// Whether an image is a NewWorld ROM: it starts with the CHRP boot tag.
pub open spec fn is_newworld_image(d: Seq<u8>) -> bool {
    d.len() > 20 && d.subrange(0, 11) == chrp_open_tag()
}

/// Whether a word looks like the first instruction of PowerPC code: an
/// `mflr`-group, `stwu` or `li`/`lis` instruction, and not the ELF magic.
pub open spec fn looks_like_code(w: u32) -> bool {
    w != 0 && w != 0x7F454C46 && ((w & 0xFC000000) == 0x7C000000 || (w & 0xFC000000) == 0x94000000
        || (w & 0xF0000000) == 0x30000000)
}

/// Whether PowerPC code appears to start at `off`.
pub open spec fn code_at(d: Seq<u8>, off: int) -> bool {
    off + 16 <= d.len() && looks_like_code(be32(d, off) as u32)
}

/// The entry offset of a NewWorld image: the first of the usual places
/// where code appears to start, else 0x4100.
pub open spec fn spec_newworld_entry(d: Seq<u8>) -> int {
    if code_at(d, 0x4100) {
        0x4100
    } else if code_at(d, 0x4000) {
        0x4000
    } else if code_at(d, 0x3800) {
        0x3800
    } else if code_at(d, 0x3000) {
        0x3000
    } else {
        0x4100
    }
}

/// Whether the ELF magic number stands at `off`.
pub open spec fn elf_at(d: Seq<u8>, off: int) -> bool {
    off + 4 <= d.len() && be32(d, off) == 0x7F454C46
}

/// The first of the usual ELF offsets where an ELF image starts.
pub open spec fn spec_find_elf_offset(d: Seq<u8>) -> Option<int> {
    if elf_at(d, 0x3000) {
        Some(0x3000)
    } else if elf_at(d, 0x4000) {
        Some(0x4000)
    } else if elf_at(d, 0x5000) {
        Some(0x5000)
    } else if elf_at(d, 0x8000) {
        Some(0x8000)
    } else {
        None
    }
}

/// The bytes of the boot script of a NewWorld image: those between the
/// opening tag and the first closing tag, when there are any.
pub open spec fn boot_script_bytes(d: Seq<u8>) -> Option<Seq<u8>> {
    match find_from(d, chrp_close_tag(), 0) {
        Some(e) => if 11 < e {
            Some(d.subrange(11, e))
        } else {
            None
        },
        None => None,
    }
}

/// The boot script of an image, when it is a NewWorld image whose script
/// is valid UTF-8.
pub open spec fn spec_boot_script(kind: RomType, d: Seq<u8>) -> Option<Seq<char>> {
    if kind != RomType::NewWorld {
        None
    } else {
        match boot_script_bytes(d) {
            Some(b) => if vstd::utf8::valid_utf8(b) {
                Some(vstd::utf8::decode_utf8(b))
            } else {
                None
            },
            None => None,
        }
    }
}

/// The bytes of the Forth part of a boot script.
pub open spec fn forth_script_bytes(b: Seq<u8>) -> Option<Seq<u8>> {
    match find_from(b, boot_script_open_tag(), 0) {
        Some(p) => match find_from(b, boot_script_close_tag(), p + 13) {
            Some(q) => Some(b.subrange(p + 13, q)),
            None => None,
        },
        None => None,
    }
}

/// The Forth part of the boot script of an image.
pub open spec fn spec_forth_script(kind: RomType, d: Seq<u8>) -> Option<Seq<char>> {
    if kind != RomType::NewWorld {
        None
    } else {
        match boot_script_bytes(d) {
            Some(b) => if vstd::utf8::valid_utf8(b) {
                match forth_script_bytes(b) {
                    Some(f) => if vstd::utf8::valid_utf8(f) {
                        Some(vstd::utf8::decode_utf8(f))
                    } else {
                        None
                    },
                    None => None,
                }
            } else {
                None
            },
            None => None,
        }
    }
}


/// The length of the whitespace character starting at `p`, as `trim_start`
/// of Rust strings knows it (Unicode White_Space), or 0.
pub open spec fn ws_len(d: Seq<u8>, p: int) -> int {
    if 0 <= p < d.len() && (9 <= d[p] <= 13 || d[p] == 32) {
        1
    } else if 0 <= p && p + 1 < d.len() && d[p] == 0xC2 && (d[p + 1] == 0x85 || d[p + 1] == 0xA0) {
        2
    } else if 0 <= p && p + 2 < d.len() && ((d[p] == 0xE1 && d[p + 1] == 0x9A && d[p + 2] == 0x80) || (d[p]
        == 0xE2 && d[p + 1] == 0x80 && ((0x80 <= d[p + 2] <= 0x8A) || d[p + 2] == 0xA8 || d[p + 2] == 0xA9
        || d[p + 2] == 0xAF)) || (d[p] == 0xE2 && d[p + 1] == 0x81 && d[p + 2] == 0x9F) || (d[p] == 0xE3
        && d[p + 1] == 0x80 && d[p + 2] == 0x80)) {
        3
    } else {
        0
    }
}

/// The first position at or after `p` that does not start whitespace.
pub open spec fn skip_ws(d: Seq<u8>, p: int) -> int
    decreases d.len() - p,
{
    if 0 <= p < d.len() && ws_len(d, p) > 0 {
        skip_ws(d, p + ws_len(d, p))
    } else {
        p
    }
}

/// Whether a byte is an ASCII hexadecimal digit.
pub open spec fn is_hex_digit(b: u8) -> bool {
    (0x30 <= b <= 0x39) || (0x41 <= b <= 0x46) || (0x61 <= b <= 0x66)
}

/// The value of an ASCII hexadecimal digit.
pub open spec fn hex_digit_value(b: u8) -> int {
    if 0x30 <= b <= 0x39 {
        b - 0x30
    } else if 0x41 <= b <= 0x46 {
        b - 0x41 + 10
    } else {
        b - 0x61 + 10
    }
}

/// The end of the run of hexadecimal digits that starts at `p`.
pub open spec fn hex_run_end(d: Seq<u8>, p: int) -> int
    decreases d.len() - p,
{
    if 0 <= p < d.len() && is_hex_digit(d[p]) {
        hex_run_end(d, p + 1)
    } else {
        p
    }
}

/// The value of the hexadecimal digits in `[p, q)`.
pub open spec fn hex_value(d: Seq<u8>, p: int, q: int) -> int
    decreases q - p,
{
    if q <= p {
        0
    } else {
        hex_value(d, p, q - 1) * 16 + hex_digit_value(d[q - 1])
    }
}

/// The bytes of "constant ".
pub open spec fn constant_word() -> Seq<u8> {
    seq![0x63u8, 0x6F, 0x6E, 0x73, 0x74, 0x61, 0x6E, 0x74, 0x20]
}

/// The bytes of "h# ".
pub open spec fn hex_prefix() -> Seq<u8> {
    seq![0x68u8, 0x23, 0x20]
}

/// The value of a constant defined in a CHRP boot script as
/// "h# XXXXXX constant name": the first definition of the name, read from
/// the last "h# " before it; none when no hexadecimal digits follow it or
/// the value does not fit in a `usize`.
pub open spec fn spec_boot_constant(script: Seq<u8>, name: Seq<u8>) -> Option<int> {
    match find_from(script, constant_word() + name, 0) {
        None => None,
        Some(pos) => {
            let before = script.subrange(0, pos);
            match rfind_from(before, hex_prefix(), pos - 3) {
                None => None,
                Some(h) => {
                    let start = skip_ws(before, h + 3);
                    let end = hex_run_end(before, start);
                    if end == start || hex_value(before, start, end) > usize::MAX {
                        None
                    } else {
                        Some(hex_value(before, start, end))
                    }
                },
            }
        },
    }
}

/// A longer run of digits is worth at least as much.
pub proof fn lemma_hex_value_mono(d: Seq<u8>, p: int, q1: int, q2: int)
    requires
        p <= q1 <= q2,
        forall|k: int| p <= k < q2 ==> is_hex_digit(#[trigger] d[k]),
    ensures
        0 <= hex_value(d, p, q1) <= hex_value(d, p, q2),
    decreases q2 - p,
{
    if q2 > q1 {
        lemma_hex_value_mono(d, p, q1, q2 - 1);
    } else if q1 > p {
        lemma_hex_value_mono(d, p, q1 - 1, q1 - 1);
    }
}

/// The contents of the ROM parcel of a parcel container, when there is one
/// and it decompresses to something.
pub open spec fn spec_parcels_rom(d: Seq<u8>) -> Option<Seq<u8>> {
    match rom_parcel(d) {
        Some(po) => {
            let v = spec_decode_rom_lzss(d.subrange(po + be32(d, po + 8), be32(d, po) as int));
            if v.len() > 0 {
                Some(v)
            } else {
                None
            }
        },
        None => None,
    }
}

/// The bytes of "lzss-offset".
pub open spec fn lzss_offset_word() -> Seq<u8> {
    seq![0x6Cu8, 0x7A, 0x73, 0x73, 0x2D, 0x6F, 0x66, 0x66, 0x73, 0x65, 0x74]
}

/// The bytes of "parcels-offset".
pub open spec fn parcels_offset_word() -> Seq<u8> {
    seq![0x70u8, 0x61, 0x72, 0x63, 0x65, 0x6C, 0x73, 0x2D, 0x6F, 0x66, 0x66, 0x73, 0x65, 0x74]
}

/// The bytes of "lzss-size".
pub open spec fn lzss_size_word() -> Seq<u8> {
    seq![0x6Cu8, 0x7A, 0x73, 0x73, 0x2D, 0x73, 0x69, 0x7A, 0x65]
}

/// The bytes of "parcels-size".
pub open spec fn parcels_size_word() -> Seq<u8> {
    seq![0x70u8, 0x61, 0x72, 0x63, 0x65, 0x6C, 0x73, 0x2D, 0x73, 0x69, 0x7A, 0x65]
}

/// The offset of the compressed ROM a boot script names.
pub open spec fn boot_lzss_offset(d: Seq<u8>) -> Option<int> {
    match spec_boot_constant(d, lzss_offset_word()) {
        Some(v) => Some(v),
        None => spec_boot_constant(d, parcels_offset_word()),
    }
}

/// The size of the compressed ROM a boot script names.
pub open spec fn boot_lzss_size(d: Seq<u8>) -> Option<int> {
    match spec_boot_constant(d, lzss_size_word()) {
        Some(v) => Some(v),
        None => spec_boot_constant(d, parcels_size_word()),
    }
}

/// Whether the compressed ROM of a NewWorld image is a parcel container.
pub open spec fn is_parcel_container(d: Seq<u8>, off: int) -> bool {
    off + 4 <= d.len() && d.subrange(off, off + 4) == prcl_magic()
}

/// Whether decoding a NewWorld image ends: the offset and size it names do
/// not overflow, and a parcel container's chain ends.
pub open spec fn newworld_decode_terminates(d: Seq<u8>) -> bool {
    match (boot_lzss_offset(d), boot_lzss_size(d)) {
        (Some(off), Some(size)) => off + size <= usize::MAX && (off + size <= d.len() && is_parcel_container(d, off)
            ==> parcel_chain_ends(d.subrange(off, off + size))),
        _ => true,
    }
}

/// The decoded ROM of a NewWorld image, or the message of why it cannot
/// be decoded.
pub open spec fn spec_decode_newworld(d: Seq<u8>) -> Result<Seq<u8>, Seq<char>> {
    match boot_lzss_offset(d) {
        None => Err("Could not find lzss-offset in NewWorld ROM"@),
        Some(off) => match boot_lzss_size(d) {
            None => Err("Could not find lzss-size in NewWorld ROM"@),
            Some(size) => if off + size > d.len() {
                Err("Invalid LZSS offset/size in ROM"@)
            } else if is_parcel_container(d, off) {
                match spec_parcels_rom(d.subrange(off, off + size)) {
                    Some(v) => Ok(v),
                    None => Err("No 'rom ' parcel found in ROM"@),
                }
            } else {
                Ok(spec_decode_rom_lzss(d.subrange(off, off + size)))
            },
        },
    }
}

/// Whether a byte is an ASCII hexadecimal digit.
pub(crate) fn is_hex_byte(b: u8) -> (r: bool)
    ensures
        r == is_hex_digit(b),
{
    (0x30 <= b && b <= 0x39) || (0x41 <= b && b <= 0x46) || (0x61 <= b && b <= 0x66)
}

/// The value of an ASCII hexadecimal digit.
pub(crate) fn hex_byte_value(b: u8) -> (r: u8)
    requires
        is_hex_digit(b),
    ensures
        r == hex_digit_value(b),
        r < 16,
{
    if 0x30 <= b && b <= 0x39 {
        b - 0x30
    } else if 0x41 <= b && b <= 0x46 {
        b - 0x41 + 10
    } else {
        b - 0x61 + 10
    }
}

/// Whether PowerPC code appears to start at `off`.
fn has_code_at(d: &[u8], off: usize) -> (r: bool)
    ensures
        r == code_at(d@, off as int),
{
    if off > d.len() || d.len() - off < 16 {
        return false;
    }
    let w = read_be32(d, off);
    w != 0 && w != 0x7F454C46 && ((w & 0xFC000000) == 0x7C000000 || (w & 0xFC000000) == 0x94000000
        || (w & 0xF0000000) == 0x30000000)
}

/// Whether the ELF magic number stands at `off`.
fn has_elf_at(d: &[u8], off: usize) -> (r: bool)
    ensures
        r == elf_at(d@, off as int),
{
    if off > d.len() || d.len() - off < 4 {
        return false;
    }
    read_be32(d, off) == 0x7F454C46
}

/// Whether an image starts with the CHRP boot tag and is long enough to
/// hold a boot script.
fn detect_newworld(d: &[u8]) -> (r: bool)
    ensures
        r == is_newworld_image(d@),
{
    if d.len() <= 20 {
        return false;
    }
    let tag: [u8; 11] = [0x3C, 0x43, 0x48, 0x52, 0x50, 0x2D, 0x42, 0x4F, 0x4F, 0x54, 0x3E];
    let mut i: usize = 0;
    while i < 11
        invariant
            i <= 11,
            d@.len() > 20,
            tag@ == chrp_open_tag(),
            forall|j: int| 0 <= j < i ==> d@[j] == tag@[j],
        decreases 11 - i,
    {
        if d[i] != tag[i] {
            proof {
                assert(d@.subrange(0, 11)[i as int] == d@[i as int]);
            }
            return false;
        }
        i = i + 1;
    }
    assert(d@.subrange(0, 11) =~= chrp_open_tag());
    true
}

/// The bytes of a string literal made only of ASCII characters.
fn ascii_bytes(s: &str) -> (r: Vec<u8>)
    ensures
        r@ == s.spec_bytes(),
{
    let b = s.as_bytes();
    let mut v: Vec<u8> = Vec::new();
    let mut i: usize = 0;
    while i < b.len()
        invariant
            i <= b@.len(),
            v@ == b@.subrange(0, i as int),
        decreases b@.len() - i,
    {
        v.push(b[i]);
        assert(v@ =~= b@.subrange(0, i + 1));
        i = i + 1;
    }
    assert(v@ =~= b@);
    v
}

impl Rom {
    /// The bytes of the image.
    pub closed spec fn bytes(self) -> Seq<u8> {
        self.data@
    }

    /// The address the image is mapped at.
    pub closed spec fn base(self) -> u32 {
        self.base_address
    }

    /// The kind of image.
    pub closed spec fn kind(self) -> RomType {
        self.rom_type
    }

    /// The offset of the first instruction within the image.
    pub closed spec fn entry(self) -> usize {
        self.entry_offset
    }

    /// Find the entry point in a NewWorld ROM: the first of the usual
    /// places where PowerPC code appears to start, else 0x4100.
    fn find_newworld_entry(data: &[u8]) -> (r: usize)
        ensures
            r == spec_newworld_entry(data@),
    {
        if has_code_at(data, 0x4100) {
            0x4100
        } else if has_code_at(data, 0x4000) {
            0x4000
        } else if has_code_at(data, 0x3800) {
            0x3800
        } else if has_code_at(data, 0x3000) {
            0x3000
        } else {
            0x4100
        }
    }

    /// Find the ELF offset in raw NewWorld ROM data.
    ///
    /// Different ROM versions place the ELF at different offsets:
    /// - ROM 1.1-1.1.2 (1998): 0x3000
    /// - ROM 1.2-3.0 (1998-1999): 0x4000
    /// - ROM 3.7-10.2.1 (2000-2003): 0x5000
    fn find_elf_offset(data: &[u8]) -> (r: Option<usize>)
        ensures
            r matches Some(o) ==> spec_find_elf_offset(data@) == Some(o as int),
            r is None ==> spec_find_elf_offset(data@) is None,
    {
        if has_elf_at(data, 0x3000) {
            Some(0x3000)
        } else if has_elf_at(data, 0x4000) {
            Some(0x4000)
        } else if has_elf_at(data, 0x5000) {
            Some(0x5000)
        } else if has_elf_at(data, 0x8000) {
            Some(0x8000)
        } else {
            None
        }
    }

    /// Build a ROM from the bytes of an image file: detect its type, find
    /// its entry and place it in the address space. A NewWorld image is
    /// kept raw and mapped so that it ends at the top of the address space,
    /// with its entry at the ELF image (0x4100 when none is found); an
    /// OldWorld image is mapped at 0xFFF00000 when it is at most 1 MiB and
    /// at 0xFFC00000 otherwise.
    pub fn from_image(raw_data: Vec<u8>) -> (r: Self)
        requires
            raw_data@.len() <= u32::MAX,
        ensures
            r.bytes() == raw_data@,
            is_newworld_image(raw_data@) ==> {
                &&& r.kind() == RomType::NewWorld
                &&& r.base() == 0x1_0000_0000 - raw_data@.len()
                &&& r.entry() == match spec_find_elf_offset(raw_data@) {
                    Some(o) => o,
                    None => 0x4100,
                }
            },
            !is_newworld_image(raw_data@) ==> {
                &&& r.kind() == RomType::OldWorld
                &&& r.base() == (if raw_data@.len() <= 0x10_0000 { 0xFFF0_0000u32 } else { 0xFFC0_0000u32 })
                &&& r.entry() == 0
            },
    {
        if detect_newworld(raw_data.as_slice()) {
            let elf_offset = match Self::find_elf_offset(raw_data.as_slice()) {
                Some(o) => o,
                None => 0x4100,
            };
            let rom_size = raw_data.len() as u32;
            let base = 0xFFFF_FFFF - rom_size + 1;
            Self { data: raw_data, base_address: base, rom_type: RomType::NewWorld, entry_offset: elf_offset }
        } else {
            let base_address: u32 = if raw_data.len() <= 1024 * 1024 {
                0xFFF0_0000
            } else {
                0xFFC0_0000
            };
            Self { data: raw_data, base_address, rom_type: RomType::OldWorld, entry_offset: 0 }
        }
    }

    /// Create ROM from raw data
    pub fn from_data(data: Vec<u8>, base_address: u32) -> (r: Self)
        ensures
            r.bytes() == data@,
            r.base() == base_address,
            r.kind() == (if is_newworld_image(data@) { RomType::NewWorld } else { RomType::OldWorld }),
            r.entry() == (if is_newworld_image(data@) { spec_newworld_entry(data@) } else { 0 }),
    {
        let newworld = detect_newworld(data.as_slice());
        let rom_type = if newworld {
            RomType::NewWorld
        } else {
            RomType::OldWorld
        };
        let entry_offset = if newworld {
            Self::find_newworld_entry(data.as_slice())
        } else {
            0
        };
        Self { data, base_address, rom_type, entry_offset }
    }

    /// Get ROM base address
    pub fn base_address(&self) -> (r: u32)
        ensures
            r == self.base(),
    {
        self.base_address
    }

    /// Get ROM entry point address (base + entry_offset, wrapping)
    pub fn entry_address(&self) -> (r: u32)
        ensures
            r == (self.base() + (self.entry() as u32)) % 0x1_0000_0000,
    {
        self.base_address.wrapping_add(self.entry_offset as u32)
    }

    /// The boot script bytes, as a string when they are valid UTF-8.
    fn boot_script_string(data: &[u8]) -> (r: Option<String>)
        ensures
            r matches Some(s) ==> boot_script_bytes(data@) matches Some(b) && vstd::utf8::valid_utf8(b)
                && s@ == vstd::utf8::decode_utf8(b),
            r is None ==> !(boot_script_bytes(data@) matches Some(b) && vstd::utf8::valid_utf8(b)),
    {
        let close: [u8; 12] = [0x3C, 0x2F, 0x43, 0x48, 0x52, 0x50, 0x2D, 0x42, 0x4F, 0x4F, 0x54, 0x3E];
        assert(close@ == chrp_close_tag());
        match find_bytes(data, &close, 0) {
            Some(end_pos) => {
                if 11 < end_pos {
                    proof {
                        lemma_find_from(data@, chrp_close_tag(), 0);
                    }
                    let mut v: Vec<u8> = Vec::new();
                    let mut i: usize = 11;
                    while i < end_pos
                        invariant
                            11 <= i <= end_pos <= data@.len(),
                            v@ == data@.subrange(11, i as int),
                        decreases end_pos - i,
                    {
                        v.push(data[i]);
                        assert(v@ =~= data@.subrange(11, i + 1));
                        i = i + 1;
                    }
                    string_from_utf8(v)
                } else {
                    None
                }
            },
            None => None,
        }
    }

    /// Get the CHRP boot script (for NewWorld ROMs)
    pub fn get_boot_script(&self) -> (r: Option<String>)
        ensures
            r matches Some(s) ==> spec_boot_script(self.kind(), self.bytes()) == Some(s@),
            r is None ==> spec_boot_script(self.kind(), self.bytes()) is None,
    {
        if self.rom_type != RomType::NewWorld {
            return None;
        }
        Self::boot_script_string(self.data.as_slice())
    }

    /// Get just the Forth code from the boot script (for NewWorld ROMs):
    /// the content between <BOOT-SCRIPT> and </BOOT-SCRIPT>.
    pub fn get_forth_script(&self) -> (r: Option<String>)
        ensures
            r matches Some(s) ==> spec_forth_script(self.kind(), self.bytes()) == Some(s@),
            r is None ==> spec_forth_script(self.kind(), self.bytes()) is None,
    {
        let full_script = match self.get_boot_script() {
            Some(s) => s,
            None => return None,
        };
        let ghost b = boot_script_bytes(self.bytes())->0;
        let fb = full_script.as_str().as_bytes();
        proof {
            vstd::utf8::decode_utf8_encode_utf8(b);
            assert(fb@ == b);
        }
        let start_tag: [u8; 13] = [0x3C, 0x42, 0x4F, 0x4F, 0x54, 0x2D, 0x53, 0x43, 0x52, 0x49, 0x50, 0x54, 0x3E];
        let end_tag: [u8; 14] = [0x3C, 0x2F, 0x42, 0x4F, 0x4F, 0x54, 0x2D, 0x53, 0x43, 0x52, 0x49, 0x50, 0x54, 0x3E];
        assert(start_tag@ == boot_script_open_tag());
        assert(end_tag@ == boot_script_close_tag());
        match find_bytes(fb, &start_tag, 0) {
            Some(start_pos) => {
                proof {
                    lemma_find_from(fb@, boot_script_open_tag(), 0);
                }
                assert(start_pos + 13 <= fb@.len());
                assert(fb@.len() == fb.len());
                let script_start = start_pos + 13;
                match find_bytes(fb, &end_tag, script_start) {
                    Some(end_pos) => {
                        proof {
                            lemma_find_from(fb@, boot_script_close_tag(), script_start as int);
                        }
                        let mut v: Vec<u8> = Vec::new();
                        let mut i: usize = script_start;
                        while i < end_pos
                            invariant
                                script_start <= i <= end_pos <= fb@.len(),
                                v@ == fb@.subrange(script_start as int, i as int),
                            decreases end_pos - i,
                        {
                            v.push(fb[i]);
                            assert(v@ =~= fb@.subrange(script_start as int, i + 1));
                            i = i + 1;
                        }
                        string_from_utf8(v)
                    },
                    None => None,
                }
            },
            None => None,
        }
    }

    /// Find the ELF offset in this ROM (NewWorld ROMs only).
    pub fn get_elf_offset(&self) -> (r: Option<usize>)
        ensures
            self.kind() != RomType::NewWorld ==> r is None,
            self.kind() == RomType::NewWorld ==> (r matches Some(o) ==> spec_find_elf_offset(self.bytes()) == Some(o as int))
                && (r is None ==> spec_find_elf_offset(self.bytes()) is None),
    {
        if self.rom_type != RomType::NewWorld {
            return None;
        }
        Self::find_elf_offset(self.data.as_slice())
    }

    /// Get ROM size
    pub fn size(&self) -> (r: usize)
        ensures
            r == self.bytes().len(),
    {
        self.data.len()
    }

    /// Get ROM type
    pub fn rom_type(&self) -> (r: RomType)
        ensures
            r == self.kind(),
    {
        self.rom_type
    }

    /// Read a byte from ROM; 0 past the end.
    pub fn read_u8(&self, offset: usize) -> (r: u8)
        ensures
            r == (if offset < self.bytes().len() { self.bytes()[offset as int] } else { 0 }),
    {
        if offset < self.data.len() {
            self.data[offset]
        } else {
            0
        }
    }

    /// Read a 32-bit word from ROM (big-endian); 0 past the end.
    pub fn read_u32(&self, offset: usize) -> (r: u32)
        requires
            offset + 4 <= usize::MAX,
        ensures
            r == (if offset + 4 <= self.bytes().len() { be32(self.bytes(), offset as int) } else { 0 }),
    {
        if offset + 4 <= self.data.len() {
            read_be32(self.data.as_slice(), offset)
        } else {
            0
        }
    }

    /// Get raw ROM data
    pub fn data(&self) -> (r: &[u8])
        ensures
            r@ == self.bytes(),
    {
        self.data.as_slice()
    }

    /// Read a range of bytes from ROM at the given offset
    pub fn read_range(&self, offset: usize, size: usize) -> (r: Result<Vec<u8>, Error>)
        requires
            offset + size <= usize::MAX,
        ensures
            offset + size <= self.bytes().len() ==> (r matches Ok(v) && v@ == self.bytes().subrange(offset as int, offset + size)),
            offset + size > self.bytes().len() ==> r == Err::<Vec<u8>, Error>(Error::RomRangeOutOfBounds {
                offset,
                size,
                rom_size: self.bytes().len() as usize,
            }),
    {
        if offset + size <= self.data.len() {
            let end = offset + size;
            let mut v: Vec<u8> = Vec::new();
            let mut i: usize = offset;
            while i < end
                invariant
                    end == offset + size,
                    offset <= i <= end <= self.data@.len(),
                    v@ == self.data@.subrange(offset as int, i as int),
                decreases end - i,
            {
                v.push(self.data[i]);
                assert(v@ =~= self.data@.subrange(offset as int, i + 1));
                i = i + 1;
            }
            Ok(v)
        } else {
            Err(Error::RomRangeOutOfBounds { offset, size, rom_size: self.data.len() })
        }
    }

    /// The offset within the image of an address in ROM space, if the
    /// image covers it. NewWorld ROMs are not mirrored: they exist only at
    /// their base address.
    pub fn address_to_offset(&self, addr: u32) -> (r: Option<usize>)
        ensures
            r == (if addr >= self.base() && addr - self.base() < self.bytes().len() {
                Some((addr - self.base()) as usize)
            } else {
                None
            }),
    {
        if addr >= self.base_address {
            let offset = (addr - self.base_address) as usize;
            if offset < self.data.len() {
                Some(offset)
            } else {
                None
            }
        } else {
            None
        }
    }

    /// The length of the whitespace character at `p` in the first `end`
    /// bytes of `d`.
    pub(crate) fn ws_len_at(d: &[u8], end: usize, p: usize) -> (r: usize)
        requires
            end <= d@.len(),
        ensures
            r == ws_len(d@.subrange(0, end as int), p as int),
    {
        let ghost b = d@.subrange(0, end as int);
        if p >= end {
            return 0;
        }
        let c = d[p];
        if (9 <= c && c <= 13) || c == 32 {
            return 1;
        }
        if end - p >= 2 && c == 0xC2 && (d[p + 1] == 0x85 || d[p + 1] == 0xA0) {
            return 2;
        }
        if end - p >= 3 {
            let c1 = d[p + 1];
            let c2 = d[p + 2];
            if (c == 0xE1 && c1 == 0x9A && c2 == 0x80) || (c == 0xE2 && c1 == 0x80 && ((0x80 <= c2 && c2 <= 0x8A)
                || c2 == 0xA8 || c2 == 0xA9 || c2 == 0xAF)) || (c == 0xE2 && c1 == 0x81 && c2 == 0x9F) || (c
                == 0xE3 && c1 == 0x80 && c2 == 0x80) {
                return 3;
            }
        }
        0
    }

    /// Find a constant value in the CHRP boot script.
    /// Format: "h# XXXXXX constant name"
    fn find_boot_constant(script: &[u8], name: &[u8]) -> (r: Option<usize>)
        ensures
            r matches Some(v) ==> spec_boot_constant(script@, name@) == Some(v as int),
            r is None ==> spec_boot_constant(script@, name@) is None,
    {
        let mut pattern: Vec<u8> = Vec::new();
        pattern.push(0x63);
        pattern.push(0x6F);
        pattern.push(0x6E);
        pattern.push(0x73);
        pattern.push(0x74);
        pattern.push(0x61);
        pattern.push(0x6E);
        pattern.push(0x74);
        pattern.push(0x20);
        let mut i: usize = 0;
        while i < name.len()
            invariant
                i <= name@.len(),
                pattern@ == constant_word() + name@.subrange(0, i as int),
            decreases name@.len() - i,
        {
            pattern.push(name[i]);
            assert(pattern@ =~= constant_word() + name@.subrange(0, i + 1));
            i = i + 1;
        }
        assert(name@.subrange(0, name@.len() as int) =~= name@);
        let pos = match find_bytes(script, pattern.as_slice(), 0) {
            Some(p) => p,
            None => return None,
        };
        proof {
            lemma_find_from(script@, pattern@, 0);
        }
        let ghost before = script@.subrange(0, pos as int);
        let h: [u8; 3] = [0x68, 0x23, 0x20];
        assert(h@ == hex_prefix());
        let hex_start = match rfind_bytes(script, &h, pos) {
            Some(q) => q,
            None => {
                proof {
                    crate::bytes::lemma_rfind_from(script@, hex_prefix(), pos - 3);
                    crate::bytes::lemma_rfind_from(before, hex_prefix(), pos - 3);
                    assert forall|k: int| k <= pos - 3 implies !#[trigger] matches_at(before, hex_prefix(), k) by {
                        if matches_at(before, hex_prefix(), k) {
                            assert(before.subrange(k, k + 3) =~= script@.subrange(k, k + 3));
                            assert(matches_at(script@, hex_prefix(), k));
                        }
                    }
                }
                return None;
            },
        };
        proof {
            crate::bytes::lemma_rfind_from(script@, hex_prefix(), pos - 3);
            crate::bytes::lemma_rfind_from(before, hex_prefix(), pos - 3);
            assert forall|k: int| k <= pos - 3 implies #[trigger] matches_at(before, hex_prefix(), k) == matches_at(script@, hex_prefix(), k) by {
                if 0 <= k && k + 3 <= pos {
                    assert(before.subrange(k, k + 3) =~= script@.subrange(k, k + 3));
                }
            }
            assert(matches_at(before, hex_prefix(), hex_start as int) == matches_at(script@, hex_prefix(), hex_start as int));
            match rfind_from(before, hex_prefix(), pos - 3) {
                Some(q) => {
                    assert(matches_at(before, hex_prefix(), q) == matches_at(script@, hex_prefix(), q));
                },
                None => {},
            }
            assert(rfind_from(before, hex_prefix(), pos - 3) == Some(hex_start as int));
        }
        let mut p: usize = hex_start + 3;
        while p < pos && Self::ws_len_at(script, pos, p) > 0
            invariant
                hex_start + 3 <= p <= pos <= script@.len(),
                before == script@.subrange(0, pos as int),
                skip_ws(before, p as int) == skip_ws(before, hex_start + 3),
            decreases pos - p,
        {
            let w = Self::ws_len_at(script, pos, p);
            p = p + w;
        }
        let start = p;
        let mut value: usize = 0;
        let mut q: usize = start;
        let mut overflow = false;
        while q < pos && (is_hex_byte(script[q]))
            invariant
                start <= q <= pos <= script@.len(),
                before == script@.subrange(0, pos as int),
                hex_run_end(before, q as int) == hex_run_end(before, start as int),
                forall|k: int| start <= k < q ==> is_hex_digit(#[trigger] before[k]),
                !overflow ==> value == hex_value(before, start as int, q as int),
                overflow ==> hex_value(before, start as int, q as int) > usize::MAX,
            decreases pos - q,
        {
            let digit = hex_byte_value(script[q]);
            proof {
                assert(before[q as int] == script@[q as int]);
            }
            if !overflow {
                match value.checked_mul(16) {
                    Some(m) => match m.checked_add(digit as usize) {
                        Some(v) => {
                            value = v;
                        },
                        None => {
                            overflow = true;
                        },
                    },
                    None => {
                        overflow = true;
                    },
                }
            } else {
                proof {
                    lemma_hex_value_mono(before, start as int, q as int, q as int);
                }
            }
            q = q + 1;
        }
        proof {
            assert(q as int == hex_run_end(before, start as int));
            if overflow {
                lemma_hex_value_mono(before, start as int, q as int, q as int);
            }
        }
        if q == start || overflow {
            None
        } else {
            Some(value)
        }
    }

    /// Decode parcels format ROM (Mac OS 9.x): the decompressed contents of
    /// the 'rom ' parcel.
    fn decode_parcels(data: &[u8]) -> (r: Result<Vec<u8>, Error>)
        requires
            parcel_chain_ends(data@),
        ensures
            r matches Ok(v) ==> spec_parcels_rom(data@) == Some(v@),
            r matches Err(e) ==> (e matches Error::Other(m) && m@ == "No 'rom ' parcel found in ROM"@)
                && spec_parcels_rom(data@) is None,
    {
        let found = find_rom_parcel(data);
        let result = match found {
            Some((a, b)) => {
                let sub = copy_range(data, a, b);
                Self::decode_lzss(sub.as_slice())
            },
            None => Vec::new(),
        };
        if result.len() == 0 {
            return Err(Error::Other("No 'rom ' parcel found in ROM".to_owned()));
        }
        Ok(result)
    }

    /// Decode a NewWorld ROM image: find the compressed ROM through the
    /// boot script's offset and size constants, and decompress it from its
    /// parcel container or as plain LZSS.
    #[verifier::rlimit(40)]
    #[verifier::spinoff_prover]
    fn decode_newworld_rom(data: &[u8]) -> (r: Result<Vec<u8>, Error>)
        requires
            newworld_decode_terminates(data@),
        ensures
            r matches Ok(v) ==> spec_decode_newworld(data@) == Ok::<Seq<u8>, Seq<char>>(v@),
            r matches Err(e) ==> (e matches Error::Other(m) && spec_decode_newworld(data@) == Err::<Seq<u8>, Seq<char>>(m@)),
    {
        let lzss_offset_name: [u8; 11] = [0x6C, 0x7A, 0x73, 0x73, 0x2D, 0x6F, 0x66, 0x66, 0x73, 0x65, 0x74];
        let parcels_offset_name: [u8; 14] = [0x70, 0x61, 0x72, 0x63, 0x65, 0x6C, 0x73, 0x2D, 0x6F, 0x66, 0x66, 0x73, 0x65, 0x74];
        let lzss_size_name: [u8; 9] = [0x6C, 0x7A, 0x73, 0x73, 0x2D, 0x73, 0x69, 0x7A, 0x65];
        let parcels_size_name: [u8; 12] = [0x70, 0x61, 0x72, 0x63, 0x65, 0x6C, 0x73, 0x2D, 0x73, 0x69, 0x7A, 0x65];
        assert(lzss_offset_name@ == lzss_offset_word());
        assert(parcels_offset_name@ == parcels_offset_word());
        assert(lzss_size_name@ == lzss_size_word());
        assert(parcels_size_name@ == parcels_size_word());
        let lzss_offset = match Self::find_boot_constant(data, &lzss_offset_name) {
            Some(v) => v,
            None => match Self::find_boot_constant(data, &parcels_offset_name) {
                Some(v) => v,
                None => return Err(Error::Other("Could not find lzss-offset in NewWorld ROM".to_owned())),
            },
        };
        let lzss_size = match Self::find_boot_constant(data, &lzss_size_name) {
            Some(v) => v,
            None => match Self::find_boot_constant(data, &parcels_size_name) {
                Some(v) => v,
                None => return Err(Error::Other("Could not find lzss-size in NewWorld ROM".to_owned())),
            },
        };
        if lzss_offset + lzss_size > data.len() {
            return Err(Error::Other("Invalid LZSS offset/size in ROM".to_owned()));
        }
        let end = lzss_offset + lzss_size;
        if data.len() - lzss_offset >= 4 && data[lzss_offset] == 0x70 && data[lzss_offset + 1] == 0x72
            && data[lzss_offset + 2] == 0x63 && data[lzss_offset + 3] == 0x6C {
            assert(data@.subrange(lzss_offset as int, lzss_offset + 4) =~= prcl_magic());
            let sub = copy_range(data, lzss_offset, end);
            return Self::decode_parcels(sub.as_slice());
        }
        proof {
            if lzss_offset + 4 <= data@.len() && data@.subrange(lzss_offset as int, lzss_offset + 4) == prcl_magic() {
                assert(data@.subrange(lzss_offset as int, lzss_offset + 4)[0] == data@[lzss_offset as int]);
                assert(data@.subrange(lzss_offset as int, lzss_offset + 4)[1] == data@[lzss_offset + 1]);
                assert(data@.subrange(lzss_offset as int, lzss_offset + 4)[2] == data@[lzss_offset + 2]);
                assert(data@.subrange(lzss_offset as int, lzss_offset + 4)[3] == data@[lzss_offset + 3]);
            }
        }
        let sub = copy_range(data, lzss_offset, end);
        Ok(Self::decode_lzss(sub.as_slice()))
    }

    /// Decode LZSS compressed data (used in NewWorld ROMs).
    fn decode_lzss(src: &[u8]) -> (r: Vec<u8>)
        ensures
            r@ == spec_decode_rom_lzss(src@),
    {
        decode_rom_lzss(src)
    }
}

} // verus!
