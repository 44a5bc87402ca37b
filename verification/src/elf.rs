//! ELF file parser and loader for 32-bit big-endian PowerPC executables.
//!
//! The Mac OS NewWorld ROM contains an ELF executable that serves as the
//! bootloader/nanokernel.
use vstd::prelude::*;
use crate::bytes::{be16, be32, read_be16, read_be32};
use crate::error::Error;
use crate::text::{dec_chars, decimal};
use vstd::string::StringExecFns;

verus! {

/// ELF file class
#[derive(Debug, Clone, Copy, PartialEq, Eq, Structural)]
pub enum ElfClass {
    Elf32,
    Elf64,
}

/// ELF data encoding
#[derive(Debug, Clone, Copy, PartialEq, Eq, Structural)]
pub enum ElfData {
    LittleEndian,
    BigEndian,
}

/// ELF file type
#[derive(Debug, Clone, Copy, PartialEq, Eq, Structural)]
pub enum ElfType {
    Unspecified,
    Rel,
    Exec,
    Dyn,
    Core,
}

/// ELF machine architecture
#[derive(Debug, Clone, Copy, PartialEq, Eq, Structural)]
pub enum ElfMachine {
    Unspecified,
    PowerPC,
    PowerPC64,
}

/// Program header type
#[derive(Debug, Clone, Copy, PartialEq, Eq, Structural)]
pub enum PhType {
    Null,
    Load,
    Dynamic,
    Interp,
    Note,
    Shlib,
    Phdr,
}

/// Why an ELF image was refused.
#[derive(Debug, Clone, Copy, PartialEq, Eq, Structural)]
pub enum ElfError {
    /// Fewer bytes than a 32-bit ELF header.
    TooSmall,
    /// The magic number is missing.
    NotElf,
    /// The class byte is neither 32- nor 64-bit.
    InvalidClass,
    /// The data-encoding byte is neither little- nor big-endian.
    InvalidEncoding,
    /// A 64-bit image.
    Not32Bit,
    /// A little-endian image.
    NotBigEndian,
    /// The file type field holds an unknown value.
    UnknownType(u16),
    /// The machine field holds an unknown value.
    UnsupportedMachine(u16),
    /// The machine is known but is not 32-bit PowerPC.
    NotPowerPC,
    /// No program header loads anything.
    NoLoadableSegments,
    /// A segment's file bytes lie past the end of the image.
    SegmentBeyondFile,
    /// A segment's file bytes do not fit in the memory it occupies.
    SegmentTooLarge,
}

/// The text that describes an ELF error.
pub open spec fn elf_error_text(e: ElfError) -> Seq<char> {
    match e {
        ElfError::TooSmall => "File too small for ELF header"@,
        ElfError::NotElf => "Not an ELF file"@,
        ElfError::InvalidClass => "Invalid ELF class"@,
        ElfError::InvalidEncoding => "Invalid ELF data encoding"@,
        ElfError::Not32Bit => "Only 32-bit ELF supported"@,
        ElfError::NotBigEndian => "Only big-endian ELF supported"@,
        ElfError::UnknownType(t) => "Unknown ELF type: "@ + dec_chars(t as nat),
        ElfError::UnsupportedMachine(m) => "Unsupported architecture: "@ + dec_chars(m as nat),
        ElfError::NotPowerPC => "Only PowerPC ELF supported"@,
        ElfError::NoLoadableSegments => "No loadable segments found"@,
        ElfError::SegmentBeyondFile => "Segment data beyond file bounds"@,
        ElfError::SegmentTooLarge => "Segment too large for allocated memory"@,
    }
}

impl ElfError {
    /// The text that describes the error.
    pub fn message(&self) -> (r: String)
        ensures
            r@ == elf_error_text(*self),
    {
        match self {
            ElfError::TooSmall => String::from_str("File too small for ELF header"),
            ElfError::NotElf => String::from_str("Not an ELF file"),
            ElfError::InvalidClass => String::from_str("Invalid ELF class"),
            ElfError::InvalidEncoding => String::from_str("Invalid ELF data encoding"),
            ElfError::Not32Bit => String::from_str("Only 32-bit ELF supported"),
            ElfError::NotBigEndian => String::from_str("Only big-endian ELF supported"),
            ElfError::UnknownType(t) => {
                let mut m = String::from_str("Unknown ELF type: ");
                m.append(decimal(*t as u64).as_str());
                m
            },
            ElfError::UnsupportedMachine(a) => {
                let mut m = String::from_str("Unsupported architecture: ");
                m.append(decimal(*a as u64).as_str());
                m
            },
            ElfError::NotPowerPC => String::from_str("Only PowerPC ELF supported"),
            ElfError::NoLoadableSegments => String::from_str("No loadable segments found"),
            ElfError::SegmentBeyondFile => String::from_str("Segment data beyond file bounds"),
            ElfError::SegmentTooLarge => String::from_str("Segment too large for allocated memory"),
        }
    }

    /// The error as the emulator reports it.
    pub fn to_error(&self) -> (r: Error)
        ensures
            r matches Error::Other(m) && m@ == elf_error_text(*self),
    {
        Error::Other(self.message())
    }
}

/// ELF file header (32-bit)
#[derive(Debug, Clone, PartialEq, Eq, Structural)]
pub struct ElfHeader {
    pub class: ElfClass,
    pub data: ElfData,
    pub version: u8,
    pub osabi: u8,
    pub abi_version: u8,
    pub file_type: ElfType,
    pub machine: ElfMachine,
    pub entry: u32,
    pub phoff: u32,
    pub shoff: u32,
    pub flags: u32,
    pub ehsize: u16,
    pub phentsize: u16,
    pub phnum: u16,
    pub shentsize: u16,
    pub shnum: u16,
    pub shstrndx: u16,
}

/// Program header (32-bit)
#[derive(Debug, Clone, Copy, PartialEq, Eq, Structural)]
pub struct ProgramHeader {
    pub p_type: u32,
    pub offset: u32,
    pub vaddr: u32,
    pub paddr: u32,
    pub filesz: u32,
    pub memsz: u32,
    pub flags: u32,
    pub align: u32,
}

/// Parsed ELF file
#[derive(Debug)]
pub struct ElfFile {
    pub header: ElfHeader,
    pub program_headers: Vec<ProgramHeader>,
    pub data: Vec<u8>,
}

/// Size of a 32-bit ELF header.
pub const ELF_HEADER_SIZE: usize = 52;

/// Size of a 32-bit program header.
pub const PROGRAM_HEADER_SIZE: usize = 32;

/// The ELF magic number.
pub open spec fn elf_magic() -> Seq<u8> {
    seq![0x7Fu8, 0x45u8, 0x4Cu8, 0x46u8]
}

/// The file type a header code names, if any.
pub open spec fn elf_type_of(code: int) -> Option<ElfType> {
    if code == 0 {
        Some(ElfType::Unspecified)
    } else if code == 1 {
        Some(ElfType::Rel)
    } else if code == 2 {
        Some(ElfType::Exec)
    } else if code == 3 {
        Some(ElfType::Dyn)
    } else if code == 4 {
        Some(ElfType::Core)
    } else {
        None
    }
}

/// The machine a header code names, if any.
pub open spec fn elf_machine_of(code: int) -> Option<ElfMachine> {
    if code == 0 {
        Some(ElfMachine::Unspecified)
    } else if code == 20 {
        Some(ElfMachine::PowerPC)
    } else if code == 21 {
        Some(ElfMachine::PowerPC64)
    } else {
        None
    }
}

/// The header of a 32-bit big-endian PowerPC image, or why there is none.
pub open spec fn spec_parse_header(d: Seq<u8>) -> Result<ElfHeader, ElfError> {
    if d.len() < 52 {
        Err(ElfError::TooSmall)
    } else if d.subrange(0, 4) != elf_magic() {
        Err(ElfError::NotElf)
    } else if d[4] != 1 && d[4] != 2 {
        Err(ElfError::InvalidClass)
    } else if d[5] != 1 && d[5] != 2 {
        Err(ElfError::InvalidEncoding)
    } else if d[4] != 1 {
        Err(ElfError::Not32Bit)
    } else if d[5] != 2 {
        Err(ElfError::NotBigEndian)
    } else if elf_type_of(be16(d, 16)) is None {
        Err(ElfError::UnknownType(be16(d, 16) as u16))
    } else if elf_machine_of(be16(d, 18)) is None {
        Err(ElfError::UnsupportedMachine(be16(d, 18) as u16))
    } else if be16(d, 18) != 20 {
        Err(ElfError::NotPowerPC)
    } else {
        Ok(ElfHeader {
            class: ElfClass::Elf32,
            data: ElfData::BigEndian,
            version: d[6],
            osabi: d[7],
            abi_version: d[8],
            file_type: elf_type_of(be16(d, 16))->0,
            machine: ElfMachine::PowerPC,
            entry: be32(d, 24) as u32,
            phoff: be32(d, 28) as u32,
            shoff: be32(d, 32) as u32,
            flags: be32(d, 36) as u32,
            ehsize: be16(d, 40) as u16,
            phentsize: be16(d, 42) as u16,
            phnum: be16(d, 44) as u16,
            shentsize: be16(d, 46) as u16,
            shnum: be16(d, 48) as u16,
            shstrndx: be16(d, 50) as u16,
        })
    }
}

/// The program header stored at byte `o`.
pub open spec fn program_header_at(d: Seq<u8>, o: int) -> ProgramHeader {
    ProgramHeader {
        p_type: be32(d, o) as u32,
        offset: be32(d, o + 4) as u32,
        vaddr: be32(d, o + 8) as u32,
        paddr: be32(d, o + 12) as u32,
        filesz: be32(d, o + 16) as u32,
        memsz: be32(d, o + 20) as u32,
        flags: be32(d, o + 24) as u32,
        align: be32(d, o + 28) as u32,
    }
}

/// Whether program header `i` lies wholly within `len` bytes.
pub open spec fn ph_fits(len: int, phoff: int, entsize: int, i: int) -> bool {
    phoff + i * entsize + 32 <= len
}

/// How many of the first `n` program headers are read: they are read in
/// order until one does not fit in the image.
pub open spec fn ph_count(len: int, phoff: int, entsize: int, n: nat) -> nat
    decreases n,
{
    if n == 0 {
        0
    } else {
        let c = ph_count(len, phoff, entsize, (n - 1) as nat);
        if c == n - 1 && ph_fits(len, phoff, entsize, n - 1) {
            n
        } else {
            c
        }
    }
}

/// The program headers of an image with the given header fields.
pub open spec fn spec_program_headers(d: Seq<u8>, phoff: u32, entsize: u16, phnum: u16) -> Seq<ProgramHeader> {
    if phoff == 0 || phnum == 0 {
        Seq::empty()
    } else {
        Seq::new(
            ph_count(d.len() as int, phoff as int, entsize as int, phnum as nat),
            |i: int| program_header_at(d, phoff + i * entsize),
        )
    }
}

/// Once a program header does not fit, no later one is read.
proof fn lemma_ph_count_stops(len: int, phoff: int, entsize: int, i: nat, n: nat)
    requires
        ph_count(len, phoff, entsize, i) == i,
        !ph_fits(len, phoff, entsize, i as int),
        i < n,
    ensures
        ph_count(len, phoff, entsize, n) == i,
    decreases n,
{
    if n > i + 1 {
        lemma_ph_count_stops(len, phoff, entsize, i, (n - 1) as nat);
    }
}


/// Whether a program header loads bytes into memory.
pub open spec fn is_loadable(ph: ProgramHeader) -> bool {
    ph.p_type == 1 && ph.memsz > 0
}

/// The lowest address a loadable segment starts at (`u32::MAX` when none does).
pub open spec fn load_min(phs: Seq<ProgramHeader>) -> int
    decreases phs.len(),
{
    if phs.len() == 0 {
        u32::MAX as int
    } else {
        let m = load_min(phs.drop_last());
        if is_loadable(phs.last()) && phs.last().vaddr < m {
            phs.last().vaddr as int
        } else {
            m
        }
    }
}

/// The highest address a loadable segment ends at (0 when none does).
pub open spec fn load_max(phs: Seq<ProgramHeader>) -> int
    decreases phs.len(),
{
    if phs.len() == 0 {
        0
    } else {
        let m = load_max(phs.drop_last());
        if is_loadable(phs.last()) && phs.last().vaddr + phs.last().memsz > m {
            phs.last().vaddr + phs.last().memsz
        } else {
            m
        }
    }
}

/// `n` zero bytes.
pub open spec fn zeros(n: nat) -> Seq<u8> {
    Seq::new(n, |j: int| 0u8)
}

/// `mem` with the bytes from `lo` on replaced by `src`.
pub open spec fn overwrite(mem: Seq<u8>, lo: int, src: Seq<u8>) -> Seq<u8> {
    Seq::new(mem.len(), |j: int| if lo <= j < lo + src.len() { src[j - lo] } else { mem[j] })
}

/// `mem` with the bytes in `[lo, hi)` set to zero.
pub open spec fn zeroed(mem: Seq<u8>, lo: int, hi: int) -> Seq<u8> {
    Seq::new(mem.len(), |j: int| if lo <= j < hi { 0u8 } else { mem[j] })
}

/// The memory image after loading one segment into `mem`, which starts at
/// address `base`.
pub open spec fn apply_segment(mem: Seq<u8>, file: Seq<u8>, ph: ProgramHeader, base: int) -> Result<Seq<u8>, ElfError> {
    if !is_loadable(ph) {
        Ok(mem)
    } else {
        let mo = ph.vaddr - base;
        let copied = if ph.filesz > 0 {
            if ph.offset + ph.filesz > file.len() {
                Err(ElfError::SegmentBeyondFile)
            } else if mo + ph.filesz > mem.len() {
                Err(ElfError::SegmentTooLarge)
            } else {
                Ok(overwrite(mem, mo, file.subrange(ph.offset as int, ph.offset + ph.filesz)))
            }
        } else {
            Ok(mem)
        };
        match copied {
            Err(e) => Err(e),
            Ok(m) => if ph.memsz > ph.filesz {
                Ok(zeroed(m, mo + ph.filesz, mo + ph.memsz))
            } else {
                Ok(m)
            },
        }
    }
}

/// The memory image after loading the first `k` segments in order.
pub open spec fn load_segments(phs: Seq<ProgramHeader>, file: Seq<u8>, base: int, mem: Seq<u8>, k: nat) -> Result<Seq<u8>, ElfError>
    decreases k,
{
    if k == 0 {
        Ok(mem)
    } else {
        match load_segments(phs, file, base, mem, (k - 1) as nat) {
            Err(e) => Err(e),
            Ok(m) => apply_segment(m, file, phs[k - 1], base),
        }
    }
}

/// The memory image, its load address and the entry point, or why the
/// image cannot be loaded.
pub open spec fn spec_load_to_memory(phs: Seq<ProgramHeader>, file: Seq<u8>, entry: u32) -> Result<(Seq<u8>, u32, u32), ElfError> {
    let lo = load_min(phs);
    let hi = load_max(phs);
    if lo == u32::MAX {
        Err(ElfError::NoLoadableSegments)
    } else {
        match load_segments(phs, file, lo, zeros((hi - lo) as nat), phs.len()) {
            Err(e) => Err(e),
            Ok(m) => Ok((m, lo as u32, entry)),
        }
    }
}

/// No loadable segment ends past the top of the address space.
pub open spec fn segments_in_range(phs: Seq<ProgramHeader>) -> bool {
    forall|i: int| 0 <= i < phs.len() && is_loadable(#[trigger] phs[i]) ==> phs[i].vaddr + phs[i].memsz <= u32::MAX
}

/// Once loading fails, it fails with the same error whatever follows.
proof fn lemma_load_err_persists(phs: Seq<ProgramHeader>, file: Seq<u8>, base: int, mem: Seq<u8>, k: nat, n: nat)
    requires
        k <= n,
        load_segments(phs, file, base, mem, k) is Err,
    ensures
        load_segments(phs, file, base, mem, n) == load_segments(phs, file, base, mem, k),
    decreases n,
{
    if n > k {
        lemma_load_err_persists(phs, file, base, mem, k, (n - 1) as nat);
    }
}

/// The bounds of the loadable segments.
proof fn lemma_load_bounds(phs: Seq<ProgramHeader>)
    requires
        segments_in_range(phs),
    ensures
        0 <= load_max(phs) <= u32::MAX,
        0 <= load_min(phs) <= u32::MAX,
        load_min(phs) == u32::MAX ==> forall|i: int| 0 <= i < phs.len() ==> !is_loadable(#[trigger] phs[i]),
        load_min(phs) < u32::MAX ==> load_min(phs) <= load_max(phs),
        forall|i: int| 0 <= i < phs.len() && is_loadable(#[trigger] phs[i])
            ==> load_min(phs) <= phs[i].vaddr && phs[i].vaddr + phs[i].memsz <= load_max(phs),
    decreases phs.len(),
{
    if phs.len() > 0 {
        let p = phs.drop_last();
        assert forall|i: int| 0 <= i < p.len() && is_loadable(#[trigger] p[i]) implies p[i].vaddr + p[i].memsz <= u32::MAX by {
            assert(p[i] == phs[i]);
        }
        lemma_load_bounds(p);
        assert forall|i: int| 0 <= i < phs.len() && is_loadable(#[trigger] phs[i]) implies
            load_min(phs) <= phs[i].vaddr && phs[i].vaddr + phs[i].memsz <= load_max(phs) by {
            if i < p.len() {
                assert(p[i] == phs[i]);
            }
        }
        assert forall|i: int| 0 <= i < phs.len() && load_min(phs) == u32::MAX implies !is_loadable(#[trigger] phs[i]) by {
            if i < p.len() {
                assert(p[i] == phs[i]);
            } else {
                assert(phs[i] == phs.last());
            }
        }
    }
}

impl ElfFile {
    /// The bytes the image was parsed from.
    pub open spec fn bytes(self) -> Seq<u8> {
        self.data@
    }

    /// Parse an ELF file from bytes
    pub fn parse(data: Vec<u8>) -> (r: Result<Self, ElfError>)
        ensures
            r matches Ok(elf) ==> {
                &&& spec_parse_header(data@) == Ok::<ElfHeader, ElfError>(elf.header)
                &&& elf.program_headers@ == spec_program_headers(data@, elf.header.phoff, elf.header.phentsize, elf.header.phnum)
                &&& elf.bytes() == data@
            },
            r matches Err(e) ==> spec_parse_header(data@) == Err::<ElfHeader, ElfError>(e),
    {
        if data.len() < ELF_HEADER_SIZE {
            return Err(ElfError::TooSmall);
        }
        if !(data[0] == 0x7F && data[1] == 0x45 && data[2] == 0x4C && data[3] == 0x46) {
            proof {
                if data@.subrange(0, 4) == elf_magic() {
                    assert(data@.subrange(0, 4)[0] == data@[0]);
                    assert(data@.subrange(0, 4)[1] == data@[1]);
                    assert(data@.subrange(0, 4)[2] == data@[2]);
                    assert(data@.subrange(0, 4)[3] == data@[3]);
                }
            }
            return Err(ElfError::NotElf);
        }
        assert(data@.subrange(0, 4) =~= elf_magic());
        let class = match data[4] {
            1 => ElfClass::Elf32,
            2 => ElfClass::Elf64,
            _ => return Err(ElfError::InvalidClass),
        };
        let data_encoding = match data[5] {
            1 => ElfData::LittleEndian,
            2 => ElfData::BigEndian,
            _ => return Err(ElfError::InvalidEncoding),
        };
        let version = data[6];
        let osabi = data[7];
        let abi_version = data[8];
        if class != ElfClass::Elf32 {
            return Err(ElfError::Not32Bit);
        }
        if data_encoding != ElfData::BigEndian {
            return Err(ElfError::NotBigEndian);
        }
        let d = data.as_slice();
        let e_type = read_be16(d, 16);
        let e_machine = read_be16(d, 18);
        let e_entry = read_be32(d, 24);
        let e_phoff = read_be32(d, 28);
        let e_shoff = read_be32(d, 32);
        let e_flags = read_be32(d, 36);
        let e_ehsize = read_be16(d, 40);
        let e_phentsize = read_be16(d, 42);
        let e_phnum = read_be16(d, 44);
        let e_shentsize = read_be16(d, 46);
        let e_shnum = read_be16(d, 48);
        let e_shstrndx = read_be16(d, 50);
        let file_type = match e_type {
            0 => ElfType::Unspecified,
            1 => ElfType::Rel,
            2 => ElfType::Exec,
            3 => ElfType::Dyn,
            4 => ElfType::Core,
            _ => return Err(ElfError::UnknownType(e_type)),
        };
        let machine = match e_machine {
            0 => ElfMachine::Unspecified,
            20 => ElfMachine::PowerPC,
            21 => ElfMachine::PowerPC64,
            _ => return Err(ElfError::UnsupportedMachine(e_machine)),
        };
        if machine != ElfMachine::PowerPC {
            return Err(ElfError::NotPowerPC);
        }
        let header = ElfHeader {
            class,
            data: data_encoding,
            version,
            osabi,
            abi_version,
            file_type,
            machine,
            entry: e_entry,
            phoff: e_phoff,
            shoff: e_shoff,
            flags: e_flags,
            ehsize: e_ehsize,
            phentsize: e_phentsize,
            phnum: e_phnum,
            shentsize: e_shentsize,
            shnum: e_shnum,
            shstrndx: e_shstrndx,
        };
        let mut program_headers: Vec<ProgramHeader> = Vec::new();
        if e_phoff > 0 && e_phnum > 0 {
            let ghost len = d@.len() as int;
            let ghost f = |i: int| program_header_at(d@, e_phoff + i * e_phentsize);
            let mut i: u16 = 0;
            while i < e_phnum
                invariant
                    i <= e_phnum,
                    d@ == data@,
                    len == d@.len(),
                    ph_count(len, e_phoff as int, e_phentsize as int, i as nat) == i,
                    program_headers@ == Seq::new(i as nat, f),
                    f == (|i: int| program_header_at(d@, e_phoff + i * e_phentsize)),
                ensures
                    program_headers@ == Seq::new(ph_count(len, e_phoff as int, e_phentsize as int, e_phnum as nat), f),
                decreases e_phnum - i,
            {
                assert((i as u64) * (e_phentsize as u64) <= 0xFFFF * 0xFFFF) by (nonlinear_arith)
                    requires i <= 0xFFFF, e_phentsize <= 0xFFFF;
                let off64: u64 = e_phoff as u64 + (i as u64) * (e_phentsize as u64);
                if off64 + 32 > d.len() as u64 {
                    proof {
                        lemma_ph_count_stops(len, e_phoff as int, e_phentsize as int, i as nat, e_phnum as nat);
                    }
                    break;
                }
                let off = off64 as usize;
                let ph = ProgramHeader {
                    p_type: read_be32(d, off),
                    offset: read_be32(d, off + 4),
                    vaddr: read_be32(d, off + 8),
                    paddr: read_be32(d, off + 12),
                    filesz: read_be32(d, off + 16),
                    memsz: read_be32(d, off + 20),
                    flags: read_be32(d, off + 24),
                    align: read_be32(d, off + 28),
                };
                program_headers.push(ph);
                proof {
                    assert(ph == f(i as int));
                    assert(program_headers@ =~= Seq::new((i + 1) as nat, f));
                }
                i = i + 1;
            }
        }
        proof {
            assert(spec_parse_header(data@) == Ok::<ElfHeader, ElfError>(header));
        }
        Ok(ElfFile { header, program_headers, data })
    }

    /// Load ELF into memory.
    /// Returns (memory_image, load_address, entry_point).
    pub fn load_to_memory(&self) -> (r: Result<(Vec<u8>, u32, u32), ElfError>)
        requires
            segments_in_range(self.program_headers@),
        ensures
            r matches Ok((m, lo, e)) ==> spec_load_to_memory(self.program_headers@, self.bytes(), self.header.entry)
                == Ok::<(Seq<u8>, u32, u32), ElfError>((m@, lo, e)),
            r matches Ok((m, lo, e)) ==> lo + m@.len() <= u32::MAX,
            r matches Err(e) ==> spec_load_to_memory(self.program_headers@, self.bytes(), self.header.entry)
                == Err::<(Seq<u8>, u32, u32), ElfError>(e),
    {
        let phs = &self.program_headers;
        let mut min_addr: u32 = u32::MAX;
        let mut max_addr: u32 = 0;
        let mut i: usize = 0;
        while i < phs.len()
            invariant
                i <= phs@.len(),
                segments_in_range(phs@),
                min_addr == load_min(phs@.take(i as int)),
                max_addr == load_max(phs@.take(i as int)),
            decreases phs@.len() - i,
        {
            let ph = phs[i];
            proof {
                assert(phs@.take(i + 1).drop_last() =~= phs@.take(i as int));
                assert(phs@.take(i + 1).last() == ph);
            }
            if ph.p_type == 1 && ph.memsz > 0 {
                assert(is_loadable(phs@[i as int]));
                if ph.vaddr < min_addr {
                    min_addr = ph.vaddr;
                }
                if ph.vaddr + ph.memsz > max_addr {
                    max_addr = ph.vaddr + ph.memsz;
                }
            }
            i = i + 1;
        }
        assert(phs@.take(phs@.len() as int) =~= phs@);
        if min_addr == u32::MAX {
            return Err(ElfError::NoLoadableSegments);
        }
        proof {
            lemma_load_bounds(phs@);
        }
        let total_size = (max_addr - min_addr) as usize;
        let mut memory: Vec<u8> = Vec::new();
        let mut z: usize = 0;
        while z < total_size
            invariant
                z <= total_size,
                memory@ =~= zeros(z as nat),
            decreases total_size - z,
        {
            memory.push(0u8);
            z = z + 1;
        }
        let ghost mem0 = memory@;
        assert(mem0 == zeros((load_max(phs@) - load_min(phs@)) as nat));
        let file = self.data.as_slice();
        let mut k: usize = 0;
        while k < phs.len()
            invariant
                k <= phs@.len(),
                phs@ == self.program_headers@,
                file@ == self.bytes(),
                segments_in_range(phs@),
                min_addr == load_min(phs@),
                max_addr == load_max(phs@),
                min_addr < u32::MAX,
                min_addr <= max_addr,
                mem0 == zeros((load_max(phs@) - load_min(phs@)) as nat),
                total_size == max_addr - min_addr,
                forall|i: int| 0 <= i < phs@.len() && is_loadable(#[trigger] phs@[i])
                    ==> min_addr <= phs@[i].vaddr && phs@[i].vaddr + phs@[i].memsz <= max_addr,
                memory@.len() == total_size,
                load_segments(phs@, file@, min_addr as int, mem0, k as nat) == Ok::<Seq<u8>, ElfError>(memory@),
            decreases phs@.len() - k,
        {
            let ph = phs[k];
            let ghost before = memory@;
            if ph.p_type == 1 && ph.memsz > 0 {
                assert(is_loadable(phs@[k as int]));
                let mem_offset = (ph.vaddr - min_addr) as usize;
                if ph.filesz > 0 {
                    let file_start = ph.offset as usize;
                    if ph.offset as u64 + ph.filesz as u64 > file.len() as u64 {
                        proof {
                            lemma_load_err_persists(phs@, file@, min_addr as int, mem0, (k + 1) as nat, phs@.len());
                        }
                        return Err(ElfError::SegmentBeyondFile);
                    }
                    let n = ph.filesz as usize;
                    if mem_offset as u64 + ph.filesz as u64 > memory.len() as u64 {
                        proof {
                            lemma_load_err_persists(phs@, file@, min_addr as int, mem0, (k + 1) as nat, phs@.len());
                        }
                        return Err(ElfError::SegmentTooLarge);
                    }
                    let ghost src = file@.subrange(ph.offset as int, ph.offset + ph.filesz);
                    let mut j: usize = 0;
                    while j < n
                        invariant
                            j <= n,
                            n == ph.filesz,
                            file_start == ph.offset,
                            file_start + n <= file.len(),
                            mem_offset + n <= memory.len(),
                            memory@.len() == before.len(),
                            src == file@.subrange(ph.offset as int, ph.offset + ph.filesz),
                            forall|t: int| 0 <= t < memory@.len() ==> #[trigger] memory@[t] == (if mem_offset <= t < mem_offset + j {
                                src[t - mem_offset]
                            } else {
                                before[t]
                            }),
                        decreases n - j,
                    {
                        assert(file_start + j < file@.len());
                        let b = file[file_start + j];
                        memory.set(mem_offset + j, b);
                        j = j + 1;
                    }
                    assert(memory@ =~= overwrite(before, mem_offset as int, src));
                }
                let ghost mid = memory@;
                if ph.memsz > ph.filesz {
                    let zero_start = mem_offset + ph.filesz as usize;
                    let zero_end = mem_offset + ph.memsz as usize;
                    let mut j: usize = zero_start;
                    while j < zero_end
                        invariant
                            zero_start <= j <= zero_end,
                            zero_end <= memory@.len(),
                            memory@.len() == mid.len(),
                            forall|t: int| 0 <= t < memory@.len() ==> #[trigger] memory@[t] == (if zero_start <= t < j {
                                0u8
                            } else {
                                mid[t]
                            }),
                        decreases zero_end - j,
                    {
                        memory.set(j, 0u8);
                        j = j + 1;
                    }
                    assert(memory@ =~= zeroed(mid, zero_start as int, zero_end as int));
                }
            }
            k = k + 1;
        }
        Ok((memory, min_addr, self.header.entry))
    }

    /// Get entry point address
    pub fn entry_point(&self) -> (r: u32)
        ensures
            r == self.header.entry,
    {
        self.header.entry
    }

    /// Get the raw ELF data
    pub fn data(&self) -> (r: &[u8])
        ensures
            r@ == self.bytes(),
    {
        self.data.as_slice()
    }
}


/// The `e_type` code of each ELF file type: 0 none, 1 relocatable, 2
/// executable, 3 shared object, 4 core.
pub open spec fn elf_type_code(t: ElfType) -> int {
    match t {
        ElfType::Unspecified => 0,
        ElfType::Rel => 1,
        ElfType::Exec => 2,
        ElfType::Dyn => 3,
        ElfType::Core => 4,
    }
}

/// A parsed header reports the file type whose ELF code is the big-endian
/// `e_type` halfword at bytes 16-17, the machine PowerPC (`e_machine` 20 at
/// bytes 18-19) and the entry point stored big-endian at bytes 24-27. A
/// 32-bit big-endian PowerPC header of at least 52 bytes whose `e_type` is
/// one of the five known codes always parses, and one with any other
/// `e_type` is refused as an unknown type carrying that code.
pub proof fn law_header_fields(d: Seq<u8>)
    ensures
        spec_parse_header(d) matches Ok(h) ==> {
            &&& d.len() >= 52
            &&& elf_type_code(h.file_type) == d[16] * 256 + d[17]
            &&& d[18] * 256 + d[19] == 20
            &&& h.machine == ElfMachine::PowerPC
            &&& h.entry == d[24] * 0x100_0000 + d[25] * 0x1_0000 + d[26] * 0x100 + d[27]
        },
        (d.len() >= 52 && d[0] == 0x7F && d[1] == 0x45 && d[2] == 0x4C && d[3] == 0x46 && d[4] == 1 && d[5] == 2
            && d[18] == 0 && d[19] == 20) ==> {
            &&& (d[16] * 256 + d[17] <= 4 ==> spec_parse_header(d) is Ok)
            &&& (d[16] * 256 + d[17] > 4 ==> spec_parse_header(d) == Err::<ElfHeader, ElfError>(ElfError::UnknownType((d[16] * 256 + d[17]) as u16)))
        },
{
    if d.len() >= 52 && d[0] == 0x7F && d[1] == 0x45 && d[2] == 0x4C && d[3] == 0x46 {
        assert(d.subrange(0, 4) =~= elf_magic());
    }
}

} // verus!
