//! What the CPU core needs from its surroundings.
use vstd::prelude::*;
use crate::decoder::{decode_instruction, spec_decode_instruction};
use crate::error::Error;
use crate::exceptions::{Exception, exception_taken, take_exception, DSISR_PAGE_FAULT, DSISR_PROTECTION, DSISR_DIRECT_STORE, ISI_PAGE_FAULT, ISI_PROTECTION, ISI_DIRECT_STORE};
use crate::exec_result::ExecResult;
use crate::interpreter::{FloatUnit, Interpreter, execute_with_memory_effect, memory_effect, instruction_links, law_decoded_operands_valid, links};
use crate::text::hex8_chars;
use crate::text::hex8;
use crate::openfirmware::boot_script::{hex_char_value, parse_hex_u32_chars, parse_hex_u32_str};
use crate::registers::{BatEntry, PpcModel, Registers};
use vstd::string::StringExecFns;
use crate::text::{contains_chars, contains_str, dec_chars, decimal, find_str, occurs_at};

verus! {

/// Memory interface for the CPU (virtual addresses).
///
/// This lets the CPU access memory without depending on the memory system
/// itself. All methods take `&self` so that implementations can be shared
/// between threads with interior mutability.
///
/// Each access has a relation naming the results it can give for its
/// address (and value). An implementation that states nothing keeps the
/// default, under which any result is possible; the CPU relies only on what
/// the relation says, and on the access being made at the address and with
/// the value that the instruction computes.
pub trait MemoryInterface {
    /// Whether `r` is a result that reading the byte at `addr` can give.
    open spec fn reads_u8(&self, addr: u32, r: Result<u8, Error>) -> bool {
        true
    }

    /// Whether `r` is a result that reading the halfword at `addr` can give.
    open spec fn reads_u16(&self, addr: u32, r: Result<u16, Error>) -> bool {
        true
    }

    /// Whether `r` is a result that reading the word at `addr` can give.
    open spec fn reads_u32(&self, addr: u32, r: Result<u32, Error>) -> bool {
        true
    }

    /// Whether `r` is a result that reading the doubleword at `addr` can give.
    open spec fn reads_u64(&self, addr: u32, r: Result<u64, Error>) -> bool {
        true
    }

    /// Whether `r` is a result that writing `value` to the byte at `addr`
    /// can give.
    open spec fn writes_u8(&self, addr: u32, value: u8, r: Result<(), Error>) -> bool {
        true
    }

    /// Whether `r` is a result that writing `value` to the halfword at
    /// `addr` can give.
    open spec fn writes_u16(&self, addr: u32, value: u16, r: Result<(), Error>) -> bool {
        true
    }

    /// Whether `r` is a result that writing `value` to the word at `addr`
    /// can give.
    open spec fn writes_u32(&self, addr: u32, value: u32, r: Result<(), Error>) -> bool {
        true
    }

    /// Whether `r` is a result that writing `value` to the doubleword at
    /// `addr` can give.
    open spec fn writes_u64(&self, addr: u32, value: u64, r: Result<(), Error>) -> bool {
        true
    }

    /// Whether `r` is a result that reading the physical word at `paddr`
    /// can give.
    open spec fn reads_u32_phys(&self, paddr: u32, r: Result<u32, Error>) -> bool {
        true
    }

    /// Whether `r` is a result that reading the physical doubleword at
    /// `paddr` can give.
    open spec fn reads_u64_phys(&self, paddr: u32, r: Result<u64, Error>) -> bool {
        true
    }

    fn read_u8(&self, addr: u32) -> (r: Result<u8, Error>)
        ensures
            self.reads_u8(addr, r),
    ;

    fn read_u16(&self, addr: u32) -> (r: Result<u16, Error>)
        ensures
            self.reads_u16(addr, r),
    ;

    fn read_u32(&self, addr: u32) -> (r: Result<u32, Error>)
        ensures
            self.reads_u32(addr, r),
    ;

    fn read_u64(&self, addr: u32) -> (r: Result<u64, Error>)
        ensures
            self.reads_u64(addr, r),
    ;

    fn write_u8(&self, addr: u32, value: u8) -> (r: Result<(), Error>)
        ensures
            self.writes_u8(addr, value, r),
    ;

    fn write_u16(&self, addr: u32, value: u16) -> (r: Result<(), Error>)
        ensures
            self.writes_u16(addr, value, r),
    ;

    fn write_u32(&self, addr: u32, value: u32) -> (r: Result<(), Error>)
        ensures
            self.writes_u32(addr, value, r),
    ;

    fn write_u64(&self, addr: u32, value: u64) -> (r: Result<(), Error>)
        ensures
            self.writes_u64(addr, value, r),
    ;

    /// Physical memory access for the MMU (reading page tables).
    fn read_u32_phys(&self, paddr: u32) -> (r: Result<u32, Error>)
        ensures
            self.reads_u32_phys(paddr, r),
    ;

    fn read_u64_phys(&self, paddr: u32) -> (r: Result<u64, Error>)
        ensures
            self.reads_u64_phys(paddr, r),
    ;
}

/// Execution mode for CPU
#[derive(Debug, Clone, Copy, PartialEq, Eq, Structural)]
pub enum ExecutionMode {
    /// Pure interpreter (slower, always available)
    Interpreter,
    /// JIT compilation (faster, compiles hot code)
    Jit,
    /// Adaptive (starts with interpreter, compiles hot code)
    Adaptive,
}

/// The kind of MMU fault a memory error reports.
#[derive(Debug, Clone, Copy, PartialEq, Eq, Structural)]
pub enum FaultKind {
    PageFault,
    Protection,
    DirectStore,
}

/// The fault a memory error message reports, by the first of "Page fault",
/// "Protection" and "Direct-store" that it contains.
pub open spec fn fault_kind(msg: Seq<char>) -> Option<FaultKind> {
    if contains_chars(msg, "Page fault"@) {
        Some(FaultKind::PageFault)
    } else if contains_chars(msg, "Protection"@) {
        Some(FaultKind::Protection)
    } else if contains_chars(msg, "Direct-store"@) {
        Some(FaultKind::DirectStore)
    } else {
        None
    }
}

/// The fault an error reports: only memory errors can be faults.
pub open spec fn error_fault(e: Error) -> Option<FaultKind> {
    match e {
        Error::Memory(m) => fault_kind(m@),
        _ => None,
    }
}

/// SRR1 status bits of an instruction storage exception for a fault.
pub open spec fn isi_bits(k: FaultKind) -> u32 {
    match k {
        FaultKind::PageFault => ISI_PAGE_FAULT,
        FaultKind::Protection => ISI_PROTECTION,
        FaultKind::DirectStore => ISI_DIRECT_STORE,
    }
}

/// DSISR of a data storage exception for a fault.
pub open spec fn dsisr_bits(k: FaultKind) -> u32 {
    match k {
        FaultKind::PageFault => DSISR_PAGE_FAULT,
        FaultKind::Protection => DSISR_PROTECTION,
        FaultKind::DirectStore => DSISR_DIRECT_STORE,
    }
}

/// The length of the run of hexadecimal digits at the start of `s[p..]`,
/// plus `p`.
pub open spec fn hex_run_end(s: Seq<char>, p: int) -> int
    decreases s.len() - p,
{
    if 0 <= p < s.len() && hex_char_value(s[p]) < 16 {
        hex_run_end(s, p + 1)
    } else {
        p
    }
}

/// The first position of `needle` in `hay`.
pub open spec fn first_occurrence(hay: Seq<char>, needle: Seq<char>) -> int {
    choose|i: int| occurs_at(hay, needle, i) && forall|j: int| 0 <= j < i ==> !occurs_at(hay, needle, j)
}

/// The faulting address a memory error message names: the hexadecimal
/// digits after its first "0x", or 0 when there are none or they do not
/// fit in 32 bits.
pub open spec fn fault_address(msg: Seq<char>) -> u32 {
    if contains_chars(msg, "0x"@) {
        let rest = msg.subrange(first_occurrence(msg, "0x"@) + 2, msg.len() as int);
        match parse_hex_u32_chars(rest.subrange(0, hex_run_end(rest, 0))) {
            Some(v) => v,
            None => 0,
        }
    } else {
        0
    }
}

/// The address named in an error's message.
pub open spec fn error_address(e: Error) -> u32 {
    match e {
        Error::Memory(m) => fault_address(m@),
        _ => 0,
    }
}

/// The registers after the instruction at `pc` completed with `e`: the PC
/// advances past it, stays where a branch put it, or enters the system call
/// or trap exception.
pub open spec fn finish_step(s: Registers, t: Registers, pc: u32, e: ExecResult) -> bool {
    match e {
        ExecResult::Continue | ExecResult::BranchNotTaken => t == (Registers { pc: pc.wrapping_add(4), ..s }),
        ExecResult::BranchTaken => t == s,
        ExecResult::Syscall => exception_taken(s, t, Exception::SystemCall, pc.wrapping_add(4)),
        ExecResult::Trap => exception_taken(s, t, Exception::Program { trap: true }, pc.wrapping_add(4)),
    }
}

/// One interpreter step from `s` to `t` with result `r`, given what the
/// instruction fetch gave (`fetch`) and, after a successful fetch, the
/// registers (`mid`) and result (`x`) of executing the decoded word. A
/// fetch fault enters the instruction storage exception, an access fault
/// the data storage exception; other errors are returned.
pub open spec fn step_outcome(s: Registers, t: Registers, fetch: Result<u32, Error>, mid: Registers,
    x: Result<ExecResult, Error>, r: Result<(), Error>) -> bool {
    match fetch {
        Err(e) => match error_fault(e) {
            Some(k) => r is Ok && exception_taken(s, t, Exception::InstructionStorage { srr1_bits: isi_bits(k) }, s.pc),
            None => r == Err::<(), Error>(e) && t == s,
        },
        Ok(w) => if links(spec_decode_instruction(w)) && s.pc > u32::MAX - 4 {
            t == s && (r matches Err(Error::Cpu(m)) && m@ == link_wrap_message(s.pc))
        } else {
            execute_with_memory_effect(s, mid, spec_decode_instruction(w), x) && match x {
            Ok(er) => r is Ok && finish_step(mid, t, s.pc, er),
            Err(e) => match error_fault(e) {
                Some(k) => r is Ok && exception_taken(mid, t,
                    Exception::DataStorage { dar: error_address(e), dsisr: dsisr_bits(k) }, s.pc.wrapping_add(4)),
                None => r == Err::<(), Error>(e) && t == mid,
            },
        }},
    }
}

/// The memory accesses of a step: after a successful fetch of an
/// instruction that is executed, those of the instruction (`memory_effect`)
/// from `s` to the registers `mid` it leaves, with result `x`.
pub open spec fn step_accesses<M: MemoryInterface, F: FloatUnit>(
    memory: &M,
    fpu: &F,
    s: Registers,
    fetch: Result<u32, Error>,
    mid: Registers,
    x: Result<ExecResult, Error>,
) -> bool {
    match fetch {
        Ok(w) => !(links(spec_decode_instruction(w)) && s.pc > u32::MAX - 4) ==> memory_effect(
            memory,
            fpu,
            s,
            mid,
            spec_decode_instruction(w),
            x,
        ),
        Err(_) => true,
    }
}

/// The error for a linking branch in the last word of the address space,
/// whose return address would not fit.
pub open spec fn link_wrap_message(pc: u32) -> Seq<char> {
    "Branch and link at 0x"@ + hex8_chars(pc) + " has no room for its return address"@
}

proof fn lemma_first_occurrence(hay: Seq<char>, needle: Seq<char>, i: int)
    requires
        occurs_at(hay, needle, i),
        forall|j: int| 0 <= j < i ==> !occurs_at(hay, needle, j),
    ensures
        first_occurrence(hay, needle) == i,
{
    let c = first_occurrence(hay, needle);
    assert(occurs_at(hay, needle, c) && forall|j: int| 0 <= j < c ==> !occurs_at(hay, needle, j));
    if c < i {
        assert(!occurs_at(hay, needle, c));
    } else if c > i {
        assert(!occurs_at(hay, needle, i));
    }
}

/// Whether `c` is an ASCII hexadecimal digit.
fn is_hex_digit(c: char) -> (r: bool)
    ensures
        r == (hex_char_value(c) < 16),
{
    ('0' <= c && c <= '9') || ('a' <= c && c <= 'f') || ('A' <= c && c <= 'F')
}

/// Which fault a memory error message reports.
fn classify_fault(msg: &str) -> (r: Option<FaultKind>)
    ensures
        r == fault_kind(msg@),
{
    if contains_str(msg, "Page fault") {
        Some(FaultKind::PageFault)
    } else if contains_str(msg, "Protection") {
        Some(FaultKind::Protection)
    } else if contains_str(msg, "Direct-store") {
        Some(FaultKind::DirectStore)
    } else {
        None
    }
}

/// The faulting address named in a memory error message.
fn parse_fault_address(msg: &str) -> (r: u32)
    ensures
        r == fault_address(msg@),
{
    match find_str(msg, "0x") {
        None => 0,
        Some(start) => {
            proof {
                reveal_strlit("0x");
                lemma_first_occurrence(msg@, "0x"@, start as int);
            }
            let len = msg.unicode_len();
            let rest = msg.substring_char(start + 2, len);
            let rest_len = rest.unicode_len();
            let mut end: usize = 0;
            while end < rest_len && is_hex_digit(rest.get_char(end))
                invariant
                    rest_len == rest@.len(),
                    end <= rest_len,
                    hex_run_end(rest@, end as int) == hex_run_end(rest@, 0),
                decreases rest_len - end,
            {
                end = end + 1;
            }
            let digits = rest.substring_char(0, end);
            match parse_hex_u32_str(digits) {
                Some(v) => v,
                None => 0,
            }
        },
    }
}

/// BATU for a block at `vaddr` of length code `bl`, valid in supervisor
/// and/or user mode.
pub open spec fn bat_upper(vaddr: u32, bl: u32, supervisor: bool, user: bool) -> u32 {
    (vaddr & 0xFFFE_0000u32) | (bl << 2u32) | (if supervisor { 2u32 } else { 0u32 }) | (if user { 1u32 } else { 0u32 })
}

/// BATL for a block at `paddr`: cache-inhibited, read/write when
/// `writable`, read-only otherwise.
pub open spec fn bat_lower(paddr: u32, writable: bool) -> u32 {
    (paddr & 0xFFFE_0000u32) | 0x02u32 | (if writable { 2u32 } else { 1u32 })
}

/// The block length code of a BAT of `size` bytes: blocks of 128 KiB,
/// less one.
pub open spec fn bat_length_code(size: u32) -> int {
    size / 131072 - 1
}

/// Why `setup_bat` refuses its arguments, if it does.
pub open spec fn bat_error(index: usize, size: u32) -> Option<Seq<char>> {
    if index >= 4 {
        Some("BAT index "@ + dec_chars(index as nat) + " out of range (0-3)"@)
    } else if bat_length_code(size) < 0 {
        Some("BAT size "@ + dec_chars(size as nat) + " too small (minimum 128KB)"@)
    } else if bat_length_code(size) > 0x7FF {
        Some("BAT size "@ + dec_chars(size as nat) + " too large (maximum 256MB)"@)
    } else {
        None
    }
}

/// PowerPC CPU state and execution
pub struct Cpu {
    /// CPU registers
    pub registers: Registers,
    /// Interpreter for instruction execution
    pub interpreter: Interpreter,
    /// Execution mode
    pub execution_mode: ExecutionMode,
}

impl Cpu {
    /// The execution mode the CPU is in.
    pub open spec fn mode(&self) -> ExecutionMode {
        self.execution_mode
    }

    /// Create a new PowerPC CPU with all registers zero, interpreting.
    pub fn new(model: PpcModel) -> (r: Self)
        ensures
            r.registers.is_zeroed(model),
            r.mode() == ExecutionMode::Interpreter,
    {
        Cpu { registers: Registers::new(model), interpreter: Interpreter::new(), execution_mode: ExecutionMode::Interpreter }
    }

    /// Execute a single instruction with memory access.
    pub fn step<M: MemoryInterface, F: FloatUnit>(&mut self, memory: &M, fpu: &F) -> (r: Result<(), Error>)
        ensures
            exists|fetch: Result<u32, Error>, mid: Registers, x: Result<ExecResult, Error>|
                memory.reads_u32(old(self).registers.pc, fetch)
                && #[trigger] step_outcome(old(self).registers, final(self).registers, fetch, mid, x, r)
                && step_accesses(memory, fpu, old(self).registers, fetch, mid, x),
            final(self).mode() == old(self).mode(),
    {
        self.step_interpreter(memory, fpu)
    }

    /// Fetch, decode and execute the instruction at the PC, then advance
    /// the PC or enter the exception the instruction raised.
    fn step_interpreter<M: MemoryInterface, F: FloatUnit>(&mut self, memory: &M, fpu: &F) -> (r: Result<(), Error>)
        ensures
            exists|fetch: Result<u32, Error>, mid: Registers, x: Result<ExecResult, Error>|
                memory.reads_u32(old(self).registers.pc, fetch)
                && #[trigger] step_outcome(old(self).registers, final(self).registers, fetch, mid, x, r)
                && step_accesses(memory, fpu, old(self).registers, fetch, mid, x),
            final(self).mode() == old(self).mode(),
    {
        let ghost s = self.registers;
        let pc = self.registers.pc;
        let fetched = memory.read_u32(pc);
        let word = match fetched {
            Ok(word) => word,
            Err(e) => {
                let fault = match &e {
                    Error::Memory(msg) => classify_fault(msg.as_str()),
                    _ => None,
                };
                match fault {
                    Some(k) => {
                        let srr1_bits = match k {
                            FaultKind::PageFault => ISI_PAGE_FAULT,
                            FaultKind::Protection => ISI_PROTECTION,
                            FaultKind::DirectStore => ISI_DIRECT_STORE,
                        };
                        let _ = take_exception(&mut self.registers, Exception::InstructionStorage { srr1_bits }, pc);
                        assert(step_outcome(s, self.registers, Err(e), s, Ok(ExecResult::Continue), Ok(())));
                        return Ok(());
                    },
                    None => {
                        assert(step_outcome(s, self.registers, Err(e), s, Ok(ExecResult::Continue), Err(e)));
                        return Err(e);
                    },
                }
            },
        };
        let instr = match decode_instruction(word) {
            Ok(i) => i,
            Err(e) => return Err(e),
        };
        if pc > u32::MAX - 4 && instruction_links(&instr) {
            let mut m = String::from_str("Branch and link at 0x");
            m.append(hex8(pc).as_str());
            m.append(" has no room for its return address");
            let e = Error::Cpu(m);
            assert(step_outcome(s, self.registers, Ok(word), s, Ok(ExecResult::Continue), Err(e)));
            return Err(e);
        }
        proof {
            law_decoded_operands_valid(word, pc);
        }
        let executed = self.interpreter.execute_with_memory(instr, &mut self.registers, memory, fpu);
        let ghost mid = self.registers;
        match executed {
            Ok(result) => {
                match result {
                    ExecResult::Continue | ExecResult::BranchNotTaken => {
                        self.registers.pc = pc.wrapping_add(4);
                    },
                    ExecResult::BranchTaken => {},
                    ExecResult::Syscall => {
                        let _ = take_exception(&mut self.registers, Exception::SystemCall, pc.wrapping_add(4));
                    },
                    ExecResult::Trap => {
                        let _ = take_exception(&mut self.registers, Exception::Program { trap: true }, pc.wrapping_add(4));
                    },
                }
                assert(step_outcome(s, self.registers, Ok(word), mid, executed, Ok(())));
                Ok(())
            },
            Err(e) => {
                let fault = match &e {
                    Error::Memory(msg) => classify_fault(msg.as_str()),
                    _ => None,
                };
                match fault {
                    Some(k) => {
                        let dar = match &e {
                            Error::Memory(msg) => parse_fault_address(msg.as_str()),
                            _ => 0,
                        };
                        let dsisr = match k {
                            FaultKind::PageFault => DSISR_PAGE_FAULT,
                            FaultKind::Protection => DSISR_PROTECTION,
                            FaultKind::DirectStore => DSISR_DIRECT_STORE,
                        };
                        let _ = take_exception(&mut self.registers, Exception::DataStorage { dar, dsisr }, pc.wrapping_add(4));
                        assert(step_outcome(s, self.registers, Ok(word), mid, executed, Ok(())));
                        Ok(())
                    },
                    None => {
                        assert(step_outcome(s, self.registers, Ok(word), mid, executed, Err(e)));
                        Err(e)
                    },
                }
            },
        }
    }

    /// Set up a BAT register pair (`index` 0 to 3, data or instruction) to
    /// map `size` bytes (128 KiB to 256 MiB) from `vaddr` to `paddr`.
    pub fn setup_bat(&mut self, index: usize, is_data: bool, vaddr: u32, paddr: u32, size: u32, writable: bool, supervisor: bool, user: bool)
        -> (r: Result<(), Error>)
        ensures
            match bat_error(index, size) {
                Some(m) => (r matches Err(Error::Cpu(e)) && e@ == m) && *final(self) == *old(self),
                None => {
                    let entry = BatEntry {
                        upper: bat_upper(vaddr, bat_length_code(size) as u32, supervisor, user),
                        lower: bat_lower(paddr, writable),
                    };
                    &&& r is Ok
                    &&& final(self).mode() == old(self).mode()
                    &&& if is_data {
                        final(self).registers.dbat@ == old(self).registers.dbat@.update(index as int, entry)
                            && final(self).registers == (Registers { dbat: final(self).registers.dbat, ..old(self).registers })
                    } else {
                        final(self).registers.ibat@ == old(self).registers.ibat@.update(index as int, entry)
                            && final(self).registers == (Registers { ibat: final(self).registers.ibat, ..old(self).registers })
                    }
                },
            },
    {
        if index >= 4 {
            let mut m = String::from_str("BAT index ");
            m.append(decimal(index as u64).as_str());
            m.append(" out of range (0-3)");
            return Err(Error::Cpu(m));
        }
        let blocks = size / (128 * 1024);
        if blocks == 0 {
            let mut m = String::from_str("BAT size ");
            m.append(decimal(size as u64).as_str());
            m.append(" too small (minimum 128KB)");
            return Err(Error::Cpu(m));
        }
        let bl = blocks - 1;
        if bl > 0x7FF {
            let mut m = String::from_str("BAT size ");
            m.append(decimal(size as u64).as_str());
            m.append(" too large (maximum 256MB)");
            return Err(Error::Cpu(m));
        }
        let bepi = vaddr & 0xFFFE_0000;
        let vs: u32 = if supervisor { 0x2 } else { 0 };
        let vp: u32 = if user { 0x1 } else { 0 };
        let upper = bepi | (bl << 2u32) | vs | vp;
        let brpn = paddr & 0xFFFE_0000;
        let wimg: u32 = 0x02;
        let pp: u32 = if writable { 0x2 } else { 0x1 };
        let lower = brpn | wimg | pp;
        let entry = BatEntry { upper, lower };
        if is_data {
            self.registers.dbat[index] = entry;
        } else {
            self.registers.ibat[index] = entry;
        }
        Ok(())
    }

    /// Set execution mode
    pub fn set_execution_mode(&mut self, mode: ExecutionMode)
        ensures
            final(self).mode() == mode,
            final(self).registers == old(self).registers,
    {
        self.execution_mode = mode;
    }

    /// Get current execution mode
    pub fn execution_mode(&self) -> (r: ExecutionMode)
        ensures
            r == self.mode(),
    {
        self.execution_mode
    }
}

} // verus!
