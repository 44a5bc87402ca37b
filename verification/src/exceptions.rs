//! PowerPC exceptions and their vector offsets.
use vstd::prelude::*;
use crate::error::Error;
use crate::registers::{Registers, MSR_EE, MSR_PR, MSR_FP, MSR_FE0, MSR_FE1, MSR_SE, MSR_BE, MSR_IP};

verus! {

/// PowerPC exception types
#[derive(Debug, Clone, Copy, PartialEq, Eq, Structural)]
pub enum Exception {
    /// System call (sc instruction)
    SystemCall,
    /// Program exception (illegal instruction, privilege violation, trap)
    Program { trap: bool },
    /// Machine check
    MachineCheck,
    /// Data storage (memory access violation); DAR holds the faulting
    /// address, DSISR the status
    DataStorage { dar: u32, dsisr: u32 },
    /// Instruction storage (instruction fetch violation); SRR1[1-4] holds
    /// the status
    InstructionStorage { srr1_bits: u32 },
    /// External interrupt
    External,
    /// Alignment
    Alignment,
    /// Decrementer
    Decrementer,
}

/// The vector offset of each kind of exception.
pub open spec fn spec_vector_offset(e: Exception) -> u32 {
    match e {
        Exception::SystemCall => 0x0C00,
        Exception::Program { .. } => 0x0700,
        Exception::MachineCheck => 0x0200,
        Exception::DataStorage { .. } => 0x0300,
        Exception::InstructionStorage { .. } => 0x0400,
        Exception::External => 0x0500,
        Exception::Alignment => 0x0600,
        Exception::Decrementer => 0x0900,
    }
}

impl Exception {
    /// Get the exception vector offset
    pub fn vector_offset(&self) -> (r: u32)
        ensures
            r == spec_vector_offset(*self),
    {
        match self {
            Exception::SystemCall => 0x0C00,
            Exception::Program { .. } => 0x0700,
            Exception::MachineCheck => 0x0200,
            Exception::DataStorage { .. } => 0x0300,
            Exception::InstructionStorage { .. } => 0x0400,
            Exception::External => 0x0500,
            Exception::Alignment => 0x0600,
            Exception::Decrementer => 0x0900,
        }
    }
}


/// DSISR: direct-store error (not supported)
pub const DSISR_DIRECT_STORE: u32 = 0x8000_0000;
/// DSISR: page fault - no PTE found
pub const DSISR_PAGE_FAULT: u32 = 0x4000_0000;
/// DSISR: protection violation
pub const DSISR_PROTECTION: u32 = 0x0800_0000;
/// DSISR: store operation (1 = store, 0 = load)
pub const DSISR_STORE: u32 = 0x0200_0000;
/// DSISR: segment table search failed
pub const DSISR_SEGMENT_FAULT: u32 = 0x1000_0000;
/// SRR1 on an instruction storage exception: page fault
pub const ISI_PAGE_FAULT: u32 = 0x4000_0000;
/// SRR1 on an instruction storage exception: protection violation
pub const ISI_PROTECTION: u32 = 0x0800_0000;
/// SRR1 on an instruction storage exception: direct-store segment
pub const ISI_DIRECT_STORE: u32 = 0x1000_0000;
/// SRR1 on an instruction storage exception: segment table search failed
pub const ISI_SEGMENT_FAULT: u32 = 0x2000_0000;

/// Special register numbers that exceptions write.
pub const SPR_DSISR: usize = 18;
pub const SPR_DAR: usize = 19;
pub const SPR_SRR0: usize = 26;
pub const SPR_SRR1: usize = 27;

/// The MSR bits an exception clears: external interrupts, problem state,
/// floating point and its exception modes, and tracing.
pub const MSR_CLEARED_ON_EXCEPTION: u32 = MSR_EE | MSR_PR | MSR_FP | MSR_FE0 | MSR_FE1 | MSR_SE | MSR_BE;

/// The special registers after exception `e` saved `next_pc` and `msr`.
pub open spec fn exception_sprs(spr: Seq<u32>, e: Exception, next_pc: u32, msr: u32) -> Seq<u32> {
    let saved = spr.update(SPR_SRR0 as int, next_pc).update(SPR_SRR1 as int, msr);
    match e {
        Exception::DataStorage { dar, dsisr } => saved.update(SPR_DAR as int, dar).update(SPR_DSISR as int, dsisr),
        Exception::InstructionStorage { srr1_bits } => saved.update(SPR_SRR1 as int, msr | (srr1_bits & 0x7800_0000u32)),
        _ => saved,
    }
}

/// Where exception `e` jumps with machine state `msr`.
pub open spec fn exception_vector(e: Exception, msr: u32) -> u32 {
    ((if msr & MSR_IP != 0 { 0xFFF0_0000int } else { 0int }) + spec_vector_offset(e)) as u32
}

/// `t` is `s` after taking exception `e` with return address `next_pc`:
/// SRR0 and SRR1 (and for storage faults DAR/DSISR or SRR1's status bits)
/// are saved, the MSR loses the bits an exception clears, and the PC is the
/// exception vector.
pub open spec fn exception_taken(s: Registers, t: Registers, e: Exception, next_pc: u32) -> bool {
    &&& t.spr@ == exception_sprs(s.spr@, e, next_pc, s.msr)
    &&& t.msr == s.msr & !MSR_CLEARED_ON_EXCEPTION
    &&& t.pc == exception_vector(e, s.msr)
    &&& t == (Registers { spr: t.spr, msr: t.msr, pc: t.pc, ..s })
}

/// Take an exception: save the return address and machine state, clear the
/// MSR bits an exception clears and jump to the exception's vector.
pub fn take_exception(regs: &mut Registers, exception: Exception, next_pc: u32) -> (r: Result<(), Error>)
    ensures
        r is Ok,
        exception_taken(*old(regs), *final(regs), exception, next_pc),
{
    let msr = regs.msr;
    regs.spr[SPR_SRR0] = next_pc;
    regs.spr[SPR_SRR1] = msr;
    match exception {
        Exception::DataStorage { dar, dsisr } => {
            regs.spr[SPR_DAR] = dar;
            regs.spr[SPR_DSISR] = dsisr;
        },
        Exception::InstructionStorage { srr1_bits } => {
            regs.spr[SPR_SRR1] = msr | (srr1_bits & 0x7800_0000u32);
        },
        _ => {},
    }
    let ip_bit = msr & MSR_IP != 0;
    regs.msr = msr & !MSR_CLEARED_ON_EXCEPTION;
    let base: u32 = if ip_bit { 0xFFF0_0000 } else { 0x0000_0000 };
    regs.pc = base + exception.vector_offset();
    proof {
        assert(regs.spr@ =~= exception_sprs(old(regs).spr@, exception, next_pc, msr));
    }
    Ok(())
}

} // verus!
