use newton_emu::cpu::{Cpu, ExecutionMode, MemoryInterface};
use newton_emu::exceptions::{take_exception, Exception, DSISR_PAGE_FAULT, ISI_PAGE_FAULT, SPR_DAR, SPR_DSISR, SPR_SRR0, SPR_SRR1};
use newton_emu::decoder::{decode_instruction, Instruction};
use newton_emu::error::Error;
use newton_emu::exec_result::ExecResult;
use newton_emu::interpreter::{FloatUnit, Interpreter};
use newton_emu::emulator::{emulator_step, enter_newworld_rom, handle_openfirmware_call, run_cycles, BootRegisters, StepAction, OF_CLIENT_INTERFACE_OFFSET};
use newton_emu::openfirmware::OpenFirmware;
use newton_emu::registers::{BatEntry, PpcModel, Registers, MSR_EE, MSR_IP, MSR_ME, MSR_PR, XER_CA, XER_OV, XER_SO};
use std::cell::RefCell;
use std::collections::HashMap;

struct TestMemory {
    data: RefCell<HashMap<u32, u8>>,
}

impl TestMemory {
    fn new() -> Self {
        Self { data: RefCell::new(HashMap::new()) }
    }
}

impl MemoryInterface for TestMemory {
    fn read_u8(&self, addr: u32) -> Result<u8, Error> {
        Ok(*self.data.borrow().get(&addr).unwrap_or(&0))
    }
    fn read_u16(&self, addr: u32) -> Result<u16, Error> {
        let hi = self.read_u8(addr)?;
        let lo = self.read_u8(addr + 1)?;
        Ok((hi as u16) << 8 | lo as u16)
    }
    fn read_u32(&self, addr: u32) -> Result<u32, Error> {
        let b0 = self.read_u8(addr)?;
        let b1 = self.read_u8(addr + 1)?;
        let b2 = self.read_u8(addr + 2)?;
        let b3 = self.read_u8(addr + 3)?;
        Ok((b0 as u32) << 24 | (b1 as u32) << 16 | (b2 as u32) << 8 | b3 as u32)
    }
    fn read_u64(&self, addr: u32) -> Result<u64, Error> {
        let hi = self.read_u32(addr)?;
        let lo = self.read_u32(addr + 4)?;
        Ok((hi as u64) << 32 | lo as u64)
    }
    fn write_u8(&self, addr: u32, value: u8) -> Result<(), Error> {
        self.data.borrow_mut().insert(addr, value);
        Ok(())
    }
    fn write_u16(&self, addr: u32, value: u16) -> Result<(), Error> {
        self.write_u8(addr, (value >> 8) as u8)?;
        self.write_u8(addr + 1, value as u8)?;
        Ok(())
    }
    fn write_u32(&self, addr: u32, value: u32) -> Result<(), Error> {
        self.write_u8(addr, (value >> 24) as u8)?;
        self.write_u8(addr + 1, (value >> 16) as u8)?;
        self.write_u8(addr + 2, (value >> 8) as u8)?;
        self.write_u8(addr + 3, value as u8)?;
        Ok(())
    }
    fn write_u64(&self, addr: u32, value: u64) -> Result<(), Error> {
        self.write_u32(addr, (value >> 32) as u32)?;
        self.write_u32(addr + 4, value as u32)?;
        Ok(())
    }
    fn read_u32_phys(&self, paddr: u32) -> Result<u32, Error> {
        self.read_u32(paddr)
    }
    fn read_u64_phys(&self, paddr: u32) -> Result<u64, Error> {
        self.read_u64(paddr)
    }
}

struct SoftFloat;

impl FloatUnit for SoftFloat {
    fn execute_fp(&self, _instr: Instruction, _regs: &mut Registers) -> Result<(), Error> {
        Err(Error::Cpu("no floating point here".to_string()))
    }
    fn single_to_double(&self, bits: u32) -> u64 {
        (f32::from_bits(bits) as f64).to_bits()
    }
    fn double_to_single(&self, bits: u64) -> u32 {
        (f64::from_bits(bits) as f32).to_bits()
    }
}

/// Fetch, decode and execute one instruction, advancing the PC as the CPU does.
fn step(interp: &mut Interpreter, regs: &mut Registers, memory: &TestMemory) -> Result<ExecResult, Error> {
    let word = memory.read_u32(regs.pc)?;
    let instr = decode_instruction(word)?;
    let result = interp.execute_with_memory(instr, regs, memory, &SoftFloat)?;
    if result.should_advance_pc() {
        regs.pc = regs.pc.wrapping_add(4);
    }
    Ok(result)
}

fn run(words: &[(u32, u32)], start: u32, steps: usize) -> (Registers, TestMemory) {
    let memory = TestMemory::new();
    for &(addr, w) in words {
        memory.write_u32(addr, w).unwrap();
    }
    let mut regs = Registers::new(PpcModel::G4);
    regs.pc = start;
    let mut interp = Interpreter::new();
    for _ in 0..steps {
        step(&mut interp, &mut regs, &memory).unwrap();
    }
    (regs, memory)
}

fn exec(regs: &mut Registers, instr: Instruction) -> Result<ExecResult, Error> {
    Interpreter::new().execute(instr, regs, &SoftFloat)
}

#[test]
fn simple_program_adds_registers() {
    let (regs, _) = run(&[(0x1000, 0x3860_002A), (0x1004, 0x3883_0008), (0x1008, 0x7CA3_2214)], 0x1000, 3);
    assert_eq!(regs.gpr[3], 42);
    assert_eq!(regs.gpr[4], 50);
    assert_eq!(regs.gpr[5], 92);
    assert_eq!(regs.pc, 0x100C);
}

#[test]
fn branch_skips_an_instruction() {
    let (regs, _) = run(
        &[(0x2000, 0x3860_0001), (0x2004, 0x2C03_0001), (0x2008, 0x4182_0008), (0x200C, 0x3880_0063), (0x2010, 0x38A0_0064)],
        0x2000,
        4,
    );
    assert_eq!(regs.gpr[3], 1);
    assert_eq!(regs.gpr[4], 0);
    assert_eq!(regs.gpr[5], 100);
}

#[test]
fn store_then_load_round_trips() {
    let (regs, memory) = run(
        &[
            (0x3000, 0x3C60_0000),
            (0x3004, 0x6063_5000),
            (0x3008, 0x3C80_DEAD),
            (0x300C, 0x6084_BEEF),
            (0x3010, 0x9083_0000),
            (0x3014, 0x38A0_0000),
            (0x3018, 0x80A3_0000),
        ],
        0x3000,
        7,
    );
    assert_eq!(regs.gpr[3], 0x5000);
    assert_eq!(regs.gpr[4], 0xDEAD_BEEF);
    assert_eq!(regs.gpr[5], 0xDEAD_BEEF);
    assert_eq!(memory.read_u32(0x5000).unwrap(), 0xDEAD_BEEF);
}

#[test]
fn add_with_overflow_sets_so_and_ov() {
    let mut regs = Registers::new(PpcModel::G4);
    regs.gpr[1] = 0x7FFF_FFFF;
    regs.gpr[2] = 1;
    exec(&mut regs, Instruction::Add { rt: 3, ra: 1, rb: 2, oe: true, rc: true }).unwrap();
    assert_eq!(regs.gpr[3], 0x8000_0000);
    assert_eq!(regs.xer & (XER_SO | XER_OV), XER_SO | XER_OV);
    // CR0: LT and SO
    assert_eq!(regs.cr >> 28, 0b1001);
    regs.gpr[2] = 0;
    exec(&mut regs, Instruction::Add { rt: 3, ra: 1, rb: 2, oe: true, rc: false }).unwrap();
    assert_eq!(regs.xer & XER_OV, 0);
    assert_eq!(regs.xer & XER_SO, XER_SO);
}

#[test]
fn addc_and_adde_carry() {
    let mut regs = Registers::new(PpcModel::G4);
    regs.gpr[1] = 0xFFFF_FFFF;
    regs.gpr[2] = 2;
    exec(&mut regs, Instruction::Addc { rt: 3, ra: 1, rb: 2, oe: false, rc: false }).unwrap();
    assert_eq!(regs.gpr[3], 1);
    assert_eq!(regs.xer & XER_CA, XER_CA);
    regs.gpr[4] = 0;
    regs.gpr[5] = 0;
    exec(&mut regs, Instruction::Adde { rt: 6, ra: 4, rb: 5, oe: false, rc: false }).unwrap();
    assert_eq!(regs.gpr[6], 1);
    assert_eq!(regs.xer & XER_CA, 0);
}

#[test]
fn divide_by_zero_gives_zero_and_overflow() {
    let mut regs = Registers::new(PpcModel::G4);
    regs.gpr[1] = 10;
    regs.gpr[2] = 0;
    exec(&mut regs, Instruction::Divw { rt: 3, ra: 1, rb: 2, oe: true, rc: false }).unwrap();
    assert_eq!(regs.gpr[3], 0);
    assert_eq!(regs.xer & XER_OV, XER_OV);
    regs.gpr[1] = (-7i32) as u32;
    regs.gpr[2] = 2;
    exec(&mut regs, Instruction::Divw { rt: 3, ra: 1, rb: 2, oe: false, rc: false }).unwrap();
    assert_eq!(regs.gpr[3] as i32, -3);
    exec(&mut regs, Instruction::Divwu { rt: 4, ra: 2, rb: 2, oe: false, rc: false }).unwrap();
    assert_eq!(regs.gpr[4], 1);
}

#[test]
fn multiply_high_words() {
    let mut regs = Registers::new(PpcModel::G4);
    regs.gpr[1] = 0xFFFF_FFFF;
    regs.gpr[2] = 0xFFFF_FFFF;
    exec(&mut regs, Instruction::Mulhwu { rt: 3, ra: 1, rb: 2, rc: false }).unwrap();
    assert_eq!(regs.gpr[3], 0xFFFF_FFFE);
    exec(&mut regs, Instruction::Mulhw { rt: 4, ra: 1, rb: 2, rc: false }).unwrap();
    assert_eq!(regs.gpr[4], 0);
    exec(&mut regs, Instruction::Mullw { rt: 5, ra: 1, rb: 2, oe: false, rc: false }).unwrap();
    assert_eq!(regs.gpr[5], 1);
}

#[test]
fn subtract_from_records_carry() {
    let mut regs = Registers::new(PpcModel::G4);
    regs.gpr[1] = 5;
    regs.gpr[2] = 3;
    exec(&mut regs, Instruction::Subfc { rt: 3, ra: 1, rb: 2, oe: false, rc: false }).unwrap();
    assert_eq!(regs.gpr[3], 0xFFFF_FFFE);
    assert_eq!(regs.xer & XER_CA, 0);
    exec(&mut regs, Instruction::Subfc { rt: 3, ra: 2, rb: 1, oe: false, rc: false }).unwrap();
    assert_eq!(regs.gpr[3], 2);
    assert_eq!(regs.xer & XER_CA, XER_CA);
    exec(&mut regs, Instruction::Neg { rt: 4, ra: 1, oe: false, rc: false }).unwrap();
    assert_eq!(regs.gpr[4] as i32, -5);
}

#[test]
fn logical_and_extend() {
    let mut regs = Registers::new(PpcModel::G4);
    regs.gpr[1] = 0x0000_00F0;
    regs.gpr[2] = 0x0000_0F80;
    exec(&mut regs, Instruction::And { ra: 3, rs: 1, rb: 2, rc: false }).unwrap();
    assert_eq!(regs.gpr[3], 0x80);
    exec(&mut regs, Instruction::Extsb { ra: 4, rs: 3, rc: false }).unwrap();
    assert_eq!(regs.gpr[4], 0xFFFF_FF80);
    exec(&mut regs, Instruction::Cntlzw { ra: 5, rs: 2, rc: false }).unwrap();
    assert_eq!(regs.gpr[5], 20);
    exec(&mut regs, Instruction::Andi { ra: 6, rs: 1, uimm: 0x0F }).unwrap();
    assert_eq!(regs.gpr[6], 0);
    assert_eq!(regs.cr >> 28, 0b0010);
    exec(&mut regs, Instruction::Oris { ra: 7, rs: 1, uimm: 0x1234 }).unwrap();
    assert_eq!(regs.gpr[7], 0x1234_00F0);
}

#[test]
fn rotate_and_shift() {
    let mut regs = Registers::new(PpcModel::G4);
    regs.gpr[1] = 0x1234_5678;
    exec(&mut regs, Instruction::Rlwinm { ra: 2, rs: 1, sh: 8, mb: 24, me: 31, rc: false }).unwrap();
    assert_eq!(regs.gpr[2], 0x12);
    regs.gpr[3] = 4;
    exec(&mut regs, Instruction::Slw { ra: 4, rs: 1, rb: 3, rc: false }).unwrap();
    assert_eq!(regs.gpr[4], 0x2345_6780);
    regs.gpr[3] = 40;
    exec(&mut regs, Instruction::Srw { ra: 4, rs: 1, rb: 3, rc: false }).unwrap();
    assert_eq!(regs.gpr[4], 0);
    regs.gpr[5] = (-5i32) as u32;
    exec(&mut regs, Instruction::Srawi { ra: 6, rs: 5, sh: 1, rc: false }).unwrap();
    assert_eq!(regs.gpr[6] as i32, -3);
    assert_eq!(regs.xer & XER_CA, XER_CA);
}

#[test]
fn compare_into_cr_fields() {
    let mut regs = Registers::new(PpcModel::G4);
    regs.gpr[1] = (-1i32) as u32;
    regs.gpr[2] = 1;
    exec(&mut regs, Instruction::Cmp { crfd: 1, l: false, ra: 1, rb: 2 }).unwrap();
    assert_eq!((regs.cr >> 24) & 0xF, 0b1000);
    exec(&mut regs, Instruction::Cmpl { crfd: 2, l: false, ra: 1, rb: 2 }).unwrap();
    assert_eq!((regs.cr >> 20) & 0xF, 0b0100);
    exec(&mut regs, Instruction::Crand { bt: 0, ba: 4, bb: 9 }).unwrap();
    assert_eq!(regs.cr >> 31, 1);
    exec(&mut regs, Instruction::Crxor { bt: 0, ba: 4, bb: 9 }).unwrap();
    assert_eq!(regs.cr >> 31, 0);
}

#[test]
fn special_registers() {
    let mut regs = Registers::new(PpcModel::G4);
    exec(&mut regs, Instruction::Mfspr { rt: 3, spr: 287 }).unwrap();
    assert_eq!(regs.gpr[3], 0x000C_1101);
    regs.gpr[4] = 0x1234;
    exec(&mut regs, Instruction::Mtspr { spr: 9, rs: 4 }).unwrap();
    assert_eq!(regs.ctr, 0x1234);
    exec(&mut regs, Instruction::Mtspr { spr: 272, rs: 4 }).unwrap();
    assert_eq!(regs.spr[272], 0x1234);
    regs.gpr[5] = 0xABCD_EF01;
    exec(&mut regs, Instruction::Mtcrf { fxm: 0b1000_0001, rs: 5 }).unwrap();
    assert_eq!(regs.cr, 0xA000_0001);
    regs.gpr[6] = 0x3000_0000;
    exec(&mut regs, Instruction::Mtsrin { rs: 5, rb: 6 }).unwrap();
    assert_eq!(regs.sr[3], 0xABCD_EF01);
}

#[test]
fn time_base_and_traps() {
    let mut regs = Registers::new(PpcModel::G4);
    regs.pc = 0x4000;
    exec(&mut regs, Instruction::Mftb { rt: 3, tbr: 268 }).unwrap();
    assert_eq!(regs.gpr[3], 0x4000);
    match exec(&mut regs, Instruction::Mftb { rt: 3, tbr: 100 }) {
        Err(Error::Cpu(m)) => assert_eq!(m, "Invalid TBR register: 100"),
        other => panic!("unexpected {:?}", other),
    }
    regs.gpr[1] = 5;
    match exec(&mut regs, Instruction::Twi { to: 0b00100, ra: 1, simm: 5 }) {
        Err(Error::Cpu(m)) => assert_eq!(m, "Trap condition met"),
        other => panic!("unexpected {:?}", other),
    }
    assert!(exec(&mut regs, Instruction::Twi { to: 0b00100, ra: 1, simm: 6 }).is_ok());
}

#[test]
fn unknown_instruction_is_an_error() {
    let mut regs = Registers::new(PpcModel::G4);
    regs.pc = 0x1000;
    match exec(&mut regs, Instruction::Unknown { opcode: 0xDEAD_BEEF }) {
        Err(Error::Cpu(m)) => assert_eq!(m, "Unknown instruction: 0xDEADBEEF at PC 0x00001000"),
        other => panic!("unexpected {:?}", other),
    }
}

#[test]
fn branch_and_link() {
    let mut regs = Registers::new(PpcModel::G4);
    regs.pc = 0x1000;
    let r = exec(&mut regs, Instruction::B { li: 0x100, aa: false, lk: true }).unwrap();
    assert_eq!(r, ExecResult::BranchTaken);
    assert_eq!(regs.pc, 0x1100);
    assert_eq!(regs.lr, 0x1004);
    // BO bit 3 skips the CR test and bit 2 the count: an unconditional return.
    exec(&mut regs, Instruction::Bclr { bo: 0b01100, bi: 0, lk: false }).unwrap();
    assert_eq!(regs.pc, 0x1004);
    // Otherwise bit 4 asks for CR bit `bi` to be set; here it is clear.
    exec(&mut regs, Instruction::Bclr { bo: 0b10100, bi: 0, lk: false }).unwrap();
    assert_eq!(regs.pc, 0x1008);
}

#[test]
fn vector_add_through_registers() {
    let mut regs = Registers::new(PpcModel::G4);
    regs.vr[1].words = [0x0102_0304, 0, 0, 0xFF00_0000];
    regs.vr[2].words = [0x0101_0101, 0, 0, 0x0200_0000];
    exec(&mut regs, Instruction::Vaddubm { vd: 3, va: 1, vb: 2 }).unwrap();
    assert_eq!(regs.vr[3].words, [0x0203_0405, 0, 0, 0x0100_0000]);
    exec(&mut regs, Instruction::Vspltisw { vd: 4, simm: -1 }).unwrap();
    assert_eq!(regs.vr[4].words, [0xFFFF_FFFF; 4]);
}

#[test]
fn byte_loads_and_update_forms() {
    let memory = TestMemory::new();
    memory.write_u32(0x100, 0x8081_8283).unwrap();
    let mut regs = Registers::new(PpcModel::G4);
    regs.gpr[1] = 0x100;
    let mut interp = Interpreter::new();
    interp.execute_with_memory(Instruction::Lbzu { rt: 2, ra: 1, d: 1 }, &mut regs, &memory, &SoftFloat).unwrap();
    assert_eq!(regs.gpr[2], 0x81);
    assert_eq!(regs.gpr[1], 0x101);
    interp.execute_with_memory(Instruction::Lha { rt: 3, ra: 1, d: 1 }, &mut regs, &memory, &SoftFloat).unwrap();
    assert_eq!(regs.gpr[3], 0xFFFF_8283);
    regs.gpr[4] = 0x1234_5678;
    interp.execute_with_memory(Instruction::Sth { rs: 4, ra: 0, d: 0x200 }, &mut regs, &memory, &SoftFloat).unwrap();
    assert_eq!(memory.read_u16(0x200).unwrap(), 0x5678);
}

#[test]
fn floating_point_arithmetic_goes_to_the_fpu() {
    let mut regs = Registers::new(PpcModel::G4);
    let r = exec(&mut regs, Instruction::Fadd { frt: 1, fra: 2, frb: 3, rc: false });
    assert!(r.is_err());
}

/// Memory whose accesses at and above `fault_from` fail with a page fault.
struct FaultingMemory {
    inner: TestMemory,
    fault_from: u32,
}

impl FaultingMemory {
    fn check(&self, addr: u32) -> Result<(), Error> {
        if addr >= self.fault_from {
            Err(Error::Memory(format!("Page fault at 0x{:08X} (no PTE)", addr)))
        } else {
            Ok(())
        }
    }
}

impl MemoryInterface for FaultingMemory {
    fn read_u8(&self, addr: u32) -> Result<u8, Error> {
        self.check(addr)?;
        self.inner.read_u8(addr)
    }
    fn read_u16(&self, addr: u32) -> Result<u16, Error> {
        self.check(addr)?;
        self.inner.read_u16(addr)
    }
    fn read_u32(&self, addr: u32) -> Result<u32, Error> {
        self.check(addr)?;
        self.inner.read_u32(addr)
    }
    fn read_u64(&self, addr: u32) -> Result<u64, Error> {
        self.check(addr)?;
        self.inner.read_u64(addr)
    }
    fn write_u8(&self, addr: u32, value: u8) -> Result<(), Error> {
        self.check(addr)?;
        self.inner.write_u8(addr, value)
    }
    fn write_u16(&self, addr: u32, value: u16) -> Result<(), Error> {
        self.check(addr)?;
        self.inner.write_u16(addr, value)
    }
    fn write_u32(&self, addr: u32, value: u32) -> Result<(), Error> {
        self.check(addr)?;
        self.inner.write_u32(addr, value)
    }
    fn write_u64(&self, addr: u32, value: u64) -> Result<(), Error> {
        self.check(addr)?;
        self.inner.write_u64(addr, value)
    }
    fn read_u32_phys(&self, paddr: u32) -> Result<u32, Error> {
        self.inner.read_u32(paddr)
    }
    fn read_u64_phys(&self, paddr: u32) -> Result<u64, Error> {
        self.inner.read_u64(paddr)
    }
}

#[test]
fn cpu_step_advances_and_takes_system_calls() {
    let memory = TestMemory::new();
    memory.write_u32(0x1000, 0x3860_002A).unwrap(); // addi r3, r0, 42
    memory.write_u32(0x1004, 0x4400_0002).unwrap(); // sc
    let mut cpu = Cpu::new(PpcModel::G4);
    cpu.registers.pc = 0x1000;
    cpu.registers.msr = MSR_EE | MSR_ME;
    cpu.step(&memory, &SoftFloat).unwrap();
    assert_eq!(cpu.registers.gpr[3], 42);
    assert_eq!(cpu.registers.pc, 0x1004);
    cpu.step(&memory, &SoftFloat).unwrap();
    assert_eq!(cpu.registers.pc, 0x0C00);
    assert_eq!(cpu.registers.spr[SPR_SRR0], 0x1008);
    assert_eq!(cpu.registers.spr[SPR_SRR1], MSR_EE | MSR_ME);
    assert_eq!(cpu.registers.msr, MSR_ME);
    assert_eq!(cpu.execution_mode(), ExecutionMode::Interpreter);
}

#[test]
fn cpu_data_fault_enters_data_storage_exception() {
    let memory = FaultingMemory { inner: TestMemory::new(), fault_from: 0x8000_0000 };
    memory.inner.write_u32(0x2000, 0x8083_0010).unwrap(); // lwz r4, 16(r3)
    let mut cpu = Cpu::new(PpcModel::G4);
    cpu.registers.pc = 0x2000;
    cpu.registers.gpr[3] = 0x9000_0000;
    cpu.registers.msr = MSR_IP;
    cpu.step(&memory, &SoftFloat).unwrap();
    assert_eq!(cpu.registers.pc, 0xFFF0_0300);
    assert_eq!(cpu.registers.spr[SPR_DAR], 0x9000_0010);
    assert_eq!(cpu.registers.spr[SPR_DSISR], DSISR_PAGE_FAULT);
    assert_eq!(cpu.registers.spr[SPR_SRR0], 0x2004);
    assert_eq!(cpu.registers.gpr[4], 0);
}

#[test]
fn cpu_fetch_fault_enters_instruction_storage_exception() {
    let memory = FaultingMemory { inner: TestMemory::new(), fault_from: 0x8000_0000 };
    let mut cpu = Cpu::new(PpcModel::G4);
    cpu.registers.pc = 0x8000_1000;
    cpu.step(&memory, &SoftFloat).unwrap();
    assert_eq!(cpu.registers.pc, 0x0400);
    assert_eq!(cpu.registers.spr[SPR_SRR0], 0x8000_1000);
    assert_eq!(cpu.registers.spr[SPR_SRR1], ISI_PAGE_FAULT);
}

#[test]
fn cpu_other_errors_are_returned() {
    let memory = TestMemory::new();
    memory.write_u32(0x1000, 0x0000_0000).unwrap();
    let mut cpu = Cpu::new(PpcModel::G4);
    cpu.registers.pc = 0x1000;
    match cpu.step(&memory, &SoftFloat) {
        Err(Error::Cpu(m)) => assert_eq!(m, "Unknown instruction: 0x00000000 at PC 0x00001000"),
        other => panic!("unexpected {:?}", other),
    }
    assert_eq!(cpu.registers.pc, 0x1000);
}

#[test]
fn take_exception_saves_state() {
    let mut regs = Registers::new(PpcModel::G4);
    regs.msr = MSR_PR | MSR_EE | MSR_IP | MSR_ME;
    take_exception(&mut regs, Exception::InstructionStorage { srr1_bits: 0xFFFF_FFFF }, 0x1234).unwrap();
    assert_eq!(regs.spr[SPR_SRR0], 0x1234);
    assert_eq!(regs.spr[SPR_SRR1], MSR_PR | MSR_EE | MSR_IP | MSR_ME | 0x7800_0000);
    assert_eq!(regs.msr, MSR_IP | MSR_ME);
    assert_eq!(regs.pc, 0xFFF0_0400);
}

#[test]
fn setup_bat_builds_register_pairs() {
    let mut cpu = Cpu::new(PpcModel::G4);
    cpu.setup_bat(0, true, 0xFFC0_0000, 0xFFC0_0000, 4 * 1024 * 1024, true, true, false).unwrap();
    assert_eq!(cpu.registers.dbat[0], BatEntry { upper: 0xFFC0_007E, lower: 0xFFC0_0002 });
    cpu.setup_bat(1, false, 0x0012_3456, 0x0065_4321, 128 * 1024, false, false, true).unwrap();
    assert_eq!(cpu.registers.ibat[1], BatEntry { upper: 0x0012_0001, lower: 0x0064_0003 });
    match cpu.setup_bat(4, true, 0, 0, 128 * 1024, true, true, true) {
        Err(Error::Cpu(m)) => assert_eq!(m, "BAT index 4 out of range (0-3)"),
        other => panic!("unexpected {:?}", other),
    }
    match cpu.setup_bat(0, true, 0, 0, 1000, true, true, true) {
        Err(Error::Cpu(m)) => assert_eq!(m, "BAT size 1000 too small (minimum 128KB)"),
        other => panic!("unexpected {:?}", other),
    }
    match cpu.setup_bat(0, true, 0, 0, 0x2000_0000, true, true, true) {
        Err(Error::Cpu(m)) => assert_eq!(m, "BAT size 536870912 too large (maximum 256MB)"),
        other => panic!("unexpected {:?}", other),
    }
}

#[test]
fn newworld_entry_sets_up_the_cpu() {
    let mut cpu = Cpu::new(PpcModel::G4);
    cpu.registers.gpr[2] = 7;
    let boot = BootRegisters { entry: Some(0xFFF0_1000), stack_pointer: 0x0FFF_F000, link_register: 0x1004, client_interface: OF_CLIENT_INTERFACE_OFFSET };
    enter_newworld_rom(&mut cpu, &boot);
    assert_eq!(cpu.registers.pc, 0xFFF0_1000);
    assert_eq!(cpu.registers.gpr[2], 0);
    assert_eq!(cpu.registers.gpr[1], 0x0FFF_F000);
    assert_eq!(cpu.registers.lr, 0x1004);
    assert_eq!(cpu.registers.gpr[5], OF_CLIENT_INTERFACE_OFFSET);
    assert_eq!(cpu.registers.dbat[0], BatEntry { upper: 0xFFC0_007E, lower: 0xFFC0_0002 });
    assert_eq!(cpu.registers.ibat[0], BatEntry { upper: 0xFFC0_007E, lower: 0xFFC0_0003 });
}

#[test]
fn emulator_step_leaves_client_calls_to_the_caller() {
    let memory = TestMemory::new();
    memory.write_u32(0x1000, 0x3860_002A).unwrap();
    let mut cpu = Cpu::new(PpcModel::G4);
    cpu.registers.pc = OF_CLIENT_INTERFACE_OFFSET;
    let mut debugger = None;
    assert_eq!(emulator_step(&mut cpu, &memory, &SoftFloat, &mut debugger, true).unwrap(), StepAction::ClientCall);
    assert_eq!(cpu.registers.pc, OF_CLIENT_INTERFACE_OFFSET);
    cpu.registers.pc = 0x1000;
    assert_eq!(emulator_step(&mut cpu, &memory, &SoftFloat, &mut debugger, true).unwrap(), StepAction::Execute);
    assert_eq!(cpu.registers.gpr[3], 42);
    assert_eq!(cpu.registers.pc, 0x1004);
}

#[test]
fn every_decoded_word_executes() {
    let memory = TestMemory::new();
    let mut x: u32 = 0x1234_5678;
    for _ in 0..20000 {
        x ^= x << 13;
        x ^= x >> 17;
        x ^= x << 5;
        let instr = decode_instruction(x).unwrap();
        let mut regs = Registers::new(PpcModel::G4);
        regs.pc = 0x1000;
        regs.gpr[1] = x;
        regs.gpr[2] = x.rotate_left(7);
        let _ = Interpreter::new().execute_with_memory(instr, &mut regs, &memory, &SoftFloat);
    }
}

fn write_cstr(memory: &TestMemory, addr: u32, s: &str) {
    for (i, b) in s.bytes().enumerate() {
        memory.write_u8(addr + i as u32, b).unwrap();
    }
    memory.write_u8(addr + s.len() as u32, 0).unwrap();
}

/// An argument block at `block` for `service` with these arguments and
/// `n_returns` return slots.
fn write_call(memory: &TestMemory, block: u32, name_addr: u32, service: &str, args: &[u32], n_returns: u32) {
    write_cstr(memory, name_addr, service);
    memory.write_u32(block, name_addr).unwrap();
    memory.write_u32(block + 4, args.len() as u32).unwrap();
    memory.write_u32(block + 8, n_returns).unwrap();
    for (i, a) in args.iter().enumerate() {
        memory.write_u32(block + 12 + 4 * i as u32, *a).unwrap();
    }
}

#[test]
fn client_calls_are_answered_and_return_through_lr() {
    let memory = TestMemory::new();
    write_call(&memory, 0x4000, 0x4100, "claim", &[0, 0x1000, 0x1000], 1);
    memory.write_u32(0x1000, 0x3880_0007).unwrap(); // addi r4, r0, 7
    let mut cpu = Cpu::new(PpcModel::G4);
    cpu.registers.pc = OF_CLIENT_INTERFACE_OFFSET;
    cpu.registers.lr = 0x1000;
    cpu.registers.gpr[3] = 0x4000;
    let mut of = Some(OpenFirmware::new());
    let mut debugger = None;
    let console = run_cycles(&mut cpu, &memory, &SoftFloat, &mut debugger, &mut of, 2).unwrap();
    assert!(console.is_empty());
    assert_eq!(memory.read_u32(0x4000 + 12 + 12).unwrap(), 0x0040_0000);
    assert_eq!(cpu.registers.gpr[4], 7);
    assert_eq!(cpu.registers.pc, 0x1004);
}

#[test]
fn write_calls_reach_the_console() {
    let memory = TestMemory::new();
    write_cstr(&memory, 0x5000, "hello");
    write_call(&memory, 0x4000, 0x4100, "write", &[0, 0x5000, 5], 1);
    let mut cpu = Cpu::new(PpcModel::G4);
    cpu.registers.pc = OF_CLIENT_INTERFACE_OFFSET;
    cpu.registers.lr = 0x2000;
    cpu.registers.gpr[3] = 0x4000;
    let mut of = Some(OpenFirmware::new());
    let text = handle_openfirmware_call(&mut cpu, &memory, &mut of).unwrap();
    assert_eq!(text.as_deref(), Some("hello"));
    assert_eq!(memory.read_u32(0x4000 + 12 + 12).unwrap(), 5);
    assert_eq!(cpu.registers.pc, 0x2000);
}

#[test]
fn client_calls_without_openfirmware_fail() {
    let memory = TestMemory::new();
    write_call(&memory, 0x4000, 0x4100, "finddevice", &[0x4200], 1);
    write_cstr(&memory, 0x4200, "/");
    let mut cpu = Cpu::new(PpcModel::G4);
    cpu.registers.lr = 0x2000;
    cpu.registers.gpr[3] = 0x4000;
    let mut of: Option<OpenFirmware> = None;
    assert_eq!(handle_openfirmware_call(&mut cpu, &memory, &mut of).unwrap(), None);
    assert_eq!(memory.read_u32(0x4000 + 12 + 4).unwrap(), 0xFFFF_FFFF);
    assert_eq!(cpu.registers.pc, 0x2000);
}

#[test]
fn oversized_claims_are_refused() {
    let memory = TestMemory::new();
    write_call(&memory, 0x4000, 0x4100, "claim", &[0xFFFF_0000, 0x0002_0000, 0], 1);
    let mut cpu = Cpu::new(PpcModel::G4);
    cpu.registers.lr = 0x2000;
    cpu.registers.gpr[3] = 0x4000;
    let mut of = Some(OpenFirmware::new());
    match handle_openfirmware_call(&mut cpu, &memory, &mut of) {
        Err(Error::Cpu(m)) => assert_eq!(m, "Client interface call arguments out of range"),
        other => panic!("unexpected {:?}", other),
    }
    assert_eq!(cpu.registers.pc, 0);
}

#[test]
fn dcbz_zeroes_the_whole_block() {
    let memory = TestMemory::new();
    for a in 0x1000u32..0x1040 {
        memory.write_u8(a, 0xAA).unwrap();
    }
    let mut regs = Registers::new(PpcModel::G4);
    regs.gpr[4] = 0x1000;
    regs.gpr[5] = 0x25;
    newton_emu::interpreter::system::dcbz(&regs, 4, 5, &memory).unwrap();
    for a in 0x1020u32..0x1040 {
        assert_eq!(memory.read_u8(a).unwrap(), 0);
    }
    for a in 0x1000u32..0x1020 {
        assert_eq!(memory.read_u8(a).unwrap(), 0xAA);
    }
}

#[test]
fn external_control_words_round_trip() {
    let memory = TestMemory::new();
    let mut regs = Registers::new(PpcModel::G4);
    regs.gpr[3] = 0x2000;
    regs.gpr[4] = 0x10;
    regs.gpr[6] = 0x1234_5678;
    newton_emu::interpreter::system::ecowx(&mut regs, &memory, 6, 3, 4).unwrap();
    assert_eq!(memory.read_u32(0x2010).unwrap(), 0x1234_5678);
    newton_emu::interpreter::system::eciwx(&mut regs, &memory, 7, 3, 4).unwrap();
    assert_eq!(regs.gpr[7], 0x1234_5678);
}

#[test]
fn c_strings_end_at_nul() {
    let memory = TestMemory::new();
    write_cstr(&memory, 0x3000, "device");
    let s = newton_emu::emulator::read_cstring(&memory, 0x3000).unwrap();
    assert_eq!(s, "device");
}

#[test]
fn blocks_end_at_a_branch() {
    let memory = TestMemory::new();
    memory.write_u32(0x4000, 0x3860_002A).unwrap();
    memory.write_u32(0x4004, 0x4800_0010).unwrap();
    let block = newton_emu::jit::block::BlockBuilder::build_from_memory(0x4000, &memory).unwrap();
    assert_eq!(block.instructions.len(), 2);
    assert_eq!(block.next_addr, 0x4008);
    assert_eq!(block.exit_type, newton_emu::jit::block::ExitType::Branch(0x4014));
}

#[test]
fn failed_reads_fail_the_block() {
    let memory = FaultingMemory { inner: TestMemory::new(), fault_from: 0x4000 };
    assert!(newton_emu::jit::block::BlockBuilder::build_from_memory(0x4000, &memory).is_err());
}

fn block_of_len(start: u32, n: usize) -> newton_emu::jit::block::BasicBlock {
    newton_emu::jit::block::BasicBlock {
        start_addr: start,
        instructions: vec![decode_instruction(0x6000_0000).unwrap(); n],
        exit_type: newton_emu::jit::block::ExitType::Fallthrough,
        next_addr: start + 4 * n as u32,
    }
}

#[test]
fn replacing_a_block_counts_only_the_new_one() {
    let mut cache = newton_emu::jit::cache::CodeCache::new();
    cache.insert(0x1000, block_of_len(0x1000, 5));
    cache.insert(0x1000, block_of_len(0x1000, 2));
    assert_eq!(cache.len(), 1);
    assert_eq!(cache.total_instructions(), 2);
    let meta = std::mem::size_of::<newton_emu::jit::block::BasicBlock>();
    assert_eq!(cache.estimated_size(), meta + 9 * 4 * 2);
    cache.remove(0x1000);
    assert!(cache.is_empty());
    assert_eq!(cache.estimated_size(), 0);
}

#[test]
fn cr_field_moves() {
    let mut regs = Registers::new(PpcModel::G4);
    regs.cr = 0xA000_0000;
    exec(&mut regs, Instruction::Mcrf { crfd: 3, crfs: 0 }).unwrap();
    assert_eq!(regs.cr, 0xA00A_0000);
    regs.xer = 0xE000_0012;
    exec(&mut regs, Instruction::Mcrxr { crfd: 7 }).unwrap();
    assert_eq!(regs.cr, 0xA00A_000E);
    assert_eq!(regs.xer, 0x0000_0012);
}

#[test]
fn blocks_may_not_run_past_the_address_space() {
    let memory = TestMemory::new();
    assert!(newton_emu::jit::block::BlockBuilder::build_from_memory(0xFFFF_FFF8, &memory).is_err());
    memory.write_u32(0xFFFF_FFF8, 0x4800_0010).unwrap();
    let block = newton_emu::jit::block::BlockBuilder::build_from_memory(0xFFFF_FFF8, &memory).unwrap();
    assert_eq!(block.next_addr, 0xFFFF_FFFC);
}

#[test]
fn load_and_store_multiple_round_trip() {
    let memory = TestMemory::new();
    let mut regs = Registers::new(PpcModel::G4);
    regs.gpr[1] = 0x400;
    regs.gpr[29] = 0x1111_2222;
    regs.gpr[30] = 0x3333_4444;
    regs.gpr[31] = 0x5555_6666;
    let mut interp = Interpreter::new();
    let r = interp.execute_with_memory(Instruction::Stmw { rs: 29, ra: 1, d: 8 }, &mut regs, &memory, &SoftFloat);
    assert_eq!(r, Ok(ExecResult::Continue));
    assert_eq!(memory.read_u32(0x408).unwrap(), 0x1111_2222);
    assert_eq!(memory.read_u32(0x40C).unwrap(), 0x3333_4444);
    assert_eq!(memory.read_u32(0x410).unwrap(), 0x5555_6666);
    regs.gpr[29] = 0;
    regs.gpr[30] = 0;
    regs.gpr[31] = 0;
    regs.gpr[28] = 7;
    interp.execute_with_memory(Instruction::Lmw { rt: 29, ra: 1, d: 8 }, &mut regs, &memory, &SoftFloat).unwrap();
    assert_eq!(regs.gpr[28], 7);
    assert_eq!(regs.gpr[29], 0x1111_2222);
    assert_eq!(regs.gpr[30], 0x3333_4444);
    assert_eq!(regs.gpr[31], 0x5555_6666);
}

#[test]
fn load_multiple_that_faults_changes_no_register() {
    let memory = FaultingMemory { inner: TestMemory::new(), fault_from: 0x1008 };
    memory.inner.write_u32(0x1000, 0xAAAA_AAAA).unwrap();
    memory.inner.write_u32(0x1004, 0xBBBB_BBBB).unwrap();
    let mut regs = Registers::new(PpcModel::G4);
    regs.gpr[5] = 0x1000;
    let before = regs.clone();
    let r = Interpreter::new().execute_with_memory(Instruction::Lmw { rt: 28, ra: 5, d: 0 }, &mut regs, &memory, &SoftFloat);
    assert!(r.is_err());
    assert_eq!(regs.gpr, before.gpr);
}

#[test]
fn string_store_and_load_pack_bytes() {
    let memory = TestMemory::new();
    let mut regs = Registers::new(PpcModel::G4);
    regs.gpr[3] = 0x600;
    regs.gpr[5] = 0x4142_4344;
    regs.gpr[6] = 0x4546_4748;
    let mut interp = Interpreter::new();
    interp.execute_with_memory(Instruction::Stswi { rs: 5, ra: 3, nb: 6 }, &mut regs, &memory, &SoftFloat).unwrap();
    assert_eq!(memory.read_u32(0x600).unwrap(), 0x4142_4344);
    assert_eq!(memory.read_u16(0x604).unwrap(), 0x4546);
    assert_eq!(memory.read_u8(0x606).unwrap(), 0);
    regs.gpr[10] = 0xFFFF_FFFF;
    regs.gpr[11] = 0xFFFF_FFFF;
    interp.execute_with_memory(Instruction::Lswi { rt: 10, ra: 3, nb: 6 }, &mut regs, &memory, &SoftFloat).unwrap();
    assert_eq!(regs.gpr[10], 0x4142_4344);
    assert_eq!(regs.gpr[11], 0x4546_0000);
}

#[test]
fn indexed_string_load_takes_its_length_from_xer() {
    let memory = TestMemory::new();
    memory.write_u32(0x700, 0x0102_0304).unwrap();
    memory.write_u32(0x704, 0x0506_0708).unwrap();
    let mut regs = Registers::new(PpcModel::G4);
    regs.gpr[3] = 0x6F0;
    regs.gpr[4] = 0x10;
    regs.xer = 5;
    regs.gpr[31] = 0xFFFF_FFFF;
    regs.gpr[0] = 0xFFFF_FFFF;
    let mut interp = Interpreter::new();
    interp.execute_with_memory(Instruction::Lswx { rt: 31, ra: 3, rb: 4 }, &mut regs, &memory, &SoftFloat).unwrap();
    assert_eq!(regs.gpr[31], 0x0102_0304);
    assert_eq!(regs.gpr[0], 0x0500_0000);
    regs.xer = 3;
    interp.execute_with_memory(Instruction::Stswx { rs: 31, ra: 0, rb: 4 }, &mut regs, &memory, &SoftFloat).unwrap();
    assert_eq!(memory.read_u32(0x10).unwrap(), 0x0102_0300);
}

#[test]
fn byte_reversed_loads_and_stores() {
    let memory = TestMemory::new();
    memory.write_u32(0x800, 0x1122_3344).unwrap();
    let mut regs = Registers::new(PpcModel::G4);
    regs.gpr[1] = 0x800;
    let mut interp = Interpreter::new();
    interp.execute_with_memory(Instruction::Lwbrx { rt: 2, ra: 0, rb: 1 }, &mut regs, &memory, &SoftFloat).unwrap();
    assert_eq!(regs.gpr[2], 0x4433_2211);
    interp.execute_with_memory(Instruction::Lhbrx { rt: 3, ra: 0, rb: 1 }, &mut regs, &memory, &SoftFloat).unwrap();
    assert_eq!(regs.gpr[3], 0x2211);
    regs.gpr[4] = 0x900;
    regs.gpr[5] = 0xA1B2_C3D4;
    interp.execute_with_memory(Instruction::Stwbrx { rs: 5, ra: 0, rb: 4 }, &mut regs, &memory, &SoftFloat).unwrap();
    assert_eq!(memory.read_u32(0x900).unwrap(), 0xD4C3_B2A1);
    interp.execute_with_memory(Instruction::Sthbrx { rs: 5, ra: 0, rb: 4 }, &mut regs, &memory, &SoftFloat).unwrap();
    assert_eq!(memory.read_u16(0x900).unwrap(), 0xD4C3);
}

#[test]
fn reserved_load_and_conditional_store() {
    let memory = TestMemory::new();
    memory.write_u32(0xA00, 41).unwrap();
    let mut regs = Registers::new(PpcModel::G4);
    regs.gpr[1] = 0xA00;
    regs.xer = XER_SO;
    let mut interp = Interpreter::new();
    interp.execute_with_memory(Instruction::Lwarx { rt: 2, ra: 0, rb: 1 }, &mut regs, &memory, &SoftFloat).unwrap();
    assert_eq!(regs.gpr[2], 41);
    regs.gpr[2] = 42;
    interp.execute_with_memory(Instruction::Stwcx { rs: 2, ra: 0, rb: 1 }, &mut regs, &memory, &SoftFloat).unwrap();
    assert_eq!(memory.read_u32(0xA00).unwrap(), 42);
    assert_eq!(regs.cr >> 28, 0b0011);
}
