//! The PowerPC instruction interpreter.
use vstd::prelude::*;
use vstd::string::StringExecFns;
use crate::cpu::MemoryInterface;
use crate::decoder::{Instruction, spec_decode_instruction, spec_decode_altivec, spec_decode_extended_19, spec_decode_extended_31, spec_decode_extended_59, spec_decode_extended_63, spec_field_rt, spec_field_rs, spec_field_ra, spec_field_rb, spec_field_rc, spec_field_bi, spec_field_bt, spec_field_ba, spec_field_bb, spec_field_sh, spec_field_mb, spec_field_me, spec_field_crfd, spec_field_crfs, spec_field_spr, spec_field_vd, spec_field_va, spec_field_vb, spec_field_vc};
use crate::exec_result::ExecResult;
use crate::text::{hex8, hex8_chars};
use crate::error::Error;
use crate::registers::{Registers, XER_SO, cr_nibble, with_cr_field, cr0_after, has_flag};

pub mod arithmetic;
pub mod logical;
pub mod shifts;
pub mod compare;
pub mod crlogical;
pub mod branches;
pub mod system;
pub mod loadstore;
pub mod altivec;

verus! {

/// The host floating-point unit, which carries out what needs IEEE-754
/// arithmetic on the interpreter's behalf.
pub trait FloatUnit {
    /// Carry out a floating-point arithmetic, compare or conversion
    /// instruction (scalar or vector) on the registers.
    fn execute_fp(&self, instr: Instruction, regs: &mut Registers) -> Result<(), Error>;

    /// Whether `wide` is what widening the single `bits` can give. A unit
    /// that states nothing keeps the default, under which any bits are
    /// possible.
    open spec fn widens(&self, bits: u32, wide: u64) -> bool {
        true
    }

    /// Whether `narrow` is what narrowing the double `bits` can give. A
    /// unit that states nothing keeps the default, under which any bits are
    /// possible.
    open spec fn narrows(&self, bits: u64, narrow: u32) -> bool {
        true
    }

    /// The bits of the double equal to the single whose bits are `bits`.
    fn single_to_double(&self, bits: u32) -> (r: u64)
        ensures
            self.widens(bits, r),
    ;

    /// The bits of the single nearest the double whose bits are `bits`.
    fn double_to_single(&self, bits: u64) -> (r: u32)
        ensures
            self.narrows(bits, r),
    ;
}

/// Record `result` in CR0: LT, GT and EQ from its signed value, SO from XER.
pub fn update_cr0(regs: &mut Registers, result: u32)
    ensures
        final(regs).cr == cr0_after(old(regs).cr, result, has_flag(old(regs).xer, XER_SO)),
        final(regs).gpr == old(regs).gpr && final(regs).xer == old(regs).xer,
        old(regs).same_except_gpr_xer_cr(*final(regs)),
{
    let lt = (result as i32) < 0;
    let gt = (result as i32) > 0;
    let eq = result == 0;
    let so = regs.xer & XER_SO != 0;
    set_cr_field(regs, 0, lt, gt, eq, so);
}

/// Set condition register field `field` from the four flags.
pub fn set_cr_field(regs: &mut Registers, field: u8, lt: bool, gt: bool, eq: bool, so: bool)
    requires
        field < 8,
    ensures
        final(regs).cr == with_cr_field(old(regs).cr, field as u32, cr_nibble(lt, gt, eq, so)),
        final(regs).gpr == old(regs).gpr && final(regs).xer == old(regs).xer,
        old(regs).same_except_gpr_xer_cr(*final(regs)),
{
    let shift: u32 = 28 - (field as u32) * 4;
    let mask: u32 = 0xFu32 << shift;
    let nibble: u32 = (if lt { 8u32 } else { 0u32 }) + (if gt { 4u32 } else { 0u32 }) + (if eq { 2u32 } else { 0u32 }) + (if so { 1u32 } else { 0u32 });
    regs.cr = (regs.cr & !mask) | (nibble << shift);
}

/// The register and field extractors of the decoder give in-range values.
proof fn lemma_fields_in_range(w: u32)
    ensures
        spec_field_rt(w) < 32 && spec_field_rs(w) < 32 && spec_field_ra(w) < 32 && spec_field_rb(w) < 32,
        spec_field_rc(w) < 32 && spec_field_bi(w) < 32 && spec_field_bt(w) < 32 && spec_field_ba(w) < 32,
        spec_field_bb(w) < 32 && spec_field_sh(w) < 32 && spec_field_mb(w) < 32 && spec_field_me(w) < 32,
        spec_field_crfd(w) < 8 && spec_field_crfs(w) < 8 && spec_field_spr(w) < 1024,
        spec_field_vd(w) < 32 && spec_field_va(w) < 32 && spec_field_vb(w) < 32 && spec_field_vc(w) < 32,
{
    assert((((w >> 21) & 0x1F) as u8) < 32 && (((w >> 16) & 0x1F) as u8) < 32 && (((w >> 11) & 0x1F) as u8) < 32
        && (((w >> 6) & 0x1F) as u8) < 32 && (((w >> 1) & 0x1F) as u8) < 32 && (((w >> 23) & 0x7) as u8) < 8
        && (((w >> 18) & 0x7) as u8) < 8
        && (((((w >> 11) & 0x1F) as u16) << 5u16) | (((w >> 16) & 0x1F) as u16)) < 1024) by (bit_vector);
}

#[verifier::rlimit(100)]
#[verifier::spinoff_prover]
proof fn lemma_altivec_operands_valid(word: u32, pc: u32)
    requires
        pc <= u32::MAX - 4 || !links(spec_decode_altivec(word)),
    ensures
        operands_valid(spec_decode_altivec(word), pc),
{
    lemma_fields_in_range(word);
}

#[verifier::rlimit(100)]
#[verifier::spinoff_prover]
proof fn lemma_extended_19_operands_valid(word: u32, pc: u32)
    requires
        pc <= u32::MAX - 4 || !links(spec_decode_extended_19(word)),
    ensures
        operands_valid(spec_decode_extended_19(word), pc),
{
    lemma_fields_in_range(word);
}

#[verifier::rlimit(100)]
#[verifier::spinoff_prover]
proof fn lemma_extended_31_operands_valid(word: u32, pc: u32)
    requires
        pc <= u32::MAX - 4 || !links(spec_decode_extended_31(word)),
    ensures
        operands_valid(spec_decode_extended_31(word), pc),
{
    lemma_fields_in_range(word);
}

#[verifier::rlimit(100)]
#[verifier::spinoff_prover]
proof fn lemma_extended_59_operands_valid(word: u32, pc: u32)
    requires
        pc <= u32::MAX - 4 || !links(spec_decode_extended_59(word)),
    ensures
        operands_valid(spec_decode_extended_59(word), pc),
{
    lemma_fields_in_range(word);
}

#[verifier::rlimit(100)]
#[verifier::spinoff_prover]
proof fn lemma_extended_63_operands_valid(word: u32, pc: u32)
    requires
        pc <= u32::MAX - 4 || !links(spec_decode_extended_63(word)),
    ensures
        operands_valid(spec_decode_extended_63(word), pc),
{
    lemma_fields_in_range(word);
}

/// Whether `i` is a branch that stores a return address in LR.
pub open spec fn links(i: Instruction) -> bool {
    match i {
        Instruction::B { lk, .. } => lk,
        Instruction::Bc { lk, .. } => lk,
        Instruction::Bcctr { lk, .. } => lk,
        Instruction::Bclr { lk, .. } => lk,
        _ => false,
    }
}

/// Whether `i` is a branch that stores a return address in LR.
pub fn instruction_links(i: &Instruction) -> (r: bool)
    ensures
        r == links(*i),
{
    match i {
        Instruction::B { lk, .. } => *lk,
        Instruction::Bc { lk, .. } => *lk,
        Instruction::Bcctr { lk, .. } => *lk,
        Instruction::Bclr { lk, .. } => *lk,
        _ => false,
    }
}

/// Every instruction the decoder produces has its register numbers and
/// fields in range, so a decoded word can always be executed, wherever a
/// linking branch has room to store its return address.
#[verifier::rlimit(100)]
#[verifier::spinoff_prover]
pub proof fn law_decoded_operands_valid(word: u32, pc: u32)
    requires
        pc <= u32::MAX - 4 || !links(spec_decode_instruction(word)),
    ensures
        operands_valid(spec_decode_instruction(word), pc),
{
    lemma_fields_in_range(word);
    let opcode = (word >> 26) & 0x3F;
    if opcode == 4 {
        lemma_altivec_operands_valid(word, pc);
    } else if opcode == 19 {
        lemma_extended_19_operands_valid(word, pc);
    } else if opcode == 31 {
        lemma_extended_31_operands_valid(word, pc);
    } else if opcode == 59 {
        lemma_extended_59_operands_valid(word, pc);
    } else if opcode == 63 {
        lemma_extended_63_operands_valid(word, pc);
    }
}

/// The register numbers and fields of `i` are in range, and a branch that
/// links is not at the top of the address space.
pub open spec fn operands_valid(i: Instruction, pc: u32) -> bool {
    match i {
        Instruction::Add { rt, ra, rb, oe, rc } => rt < 32 && ra < 32 && rb < 32,
        Instruction::Addc { rt, ra, rb, oe, rc } => rt < 32 && ra < 32 && rb < 32,
        Instruction::Adde { rt, ra, rb, oe, rc } => rt < 32 && ra < 32 && rb < 32,
        Instruction::Addi { rt, ra, simm } => rt < 32 && ra < 32,
        Instruction::Addic { rt, ra, simm } => rt < 32 && ra < 32,
        Instruction::AddicDot { rt, ra, simm } => rt < 32 && ra < 32,
        Instruction::Addis { rt, ra, simm } => rt < 32 && ra < 32,
        Instruction::Addme { rt, ra, oe, rc } => rt < 32 && ra < 32,
        Instruction::Addze { rt, ra, oe, rc } => rt < 32 && ra < 32,
        Instruction::Divw { rt, ra, rb, oe, rc } => rt < 32 && ra < 32 && rb < 32,
        Instruction::Divwu { rt, ra, rb, oe, rc } => rt < 32 && ra < 32 && rb < 32,
        Instruction::Mulhw { rt, ra, rb, rc } => rt < 32 && ra < 32 && rb < 32,
        Instruction::Mulhwu { rt, ra, rb, rc } => rt < 32 && ra < 32 && rb < 32,
        Instruction::Mulli { rt, ra, simm } => rt < 32 && ra < 32,
        Instruction::Mullw { rt, ra, rb, oe, rc } => rt < 32 && ra < 32 && rb < 32,
        Instruction::Neg { rt, ra, oe, rc } => rt < 32 && ra < 32,
        Instruction::Subf { rt, ra, rb, oe, rc } => rt < 32 && ra < 32 && rb < 32,
        Instruction::Subfc { rt, ra, rb, oe, rc } => rt < 32 && ra < 32 && rb < 32,
        Instruction::Subfe { rt, ra, rb, oe, rc } => rt < 32 && ra < 32 && rb < 32,
        Instruction::Subfic { rt, ra, simm } => rt < 32 && ra < 32,
        Instruction::Subfme { rt, ra, oe, rc } => rt < 32 && ra < 32,
        Instruction::Subfze { rt, ra, oe, rc } => rt < 32 && ra < 32,
        Instruction::And { ra, rs, rb, rc } => ra < 32 && rs < 32 && rb < 32,
        Instruction::Andc { ra, rs, rb, rc } => ra < 32 && rs < 32 && rb < 32,
        Instruction::Andi { ra, rs, uimm } => ra < 32 && rs < 32,
        Instruction::Andis { ra, rs, uimm } => ra < 32 && rs < 32,
        Instruction::Cntlzw { ra, rs, rc } => ra < 32 && rs < 32,
        Instruction::Eqv { ra, rs, rb, rc } => ra < 32 && rs < 32 && rb < 32,
        Instruction::Extsb { ra, rs, rc } => ra < 32 && rs < 32,
        Instruction::Extsh { ra, rs, rc } => ra < 32 && rs < 32,
        Instruction::Nand { ra, rs, rb, rc } => ra < 32 && rs < 32 && rb < 32,
        Instruction::Nor { ra, rs, rb, rc } => ra < 32 && rs < 32 && rb < 32,
        Instruction::Or { ra, rs, rb, rc } => ra < 32 && rs < 32 && rb < 32,
        Instruction::Orc { ra, rs, rb, rc } => ra < 32 && rs < 32 && rb < 32,
        Instruction::Ori { ra, rs, uimm } => ra < 32 && rs < 32,
        Instruction::Oris { ra, rs, uimm } => ra < 32 && rs < 32,
        Instruction::Xor { ra, rs, rb, rc } => ra < 32 && rs < 32 && rb < 32,
        Instruction::Xori { ra, rs, uimm } => ra < 32 && rs < 32,
        Instruction::Xoris { ra, rs, uimm } => ra < 32 && rs < 32,
        Instruction::Rlwimi { ra, rs, sh, mb, me, rc } => ra < 32 && rs < 32 && mb < 32 && me < 32,
        Instruction::Rlwinm { ra, rs, sh, mb, me, rc } => ra < 32 && rs < 32 && mb < 32 && me < 32,
        Instruction::Rlwnm { ra, rs, rb, mb, me, rc } => ra < 32 && rs < 32 && rb < 32 && mb < 32 && me < 32,
        Instruction::Slw { ra, rs, rb, rc } => ra < 32 && rs < 32 && rb < 32,
        Instruction::Sraw { ra, rs, rb, rc } => ra < 32 && rs < 32 && rb < 32,
        Instruction::Srawi { ra, rs, sh, rc } => ra < 32 && rs < 32 && sh < 32,
        Instruction::Srw { ra, rs, rb, rc } => ra < 32 && rs < 32 && rb < 32,
        Instruction::Cmp { crfd, l, ra, rb } => crfd < 8 && ra < 32 && rb < 32,
        Instruction::Cmpi { crfd, l, ra, simm } => crfd < 8 && ra < 32,
        Instruction::Cmpl { crfd, l, ra, rb } => crfd < 8 && ra < 32 && rb < 32,
        Instruction::Cmpli { crfd, l, ra, uimm } => crfd < 8 && ra < 32,
        Instruction::Lbz { rt, ra, d } => rt < 32 && ra < 32,
        Instruction::Lbzu { rt, ra, d } => rt < 32 && ra < 32,
        Instruction::Lbzux { rt, ra, rb } => rt < 32 && ra < 32 && rb < 32,
        Instruction::Lbzx { rt, ra, rb } => rt < 32 && ra < 32 && rb < 32,
        Instruction::Lwarx { rt, ra, rb } => rt < 32 && ra < 32 && rb < 32,
        Instruction::Stwcx { rs, ra, rb } => rs < 32 && ra < 32 && rb < 32,
        Instruction::Lwbrx { rt, ra, rb } => rt < 32 && ra < 32 && rb < 32,
        Instruction::Lhbrx { rt, ra, rb } => rt < 32 && ra < 32 && rb < 32,
        Instruction::Stwbrx { rs, ra, rb } => rs < 32 && ra < 32 && rb < 32,
        Instruction::Sthbrx { rs, ra, rb } => rs < 32 && ra < 32 && rb < 32,
        Instruction::Lha { rt, ra, d } => rt < 32 && ra < 32,
        Instruction::Lhau { rt, ra, d } => rt < 32 && ra < 32,
        Instruction::Lhaux { rt, ra, rb } => rt < 32 && ra < 32 && rb < 32,
        Instruction::Lhax { rt, ra, rb } => rt < 32 && ra < 32 && rb < 32,
        Instruction::Lhz { rt, ra, d } => rt < 32 && ra < 32,
        Instruction::Lhzu { rt, ra, d } => rt < 32 && ra < 32,
        Instruction::Lhzux { rt, ra, rb } => rt < 32 && ra < 32 && rb < 32,
        Instruction::Lhzx { rt, ra, rb } => rt < 32 && ra < 32 && rb < 32,
        Instruction::Lwz { rt, ra, d } => rt < 32 && ra < 32,
        Instruction::Lwzu { rt, ra, d } => rt < 32 && ra < 32,
        Instruction::Lwzux { rt, ra, rb } => rt < 32 && ra < 32 && rb < 32,
        Instruction::Lwzx { rt, ra, rb } => rt < 32 && ra < 32 && rb < 32,
        Instruction::Stb { rs, ra, d } => rs < 32 && ra < 32,
        Instruction::Stbu { rs, ra, d } => rs < 32 && ra < 32,
        Instruction::Stbux { rs, ra, rb } => rs < 32 && ra < 32 && rb < 32,
        Instruction::Stbx { rs, ra, rb } => rs < 32 && ra < 32 && rb < 32,
        Instruction::Sth { rs, ra, d } => rs < 32 && ra < 32,
        Instruction::Sthu { rs, ra, d } => rs < 32 && ra < 32,
        Instruction::Sthux { rs, ra, rb } => rs < 32 && ra < 32 && rb < 32,
        Instruction::Sthx { rs, ra, rb } => rs < 32 && ra < 32 && rb < 32,
        Instruction::Stw { rs, ra, d } => rs < 32 && ra < 32,
        Instruction::Stwu { rs, ra, d } => rs < 32 && ra < 32,
        Instruction::Stwux { rs, ra, rb } => rs < 32 && ra < 32 && rb < 32,
        Instruction::Stwx { rs, ra, rb } => rs < 32 && ra < 32 && rb < 32,
        Instruction::Lmw { rt, ra, d } => rt < 32 && ra < 32,
        Instruction::Stmw { rs, ra, d } => rs < 32 && ra < 32,
        Instruction::Lswi { rt, ra, nb } => rt < 32 && ra < 32 && nb < 32,
        Instruction::Lswx { rt, ra, rb } => rt < 32 && ra < 32 && rb < 32,
        Instruction::Stswi { rs, ra, nb } => rs < 32 && ra < 32 && nb < 32,
        Instruction::Stswx { rs, ra, rb } => rs < 32 && ra < 32 && rb < 32,
        Instruction::B { li, aa, lk } => (lk ==> pc <= u32::MAX - 4),
        Instruction::Bc { bo, bi, bd, aa, lk } => bi < 32 && (lk ==> pc <= u32::MAX - 4),
        Instruction::Bcctr { bo, bi, lk } => bi < 32 && (lk ==> pc <= u32::MAX - 4),
        Instruction::Bclr { bo, bi, lk } => bi < 32 && (lk ==> pc <= u32::MAX - 4),
        Instruction::Crand { bt, ba, bb } => bt < 32 && ba < 32 && bb < 32,
        Instruction::Crandc { bt, ba, bb } => bt < 32 && ba < 32 && bb < 32,
        Instruction::Creqv { bt, ba, bb } => bt < 32 && ba < 32 && bb < 32,
        Instruction::Crnand { bt, ba, bb } => bt < 32 && ba < 32 && bb < 32,
        Instruction::Crnor { bt, ba, bb } => bt < 32 && ba < 32 && bb < 32,
        Instruction::Cror { bt, ba, bb } => bt < 32 && ba < 32 && bb < 32,
        Instruction::Crorc { bt, ba, bb } => bt < 32 && ba < 32 && bb < 32,
        Instruction::Crxor { bt, ba, bb } => bt < 32 && ba < 32 && bb < 32,
        Instruction::Mcrf { crfd, crfs } => crfd < 8 && crfs < 8,
        Instruction::Mcrxr { crfd } => crfd < 8,
        Instruction::Mfcr { rt } => rt < 32,
        Instruction::Mfmsr { rt } => rt < 32,
        Instruction::Mfspr { rt, spr } => rt < 32 && spr < 1024,
        Instruction::Mfsr { rt, sr } => rt < 32,
        Instruction::Mfsrin { rt, rb } => rt < 32 && rb < 32,
        Instruction::Mftb { rt, tbr } => rt < 32,
        Instruction::Mtcrf { fxm, rs } => rs < 32,
        Instruction::Mtmsr { rs } => rs < 32,
        Instruction::Mtspr { spr, rs } => spr < 1024 && rs < 32,
        Instruction::Mtsr { sr, rs } => rs < 32,
        Instruction::Mtsrin { rs, rb } => rs < 32 && rb < 32,
        Instruction::Dcbf { ra, rb } => ra < 32 && rb < 32,
        Instruction::Dcbi { ra, rb } => ra < 32 && rb < 32,
        Instruction::Dcbst { ra, rb } => ra < 32 && rb < 32,
        Instruction::Dcbt { ra, rb } => ra < 32 && rb < 32,
        Instruction::Dcbtst { ra, rb } => ra < 32 && rb < 32,
        Instruction::Dcbz { ra, rb } => ra < 32 && rb < 32,
        Instruction::Icbi { ra, rb } => ra < 32 && rb < 32,
        Instruction::Tlbie { rb } => rb < 32,
        Instruction::Tlbia => true,
        Instruction::Tlbsync => true,
        Instruction::Eciwx { rt, ra, rb } => rt < 32 && ra < 32 && rb < 32,
        Instruction::Ecowx { rs, ra, rb } => rs < 32 && ra < 32 && rb < 32,
        Instruction::Eieio => true,
        Instruction::Isync => true,
        Instruction::Sync => true,
        Instruction::Tw { to, ra, rb } => ra < 32 && rb < 32,
        Instruction::Twi { to, ra, simm } => ra < 32,
        Instruction::Sc => true,
        Instruction::Rfi => true,
        Instruction::Fadd { frt, fra, frb, rc } => frt < 32 && fra < 32 && frb < 32,
        Instruction::Fadds { frt, fra, frb, rc } => frt < 32 && fra < 32 && frb < 32,
        Instruction::Fdiv { frt, fra, frb, rc } => frt < 32 && fra < 32 && frb < 32,
        Instruction::Fdivs { frt, fra, frb, rc } => frt < 32 && fra < 32 && frb < 32,
        Instruction::Fmul { frt, fra, frc, rc } => frt < 32 && fra < 32 && frc < 32,
        Instruction::Fmuls { frt, fra, frc, rc } => frt < 32 && fra < 32 && frc < 32,
        Instruction::Fsub { frt, fra, frb, rc } => frt < 32 && fra < 32 && frb < 32,
        Instruction::Fsubs { frt, fra, frb, rc } => frt < 32 && fra < 32 && frb < 32,
        Instruction::Fneg { frt, frb, rc } => frt < 32 && frb < 32,
        Instruction::Fabs { frt, frb, rc } => frt < 32 && frb < 32,
        Instruction::Fmr { frt, frb, rc } => frt < 32 && frb < 32,
        Instruction::Fsqrt { frt, frb, rc } => frt < 32 && frb < 32,
        Instruction::Fsqrts { frt, frb, rc } => frt < 32 && frb < 32,
        Instruction::Fmadd { frt, fra, frc, frb, rc } => frt < 32 && fra < 32 && frc < 32 && frb < 32,
        Instruction::Fmadds { frt, fra, frc, frb, rc } => frt < 32 && fra < 32 && frc < 32 && frb < 32,
        Instruction::Fmsub { frt, fra, frc, frb, rc } => frt < 32 && fra < 32 && frc < 32 && frb < 32,
        Instruction::Fmsubs { frt, fra, frc, frb, rc } => frt < 32 && fra < 32 && frc < 32 && frb < 32,
        Instruction::Fnmadd { frt, fra, frc, frb, rc } => frt < 32 && fra < 32 && frc < 32 && frb < 32,
        Instruction::Fnmadds { frt, fra, frc, frb, rc } => frt < 32 && fra < 32 && frc < 32 && frb < 32,
        Instruction::Fnmsub { frt, fra, frc, frb, rc } => frt < 32 && fra < 32 && frc < 32 && frb < 32,
        Instruction::Fnmsubs { frt, fra, frc, frb, rc } => frt < 32 && fra < 32 && frc < 32 && frb < 32,
        Instruction::Fcmpu { crfd, fra, frb } => crfd < 8 && fra < 32 && frb < 32,
        Instruction::Fcmpo { crfd, fra, frb } => crfd < 8 && fra < 32 && frb < 32,
        Instruction::Fctiwz { frt, frb, rc } => frt < 32 && frb < 32,
        Instruction::Frsp { frt, frb, rc } => frt < 32 && frb < 32,
        Instruction::Lfd { frt, ra, d } => frt < 32 && ra < 32,
        Instruction::Lfdu { frt, ra, d } => frt < 32 && ra < 32,
        Instruction::Lfs { frt, ra, d } => frt < 32 && ra < 32,
        Instruction::Lfsu { frt, ra, d } => frt < 32 && ra < 32,
        Instruction::Stfd { frs, ra, d } => frs < 32 && ra < 32,
        Instruction::Stfdu { frs, ra, d } => frs < 32 && ra < 32,
        Instruction::Stfs { frs, ra, d } => frs < 32 && ra < 32,
        Instruction::Stfsu { frs, ra, d } => frs < 32 && ra < 32,
        Instruction::Vaddfp { vd, va, vb } => vd < 32 && va < 32 && vb < 32,
        Instruction::Vsubfp { vd, va, vb } => vd < 32 && va < 32 && vb < 32,
        Instruction::Vmaddfp { vd, va, vb, vc } => vd < 32 && va < 32 && vb < 32 && vc < 32,
        Instruction::Vnmsubfp { vd, va, vb, vc } => vd < 32 && va < 32 && vb < 32 && vc < 32,
        Instruction::Vaddubm { vd, va, vb } => vd < 32 && va < 32 && vb < 32,
        Instruction::Vadduhm { vd, va, vb } => vd < 32 && va < 32 && vb < 32,
        Instruction::Vadduwm { vd, va, vb } => vd < 32 && va < 32 && vb < 32,
        Instruction::Vaddubs { vd, va, vb } => vd < 32 && va < 32 && vb < 32,
        Instruction::Vadduhs { vd, va, vb } => vd < 32 && va < 32 && vb < 32,
        Instruction::Vadduws { vd, va, vb } => vd < 32 && va < 32 && vb < 32,
        Instruction::Vaddsbs { vd, va, vb } => vd < 32 && va < 32 && vb < 32,
        Instruction::Vaddshs { vd, va, vb } => vd < 32 && va < 32 && vb < 32,
        Instruction::Vaddsws { vd, va, vb } => vd < 32 && va < 32 && vb < 32,
        Instruction::Vsububm { vd, va, vb } => vd < 32 && va < 32 && vb < 32,
        Instruction::Vsubuhm { vd, va, vb } => vd < 32 && va < 32 && vb < 32,
        Instruction::Vsubuwm { vd, va, vb } => vd < 32 && va < 32 && vb < 32,
        Instruction::Vmaxsb { vd, va, vb } => vd < 32 && va < 32 && vb < 32,
        Instruction::Vmaxsh { vd, va, vb } => vd < 32 && va < 32 && vb < 32,
        Instruction::Vmaxsw { vd, va, vb } => vd < 32 && va < 32 && vb < 32,
        Instruction::Vmaxub { vd, va, vb } => vd < 32 && va < 32 && vb < 32,
        Instruction::Vmaxuh { vd, va, vb } => vd < 32 && va < 32 && vb < 32,
        Instruction::Vmaxuw { vd, va, vb } => vd < 32 && va < 32 && vb < 32,
        Instruction::Vmaxfp { vd, va, vb } => vd < 32 && va < 32 && vb < 32,
        Instruction::Vminsb { vd, va, vb } => vd < 32 && va < 32 && vb < 32,
        Instruction::Vminsh { vd, va, vb } => vd < 32 && va < 32 && vb < 32,
        Instruction::Vminsw { vd, va, vb } => vd < 32 && va < 32 && vb < 32,
        Instruction::Vminub { vd, va, vb } => vd < 32 && va < 32 && vb < 32,
        Instruction::Vminuh { vd, va, vb } => vd < 32 && va < 32 && vb < 32,
        Instruction::Vminuw { vd, va, vb } => vd < 32 && va < 32 && vb < 32,
        Instruction::Vminfp { vd, va, vb } => vd < 32 && va < 32 && vb < 32,
        Instruction::Vavgub { vd, va, vb } => vd < 32 && va < 32 && vb < 32,
        Instruction::Vavguh { vd, va, vb } => vd < 32 && va < 32 && vb < 32,
        Instruction::Vavguw { vd, va, vb } => vd < 32 && va < 32 && vb < 32,
        Instruction::Vavgsb { vd, va, vb } => vd < 32 && va < 32 && vb < 32,
        Instruction::Vavgsh { vd, va, vb } => vd < 32 && va < 32 && vb < 32,
        Instruction::Vavgsw { vd, va, vb } => vd < 32 && va < 32 && vb < 32,
        Instruction::Vmuleub { vd, va, vb } => vd < 32 && va < 32 && vb < 32,
        Instruction::Vmuloub { vd, va, vb } => vd < 32 && va < 32 && vb < 32,
        Instruction::Vmulesb { vd, va, vb } => vd < 32 && va < 32 && vb < 32,
        Instruction::Vmulosb { vd, va, vb } => vd < 32 && va < 32 && vb < 32,
        Instruction::Vmuleuh { vd, va, vb } => vd < 32 && va < 32 && vb < 32,
        Instruction::Vmulouh { vd, va, vb } => vd < 32 && va < 32 && vb < 32,
        Instruction::Vmulesh { vd, va, vb } => vd < 32 && va < 32 && vb < 32,
        Instruction::Vmulosh { vd, va, vb } => vd < 32 && va < 32 && vb < 32,
        Instruction::Vand { vd, va, vb } => vd < 32 && va < 32 && vb < 32,
        Instruction::Vandc { vd, va, vb } => vd < 32 && va < 32 && vb < 32,
        Instruction::Vor { vd, va, vb } => vd < 32 && va < 32 && vb < 32,
        Instruction::Vnor { vd, va, vb } => vd < 32 && va < 32 && vb < 32,
        Instruction::Vxor { vd, va, vb } => vd < 32 && va < 32 && vb < 32,
        Instruction::Vcmpequb { vd, va, vb, rc } => vd < 32 && va < 32 && vb < 32,
        Instruction::Vcmpequh { vd, va, vb, rc } => vd < 32 && va < 32 && vb < 32,
        Instruction::Vcmpequw { vd, va, vb, rc } => vd < 32 && va < 32 && vb < 32,
        Instruction::Vcmpeqfp { vd, va, vb, rc } => vd < 32 && va < 32 && vb < 32,
        Instruction::Vcmpgtsb { vd, va, vb, rc } => vd < 32 && va < 32 && vb < 32,
        Instruction::Vcmpgtsh { vd, va, vb, rc } => vd < 32 && va < 32 && vb < 32,
        Instruction::Vcmpgtsw { vd, va, vb, rc } => vd < 32 && va < 32 && vb < 32,
        Instruction::Vcmpgtub { vd, va, vb, rc } => vd < 32 && va < 32 && vb < 32,
        Instruction::Vcmpgtuh { vd, va, vb, rc } => vd < 32 && va < 32 && vb < 32,
        Instruction::Vcmpgtuw { vd, va, vb, rc } => vd < 32 && va < 32 && vb < 32,
        Instruction::Vcmpgtfp { vd, va, vb, rc } => vd < 32 && va < 32 && vb < 32,
        Instruction::Vcmpgefp { vd, va, vb, rc } => vd < 32 && va < 32 && vb < 32,
        Instruction::Vslb { vd, va, vb } => vd < 32 && va < 32 && vb < 32,
        Instruction::Vslh { vd, va, vb } => vd < 32 && va < 32 && vb < 32,
        Instruction::Vslw { vd, va, vb } => vd < 32 && va < 32 && vb < 32,
        Instruction::Vsrb { vd, va, vb } => vd < 32 && va < 32 && vb < 32,
        Instruction::Vsrh { vd, va, vb } => vd < 32 && va < 32 && vb < 32,
        Instruction::Vsrw { vd, va, vb } => vd < 32 && va < 32 && vb < 32,
        Instruction::Vsrab { vd, va, vb } => vd < 32 && va < 32 && vb < 32,
        Instruction::Vsrah { vd, va, vb } => vd < 32 && va < 32 && vb < 32,
        Instruction::Vsraw { vd, va, vb } => vd < 32 && va < 32 && vb < 32,
        Instruction::Vrlb { vd, va, vb } => vd < 32 && va < 32 && vb < 32,
        Instruction::Vrlh { vd, va, vb } => vd < 32 && va < 32 && vb < 32,
        Instruction::Vrlw { vd, va, vb } => vd < 32 && va < 32 && vb < 32,
        Instruction::Vsl { vd, va, vb } => vd < 32 && va < 32 && vb < 32,
        Instruction::Vsr { vd, va, vb } => vd < 32 && va < 32 && vb < 32,
        Instruction::Vperm { vd, va, vb, vc } => vd < 32 && va < 32 && vb < 32 && vc < 32,
        Instruction::Vsel { vd, va, vb, vc } => vd < 32 && va < 32 && vb < 32 && vc < 32,
        Instruction::Vspltb { vd, vb, uimm } => vd < 32 && vb < 32,
        Instruction::Vsplth { vd, vb, uimm } => vd < 32 && vb < 32,
        Instruction::Vspltw { vd, vb, uimm } => vd < 32 && vb < 32,
        Instruction::Vspltisb { vd, simm } => vd < 32,
        Instruction::Vspltish { vd, simm } => vd < 32,
        Instruction::Vspltisw { vd, simm } => vd < 32,
        Instruction::Vmrghb { vd, va, vb } => vd < 32 && va < 32 && vb < 32,
        Instruction::Vmrghh { vd, va, vb } => vd < 32 && va < 32 && vb < 32,
        Instruction::Vmrghw { vd, va, vb } => vd < 32 && va < 32 && vb < 32,
        Instruction::Vmrglb { vd, va, vb } => vd < 32 && va < 32 && vb < 32,
        Instruction::Vmrglh { vd, va, vb } => vd < 32 && va < 32 && vb < 32,
        Instruction::Vmrglw { vd, va, vb } => vd < 32 && va < 32 && vb < 32,
        Instruction::Vpkuhus { vd, va, vb } => vd < 32 && va < 32 && vb < 32,
        Instruction::Vpkuwus { vd, va, vb } => vd < 32 && va < 32 && vb < 32,
        Instruction::Vpkshss { vd, va, vb } => vd < 32 && va < 32 && vb < 32,
        Instruction::Vpkshus { vd, va, vb } => vd < 32 && va < 32 && vb < 32,
        Instruction::Vpkswss { vd, va, vb } => vd < 32 && va < 32 && vb < 32,
        Instruction::Vpkswus { vd, va, vb } => vd < 32 && va < 32 && vb < 32,
        Instruction::Vpkpx { vd, va, vb } => vd < 32 && va < 32 && vb < 32,
        Instruction::Vupkhsb { vd, vb } => vd < 32 && vb < 32,
        Instruction::Vupklsb { vd, vb } => vd < 32 && vb < 32,
        Instruction::Vupkhsh { vd, vb } => vd < 32 && vb < 32,
        Instruction::Vupklsh { vd, vb } => vd < 32 && vb < 32,
        Instruction::Vupkhpx { vd, vb } => vd < 32 && vb < 32,
        Instruction::Vupklpx { vd, vb } => vd < 32 && vb < 32,
        Instruction::Lvx { vd, ra, rb } => vd < 32 && ra < 32 && rb < 32,
        Instruction::Stvx { vs, ra, rb } => vs < 32 && ra < 32 && rb < 32,
        Instruction::Lvxl { vd, ra, rb } => vd < 32 && ra < 32 && rb < 32,
        Instruction::Stvxl { vs, ra, rb } => vs < 32 && ra < 32 && rb < 32,
        Instruction::Lvebx { vd, ra, rb } => vd < 32 && ra < 32 && rb < 32,
        Instruction::Lvehx { vd, ra, rb } => vd < 32 && ra < 32 && rb < 32,
        Instruction::Lvewx { vd, ra, rb } => vd < 32 && ra < 32 && rb < 32,
        Instruction::Stvebx { vs, ra, rb } => vs < 32 && ra < 32 && rb < 32,
        Instruction::Stvehx { vs, ra, rb } => vs < 32 && ra < 32 && rb < 32,
        Instruction::Stvewx { vs, ra, rb } => vs < 32 && ra < 32 && rb < 32,
        Instruction::Lvsl { vd, ra, rb } => vd < 32 && ra < 32 && rb < 32,
        Instruction::Lvsr { vd, ra, rb } => vd < 32 && ra < 32 && rb < 32,
        Instruction::Nop => true,
        Instruction::Unknown { opcode } => true,
    }
}

/// What executing `i` without memory access does: from registers `s` to `t`
/// with result `r`.
pub open spec fn execute_effect(s: Registers, t: Registers, i: Instruction, r: Result<ExecResult, Error>) -> bool {
    match i {
        Instruction::Add { rt, ra, rb, oe, rc } => r == Ok::<ExecResult, Error>(ExecResult::Continue) && arithmetic::add_effect(s, t, rt, ra, rb, oe, rc),
        Instruction::Addc { rt, ra, rb, oe, rc } => r == Ok::<ExecResult, Error>(ExecResult::Continue) && arithmetic::addc_effect(s, t, rt, ra, rb, oe, rc),
        Instruction::Adde { rt, ra, rb, oe, rc } => r == Ok::<ExecResult, Error>(ExecResult::Continue) && arithmetic::adde_effect(s, t, rt, ra, rb, oe, rc),
        Instruction::Addi { rt, ra, simm } => r == Ok::<ExecResult, Error>(ExecResult::Continue) && arithmetic::addi_effect(s, t, rt, ra, simm),
        Instruction::Addic { rt, ra, simm } => r == Ok::<ExecResult, Error>(ExecResult::Continue) && arithmetic::addic_effect(s, t, rt, ra, simm, false),
        Instruction::AddicDot { rt, ra, simm } => r == Ok::<ExecResult, Error>(ExecResult::Continue) && arithmetic::addic_effect(s, t, rt, ra, simm, true),
        Instruction::Addis { rt, ra, simm } => r == Ok::<ExecResult, Error>(ExecResult::Continue) && arithmetic::addis_effect(s, t, rt, ra, simm),
        Instruction::Addme { rt, ra, oe, rc } => r == Ok::<ExecResult, Error>(ExecResult::Continue) && arithmetic::addme_effect(s, t, rt, ra, oe, rc),
        Instruction::Addze { rt, ra, oe, rc } => r == Ok::<ExecResult, Error>(ExecResult::Continue) && arithmetic::addze_effect(s, t, rt, ra, oe, rc),
        Instruction::Divw { rt, ra, rb, oe, rc } => r == Ok::<ExecResult, Error>(ExecResult::Continue) && arithmetic::divw_effect(s, t, rt, ra, rb, oe, rc),
        Instruction::Divwu { rt, ra, rb, oe, rc } => r == Ok::<ExecResult, Error>(ExecResult::Continue) && arithmetic::divwu_effect(s, t, rt, ra, rb, oe, rc),
        Instruction::Mulhw { rt, ra, rb, rc } => r == Ok::<ExecResult, Error>(ExecResult::Continue) && arithmetic::mulhw_effect(s, t, rt, ra, rb, rc),
        Instruction::Mulhwu { rt, ra, rb, rc } => r == Ok::<ExecResult, Error>(ExecResult::Continue) && arithmetic::mulhwu_effect(s, t, rt, ra, rb, rc),
        Instruction::Mulli { rt, ra, simm } => r == Ok::<ExecResult, Error>(ExecResult::Continue) && arithmetic::mulli_effect(s, t, rt, ra, simm),
        Instruction::Mullw { rt, ra, rb, oe, rc } => r == Ok::<ExecResult, Error>(ExecResult::Continue) && arithmetic::mullw_effect(s, t, rt, ra, rb, oe, rc),
        Instruction::Neg { rt, ra, oe, rc } => r == Ok::<ExecResult, Error>(ExecResult::Continue) && arithmetic::neg_effect(s, t, rt, ra, oe, rc),
        Instruction::Subf { rt, ra, rb, oe, rc } => r == Ok::<ExecResult, Error>(ExecResult::Continue) && arithmetic::subf_effect(s, t, rt, ra, rb, oe, rc),
        Instruction::Subfc { rt, ra, rb, oe, rc } => r == Ok::<ExecResult, Error>(ExecResult::Continue) && arithmetic::subfc_effect(s, t, rt, ra, rb, oe, rc),
        Instruction::Subfe { rt, ra, rb, oe, rc } => r == Ok::<ExecResult, Error>(ExecResult::Continue) && arithmetic::subfe_effect(s, t, rt, ra, rb, oe, rc),
        Instruction::Subfic { rt, ra, simm } => r == Ok::<ExecResult, Error>(ExecResult::Continue) && arithmetic::subfic_effect(s, t, rt, ra, simm),
        Instruction::Subfme { rt, ra, oe, rc } => r == Ok::<ExecResult, Error>(ExecResult::Continue) && arithmetic::subfme_effect(s, t, rt, ra, oe, rc),
        Instruction::Subfze { rt, ra, oe, rc } => r == Ok::<ExecResult, Error>(ExecResult::Continue) && arithmetic::subfze_effect(s, t, rt, ra, oe, rc),
        Instruction::And { ra, rs, rb, rc } => r == Ok::<ExecResult, Error>(ExecResult::Continue) && logical::and_effect(s, t, ra, rs, rb, rc),
        Instruction::Andc { ra, rs, rb, rc } => r == Ok::<ExecResult, Error>(ExecResult::Continue) && logical::andc_effect(s, t, ra, rs, rb, rc),
        Instruction::Andi { ra, rs, uimm } => r == Ok::<ExecResult, Error>(ExecResult::Continue) && logical::andi_effect(s, t, ra, rs, uimm),
        Instruction::Andis { ra, rs, uimm } => r == Ok::<ExecResult, Error>(ExecResult::Continue) && logical::andis_effect(s, t, ra, rs, uimm),
        Instruction::Cntlzw { ra, rs, rc } => r == Ok::<ExecResult, Error>(ExecResult::Continue) && logical::cntlzw_effect(s, t, ra, rs, rc),
        Instruction::Eqv { ra, rs, rb, rc } => r == Ok::<ExecResult, Error>(ExecResult::Continue) && logical::eqv_effect(s, t, ra, rs, rb, rc),
        Instruction::Extsb { ra, rs, rc } => r == Ok::<ExecResult, Error>(ExecResult::Continue) && logical::extsb_effect(s, t, ra, rs, rc),
        Instruction::Extsh { ra, rs, rc } => r == Ok::<ExecResult, Error>(ExecResult::Continue) && logical::extsh_effect(s, t, ra, rs, rc),
        Instruction::Nand { ra, rs, rb, rc } => r == Ok::<ExecResult, Error>(ExecResult::Continue) && logical::nand_effect(s, t, ra, rs, rb, rc),
        Instruction::Nor { ra, rs, rb, rc } => r == Ok::<ExecResult, Error>(ExecResult::Continue) && logical::nor_effect(s, t, ra, rs, rb, rc),
        Instruction::Or { ra, rs, rb, rc } => r == Ok::<ExecResult, Error>(ExecResult::Continue) && logical::or_effect(s, t, ra, rs, rb, rc),
        Instruction::Orc { ra, rs, rb, rc } => r == Ok::<ExecResult, Error>(ExecResult::Continue) && logical::orc_effect(s, t, ra, rs, rb, rc),
        Instruction::Ori { ra, rs, uimm } => r == Ok::<ExecResult, Error>(ExecResult::Continue) && logical::ori_effect(s, t, ra, rs, uimm),
        Instruction::Oris { ra, rs, uimm } => r == Ok::<ExecResult, Error>(ExecResult::Continue) && logical::oris_effect(s, t, ra, rs, uimm),
        Instruction::Xor { ra, rs, rb, rc } => r == Ok::<ExecResult, Error>(ExecResult::Continue) && logical::xor_effect(s, t, ra, rs, rb, rc),
        Instruction::Xori { ra, rs, uimm } => r == Ok::<ExecResult, Error>(ExecResult::Continue) && logical::xori_effect(s, t, ra, rs, uimm),
        Instruction::Xoris { ra, rs, uimm } => r == Ok::<ExecResult, Error>(ExecResult::Continue) && logical::xoris_effect(s, t, ra, rs, uimm),
        Instruction::Rlwimi { ra, rs, sh, mb, me, rc } => r == Ok::<ExecResult, Error>(ExecResult::Continue) && shifts::rlwimi_effect(s, t, ra, rs, sh, mb, me, rc),
        Instruction::Rlwinm { ra, rs, sh, mb, me, rc } => r == Ok::<ExecResult, Error>(ExecResult::Continue) && shifts::rlwinm_effect(s, t, ra, rs, sh, mb, me, rc),
        Instruction::Rlwnm { ra, rs, rb, mb, me, rc } => r == Ok::<ExecResult, Error>(ExecResult::Continue) && shifts::rlwnm_effect(s, t, ra, rs, rb, mb, me, rc),
        Instruction::Slw { ra, rs, rb, rc } => r == Ok::<ExecResult, Error>(ExecResult::Continue) && shifts::slw_effect(s, t, ra, rs, rb, rc),
        Instruction::Sraw { ra, rs, rb, rc } => r == Ok::<ExecResult, Error>(ExecResult::Continue) && shifts::sraw_effect(s, t, ra, rs, rb, rc),
        Instruction::Srawi { ra, rs, sh, rc } => r == Ok::<ExecResult, Error>(ExecResult::Continue) && shifts::srawi_effect(s, t, ra, rs, sh, rc),
        Instruction::Srw { ra, rs, rb, rc } => r == Ok::<ExecResult, Error>(ExecResult::Continue) && shifts::srw_effect(s, t, ra, rs, rb, rc),
        Instruction::Cmp { crfd, l, ra, rb } => r == Ok::<ExecResult, Error>(ExecResult::Continue) && compare::signed_compare_effect(s, t, crfd, ra, rb),
        Instruction::Cmpi { crfd, l, ra, simm } => r == Ok::<ExecResult, Error>(ExecResult::Continue) && compare::signed_compare_imm_effect(s, t, crfd, ra, simm),
        Instruction::Cmpl { crfd, l, ra, rb } => r == Ok::<ExecResult, Error>(ExecResult::Continue) && compare::unsigned_compare_effect(s, t, crfd, ra, rb),
        Instruction::Cmpli { crfd, l, ra, uimm } => r == Ok::<ExecResult, Error>(ExecResult::Continue) && compare::unsigned_compare_imm_effect(s, t, crfd, ra, uimm),
        Instruction::Lbz { .. } => r == Ok::<ExecResult, Error>(ExecResult::Continue) && t == s,
        Instruction::Lbzu { .. } => r == Ok::<ExecResult, Error>(ExecResult::Continue) && t == s,
        Instruction::Lbzux { .. } => r == Ok::<ExecResult, Error>(ExecResult::Continue) && t == s,
        Instruction::Lbzx { .. } => r == Ok::<ExecResult, Error>(ExecResult::Continue) && t == s,
        Instruction::Lwarx { .. } => r == Ok::<ExecResult, Error>(ExecResult::Continue) && t == s,
        Instruction::Stwcx { .. } => r == Ok::<ExecResult, Error>(ExecResult::Continue) && t == s,
        Instruction::Lwbrx { .. } => r == Ok::<ExecResult, Error>(ExecResult::Continue) && t == s,
        Instruction::Lhbrx { .. } => r == Ok::<ExecResult, Error>(ExecResult::Continue) && t == s,
        Instruction::Stwbrx { .. } => r == Ok::<ExecResult, Error>(ExecResult::Continue) && t == s,
        Instruction::Sthbrx { .. } => r == Ok::<ExecResult, Error>(ExecResult::Continue) && t == s,
        Instruction::Lha { .. } => r == Ok::<ExecResult, Error>(ExecResult::Continue) && t == s,
        Instruction::Lhau { .. } => r == Ok::<ExecResult, Error>(ExecResult::Continue) && t == s,
        Instruction::Lhaux { .. } => r == Ok::<ExecResult, Error>(ExecResult::Continue) && t == s,
        Instruction::Lhax { .. } => r == Ok::<ExecResult, Error>(ExecResult::Continue) && t == s,
        Instruction::Lhz { .. } => r == Ok::<ExecResult, Error>(ExecResult::Continue) && t == s,
        Instruction::Lhzu { .. } => r == Ok::<ExecResult, Error>(ExecResult::Continue) && t == s,
        Instruction::Lhzux { .. } => r == Ok::<ExecResult, Error>(ExecResult::Continue) && t == s,
        Instruction::Lhzx { .. } => r == Ok::<ExecResult, Error>(ExecResult::Continue) && t == s,
        Instruction::Lwz { .. } => r == Ok::<ExecResult, Error>(ExecResult::Continue) && t == s,
        Instruction::Lwzu { .. } => r == Ok::<ExecResult, Error>(ExecResult::Continue) && t == s,
        Instruction::Lwzux { .. } => r == Ok::<ExecResult, Error>(ExecResult::Continue) && t == s,
        Instruction::Lwzx { .. } => r == Ok::<ExecResult, Error>(ExecResult::Continue) && t == s,
        Instruction::Stb { .. } => r == Ok::<ExecResult, Error>(ExecResult::Continue) && t == s,
        Instruction::Stbu { .. } => r == Ok::<ExecResult, Error>(ExecResult::Continue) && t == s,
        Instruction::Stbux { .. } => r == Ok::<ExecResult, Error>(ExecResult::Continue) && t == s,
        Instruction::Stbx { .. } => r == Ok::<ExecResult, Error>(ExecResult::Continue) && t == s,
        Instruction::Sth { .. } => r == Ok::<ExecResult, Error>(ExecResult::Continue) && t == s,
        Instruction::Sthu { .. } => r == Ok::<ExecResult, Error>(ExecResult::Continue) && t == s,
        Instruction::Sthux { .. } => r == Ok::<ExecResult, Error>(ExecResult::Continue) && t == s,
        Instruction::Sthx { .. } => r == Ok::<ExecResult, Error>(ExecResult::Continue) && t == s,
        Instruction::Stw { .. } => r == Ok::<ExecResult, Error>(ExecResult::Continue) && t == s,
        Instruction::Stwu { .. } => r == Ok::<ExecResult, Error>(ExecResult::Continue) && t == s,
        Instruction::Stwux { .. } => r == Ok::<ExecResult, Error>(ExecResult::Continue) && t == s,
        Instruction::Stwx { .. } => r == Ok::<ExecResult, Error>(ExecResult::Continue) && t == s,
        Instruction::Lmw { .. } => r == Ok::<ExecResult, Error>(ExecResult::Continue) && t == s,
        Instruction::Stmw { .. } => r == Ok::<ExecResult, Error>(ExecResult::Continue) && t == s,
        Instruction::Lswi { .. } => r == Ok::<ExecResult, Error>(ExecResult::Continue) && t == s,
        Instruction::Lswx { .. } => r == Ok::<ExecResult, Error>(ExecResult::Continue) && t == s,
        Instruction::Stswi { .. } => r == Ok::<ExecResult, Error>(ExecResult::Continue) && t == s,
        Instruction::Stswx { .. } => r == Ok::<ExecResult, Error>(ExecResult::Continue) && t == s,
        Instruction::B { li, aa, lk } => r == Ok::<ExecResult, Error>(ExecResult::BranchTaken) && branches::b_effect(s, t, li, aa, lk),
        Instruction::Bc { bo, bi, bd, aa, lk } => r == Ok::<ExecResult, Error>(ExecResult::BranchTaken) && branches::bc_effect(s, t, bo, bi, bd, aa, lk),
        Instruction::Bcctr { bo, bi, lk } => r == Ok::<ExecResult, Error>(ExecResult::BranchTaken) && branches::bcctr_effect(s, t, bo, bi, lk),
        Instruction::Bclr { bo, bi, lk } => r == Ok::<ExecResult, Error>(ExecResult::BranchTaken) && branches::bclr_effect(s, t, bo, bi, lk),
        Instruction::Crand { bt, ba, bb } => r == Ok::<ExecResult, Error>(ExecResult::Continue) && crlogical::crand_effect(s, t, bt, ba, bb),
        Instruction::Crandc { bt, ba, bb } => r == Ok::<ExecResult, Error>(ExecResult::Continue) && crlogical::crandc_effect(s, t, bt, ba, bb),
        Instruction::Creqv { bt, ba, bb } => r == Ok::<ExecResult, Error>(ExecResult::Continue) && crlogical::creqv_effect(s, t, bt, ba, bb),
        Instruction::Crnand { bt, ba, bb } => r == Ok::<ExecResult, Error>(ExecResult::Continue) && crlogical::crnand_effect(s, t, bt, ba, bb),
        Instruction::Crnor { bt, ba, bb } => r == Ok::<ExecResult, Error>(ExecResult::Continue) && crlogical::crnor_effect(s, t, bt, ba, bb),
        Instruction::Cror { bt, ba, bb } => r == Ok::<ExecResult, Error>(ExecResult::Continue) && crlogical::cror_effect(s, t, bt, ba, bb),
        Instruction::Crorc { bt, ba, bb } => r == Ok::<ExecResult, Error>(ExecResult::Continue) && crlogical::crorc_effect(s, t, bt, ba, bb),
        Instruction::Crxor { bt, ba, bb } => r == Ok::<ExecResult, Error>(ExecResult::Continue) && crlogical::crxor_effect(s, t, bt, ba, bb),
        Instruction::Mcrf { crfd, crfs } => r == Ok::<ExecResult, Error>(ExecResult::Continue) && crlogical::mcrf_effect(s, t, crfd, crfs),
        Instruction::Mcrxr { crfd } => r == Ok::<ExecResult, Error>(ExecResult::Continue) && crlogical::mcrxr_effect(s, t, crfd),
        Instruction::Mfcr { rt } => r == Ok::<ExecResult, Error>(ExecResult::Continue) && system::mfcr_effect(s, t, rt),
        Instruction::Mfmsr { rt } => r == Ok::<ExecResult, Error>(ExecResult::Continue) && system::mfmsr_effect(s, t, rt),
        Instruction::Mfspr { rt, spr } => r == Ok::<ExecResult, Error>(ExecResult::Continue) && system::mfspr_effect(s, t, rt, spr),
        Instruction::Mfsr { rt, sr } => r == Ok::<ExecResult, Error>(ExecResult::Continue) && system::mfsr_effect(s, t, rt, sr),
        Instruction::Mfsrin { rt, rb } => r == Ok::<ExecResult, Error>(ExecResult::Continue) && system::mfsrin_effect(s, t, rt, rb),
        Instruction::Mftb { rt, tbr } => if system::valid_tbr(tbr) { r == Ok::<ExecResult, Error>(ExecResult::Continue) && system::mftb_effect(s, t, rt, tbr) } else { t == s && (r matches Err(Error::Cpu(m)) && m@ == system::invalid_tbr_message(tbr)) },
        Instruction::Mtcrf { fxm, rs } => r == Ok::<ExecResult, Error>(ExecResult::Continue) && system::mtcrf_effect(s, t, fxm, rs),
        Instruction::Mtmsr { rs } => r == Ok::<ExecResult, Error>(ExecResult::Continue) && system::mtmsr_effect(s, t, rs),
        Instruction::Mtspr { spr, rs } => r == Ok::<ExecResult, Error>(ExecResult::Continue) && system::mtspr_effect(s, t, spr, rs),
        Instruction::Mtsr { sr, rs } => r == Ok::<ExecResult, Error>(ExecResult::Continue) && system::mtsr_effect(s, t, sr, rs),
        Instruction::Mtsrin { rs, rb } => r == Ok::<ExecResult, Error>(ExecResult::Continue) && system::mtsrin_effect(s, t, rs, rb),
        Instruction::Dcbf { .. } => r == Ok::<ExecResult, Error>(ExecResult::Continue) && t == s,
        Instruction::Dcbi { .. } => r == Ok::<ExecResult, Error>(ExecResult::Continue) && t == s,
        Instruction::Dcbst { .. } => r == Ok::<ExecResult, Error>(ExecResult::Continue) && t == s,
        Instruction::Dcbt { .. } => r == Ok::<ExecResult, Error>(ExecResult::Continue) && t == s,
        Instruction::Dcbtst { .. } => r == Ok::<ExecResult, Error>(ExecResult::Continue) && t == s,
        Instruction::Dcbz { .. } => r == Ok::<ExecResult, Error>(ExecResult::Continue) && t == s,
        Instruction::Icbi { .. } => r == Ok::<ExecResult, Error>(ExecResult::Continue) && t == s,
        Instruction::Tlbie { .. } => r == Ok::<ExecResult, Error>(ExecResult::Continue) && t == s,
        Instruction::Tlbia => r == Ok::<ExecResult, Error>(ExecResult::Continue) && t == s,
        Instruction::Tlbsync => r == Ok::<ExecResult, Error>(ExecResult::Continue) && t == s,
        Instruction::Eciwx { .. } => r == Ok::<ExecResult, Error>(ExecResult::Continue) && t == s,
        Instruction::Ecowx { .. } => r == Ok::<ExecResult, Error>(ExecResult::Continue) && t == s,
        Instruction::Eieio => r == Ok::<ExecResult, Error>(ExecResult::Continue) && t == s,
        Instruction::Isync => r == Ok::<ExecResult, Error>(ExecResult::Continue) && t == s,
        Instruction::Sync => r == Ok::<ExecResult, Error>(ExecResult::Continue) && t == s,
        Instruction::Tw { .. } => r == Ok::<ExecResult, Error>(ExecResult::Trap) && t == s,
        Instruction::Twi { to, ra, simm } => t == s && if system::traps(s, to, ra, simm) { r matches Err(Error::Cpu(m)) && m@ == "Trap condition met"@ } else { r == Ok::<ExecResult, Error>(ExecResult::Continue) },
        Instruction::Sc => r == Ok::<ExecResult, Error>(ExecResult::Syscall) && t == s,
        Instruction::Rfi => r == Ok::<ExecResult, Error>(ExecResult::Continue) && t == s,
        Instruction::Fadd { .. } => r is Ok ==> r == Ok::<ExecResult, Error>(ExecResult::Continue),
        Instruction::Fadds { .. } => r is Ok ==> r == Ok::<ExecResult, Error>(ExecResult::Continue),
        Instruction::Fdiv { .. } => r is Ok ==> r == Ok::<ExecResult, Error>(ExecResult::Continue),
        Instruction::Fdivs { .. } => r is Ok ==> r == Ok::<ExecResult, Error>(ExecResult::Continue),
        Instruction::Fmul { .. } => r is Ok ==> r == Ok::<ExecResult, Error>(ExecResult::Continue),
        Instruction::Fmuls { .. } => r is Ok ==> r == Ok::<ExecResult, Error>(ExecResult::Continue),
        Instruction::Fsub { .. } => r is Ok ==> r == Ok::<ExecResult, Error>(ExecResult::Continue),
        Instruction::Fsubs { .. } => r is Ok ==> r == Ok::<ExecResult, Error>(ExecResult::Continue),
        Instruction::Fneg { .. } => r is Ok ==> r == Ok::<ExecResult, Error>(ExecResult::Continue),
        Instruction::Fabs { .. } => r is Ok ==> r == Ok::<ExecResult, Error>(ExecResult::Continue),
        Instruction::Fmr { .. } => r is Ok ==> r == Ok::<ExecResult, Error>(ExecResult::Continue),
        Instruction::Fsqrt { .. } => r is Ok ==> r == Ok::<ExecResult, Error>(ExecResult::Continue),
        Instruction::Fsqrts { .. } => r is Ok ==> r == Ok::<ExecResult, Error>(ExecResult::Continue),
        Instruction::Fmadd { .. } => r is Ok ==> r == Ok::<ExecResult, Error>(ExecResult::Continue),
        Instruction::Fmadds { .. } => r is Ok ==> r == Ok::<ExecResult, Error>(ExecResult::Continue),
        Instruction::Fmsub { .. } => r is Ok ==> r == Ok::<ExecResult, Error>(ExecResult::Continue),
        Instruction::Fmsubs { .. } => r is Ok ==> r == Ok::<ExecResult, Error>(ExecResult::Continue),
        Instruction::Fnmadd { .. } => r is Ok ==> r == Ok::<ExecResult, Error>(ExecResult::Continue),
        Instruction::Fnmadds { .. } => r is Ok ==> r == Ok::<ExecResult, Error>(ExecResult::Continue),
        Instruction::Fnmsub { .. } => r is Ok ==> r == Ok::<ExecResult, Error>(ExecResult::Continue),
        Instruction::Fnmsubs { .. } => r is Ok ==> r == Ok::<ExecResult, Error>(ExecResult::Continue),
        Instruction::Fcmpu { .. } => r is Ok ==> r == Ok::<ExecResult, Error>(ExecResult::Continue),
        Instruction::Fcmpo { .. } => r is Ok ==> r == Ok::<ExecResult, Error>(ExecResult::Continue),
        Instruction::Fctiwz { .. } => r is Ok ==> r == Ok::<ExecResult, Error>(ExecResult::Continue),
        Instruction::Frsp { .. } => r is Ok ==> r == Ok::<ExecResult, Error>(ExecResult::Continue),
        Instruction::Lfd { .. } => r == Ok::<ExecResult, Error>(ExecResult::Continue) && t == s,
        Instruction::Lfdu { .. } => r == Ok::<ExecResult, Error>(ExecResult::Continue) && t == s,
        Instruction::Lfs { .. } => r == Ok::<ExecResult, Error>(ExecResult::Continue) && t == s,
        Instruction::Lfsu { .. } => r == Ok::<ExecResult, Error>(ExecResult::Continue) && t == s,
        Instruction::Stfd { .. } => r == Ok::<ExecResult, Error>(ExecResult::Continue) && t == s,
        Instruction::Stfdu { .. } => r == Ok::<ExecResult, Error>(ExecResult::Continue) && t == s,
        Instruction::Stfs { .. } => r == Ok::<ExecResult, Error>(ExecResult::Continue) && t == s,
        Instruction::Stfsu { .. } => r == Ok::<ExecResult, Error>(ExecResult::Continue) && t == s,
        Instruction::Vaddfp { .. } => r is Ok ==> r == Ok::<ExecResult, Error>(ExecResult::Continue),
        Instruction::Vsubfp { .. } => r is Ok ==> r == Ok::<ExecResult, Error>(ExecResult::Continue),
        Instruction::Vmaddfp { .. } => r is Ok ==> r == Ok::<ExecResult, Error>(ExecResult::Continue),
        Instruction::Vnmsubfp { .. } => r is Ok ==> r == Ok::<ExecResult, Error>(ExecResult::Continue),
        Instruction::Vaddubm { vd, va, vb } => r == Ok::<ExecResult, Error>(ExecResult::Continue) && altivec::vaddubm_effect(s, t, vd, va, vb),
        Instruction::Vadduhm { vd, va, vb } => r == Ok::<ExecResult, Error>(ExecResult::Continue) && altivec::vadduhm_effect(s, t, vd, va, vb),
        Instruction::Vadduwm { vd, va, vb } => r == Ok::<ExecResult, Error>(ExecResult::Continue) && altivec::vadduwm_effect(s, t, vd, va, vb),
        Instruction::Vaddubs { vd, va, vb } => r == Ok::<ExecResult, Error>(ExecResult::Continue) && altivec::vaddubs_effect(s, t, vd, va, vb),
        Instruction::Vadduhs { vd, va, vb } => r == Ok::<ExecResult, Error>(ExecResult::Continue) && altivec::vadduhs_effect(s, t, vd, va, vb),
        Instruction::Vadduws { vd, va, vb } => r == Ok::<ExecResult, Error>(ExecResult::Continue) && altivec::vadduws_effect(s, t, vd, va, vb),
        Instruction::Vaddsbs { vd, va, vb } => r == Ok::<ExecResult, Error>(ExecResult::Continue) && altivec::vaddsbs_effect(s, t, vd, va, vb),
        Instruction::Vaddshs { vd, va, vb } => r == Ok::<ExecResult, Error>(ExecResult::Continue) && altivec::vaddshs_effect(s, t, vd, va, vb),
        Instruction::Vaddsws { vd, va, vb } => r == Ok::<ExecResult, Error>(ExecResult::Continue) && altivec::vaddsws_effect(s, t, vd, va, vb),
        Instruction::Vsububm { vd, va, vb } => r == Ok::<ExecResult, Error>(ExecResult::Continue) && altivec::vsububm_effect(s, t, vd, va, vb),
        Instruction::Vsubuhm { vd, va, vb } => r == Ok::<ExecResult, Error>(ExecResult::Continue) && altivec::vsubuhm_effect(s, t, vd, va, vb),
        Instruction::Vsubuwm { vd, va, vb } => r == Ok::<ExecResult, Error>(ExecResult::Continue) && altivec::vsubuwm_effect(s, t, vd, va, vb),
        Instruction::Vmaxsb { vd, va, vb } => r == Ok::<ExecResult, Error>(ExecResult::Continue) && altivec::vmaxsb_effect(s, t, vd, va, vb),
        Instruction::Vmaxsh { vd, va, vb } => r == Ok::<ExecResult, Error>(ExecResult::Continue) && altivec::vmaxsh_effect(s, t, vd, va, vb),
        Instruction::Vmaxsw { vd, va, vb } => r == Ok::<ExecResult, Error>(ExecResult::Continue) && altivec::vmaxsw_effect(s, t, vd, va, vb),
        Instruction::Vmaxub { vd, va, vb } => r == Ok::<ExecResult, Error>(ExecResult::Continue) && altivec::vmaxub_effect(s, t, vd, va, vb),
        Instruction::Vmaxuh { vd, va, vb } => r == Ok::<ExecResult, Error>(ExecResult::Continue) && altivec::vmaxuh_effect(s, t, vd, va, vb),
        Instruction::Vmaxuw { vd, va, vb } => r == Ok::<ExecResult, Error>(ExecResult::Continue) && altivec::vmaxuw_effect(s, t, vd, va, vb),
        Instruction::Vmaxfp { .. } => r is Ok ==> r == Ok::<ExecResult, Error>(ExecResult::Continue),
        Instruction::Vminsb { vd, va, vb } => r == Ok::<ExecResult, Error>(ExecResult::Continue) && altivec::vminsb_effect(s, t, vd, va, vb),
        Instruction::Vminsh { vd, va, vb } => r == Ok::<ExecResult, Error>(ExecResult::Continue) && altivec::vminsh_effect(s, t, vd, va, vb),
        Instruction::Vminsw { vd, va, vb } => r == Ok::<ExecResult, Error>(ExecResult::Continue) && altivec::vminsw_effect(s, t, vd, va, vb),
        Instruction::Vminub { vd, va, vb } => r == Ok::<ExecResult, Error>(ExecResult::Continue) && altivec::vminub_effect(s, t, vd, va, vb),
        Instruction::Vminuh { vd, va, vb } => r == Ok::<ExecResult, Error>(ExecResult::Continue) && altivec::vminuh_effect(s, t, vd, va, vb),
        Instruction::Vminuw { vd, va, vb } => r == Ok::<ExecResult, Error>(ExecResult::Continue) && altivec::vminuw_effect(s, t, vd, va, vb),
        Instruction::Vminfp { .. } => r is Ok ==> r == Ok::<ExecResult, Error>(ExecResult::Continue),
        Instruction::Vavgub { .. } => r == Ok::<ExecResult, Error>(ExecResult::Continue) && t == s,
        Instruction::Vavguh { .. } => r == Ok::<ExecResult, Error>(ExecResult::Continue) && t == s,
        Instruction::Vavguw { .. } => r == Ok::<ExecResult, Error>(ExecResult::Continue) && t == s,
        Instruction::Vavgsb { .. } => r == Ok::<ExecResult, Error>(ExecResult::Continue) && t == s,
        Instruction::Vavgsh { .. } => r == Ok::<ExecResult, Error>(ExecResult::Continue) && t == s,
        Instruction::Vavgsw { .. } => r == Ok::<ExecResult, Error>(ExecResult::Continue) && t == s,
        Instruction::Vmuleub { .. } => r == Ok::<ExecResult, Error>(ExecResult::Continue) && t == s,
        Instruction::Vmuloub { .. } => r == Ok::<ExecResult, Error>(ExecResult::Continue) && t == s,
        Instruction::Vmulesb { .. } => r == Ok::<ExecResult, Error>(ExecResult::Continue) && t == s,
        Instruction::Vmulosb { .. } => r == Ok::<ExecResult, Error>(ExecResult::Continue) && t == s,
        Instruction::Vmuleuh { .. } => r == Ok::<ExecResult, Error>(ExecResult::Continue) && t == s,
        Instruction::Vmulouh { .. } => r == Ok::<ExecResult, Error>(ExecResult::Continue) && t == s,
        Instruction::Vmulesh { .. } => r == Ok::<ExecResult, Error>(ExecResult::Continue) && t == s,
        Instruction::Vmulosh { .. } => r == Ok::<ExecResult, Error>(ExecResult::Continue) && t == s,
        Instruction::Vand { vd, va, vb } => r == Ok::<ExecResult, Error>(ExecResult::Continue) && altivec::vand_effect(s, t, vd, va, vb),
        Instruction::Vandc { vd, va, vb } => r == Ok::<ExecResult, Error>(ExecResult::Continue) && altivec::vandc_effect(s, t, vd, va, vb),
        Instruction::Vor { vd, va, vb } => r == Ok::<ExecResult, Error>(ExecResult::Continue) && altivec::vor_effect(s, t, vd, va, vb),
        Instruction::Vnor { vd, va, vb } => r == Ok::<ExecResult, Error>(ExecResult::Continue) && altivec::vnor_effect(s, t, vd, va, vb),
        Instruction::Vxor { vd, va, vb } => r == Ok::<ExecResult, Error>(ExecResult::Continue) && altivec::vxor_effect(s, t, vd, va, vb),
        Instruction::Vcmpequb { vd, va, vb, rc } => r == Ok::<ExecResult, Error>(ExecResult::Continue) && altivec::vcmpequb_effect(s, t, vd, va, vb),
        Instruction::Vcmpequh { vd, va, vb, rc } => r == Ok::<ExecResult, Error>(ExecResult::Continue) && altivec::vcmpequh_effect(s, t, vd, va, vb),
        Instruction::Vcmpequw { vd, va, vb, rc } => r == Ok::<ExecResult, Error>(ExecResult::Continue) && altivec::vcmpequw_effect(s, t, vd, va, vb),
        Instruction::Vcmpeqfp { .. } => r is Ok ==> r == Ok::<ExecResult, Error>(ExecResult::Continue),
        Instruction::Vcmpgtsb { vd, va, vb, rc } => r == Ok::<ExecResult, Error>(ExecResult::Continue) && altivec::vcmpgtsb_effect(s, t, vd, va, vb),
        Instruction::Vcmpgtsh { vd, va, vb, rc } => r == Ok::<ExecResult, Error>(ExecResult::Continue) && altivec::vcmpgtsh_effect(s, t, vd, va, vb),
        Instruction::Vcmpgtsw { vd, va, vb, rc } => r == Ok::<ExecResult, Error>(ExecResult::Continue) && altivec::vcmpgtsw_effect(s, t, vd, va, vb),
        Instruction::Vcmpgtub { vd, va, vb, rc } => r == Ok::<ExecResult, Error>(ExecResult::Continue) && altivec::vcmpgtub_effect(s, t, vd, va, vb),
        Instruction::Vcmpgtuh { vd, va, vb, rc } => r == Ok::<ExecResult, Error>(ExecResult::Continue) && altivec::vcmpgtuh_effect(s, t, vd, va, vb),
        Instruction::Vcmpgtuw { vd, va, vb, rc } => r == Ok::<ExecResult, Error>(ExecResult::Continue) && altivec::vcmpgtuw_effect(s, t, vd, va, vb),
        Instruction::Vcmpgtfp { .. } => r is Ok ==> r == Ok::<ExecResult, Error>(ExecResult::Continue),
        Instruction::Vcmpgefp { .. } => r is Ok ==> r == Ok::<ExecResult, Error>(ExecResult::Continue),
        Instruction::Vslb { vd, va, vb } => r == Ok::<ExecResult, Error>(ExecResult::Continue) && altivec::vslb_effect(s, t, vd, va, vb),
        Instruction::Vslh { vd, va, vb } => r == Ok::<ExecResult, Error>(ExecResult::Continue) && altivec::vslh_effect(s, t, vd, va, vb),
        Instruction::Vslw { vd, va, vb } => r == Ok::<ExecResult, Error>(ExecResult::Continue) && altivec::vslw_effect(s, t, vd, va, vb),
        Instruction::Vsrb { vd, va, vb } => r == Ok::<ExecResult, Error>(ExecResult::Continue) && altivec::vsrb_effect(s, t, vd, va, vb),
        Instruction::Vsrh { vd, va, vb } => r == Ok::<ExecResult, Error>(ExecResult::Continue) && altivec::vsrh_effect(s, t, vd, va, vb),
        Instruction::Vsrw { vd, va, vb } => r == Ok::<ExecResult, Error>(ExecResult::Continue) && altivec::vsrw_effect(s, t, vd, va, vb),
        Instruction::Vsrab { vd, va, vb } => r == Ok::<ExecResult, Error>(ExecResult::Continue) && altivec::vsrab_effect(s, t, vd, va, vb),
        Instruction::Vsrah { vd, va, vb } => r == Ok::<ExecResult, Error>(ExecResult::Continue) && altivec::vsrah_effect(s, t, vd, va, vb),
        Instruction::Vsraw { vd, va, vb } => r == Ok::<ExecResult, Error>(ExecResult::Continue) && altivec::vsraw_effect(s, t, vd, va, vb),
        Instruction::Vrlb { vd, va, vb } => r == Ok::<ExecResult, Error>(ExecResult::Continue) && altivec::vrlb_effect(s, t, vd, va, vb),
        Instruction::Vrlh { vd, va, vb } => r == Ok::<ExecResult, Error>(ExecResult::Continue) && altivec::vrlh_effect(s, t, vd, va, vb),
        Instruction::Vrlw { vd, va, vb } => r == Ok::<ExecResult, Error>(ExecResult::Continue) && altivec::vrlw_effect(s, t, vd, va, vb),
        Instruction::Vsl { vd, va, vb } => r == Ok::<ExecResult, Error>(ExecResult::Continue) && altivec::vsl_effect(s, t, vd, va, vb),
        Instruction::Vsr { vd, va, vb } => r == Ok::<ExecResult, Error>(ExecResult::Continue) && altivec::vsr_effect(s, t, vd, va, vb),
        Instruction::Vperm { vd, va, vb, vc } => r == Ok::<ExecResult, Error>(ExecResult::Continue) && altivec::vperm_effect(s, t, vd, va, vb, vc),
        Instruction::Vsel { vd, va, vb, vc } => r == Ok::<ExecResult, Error>(ExecResult::Continue) && altivec::vsel_effect(s, t, vd, va, vb, vc),
        Instruction::Vspltb { vd, vb, uimm } => r == Ok::<ExecResult, Error>(ExecResult::Continue) && altivec::vspltb_effect(s, t, vd, vb, uimm),
        Instruction::Vsplth { vd, vb, uimm } => r == Ok::<ExecResult, Error>(ExecResult::Continue) && altivec::vsplth_effect(s, t, vd, vb, uimm),
        Instruction::Vspltw { vd, vb, uimm } => r == Ok::<ExecResult, Error>(ExecResult::Continue) && altivec::vspltw_effect(s, t, vd, vb, uimm),
        Instruction::Vspltisb { vd, simm } => r == Ok::<ExecResult, Error>(ExecResult::Continue) && altivec::vspltisb_effect(s, t, vd, simm),
        Instruction::Vspltish { vd, simm } => r == Ok::<ExecResult, Error>(ExecResult::Continue) && altivec::vspltish_effect(s, t, vd, simm),
        Instruction::Vspltisw { vd, simm } => r == Ok::<ExecResult, Error>(ExecResult::Continue) && altivec::vspltisw_effect(s, t, vd, simm),
        Instruction::Vmrghb { vd, va, vb } => r == Ok::<ExecResult, Error>(ExecResult::Continue) && altivec::vmrghb_effect(s, t, vd, va, vb),
        Instruction::Vmrghh { vd, va, vb } => r == Ok::<ExecResult, Error>(ExecResult::Continue) && altivec::vmrghh_effect(s, t, vd, va, vb),
        Instruction::Vmrghw { vd, va, vb } => r == Ok::<ExecResult, Error>(ExecResult::Continue) && altivec::vmrghw_effect(s, t, vd, va, vb),
        Instruction::Vmrglb { vd, va, vb } => r == Ok::<ExecResult, Error>(ExecResult::Continue) && altivec::vmrglb_effect(s, t, vd, va, vb),
        Instruction::Vmrglh { vd, va, vb } => r == Ok::<ExecResult, Error>(ExecResult::Continue) && altivec::vmrglh_effect(s, t, vd, va, vb),
        Instruction::Vmrglw { vd, va, vb } => r == Ok::<ExecResult, Error>(ExecResult::Continue) && altivec::vmrglw_effect(s, t, vd, va, vb),
        Instruction::Vpkuhus { vd, va, vb } => r == Ok::<ExecResult, Error>(ExecResult::Continue) && altivec::vpkuhus_effect(s, t, vd, va, vb),
        Instruction::Vpkuwus { vd, va, vb } => r == Ok::<ExecResult, Error>(ExecResult::Continue) && altivec::vpkuwus_effect(s, t, vd, va, vb),
        Instruction::Vpkshss { vd, va, vb } => r == Ok::<ExecResult, Error>(ExecResult::Continue) && altivec::vpkshss_effect(s, t, vd, va, vb),
        Instruction::Vpkshus { vd, va, vb } => r == Ok::<ExecResult, Error>(ExecResult::Continue) && altivec::vpkshus_effect(s, t, vd, va, vb),
        Instruction::Vpkswss { vd, va, vb } => r == Ok::<ExecResult, Error>(ExecResult::Continue) && altivec::vpkswss_effect(s, t, vd, va, vb),
        Instruction::Vpkswus { vd, va, vb } => r == Ok::<ExecResult, Error>(ExecResult::Continue) && altivec::vpkswus_effect(s, t, vd, va, vb),
        Instruction::Vpkpx { vd, va, vb } => r == Ok::<ExecResult, Error>(ExecResult::Continue) && altivec::vpkpx_effect(s, t, vd, va, vb),
        Instruction::Vupkhsb { vd, vb } => r == Ok::<ExecResult, Error>(ExecResult::Continue) && altivec::vupkhsb_effect(s, t, vd, vb),
        Instruction::Vupklsb { vd, vb } => r == Ok::<ExecResult, Error>(ExecResult::Continue) && altivec::vupklsb_effect(s, t, vd, vb),
        Instruction::Vupkhsh { vd, vb } => r == Ok::<ExecResult, Error>(ExecResult::Continue) && altivec::vupkhsh_effect(s, t, vd, vb),
        Instruction::Vupklsh { vd, vb } => r == Ok::<ExecResult, Error>(ExecResult::Continue) && altivec::vupklsh_effect(s, t, vd, vb),
        Instruction::Vupkhpx { vd, vb } => r == Ok::<ExecResult, Error>(ExecResult::Continue) && altivec::vupkhpx_effect(s, t, vd, vb),
        Instruction::Vupklpx { vd, vb } => r == Ok::<ExecResult, Error>(ExecResult::Continue) && altivec::vupklpx_effect(s, t, vd, vb),
        Instruction::Lvx { .. } => r == Ok::<ExecResult, Error>(ExecResult::Continue) && t == s,
        Instruction::Stvx { .. } => r == Ok::<ExecResult, Error>(ExecResult::Continue) && t == s,
        Instruction::Lvxl { .. } => r == Ok::<ExecResult, Error>(ExecResult::Continue) && t == s,
        Instruction::Stvxl { .. } => r == Ok::<ExecResult, Error>(ExecResult::Continue) && t == s,
        Instruction::Lvebx { .. } => r == Ok::<ExecResult, Error>(ExecResult::Continue) && t == s,
        Instruction::Lvehx { .. } => r == Ok::<ExecResult, Error>(ExecResult::Continue) && t == s,
        Instruction::Lvewx { .. } => r == Ok::<ExecResult, Error>(ExecResult::Continue) && t == s,
        Instruction::Stvebx { .. } => r == Ok::<ExecResult, Error>(ExecResult::Continue) && t == s,
        Instruction::Stvehx { .. } => r == Ok::<ExecResult, Error>(ExecResult::Continue) && t == s,
        Instruction::Stvewx { .. } => r == Ok::<ExecResult, Error>(ExecResult::Continue) && t == s,
        Instruction::Lvsl { .. } => r == Ok::<ExecResult, Error>(ExecResult::Continue) && t == s,
        Instruction::Lvsr { .. } => r == Ok::<ExecResult, Error>(ExecResult::Continue) && t == s,
        Instruction::Nop => r == Ok::<ExecResult, Error>(ExecResult::Continue) && t == s,
        Instruction::Unknown { opcode } => t == s && (r matches Err(Error::Cpu(m)) && m@ == "Unknown instruction: 0x"@ + hex8_chars(opcode) + " at PC 0x"@ + hex8_chars(s.pc)),
    }
}

/// What executing `i` with memory access does: the loads and stores reach
/// memory, everything else is as `execute_effect` says.
pub open spec fn execute_with_memory_effect(s: Registers, t: Registers, i: Instruction, r: Result<ExecResult, Error>) -> bool {
    match i {
        Instruction::Lbz { rt, ra, d } => loadstore::byte_loaded(s, t, r is Ok, rt, false, ra, loadstore::ea_disp(s, ra, d)) && (r is Ok ==> r == Ok::<ExecResult, Error>(ExecResult::Continue)),
        Instruction::Lbzu { rt, ra, d } => loadstore::byte_loaded(s, t, r is Ok, rt, true, ra, loadstore::ea_disp(s, ra, d)) && (r is Ok ==> r == Ok::<ExecResult, Error>(ExecResult::Continue)),
        Instruction::Lbzux { rt, ra, rb } => loadstore::byte_loaded(s, t, r is Ok, rt, true, ra, loadstore::ea_indexed(s, ra, rb)) && (r is Ok ==> r == Ok::<ExecResult, Error>(ExecResult::Continue)),
        Instruction::Lbzx { rt, ra, rb } => loadstore::byte_loaded(s, t, r is Ok, rt, false, ra, loadstore::ea_indexed(s, ra, rb)) && (r is Ok ==> r == Ok::<ExecResult, Error>(ExecResult::Continue)),
        Instruction::Lha { rt, ra, d } => loadstore::half_signed_loaded(s, t, r is Ok, rt, false, ra, loadstore::ea_disp(s, ra, d)) && (r is Ok ==> r == Ok::<ExecResult, Error>(ExecResult::Continue)),
        Instruction::Lhau { rt, ra, d } => loadstore::half_signed_loaded(s, t, r is Ok, rt, true, ra, loadstore::ea_disp(s, ra, d)) && (r is Ok ==> r == Ok::<ExecResult, Error>(ExecResult::Continue)),
        Instruction::Lhaux { rt, ra, rb } => loadstore::half_signed_loaded(s, t, r is Ok, rt, true, ra, loadstore::ea_indexed(s, ra, rb)) && (r is Ok ==> r == Ok::<ExecResult, Error>(ExecResult::Continue)),
        Instruction::Lhax { rt, ra, rb } => loadstore::half_signed_loaded(s, t, r is Ok, rt, false, ra, loadstore::ea_indexed(s, ra, rb)) && (r is Ok ==> r == Ok::<ExecResult, Error>(ExecResult::Continue)),
        Instruction::Lhz { rt, ra, d } => loadstore::half_loaded(s, t, r is Ok, rt, false, ra, loadstore::ea_disp(s, ra, d)) && (r is Ok ==> r == Ok::<ExecResult, Error>(ExecResult::Continue)),
        Instruction::Lhzu { rt, ra, d } => loadstore::half_loaded(s, t, r is Ok, rt, true, ra, loadstore::ea_disp(s, ra, d)) && (r is Ok ==> r == Ok::<ExecResult, Error>(ExecResult::Continue)),
        Instruction::Lhzux { rt, ra, rb } => loadstore::half_loaded(s, t, r is Ok, rt, true, ra, loadstore::ea_indexed(s, ra, rb)) && (r is Ok ==> r == Ok::<ExecResult, Error>(ExecResult::Continue)),
        Instruction::Lhzx { rt, ra, rb } => loadstore::half_loaded(s, t, r is Ok, rt, false, ra, loadstore::ea_indexed(s, ra, rb)) && (r is Ok ==> r == Ok::<ExecResult, Error>(ExecResult::Continue)),
        Instruction::Lwz { rt, ra, d } => loadstore::word_loaded(s, t, r is Ok, rt, false, ra, loadstore::ea_disp(s, ra, d)) && (r is Ok ==> r == Ok::<ExecResult, Error>(ExecResult::Continue)),
        Instruction::Lwzu { rt, ra, d } => loadstore::word_loaded(s, t, r is Ok, rt, true, ra, loadstore::ea_disp(s, ra, d)) && (r is Ok ==> r == Ok::<ExecResult, Error>(ExecResult::Continue)),
        Instruction::Lwzux { rt, ra, rb } => loadstore::word_loaded(s, t, r is Ok, rt, true, ra, loadstore::ea_indexed(s, ra, rb)) && (r is Ok ==> r == Ok::<ExecResult, Error>(ExecResult::Continue)),
        Instruction::Lwzx { rt, ra, rb } => loadstore::word_loaded(s, t, r is Ok, rt, false, ra, loadstore::ea_indexed(s, ra, rb)) && (r is Ok ==> r == Ok::<ExecResult, Error>(ExecResult::Continue)),
        Instruction::Stb { rs, ra, d } => loadstore::stored(s, t, r is Ok, false, ra, loadstore::ea_disp(s, ra, d)) && (r is Ok ==> r == Ok::<ExecResult, Error>(ExecResult::Continue)),
        Instruction::Stbu { rs, ra, d } => loadstore::stored(s, t, r is Ok, true, ra, loadstore::ea_disp(s, ra, d)) && (r is Ok ==> r == Ok::<ExecResult, Error>(ExecResult::Continue)),
        Instruction::Stbux { rs, ra, rb } => loadstore::stored(s, t, r is Ok, true, ra, loadstore::ea_indexed(s, ra, rb)) && (r is Ok ==> r == Ok::<ExecResult, Error>(ExecResult::Continue)),
        Instruction::Stbx { rs, ra, rb } => loadstore::stored(s, t, r is Ok, false, ra, loadstore::ea_indexed(s, ra, rb)) && (r is Ok ==> r == Ok::<ExecResult, Error>(ExecResult::Continue)),
        Instruction::Sth { rs, ra, d } => loadstore::stored(s, t, r is Ok, false, ra, loadstore::ea_disp(s, ra, d)) && (r is Ok ==> r == Ok::<ExecResult, Error>(ExecResult::Continue)),
        Instruction::Sthu { rs, ra, d } => loadstore::stored(s, t, r is Ok, true, ra, loadstore::ea_disp(s, ra, d)) && (r is Ok ==> r == Ok::<ExecResult, Error>(ExecResult::Continue)),
        Instruction::Sthux { rs, ra, rb } => loadstore::stored(s, t, r is Ok, true, ra, loadstore::ea_indexed(s, ra, rb)) && (r is Ok ==> r == Ok::<ExecResult, Error>(ExecResult::Continue)),
        Instruction::Sthx { rs, ra, rb } => loadstore::stored(s, t, r is Ok, false, ra, loadstore::ea_indexed(s, ra, rb)) && (r is Ok ==> r == Ok::<ExecResult, Error>(ExecResult::Continue)),
        Instruction::Stw { rs, ra, d } => loadstore::stored(s, t, r is Ok, false, ra, loadstore::ea_disp(s, ra, d)) && (r is Ok ==> r == Ok::<ExecResult, Error>(ExecResult::Continue)),
        Instruction::Stwu { rs, ra, d } => loadstore::stored(s, t, r is Ok, true, ra, loadstore::ea_disp(s, ra, d)) && (r is Ok ==> r == Ok::<ExecResult, Error>(ExecResult::Continue)),
        Instruction::Stwux { rs, ra, rb } => loadstore::stored(s, t, r is Ok, true, ra, loadstore::ea_indexed(s, ra, rb)) && (r is Ok ==> r == Ok::<ExecResult, Error>(ExecResult::Continue)),
        Instruction::Stwx { rs, ra, rb } => loadstore::stored(s, t, r is Ok, false, ra, loadstore::ea_indexed(s, ra, rb)) && (r is Ok ==> r == Ok::<ExecResult, Error>(ExecResult::Continue)),
        Instruction::Dcbi { .. } => r == Ok::<ExecResult, Error>(ExecResult::Continue) && t == s,
        Instruction::Dcbz { .. } => t == s && (r is Ok ==> r == Ok::<ExecResult, Error>(ExecResult::Continue)),
        Instruction::Eciwx { rt, ra, rb } => loadstore::word_loaded(s, t, r is Ok, rt, false, ra, loadstore::ea_indexed(s, ra, rb)) && (r is Ok ==> r == Ok::<ExecResult, Error>(ExecResult::Continue)),
        Instruction::Ecowx { rs, ra, rb } => t == s && (r is Ok ==> r == Ok::<ExecResult, Error>(ExecResult::Continue)),
        Instruction::Lfd { frt, ra, d } => loadstore::fp_loaded(s, t, r is Ok, frt, false, ra, loadstore::ea_disp(s, ra, d)) && (r is Ok ==> r == Ok::<ExecResult, Error>(ExecResult::Continue)),
        Instruction::Lfdu { frt, ra, d } => loadstore::fp_loaded(s, t, r is Ok, frt, true, ra, loadstore::ea_disp(s, ra, d)) && (r is Ok ==> r == Ok::<ExecResult, Error>(ExecResult::Continue)),
        Instruction::Lfs { frt, ra, d } => loadstore::fp_loaded(s, t, r is Ok, frt, false, ra, loadstore::ea_disp(s, ra, d)) && (r is Ok ==> r == Ok::<ExecResult, Error>(ExecResult::Continue)),
        Instruction::Lfsu { frt, ra, d } => loadstore::fp_loaded(s, t, r is Ok, frt, true, ra, loadstore::ea_disp(s, ra, d)) && (r is Ok ==> r == Ok::<ExecResult, Error>(ExecResult::Continue)),
        Instruction::Stfd { frs, ra, d } => loadstore::stored(s, t, r is Ok, false, ra, loadstore::ea_disp(s, ra, d)) && (r is Ok ==> r == Ok::<ExecResult, Error>(ExecResult::Continue)),
        Instruction::Stfdu { frs, ra, d } => loadstore::stored(s, t, r is Ok, true, ra, loadstore::ea_disp(s, ra, d)) && (r is Ok ==> r == Ok::<ExecResult, Error>(ExecResult::Continue)),
        Instruction::Stfs { frs, ra, d } => loadstore::stored(s, t, r is Ok, false, ra, loadstore::ea_disp(s, ra, d)) && (r is Ok ==> r == Ok::<ExecResult, Error>(ExecResult::Continue)),
        Instruction::Stfsu { frs, ra, d } => loadstore::stored(s, t, r is Ok, true, ra, loadstore::ea_disp(s, ra, d)) && (r is Ok ==> r == Ok::<ExecResult, Error>(ExecResult::Continue)),
        Instruction::Lvx { vd, ra, rb } => altivec::vector_loaded(s, t, r is Ok, vd) && (r is Ok ==> r == Ok::<ExecResult, Error>(ExecResult::Continue)),
        Instruction::Stvx { vs, ra, rb } => t == s && (r is Ok ==> r == Ok::<ExecResult, Error>(ExecResult::Continue)),
        Instruction::Lvxl { vd, ra, rb } => altivec::vector_loaded(s, t, r is Ok, vd) && (r is Ok ==> r == Ok::<ExecResult, Error>(ExecResult::Continue)),
        Instruction::Stvxl { vs, ra, rb } => t == s && (r is Ok ==> r == Ok::<ExecResult, Error>(ExecResult::Continue)),
        Instruction::Lvebx { vd, ra, rb } => altivec::vector_loaded(s, t, r is Ok, vd) && (r is Ok ==> forall|k: int| 0 <= k < 16 && k != altivec::vector_ea(s, ra, rb) % 16 ==> #[trigger] altivec::vreg(t, vd).byte(k) == 0) && (r is Ok ==> r == Ok::<ExecResult, Error>(ExecResult::Continue)),
        Instruction::Lvehx { vd, ra, rb } => altivec::vector_loaded(s, t, r is Ok, vd) && (r is Ok ==> forall|k: int| 0 <= k < 8 && k != (altivec::vector_ea(s, ra, rb) / 2) % 8 ==> #[trigger] altivec::vreg(t, vd).half(k) == 0) && (r is Ok ==> r == Ok::<ExecResult, Error>(ExecResult::Continue)),
        Instruction::Lvewx { vd, ra, rb } => altivec::vector_loaded(s, t, r is Ok, vd) && (r is Ok ==> forall|k: int| 0 <= k < 4 && k != (altivec::vector_ea(s, ra, rb) / 4) % 4 ==> #[trigger] altivec::vreg(t, vd).word(k) == 0) && (r is Ok ==> r == Ok::<ExecResult, Error>(ExecResult::Continue)),
        Instruction::Stvebx { vs, ra, rb } => t == s && (r is Ok ==> r == Ok::<ExecResult, Error>(ExecResult::Continue)),
        Instruction::Stvehx { vs, ra, rb } => t == s && (r is Ok ==> r == Ok::<ExecResult, Error>(ExecResult::Continue)),
        Instruction::Stvewx { vs, ra, rb } => t == s && (r is Ok ==> r == Ok::<ExecResult, Error>(ExecResult::Continue)),
        Instruction::Lvsl { vd, ra, rb } => r == Ok::<ExecResult, Error>(ExecResult::Continue) && altivec::lvsl_effect(s, t, vd, ra, rb),
        Instruction::Lvsr { vd, ra, rb } => r == Ok::<ExecResult, Error>(ExecResult::Continue) && altivec::lvsr_effect(s, t, vd, ra, rb),
        Instruction::Lwarx { rt, ra, rb } => loadstore::word_loaded(s, t, r is Ok, rt, false, ra, loadstore::ea_indexed(s, ra, rb)) && (r is Ok ==> r == Ok::<ExecResult, Error>(ExecResult::Continue)),
        Instruction::Lwbrx { rt, ra, rb } => loadstore::word_loaded(s, t, r is Ok, rt, false, ra, loadstore::ea_indexed(s, ra, rb)) && (r is Ok ==> r == Ok::<ExecResult, Error>(ExecResult::Continue)),
        Instruction::Lhbrx { rt, ra, rb } => loadstore::half_loaded(s, t, r is Ok, rt, false, ra, loadstore::ea_indexed(s, ra, rb)) && (r is Ok ==> r == Ok::<ExecResult, Error>(ExecResult::Continue)),
        Instruction::Stwbrx { rs, ra, rb } => t == s && (r is Ok ==> r == Ok::<ExecResult, Error>(ExecResult::Continue)),
        Instruction::Sthbrx { rs, ra, rb } => t == s && (r is Ok ==> r == Ok::<ExecResult, Error>(ExecResult::Continue)),
        Instruction::Stwcx { rs, ra, rb } => (r is Ok ==> r == Ok::<ExecResult, Error>(ExecResult::Continue)
            && s.cr_result(t, with_cr_field(s.cr, 0, cr_nibble(false, false, true, has_flag(s.xer, XER_SO))))) && (r is Err ==> t == s),
        Instruction::Lmw { .. } => (r is Err ==> t == s) && (r is Ok ==> r == Ok::<ExecResult, Error>(ExecResult::Continue)),
        Instruction::Lswi { .. } => (r is Err ==> t == s) && (r is Ok ==> r == Ok::<ExecResult, Error>(ExecResult::Continue)),
        Instruction::Lswx { .. } => (r is Err ==> t == s) && (r is Ok ==> r == Ok::<ExecResult, Error>(ExecResult::Continue)),
        Instruction::Stmw { .. } => t == s && (r is Ok ==> r == Ok::<ExecResult, Error>(ExecResult::Continue)),
        Instruction::Stswi { .. } => t == s && (r is Ok ==> r == Ok::<ExecResult, Error>(ExecResult::Continue)),
        Instruction::Stswx { .. } => t == s && (r is Ok ==> r == Ok::<ExecResult, Error>(ExecResult::Continue)),
        _ => execute_effect(s, t, i, r),
    }
}

/// `r`, the result of an instruction, is `ri`, the result of the memory
/// access it made: `Continue` on success, the access's error otherwise.
pub open spec fn lifted(ri: Result<(), Error>, r: Result<ExecResult, Error>) -> bool {
    match ri {
        Ok(_) => r == Ok::<ExecResult, Error>(ExecResult::Continue),
        Err(e) => r == Err::<ExecResult, Error>(e),
    }
}

/// The result of an instruction whose memory access gave `ri`.
fn lift(ri: Result<(), Error>) -> (r: Result<ExecResult, Error>)
    ensures
        lifted(ri, r),
{
    match ri {
        Ok(_) => Ok(ExecResult::Continue),
        Err(e) => Err(e),
    }
}

/// What the memory accesses of `i` are, from registers `s` to `t` with
/// result `r`: for each load and store, the address and width it reads or
/// writes, the value it stores, and how what memory gave decides the
/// registers and the result. Other instructions access no memory.
pub open spec fn memory_effect<M: MemoryInterface, F: FloatUnit>(memory: &M, fpu: &F, s: Registers, t: Registers, i: Instruction, r: Result<ExecResult, Error>) -> bool {
    match i {
        Instruction::Lbz { rt, ra, d } => exists|ri: Result<(), Error>, rd: Result<u8, Error>| #[trigger] lifted(ri, r) && memory.reads_u8(loadstore::ea_disp(s, ra, d), rd)
            && #[trigger] loadstore::byte_read(s, t, ri, rd, rt, false, ra, loadstore::ea_disp(s, ra, d)),
        Instruction::Lbzu { rt, ra, d } => exists|ri: Result<(), Error>, rd: Result<u8, Error>| #[trigger] lifted(ri, r) && memory.reads_u8(loadstore::ea_disp(s, ra, d), rd)
            && #[trigger] loadstore::byte_read(s, t, ri, rd, rt, true, ra, loadstore::ea_disp(s, ra, d)),
        Instruction::Lbzux { rt, ra, rb } => exists|ri: Result<(), Error>, rd: Result<u8, Error>| #[trigger] lifted(ri, r) && memory.reads_u8(loadstore::ea_indexed(s, ra, rb), rd)
            && #[trigger] loadstore::byte_read(s, t, ri, rd, rt, true, ra, loadstore::ea_indexed(s, ra, rb)),
        Instruction::Lbzx { rt, ra, rb } => exists|ri: Result<(), Error>, rd: Result<u8, Error>| #[trigger] lifted(ri, r) && memory.reads_u8(loadstore::ea_indexed(s, ra, rb), rd)
            && #[trigger] loadstore::byte_read(s, t, ri, rd, rt, false, ra, loadstore::ea_indexed(s, ra, rb)),
        Instruction::Lha { rt, ra, d } => exists|ri: Result<(), Error>, rd: Result<u16, Error>| #[trigger] lifted(ri, r) && memory.reads_u16(loadstore::ea_disp(s, ra, d), rd)
            && #[trigger] loadstore::half_signed_read(s, t, ri, rd, rt, false, ra, loadstore::ea_disp(s, ra, d)),
        Instruction::Lhau { rt, ra, d } => exists|ri: Result<(), Error>, rd: Result<u16, Error>| #[trigger] lifted(ri, r) && memory.reads_u16(loadstore::ea_disp(s, ra, d), rd)
            && #[trigger] loadstore::half_signed_read(s, t, ri, rd, rt, true, ra, loadstore::ea_disp(s, ra, d)),
        Instruction::Lhaux { rt, ra, rb } => exists|ri: Result<(), Error>, rd: Result<u16, Error>| #[trigger] lifted(ri, r) && memory.reads_u16(loadstore::ea_indexed(s, ra, rb), rd)
            && #[trigger] loadstore::half_signed_read(s, t, ri, rd, rt, true, ra, loadstore::ea_indexed(s, ra, rb)),
        Instruction::Lhax { rt, ra, rb } => exists|ri: Result<(), Error>, rd: Result<u16, Error>| #[trigger] lifted(ri, r) && memory.reads_u16(loadstore::ea_indexed(s, ra, rb), rd)
            && #[trigger] loadstore::half_signed_read(s, t, ri, rd, rt, false, ra, loadstore::ea_indexed(s, ra, rb)),
        Instruction::Lhz { rt, ra, d } => exists|ri: Result<(), Error>, rd: Result<u16, Error>| #[trigger] lifted(ri, r) && memory.reads_u16(loadstore::ea_disp(s, ra, d), rd)
            && #[trigger] loadstore::half_read(s, t, ri, rd, rt, false, ra, loadstore::ea_disp(s, ra, d)),
        Instruction::Lhzu { rt, ra, d } => exists|ri: Result<(), Error>, rd: Result<u16, Error>| #[trigger] lifted(ri, r) && memory.reads_u16(loadstore::ea_disp(s, ra, d), rd)
            && #[trigger] loadstore::half_read(s, t, ri, rd, rt, true, ra, loadstore::ea_disp(s, ra, d)),
        Instruction::Lhzux { rt, ra, rb } => exists|ri: Result<(), Error>, rd: Result<u16, Error>| #[trigger] lifted(ri, r) && memory.reads_u16(loadstore::ea_indexed(s, ra, rb), rd)
            && #[trigger] loadstore::half_read(s, t, ri, rd, rt, true, ra, loadstore::ea_indexed(s, ra, rb)),
        Instruction::Lhzx { rt, ra, rb } => exists|ri: Result<(), Error>, rd: Result<u16, Error>| #[trigger] lifted(ri, r) && memory.reads_u16(loadstore::ea_indexed(s, ra, rb), rd)
            && #[trigger] loadstore::half_read(s, t, ri, rd, rt, false, ra, loadstore::ea_indexed(s, ra, rb)),
        Instruction::Lwz { rt, ra, d } => exists|ri: Result<(), Error>, rd: Result<u32, Error>| #[trigger] lifted(ri, r) && memory.reads_u32(loadstore::ea_disp(s, ra, d), rd)
            && #[trigger] loadstore::word_read(s, t, ri, rd, rt, false, ra, loadstore::ea_disp(s, ra, d)),
        Instruction::Lwzu { rt, ra, d } => exists|ri: Result<(), Error>, rd: Result<u32, Error>| #[trigger] lifted(ri, r) && memory.reads_u32(loadstore::ea_disp(s, ra, d), rd)
            && #[trigger] loadstore::word_read(s, t, ri, rd, rt, true, ra, loadstore::ea_disp(s, ra, d)),
        Instruction::Lwzux { rt, ra, rb } => exists|ri: Result<(), Error>, rd: Result<u32, Error>| #[trigger] lifted(ri, r) && memory.reads_u32(loadstore::ea_indexed(s, ra, rb), rd)
            && #[trigger] loadstore::word_read(s, t, ri, rd, rt, true, ra, loadstore::ea_indexed(s, ra, rb)),
        Instruction::Lwzx { rt, ra, rb } => exists|ri: Result<(), Error>, rd: Result<u32, Error>| #[trigger] lifted(ri, r) && memory.reads_u32(loadstore::ea_indexed(s, ra, rb), rd)
            && #[trigger] loadstore::word_read(s, t, ri, rd, rt, false, ra, loadstore::ea_indexed(s, ra, rb)),
        Instruction::Eciwx { rt, ra, rb } => exists|ri: Result<(), Error>, rd: Result<u32, Error>| #[trigger] lifted(ri, r) && memory.reads_u32(loadstore::ea_indexed(s, ra, rb), rd)
            && #[trigger] loadstore::word_read(s, t, ri, rd, rt, false, ra, loadstore::ea_indexed(s, ra, rb)),
        Instruction::Stb { rs, ra, d } => exists|ri: Result<(), Error>, wr: Result<(), Error>| #[trigger] lifted(ri, r) && memory.writes_u8(loadstore::ea_disp(s, ra, d), s.gpr[rs as int] as u8, wr)
            && #[trigger] loadstore::store_write(s, t, ri, wr, false, ra, loadstore::ea_disp(s, ra, d)),
        Instruction::Stbu { rs, ra, d } => exists|ri: Result<(), Error>, wr: Result<(), Error>| #[trigger] lifted(ri, r) && memory.writes_u8(loadstore::ea_disp(s, ra, d), s.gpr[rs as int] as u8, wr)
            && #[trigger] loadstore::store_write(s, t, ri, wr, true, ra, loadstore::ea_disp(s, ra, d)),
        Instruction::Stbux { rs, ra, rb } => exists|ri: Result<(), Error>, wr: Result<(), Error>| #[trigger] lifted(ri, r) && memory.writes_u8(loadstore::ea_indexed(s, ra, rb), s.gpr[rs as int] as u8, wr)
            && #[trigger] loadstore::store_write(s, t, ri, wr, true, ra, loadstore::ea_indexed(s, ra, rb)),
        Instruction::Stbx { rs, ra, rb } => exists|ri: Result<(), Error>, wr: Result<(), Error>| #[trigger] lifted(ri, r) && memory.writes_u8(loadstore::ea_indexed(s, ra, rb), s.gpr[rs as int] as u8, wr)
            && #[trigger] loadstore::store_write(s, t, ri, wr, false, ra, loadstore::ea_indexed(s, ra, rb)),
        Instruction::Sth { rs, ra, d } => exists|ri: Result<(), Error>, wr: Result<(), Error>| #[trigger] lifted(ri, r) && memory.writes_u16(loadstore::ea_disp(s, ra, d), s.gpr[rs as int] as u16, wr)
            && #[trigger] loadstore::store_write(s, t, ri, wr, false, ra, loadstore::ea_disp(s, ra, d)),
        Instruction::Sthu { rs, ra, d } => exists|ri: Result<(), Error>, wr: Result<(), Error>| #[trigger] lifted(ri, r) && memory.writes_u16(loadstore::ea_disp(s, ra, d), s.gpr[rs as int] as u16, wr)
            && #[trigger] loadstore::store_write(s, t, ri, wr, true, ra, loadstore::ea_disp(s, ra, d)),
        Instruction::Sthux { rs, ra, rb } => exists|ri: Result<(), Error>, wr: Result<(), Error>| #[trigger] lifted(ri, r) && memory.writes_u16(loadstore::ea_indexed(s, ra, rb), s.gpr[rs as int] as u16, wr)
            && #[trigger] loadstore::store_write(s, t, ri, wr, true, ra, loadstore::ea_indexed(s, ra, rb)),
        Instruction::Sthx { rs, ra, rb } => exists|ri: Result<(), Error>, wr: Result<(), Error>| #[trigger] lifted(ri, r) && memory.writes_u16(loadstore::ea_indexed(s, ra, rb), s.gpr[rs as int] as u16, wr)
            && #[trigger] loadstore::store_write(s, t, ri, wr, false, ra, loadstore::ea_indexed(s, ra, rb)),
        Instruction::Stw { rs, ra, d } => exists|ri: Result<(), Error>, wr: Result<(), Error>| #[trigger] lifted(ri, r) && memory.writes_u32(loadstore::ea_disp(s, ra, d), s.gpr[rs as int], wr)
            && #[trigger] loadstore::store_write(s, t, ri, wr, false, ra, loadstore::ea_disp(s, ra, d)),
        Instruction::Stwu { rs, ra, d } => exists|ri: Result<(), Error>, wr: Result<(), Error>| #[trigger] lifted(ri, r) && memory.writes_u32(loadstore::ea_disp(s, ra, d), s.gpr[rs as int], wr)
            && #[trigger] loadstore::store_write(s, t, ri, wr, true, ra, loadstore::ea_disp(s, ra, d)),
        Instruction::Stwux { rs, ra, rb } => exists|ri: Result<(), Error>, wr: Result<(), Error>| #[trigger] lifted(ri, r) && memory.writes_u32(loadstore::ea_indexed(s, ra, rb), s.gpr[rs as int], wr)
            && #[trigger] loadstore::store_write(s, t, ri, wr, true, ra, loadstore::ea_indexed(s, ra, rb)),
        Instruction::Stwx { rs, ra, rb } => exists|ri: Result<(), Error>, wr: Result<(), Error>| #[trigger] lifted(ri, r) && memory.writes_u32(loadstore::ea_indexed(s, ra, rb), s.gpr[rs as int], wr)
            && #[trigger] loadstore::store_write(s, t, ri, wr, false, ra, loadstore::ea_indexed(s, ra, rb)),
        Instruction::Ecowx { rs, ra, rb } => exists|ri: Result<(), Error>, wr: Result<(), Error>| #[trigger] lifted(ri, r) && memory.writes_u32(loadstore::ea_indexed(s, ra, rb), s.gpr[rs as int], wr)
            && #[trigger] loadstore::store_write(s, t, ri, wr, false, ra, loadstore::ea_indexed(s, ra, rb)),
        Instruction::Lfd { frt, ra, d } => exists|ri: Result<(), Error>, rd: Result<u64, Error>| #[trigger] lifted(ri, r) && memory.reads_u64(loadstore::ea_disp(s, ra, d), rd)
            && #[trigger] loadstore::fp_read(s, t, ri, rd, frt, false, ra, loadstore::ea_disp(s, ra, d)),
        Instruction::Lfdu { frt, ra, d } => exists|ri: Result<(), Error>, rd: Result<u64, Error>| #[trigger] lifted(ri, r) && memory.reads_u64(loadstore::ea_disp(s, ra, d), rd)
            && #[trigger] loadstore::fp_read(s, t, ri, rd, frt, true, ra, loadstore::ea_disp(s, ra, d)),
        Instruction::Lfs { frt, ra, d } => exists|ri: Result<(), Error>, rd: Result<u32, Error>, wide: u64| #[trigger] lifted(ri, r) && memory.reads_u32(loadstore::ea_disp(s, ra, d), rd)
            && (rd matches Ok(v) ==> fpu.widens(v, wide)) && #[trigger] loadstore::single_read(s, t, ri, rd, wide, frt, false, ra, loadstore::ea_disp(s, ra, d)),
        Instruction::Lfsu { frt, ra, d } => exists|ri: Result<(), Error>, rd: Result<u32, Error>, wide: u64| #[trigger] lifted(ri, r) && memory.reads_u32(loadstore::ea_disp(s, ra, d), rd)
            && (rd matches Ok(v) ==> fpu.widens(v, wide)) && #[trigger] loadstore::single_read(s, t, ri, rd, wide, frt, true, ra, loadstore::ea_disp(s, ra, d)),
        Instruction::Stfd { frs, ra, d } => exists|ri: Result<(), Error>, wr: Result<(), Error>| #[trigger] lifted(ri, r) && memory.writes_u64(loadstore::ea_disp(s, ra, d), s.fpr[frs as int], wr)
            && #[trigger] loadstore::store_write(s, t, ri, wr, false, ra, loadstore::ea_disp(s, ra, d)),
        Instruction::Stfdu { frs, ra, d } => exists|ri: Result<(), Error>, wr: Result<(), Error>| #[trigger] lifted(ri, r) && memory.writes_u64(loadstore::ea_disp(s, ra, d), s.fpr[frs as int], wr)
            && #[trigger] loadstore::store_write(s, t, ri, wr, true, ra, loadstore::ea_disp(s, ra, d)),
        Instruction::Stfs { frs, ra, d } => exists|ri: Result<(), Error>, narrow: u32, wr: Result<(), Error>| #[trigger] lifted(ri, r) && fpu.narrows(s.fpr[frs as int], narrow)
            && #[trigger] memory.writes_u32(loadstore::ea_disp(s, ra, d), narrow, wr) && loadstore::store_write(s, t, ri, wr, false, ra, loadstore::ea_disp(s, ra, d)),
        Instruction::Stfsu { frs, ra, d } => exists|ri: Result<(), Error>, narrow: u32, wr: Result<(), Error>| #[trigger] lifted(ri, r) && fpu.narrows(s.fpr[frs as int], narrow)
            && #[trigger] memory.writes_u32(loadstore::ea_disp(s, ra, d), narrow, wr) && loadstore::store_write(s, t, ri, wr, true, ra, loadstore::ea_disp(s, ra, d)),
        Instruction::Dcbz { ra, rb } => exists|ri: Result<(), Error>| #[trigger] lifted(ri, r) && t == s
            && (ri is Ok ==> system::zeroed_first(memory, system::block_of(loadstore::ea_indexed(s, ra, rb)), 32))
            && (ri matches Err(e) ==> exists|n: u32| n < 32 && #[trigger] system::zeroed_first(memory, system::block_of(loadstore::ea_indexed(s, ra, rb)), n)
                && memory.writes_u8((system::block_of(loadstore::ea_indexed(s, ra, rb)) + n) as u32, 0u8, Err::<(), Error>(e))),
        Instruction::Lvx { vd, ra, rb } => exists|ri: Result<(), Error>, rv: Result<crate::altivec::types::Vector128, Error>| #[trigger] lifted(ri, r)
            && crate::altivec::memory::vector_read(memory, crate::altivec::memory::aligned_ea(arithmetic::base_or_zero(s, ra), s.gpr[rb as int]), rv) && #[trigger] altivec::loaded_vector(s, t, ri, rv, vd),
        Instruction::Lvxl { vd, ra, rb } => exists|ri: Result<(), Error>, rv: Result<crate::altivec::types::Vector128, Error>| #[trigger] lifted(ri, r)
            && crate::altivec::memory::vector_read(memory, crate::altivec::memory::aligned_ea(arithmetic::base_or_zero(s, ra), s.gpr[rb as int]), rv) && #[trigger] altivec::loaded_vector(s, t, ri, rv, vd),
        Instruction::Lvebx { vd, ra, rb } => exists|ri: Result<(), Error>, rv: Result<crate::altivec::types::Vector128, Error>| #[trigger] lifted(ri, r)
            && crate::altivec::memory::byte_element_read(memory, altivec::vector_ea(s, ra, rb), rv) && #[trigger] altivec::loaded_vector(s, t, ri, rv, vd),
        Instruction::Lvehx { vd, ra, rb } => exists|ri: Result<(), Error>, rv: Result<crate::altivec::types::Vector128, Error>| #[trigger] lifted(ri, r)
            && crate::altivec::memory::half_element_read(memory, altivec::vector_ea(s, ra, rb), rv) && #[trigger] altivec::loaded_vector(s, t, ri, rv, vd),
        Instruction::Lvewx { vd, ra, rb } => exists|ri: Result<(), Error>, rv: Result<crate::altivec::types::Vector128, Error>| #[trigger] lifted(ri, r)
            && crate::altivec::memory::word_element_read(memory, altivec::vector_ea(s, ra, rb), rv) && #[trigger] altivec::loaded_vector(s, t, ri, rv, vd),
        Instruction::Stvx { vs, ra, rb } => exists|ri: Result<(), Error>| #[trigger] lifted(ri, r) && t == s
            && crate::altivec::memory::vector_written(memory, crate::altivec::memory::aligned_ea(arithmetic::base_or_zero(s, ra), s.gpr[rb as int]), altivec::vreg(s, vs), ri),
        Instruction::Stvxl { vs, ra, rb } => exists|ri: Result<(), Error>| #[trigger] lifted(ri, r) && t == s
            && crate::altivec::memory::vector_written(memory, crate::altivec::memory::aligned_ea(arithmetic::base_or_zero(s, ra), s.gpr[rb as int]), altivec::vreg(s, vs), ri),
        Instruction::Stvebx { vs, ra, rb } => exists|ri: Result<(), Error>| #[trigger] lifted(ri, r) && t == s
            && memory.writes_u8(altivec::vector_ea(s, ra, rb), altivec::vreg(s, vs).byte((altivec::vector_ea(s, ra, rb) % 16) as int), ri),
        Instruction::Stvehx { vs, ra, rb } => exists|ri: Result<(), Error>| #[trigger] lifted(ri, r) && t == s
            && memory.writes_u16((altivec::vector_ea(s, ra, rb) - altivec::vector_ea(s, ra, rb) % 2) as u32, altivec::vreg(s, vs).half(((altivec::vector_ea(s, ra, rb) / 2) % 8) as int), ri),
        Instruction::Stvewx { vs, ra, rb } => exists|ri: Result<(), Error>| #[trigger] lifted(ri, r) && t == s
            && memory.writes_u32((altivec::vector_ea(s, ra, rb) - altivec::vector_ea(s, ra, rb) % 4) as u32, altivec::vreg(s, vs).word(((altivec::vector_ea(s, ra, rb) / 4) % 4) as int), ri),
        Instruction::Lwarx { rt, ra, rb } => exists|ri: Result<(), Error>, rd: Result<u32, Error>| #[trigger] lifted(ri, r) && memory.reads_u32(loadstore::ea_indexed(s, ra, rb), rd)
            && #[trigger] loadstore::word_read(s, t, ri, rd, rt, false, ra, loadstore::ea_indexed(s, ra, rb)),
        Instruction::Lwbrx { rt, ra, rb } => exists|ri: Result<(), Error>, rd: Result<u32, Error>| #[trigger] lifted(ri, r) && memory.reads_u32(loadstore::ea_indexed(s, ra, rb), rd)
            && #[trigger] loadstore::word_read(s, t, ri, loadstore::swapped32(rd), rt, false, ra, loadstore::ea_indexed(s, ra, rb)),
        Instruction::Lhbrx { rt, ra, rb } => exists|ri: Result<(), Error>, rd: Result<u16, Error>| #[trigger] lifted(ri, r) && memory.reads_u16(loadstore::ea_indexed(s, ra, rb), rd)
            && #[trigger] loadstore::half_read(s, t, ri, loadstore::swapped16(rd), rt, false, ra, loadstore::ea_indexed(s, ra, rb)),
        Instruction::Stwbrx { rs, ra, rb } => exists|ri: Result<(), Error>, wr: Result<(), Error>| #[trigger] lifted(ri, r) && memory.writes_u32(loadstore::ea_indexed(s, ra, rb), loadstore::swap32(s.gpr[rs as int]), wr)
            && #[trigger] loadstore::store_write(s, t, ri, wr, false, ra, loadstore::ea_indexed(s, ra, rb)),
        Instruction::Sthbrx { rs, ra, rb } => exists|ri: Result<(), Error>, wr: Result<(), Error>| #[trigger] lifted(ri, r) && memory.writes_u16(loadstore::ea_indexed(s, ra, rb), loadstore::swap16(s.gpr[rs as int] as u16), wr)
            && #[trigger] loadstore::store_write(s, t, ri, wr, false, ra, loadstore::ea_indexed(s, ra, rb)),
        Instruction::Stwcx { rs, ra, rb } => exists|ri: Result<(), Error>, wr: Result<(), Error>| #[trigger] lifted(ri, r) && memory.writes_u32(loadstore::ea_indexed(s, ra, rb), s.gpr[rs as int], wr)
            && #[trigger] loadstore::conditional_store(s, t, ri, wr),
        Instruction::Lmw { rt, ra, d } => exists|ri: Result<(), Error>| #[trigger] lifted(ri, r) && loadstore::multiple_loaded(memory, s, t, ri, rt, loadstore::ea_disp(s, ra, d)),
        Instruction::Stmw { rs, ra, d } => exists|ri: Result<(), Error>| #[trigger] lifted(ri, r) && loadstore::multiple_stored(memory, s, t, ri, rs, loadstore::ea_disp(s, ra, d)),
        Instruction::Lswi { rt, ra, nb } => exists|ri: Result<(), Error>| #[trigger] lifted(ri, r)
            && loadstore::string_loaded(memory, s, t, ri, rt, arithmetic::base_or_zero(s, ra), if nb == 0 { 32 } else { nb as int }),
        Instruction::Lswx { rt, ra, rb } => exists|ri: Result<(), Error>| #[trigger] lifted(ri, r)
            && loadstore::string_loaded(memory, s, t, ri, rt, loadstore::ea_indexed(s, ra, rb), (s.xer % 128) as int),
        Instruction::Stswi { rs, ra, nb } => exists|ri: Result<(), Error>| #[trigger] lifted(ri, r)
            && loadstore::string_stored(memory, s, t, ri, rs, arithmetic::base_or_zero(s, ra), if nb == 0 { 32 } else { nb as int }),
        Instruction::Stswx { rs, ra, rb } => exists|ri: Result<(), Error>| #[trigger] lifted(ri, r)
            && loadstore::string_stored(memory, s, t, ri, rs, loadstore::ea_indexed(s, ra, rb), (s.xer % 128) as int),
        _ => true,
    }
}

/// Instruction interpreter
pub struct Interpreter {}

impl Interpreter {
    /// Create a new interpreter
    pub fn new() -> (r: Self)
        ensures
            r == (Interpreter {}),
    {
        Interpreter {}
    }

    /// Execute a decoded instruction without memory access; loads and
    /// stores do nothing here. Floating-point arithmetic goes to `fpu`.
    pub fn execute<F: FloatUnit>(&mut self, instr: Instruction, regs: &mut Registers, fpu: &F) -> (r: Result<ExecResult, Error>)
        requires
            operands_valid(instr, old(regs).pc),
        ensures
            execute_effect(*old(regs), *final(regs), instr, r),
    {
        match instr {
            Instruction::Add { rt, ra, rb, oe, rc } => {
                arithmetic::add(regs, rt, ra, rb, oe, rc)?;
                Ok(ExecResult::Continue)
            },
            Instruction::Addc { rt, ra, rb, oe, rc } => {
                arithmetic::addc(regs, rt, ra, rb, oe, rc)?;
                Ok(ExecResult::Continue)
            },
            Instruction::Adde { rt, ra, rb, oe, rc } => {
                arithmetic::adde(regs, rt, ra, rb, oe, rc)?;
                Ok(ExecResult::Continue)
            },
            Instruction::Addi { rt, ra, simm } => {
                arithmetic::addi(regs, rt, ra, simm)?;
                Ok(ExecResult::Continue)
            },
            Instruction::Addic { rt, ra, simm } => {
                arithmetic::addic(regs, rt, ra, simm)?;
                Ok(ExecResult::Continue)
            },
            Instruction::AddicDot { rt, ra, simm } => {
                arithmetic::addic_dot(regs, rt, ra, simm)?;
                Ok(ExecResult::Continue)
            },
            Instruction::Addis { rt, ra, simm } => {
                arithmetic::addis(regs, rt, ra, simm)?;
                Ok(ExecResult::Continue)
            },
            Instruction::Addme { rt, ra, oe, rc } => {
                arithmetic::addme(regs, rt, ra, oe, rc)?;
                Ok(ExecResult::Continue)
            },
            Instruction::Addze { rt, ra, oe, rc } => {
                arithmetic::addze(regs, rt, ra, oe, rc)?;
                Ok(ExecResult::Continue)
            },
            Instruction::Divw { rt, ra, rb, oe, rc } => {
                arithmetic::divw(regs, rt, ra, rb, oe, rc)?;
                Ok(ExecResult::Continue)
            },
            Instruction::Divwu { rt, ra, rb, oe, rc } => {
                arithmetic::divwu(regs, rt, ra, rb, oe, rc)?;
                Ok(ExecResult::Continue)
            },
            Instruction::Mulhw { rt, ra, rb, rc } => {
                arithmetic::mulhw(regs, rt, ra, rb, rc)?;
                Ok(ExecResult::Continue)
            },
            Instruction::Mulhwu { rt, ra, rb, rc } => {
                arithmetic::mulhwu(regs, rt, ra, rb, rc)?;
                Ok(ExecResult::Continue)
            },
            Instruction::Mulli { rt, ra, simm } => {
                arithmetic::mulli(regs, rt, ra, simm)?;
                Ok(ExecResult::Continue)
            },
            Instruction::Mullw { rt, ra, rb, oe, rc } => {
                arithmetic::mullw(regs, rt, ra, rb, oe, rc)?;
                Ok(ExecResult::Continue)
            },
            Instruction::Neg { rt, ra, oe, rc } => {
                arithmetic::neg(regs, rt, ra, oe, rc)?;
                Ok(ExecResult::Continue)
            },
            Instruction::Subf { rt, ra, rb, oe, rc } => {
                arithmetic::subf(regs, rt, ra, rb, oe, rc)?;
                Ok(ExecResult::Continue)
            },
            Instruction::Subfc { rt, ra, rb, oe, rc } => {
                arithmetic::subfc(regs, rt, ra, rb, oe, rc)?;
                Ok(ExecResult::Continue)
            },
            Instruction::Subfe { rt, ra, rb, oe, rc } => {
                arithmetic::subfe(regs, rt, ra, rb, oe, rc)?;
                Ok(ExecResult::Continue)
            },
            Instruction::Subfic { rt, ra, simm } => {
                arithmetic::subfic(regs, rt, ra, simm)?;
                Ok(ExecResult::Continue)
            },
            Instruction::Subfme { rt, ra, oe, rc } => {
                arithmetic::subfme(regs, rt, ra, oe, rc)?;
                Ok(ExecResult::Continue)
            },
            Instruction::Subfze { rt, ra, oe, rc } => {
                arithmetic::subfze(regs, rt, ra, oe, rc)?;
                Ok(ExecResult::Continue)
            },
            Instruction::And { ra, rs, rb, rc } => {
                logical::and(regs, ra, rs, rb, rc)?;
                Ok(ExecResult::Continue)
            },
            Instruction::Andc { ra, rs, rb, rc } => {
                logical::andc(regs, ra, rs, rb, rc)?;
                Ok(ExecResult::Continue)
            },
            Instruction::Andi { ra, rs, uimm } => {
                logical::andi(regs, ra, rs, uimm)?;
                Ok(ExecResult::Continue)
            },
            Instruction::Andis { ra, rs, uimm } => {
                logical::andis(regs, ra, rs, uimm)?;
                Ok(ExecResult::Continue)
            },
            Instruction::Cntlzw { ra, rs, rc } => {
                logical::cntlzw(regs, ra, rs, rc)?;
                Ok(ExecResult::Continue)
            },
            Instruction::Eqv { ra, rs, rb, rc } => {
                logical::eqv(regs, ra, rs, rb, rc)?;
                Ok(ExecResult::Continue)
            },
            Instruction::Extsb { ra, rs, rc } => {
                logical::extsb(regs, ra, rs, rc)?;
                Ok(ExecResult::Continue)
            },
            Instruction::Extsh { ra, rs, rc } => {
                logical::extsh(regs, ra, rs, rc)?;
                Ok(ExecResult::Continue)
            },
            Instruction::Nand { ra, rs, rb, rc } => {
                logical::nand(regs, ra, rs, rb, rc)?;
                Ok(ExecResult::Continue)
            },
            Instruction::Nor { ra, rs, rb, rc } => {
                logical::nor(regs, ra, rs, rb, rc)?;
                Ok(ExecResult::Continue)
            },
            Instruction::Or { ra, rs, rb, rc } => {
                logical::or(regs, ra, rs, rb, rc)?;
                Ok(ExecResult::Continue)
            },
            Instruction::Orc { ra, rs, rb, rc } => {
                logical::orc(regs, ra, rs, rb, rc)?;
                Ok(ExecResult::Continue)
            },
            Instruction::Ori { ra, rs, uimm } => {
                logical::ori(regs, ra, rs, uimm)?;
                Ok(ExecResult::Continue)
            },
            Instruction::Oris { ra, rs, uimm } => {
                logical::oris(regs, ra, rs, uimm)?;
                Ok(ExecResult::Continue)
            },
            Instruction::Xor { ra, rs, rb, rc } => {
                logical::xor(regs, ra, rs, rb, rc)?;
                Ok(ExecResult::Continue)
            },
            Instruction::Xori { ra, rs, uimm } => {
                logical::xori(regs, ra, rs, uimm)?;
                Ok(ExecResult::Continue)
            },
            Instruction::Xoris { ra, rs, uimm } => {
                logical::xoris(regs, ra, rs, uimm)?;
                Ok(ExecResult::Continue)
            },
            Instruction::Rlwimi { ra, rs, sh, mb, me, rc } => {
                shifts::rlwimi(regs, ra, rs, sh, mb, me, rc)?;
                Ok(ExecResult::Continue)
            },
            Instruction::Rlwinm { ra, rs, sh, mb, me, rc } => {
                shifts::rlwinm(regs, ra, rs, sh, mb, me, rc)?;
                Ok(ExecResult::Continue)
            },
            Instruction::Rlwnm { ra, rs, rb, mb, me, rc } => {
                shifts::rlwnm(regs, ra, rs, rb, mb, me, rc)?;
                Ok(ExecResult::Continue)
            },
            Instruction::Slw { ra, rs, rb, rc } => {
                shifts::slw(regs, ra, rs, rb, rc)?;
                Ok(ExecResult::Continue)
            },
            Instruction::Sraw { ra, rs, rb, rc } => {
                shifts::sraw(regs, ra, rs, rb, rc)?;
                Ok(ExecResult::Continue)
            },
            Instruction::Srawi { ra, rs, sh, rc } => {
                shifts::srawi(regs, ra, rs, sh, rc)?;
                Ok(ExecResult::Continue)
            },
            Instruction::Srw { ra, rs, rb, rc } => {
                shifts::srw(regs, ra, rs, rb, rc)?;
                Ok(ExecResult::Continue)
            },
            Instruction::Cmp { crfd, l, ra, rb } => {
                compare::cmp(regs, crfd, l, ra, rb)?;
                Ok(ExecResult::Continue)
            },
            Instruction::Cmpi { crfd, l, ra, simm } => {
                compare::cmpi(regs, crfd, l, ra, simm)?;
                Ok(ExecResult::Continue)
            },
            Instruction::Cmpl { crfd, l, ra, rb } => {
                compare::cmpl(regs, crfd, l, ra, rb)?;
                Ok(ExecResult::Continue)
            },
            Instruction::Cmpli { crfd, l, ra, uimm } => {
                compare::cmpli(regs, crfd, l, ra, uimm)?;
                Ok(ExecResult::Continue)
            },
            Instruction::Lbz { .. } => Ok(ExecResult::Continue),
            Instruction::Lbzu { .. } => Ok(ExecResult::Continue),
            Instruction::Lbzux { .. } => Ok(ExecResult::Continue),
            Instruction::Lbzx { .. } => Ok(ExecResult::Continue),
            Instruction::Lwarx { .. } => Ok(ExecResult::Continue),
            Instruction::Stwcx { .. } => Ok(ExecResult::Continue),
            Instruction::Lwbrx { .. } => Ok(ExecResult::Continue),
            Instruction::Lhbrx { .. } => Ok(ExecResult::Continue),
            Instruction::Stwbrx { .. } => Ok(ExecResult::Continue),
            Instruction::Sthbrx { .. } => Ok(ExecResult::Continue),
            Instruction::Lha { .. } => Ok(ExecResult::Continue),
            Instruction::Lhau { .. } => Ok(ExecResult::Continue),
            Instruction::Lhaux { .. } => Ok(ExecResult::Continue),
            Instruction::Lhax { .. } => Ok(ExecResult::Continue),
            Instruction::Lhz { .. } => Ok(ExecResult::Continue),
            Instruction::Lhzu { .. } => Ok(ExecResult::Continue),
            Instruction::Lhzux { .. } => Ok(ExecResult::Continue),
            Instruction::Lhzx { .. } => Ok(ExecResult::Continue),
            Instruction::Lwz { .. } => Ok(ExecResult::Continue),
            Instruction::Lwzu { .. } => Ok(ExecResult::Continue),
            Instruction::Lwzux { .. } => Ok(ExecResult::Continue),
            Instruction::Lwzx { .. } => Ok(ExecResult::Continue),
            Instruction::Stb { .. } => Ok(ExecResult::Continue),
            Instruction::Stbu { .. } => Ok(ExecResult::Continue),
            Instruction::Stbux { .. } => Ok(ExecResult::Continue),
            Instruction::Stbx { .. } => Ok(ExecResult::Continue),
            Instruction::Sth { .. } => Ok(ExecResult::Continue),
            Instruction::Sthu { .. } => Ok(ExecResult::Continue),
            Instruction::Sthux { .. } => Ok(ExecResult::Continue),
            Instruction::Sthx { .. } => Ok(ExecResult::Continue),
            Instruction::Stw { .. } => Ok(ExecResult::Continue),
            Instruction::Stwu { .. } => Ok(ExecResult::Continue),
            Instruction::Stwux { .. } => Ok(ExecResult::Continue),
            Instruction::Stwx { .. } => Ok(ExecResult::Continue),
            Instruction::Lmw { .. } => Ok(ExecResult::Continue),
            Instruction::Stmw { .. } => Ok(ExecResult::Continue),
            Instruction::Lswi { .. } => Ok(ExecResult::Continue),
            Instruction::Lswx { .. } => Ok(ExecResult::Continue),
            Instruction::Stswi { .. } => Ok(ExecResult::Continue),
            Instruction::Stswx { .. } => Ok(ExecResult::Continue),
            Instruction::B { li, aa, lk } => {
                branches::b(regs, li, aa, lk)?;
                Ok(ExecResult::BranchTaken)
            },
            Instruction::Bc { bo, bi, bd, aa, lk } => {
                branches::bc(regs, bo, bi, bd, aa, lk)?;
                Ok(ExecResult::BranchTaken)
            },
            Instruction::Bcctr { bo, bi, lk } => {
                branches::bcctr(regs, bo, bi, lk)?;
                Ok(ExecResult::BranchTaken)
            },
            Instruction::Bclr { bo, bi, lk } => {
                branches::bclr(regs, bo, bi, lk)?;
                Ok(ExecResult::BranchTaken)
            },
            Instruction::Crand { bt, ba, bb } => {
                crlogical::crand(regs, bt, ba, bb)?;
                Ok(ExecResult::Continue)
            },
            Instruction::Crandc { bt, ba, bb } => {
                crlogical::crandc(regs, bt, ba, bb)?;
                Ok(ExecResult::Continue)
            },
            Instruction::Creqv { bt, ba, bb } => {
                crlogical::creqv(regs, bt, ba, bb)?;
                Ok(ExecResult::Continue)
            },
            Instruction::Crnand { bt, ba, bb } => {
                crlogical::crnand(regs, bt, ba, bb)?;
                Ok(ExecResult::Continue)
            },
            Instruction::Crnor { bt, ba, bb } => {
                crlogical::crnor(regs, bt, ba, bb)?;
                Ok(ExecResult::Continue)
            },
            Instruction::Cror { bt, ba, bb } => {
                crlogical::cror(regs, bt, ba, bb)?;
                Ok(ExecResult::Continue)
            },
            Instruction::Crorc { bt, ba, bb } => {
                crlogical::crorc(regs, bt, ba, bb)?;
                Ok(ExecResult::Continue)
            },
            Instruction::Crxor { bt, ba, bb } => {
                crlogical::crxor(regs, bt, ba, bb)?;
                Ok(ExecResult::Continue)
            },
            Instruction::Mcrf { crfd, crfs } => {
                crlogical::mcrf(regs, crfd, crfs)?;
                Ok(ExecResult::Continue)
            },
            Instruction::Mcrxr { crfd } => {
                crlogical::mcrxr(regs, crfd)?;
                Ok(ExecResult::Continue)
            },
            Instruction::Mfcr { rt } => {
                system::mfcr(regs, rt)?;
                Ok(ExecResult::Continue)
            },
            Instruction::Mfmsr { rt } => {
                system::mfmsr(regs, rt)?;
                Ok(ExecResult::Continue)
            },
            Instruction::Mfspr { rt, spr } => {
                system::mfspr(regs, rt, spr)?;
                Ok(ExecResult::Continue)
            },
            Instruction::Mfsr { rt, sr } => {
                system::mfsr(regs, rt, sr)?;
                Ok(ExecResult::Continue)
            },
            Instruction::Mfsrin { rt, rb } => {
                system::mfsrin(regs, rt, rb)?;
                Ok(ExecResult::Continue)
            },
            Instruction::Mftb { rt, tbr } => {
                system::mftb(regs, rt, tbr)?;
                Ok(ExecResult::Continue)
            },
            Instruction::Mtcrf { fxm, rs } => {
                system::mtcrf(regs, fxm, rs)?;
                Ok(ExecResult::Continue)
            },
            Instruction::Mtmsr { rs } => {
                system::mtmsr(regs, rs)?;
                Ok(ExecResult::Continue)
            },
            Instruction::Mtspr { spr, rs } => {
                system::mtspr(regs, spr, rs)?;
                Ok(ExecResult::Continue)
            },
            Instruction::Mtsr { sr, rs } => {
                system::mtsr(regs, sr, rs)?;
                Ok(ExecResult::Continue)
            },
            Instruction::Mtsrin { rs, rb } => {
                system::mtsrin(regs, rs, rb)?;
                Ok(ExecResult::Continue)
            },
            Instruction::Dcbf { ra, rb } => {
                system::dcbf(regs, ra, rb)?;
                Ok(ExecResult::Continue)
            },
            Instruction::Dcbi { .. } => Ok(ExecResult::Continue),
            Instruction::Dcbst { ra, rb } => {
                system::dcbst(regs, ra, rb)?;
                Ok(ExecResult::Continue)
            },
            Instruction::Dcbt { ra, rb } => {
                system::dcbt(regs, ra, rb)?;
                Ok(ExecResult::Continue)
            },
            Instruction::Dcbtst { ra, rb } => {
                system::dcbtst(regs, ra, rb)?;
                Ok(ExecResult::Continue)
            },
            Instruction::Dcbz { .. } => Ok(ExecResult::Continue),
            Instruction::Icbi { ra, rb } => {
                system::icbi(regs, ra, rb)?;
                Ok(ExecResult::Continue)
            },
            Instruction::Tlbie { rb } => {
                system::tlbie(regs, rb)?;
                Ok(ExecResult::Continue)
            },
            Instruction::Tlbia => {
                system::tlbia(regs)?;
                Ok(ExecResult::Continue)
            },
            Instruction::Tlbsync => {
                system::tlbsync(regs)?;
                Ok(ExecResult::Continue)
            },
            Instruction::Eciwx { .. } => Ok(ExecResult::Continue),
            Instruction::Ecowx { .. } => Ok(ExecResult::Continue),
            Instruction::Eieio => Ok(ExecResult::Continue),
            Instruction::Isync => Ok(ExecResult::Continue),
            Instruction::Sync => Ok(ExecResult::Continue),
            Instruction::Tw { .. } => Ok(ExecResult::Trap),
            Instruction::Twi { to, ra, simm } => {
                system::twi(regs, to, ra, simm)?;
                Ok(ExecResult::Continue)
            },
            Instruction::Sc => Ok(ExecResult::Syscall),
            Instruction::Rfi => Ok(ExecResult::Continue),
            Instruction::Fadd { .. } => {
                fpu.execute_fp(instr, regs)?;
                Ok(ExecResult::Continue)
            },
            Instruction::Fadds { .. } => {
                fpu.execute_fp(instr, regs)?;
                Ok(ExecResult::Continue)
            },
            Instruction::Fdiv { .. } => {
                fpu.execute_fp(instr, regs)?;
                Ok(ExecResult::Continue)
            },
            Instruction::Fdivs { .. } => {
                fpu.execute_fp(instr, regs)?;
                Ok(ExecResult::Continue)
            },
            Instruction::Fmul { .. } => {
                fpu.execute_fp(instr, regs)?;
                Ok(ExecResult::Continue)
            },
            Instruction::Fmuls { .. } => {
                fpu.execute_fp(instr, regs)?;
                Ok(ExecResult::Continue)
            },
            Instruction::Fsub { .. } => {
                fpu.execute_fp(instr, regs)?;
                Ok(ExecResult::Continue)
            },
            Instruction::Fsubs { .. } => {
                fpu.execute_fp(instr, regs)?;
                Ok(ExecResult::Continue)
            },
            Instruction::Fneg { .. } => {
                fpu.execute_fp(instr, regs)?;
                Ok(ExecResult::Continue)
            },
            Instruction::Fabs { .. } => {
                fpu.execute_fp(instr, regs)?;
                Ok(ExecResult::Continue)
            },
            Instruction::Fmr { .. } => {
                fpu.execute_fp(instr, regs)?;
                Ok(ExecResult::Continue)
            },
            Instruction::Fsqrt { .. } => {
                fpu.execute_fp(instr, regs)?;
                Ok(ExecResult::Continue)
            },
            Instruction::Fsqrts { .. } => {
                fpu.execute_fp(instr, regs)?;
                Ok(ExecResult::Continue)
            },
            Instruction::Fmadd { .. } => {
                fpu.execute_fp(instr, regs)?;
                Ok(ExecResult::Continue)
            },
            Instruction::Fmadds { .. } => {
                fpu.execute_fp(instr, regs)?;
                Ok(ExecResult::Continue)
            },
            Instruction::Fmsub { .. } => {
                fpu.execute_fp(instr, regs)?;
                Ok(ExecResult::Continue)
            },
            Instruction::Fmsubs { .. } => {
                fpu.execute_fp(instr, regs)?;
                Ok(ExecResult::Continue)
            },
            Instruction::Fnmadd { .. } => {
                fpu.execute_fp(instr, regs)?;
                Ok(ExecResult::Continue)
            },
            Instruction::Fnmadds { .. } => {
                fpu.execute_fp(instr, regs)?;
                Ok(ExecResult::Continue)
            },
            Instruction::Fnmsub { .. } => {
                fpu.execute_fp(instr, regs)?;
                Ok(ExecResult::Continue)
            },
            Instruction::Fnmsubs { .. } => {
                fpu.execute_fp(instr, regs)?;
                Ok(ExecResult::Continue)
            },
            Instruction::Fcmpu { .. } => {
                fpu.execute_fp(instr, regs)?;
                Ok(ExecResult::Continue)
            },
            Instruction::Fcmpo { .. } => {
                fpu.execute_fp(instr, regs)?;
                Ok(ExecResult::Continue)
            },
            Instruction::Fctiwz { .. } => {
                fpu.execute_fp(instr, regs)?;
                Ok(ExecResult::Continue)
            },
            Instruction::Frsp { .. } => {
                fpu.execute_fp(instr, regs)?;
                Ok(ExecResult::Continue)
            },
            Instruction::Lfd { .. } => Ok(ExecResult::Continue),
            Instruction::Lfdu { .. } => Ok(ExecResult::Continue),
            Instruction::Lfs { .. } => Ok(ExecResult::Continue),
            Instruction::Lfsu { .. } => Ok(ExecResult::Continue),
            Instruction::Stfd { .. } => Ok(ExecResult::Continue),
            Instruction::Stfdu { .. } => Ok(ExecResult::Continue),
            Instruction::Stfs { .. } => Ok(ExecResult::Continue),
            Instruction::Stfsu { .. } => Ok(ExecResult::Continue),
            Instruction::Vaddfp { .. } => {
                fpu.execute_fp(instr, regs)?;
                Ok(ExecResult::Continue)
            },
            Instruction::Vsubfp { .. } => {
                fpu.execute_fp(instr, regs)?;
                Ok(ExecResult::Continue)
            },
            Instruction::Vmaddfp { .. } => {
                fpu.execute_fp(instr, regs)?;
                Ok(ExecResult::Continue)
            },
            Instruction::Vnmsubfp { .. } => {
                fpu.execute_fp(instr, regs)?;
                Ok(ExecResult::Continue)
            },
            Instruction::Vaddubm { vd, va, vb } => {
                altivec::vaddubm(regs, vd, va, vb)?;
                Ok(ExecResult::Continue)
            },
            Instruction::Vadduhm { vd, va, vb } => {
                altivec::vadduhm(regs, vd, va, vb)?;
                Ok(ExecResult::Continue)
            },
            Instruction::Vadduwm { vd, va, vb } => {
                altivec::vadduwm(regs, vd, va, vb)?;
                Ok(ExecResult::Continue)
            },
            Instruction::Vaddubs { vd, va, vb } => {
                altivec::vaddubs(regs, vd, va, vb)?;
                Ok(ExecResult::Continue)
            },
            Instruction::Vadduhs { vd, va, vb } => {
                altivec::vadduhs(regs, vd, va, vb)?;
                Ok(ExecResult::Continue)
            },
            Instruction::Vadduws { vd, va, vb } => {
                altivec::vadduws(regs, vd, va, vb)?;
                Ok(ExecResult::Continue)
            },
            Instruction::Vaddsbs { vd, va, vb } => {
                altivec::vaddsbs(regs, vd, va, vb)?;
                Ok(ExecResult::Continue)
            },
            Instruction::Vaddshs { vd, va, vb } => {
                altivec::vaddshs(regs, vd, va, vb)?;
                Ok(ExecResult::Continue)
            },
            Instruction::Vaddsws { vd, va, vb } => {
                altivec::vaddsws(regs, vd, va, vb)?;
                Ok(ExecResult::Continue)
            },
            Instruction::Vsububm { vd, va, vb } => {
                altivec::vsububm(regs, vd, va, vb)?;
                Ok(ExecResult::Continue)
            },
            Instruction::Vsubuhm { vd, va, vb } => {
                altivec::vsubuhm(regs, vd, va, vb)?;
                Ok(ExecResult::Continue)
            },
            Instruction::Vsubuwm { vd, va, vb } => {
                altivec::vsubuwm(regs, vd, va, vb)?;
                Ok(ExecResult::Continue)
            },
            Instruction::Vmaxsb { vd, va, vb } => {
                altivec::vmaxsb(regs, vd, va, vb)?;
                Ok(ExecResult::Continue)
            },
            Instruction::Vmaxsh { vd, va, vb } => {
                altivec::vmaxsh(regs, vd, va, vb)?;
                Ok(ExecResult::Continue)
            },
            Instruction::Vmaxsw { vd, va, vb } => {
                altivec::vmaxsw(regs, vd, va, vb)?;
                Ok(ExecResult::Continue)
            },
            Instruction::Vmaxub { vd, va, vb } => {
                altivec::vmaxub(regs, vd, va, vb)?;
                Ok(ExecResult::Continue)
            },
            Instruction::Vmaxuh { vd, va, vb } => {
                altivec::vmaxuh(regs, vd, va, vb)?;
                Ok(ExecResult::Continue)
            },
            Instruction::Vmaxuw { vd, va, vb } => {
                altivec::vmaxuw(regs, vd, va, vb)?;
                Ok(ExecResult::Continue)
            },
            Instruction::Vmaxfp { .. } => {
                fpu.execute_fp(instr, regs)?;
                Ok(ExecResult::Continue)
            },
            Instruction::Vminsb { vd, va, vb } => {
                altivec::vminsb(regs, vd, va, vb)?;
                Ok(ExecResult::Continue)
            },
            Instruction::Vminsh { vd, va, vb } => {
                altivec::vminsh(regs, vd, va, vb)?;
                Ok(ExecResult::Continue)
            },
            Instruction::Vminsw { vd, va, vb } => {
                altivec::vminsw(regs, vd, va, vb)?;
                Ok(ExecResult::Continue)
            },
            Instruction::Vminub { vd, va, vb } => {
                altivec::vminub(regs, vd, va, vb)?;
                Ok(ExecResult::Continue)
            },
            Instruction::Vminuh { vd, va, vb } => {
                altivec::vminuh(regs, vd, va, vb)?;
                Ok(ExecResult::Continue)
            },
            Instruction::Vminuw { vd, va, vb } => {
                altivec::vminuw(regs, vd, va, vb)?;
                Ok(ExecResult::Continue)
            },
            Instruction::Vminfp { .. } => {
                fpu.execute_fp(instr, regs)?;
                Ok(ExecResult::Continue)
            },
            Instruction::Vavgub { .. } => Ok(ExecResult::Continue),
            Instruction::Vavguh { .. } => Ok(ExecResult::Continue),
            Instruction::Vavguw { .. } => Ok(ExecResult::Continue),
            Instruction::Vavgsb { .. } => Ok(ExecResult::Continue),
            Instruction::Vavgsh { .. } => Ok(ExecResult::Continue),
            Instruction::Vavgsw { .. } => Ok(ExecResult::Continue),
            Instruction::Vmuleub { .. } => Ok(ExecResult::Continue),
            Instruction::Vmuloub { .. } => Ok(ExecResult::Continue),
            Instruction::Vmulesb { .. } => Ok(ExecResult::Continue),
            Instruction::Vmulosb { .. } => Ok(ExecResult::Continue),
            Instruction::Vmuleuh { .. } => Ok(ExecResult::Continue),
            Instruction::Vmulouh { .. } => Ok(ExecResult::Continue),
            Instruction::Vmulesh { .. } => Ok(ExecResult::Continue),
            Instruction::Vmulosh { .. } => Ok(ExecResult::Continue),
            Instruction::Vand { vd, va, vb } => {
                altivec::vand(regs, vd, va, vb)?;
                Ok(ExecResult::Continue)
            },
            Instruction::Vandc { vd, va, vb } => {
                altivec::vandc(regs, vd, va, vb)?;
                Ok(ExecResult::Continue)
            },
            Instruction::Vor { vd, va, vb } => {
                altivec::vor(regs, vd, va, vb)?;
                Ok(ExecResult::Continue)
            },
            Instruction::Vnor { vd, va, vb } => {
                altivec::vnor(regs, vd, va, vb)?;
                Ok(ExecResult::Continue)
            },
            Instruction::Vxor { vd, va, vb } => {
                altivec::vxor(regs, vd, va, vb)?;
                Ok(ExecResult::Continue)
            },
            Instruction::Vcmpequb { vd, va, vb, rc } => {
                altivec::vcmpequb(regs, vd, va, vb, rc)?;
                Ok(ExecResult::Continue)
            },
            Instruction::Vcmpequh { vd, va, vb, rc } => {
                altivec::vcmpequh(regs, vd, va, vb, rc)?;
                Ok(ExecResult::Continue)
            },
            Instruction::Vcmpequw { vd, va, vb, rc } => {
                altivec::vcmpequw(regs, vd, va, vb, rc)?;
                Ok(ExecResult::Continue)
            },
            Instruction::Vcmpeqfp { .. } => {
                fpu.execute_fp(instr, regs)?;
                Ok(ExecResult::Continue)
            },
            Instruction::Vcmpgtsb { vd, va, vb, rc } => {
                altivec::vcmpgtsb(regs, vd, va, vb, rc)?;
                Ok(ExecResult::Continue)
            },
            Instruction::Vcmpgtsh { vd, va, vb, rc } => {
                altivec::vcmpgtsh(regs, vd, va, vb, rc)?;
                Ok(ExecResult::Continue)
            },
            Instruction::Vcmpgtsw { vd, va, vb, rc } => {
                altivec::vcmpgtsw(regs, vd, va, vb, rc)?;
                Ok(ExecResult::Continue)
            },
            Instruction::Vcmpgtub { vd, va, vb, rc } => {
                altivec::vcmpgtub(regs, vd, va, vb, rc)?;
                Ok(ExecResult::Continue)
            },
            Instruction::Vcmpgtuh { vd, va, vb, rc } => {
                altivec::vcmpgtuh(regs, vd, va, vb, rc)?;
                Ok(ExecResult::Continue)
            },
            Instruction::Vcmpgtuw { vd, va, vb, rc } => {
                altivec::vcmpgtuw(regs, vd, va, vb, rc)?;
                Ok(ExecResult::Continue)
            },
            Instruction::Vcmpgtfp { .. } => {
                fpu.execute_fp(instr, regs)?;
                Ok(ExecResult::Continue)
            },
            Instruction::Vcmpgefp { .. } => {
                fpu.execute_fp(instr, regs)?;
                Ok(ExecResult::Continue)
            },
            Instruction::Vslb { vd, va, vb } => {
                altivec::vslb(regs, vd, va, vb)?;
                Ok(ExecResult::Continue)
            },
            Instruction::Vslh { vd, va, vb } => {
                altivec::vslh(regs, vd, va, vb)?;
                Ok(ExecResult::Continue)
            },
            Instruction::Vslw { vd, va, vb } => {
                altivec::vslw(regs, vd, va, vb)?;
                Ok(ExecResult::Continue)
            },
            Instruction::Vsrb { vd, va, vb } => {
                altivec::vsrb(regs, vd, va, vb)?;
                Ok(ExecResult::Continue)
            },
            Instruction::Vsrh { vd, va, vb } => {
                altivec::vsrh(regs, vd, va, vb)?;
                Ok(ExecResult::Continue)
            },
            Instruction::Vsrw { vd, va, vb } => {
                altivec::vsrw(regs, vd, va, vb)?;
                Ok(ExecResult::Continue)
            },
            Instruction::Vsrab { vd, va, vb } => {
                altivec::vsrab(regs, vd, va, vb)?;
                Ok(ExecResult::Continue)
            },
            Instruction::Vsrah { vd, va, vb } => {
                altivec::vsrah(regs, vd, va, vb)?;
                Ok(ExecResult::Continue)
            },
            Instruction::Vsraw { vd, va, vb } => {
                altivec::vsraw(regs, vd, va, vb)?;
                Ok(ExecResult::Continue)
            },
            Instruction::Vrlb { vd, va, vb } => {
                altivec::vrlb(regs, vd, va, vb)?;
                Ok(ExecResult::Continue)
            },
            Instruction::Vrlh { vd, va, vb } => {
                altivec::vrlh(regs, vd, va, vb)?;
                Ok(ExecResult::Continue)
            },
            Instruction::Vrlw { vd, va, vb } => {
                altivec::vrlw(regs, vd, va, vb)?;
                Ok(ExecResult::Continue)
            },
            Instruction::Vsl { vd, va, vb } => {
                altivec::vsl(regs, vd, va, vb)?;
                Ok(ExecResult::Continue)
            },
            Instruction::Vsr { vd, va, vb } => {
                altivec::vsr(regs, vd, va, vb)?;
                Ok(ExecResult::Continue)
            },
            Instruction::Vperm { vd, va, vb, vc } => {
                altivec::vperm(regs, vd, va, vb, vc)?;
                Ok(ExecResult::Continue)
            },
            Instruction::Vsel { vd, va, vb, vc } => {
                altivec::vsel(regs, vd, va, vb, vc)?;
                Ok(ExecResult::Continue)
            },
            Instruction::Vspltb { vd, vb, uimm } => {
                altivec::vspltb(regs, vd, vb, uimm)?;
                Ok(ExecResult::Continue)
            },
            Instruction::Vsplth { vd, vb, uimm } => {
                altivec::vsplth(regs, vd, vb, uimm)?;
                Ok(ExecResult::Continue)
            },
            Instruction::Vspltw { vd, vb, uimm } => {
                altivec::vspltw(regs, vd, vb, uimm)?;
                Ok(ExecResult::Continue)
            },
            Instruction::Vspltisb { vd, simm } => {
                altivec::vspltisb(regs, vd, simm)?;
                Ok(ExecResult::Continue)
            },
            Instruction::Vspltish { vd, simm } => {
                altivec::vspltish(regs, vd, simm)?;
                Ok(ExecResult::Continue)
            },
            Instruction::Vspltisw { vd, simm } => {
                altivec::vspltisw(regs, vd, simm)?;
                Ok(ExecResult::Continue)
            },
            Instruction::Vmrghb { vd, va, vb } => {
                altivec::vmrghb(regs, vd, va, vb)?;
                Ok(ExecResult::Continue)
            },
            Instruction::Vmrghh { vd, va, vb } => {
                altivec::vmrghh(regs, vd, va, vb)?;
                Ok(ExecResult::Continue)
            },
            Instruction::Vmrghw { vd, va, vb } => {
                altivec::vmrghw(regs, vd, va, vb)?;
                Ok(ExecResult::Continue)
            },
            Instruction::Vmrglb { vd, va, vb } => {
                altivec::vmrglb(regs, vd, va, vb)?;
                Ok(ExecResult::Continue)
            },
            Instruction::Vmrglh { vd, va, vb } => {
                altivec::vmrglh(regs, vd, va, vb)?;
                Ok(ExecResult::Continue)
            },
            Instruction::Vmrglw { vd, va, vb } => {
                altivec::vmrglw(regs, vd, va, vb)?;
                Ok(ExecResult::Continue)
            },
            Instruction::Vpkuhus { vd, va, vb } => {
                altivec::vpkuhus(regs, vd, va, vb)?;
                Ok(ExecResult::Continue)
            },
            Instruction::Vpkuwus { vd, va, vb } => {
                altivec::vpkuwus(regs, vd, va, vb)?;
                Ok(ExecResult::Continue)
            },
            Instruction::Vpkshss { vd, va, vb } => {
                altivec::vpkshss(regs, vd, va, vb)?;
                Ok(ExecResult::Continue)
            },
            Instruction::Vpkshus { vd, va, vb } => {
                altivec::vpkshus(regs, vd, va, vb)?;
                Ok(ExecResult::Continue)
            },
            Instruction::Vpkswss { vd, va, vb } => {
                altivec::vpkswss(regs, vd, va, vb)?;
                Ok(ExecResult::Continue)
            },
            Instruction::Vpkswus { vd, va, vb } => {
                altivec::vpkswus(regs, vd, va, vb)?;
                Ok(ExecResult::Continue)
            },
            Instruction::Vpkpx { vd, va, vb } => {
                altivec::vpkpx(regs, vd, va, vb)?;
                Ok(ExecResult::Continue)
            },
            Instruction::Vupkhsb { vd, vb } => {
                altivec::vupkhsb(regs, vd, vb)?;
                Ok(ExecResult::Continue)
            },
            Instruction::Vupklsb { vd, vb } => {
                altivec::vupklsb(regs, vd, vb)?;
                Ok(ExecResult::Continue)
            },
            Instruction::Vupkhsh { vd, vb } => {
                altivec::vupkhsh(regs, vd, vb)?;
                Ok(ExecResult::Continue)
            },
            Instruction::Vupklsh { vd, vb } => {
                altivec::vupklsh(regs, vd, vb)?;
                Ok(ExecResult::Continue)
            },
            Instruction::Vupkhpx { vd, vb } => {
                altivec::vupkhpx(regs, vd, vb)?;
                Ok(ExecResult::Continue)
            },
            Instruction::Vupklpx { vd, vb } => {
                altivec::vupklpx(regs, vd, vb)?;
                Ok(ExecResult::Continue)
            },
            Instruction::Lvx { .. } => Ok(ExecResult::Continue),
            Instruction::Stvx { .. } => Ok(ExecResult::Continue),
            Instruction::Lvxl { .. } => Ok(ExecResult::Continue),
            Instruction::Stvxl { .. } => Ok(ExecResult::Continue),
            Instruction::Lvebx { .. } => Ok(ExecResult::Continue),
            Instruction::Lvehx { .. } => Ok(ExecResult::Continue),
            Instruction::Lvewx { .. } => Ok(ExecResult::Continue),
            Instruction::Stvebx { .. } => Ok(ExecResult::Continue),
            Instruction::Stvehx { .. } => Ok(ExecResult::Continue),
            Instruction::Stvewx { .. } => Ok(ExecResult::Continue),
            Instruction::Lvsl { .. } => Ok(ExecResult::Continue),
            Instruction::Lvsr { .. } => Ok(ExecResult::Continue),
            Instruction::Nop => Ok(ExecResult::Continue),
            Instruction::Unknown { opcode } => {
                let mut m = String::from_str("Unknown instruction: 0x");
                m.append(hex8(opcode).as_str());
                m.append(" at PC 0x");
                m.append(hex8(regs.pc).as_str());
                Err(Error::Cpu(m))
            },
        }
    }

    /// Execute a decoded instruction with memory access.
    pub fn execute_with_memory<M: MemoryInterface, F: FloatUnit>(&mut self, instr: Instruction, regs: &mut Registers, memory: &M, fpu: &F) -> (r: Result<ExecResult, Error>)
        requires
            operands_valid(instr, old(regs).pc),
        ensures
            execute_with_memory_effect(*old(regs), *final(regs), instr, r),
            memory_effect(memory, fpu, *old(regs), *final(regs), instr, r),
    {
        match instr {
            Instruction::Lbz { rt, ra, d } => {
                lift(loadstore::lbz(regs, memory, rt, ra, d))
            },
            Instruction::Lbzu { rt, ra, d } => {
                lift(loadstore::lbzu(regs, memory, rt, ra, d))
            },
            Instruction::Lbzux { rt, ra, rb } => {
                lift(loadstore::lbzux(regs, memory, rt, ra, rb))
            },
            Instruction::Lbzx { rt, ra, rb } => {
                lift(loadstore::lbzx(regs, memory, rt, ra, rb))
            },
            Instruction::Lha { rt, ra, d } => {
                lift(loadstore::lha(regs, memory, rt, ra, d))
            },
            Instruction::Lhau { rt, ra, d } => {
                lift(loadstore::lhau(regs, memory, rt, ra, d))
            },
            Instruction::Lhaux { rt, ra, rb } => {
                lift(loadstore::lhaux(regs, memory, rt, ra, rb))
            },
            Instruction::Lhax { rt, ra, rb } => {
                lift(loadstore::lhax(regs, memory, rt, ra, rb))
            },
            Instruction::Lhz { rt, ra, d } => {
                lift(loadstore::lhz(regs, memory, rt, ra, d))
            },
            Instruction::Lhzu { rt, ra, d } => {
                lift(loadstore::lhzu(regs, memory, rt, ra, d))
            },
            Instruction::Lhzux { rt, ra, rb } => {
                lift(loadstore::lhzux(regs, memory, rt, ra, rb))
            },
            Instruction::Lhzx { rt, ra, rb } => {
                lift(loadstore::lhzx(regs, memory, rt, ra, rb))
            },
            Instruction::Lwz { rt, ra, d } => {
                lift(loadstore::lwz(regs, memory, rt, ra, d))
            },
            Instruction::Lwzu { rt, ra, d } => {
                lift(loadstore::lwzu(regs, memory, rt, ra, d))
            },
            Instruction::Lwzux { rt, ra, rb } => {
                lift(loadstore::lwzux(regs, memory, rt, ra, rb))
            },
            Instruction::Lwzx { rt, ra, rb } => {
                lift(loadstore::lwzx(regs, memory, rt, ra, rb))
            },
            Instruction::Stb { rs, ra, d } => {
                lift(loadstore::stb(regs, memory, rs, ra, d))
            },
            Instruction::Stbu { rs, ra, d } => {
                lift(loadstore::stbu(regs, memory, rs, ra, d))
            },
            Instruction::Stbux { rs, ra, rb } => {
                lift(loadstore::stbux(regs, memory, rs, ra, rb))
            },
            Instruction::Stbx { rs, ra, rb } => {
                lift(loadstore::stbx(regs, memory, rs, ra, rb))
            },
            Instruction::Sth { rs, ra, d } => {
                lift(loadstore::sth(regs, memory, rs, ra, d))
            },
            Instruction::Sthu { rs, ra, d } => {
                lift(loadstore::sthu(regs, memory, rs, ra, d))
            },
            Instruction::Sthux { rs, ra, rb } => {
                lift(loadstore::sthux(regs, memory, rs, ra, rb))
            },
            Instruction::Sthx { rs, ra, rb } => {
                lift(loadstore::sthx(regs, memory, rs, ra, rb))
            },
            Instruction::Stw { rs, ra, d } => {
                lift(loadstore::stw(regs, memory, rs, ra, d))
            },
            Instruction::Stwu { rs, ra, d } => {
                lift(loadstore::stwu(regs, memory, rs, ra, d))
            },
            Instruction::Stwux { rs, ra, rb } => {
                lift(loadstore::stwux(regs, memory, rs, ra, rb))
            },
            Instruction::Stwx { rs, ra, rb } => {
                lift(loadstore::stwx(regs, memory, rs, ra, rb))
            },
            Instruction::Dcbi { ra, rb } => {
                system::dcbi(regs, ra, rb)?;
                Ok(ExecResult::Continue)
            },
            Instruction::Dcbz { ra, rb } => {
                lift(system::dcbz(regs, ra, rb, memory))
            },
            Instruction::Eciwx { rt, ra, rb } => {
                lift(system::eciwx(regs, memory, rt, ra, rb))
            },
            Instruction::Ecowx { rs, ra, rb } => {
                lift(system::ecowx(regs, memory, rs, ra, rb))
            },
            Instruction::Lfd { frt, ra, d } => {
                lift(loadstore::lfd(regs, memory, frt, ra, d))
            },
            Instruction::Lfdu { frt, ra, d } => {
                lift(loadstore::lfdu(regs, memory, frt, ra, d))
            },
            Instruction::Lfs { frt, ra, d } => {
                lift(loadstore::lfs(regs, memory, fpu, frt, ra, d))
            },
            Instruction::Lfsu { frt, ra, d } => {
                lift(loadstore::lfsu(regs, memory, fpu, frt, ra, d))
            },
            Instruction::Stfd { frs, ra, d } => {
                lift(loadstore::stfd(regs, memory, frs, ra, d))
            },
            Instruction::Stfdu { frs, ra, d } => {
                lift(loadstore::stfdu(regs, memory, frs, ra, d))
            },
            Instruction::Stfs { frs, ra, d } => {
                lift(loadstore::stfs(regs, memory, fpu, frs, ra, d))
            },
            Instruction::Stfsu { frs, ra, d } => {
                lift(loadstore::stfsu(regs, memory, fpu, frs, ra, d))
            },
            Instruction::Lvx { vd, ra, rb } => {
                lift(altivec::lvx(regs, memory, vd, ra, rb))
            },
            Instruction::Stvx { vs, ra, rb } => {
                lift(altivec::stvx(regs, memory, vs, ra, rb))
            },
            Instruction::Lvxl { vd, ra, rb } => {
                lift(altivec::lvxl(regs, memory, vd, ra, rb))
            },
            Instruction::Stvxl { vs, ra, rb } => {
                lift(altivec::stvxl(regs, memory, vs, ra, rb))
            },
            Instruction::Lvebx { vd, ra, rb } => {
                lift(altivec::lvebx(regs, memory, vd, ra, rb))
            },
            Instruction::Lvehx { vd, ra, rb } => {
                lift(altivec::lvehx(regs, memory, vd, ra, rb))
            },
            Instruction::Lvewx { vd, ra, rb } => {
                lift(altivec::lvewx(regs, memory, vd, ra, rb))
            },
            Instruction::Stvebx { vs, ra, rb } => {
                lift(altivec::stvebx(regs, memory, vs, ra, rb))
            },
            Instruction::Stvehx { vs, ra, rb } => {
                lift(altivec::stvehx(regs, memory, vs, ra, rb))
            },
            Instruction::Stvewx { vs, ra, rb } => {
                lift(altivec::stvewx(regs, memory, vs, ra, rb))
            },
            Instruction::Lvsl { vd, ra, rb } => {
                altivec::lvsl(regs, memory, vd, ra, rb)?;
                Ok(ExecResult::Continue)
            },
            Instruction::Lvsr { vd, ra, rb } => {
                altivec::lvsr(regs, memory, vd, ra, rb)?;
                Ok(ExecResult::Continue)
            },
            Instruction::Lwarx { rt, ra, rb } => {
                lift(loadstore::lwarx(regs, memory, rt, ra, rb))
            },
            Instruction::Lwbrx { rt, ra, rb } => {
                lift(loadstore::lwbrx(regs, memory, rt, ra, rb))
            },
            Instruction::Lhbrx { rt, ra, rb } => {
                lift(loadstore::lhbrx(regs, memory, rt, ra, rb))
            },
            Instruction::Stwbrx { rs, ra, rb } => {
                lift(loadstore::stwbrx(regs, memory, rs, ra, rb))
            },
            Instruction::Sthbrx { rs, ra, rb } => {
                lift(loadstore::sthbrx(regs, memory, rs, ra, rb))
            },
            Instruction::Stwcx { rs, ra, rb } => {
                lift(loadstore::stwcx(regs, memory, rs, ra, rb))
            },
            Instruction::Lmw { rt, ra, d } => {
                lift(loadstore::lmw(regs, memory, rt, ra, d))
            },
            Instruction::Stmw { rs, ra, d } => {
                lift(loadstore::stmw(regs, memory, rs, ra, d))
            },
            Instruction::Lswi { rt, ra, nb } => {
                lift(loadstore::lswi(regs, memory, rt, ra, nb))
            },
            Instruction::Lswx { rt, ra, rb } => {
                lift(loadstore::lswx(regs, memory, rt, ra, rb))
            },
            Instruction::Stswi { rs, ra, nb } => {
                lift(loadstore::stswi(regs, memory, rs, ra, nb))
            },
            Instruction::Stswx { rs, ra, rb } => {
                lift(loadstore::stswx(regs, memory, rs, ra, rb))
            },
            _ => self.execute(instr, regs, fpu),
        }
    }
}

impl Default for Interpreter {
    fn default() -> (r: Self)
        ensures
            r == (Interpreter {}),
    {
        Self::new()
    }
}


/// The integer instructions put in their target register the value that
/// their operation gives on the source registers, as 32-bit arithmetic
/// modulo 2^32 (`add`: ra + rb, `subf`: rb - ra, `neg`: -ra, `addi` with a
/// non-negative immediate: (ra|0) + the immediate), the unsigned quotient for `divwu` (0 for a zero divisor),
/// and the bitwise operation for `and`, `andc`, `or`, `nor` and `xor`; every
/// other general-purpose register keeps its value.
pub proof fn law_integer_results(s: Registers, t: Registers, i: Instruction, r: Result<ExecResult, Error>)
    requires
        execute_effect(s, t, i, r),
        operands_valid(i, s.pc),
    ensures
        match i {
            Instruction::Add { rt, ra, rb, .. } => (t.gpr[rt as int] as int - (s.gpr[ra as int] as int + s.gpr[rb as int] as int)) % 0x1_0000_0000 == 0
                && forall|k: int| 0 <= k < 32 && k != rt ==> #[trigger] t.gpr[k] == s.gpr[k],
            Instruction::Subf { rt, ra, rb, .. } => (t.gpr[rt as int] as int - (s.gpr[rb as int] as int - s.gpr[ra as int] as int)) % 0x1_0000_0000 == 0
                && forall|k: int| 0 <= k < 32 && k != rt ==> #[trigger] t.gpr[k] == s.gpr[k],
            Instruction::Neg { rt, ra, .. } => (t.gpr[rt as int] as int + s.gpr[ra as int] as int) % 0x1_0000_0000 == 0
                && forall|k: int| 0 <= k < 32 && k != rt ==> #[trigger] t.gpr[k] == s.gpr[k],
            Instruction::Addi { rt, ra, simm } => (simm >= 0 ==> (t.gpr[rt as int] as int - ((if ra == 0 { 0 } else { s.gpr[ra as int] as int }) + simm as int)) % 0x1_0000_0000 == 0)
                && forall|k: int| 0 <= k < 32 && k != rt ==> #[trigger] t.gpr[k] == s.gpr[k],
            Instruction::Divwu { rt, ra, rb, .. } => t.gpr[rt as int] == (if s.gpr[rb as int] == 0 { 0 } else { s.gpr[ra as int] / s.gpr[rb as int] })
                && forall|k: int| 0 <= k < 32 && k != rt ==> #[trigger] t.gpr[k] == s.gpr[k],
            Instruction::And { ra, rs, rb, .. } => t.gpr[ra as int] == s.gpr[rs as int] & s.gpr[rb as int]
                && forall|k: int| 0 <= k < 32 && k != ra ==> #[trigger] t.gpr[k] == s.gpr[k],
            Instruction::Andc { ra, rs, rb, .. } => t.gpr[ra as int] == s.gpr[rs as int] & !s.gpr[rb as int]
                && forall|k: int| 0 <= k < 32 && k != ra ==> #[trigger] t.gpr[k] == s.gpr[k],
            Instruction::Or { ra, rs, rb, .. } => t.gpr[ra as int] == s.gpr[rs as int] | s.gpr[rb as int]
                && forall|k: int| 0 <= k < 32 && k != ra ==> #[trigger] t.gpr[k] == s.gpr[k],
            Instruction::Nor { ra, rs, rb, .. } => t.gpr[ra as int] == !(s.gpr[rs as int] | s.gpr[rb as int])
                && forall|k: int| 0 <= k < 32 && k != ra ==> #[trigger] t.gpr[k] == s.gpr[k],
            Instruction::Xor { ra, rs, rb, .. } => t.gpr[ra as int] == s.gpr[rs as int] ^ s.gpr[rb as int]
                && forall|k: int| 0 <= k < 32 && k != ra ==> #[trigger] t.gpr[k] == s.gpr[k],
            _ => true,
        },
{
    match i {
        Instruction::Add { rt, ra, rb, .. } => {
            let v = s.gpr[ra as int].wrapping_add(s.gpr[rb as int]);
            assert(t.gpr@ == s.gpr@.update(rt as int, v));
            assert(t.gpr[rt as int] == v);
            assert((v as int - (s.gpr[ra as int] as int + s.gpr[rb as int] as int)) % 0x1_0000_0000 == 0);
            assert(forall|k: int| 0 <= k < 32 && k != rt ==> #[trigger] t.gpr[k] == s.gpr[k]);
            assert((t.gpr[rt as int] as int - (s.gpr[ra as int] as int + s.gpr[rb as int] as int)) % 0x1_0000_0000 == 0);
        },
        Instruction::Subf { rt, ra, rb, .. } => {
            assert(t.gpr@ == s.gpr@.update(rt as int, s.gpr[rb as int].wrapping_sub(s.gpr[ra as int])));
            assert(t.gpr[rt as int] == t.gpr@[rt as int]);
        },
        Instruction::Neg { rt, ra, .. } => {
            assert(t.gpr@ == s.gpr@.update(rt as int, 0u32.wrapping_sub(s.gpr[ra as int])));
            assert(t.gpr[rt as int] == t.gpr@[rt as int]);
        },
        Instruction::Addi { rt, ra, simm } => {
            let v = arithmetic::base_or_zero(s, ra).wrapping_add(arithmetic::sext16(simm));
            assert(t.gpr@ == s.gpr@.update(rt as int, v));
            assert(t.gpr[rt as int] == v);
        },
        _ => {},
    }
}

} // verus!
