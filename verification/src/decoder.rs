//! PowerPC instruction decoder.
//!
//! Each decoder is paired with a specification that states the same
//! opcode table; the executable decoder is proved to agree with it.
use vstd::prelude::*;
use crate::error::Error;

verus! {

/// Decoded PowerPC instruction
#[derive(Debug, Clone, Copy, PartialEq, Eq, Structural)]

pub enum Instruction {
    Add { rt: u8, ra: u8, rb: u8, oe: bool, rc: bool },
    Addc { rt: u8, ra: u8, rb: u8, oe: bool, rc: bool },
    Adde { rt: u8, ra: u8, rb: u8, oe: bool, rc: bool },
    Addi { rt: u8, ra: u8, simm: i16 },
    Addic { rt: u8, ra: u8, simm: i16 },
    AddicDot { rt: u8, ra: u8, simm: i16 },
    Addis { rt: u8, ra: u8, simm: i16 },
    Addme { rt: u8, ra: u8, oe: bool, rc: bool },
    Addze { rt: u8, ra: u8, oe: bool, rc: bool },
    Divw { rt: u8, ra: u8, rb: u8, oe: bool, rc: bool },
    Divwu { rt: u8, ra: u8, rb: u8, oe: bool, rc: bool },
    Mulhw { rt: u8, ra: u8, rb: u8, rc: bool },
    Mulhwu { rt: u8, ra: u8, rb: u8, rc: bool },
    Mulli { rt: u8, ra: u8, simm: i16 },
    Mullw { rt: u8, ra: u8, rb: u8, oe: bool, rc: bool },
    Neg { rt: u8, ra: u8, oe: bool, rc: bool },
    Subf { rt: u8, ra: u8, rb: u8, oe: bool, rc: bool },
    Subfc { rt: u8, ra: u8, rb: u8, oe: bool, rc: bool },
    Subfe { rt: u8, ra: u8, rb: u8, oe: bool, rc: bool },
    Subfic { rt: u8, ra: u8, simm: i16 },
    Subfme { rt: u8, ra: u8, oe: bool, rc: bool },
    Subfze { rt: u8, ra: u8, oe: bool, rc: bool },
    
    And { ra: u8, rs: u8, rb: u8, rc: bool },
    Andc { ra: u8, rs: u8, rb: u8, rc: bool },
    Andi { ra: u8, rs: u8, uimm: u16 },
    Andis { ra: u8, rs: u8, uimm: u16 },
    Cntlzw { ra: u8, rs: u8, rc: bool },
    Eqv { ra: u8, rs: u8, rb: u8, rc: bool },
    Extsb { ra: u8, rs: u8, rc: bool },
    Extsh { ra: u8, rs: u8, rc: bool },
    Nand { ra: u8, rs: u8, rb: u8, rc: bool },
    Nor { ra: u8, rs: u8, rb: u8, rc: bool },
    Or { ra: u8, rs: u8, rb: u8, rc: bool },
    Orc { ra: u8, rs: u8, rb: u8, rc: bool },
    Ori { ra: u8, rs: u8, uimm: u16 },
    Oris { ra: u8, rs: u8, uimm: u16 },
    Xor { ra: u8, rs: u8, rb: u8, rc: bool },
    Xori { ra: u8, rs: u8, uimm: u16 },
    Xoris { ra: u8, rs: u8, uimm: u16 },
    
    Rlwimi { ra: u8, rs: u8, sh: u8, mb: u8, me: u8, rc: bool },
    Rlwinm { ra: u8, rs: u8, sh: u8, mb: u8, me: u8, rc: bool },
    Rlwnm { ra: u8, rs: u8, rb: u8, mb: u8, me: u8, rc: bool },
    Slw { ra: u8, rs: u8, rb: u8, rc: bool },
    Sraw { ra: u8, rs: u8, rb: u8, rc: bool },
    Srawi { ra: u8, rs: u8, sh: u8, rc: bool },
    Srw { ra: u8, rs: u8, rb: u8, rc: bool },
    
    Cmp { crfd: u8, l: bool, ra: u8, rb: u8 },
    Cmpi { crfd: u8, l: bool, ra: u8, simm: i16 },
    Cmpl { crfd: u8, l: bool, ra: u8, rb: u8 },
    Cmpli { crfd: u8, l: bool, ra: u8, uimm: u16 },
    
    Lbz { rt: u8, ra: u8, d: i16 },
    Lbzu { rt: u8, ra: u8, d: i16 },
    Lbzux { rt: u8, ra: u8, rb: u8 },
    Lbzx { rt: u8, ra: u8, rb: u8 },
    Lwarx { rt: u8, ra: u8, rb: u8 },
    Stwcx { rs: u8, ra: u8, rb: u8 },
    Lwbrx { rt: u8, ra: u8, rb: u8 },
    Lhbrx { rt: u8, ra: u8, rb: u8 },
    Stwbrx { rs: u8, ra: u8, rb: u8 },
    Sthbrx { rs: u8, ra: u8, rb: u8 },
    Lha { rt: u8, ra: u8, d: i16 },
    Lhau { rt: u8, ra: u8, d: i16 },
    Lhaux { rt: u8, ra: u8, rb: u8 },
    Lhax { rt: u8, ra: u8, rb: u8 },
    Lhz { rt: u8, ra: u8, d: i16 },
    Lhzu { rt: u8, ra: u8, d: i16 },
    Lhzux { rt: u8, ra: u8, rb: u8 },
    Lhzx { rt: u8, ra: u8, rb: u8 },
    Lwz { rt: u8, ra: u8, d: i16 },
    Lwzu { rt: u8, ra: u8, d: i16 },
    Lwzux { rt: u8, ra: u8, rb: u8 },
    Lwzx { rt: u8, ra: u8, rb: u8 },
    Stb { rs: u8, ra: u8, d: i16 },
    Stbu { rs: u8, ra: u8, d: i16 },
    Stbux { rs: u8, ra: u8, rb: u8 },
    Stbx { rs: u8, ra: u8, rb: u8 },
    Sth { rs: u8, ra: u8, d: i16 },
    Sthu { rs: u8, ra: u8, d: i16 },
    Sthux { rs: u8, ra: u8, rb: u8 },
    Sthx { rs: u8, ra: u8, rb: u8 },
    Stw { rs: u8, ra: u8, d: i16 },
    Stwu { rs: u8, ra: u8, d: i16 },
    Stwux { rs: u8, ra: u8, rb: u8 },
    Stwx { rs: u8, ra: u8, rb: u8 },
    
    Lmw { rt: u8, ra: u8, d: i16 },
    Stmw { rs: u8, ra: u8, d: i16 },
    
    Lswi { rt: u8, ra: u8, nb: u8 },
    Lswx { rt: u8, ra: u8, rb: u8 },
    Stswi { rs: u8, ra: u8, nb: u8 },
    Stswx { rs: u8, ra: u8, rb: u8 },
    
    B { li: i32, aa: bool, lk: bool },
    Bc { bo: u8, bi: u8, bd: i16, aa: bool, lk: bool },
    Bcctr { bo: u8, bi: u8, lk: bool },
    Bclr { bo: u8, bi: u8, lk: bool },
    
    Crand { bt: u8, ba: u8, bb: u8 },
    Crandc { bt: u8, ba: u8, bb: u8 },
    Creqv { bt: u8, ba: u8, bb: u8 },
    Crnand { bt: u8, ba: u8, bb: u8 },
    Crnor { bt: u8, ba: u8, bb: u8 },
    Cror { bt: u8, ba: u8, bb: u8 },
    Crorc { bt: u8, ba: u8, bb: u8 },
    Crxor { bt: u8, ba: u8, bb: u8 },
    Mcrf { crfd: u8, crfs: u8 },
    
    Mcrxr { crfd: u8 },
    Mfcr { rt: u8 },
    Mfmsr { rt: u8 },
    Mfspr { rt: u8, spr: u16 },
    Mfsr { rt: u8, sr: u8 },
    Mfsrin { rt: u8, rb: u8 },
    Mftb { rt: u8, tbr: u16 },
    Mtcrf { fxm: u8, rs: u8 },
    Mtmsr { rs: u8 },
    Mtspr { spr: u16, rs: u8 },
    Mtsr { sr: u8, rs: u8 },
    Mtsrin { rs: u8, rb: u8 },
    
    Dcbf { ra: u8, rb: u8 },
    Dcbi { ra: u8, rb: u8 },
    Dcbst { ra: u8, rb: u8 },
    Dcbt { ra: u8, rb: u8 },
    Dcbtst { ra: u8, rb: u8 },
    Dcbz { ra: u8, rb: u8 },
    Icbi { ra: u8, rb: u8 },
    Tlbie { rb: u8 },
    Tlbia,
    Tlbsync,
    Eciwx { rt: u8, ra: u8, rb: u8 },
    Ecowx { rs: u8, ra: u8, rb: u8 },
    
    Eieio,
    Isync,
    Sync,
    
    Tw { to: u8, ra: u8, rb: u8 },
    Twi { to: u8, ra: u8, simm: i16 },
    
    Sc,
    
    Rfi,
    
    Fadd { frt: u8, fra: u8, frb: u8, rc: bool },
    Fadds { frt: u8, fra: u8, frb: u8, rc: bool },
    Fdiv { frt: u8, fra: u8, frb: u8, rc: bool },
    Fdivs { frt: u8, fra: u8, frb: u8, rc: bool },
    Fmul { frt: u8, fra: u8, frc: u8, rc: bool },
    Fmuls { frt: u8, fra: u8, frc: u8, rc: bool },
    Fsub { frt: u8, fra: u8, frb: u8, rc: bool },
    Fsubs { frt: u8, fra: u8, frb: u8, rc: bool },
    
    Fneg { frt: u8, frb: u8, rc: bool },
    Fabs { frt: u8, frb: u8, rc: bool },
    Fmr { frt: u8, frb: u8, rc: bool },
    Fsqrt { frt: u8, frb: u8, rc: bool },
    Fsqrts { frt: u8, frb: u8, rc: bool },
    
    Fmadd { frt: u8, fra: u8, frc: u8, frb: u8, rc: bool },
    Fmadds { frt: u8, fra: u8, frc: u8, frb: u8, rc: bool },
    Fmsub { frt: u8, fra: u8, frc: u8, frb: u8, rc: bool },
    Fmsubs { frt: u8, fra: u8, frc: u8, frb: u8, rc: bool },
    Fnmadd { frt: u8, fra: u8, frc: u8, frb: u8, rc: bool },
    Fnmadds { frt: u8, fra: u8, frc: u8, frb: u8, rc: bool },
    Fnmsub { frt: u8, fra: u8, frc: u8, frb: u8, rc: bool },
    Fnmsubs { frt: u8, fra: u8, frc: u8, frb: u8, rc: bool },
    
    Fcmpu { crfd: u8, fra: u8, frb: u8 },
    Fcmpo { crfd: u8, fra: u8, frb: u8 },
    
    Fctiwz { frt: u8, frb: u8, rc: bool },
    Frsp { frt: u8, frb: u8, rc: bool },
    
    Lfd { frt: u8, ra: u8, d: i16 },
    Lfdu { frt: u8, ra: u8, d: i16 },
    Lfs { frt: u8, ra: u8, d: i16 },
    Lfsu { frt: u8, ra: u8, d: i16 },
    Stfd { frs: u8, ra: u8, d: i16 },
    Stfdu { frs: u8, ra: u8, d: i16 },
    Stfs { frs: u8, ra: u8, d: i16 },
    Stfsu { frs: u8, ra: u8, d: i16 },
    
    Vaddfp { vd: u8, va: u8, vb: u8 },
    Vsubfp { vd: u8, va: u8, vb: u8 },
    Vmaddfp { vd: u8, va: u8, vb: u8, vc: u8 },
    Vnmsubfp { vd: u8, va: u8, vb: u8, vc: u8 },
    Vaddubm { vd: u8, va: u8, vb: u8 },
    Vadduhm { vd: u8, va: u8, vb: u8 },
    Vadduwm { vd: u8, va: u8, vb: u8 },
    Vaddubs { vd: u8, va: u8, vb: u8 },
    Vadduhs { vd: u8, va: u8, vb: u8 },
    Vadduws { vd: u8, va: u8, vb: u8 },
    Vaddsbs { vd: u8, va: u8, vb: u8 },
    Vaddshs { vd: u8, va: u8, vb: u8 },
    Vaddsws { vd: u8, va: u8, vb: u8 },
    Vsububm { vd: u8, va: u8, vb: u8 },
    Vsubuhm { vd: u8, va: u8, vb: u8 },
    Vsubuwm { vd: u8, va: u8, vb: u8 },
    Vmaxsb { vd: u8, va: u8, vb: u8 },
    Vmaxsh { vd: u8, va: u8, vb: u8 },
    Vmaxsw { vd: u8, va: u8, vb: u8 },
    Vmaxub { vd: u8, va: u8, vb: u8 },
    Vmaxuh { vd: u8, va: u8, vb: u8 },
    Vmaxuw { vd: u8, va: u8, vb: u8 },
    Vmaxfp { vd: u8, va: u8, vb: u8 },
    Vminsb { vd: u8, va: u8, vb: u8 },
    Vminsh { vd: u8, va: u8, vb: u8 },
    Vminsw { vd: u8, va: u8, vb: u8 },
    Vminub { vd: u8, va: u8, vb: u8 },
    Vminuh { vd: u8, va: u8, vb: u8 },
    Vminuw { vd: u8, va: u8, vb: u8 },
    Vminfp { vd: u8, va: u8, vb: u8 },
    Vavgub { vd: u8, va: u8, vb: u8 },
    Vavguh { vd: u8, va: u8, vb: u8 },
    Vavguw { vd: u8, va: u8, vb: u8 },
    Vavgsb { vd: u8, va: u8, vb: u8 },
    Vavgsh { vd: u8, va: u8, vb: u8 },
    Vavgsw { vd: u8, va: u8, vb: u8 },
    Vmuleub { vd: u8, va: u8, vb: u8 },
    Vmuloub { vd: u8, va: u8, vb: u8 },
    Vmulesb { vd: u8, va: u8, vb: u8 },
    Vmulosb { vd: u8, va: u8, vb: u8 },
    Vmuleuh { vd: u8, va: u8, vb: u8 },
    Vmulouh { vd: u8, va: u8, vb: u8 },
    Vmulesh { vd: u8, va: u8, vb: u8 },
    Vmulosh { vd: u8, va: u8, vb: u8 },
    
    Vand { vd: u8, va: u8, vb: u8 },
    Vandc { vd: u8, va: u8, vb: u8 },
    Vor { vd: u8, va: u8, vb: u8 },
    Vnor { vd: u8, va: u8, vb: u8 },
    Vxor { vd: u8, va: u8, vb: u8 },
    
    Vcmpequb { vd: u8, va: u8, vb: u8, rc: bool },
    Vcmpequh { vd: u8, va: u8, vb: u8, rc: bool },
    Vcmpequw { vd: u8, va: u8, vb: u8, rc: bool },
    Vcmpeqfp { vd: u8, va: u8, vb: u8, rc: bool },
    Vcmpgtsb { vd: u8, va: u8, vb: u8, rc: bool },
    Vcmpgtsh { vd: u8, va: u8, vb: u8, rc: bool },
    Vcmpgtsw { vd: u8, va: u8, vb: u8, rc: bool },
    Vcmpgtub { vd: u8, va: u8, vb: u8, rc: bool },
    Vcmpgtuh { vd: u8, va: u8, vb: u8, rc: bool },
    Vcmpgtuw { vd: u8, va: u8, vb: u8, rc: bool },
    Vcmpgtfp { vd: u8, va: u8, vb: u8, rc: bool },
    Vcmpgefp { vd: u8, va: u8, vb: u8, rc: bool },
    
    Vslb { vd: u8, va: u8, vb: u8 },
    Vslh { vd: u8, va: u8, vb: u8 },
    Vslw { vd: u8, va: u8, vb: u8 },
    Vsrb { vd: u8, va: u8, vb: u8 },
    Vsrh { vd: u8, va: u8, vb: u8 },
    Vsrw { vd: u8, va: u8, vb: u8 },
    Vsrab { vd: u8, va: u8, vb: u8 },
    Vsrah { vd: u8, va: u8, vb: u8 },
    Vsraw { vd: u8, va: u8, vb: u8 },
    Vrlb { vd: u8, va: u8, vb: u8 },
    Vrlh { vd: u8, va: u8, vb: u8 },
    Vrlw { vd: u8, va: u8, vb: u8 },
    Vsl { vd: u8, va: u8, vb: u8 },
    Vsr { vd: u8, va: u8, vb: u8 },
    
    Vperm { vd: u8, va: u8, vb: u8, vc: u8 },
    Vsel { vd: u8, va: u8, vb: u8, vc: u8 },
    Vspltb { vd: u8, vb: u8, uimm: u8 },
    Vsplth { vd: u8, vb: u8, uimm: u8 },
    Vspltw { vd: u8, vb: u8, uimm: u8 },
    Vspltisb { vd: u8, simm: i8 },
    Vspltish { vd: u8, simm: i8 },
    Vspltisw { vd: u8, simm: i8 },
    Vmrghb { vd: u8, va: u8, vb: u8 },
    Vmrghh { vd: u8, va: u8, vb: u8 },
    Vmrghw { vd: u8, va: u8, vb: u8 },
    Vmrglb { vd: u8, va: u8, vb: u8 },
    Vmrglh { vd: u8, va: u8, vb: u8 },
    Vmrglw { vd: u8, va: u8, vb: u8 },
    
    Vpkuhus { vd: u8, va: u8, vb: u8 },
    Vpkuwus { vd: u8, va: u8, vb: u8 },
    Vpkshss { vd: u8, va: u8, vb: u8 },
    Vpkshus { vd: u8, va: u8, vb: u8 },
    Vpkswss { vd: u8, va: u8, vb: u8 },
    Vpkswus { vd: u8, va: u8, vb: u8 },
    Vpkpx { vd: u8, va: u8, vb: u8 },
    Vupkhsb { vd: u8, vb: u8 },
    Vupklsb { vd: u8, vb: u8 },
    Vupkhsh { vd: u8, vb: u8 },
    Vupklsh { vd: u8, vb: u8 },
    Vupkhpx { vd: u8, vb: u8 },
    Vupklpx { vd: u8, vb: u8 },
    
    Lvx { vd: u8, ra: u8, rb: u8 },
    Stvx { vs: u8, ra: u8, rb: u8 },
    Lvxl { vd: u8, ra: u8, rb: u8 },
    Stvxl { vs: u8, ra: u8, rb: u8 },
    Lvebx { vd: u8, ra: u8, rb: u8 },
    Lvehx { vd: u8, ra: u8, rb: u8 },
    Lvewx { vd: u8, ra: u8, rb: u8 },
    Stvebx { vs: u8, ra: u8, rb: u8 },
    Stvehx { vs: u8, ra: u8, rb: u8 },
    Stvewx { vs: u8, ra: u8, rb: u8 },
    Lvsl { vd: u8, ra: u8, rb: u8 },
    Lvsr { vd: u8, ra: u8, rb: u8 },
    
    Nop,
    Unknown { opcode: u32 },
}

/// The `rt` field of an instruction word.
pub open spec fn spec_field_rt(instr: u32) -> u8 { ((instr >> 21) & 0x1F) as u8 }

/// Extract the `rt` field of an instruction word.
pub fn field_rt(instr: u32) -> (r: u8)
    ensures
        r == spec_field_rt(instr),
{ ((instr >> 21) & 0x1F) as u8 }

/// The `rs` field of an instruction word.
pub open spec fn spec_field_rs(instr: u32) -> u8 { ((instr >> 21) & 0x1F) as u8 }

/// Extract the `rs` field of an instruction word.
pub fn field_rs(instr: u32) -> (r: u8)
    ensures
        r == spec_field_rs(instr),
{ ((instr >> 21) & 0x1F) as u8 }

/// The `ra` field of an instruction word.
pub open spec fn spec_field_ra(instr: u32) -> u8 { ((instr >> 16) & 0x1F) as u8 }

/// Extract the `ra` field of an instruction word.
pub fn field_ra(instr: u32) -> (r: u8)
    ensures
        r == spec_field_ra(instr),
{ ((instr >> 16) & 0x1F) as u8 }

/// The `rb` field of an instruction word.
pub open spec fn spec_field_rb(instr: u32) -> u8 { ((instr >> 11) & 0x1F) as u8 }

/// Extract the `rb` field of an instruction word.
pub fn field_rb(instr: u32) -> (r: u8)
    ensures
        r == spec_field_rb(instr),
{ ((instr >> 11) & 0x1F) as u8 }

/// The `rc` field of an instruction word.
pub open spec fn spec_field_rc(instr: u32) -> u8 { ((instr >> 6) & 0x1F) as u8 }

/// Extract the `rc` field of an instruction word.
pub fn field_rc(instr: u32) -> (r: u8)
    ensures
        r == spec_field_rc(instr),
{ ((instr >> 6) & 0x1F) as u8 }

/// The `simm` field of an instruction word.
pub open spec fn spec_field_simm(instr: u32) -> i16 { (instr & 0xFFFF) as i16 }

/// Extract the `simm` field of an instruction word.
pub fn field_simm(instr: u32) -> (r: i16)
    ensures
        r == spec_field_simm(instr),
{ (instr & 0xFFFF) as i16 }

/// The `uimm` field of an instruction word.
pub open spec fn spec_field_uimm(instr: u32) -> u16 { (instr & 0xFFFF) as u16 }

/// Extract the `uimm` field of an instruction word.
pub fn field_uimm(instr: u32) -> (r: u16)
    ensures
        r == spec_field_uimm(instr),
{ (instr & 0xFFFF) as u16 }

/// The `rc_bit` field of an instruction word.
pub open spec fn spec_field_rc_bit(instr: u32) -> bool { (instr & 1) != 0 }

/// Extract the `rc_bit` field of an instruction word.
pub fn field_rc_bit(instr: u32) -> (r: bool)
    ensures
        r == spec_field_rc_bit(instr),
{ (instr & 1) != 0 }

/// The `oe` field of an instruction word.
pub open spec fn spec_field_oe(instr: u32) -> bool { ((instr >> 10) & 1) != 0 }

/// Extract the `oe` field of an instruction word.
pub fn field_oe(instr: u32) -> (r: bool)
    ensures
        r == spec_field_oe(instr),
{ ((instr >> 10) & 1) != 0 }

/// The `bo` field of an instruction word.
pub open spec fn spec_field_bo(instr: u32) -> u8 { ((instr >> 21) & 0x1F) as u8 }

/// Extract the `bo` field of an instruction word.
pub fn field_bo(instr: u32) -> (r: u8)
    ensures
        r == spec_field_bo(instr),
{ ((instr >> 21) & 0x1F) as u8 }

/// The `bi` field of an instruction word.
pub open spec fn spec_field_bi(instr: u32) -> u8 { ((instr >> 16) & 0x1F) as u8 }

/// Extract the `bi` field of an instruction word.
pub fn field_bi(instr: u32) -> (r: u8)
    ensures
        r == spec_field_bi(instr),
{ ((instr >> 16) & 0x1F) as u8 }

/// The `aa` field of an instruction word.
pub open spec fn spec_field_aa(instr: u32) -> bool { ((instr >> 1) & 1) != 0 }

/// Extract the `aa` field of an instruction word.
pub fn field_aa(instr: u32) -> (r: bool)
    ensures
        r == spec_field_aa(instr),
{ ((instr >> 1) & 1) != 0 }

/// The `lk` field of an instruction word.
pub open spec fn spec_field_lk(instr: u32) -> bool { (instr & 1) != 0 }

/// Extract the `lk` field of an instruction word.
pub fn field_lk(instr: u32) -> (r: bool)
    ensures
        r == spec_field_lk(instr),
{ (instr & 1) != 0 }

/// The `sh` field of an instruction word.
pub open spec fn spec_field_sh(instr: u32) -> u8 { ((instr >> 11) & 0x1F) as u8 }

/// Extract the `sh` field of an instruction word.
pub fn field_sh(instr: u32) -> (r: u8)
    ensures
        r == spec_field_sh(instr),
{ ((instr >> 11) & 0x1F) as u8 }

/// The `mb` field of an instruction word.
pub open spec fn spec_field_mb(instr: u32) -> u8 { ((instr >> 6) & 0x1F) as u8 }

/// Extract the `mb` field of an instruction word.
pub fn field_mb(instr: u32) -> (r: u8)
    ensures
        r == spec_field_mb(instr),
{ ((instr >> 6) & 0x1F) as u8 }

/// The `me` field of an instruction word.
pub open spec fn spec_field_me(instr: u32) -> u8 { ((instr >> 1) & 0x1F) as u8 }

/// Extract the `me` field of an instruction word.
pub fn field_me(instr: u32) -> (r: u8)
    ensures
        r == spec_field_me(instr),
{ ((instr >> 1) & 0x1F) as u8 }

/// The `crfd` field of an instruction word.
pub open spec fn spec_field_crfd(instr: u32) -> u8 { ((instr >> 23) & 0x7) as u8 }

/// Extract the `crfd` field of an instruction word.
pub fn field_crfd(instr: u32) -> (r: u8)
    ensures
        r == spec_field_crfd(instr),
{ ((instr >> 23) & 0x7) as u8 }

/// The `crfs` field of an instruction word.
pub open spec fn spec_field_crfs(instr: u32) -> u8 { ((instr >> 18) & 0x7) as u8 }

/// Extract the `crfs` field of an instruction word.
pub fn field_crfs(instr: u32) -> (r: u8)
    ensures
        r == spec_field_crfs(instr),
{ ((instr >> 18) & 0x7) as u8 }

/// The `bt` field of an instruction word.
pub open spec fn spec_field_bt(instr: u32) -> u8 { ((instr >> 21) & 0x1F) as u8 }

/// Extract the `bt` field of an instruction word.
pub fn field_bt(instr: u32) -> (r: u8)
    ensures
        r == spec_field_bt(instr),
{ ((instr >> 21) & 0x1F) as u8 }

/// The `ba` field of an instruction word.
pub open spec fn spec_field_ba(instr: u32) -> u8 { ((instr >> 16) & 0x1F) as u8 }

/// Extract the `ba` field of an instruction word.
pub fn field_ba(instr: u32) -> (r: u8)
    ensures
        r == spec_field_ba(instr),
{ ((instr >> 16) & 0x1F) as u8 }

/// The `bb` field of an instruction word.
pub open spec fn spec_field_bb(instr: u32) -> u8 { ((instr >> 11) & 0x1F) as u8 }

/// Extract the `bb` field of an instruction word.
pub fn field_bb(instr: u32) -> (r: u8)
    ensures
        r == spec_field_bb(instr),
{ ((instr >> 11) & 0x1F) as u8 }

/// The `to` field of an instruction word.
pub open spec fn spec_field_to(instr: u32) -> u8 { ((instr >> 21) & 0x1F) as u8 }

/// Extract the `to` field of an instruction word.
pub fn field_to(instr: u32) -> (r: u8)
    ensures
        r == spec_field_to(instr),
{ ((instr >> 21) & 0x1F) as u8 }

/// The `l` field of an instruction word.
pub open spec fn spec_field_l(instr: u32) -> bool { ((instr >> 21) & 1) != 0 }

/// Extract the `l` field of an instruction word.
pub fn field_l(instr: u32) -> (r: bool)
    ensures
        r == spec_field_l(instr),
{ ((instr >> 21) & 1) != 0 }

/// The `nb` field of an instruction word.
pub open spec fn spec_field_nb(instr: u32) -> u8 { ((instr >> 11) & 0x1F) as u8 }

/// Extract the `nb` field of an instruction word.
pub fn field_nb(instr: u32) -> (r: u8)
    ensures
        r == spec_field_nb(instr),
{ ((instr >> 11) & 0x1F) as u8 }

/// The `fxm` field of an instruction word.
pub open spec fn spec_field_fxm(instr: u32) -> u8 { ((instr >> 12) & 0xFF) as u8 }

/// Extract the `fxm` field of an instruction word.
pub fn field_fxm(instr: u32) -> (r: u8)
    ensures
        r == spec_field_fxm(instr),
{ ((instr >> 12) & 0xFF) as u8 }

/// The `spr` field of an instruction word.
pub open spec fn spec_field_spr(instr: u32) -> u16 {
    let spr_low = ((instr >> 16) & 0x1F) as u16;
    let spr_high = ((instr >> 11) & 0x1F) as u16;
    (spr_high << 5) | spr_low
}

/// Extract the `spr` field of an instruction word.
pub fn field_spr(instr: u32) -> (r: u16)
    ensures
        r == spec_field_spr(instr),
{
    let spr_low = ((instr >> 16) & 0x1F) as u16;
    let spr_high = ((instr >> 11) & 0x1F) as u16;
    (spr_high << 5) | spr_low
}

/// The `frt` field of an instruction word.
pub open spec fn spec_field_frt(instr: u32) -> u8 { spec_field_rt(instr) }

/// Extract the `frt` field of an instruction word.
pub fn field_frt(instr: u32) -> (r: u8)
    ensures
        r == spec_field_frt(instr),
{ field_rt(instr) }

/// The `frs` field of an instruction word.
pub open spec fn spec_field_frs(instr: u32) -> u8 { spec_field_rs(instr) }

/// Extract the `frs` field of an instruction word.
pub fn field_frs(instr: u32) -> (r: u8)
    ensures
        r == spec_field_frs(instr),
{ field_rs(instr) }

/// The `fra` field of an instruction word.
pub open spec fn spec_field_fra(instr: u32) -> u8 { spec_field_ra(instr) }

/// Extract the `fra` field of an instruction word.
pub fn field_fra(instr: u32) -> (r: u8)
    ensures
        r == spec_field_fra(instr),
{ field_ra(instr) }

/// The `frb` field of an instruction word.
pub open spec fn spec_field_frb(instr: u32) -> u8 { spec_field_rb(instr) }

/// Extract the `frb` field of an instruction word.
pub fn field_frb(instr: u32) -> (r: u8)
    ensures
        r == spec_field_frb(instr),
{ field_rb(instr) }

/// The `frc` field of an instruction word.
pub open spec fn spec_field_frc(instr: u32) -> u8 { spec_field_rc(instr) }

/// Extract the `frc` field of an instruction word.
pub fn field_frc(instr: u32) -> (r: u8)
    ensures
        r == spec_field_frc(instr),
{ field_rc(instr) }

/// What `decode_mulli` decodes an instruction word to.
pub open spec fn spec_decode_mulli(instr: u32) -> Instruction {
    Instruction::Mulli {
        rt: spec_field_rt(instr),
        ra: spec_field_ra(instr),
        simm: spec_field_simm(instr),
    }
}

fn decode_mulli(instr: u32) -> (r: Result<Instruction, Error>)
    ensures
        r == Ok::<Instruction, Error>(spec_decode_mulli(instr)),
{
    Ok(Instruction::Mulli {
        rt: field_rt(instr),
        ra: field_ra(instr),
        simm: field_simm(instr),
    })
}

/// What `decode_subfic` decodes an instruction word to.
pub open spec fn spec_decode_subfic(instr: u32) -> Instruction {
    Instruction::Subfic {
        rt: spec_field_rt(instr),
        ra: spec_field_ra(instr),
        simm: spec_field_simm(instr),
    }
}

fn decode_subfic(instr: u32) -> (r: Result<Instruction, Error>)
    ensures
        r == Ok::<Instruction, Error>(spec_decode_subfic(instr)),
{
    Ok(Instruction::Subfic {
        rt: field_rt(instr),
        ra: field_ra(instr),
        simm: field_simm(instr),
    })
}

/// What `decode_cmpli` decodes an instruction word to.
pub open spec fn spec_decode_cmpli(instr: u32) -> Instruction {
    Instruction::Cmpli {
        crfd: spec_field_crfd(instr),
        l: spec_field_l(instr),
        ra: spec_field_ra(instr),
        uimm: spec_field_uimm(instr),
    }
}

fn decode_cmpli(instr: u32) -> (r: Result<Instruction, Error>)
    ensures
        r == Ok::<Instruction, Error>(spec_decode_cmpli(instr)),
{
    Ok(Instruction::Cmpli {
        crfd: field_crfd(instr),
        l: field_l(instr),
        ra: field_ra(instr),
        uimm: field_uimm(instr),
    })
}

/// What `decode_cmpi` decodes an instruction word to.
pub open spec fn spec_decode_cmpi(instr: u32) -> Instruction {
    Instruction::Cmpi {
        crfd: spec_field_crfd(instr),
        l: spec_field_l(instr),
        ra: spec_field_ra(instr),
        simm: spec_field_simm(instr),
    }
}

fn decode_cmpi(instr: u32) -> (r: Result<Instruction, Error>)
    ensures
        r == Ok::<Instruction, Error>(spec_decode_cmpi(instr)),
{
    Ok(Instruction::Cmpi {
        crfd: field_crfd(instr),
        l: field_l(instr),
        ra: field_ra(instr),
        simm: field_simm(instr),
    })
}

/// What `decode_addic` decodes an instruction word to.
pub open spec fn spec_decode_addic(instr: u32) -> Instruction {
    Instruction::Addic {
        rt: spec_field_rt(instr),
        ra: spec_field_ra(instr),
        simm: spec_field_simm(instr),
    }
}

fn decode_addic(instr: u32) -> (r: Result<Instruction, Error>)
    ensures
        r == Ok::<Instruction, Error>(spec_decode_addic(instr)),
{
    Ok(Instruction::Addic {
        rt: field_rt(instr),
        ra: field_ra(instr),
        simm: field_simm(instr),
    })
}

/// What `decode_addic_dot` decodes an instruction word to.
pub open spec fn spec_decode_addic_dot(instr: u32) -> Instruction {
    Instruction::AddicDot {
        rt: spec_field_rt(instr),
        ra: spec_field_ra(instr),
        simm: spec_field_simm(instr),
    }
}

fn decode_addic_dot(instr: u32) -> (r: Result<Instruction, Error>)
    ensures
        r == Ok::<Instruction, Error>(spec_decode_addic_dot(instr)),
{
    Ok(Instruction::AddicDot {
        rt: field_rt(instr),
        ra: field_ra(instr),
        simm: field_simm(instr),
    })
}

/// What `decode_addi` decodes an instruction word to.
pub open spec fn spec_decode_addi(instr: u32) -> Instruction {
    Instruction::Addi {
        rt: spec_field_rt(instr),
        ra: spec_field_ra(instr),
        simm: spec_field_simm(instr),
    }
}

fn decode_addi(instr: u32) -> (r: Result<Instruction, Error>)
    ensures
        r == Ok::<Instruction, Error>(spec_decode_addi(instr)),
{
    Ok(Instruction::Addi {
        rt: field_rt(instr),
        ra: field_ra(instr),
        simm: field_simm(instr),
    })
}

/// What `decode_addis` decodes an instruction word to.
pub open spec fn spec_decode_addis(instr: u32) -> Instruction {
    Instruction::Addis {
        rt: spec_field_rt(instr),
        ra: spec_field_ra(instr),
        simm: spec_field_simm(instr),
    }
}

fn decode_addis(instr: u32) -> (r: Result<Instruction, Error>)
    ensures
        r == Ok::<Instruction, Error>(spec_decode_addis(instr)),
{
    Ok(Instruction::Addis {
        rt: field_rt(instr),
        ra: field_ra(instr),
        simm: field_simm(instr),
    })
}

/// What `decode_b` decodes an instruction word to.
pub open spec fn spec_decode_b(instr: u32) -> Instruction {
    let li = ((instr & 0x03FFFFFC) as i32) << 6 >> 6; // Sign extend 26-bit
    Instruction::B {
        li,
        aa: spec_field_aa(instr),
        lk: spec_field_lk(instr),
    }
}

fn decode_b(instr: u32) -> (r: Result<Instruction, Error>)
    ensures
        r == Ok::<Instruction, Error>(spec_decode_b(instr)),
{
    let li = ((instr & 0x03FFFFFC) as i32) << 6 >> 6; // Sign extend 26-bit
    Ok(Instruction::B {
        li,
        aa: field_aa(instr),
        lk: field_lk(instr),
    })
}

/// What `decode_bc` decodes an instruction word to.
pub open spec fn spec_decode_bc(instr: u32) -> Instruction {
    let bd = (((instr & 0xFFFC) as i16) << 2) >> 2; // Sign extend 16-bit
    Instruction::Bc {
        bo: spec_field_bo(instr),
        bi: spec_field_bi(instr),
        bd,
        aa: spec_field_aa(instr),
        lk: spec_field_lk(instr),
    }
}

fn decode_bc(instr: u32) -> (r: Result<Instruction, Error>)
    ensures
        r == Ok::<Instruction, Error>(spec_decode_bc(instr)),
{
    let bd = (((instr & 0xFFFC) as i16) << 2) >> 2; // Sign extend 16-bit
    Ok(Instruction::Bc {
        bo: field_bo(instr),
        bi: field_bi(instr),
        bd,
        aa: field_aa(instr),
        lk: field_lk(instr),
    })
}

/// What `decode_sc` decodes an instruction word to.
pub open spec fn spec_decode_sc(instr: u32) -> Instruction {
    Instruction::Sc
}

fn decode_sc(instr: u32) -> (r: Result<Instruction, Error>)
    ensures
        r == Ok::<Instruction, Error>(spec_decode_sc(instr)),
{
    Ok(Instruction::Sc)
}

/// What `decode_rlwimi` decodes an instruction word to.
pub open spec fn spec_decode_rlwimi(instr: u32) -> Instruction {
    Instruction::Rlwimi {
        ra: spec_field_ra(instr),
        rs: spec_field_rs(instr),
        sh: spec_field_sh(instr),
        mb: spec_field_mb(instr),
        me: spec_field_me(instr),
        rc: spec_field_rc_bit(instr),
    }
}

fn decode_rlwimi(instr: u32) -> (r: Result<Instruction, Error>)
    ensures
        r == Ok::<Instruction, Error>(spec_decode_rlwimi(instr)),
{
    Ok(Instruction::Rlwimi {
        ra: field_ra(instr),
        rs: field_rs(instr),
        sh: field_sh(instr),
        mb: field_mb(instr),
        me: field_me(instr),
        rc: field_rc_bit(instr),
    })
}

/// What `decode_rlwinm` decodes an instruction word to.
pub open spec fn spec_decode_rlwinm(instr: u32) -> Instruction {
    Instruction::Rlwinm {
        ra: spec_field_ra(instr),
        rs: spec_field_rs(instr),
        sh: spec_field_sh(instr),
        mb: spec_field_mb(instr),
        me: spec_field_me(instr),
        rc: spec_field_rc_bit(instr),
    }
}

fn decode_rlwinm(instr: u32) -> (r: Result<Instruction, Error>)
    ensures
        r == Ok::<Instruction, Error>(spec_decode_rlwinm(instr)),
{
    Ok(Instruction::Rlwinm {
        ra: field_ra(instr),
        rs: field_rs(instr),
        sh: field_sh(instr),
        mb: field_mb(instr),
        me: field_me(instr),
        rc: field_rc_bit(instr),
    })
}

/// What `decode_rlwnm` decodes an instruction word to.
pub open spec fn spec_decode_rlwnm(instr: u32) -> Instruction {
    Instruction::Rlwnm {
        ra: spec_field_ra(instr),
        rs: spec_field_rs(instr),
        rb: spec_field_rb(instr),
        mb: spec_field_mb(instr),
        me: spec_field_me(instr),
        rc: spec_field_rc_bit(instr),
    }
}

fn decode_rlwnm(instr: u32) -> (r: Result<Instruction, Error>)
    ensures
        r == Ok::<Instruction, Error>(spec_decode_rlwnm(instr)),
{
    Ok(Instruction::Rlwnm {
        ra: field_ra(instr),
        rs: field_rs(instr),
        rb: field_rb(instr),
        mb: field_mb(instr),
        me: field_me(instr),
        rc: field_rc_bit(instr),
    })
}

/// What `decode_ori` decodes an instruction word to.
pub open spec fn spec_decode_ori(instr: u32) -> Instruction {
    if instr == 0x60000000 {
        Instruction::Nop
    } else {
        Instruction::Ori {
            ra: spec_field_ra(instr),
            rs: spec_field_rs(instr),
            uimm: spec_field_uimm(instr),
        }
    }
}

fn decode_ori(instr: u32) -> (r: Result<Instruction, Error>)
    ensures
        r == Ok::<Instruction, Error>(spec_decode_ori(instr)),
{
    if instr == 0x60000000 {
        return Ok(Instruction::Nop);
    }
    Ok(Instruction::Ori {
        ra: field_ra(instr),
        rs: field_rs(instr),
        uimm: field_uimm(instr),
    })
}

/// What `decode_oris` decodes an instruction word to.
pub open spec fn spec_decode_oris(instr: u32) -> Instruction {
    Instruction::Oris {
        ra: spec_field_ra(instr),
        rs: spec_field_rs(instr),
        uimm: spec_field_uimm(instr),
    }
}

fn decode_oris(instr: u32) -> (r: Result<Instruction, Error>)
    ensures
        r == Ok::<Instruction, Error>(spec_decode_oris(instr)),
{
    Ok(Instruction::Oris {
        ra: field_ra(instr),
        rs: field_rs(instr),
        uimm: field_uimm(instr),
    })
}

/// What `decode_xori` decodes an instruction word to.
pub open spec fn spec_decode_xori(instr: u32) -> Instruction {
    Instruction::Xori {
        ra: spec_field_ra(instr),
        rs: spec_field_rs(instr),
        uimm: spec_field_uimm(instr),
    }
}

fn decode_xori(instr: u32) -> (r: Result<Instruction, Error>)
    ensures
        r == Ok::<Instruction, Error>(spec_decode_xori(instr)),
{
    Ok(Instruction::Xori {
        ra: field_ra(instr),
        rs: field_rs(instr),
        uimm: field_uimm(instr),
    })
}

/// What `decode_xoris` decodes an instruction word to.
pub open spec fn spec_decode_xoris(instr: u32) -> Instruction {
    Instruction::Xoris {
        ra: spec_field_ra(instr),
        rs: spec_field_rs(instr),
        uimm: spec_field_uimm(instr),
    }
}

fn decode_xoris(instr: u32) -> (r: Result<Instruction, Error>)
    ensures
        r == Ok::<Instruction, Error>(spec_decode_xoris(instr)),
{
    Ok(Instruction::Xoris {
        ra: field_ra(instr),
        rs: field_rs(instr),
        uimm: field_uimm(instr),
    })
}

/// What `decode_andi` decodes an instruction word to.
pub open spec fn spec_decode_andi(instr: u32) -> Instruction {
    Instruction::Andi {
        ra: spec_field_ra(instr),
        rs: spec_field_rs(instr),
        uimm: spec_field_uimm(instr),
    }
}

fn decode_andi(instr: u32) -> (r: Result<Instruction, Error>)
    ensures
        r == Ok::<Instruction, Error>(spec_decode_andi(instr)),
{
    Ok(Instruction::Andi {
        ra: field_ra(instr),
        rs: field_rs(instr),
        uimm: field_uimm(instr),
    })
}

/// What `decode_andis` decodes an instruction word to.
pub open spec fn spec_decode_andis(instr: u32) -> Instruction {
    Instruction::Andis {
        ra: spec_field_ra(instr),
        rs: spec_field_rs(instr),
        uimm: spec_field_uimm(instr),
    }
}

fn decode_andis(instr: u32) -> (r: Result<Instruction, Error>)
    ensures
        r == Ok::<Instruction, Error>(spec_decode_andis(instr)),
{
    Ok(Instruction::Andis {
        ra: field_ra(instr),
        rs: field_rs(instr),
        uimm: field_uimm(instr),
    })
}

/// What `decode_lwz` decodes an instruction word to.
pub open spec fn spec_decode_lwz(instr: u32) -> Instruction {
    Instruction::Lwz {
        rt: spec_field_rt(instr),
        ra: spec_field_ra(instr),
        d: spec_field_simm(instr),
    }
}

fn decode_lwz(instr: u32) -> (r: Result<Instruction, Error>)
    ensures
        r == Ok::<Instruction, Error>(spec_decode_lwz(instr)),
{
    Ok(Instruction::Lwz {
        rt: field_rt(instr),
        ra: field_ra(instr),
        d: field_simm(instr),
    })
}

/// What `decode_lwzu` decodes an instruction word to.
pub open spec fn spec_decode_lwzu(instr: u32) -> Instruction {
    Instruction::Lwzu {
        rt: spec_field_rt(instr),
        ra: spec_field_ra(instr),
        d: spec_field_simm(instr),
    }
}

fn decode_lwzu(instr: u32) -> (r: Result<Instruction, Error>)
    ensures
        r == Ok::<Instruction, Error>(spec_decode_lwzu(instr)),
{
    Ok(Instruction::Lwzu {
        rt: field_rt(instr),
        ra: field_ra(instr),
        d: field_simm(instr),
    })
}

/// What `decode_lbz` decodes an instruction word to.
pub open spec fn spec_decode_lbz(instr: u32) -> Instruction {
    Instruction::Lbz {
        rt: spec_field_rt(instr),
        ra: spec_field_ra(instr),
        d: spec_field_simm(instr),
    }
}

fn decode_lbz(instr: u32) -> (r: Result<Instruction, Error>)
    ensures
        r == Ok::<Instruction, Error>(spec_decode_lbz(instr)),
{
    Ok(Instruction::Lbz {
        rt: field_rt(instr),
        ra: field_ra(instr),
        d: field_simm(instr),
    })
}

/// What `decode_lbzu` decodes an instruction word to.
pub open spec fn spec_decode_lbzu(instr: u32) -> Instruction {
    Instruction::Lbzu {
        rt: spec_field_rt(instr),
        ra: spec_field_ra(instr),
        d: spec_field_simm(instr),
    }
}

fn decode_lbzu(instr: u32) -> (r: Result<Instruction, Error>)
    ensures
        r == Ok::<Instruction, Error>(spec_decode_lbzu(instr)),
{
    Ok(Instruction::Lbzu {
        rt: field_rt(instr),
        ra: field_ra(instr),
        d: field_simm(instr),
    })
}

/// What `decode_stw` decodes an instruction word to.
pub open spec fn spec_decode_stw(instr: u32) -> Instruction {
    Instruction::Stw {
        rs: spec_field_rs(instr),
        ra: spec_field_ra(instr),
        d: spec_field_simm(instr),
    }
}

fn decode_stw(instr: u32) -> (r: Result<Instruction, Error>)
    ensures
        r == Ok::<Instruction, Error>(spec_decode_stw(instr)),
{
    Ok(Instruction::Stw {
        rs: field_rs(instr),
        ra: field_ra(instr),
        d: field_simm(instr),
    })
}

/// What `decode_stwu` decodes an instruction word to.
pub open spec fn spec_decode_stwu(instr: u32) -> Instruction {
    Instruction::Stwu {
        rs: spec_field_rs(instr),
        ra: spec_field_ra(instr),
        d: spec_field_simm(instr),
    }
}

fn decode_stwu(instr: u32) -> (r: Result<Instruction, Error>)
    ensures
        r == Ok::<Instruction, Error>(spec_decode_stwu(instr)),
{
    Ok(Instruction::Stwu {
        rs: field_rs(instr),
        ra: field_ra(instr),
        d: field_simm(instr),
    })
}

/// What `decode_stb` decodes an instruction word to.
pub open spec fn spec_decode_stb(instr: u32) -> Instruction {
    Instruction::Stb {
        rs: spec_field_rs(instr),
        ra: spec_field_ra(instr),
        d: spec_field_simm(instr),
    }
}

fn decode_stb(instr: u32) -> (r: Result<Instruction, Error>)
    ensures
        r == Ok::<Instruction, Error>(spec_decode_stb(instr)),
{
    Ok(Instruction::Stb {
        rs: field_rs(instr),
        ra: field_ra(instr),
        d: field_simm(instr),
    })
}

/// What `decode_stbu` decodes an instruction word to.
pub open spec fn spec_decode_stbu(instr: u32) -> Instruction {
    Instruction::Stbu {
        rs: spec_field_rs(instr),
        ra: spec_field_ra(instr),
        d: spec_field_simm(instr),
    }
}

fn decode_stbu(instr: u32) -> (r: Result<Instruction, Error>)
    ensures
        r == Ok::<Instruction, Error>(spec_decode_stbu(instr)),
{
    Ok(Instruction::Stbu {
        rs: field_rs(instr),
        ra: field_ra(instr),
        d: field_simm(instr),
    })
}

/// What `decode_lhz` decodes an instruction word to.
pub open spec fn spec_decode_lhz(instr: u32) -> Instruction {
    Instruction::Lhz {
        rt: spec_field_rt(instr),
        ra: spec_field_ra(instr),
        d: spec_field_simm(instr),
    }
}

fn decode_lhz(instr: u32) -> (r: Result<Instruction, Error>)
    ensures
        r == Ok::<Instruction, Error>(spec_decode_lhz(instr)),
{
    Ok(Instruction::Lhz {
        rt: field_rt(instr),
        ra: field_ra(instr),
        d: field_simm(instr),
    })
}

/// What `decode_lhzu` decodes an instruction word to.
pub open spec fn spec_decode_lhzu(instr: u32) -> Instruction {
    Instruction::Lhzu {
        rt: spec_field_rt(instr),
        ra: spec_field_ra(instr),
        d: spec_field_simm(instr),
    }
}

fn decode_lhzu(instr: u32) -> (r: Result<Instruction, Error>)
    ensures
        r == Ok::<Instruction, Error>(spec_decode_lhzu(instr)),
{
    Ok(Instruction::Lhzu {
        rt: field_rt(instr),
        ra: field_ra(instr),
        d: field_simm(instr),
    })
}

/// What `decode_lha` decodes an instruction word to.
pub open spec fn spec_decode_lha(instr: u32) -> Instruction {
    Instruction::Lha {
        rt: spec_field_rt(instr),
        ra: spec_field_ra(instr),
        d: spec_field_simm(instr),
    }
}

fn decode_lha(instr: u32) -> (r: Result<Instruction, Error>)
    ensures
        r == Ok::<Instruction, Error>(spec_decode_lha(instr)),
{
    Ok(Instruction::Lha {
        rt: field_rt(instr),
        ra: field_ra(instr),
        d: field_simm(instr),
    })
}

/// What `decode_lhau` decodes an instruction word to.
pub open spec fn spec_decode_lhau(instr: u32) -> Instruction {
    Instruction::Lhau {
        rt: spec_field_rt(instr),
        ra: spec_field_ra(instr),
        d: spec_field_simm(instr),
    }
}

fn decode_lhau(instr: u32) -> (r: Result<Instruction, Error>)
    ensures
        r == Ok::<Instruction, Error>(spec_decode_lhau(instr)),
{
    Ok(Instruction::Lhau {
        rt: field_rt(instr),
        ra: field_ra(instr),
        d: field_simm(instr),
    })
}

/// What `decode_sth` decodes an instruction word to.
pub open spec fn spec_decode_sth(instr: u32) -> Instruction {
    Instruction::Sth {
        rs: spec_field_rs(instr),
        ra: spec_field_ra(instr),
        d: spec_field_simm(instr),
    }
}

fn decode_sth(instr: u32) -> (r: Result<Instruction, Error>)
    ensures
        r == Ok::<Instruction, Error>(spec_decode_sth(instr)),
{
    Ok(Instruction::Sth {
        rs: field_rs(instr),
        ra: field_ra(instr),
        d: field_simm(instr),
    })
}

/// What `decode_sthu` decodes an instruction word to.
pub open spec fn spec_decode_sthu(instr: u32) -> Instruction {
    Instruction::Sthu {
        rs: spec_field_rs(instr),
        ra: spec_field_ra(instr),
        d: spec_field_simm(instr),
    }
}

fn decode_sthu(instr: u32) -> (r: Result<Instruction, Error>)
    ensures
        r == Ok::<Instruction, Error>(spec_decode_sthu(instr)),
{
    Ok(Instruction::Sthu {
        rs: field_rs(instr),
        ra: field_ra(instr),
        d: field_simm(instr),
    })
}

/// What `decode_lmw` decodes an instruction word to.
pub open spec fn spec_decode_lmw(instr: u32) -> Instruction {
    Instruction::Lmw {
        rt: spec_field_rt(instr),
        ra: spec_field_ra(instr),
        d: spec_field_simm(instr),
    }
}

fn decode_lmw(instr: u32) -> (r: Result<Instruction, Error>)
    ensures
        r == Ok::<Instruction, Error>(spec_decode_lmw(instr)),
{
    Ok(Instruction::Lmw {
        rt: field_rt(instr),
        ra: field_ra(instr),
        d: field_simm(instr),
    })
}

/// What `decode_stmw` decodes an instruction word to.
pub open spec fn spec_decode_stmw(instr: u32) -> Instruction {
    Instruction::Stmw {
        rs: spec_field_rs(instr),
        ra: spec_field_ra(instr),
        d: spec_field_simm(instr),
    }
}

fn decode_stmw(instr: u32) -> (r: Result<Instruction, Error>)
    ensures
        r == Ok::<Instruction, Error>(spec_decode_stmw(instr)),
{
    Ok(Instruction::Stmw {
        rs: field_rs(instr),
        ra: field_ra(instr),
        d: field_simm(instr),
    })
}

/// What `decode_lfs` decodes an instruction word to.
pub open spec fn spec_decode_lfs(instr: u32) -> Instruction {
    Instruction::Lfs {
        frt: spec_field_frt(instr),
        ra: spec_field_ra(instr),
        d: spec_field_simm(instr),
    }
}

fn decode_lfs(instr: u32) -> (r: Result<Instruction, Error>)
    ensures
        r == Ok::<Instruction, Error>(spec_decode_lfs(instr)),
{
    Ok(Instruction::Lfs {
        frt: field_frt(instr),
        ra: field_ra(instr),
        d: field_simm(instr),
    })
}

/// What `decode_lfsu` decodes an instruction word to.
pub open spec fn spec_decode_lfsu(instr: u32) -> Instruction {
    Instruction::Lfsu {
        frt: spec_field_frt(instr),
        ra: spec_field_ra(instr),
        d: spec_field_simm(instr),
    }
}

fn decode_lfsu(instr: u32) -> (r: Result<Instruction, Error>)
    ensures
        r == Ok::<Instruction, Error>(spec_decode_lfsu(instr)),
{
    Ok(Instruction::Lfsu {
        frt: field_frt(instr),
        ra: field_ra(instr),
        d: field_simm(instr),
    })
}

/// What `decode_lfd` decodes an instruction word to.
pub open spec fn spec_decode_lfd(instr: u32) -> Instruction {
    Instruction::Lfd {
        frt: spec_field_frt(instr),
        ra: spec_field_ra(instr),
        d: spec_field_simm(instr),
    }
}

fn decode_lfd(instr: u32) -> (r: Result<Instruction, Error>)
    ensures
        r == Ok::<Instruction, Error>(spec_decode_lfd(instr)),
{
    Ok(Instruction::Lfd {
        frt: field_frt(instr),
        ra: field_ra(instr),
        d: field_simm(instr),
    })
}

/// What `decode_lfdu` decodes an instruction word to.
pub open spec fn spec_decode_lfdu(instr: u32) -> Instruction {
    Instruction::Lfdu {
        frt: spec_field_frt(instr),
        ra: spec_field_ra(instr),
        d: spec_field_simm(instr),
    }
}

fn decode_lfdu(instr: u32) -> (r: Result<Instruction, Error>)
    ensures
        r == Ok::<Instruction, Error>(spec_decode_lfdu(instr)),
{
    Ok(Instruction::Lfdu {
        frt: field_frt(instr),
        ra: field_ra(instr),
        d: field_simm(instr),
    })
}

/// What `decode_stfs` decodes an instruction word to.
pub open spec fn spec_decode_stfs(instr: u32) -> Instruction {
    Instruction::Stfs {
        frs: spec_field_frs(instr),
        ra: spec_field_ra(instr),
        d: spec_field_simm(instr),
    }
}

fn decode_stfs(instr: u32) -> (r: Result<Instruction, Error>)
    ensures
        r == Ok::<Instruction, Error>(spec_decode_stfs(instr)),
{
    Ok(Instruction::Stfs {
        frs: field_frs(instr),
        ra: field_ra(instr),
        d: field_simm(instr),
    })
}

/// What `decode_stfsu` decodes an instruction word to.
pub open spec fn spec_decode_stfsu(instr: u32) -> Instruction {
    Instruction::Stfsu {
        frs: spec_field_frs(instr),
        ra: spec_field_ra(instr),
        d: spec_field_simm(instr),
    }
}

fn decode_stfsu(instr: u32) -> (r: Result<Instruction, Error>)
    ensures
        r == Ok::<Instruction, Error>(spec_decode_stfsu(instr)),
{
    Ok(Instruction::Stfsu {
        frs: field_frs(instr),
        ra: field_ra(instr),
        d: field_simm(instr),
    })
}

/// What `decode_stfd` decodes an instruction word to.
pub open spec fn spec_decode_stfd(instr: u32) -> Instruction {
    Instruction::Stfd {
        frs: spec_field_frs(instr),
        ra: spec_field_ra(instr),
        d: spec_field_simm(instr),
    }
}

fn decode_stfd(instr: u32) -> (r: Result<Instruction, Error>)
    ensures
        r == Ok::<Instruction, Error>(spec_decode_stfd(instr)),
{
    Ok(Instruction::Stfd {
        frs: field_frs(instr),
        ra: field_ra(instr),
        d: field_simm(instr),
    })
}

/// What `decode_stfdu` decodes an instruction word to.
pub open spec fn spec_decode_stfdu(instr: u32) -> Instruction {
    Instruction::Stfdu {
        frs: spec_field_frs(instr),
        ra: spec_field_ra(instr),
        d: spec_field_simm(instr),
    }
}

fn decode_stfdu(instr: u32) -> (r: Result<Instruction, Error>)
    ensures
        r == Ok::<Instruction, Error>(spec_decode_stfdu(instr)),
{
    Ok(Instruction::Stfdu {
        frs: field_frs(instr),
        ra: field_ra(instr),
        d: field_simm(instr),
    })
}

/// What `decode_extended_19` decodes an instruction word to.
pub open spec fn spec_decode_extended_19(instr: u32) -> Instruction {
    let xo = (instr >> 1) & 0x3FF;
    
    match xo {
        0 => Instruction::Mcrf {
            crfd: spec_field_crfd(instr),
            crfs: spec_field_crfs(instr),
        },
        16 => Instruction::Bclr {
            bo: spec_field_bo(instr),
            bi: spec_field_bi(instr),
            lk: spec_field_lk(instr),
        },
        33 => Instruction::Crnor {
            bt: spec_field_bt(instr),
            ba: spec_field_ba(instr),
            bb: spec_field_bb(instr),
        },
        50 => Instruction::Rfi,
        129 => Instruction::Crandc {
            bt: spec_field_bt(instr),
            ba: spec_field_ba(instr),
            bb: spec_field_bb(instr),
        },
        150 => Instruction::Isync,
        193 => Instruction::Crxor {
            bt: spec_field_bt(instr),
            ba: spec_field_ba(instr),
            bb: spec_field_bb(instr),
        },
        225 => Instruction::Crnand {
            bt: spec_field_bt(instr),
            ba: spec_field_ba(instr),
            bb: spec_field_bb(instr),
        },
        257 => Instruction::Crand {
            bt: spec_field_bt(instr),
            ba: spec_field_ba(instr),
            bb: spec_field_bb(instr),
        },
        289 => Instruction::Creqv {
            bt: spec_field_bt(instr),
            ba: spec_field_ba(instr),
            bb: spec_field_bb(instr),
        },
        417 => Instruction::Crorc {
            bt: spec_field_bt(instr),
            ba: spec_field_ba(instr),
            bb: spec_field_bb(instr),
        },
        449 => Instruction::Cror {
            bt: spec_field_bt(instr),
            ba: spec_field_ba(instr),
            bb: spec_field_bb(instr),
        },
        528 => Instruction::Bcctr {
            bo: spec_field_bo(instr),
            bi: spec_field_bi(instr),
            lk: spec_field_lk(instr),
        },
        _ => Instruction::Unknown { opcode: instr },
    }
}

fn decode_extended_19(instr: u32) -> (r: Result<Instruction, Error>)
    ensures
        r == Ok::<Instruction, Error>(spec_decode_extended_19(instr)),
{
    let xo = (instr >> 1) & 0x3FF;
    
    match xo {
        0 => Ok(Instruction::Mcrf {
            crfd: field_crfd(instr),
            crfs: field_crfs(instr),
        }),
        16 => Ok(Instruction::Bclr {
            bo: field_bo(instr),
            bi: field_bi(instr),
            lk: field_lk(instr),
        }),
        33 => Ok(Instruction::Crnor {
            bt: field_bt(instr),
            ba: field_ba(instr),
            bb: field_bb(instr),
        }),
        50 => Ok(Instruction::Rfi),
        129 => Ok(Instruction::Crandc {
            bt: field_bt(instr),
            ba: field_ba(instr),
            bb: field_bb(instr),
        }),
        150 => Ok(Instruction::Isync),
        193 => Ok(Instruction::Crxor {
            bt: field_bt(instr),
            ba: field_ba(instr),
            bb: field_bb(instr),
        }),
        225 => Ok(Instruction::Crnand {
            bt: field_bt(instr),
            ba: field_ba(instr),
            bb: field_bb(instr),
        }),
        257 => Ok(Instruction::Crand {
            bt: field_bt(instr),
            ba: field_ba(instr),
            bb: field_bb(instr),
        }),
        289 => Ok(Instruction::Creqv {
            bt: field_bt(instr),
            ba: field_ba(instr),
            bb: field_bb(instr),
        }),
        417 => Ok(Instruction::Crorc {
            bt: field_bt(instr),
            ba: field_ba(instr),
            bb: field_bb(instr),
        }),
        449 => Ok(Instruction::Cror {
            bt: field_bt(instr),
            ba: field_ba(instr),
            bb: field_bb(instr),
        }),
        528 => Ok(Instruction::Bcctr {
            bo: field_bo(instr),
            bi: field_bi(instr),
            lk: field_lk(instr),
        }),
        _ => Ok(Instruction::Unknown { opcode: instr }),
    }
}

/// What `decode_extended_31` decodes an instruction word to.
pub open spec fn spec_decode_extended_31(instr: u32) -> Instruction {
    let xo = (instr >> 1) & 0x3FF;
    let rc = spec_field_rc_bit(instr);
    let oe = spec_field_oe(instr);
    
    match xo {
        0 => Instruction::Cmp {
            crfd: spec_field_crfd(instr),
            l: spec_field_l(instr),
            ra: spec_field_ra(instr),
            rb: spec_field_rb(instr),
        },
        4 => Instruction::Tw {
            to: spec_field_to(instr),
            ra: spec_field_ra(instr),
            rb: spec_field_rb(instr),
        },
        8 => Instruction::Subfc {
            rt: spec_field_rt(instr),
            ra: spec_field_ra(instr),
            rb: spec_field_rb(instr),
            oe,
            rc,
        },
        10 => Instruction::Addc {
            rt: spec_field_rt(instr),
            ra: spec_field_ra(instr),
            rb: spec_field_rb(instr),
            oe,
            rc,
        },
        11 => Instruction::Mulhwu {
            rt: spec_field_rt(instr),
            ra: spec_field_ra(instr),
            rb: spec_field_rb(instr),
            rc,
        },
        19 => Instruction::Mfcr {
            rt: spec_field_rt(instr),
        },
        20 => Instruction::Lwarx {
            rt: spec_field_rt(instr),
            ra: spec_field_ra(instr),
            rb: spec_field_rb(instr),
        },
        23 => Instruction::Lwzx {
            rt: spec_field_rt(instr),
            ra: spec_field_ra(instr),
            rb: spec_field_rb(instr),
        },
        24 => Instruction::Slw {
            ra: spec_field_ra(instr),
            rs: spec_field_rs(instr),
            rb: spec_field_rb(instr),
            rc,
        },
        26 => Instruction::Cntlzw {
            ra: spec_field_ra(instr),
            rs: spec_field_rs(instr),
            rc,
        },
        28 => Instruction::And {
            ra: spec_field_ra(instr),
            rs: spec_field_rs(instr),
            rb: spec_field_rb(instr),
            rc,
        },
        32 => Instruction::Cmpl {
            crfd: spec_field_crfd(instr),
            l: spec_field_l(instr),
            ra: spec_field_ra(instr),
            rb: spec_field_rb(instr),
        },
        40 => Instruction::Subf {
            rt: spec_field_rt(instr),
            ra: spec_field_ra(instr),
            rb: spec_field_rb(instr),
            oe,
            rc,
        },
        54 => Instruction::Dcbst {
            ra: spec_field_ra(instr),
            rb: spec_field_rb(instr),
        },
        55 => Instruction::Lwzux {
            rt: spec_field_rt(instr),
            ra: spec_field_ra(instr),
            rb: spec_field_rb(instr),
        },
        60 => Instruction::Andc {
            ra: spec_field_ra(instr),
            rs: spec_field_rs(instr),
            rb: spec_field_rb(instr),
            rc,
        },
        75 => Instruction::Mulhw {
            rt: spec_field_rt(instr),
            ra: spec_field_ra(instr),
            rb: spec_field_rb(instr),
            rc,
        },
        83 => Instruction::Mfmsr {
            rt: spec_field_rt(instr),
        },
        86 => Instruction::Dcbf {
            ra: spec_field_ra(instr),
            rb: spec_field_rb(instr),
        },
        87 => Instruction::Lbzx {
            rt: spec_field_rt(instr),
            ra: spec_field_ra(instr),
            rb: spec_field_rb(instr),
        },
        104 => Instruction::Neg {
            rt: spec_field_rt(instr),
            ra: spec_field_ra(instr),
            oe,
            rc,
        },
        119 => Instruction::Lbzux {
            rt: spec_field_rt(instr),
            ra: spec_field_ra(instr),
            rb: spec_field_rb(instr),
        },
        124 => Instruction::Nor {
            ra: spec_field_ra(instr),
            rs: spec_field_rs(instr),
            rb: spec_field_rb(instr),
            rc,
        },
        136 => Instruction::Subfe {
            rt: spec_field_rt(instr),
            ra: spec_field_ra(instr),
            rb: spec_field_rb(instr),
            oe,
            rc,
        },
        138 => Instruction::Adde {
            rt: spec_field_rt(instr),
            ra: spec_field_ra(instr),
            rb: spec_field_rb(instr),
            oe,
            rc,
        },
        144 => Instruction::Mtcrf {
            fxm: spec_field_fxm(instr),
            rs: spec_field_rs(instr),
        },
        146 => Instruction::Mtmsr {
            rs: spec_field_rs(instr),
        },
        150 => Instruction::Stwcx {
            rs: spec_field_rs(instr),
            ra: spec_field_ra(instr),
            rb: spec_field_rb(instr),
        },
        151 => Instruction::Stwx {
            rs: spec_field_rs(instr),
            ra: spec_field_ra(instr),
            rb: spec_field_rb(instr),
        },
        183 => Instruction::Stwux {
            rs: spec_field_rs(instr),
            ra: spec_field_ra(instr),
            rb: spec_field_rb(instr),
        },
        200 => Instruction::Subfze {
            rt: spec_field_rt(instr),
            ra: spec_field_ra(instr),
            oe,
            rc,
        },
        202 => Instruction::Addze {
            rt: spec_field_rt(instr),
            ra: spec_field_ra(instr),
            oe,
            rc,
        },
        210 => Instruction::Mtsr {
            sr: spec_field_ra(instr),
            rs: spec_field_rs(instr),
        },
        215 => Instruction::Stbx {
            rs: spec_field_rs(instr),
            ra: spec_field_ra(instr),
            rb: spec_field_rb(instr),
        },
        232 => Instruction::Subfme {
            rt: spec_field_rt(instr),
            ra: spec_field_ra(instr),
            oe,
            rc,
        },
        234 => Instruction::Addme {
            rt: spec_field_rt(instr),
            ra: spec_field_ra(instr),
            oe,
            rc,
        },
        235 => Instruction::Mullw {
            rt: spec_field_rt(instr),
            ra: spec_field_ra(instr),
            rb: spec_field_rb(instr),
            oe,
            rc,
        },
        242 => Instruction::Mtsrin {
            rs: spec_field_rs(instr),
            rb: spec_field_rb(instr),
        },
        246 => Instruction::Dcbtst {
            ra: spec_field_ra(instr),
            rb: spec_field_rb(instr),
        },
        247 => Instruction::Stbux {
            rs: spec_field_rs(instr),
            ra: spec_field_ra(instr),
            rb: spec_field_rb(instr),
        },
        266 => Instruction::Add {
            rt: spec_field_rt(instr),
            ra: spec_field_ra(instr),
            rb: spec_field_rb(instr),
            oe,
            rc,
        },
        278 => Instruction::Dcbt {
            ra: spec_field_ra(instr),
            rb: spec_field_rb(instr),
        },
        279 => Instruction::Lhzx {
            rt: spec_field_rt(instr),
            ra: spec_field_ra(instr),
            rb: spec_field_rb(instr),
        },
        284 => Instruction::Eqv {
            ra: spec_field_ra(instr),
            rs: spec_field_rs(instr),
            rb: spec_field_rb(instr),
            rc,
        },
        306 => Instruction::Tlbie {
            rb: spec_field_rb(instr),
        },
        310 => Instruction::Eciwx {
            rt: spec_field_rt(instr),
            ra: spec_field_ra(instr),
            rb: spec_field_rb(instr),
        },
        311 => Instruction::Lhzux {
            rt: spec_field_rt(instr),
            ra: spec_field_ra(instr),
            rb: spec_field_rb(instr),
        },
        316 => Instruction::Xor {
            ra: spec_field_ra(instr),
            rs: spec_field_rs(instr),
            rb: spec_field_rb(instr),
            rc,
        },
        339 => Instruction::Mfspr {
            rt: spec_field_rt(instr),
            spr: spec_field_spr(instr),
        },
        343 => Instruction::Lhax {
            rt: spec_field_rt(instr),
            ra: spec_field_ra(instr),
            rb: spec_field_rb(instr),
        },
        370 => Instruction::Tlbia,
        371 => Instruction::Mftb {
            rt: spec_field_rt(instr),
            tbr: spec_field_spr(instr),
        },
        375 => Instruction::Lhaux {
            rt: spec_field_rt(instr),
            ra: spec_field_ra(instr),
            rb: spec_field_rb(instr),
        },
        407 => Instruction::Sthx {
            rs: spec_field_rs(instr),
            ra: spec_field_ra(instr),
            rb: spec_field_rb(instr),
        },
        412 => Instruction::Orc {
            ra: spec_field_ra(instr),
            rs: spec_field_rs(instr),
            rb: spec_field_rb(instr),
            rc,
        },
        438 => Instruction::Ecowx {
            rs: spec_field_rs(instr),
            ra: spec_field_ra(instr),
            rb: spec_field_rb(instr),
        },
        439 => Instruction::Sthux {
            rs: spec_field_rs(instr),
            ra: spec_field_ra(instr),
            rb: spec_field_rb(instr),
        },
        444 => Instruction::Or {
            ra: spec_field_ra(instr),
            rs: spec_field_rs(instr),
            rb: spec_field_rb(instr),
            rc,
        },
        459 => Instruction::Divwu {
            rt: spec_field_rt(instr),
            ra: spec_field_ra(instr),
            rb: spec_field_rb(instr),
            oe,
            rc,
        },
        467 => Instruction::Mtspr {
            spr: spec_field_spr(instr),
            rs: spec_field_rs(instr),
        },
        470 => Instruction::Dcbi {
            ra: spec_field_ra(instr),
            rb: spec_field_rb(instr),
        },
        476 => Instruction::Nand {
            ra: spec_field_ra(instr),
            rs: spec_field_rs(instr),
            rb: spec_field_rb(instr),
            rc,
        },
        491 => Instruction::Divw {
            rt: spec_field_rt(instr),
            ra: spec_field_ra(instr),
            rb: spec_field_rb(instr),
            oe,
            rc,
        },
        
        7 => Instruction::Lvebx {
            vd: spec_field_vd(instr),
            ra: spec_field_ra(instr),
            rb: spec_field_rb(instr),
        },
        39 => Instruction::Lvehx {
            vd: spec_field_vd(instr),
            ra: spec_field_ra(instr),
            rb: spec_field_rb(instr),
        },
        71 => Instruction::Lvewx {
            vd: spec_field_vd(instr),
            ra: spec_field_ra(instr),
            rb: spec_field_rb(instr),
        },
        103 => Instruction::Lvx {
            vd: spec_field_vd(instr),
            ra: spec_field_ra(instr),
            rb: spec_field_rb(instr),
        },
        359 => Instruction::Lvxl {
            vd: spec_field_vd(instr),
            ra: spec_field_ra(instr),
            rb: spec_field_rb(instr),
        },
        6 => Instruction::Lvsl {
            vd: spec_field_vd(instr),
            ra: spec_field_ra(instr),
            rb: spec_field_rb(instr),
        },
        38 => Instruction::Lvsr {
            vd: spec_field_vd(instr),
            ra: spec_field_ra(instr),
            rb: spec_field_rb(instr),
        },
        135 => Instruction::Stvebx {
            vs: spec_field_vs(instr),
            ra: spec_field_ra(instr),
            rb: spec_field_rb(instr),
        },
        167 => Instruction::Stvehx {
            vs: spec_field_vs(instr),
            ra: spec_field_ra(instr),
            rb: spec_field_rb(instr),
        },
        199 => Instruction::Stvewx {
            vs: spec_field_vs(instr),
            ra: spec_field_ra(instr),
            rb: spec_field_rb(instr),
        },
        231 => Instruction::Stvx {
            vs: spec_field_vs(instr),
            ra: spec_field_ra(instr),
            rb: spec_field_rb(instr),
        },
        487 => Instruction::Stvxl {
            vs: spec_field_vs(instr),
            ra: spec_field_ra(instr),
            rb: spec_field_rb(instr),
        },
        
        512 => Instruction::Mcrxr {
            crfd: spec_field_crfd(instr),
        },
        533 => Instruction::Lswx {
            rt: spec_field_rt(instr),
            ra: spec_field_ra(instr),
            rb: spec_field_rb(instr),
        },
        534 => Instruction::Lwbrx {
            rt: spec_field_rt(instr),
            ra: spec_field_ra(instr),
            rb: spec_field_rb(instr),
        },
        536 => Instruction::Srw {
            ra: spec_field_ra(instr),
            rs: spec_field_rs(instr),
            rb: spec_field_rb(instr),
            rc,
        },
        566 => Instruction::Tlbsync,
        595 => Instruction::Mfsr {
            rt: spec_field_rt(instr),
            sr: spec_field_ra(instr),
        },
        597 => Instruction::Lswi {
            rt: spec_field_rt(instr),
            ra: spec_field_ra(instr),
            nb: spec_field_nb(instr),
        },
        598 => Instruction::Sync,
        659 => Instruction::Mfsrin {
            rt: spec_field_rt(instr),
            rb: spec_field_rb(instr),
        },
        661 => Instruction::Stswx {
            rs: spec_field_rs(instr),
            ra: spec_field_ra(instr),
            rb: spec_field_rb(instr),
        },
        662 => Instruction::Stwbrx {
            rs: spec_field_rs(instr),
            ra: spec_field_ra(instr),
            rb: spec_field_rb(instr),
        },
        725 => Instruction::Stswi {
            rs: spec_field_rs(instr),
            ra: spec_field_ra(instr),
            nb: spec_field_nb(instr),
        },
        790 => Instruction::Lhbrx {
            rt: spec_field_rt(instr),
            ra: spec_field_ra(instr),
            rb: spec_field_rb(instr),
        },
        792 => Instruction::Sraw {
            ra: spec_field_ra(instr),
            rs: spec_field_rs(instr),
            rb: spec_field_rb(instr),
            rc,
        },
        824 => Instruction::Srawi {
            ra: spec_field_ra(instr),
            rs: spec_field_rs(instr),
            sh: spec_field_sh(instr),
            rc,
        },
        854 => Instruction::Eieio,
        918 => Instruction::Sthbrx {
            rs: spec_field_rs(instr),
            ra: spec_field_ra(instr),
            rb: spec_field_rb(instr),
        },
        922 => Instruction::Extsh {
            ra: spec_field_ra(instr),
            rs: spec_field_rs(instr),
            rc,
        },
        954 => Instruction::Extsb {
            ra: spec_field_ra(instr),
            rs: spec_field_rs(instr),
            rc,
        },
        982 => Instruction::Icbi {
            ra: spec_field_ra(instr),
            rb: spec_field_rb(instr),
        },
        1014 => Instruction::Dcbz {
            ra: spec_field_ra(instr),
            rb: spec_field_rb(instr),
        },
        _ => Instruction::Unknown { opcode: instr },
    }
}

fn decode_extended_31(instr: u32) -> (r: Result<Instruction, Error>)
    ensures
        r == Ok::<Instruction, Error>(spec_decode_extended_31(instr)),
{
    let xo = (instr >> 1) & 0x3FF;
    let rc = field_rc_bit(instr);
    let oe = field_oe(instr);
    
    match xo {
        0 => Ok(Instruction::Cmp {
            crfd: field_crfd(instr),
            l: field_l(instr),
            ra: field_ra(instr),
            rb: field_rb(instr),
        }),
        4 => Ok(Instruction::Tw {
            to: field_to(instr),
            ra: field_ra(instr),
            rb: field_rb(instr),
        }),
        8 => Ok(Instruction::Subfc {
            rt: field_rt(instr),
            ra: field_ra(instr),
            rb: field_rb(instr),
            oe,
            rc,
        }),
        10 => Ok(Instruction::Addc {
            rt: field_rt(instr),
            ra: field_ra(instr),
            rb: field_rb(instr),
            oe,
            rc,
        }),
        11 => Ok(Instruction::Mulhwu {
            rt: field_rt(instr),
            ra: field_ra(instr),
            rb: field_rb(instr),
            rc,
        }),
        19 => Ok(Instruction::Mfcr {
            rt: field_rt(instr),
        }),
        20 => Ok(Instruction::Lwarx {
            rt: field_rt(instr),
            ra: field_ra(instr),
            rb: field_rb(instr),
        }),
        23 => Ok(Instruction::Lwzx {
            rt: field_rt(instr),
            ra: field_ra(instr),
            rb: field_rb(instr),
        }),
        24 => Ok(Instruction::Slw {
            ra: field_ra(instr),
            rs: field_rs(instr),
            rb: field_rb(instr),
            rc,
        }),
        26 => Ok(Instruction::Cntlzw {
            ra: field_ra(instr),
            rs: field_rs(instr),
            rc,
        }),
        28 => Ok(Instruction::And {
            ra: field_ra(instr),
            rs: field_rs(instr),
            rb: field_rb(instr),
            rc,
        }),
        32 => Ok(Instruction::Cmpl {
            crfd: field_crfd(instr),
            l: field_l(instr),
            ra: field_ra(instr),
            rb: field_rb(instr),
        }),
        40 => Ok(Instruction::Subf {
            rt: field_rt(instr),
            ra: field_ra(instr),
            rb: field_rb(instr),
            oe,
            rc,
        }),
        54 => Ok(Instruction::Dcbst {
            ra: field_ra(instr),
            rb: field_rb(instr),
        }),
        55 => Ok(Instruction::Lwzux {
            rt: field_rt(instr),
            ra: field_ra(instr),
            rb: field_rb(instr),
        }),
        60 => Ok(Instruction::Andc {
            ra: field_ra(instr),
            rs: field_rs(instr),
            rb: field_rb(instr),
            rc,
        }),
        75 => Ok(Instruction::Mulhw {
            rt: field_rt(instr),
            ra: field_ra(instr),
            rb: field_rb(instr),
            rc,
        }),
        83 => Ok(Instruction::Mfmsr {
            rt: field_rt(instr),
        }),
        86 => Ok(Instruction::Dcbf {
            ra: field_ra(instr),
            rb: field_rb(instr),
        }),
        87 => Ok(Instruction::Lbzx {
            rt: field_rt(instr),
            ra: field_ra(instr),
            rb: field_rb(instr),
        }),
        104 => Ok(Instruction::Neg {
            rt: field_rt(instr),
            ra: field_ra(instr),
            oe,
            rc,
        }),
        119 => Ok(Instruction::Lbzux {
            rt: field_rt(instr),
            ra: field_ra(instr),
            rb: field_rb(instr),
        }),
        124 => Ok(Instruction::Nor {
            ra: field_ra(instr),
            rs: field_rs(instr),
            rb: field_rb(instr),
            rc,
        }),
        136 => Ok(Instruction::Subfe {
            rt: field_rt(instr),
            ra: field_ra(instr),
            rb: field_rb(instr),
            oe,
            rc,
        }),
        138 => Ok(Instruction::Adde {
            rt: field_rt(instr),
            ra: field_ra(instr),
            rb: field_rb(instr),
            oe,
            rc,
        }),
        144 => Ok(Instruction::Mtcrf {
            fxm: field_fxm(instr),
            rs: field_rs(instr),
        }),
        146 => Ok(Instruction::Mtmsr {
            rs: field_rs(instr),
        }),
        150 => Ok(Instruction::Stwcx {
            rs: field_rs(instr),
            ra: field_ra(instr),
            rb: field_rb(instr),
        }),
        151 => Ok(Instruction::Stwx {
            rs: field_rs(instr),
            ra: field_ra(instr),
            rb: field_rb(instr),
        }),
        183 => Ok(Instruction::Stwux {
            rs: field_rs(instr),
            ra: field_ra(instr),
            rb: field_rb(instr),
        }),
        200 => Ok(Instruction::Subfze {
            rt: field_rt(instr),
            ra: field_ra(instr),
            oe,
            rc,
        }),
        202 => Ok(Instruction::Addze {
            rt: field_rt(instr),
            ra: field_ra(instr),
            oe,
            rc,
        }),
        210 => Ok(Instruction::Mtsr {
            sr: field_ra(instr),
            rs: field_rs(instr),
        }),
        215 => Ok(Instruction::Stbx {
            rs: field_rs(instr),
            ra: field_ra(instr),
            rb: field_rb(instr),
        }),
        232 => Ok(Instruction::Subfme {
            rt: field_rt(instr),
            ra: field_ra(instr),
            oe,
            rc,
        }),
        234 => Ok(Instruction::Addme {
            rt: field_rt(instr),
            ra: field_ra(instr),
            oe,
            rc,
        }),
        235 => Ok(Instruction::Mullw {
            rt: field_rt(instr),
            ra: field_ra(instr),
            rb: field_rb(instr),
            oe,
            rc,
        }),
        242 => Ok(Instruction::Mtsrin {
            rs: field_rs(instr),
            rb: field_rb(instr),
        }),
        246 => Ok(Instruction::Dcbtst {
            ra: field_ra(instr),
            rb: field_rb(instr),
        }),
        247 => Ok(Instruction::Stbux {
            rs: field_rs(instr),
            ra: field_ra(instr),
            rb: field_rb(instr),
        }),
        266 => Ok(Instruction::Add {
            rt: field_rt(instr),
            ra: field_ra(instr),
            rb: field_rb(instr),
            oe,
            rc,
        }),
        278 => Ok(Instruction::Dcbt {
            ra: field_ra(instr),
            rb: field_rb(instr),
        }),
        279 => Ok(Instruction::Lhzx {
            rt: field_rt(instr),
            ra: field_ra(instr),
            rb: field_rb(instr),
        }),
        284 => Ok(Instruction::Eqv {
            ra: field_ra(instr),
            rs: field_rs(instr),
            rb: field_rb(instr),
            rc,
        }),
        306 => Ok(Instruction::Tlbie {
            rb: field_rb(instr),
        }),
        310 => Ok(Instruction::Eciwx {
            rt: field_rt(instr),
            ra: field_ra(instr),
            rb: field_rb(instr),
        }),
        311 => Ok(Instruction::Lhzux {
            rt: field_rt(instr),
            ra: field_ra(instr),
            rb: field_rb(instr),
        }),
        316 => Ok(Instruction::Xor {
            ra: field_ra(instr),
            rs: field_rs(instr),
            rb: field_rb(instr),
            rc,
        }),
        339 => Ok(Instruction::Mfspr {
            rt: field_rt(instr),
            spr: field_spr(instr),
        }),
        343 => Ok(Instruction::Lhax {
            rt: field_rt(instr),
            ra: field_ra(instr),
            rb: field_rb(instr),
        }),
        370 => Ok(Instruction::Tlbia),
        371 => Ok(Instruction::Mftb {
            rt: field_rt(instr),
            tbr: field_spr(instr),
        }),
        375 => Ok(Instruction::Lhaux {
            rt: field_rt(instr),
            ra: field_ra(instr),
            rb: field_rb(instr),
        }),
        407 => Ok(Instruction::Sthx {
            rs: field_rs(instr),
            ra: field_ra(instr),
            rb: field_rb(instr),
        }),
        412 => Ok(Instruction::Orc {
            ra: field_ra(instr),
            rs: field_rs(instr),
            rb: field_rb(instr),
            rc,
        }),
        438 => Ok(Instruction::Ecowx {
            rs: field_rs(instr),
            ra: field_ra(instr),
            rb: field_rb(instr),
        }),
        439 => Ok(Instruction::Sthux {
            rs: field_rs(instr),
            ra: field_ra(instr),
            rb: field_rb(instr),
        }),
        444 => Ok(Instruction::Or {
            ra: field_ra(instr),
            rs: field_rs(instr),
            rb: field_rb(instr),
            rc,
        }),
        459 => Ok(Instruction::Divwu {
            rt: field_rt(instr),
            ra: field_ra(instr),
            rb: field_rb(instr),
            oe,
            rc,
        }),
        467 => Ok(Instruction::Mtspr {
            spr: field_spr(instr),
            rs: field_rs(instr),
        }),
        470 => Ok(Instruction::Dcbi {
            ra: field_ra(instr),
            rb: field_rb(instr),
        }),
        476 => Ok(Instruction::Nand {
            ra: field_ra(instr),
            rs: field_rs(instr),
            rb: field_rb(instr),
            rc,
        }),
        491 => Ok(Instruction::Divw {
            rt: field_rt(instr),
            ra: field_ra(instr),
            rb: field_rb(instr),
            oe,
            rc,
        }),
        
        7 => Ok(Instruction::Lvebx {
            vd: field_vd(instr),
            ra: field_ra(instr),
            rb: field_rb(instr),
        }),
        39 => Ok(Instruction::Lvehx {
            vd: field_vd(instr),
            ra: field_ra(instr),
            rb: field_rb(instr),
        }),
        71 => Ok(Instruction::Lvewx {
            vd: field_vd(instr),
            ra: field_ra(instr),
            rb: field_rb(instr),
        }),
        103 => Ok(Instruction::Lvx {
            vd: field_vd(instr),
            ra: field_ra(instr),
            rb: field_rb(instr),
        }),
        359 => Ok(Instruction::Lvxl {
            vd: field_vd(instr),
            ra: field_ra(instr),
            rb: field_rb(instr),
        }),
        6 => Ok(Instruction::Lvsl {
            vd: field_vd(instr),
            ra: field_ra(instr),
            rb: field_rb(instr),
        }),
        38 => Ok(Instruction::Lvsr {
            vd: field_vd(instr),
            ra: field_ra(instr),
            rb: field_rb(instr),
        }),
        135 => Ok(Instruction::Stvebx {
            vs: field_vs(instr),
            ra: field_ra(instr),
            rb: field_rb(instr),
        }),
        167 => Ok(Instruction::Stvehx {
            vs: field_vs(instr),
            ra: field_ra(instr),
            rb: field_rb(instr),
        }),
        199 => Ok(Instruction::Stvewx {
            vs: field_vs(instr),
            ra: field_ra(instr),
            rb: field_rb(instr),
        }),
        231 => Ok(Instruction::Stvx {
            vs: field_vs(instr),
            ra: field_ra(instr),
            rb: field_rb(instr),
        }),
        487 => Ok(Instruction::Stvxl {
            vs: field_vs(instr),
            ra: field_ra(instr),
            rb: field_rb(instr),
        }),
        
        512 => Ok(Instruction::Mcrxr {
            crfd: field_crfd(instr),
        }),
        533 => Ok(Instruction::Lswx {
            rt: field_rt(instr),
            ra: field_ra(instr),
            rb: field_rb(instr),
        }),
        534 => Ok(Instruction::Lwbrx {
            rt: field_rt(instr),
            ra: field_ra(instr),
            rb: field_rb(instr),
        }),
        536 => Ok(Instruction::Srw {
            ra: field_ra(instr),
            rs: field_rs(instr),
            rb: field_rb(instr),
            rc,
        }),
        566 => Ok(Instruction::Tlbsync),
        595 => Ok(Instruction::Mfsr {
            rt: field_rt(instr),
            sr: field_ra(instr),
        }),
        597 => Ok(Instruction::Lswi {
            rt: field_rt(instr),
            ra: field_ra(instr),
            nb: field_nb(instr),
        }),
        598 => Ok(Instruction::Sync),
        659 => Ok(Instruction::Mfsrin {
            rt: field_rt(instr),
            rb: field_rb(instr),
        }),
        661 => Ok(Instruction::Stswx {
            rs: field_rs(instr),
            ra: field_ra(instr),
            rb: field_rb(instr),
        }),
        662 => Ok(Instruction::Stwbrx {
            rs: field_rs(instr),
            ra: field_ra(instr),
            rb: field_rb(instr),
        }),
        725 => Ok(Instruction::Stswi {
            rs: field_rs(instr),
            ra: field_ra(instr),
            nb: field_nb(instr),
        }),
        790 => Ok(Instruction::Lhbrx {
            rt: field_rt(instr),
            ra: field_ra(instr),
            rb: field_rb(instr),
        }),
        792 => Ok(Instruction::Sraw {
            ra: field_ra(instr),
            rs: field_rs(instr),
            rb: field_rb(instr),
            rc,
        }),
        824 => Ok(Instruction::Srawi {
            ra: field_ra(instr),
            rs: field_rs(instr),
            sh: field_sh(instr),
            rc,
        }),
        854 => Ok(Instruction::Eieio),
        918 => Ok(Instruction::Sthbrx {
            rs: field_rs(instr),
            ra: field_ra(instr),
            rb: field_rb(instr),
        }),
        922 => Ok(Instruction::Extsh {
            ra: field_ra(instr),
            rs: field_rs(instr),
            rc,
        }),
        954 => Ok(Instruction::Extsb {
            ra: field_ra(instr),
            rs: field_rs(instr),
            rc,
        }),
        982 => Ok(Instruction::Icbi {
            ra: field_ra(instr),
            rb: field_rb(instr),
        }),
        1014 => Ok(Instruction::Dcbz {
            ra: field_ra(instr),
            rb: field_rb(instr),
        }),
        _ => Ok(Instruction::Unknown { opcode: instr }),
    }
}

/// What `decode_extended_59` decodes an instruction word to.
pub open spec fn spec_decode_extended_59(instr: u32) -> Instruction {
    let xo = (instr >> 1) & 0x1F;
    let rc = spec_field_rc_bit(instr);
    
    match xo {
        18 => Instruction::Fdivs {
            frt: spec_field_frt(instr),
            fra: spec_field_fra(instr),
            frb: spec_field_frb(instr),
            rc,
        },
        20 => Instruction::Fsubs {
            frt: spec_field_frt(instr),
            fra: spec_field_fra(instr),
            frb: spec_field_frb(instr),
            rc,
        },
        21 => Instruction::Fadds {
            frt: spec_field_frt(instr),
            fra: spec_field_fra(instr),
            frb: spec_field_frb(instr),
            rc,
        },
        22 => Instruction::Fsqrts {
            frt: spec_field_frt(instr),
            frb: spec_field_frb(instr),
            rc,
        },
        25 => Instruction::Fmuls {
            frt: spec_field_frt(instr),
            fra: spec_field_fra(instr),
            frc: spec_field_frc(instr),
            rc,
        },
        28 => Instruction::Fmsubs {
            frt: spec_field_frt(instr),
            fra: spec_field_fra(instr),
            frc: spec_field_frc(instr),
            frb: spec_field_frb(instr),
            rc,
        },
        29 => Instruction::Fmadds {
            frt: spec_field_frt(instr),
            fra: spec_field_fra(instr),
            frc: spec_field_frc(instr),
            frb: spec_field_frb(instr),
            rc,
        },
        30 => Instruction::Fnmsubs {
            frt: spec_field_frt(instr),
            fra: spec_field_fra(instr),
            frc: spec_field_frc(instr),
            frb: spec_field_frb(instr),
            rc,
        },
        31 => Instruction::Fnmadds {
            frt: spec_field_frt(instr),
            fra: spec_field_fra(instr),
            frc: spec_field_frc(instr),
            frb: spec_field_frb(instr),
            rc,
        },
        _ => Instruction::Unknown { opcode: instr },
    }
}

fn decode_extended_59(instr: u32) -> (r: Result<Instruction, Error>)
    ensures
        r == Ok::<Instruction, Error>(spec_decode_extended_59(instr)),
{
    let xo = (instr >> 1) & 0x1F;
    let rc = field_rc_bit(instr);
    
    match xo {
        18 => Ok(Instruction::Fdivs {
            frt: field_frt(instr),
            fra: field_fra(instr),
            frb: field_frb(instr),
            rc,
        }),
        20 => Ok(Instruction::Fsubs {
            frt: field_frt(instr),
            fra: field_fra(instr),
            frb: field_frb(instr),
            rc,
        }),
        21 => Ok(Instruction::Fadds {
            frt: field_frt(instr),
            fra: field_fra(instr),
            frb: field_frb(instr),
            rc,
        }),
        22 => Ok(Instruction::Fsqrts {
            frt: field_frt(instr),
            frb: field_frb(instr),
            rc,
        }),
        25 => Ok(Instruction::Fmuls {
            frt: field_frt(instr),
            fra: field_fra(instr),
            frc: field_frc(instr),
            rc,
        }),
        28 => Ok(Instruction::Fmsubs {
            frt: field_frt(instr),
            fra: field_fra(instr),
            frc: field_frc(instr),
            frb: field_frb(instr),
            rc,
        }),
        29 => Ok(Instruction::Fmadds {
            frt: field_frt(instr),
            fra: field_fra(instr),
            frc: field_frc(instr),
            frb: field_frb(instr),
            rc,
        }),
        30 => Ok(Instruction::Fnmsubs {
            frt: field_frt(instr),
            fra: field_fra(instr),
            frc: field_frc(instr),
            frb: field_frb(instr),
            rc,
        }),
        31 => Ok(Instruction::Fnmadds {
            frt: field_frt(instr),
            fra: field_fra(instr),
            frc: field_frc(instr),
            frb: field_frb(instr),
            rc,
        }),
        _ => Ok(Instruction::Unknown { opcode: instr }),
    }
}

/// What `decode_extended_63` decodes an instruction word to.
pub open spec fn spec_decode_extended_63(instr: u32) -> Instruction {
    let xo = (instr >> 1) & 0x3FF;
    let rc = spec_field_rc_bit(instr);
    
    match xo {
        0 => Instruction::Fcmpu {
            crfd: spec_field_crfd(instr),
            fra: spec_field_fra(instr),
            frb: spec_field_frb(instr),
        },
        12 => Instruction::Frsp {
            frt: spec_field_frt(instr),
            frb: spec_field_frb(instr),
            rc,
        },
        14 => Instruction::Fctiwz {
            frt: spec_field_frt(instr),
            frb: spec_field_frb(instr),
            rc,
        },
        18 => Instruction::Fdiv {
            frt: spec_field_frt(instr),
            fra: spec_field_fra(instr),
            frb: spec_field_frb(instr),
            rc,
        },
        20 => Instruction::Fsub {
            frt: spec_field_frt(instr),
            fra: spec_field_fra(instr),
            frb: spec_field_frb(instr),
            rc,
        },
        21 => Instruction::Fadd {
            frt: spec_field_frt(instr),
            fra: spec_field_fra(instr),
            frb: spec_field_frb(instr),
            rc,
        },
        22 => Instruction::Fsqrt {
            frt: spec_field_frt(instr),
            frb: spec_field_frb(instr),
            rc,
        },
        25 => Instruction::Fmul {
            frt: spec_field_frt(instr),
            fra: spec_field_fra(instr),
            frc: spec_field_frc(instr),
            rc,
        },
        28 => Instruction::Fmsub {
            frt: spec_field_frt(instr),
            fra: spec_field_fra(instr),
            frc: spec_field_frc(instr),
            frb: spec_field_frb(instr),
            rc,
        },
        29 => Instruction::Fmadd {
            frt: spec_field_frt(instr),
            fra: spec_field_fra(instr),
            frc: spec_field_frc(instr),
            frb: spec_field_frb(instr),
            rc,
        },
        30 => Instruction::Fnmsub {
            frt: spec_field_frt(instr),
            fra: spec_field_fra(instr),
            frc: spec_field_frc(instr),
            frb: spec_field_frb(instr),
            rc,
        },
        31 => Instruction::Fnmadd {
            frt: spec_field_frt(instr),
            fra: spec_field_fra(instr),
            frc: spec_field_frc(instr),
            frb: spec_field_frb(instr),
            rc,
        },
        32 => Instruction::Fcmpo {
            crfd: spec_field_crfd(instr),
            fra: spec_field_fra(instr),
            frb: spec_field_frb(instr),
        },
        40 => Instruction::Fneg {
            frt: spec_field_frt(instr),
            frb: spec_field_frb(instr),
            rc,
        },
        72 => Instruction::Fmr {
            frt: spec_field_frt(instr),
            frb: spec_field_frb(instr),
            rc,
        },
        264 => Instruction::Fabs {
            frt: spec_field_frt(instr),
            frb: spec_field_frb(instr),
            rc,
        },
        _ => Instruction::Unknown { opcode: instr },
    }
}

fn decode_extended_63(instr: u32) -> (r: Result<Instruction, Error>)
    ensures
        r == Ok::<Instruction, Error>(spec_decode_extended_63(instr)),
{
    let xo = (instr >> 1) & 0x3FF;
    let rc = field_rc_bit(instr);
    
    match xo {
        0 => Ok(Instruction::Fcmpu {
            crfd: field_crfd(instr),
            fra: field_fra(instr),
            frb: field_frb(instr),
        }),
        12 => Ok(Instruction::Frsp {
            frt: field_frt(instr),
            frb: field_frb(instr),
            rc,
        }),
        14 => Ok(Instruction::Fctiwz {
            frt: field_frt(instr),
            frb: field_frb(instr),
            rc,
        }),
        18 => Ok(Instruction::Fdiv {
            frt: field_frt(instr),
            fra: field_fra(instr),
            frb: field_frb(instr),
            rc,
        }),
        20 => Ok(Instruction::Fsub {
            frt: field_frt(instr),
            fra: field_fra(instr),
            frb: field_frb(instr),
            rc,
        }),
        21 => Ok(Instruction::Fadd {
            frt: field_frt(instr),
            fra: field_fra(instr),
            frb: field_frb(instr),
            rc,
        }),
        22 => Ok(Instruction::Fsqrt {
            frt: field_frt(instr),
            frb: field_frb(instr),
            rc,
        }),
        25 => Ok(Instruction::Fmul {
            frt: field_frt(instr),
            fra: field_fra(instr),
            frc: field_frc(instr),
            rc,
        }),
        28 => Ok(Instruction::Fmsub {
            frt: field_frt(instr),
            fra: field_fra(instr),
            frc: field_frc(instr),
            frb: field_frb(instr),
            rc,
        }),
        29 => Ok(Instruction::Fmadd {
            frt: field_frt(instr),
            fra: field_fra(instr),
            frc: field_frc(instr),
            frb: field_frb(instr),
            rc,
        }),
        30 => Ok(Instruction::Fnmsub {
            frt: field_frt(instr),
            fra: field_fra(instr),
            frc: field_frc(instr),
            frb: field_frb(instr),
            rc,
        }),
        31 => Ok(Instruction::Fnmadd {
            frt: field_frt(instr),
            fra: field_fra(instr),
            frc: field_frc(instr),
            frb: field_frb(instr),
            rc,
        }),
        32 => Ok(Instruction::Fcmpo {
            crfd: field_crfd(instr),
            fra: field_fra(instr),
            frb: field_frb(instr),
        }),
        40 => Ok(Instruction::Fneg {
            frt: field_frt(instr),
            frb: field_frb(instr),
            rc,
        }),
        72 => Ok(Instruction::Fmr {
            frt: field_frt(instr),
            frb: field_frb(instr),
            rc,
        }),
        264 => Ok(Instruction::Fabs {
            frt: field_frt(instr),
            frb: field_frb(instr),
            rc,
        }),
        _ => Ok(Instruction::Unknown { opcode: instr }),
    }
}

/// The `vd` field of an instruction word.
pub open spec fn spec_field_vd(instr: u32) -> u8 {
    ((instr >> 21) & 0x1F) as u8
}

/// Extract the `vd` field of an instruction word.
pub fn field_vd(instr: u32) -> (r: u8)
    ensures
        r == spec_field_vd(instr),
{
    ((instr >> 21) & 0x1F) as u8
}

/// The `va` field of an instruction word.
pub open spec fn spec_field_va(instr: u32) -> u8 {
    ((instr >> 16) & 0x1F) as u8
}

/// Extract the `va` field of an instruction word.
pub fn field_va(instr: u32) -> (r: u8)
    ensures
        r == spec_field_va(instr),
{
    ((instr >> 16) & 0x1F) as u8
}

/// The `vb` field of an instruction word.
pub open spec fn spec_field_vb(instr: u32) -> u8 {
    ((instr >> 11) & 0x1F) as u8
}

/// Extract the `vb` field of an instruction word.
pub fn field_vb(instr: u32) -> (r: u8)
    ensures
        r == spec_field_vb(instr),
{
    ((instr >> 11) & 0x1F) as u8
}

/// The `vc` field of an instruction word.
pub open spec fn spec_field_vc(instr: u32) -> u8 {
    ((instr >> 6) & 0x1F) as u8
}

/// Extract the `vc` field of an instruction word.
pub fn field_vc(instr: u32) -> (r: u8)
    ensures
        r == spec_field_vc(instr),
{
    ((instr >> 6) & 0x1F) as u8
}

/// The `vs` field of an instruction word.
pub open spec fn spec_field_vs(instr: u32) -> u8 {
    spec_field_vd(instr)
}

/// Extract the `vs` field of an instruction word.
pub fn field_vs(instr: u32) -> (r: u8)
    ensures
        r == spec_field_vs(instr),
{
    field_vd(instr)
}

/// The `vuimm` field of an instruction word.
pub open spec fn spec_field_vuimm(instr: u32) -> u8 {
    ((instr >> 16) & 0x1F) as u8
}

/// Extract the `vuimm` field of an instruction word.
pub fn field_vuimm(instr: u32) -> (r: u8)
    ensures
        r == spec_field_vuimm(instr),
{
    ((instr >> 16) & 0x1F) as u8
}

/// The `vsimm` field of an instruction word.
pub open spec fn spec_field_vsimm(instr: u32) -> i8 {
    let val = (instr >> 16) & 0x1F;
    if (val & 0x10) != 0 {
        (val | 0xFFFF_FFE0) as i8
    } else {
        val as i8
    }
}

/// Extract the `vsimm` field of an instruction word.
pub fn field_vsimm(instr: u32) -> (r: i8)
    ensures
        r == spec_field_vsimm(instr),
{
    let val = (instr >> 16) & 0x1F;
    if (val & 0x10) != 0 {
        (val | 0xFFFF_FFE0) as i8
    } else {
        val as i8
    }
}

/// What `decode_altivec` decodes an instruction word to.
pub open spec fn spec_decode_altivec(instr: u32) -> Instruction {
    let xo = instr & 0x7FF;  // 11-bit extended opcode
    let vd = spec_field_vd(instr);
    let va = spec_field_va(instr);
    let vb = spec_field_vb(instr);
    let vc = spec_field_vc(instr);
    let rc = (instr & 0x400) != 0;  // Bit 10 for record bit in some instructions
    
    match xo {
        10 => Instruction::Vaddfp { vd, va, vb },
        74 => Instruction::Vsubfp { vd, va, vb },
        46 => Instruction::Vmaddfp { vd, va, vb, vc },
        47 => Instruction::Vnmsubfp { vd, va, vb, vc },
        
        0 => Instruction::Vaddubm { vd, va, vb },
        64 => Instruction::Vadduhm { vd, va, vb },
        128 => Instruction::Vadduwm { vd, va, vb },
        1024 => Instruction::Vsububm { vd, va, vb },
        1088 => Instruction::Vsubuhm { vd, va, vb },
        1152 => Instruction::Vsubuwm { vd, va, vb },
        
        512 => Instruction::Vaddubs { vd, va, vb },
        576 => Instruction::Vadduhs { vd, va, vb },
        640 => Instruction::Vadduws { vd, va, vb },
        768 => Instruction::Vaddsbs { vd, va, vb },
        832 => Instruction::Vaddshs { vd, va, vb },
        896 => Instruction::Vaddsws { vd, va, vb },
        
        258 => Instruction::Vmaxsb { vd, va, vb },
        322 => Instruction::Vmaxsh { vd, va, vb },
        386 => Instruction::Vmaxsw { vd, va, vb },
        2 => Instruction::Vmaxub { vd, va, vb },
        66 => Instruction::Vmaxuh { vd, va, vb },
        130 => Instruction::Vmaxuw { vd, va, vb },
        1034 => Instruction::Vmaxfp { vd, va, vb },
        770 => Instruction::Vminsb { vd, va, vb },
        834 => Instruction::Vminsh { vd, va, vb },
        898 => Instruction::Vminsw { vd, va, vb },
        514 => Instruction::Vminub { vd, va, vb },
        578 => Instruction::Vminuh { vd, va, vb },
        642 => Instruction::Vminuw { vd, va, vb },
        1098 => Instruction::Vminfp { vd, va, vb },
        
        1026 => Instruction::Vavgub { vd, va, vb },
        1090 => Instruction::Vavguh { vd, va, vb },
        1154 => Instruction::Vavguw { vd, va, vb },
        1282 => Instruction::Vavgsb { vd, va, vb },
        1346 => Instruction::Vavgsh { vd, va, vb },
        1410 => Instruction::Vavgsw { vd, va, vb },
        
        520 => Instruction::Vmuleub { vd, va, vb },
        8 => Instruction::Vmuloub { vd, va, vb },
        776 => Instruction::Vmulesb { vd, va, vb },
        264 => Instruction::Vmulosb { vd, va, vb },
        584 => Instruction::Vmuleuh { vd, va, vb },
        72 => Instruction::Vmulouh { vd, va, vb },
        840 => Instruction::Vmulesh { vd, va, vb },
        328 => Instruction::Vmulosh { vd, va, vb },
        
        1028 => Instruction::Vand { vd, va, vb },
        1092 => Instruction::Vandc { vd, va, vb },
        1156 => Instruction::Vor { vd, va, vb },
        1284 => Instruction::Vnor { vd, va, vb },
        1220 => Instruction::Vxor { vd, va, vb },
        
        6 => if !rc { Instruction::Vcmpequb { vd, va, vb, rc: false } } else { Instruction::Vcmpequb { vd, va, vb, rc: true } },
        70 => if !rc { Instruction::Vcmpequh { vd, va, vb, rc: false } } else { Instruction::Vcmpequh { vd, va, vb, rc: true } },
        134 => if !rc { Instruction::Vcmpequw { vd, va, vb, rc: false } } else { Instruction::Vcmpequw { vd, va, vb, rc: true } },
        198 => if !rc { Instruction::Vcmpeqfp { vd, va, vb, rc: false } } else { Instruction::Vcmpeqfp { vd, va, vb, rc: true } },
        774 => if !rc { Instruction::Vcmpgtsb { vd, va, vb, rc: false } } else { Instruction::Vcmpgtsb { vd, va, vb, rc: true } },
        838 => if !rc { Instruction::Vcmpgtsh { vd, va, vb, rc: false } } else { Instruction::Vcmpgtsh { vd, va, vb, rc: true } },
        902 => if !rc { Instruction::Vcmpgtsw { vd, va, vb, rc: false } } else { Instruction::Vcmpgtsw { vd, va, vb, rc: true } },
        518 => if !rc { Instruction::Vcmpgtub { vd, va, vb, rc: false } } else { Instruction::Vcmpgtub { vd, va, vb, rc: true } },
        582 => if !rc { Instruction::Vcmpgtuh { vd, va, vb, rc: false } } else { Instruction::Vcmpgtuh { vd, va, vb, rc: true } },
        646 => if !rc { Instruction::Vcmpgtuw { vd, va, vb, rc: false } } else { Instruction::Vcmpgtuw { vd, va, vb, rc: true } },
        710 => if !rc { Instruction::Vcmpgtfp { vd, va, vb, rc: false } } else { Instruction::Vcmpgtfp { vd, va, vb, rc: true } },
        454 => if !rc { Instruction::Vcmpgefp { vd, va, vb, rc: false } } else { Instruction::Vcmpgefp { vd, va, vb, rc: true } },
        
        260 => Instruction::Vslb { vd, va, vb },
        324 => Instruction::Vslh { vd, va, vb },
        388 => Instruction::Vslw { vd, va, vb },
        516 => Instruction::Vsrb { vd, va, vb },
        580 => Instruction::Vsrh { vd, va, vb },
        644 => Instruction::Vsrw { vd, va, vb },
        772 => Instruction::Vsrab { vd, va, vb },
        836 => Instruction::Vsrah { vd, va, vb },
        900 => Instruction::Vsraw { vd, va, vb },
        4 => Instruction::Vrlb { vd, va, vb },
        68 => Instruction::Vrlh { vd, va, vb },
        132 => Instruction::Vrlw { vd, va, vb },
        452 => Instruction::Vsl { vd, va, vb },
        708 => Instruction::Vsr { vd, va, vb },
        
        43 => Instruction::Vperm { vd, va, vb, vc },
        42 => Instruction::Vsel { vd, va, vb, vc },
        524 => Instruction::Vspltb { vd, vb, uimm: spec_field_vuimm(instr) },
        588 => Instruction::Vsplth { vd, vb, uimm: spec_field_vuimm(instr) },
        652 => Instruction::Vspltw { vd, vb, uimm: spec_field_vuimm(instr) },
        780 => Instruction::Vspltisb { vd, simm: spec_field_vsimm(instr) },
        844 => Instruction::Vspltish { vd, simm: spec_field_vsimm(instr) },
        908 => Instruction::Vspltisw { vd, simm: spec_field_vsimm(instr) },
        12 => Instruction::Vmrghb { vd, va, vb },
        76 => Instruction::Vmrghh { vd, va, vb },
        140 => Instruction::Vmrghw { vd, va, vb },
        268 => Instruction::Vmrglb { vd, va, vb },
        332 => Instruction::Vmrglh { vd, va, vb },
        396 => Instruction::Vmrglw { vd, va, vb },
        
        14 => Instruction::Vpkuhus { vd, va, vb },
        78 => Instruction::Vpkuwus { vd, va, vb },
        270 => Instruction::Vpkshss { vd, va, vb },
        142 => Instruction::Vpkshus { vd, va, vb },
        334 => Instruction::Vpkswss { vd, va, vb },
        206 => Instruction::Vpkswus { vd, va, vb },
        782 => Instruction::Vpkpx { vd, va, vb },
        526 => Instruction::Vupkhsb { vd, vb },
        590 => Instruction::Vupklsb { vd, vb },
        654 => Instruction::Vupkhsh { vd, vb },
        718 => Instruction::Vupklsh { vd, vb },
        846 => Instruction::Vupkhpx { vd, vb },
        974 => Instruction::Vupklpx { vd, vb },
        
        _ => Instruction::Unknown { opcode: instr },
    }
}

fn decode_altivec(instr: u32) -> (r: Result<Instruction, Error>)
    ensures
        r == Ok::<Instruction, Error>(spec_decode_altivec(instr)),
{
    let xo = instr & 0x7FF;  // 11-bit extended opcode
    let vd = field_vd(instr);
    let va = field_va(instr);
    let vb = field_vb(instr);
    let vc = field_vc(instr);
    let rc = (instr & 0x400) != 0;  // Bit 10 for record bit in some instructions
    
    match xo {
        10 => Ok(Instruction::Vaddfp { vd, va, vb }),
        74 => Ok(Instruction::Vsubfp { vd, va, vb }),
        46 => Ok(Instruction::Vmaddfp { vd, va, vb, vc }),
        47 => Ok(Instruction::Vnmsubfp { vd, va, vb, vc }),
        
        0 => Ok(Instruction::Vaddubm { vd, va, vb }),
        64 => Ok(Instruction::Vadduhm { vd, va, vb }),
        128 => Ok(Instruction::Vadduwm { vd, va, vb }),
        1024 => Ok(Instruction::Vsububm { vd, va, vb }),
        1088 => Ok(Instruction::Vsubuhm { vd, va, vb }),
        1152 => Ok(Instruction::Vsubuwm { vd, va, vb }),
        
        512 => Ok(Instruction::Vaddubs { vd, va, vb }),
        576 => Ok(Instruction::Vadduhs { vd, va, vb }),
        640 => Ok(Instruction::Vadduws { vd, va, vb }),
        768 => Ok(Instruction::Vaddsbs { vd, va, vb }),
        832 => Ok(Instruction::Vaddshs { vd, va, vb }),
        896 => Ok(Instruction::Vaddsws { vd, va, vb }),
        
        258 => Ok(Instruction::Vmaxsb { vd, va, vb }),
        322 => Ok(Instruction::Vmaxsh { vd, va, vb }),
        386 => Ok(Instruction::Vmaxsw { vd, va, vb }),
        2 => Ok(Instruction::Vmaxub { vd, va, vb }),
        66 => Ok(Instruction::Vmaxuh { vd, va, vb }),
        130 => Ok(Instruction::Vmaxuw { vd, va, vb }),
        1034 => Ok(Instruction::Vmaxfp { vd, va, vb }),
        770 => Ok(Instruction::Vminsb { vd, va, vb }),
        834 => Ok(Instruction::Vminsh { vd, va, vb }),
        898 => Ok(Instruction::Vminsw { vd, va, vb }),
        514 => Ok(Instruction::Vminub { vd, va, vb }),
        578 => Ok(Instruction::Vminuh { vd, va, vb }),
        642 => Ok(Instruction::Vminuw { vd, va, vb }),
        1098 => Ok(Instruction::Vminfp { vd, va, vb }),
        
        1026 => Ok(Instruction::Vavgub { vd, va, vb }),
        1090 => Ok(Instruction::Vavguh { vd, va, vb }),
        1154 => Ok(Instruction::Vavguw { vd, va, vb }),
        1282 => Ok(Instruction::Vavgsb { vd, va, vb }),
        1346 => Ok(Instruction::Vavgsh { vd, va, vb }),
        1410 => Ok(Instruction::Vavgsw { vd, va, vb }),
        
        520 => Ok(Instruction::Vmuleub { vd, va, vb }),
        8 => Ok(Instruction::Vmuloub { vd, va, vb }),
        776 => Ok(Instruction::Vmulesb { vd, va, vb }),
        264 => Ok(Instruction::Vmulosb { vd, va, vb }),
        584 => Ok(Instruction::Vmuleuh { vd, va, vb }),
        72 => Ok(Instruction::Vmulouh { vd, va, vb }),
        840 => Ok(Instruction::Vmulesh { vd, va, vb }),
        328 => Ok(Instruction::Vmulosh { vd, va, vb }),
        
        1028 => Ok(Instruction::Vand { vd, va, vb }),
        1092 => Ok(Instruction::Vandc { vd, va, vb }),
        1156 => Ok(Instruction::Vor { vd, va, vb }),
        1284 => Ok(Instruction::Vnor { vd, va, vb }),
        1220 => Ok(Instruction::Vxor { vd, va, vb }),
        
        6 => if !rc { Ok(Instruction::Vcmpequb { vd, va, vb, rc: false }) } else { Ok(Instruction::Vcmpequb { vd, va, vb, rc: true }) },
        70 => if !rc { Ok(Instruction::Vcmpequh { vd, va, vb, rc: false }) } else { Ok(Instruction::Vcmpequh { vd, va, vb, rc: true }) },
        134 => if !rc { Ok(Instruction::Vcmpequw { vd, va, vb, rc: false }) } else { Ok(Instruction::Vcmpequw { vd, va, vb, rc: true }) },
        198 => if !rc { Ok(Instruction::Vcmpeqfp { vd, va, vb, rc: false }) } else { Ok(Instruction::Vcmpeqfp { vd, va, vb, rc: true }) },
        774 => if !rc { Ok(Instruction::Vcmpgtsb { vd, va, vb, rc: false }) } else { Ok(Instruction::Vcmpgtsb { vd, va, vb, rc: true }) },
        838 => if !rc { Ok(Instruction::Vcmpgtsh { vd, va, vb, rc: false }) } else { Ok(Instruction::Vcmpgtsh { vd, va, vb, rc: true }) },
        902 => if !rc { Ok(Instruction::Vcmpgtsw { vd, va, vb, rc: false }) } else { Ok(Instruction::Vcmpgtsw { vd, va, vb, rc: true }) },
        518 => if !rc { Ok(Instruction::Vcmpgtub { vd, va, vb, rc: false }) } else { Ok(Instruction::Vcmpgtub { vd, va, vb, rc: true }) },
        582 => if !rc { Ok(Instruction::Vcmpgtuh { vd, va, vb, rc: false }) } else { Ok(Instruction::Vcmpgtuh { vd, va, vb, rc: true }) },
        646 => if !rc { Ok(Instruction::Vcmpgtuw { vd, va, vb, rc: false }) } else { Ok(Instruction::Vcmpgtuw { vd, va, vb, rc: true }) },
        710 => if !rc { Ok(Instruction::Vcmpgtfp { vd, va, vb, rc: false }) } else { Ok(Instruction::Vcmpgtfp { vd, va, vb, rc: true }) },
        454 => if !rc { Ok(Instruction::Vcmpgefp { vd, va, vb, rc: false }) } else { Ok(Instruction::Vcmpgefp { vd, va, vb, rc: true }) },
        
        260 => Ok(Instruction::Vslb { vd, va, vb }),
        324 => Ok(Instruction::Vslh { vd, va, vb }),
        388 => Ok(Instruction::Vslw { vd, va, vb }),
        516 => Ok(Instruction::Vsrb { vd, va, vb }),
        580 => Ok(Instruction::Vsrh { vd, va, vb }),
        644 => Ok(Instruction::Vsrw { vd, va, vb }),
        772 => Ok(Instruction::Vsrab { vd, va, vb }),
        836 => Ok(Instruction::Vsrah { vd, va, vb }),
        900 => Ok(Instruction::Vsraw { vd, va, vb }),
        4 => Ok(Instruction::Vrlb { vd, va, vb }),
        68 => Ok(Instruction::Vrlh { vd, va, vb }),
        132 => Ok(Instruction::Vrlw { vd, va, vb }),
        452 => Ok(Instruction::Vsl { vd, va, vb }),
        708 => Ok(Instruction::Vsr { vd, va, vb }),
        
        43 => Ok(Instruction::Vperm { vd, va, vb, vc }),
        42 => Ok(Instruction::Vsel { vd, va, vb, vc }),
        524 => Ok(Instruction::Vspltb { vd, vb, uimm: field_vuimm(instr) }),
        588 => Ok(Instruction::Vsplth { vd, vb, uimm: field_vuimm(instr) }),
        652 => Ok(Instruction::Vspltw { vd, vb, uimm: field_vuimm(instr) }),
        780 => Ok(Instruction::Vspltisb { vd, simm: field_vsimm(instr) }),
        844 => Ok(Instruction::Vspltish { vd, simm: field_vsimm(instr) }),
        908 => Ok(Instruction::Vspltisw { vd, simm: field_vsimm(instr) }),
        12 => Ok(Instruction::Vmrghb { vd, va, vb }),
        76 => Ok(Instruction::Vmrghh { vd, va, vb }),
        140 => Ok(Instruction::Vmrghw { vd, va, vb }),
        268 => Ok(Instruction::Vmrglb { vd, va, vb }),
        332 => Ok(Instruction::Vmrglh { vd, va, vb }),
        396 => Ok(Instruction::Vmrglw { vd, va, vb }),
        
        14 => Ok(Instruction::Vpkuhus { vd, va, vb }),
        78 => Ok(Instruction::Vpkuwus { vd, va, vb }),
        270 => Ok(Instruction::Vpkshss { vd, va, vb }),
        142 => Ok(Instruction::Vpkshus { vd, va, vb }),
        334 => Ok(Instruction::Vpkswss { vd, va, vb }),
        206 => Ok(Instruction::Vpkswus { vd, va, vb }),
        782 => Ok(Instruction::Vpkpx { vd, va, vb }),
        526 => Ok(Instruction::Vupkhsb { vd, vb }),
        590 => Ok(Instruction::Vupklsb { vd, vb }),
        654 => Ok(Instruction::Vupkhsh { vd, vb }),
        718 => Ok(Instruction::Vupklsh { vd, vb }),
        846 => Ok(Instruction::Vupkhpx { vd, vb }),
        974 => Ok(Instruction::Vupklpx { vd, vb }),
        
        _ => Ok(Instruction::Unknown { opcode: instr }),
    }
}

/// The instruction that a 32-bit word encodes.
pub open spec fn spec_decode_instruction(instr: u32) -> Instruction {
    let opcode = (instr >> 26) & 0x3F;
    
    match opcode {
        4 => spec_decode_altivec(instr),
        
        7 => spec_decode_mulli(instr),
        8 => spec_decode_subfic(instr),
        10 => spec_decode_cmpli(instr),
        11 => spec_decode_cmpi(instr),
        12 => spec_decode_addic(instr),
        13 => spec_decode_addic_dot(instr),
        14 => spec_decode_addi(instr),
        15 => spec_decode_addis(instr),
        
        16 => spec_decode_bc(instr),
        17 => spec_decode_sc(instr),
        18 => spec_decode_b(instr),
        
        19 => spec_decode_extended_19(instr),
        
        20 => spec_decode_rlwimi(instr),
        21 => spec_decode_rlwinm(instr),
        23 => spec_decode_rlwnm(instr),
        
        24 => spec_decode_ori(instr),
        25 => spec_decode_oris(instr),
        26 => spec_decode_xori(instr),
        27 => spec_decode_xoris(instr),
        28 => spec_decode_andi(instr),
        29 => spec_decode_andis(instr),
        
        31 => spec_decode_extended_31(instr),
        
        32 => spec_decode_lwz(instr),
        33 => spec_decode_lwzu(instr),
        34 => spec_decode_lbz(instr),
        35 => spec_decode_lbzu(instr),
        36 => spec_decode_stw(instr),
        37 => spec_decode_stwu(instr),
        38 => spec_decode_stb(instr),
        39 => spec_decode_stbu(instr),
        40 => spec_decode_lhz(instr),
        41 => spec_decode_lhzu(instr),
        42 => spec_decode_lha(instr),
        43 => spec_decode_lhau(instr),
        44 => spec_decode_sth(instr),
        45 => spec_decode_sthu(instr),
        46 => spec_decode_lmw(instr),
        47 => spec_decode_stmw(instr),
        
        48 => spec_decode_lfs(instr),
        49 => spec_decode_lfsu(instr),
        50 => spec_decode_lfd(instr),
        51 => spec_decode_lfdu(instr),
        52 => spec_decode_stfs(instr),
        53 => spec_decode_stfsu(instr),
        54 => spec_decode_stfd(instr),
        55 => spec_decode_stfdu(instr),
        
        59 => spec_decode_extended_59(instr),
        
        63 => spec_decode_extended_63(instr),
        
        _ => Instruction::Unknown { opcode: instr },
    }
}

/// Decode a PowerPC instruction
pub fn decode_instruction(instr: u32) -> (r: Result<Instruction, Error>)
    ensures
        r == Ok::<Instruction, Error>(spec_decode_instruction(instr)),
{
    let opcode = (instr >> 26) & 0x3F;
    
    match opcode {
        4 => decode_altivec(instr),
        
        7 => decode_mulli(instr),
        8 => decode_subfic(instr),
        10 => decode_cmpli(instr),
        11 => decode_cmpi(instr),
        12 => decode_addic(instr),
        13 => decode_addic_dot(instr),
        14 => decode_addi(instr),
        15 => decode_addis(instr),
        
        16 => decode_bc(instr),
        17 => decode_sc(instr),
        18 => decode_b(instr),
        
        19 => decode_extended_19(instr),
        
        20 => decode_rlwimi(instr),
        21 => decode_rlwinm(instr),
        23 => decode_rlwnm(instr),
        
        24 => decode_ori(instr),
        25 => decode_oris(instr),
        26 => decode_xori(instr),
        27 => decode_xoris(instr),
        28 => decode_andi(instr),
        29 => decode_andis(instr),
        
        31 => decode_extended_31(instr),
        
        32 => decode_lwz(instr),
        33 => decode_lwzu(instr),
        34 => decode_lbz(instr),
        35 => decode_lbzu(instr),
        36 => decode_stw(instr),
        37 => decode_stwu(instr),
        38 => decode_stb(instr),
        39 => decode_stbu(instr),
        40 => decode_lhz(instr),
        41 => decode_lhzu(instr),
        42 => decode_lha(instr),
        43 => decode_lhau(instr),
        44 => decode_sth(instr),
        45 => decode_sthu(instr),
        46 => decode_lmw(instr),
        47 => decode_stmw(instr),
        
        48 => decode_lfs(instr),
        49 => decode_lfsu(instr),
        50 => decode_lfd(instr),
        51 => decode_lfdu(instr),
        52 => decode_stfs(instr),
        53 => decode_stfsu(instr),
        54 => decode_stfd(instr),
        55 => decode_stfdu(instr),
        
        59 => decode_extended_59(instr),
        
        63 => decode_extended_63(instr),
        
        _ => Ok(Instruction::Unknown { opcode: instr }),
    }
}


/// Every instruction with a primary opcode of its own (D-, M- and I-form
/// other than the branches) takes its operands from the fixed bit fields of
/// the PowerPC instruction formats: the first register (rt, rs, frt, frs)
/// from bits 21-25 counting from the least significant bit, ra from bits
/// 16-20, rb or the shift from bits 11-15, mb from bits 6-10, me from bits
/// 1-5, the record bit from bit 0, a compare's CR field from bits 23-25 and
/// its L bit from bit 21, and the 16-bit immediate (sign-extended for
/// displacements and signed immediates) from bits 0-15.
pub proof fn law_primary_operands(w: u32)
    ensures
        (w >> 26) & 0x3F == 7 ==> spec_decode_instruction(w) == (Instruction::Mulli { rt: ((w >> 21) & 0x1F) as u8, ra: ((w >> 16) & 0x1F) as u8, simm: (w & 0xFFFF) as i16 }),
        (w >> 26) & 0x3F == 8 ==> spec_decode_instruction(w) == (Instruction::Subfic { rt: ((w >> 21) & 0x1F) as u8, ra: ((w >> 16) & 0x1F) as u8, simm: (w & 0xFFFF) as i16 }),
        (w >> 26) & 0x3F == 10 ==> spec_decode_instruction(w) == (Instruction::Cmpli { crfd: ((w >> 23) & 0x7) as u8, l: ((w >> 21) & 1) != 0, ra: ((w >> 16) & 0x1F) as u8, uimm: (w & 0xFFFF) as u16 }),
        (w >> 26) & 0x3F == 11 ==> spec_decode_instruction(w) == (Instruction::Cmpi { crfd: ((w >> 23) & 0x7) as u8, l: ((w >> 21) & 1) != 0, ra: ((w >> 16) & 0x1F) as u8, simm: (w & 0xFFFF) as i16 }),
        (w >> 26) & 0x3F == 12 ==> spec_decode_instruction(w) == (Instruction::Addic { rt: ((w >> 21) & 0x1F) as u8, ra: ((w >> 16) & 0x1F) as u8, simm: (w & 0xFFFF) as i16 }),
        (w >> 26) & 0x3F == 13 ==> spec_decode_instruction(w) == (Instruction::AddicDot { rt: ((w >> 21) & 0x1F) as u8, ra: ((w >> 16) & 0x1F) as u8, simm: (w & 0xFFFF) as i16 }),
        (w >> 26) & 0x3F == 14 ==> spec_decode_instruction(w) == (Instruction::Addi { rt: ((w >> 21) & 0x1F) as u8, ra: ((w >> 16) & 0x1F) as u8, simm: (w & 0xFFFF) as i16 }),
        (w >> 26) & 0x3F == 15 ==> spec_decode_instruction(w) == (Instruction::Addis { rt: ((w >> 21) & 0x1F) as u8, ra: ((w >> 16) & 0x1F) as u8, simm: (w & 0xFFFF) as i16 }),
        (w >> 26) & 0x3F == 20 ==> spec_decode_instruction(w) == (Instruction::Rlwimi { ra: ((w >> 16) & 0x1F) as u8, rs: ((w >> 21) & 0x1F) as u8, sh: ((w >> 11) & 0x1F) as u8, mb: ((w >> 6) & 0x1F) as u8, me: ((w >> 1) & 0x1F) as u8, rc: (w & 1) != 0 }),
        (w >> 26) & 0x3F == 21 ==> spec_decode_instruction(w) == (Instruction::Rlwinm { ra: ((w >> 16) & 0x1F) as u8, rs: ((w >> 21) & 0x1F) as u8, sh: ((w >> 11) & 0x1F) as u8, mb: ((w >> 6) & 0x1F) as u8, me: ((w >> 1) & 0x1F) as u8, rc: (w & 1) != 0 }),
        (w >> 26) & 0x3F == 23 ==> spec_decode_instruction(w) == (Instruction::Rlwnm { ra: ((w >> 16) & 0x1F) as u8, rs: ((w >> 21) & 0x1F) as u8, rb: ((w >> 11) & 0x1F) as u8, mb: ((w >> 6) & 0x1F) as u8, me: ((w >> 1) & 0x1F) as u8, rc: (w & 1) != 0 }),
        (w >> 26) & 0x3F == 24 && w != 0x6000_0000 ==> spec_decode_instruction(w) == (Instruction::Ori { ra: ((w >> 16) & 0x1F) as u8, rs: ((w >> 21) & 0x1F) as u8, uimm: (w & 0xFFFF) as u16 }),
        (w >> 26) & 0x3F == 25 ==> spec_decode_instruction(w) == (Instruction::Oris { ra: ((w >> 16) & 0x1F) as u8, rs: ((w >> 21) & 0x1F) as u8, uimm: (w & 0xFFFF) as u16 }),
        (w >> 26) & 0x3F == 26 ==> spec_decode_instruction(w) == (Instruction::Xori { ra: ((w >> 16) & 0x1F) as u8, rs: ((w >> 21) & 0x1F) as u8, uimm: (w & 0xFFFF) as u16 }),
        (w >> 26) & 0x3F == 27 ==> spec_decode_instruction(w) == (Instruction::Xoris { ra: ((w >> 16) & 0x1F) as u8, rs: ((w >> 21) & 0x1F) as u8, uimm: (w & 0xFFFF) as u16 }),
        (w >> 26) & 0x3F == 28 ==> spec_decode_instruction(w) == (Instruction::Andi { ra: ((w >> 16) & 0x1F) as u8, rs: ((w >> 21) & 0x1F) as u8, uimm: (w & 0xFFFF) as u16 }),
        (w >> 26) & 0x3F == 29 ==> spec_decode_instruction(w) == (Instruction::Andis { ra: ((w >> 16) & 0x1F) as u8, rs: ((w >> 21) & 0x1F) as u8, uimm: (w & 0xFFFF) as u16 }),
        (w >> 26) & 0x3F == 32 ==> spec_decode_instruction(w) == (Instruction::Lwz { rt: ((w >> 21) & 0x1F) as u8, ra: ((w >> 16) & 0x1F) as u8, d: (w & 0xFFFF) as i16 }),
        (w >> 26) & 0x3F == 33 ==> spec_decode_instruction(w) == (Instruction::Lwzu { rt: ((w >> 21) & 0x1F) as u8, ra: ((w >> 16) & 0x1F) as u8, d: (w & 0xFFFF) as i16 }),
        (w >> 26) & 0x3F == 34 ==> spec_decode_instruction(w) == (Instruction::Lbz { rt: ((w >> 21) & 0x1F) as u8, ra: ((w >> 16) & 0x1F) as u8, d: (w & 0xFFFF) as i16 }),
        (w >> 26) & 0x3F == 35 ==> spec_decode_instruction(w) == (Instruction::Lbzu { rt: ((w >> 21) & 0x1F) as u8, ra: ((w >> 16) & 0x1F) as u8, d: (w & 0xFFFF) as i16 }),
        (w >> 26) & 0x3F == 36 ==> spec_decode_instruction(w) == (Instruction::Stw { rs: ((w >> 21) & 0x1F) as u8, ra: ((w >> 16) & 0x1F) as u8, d: (w & 0xFFFF) as i16 }),
        (w >> 26) & 0x3F == 37 ==> spec_decode_instruction(w) == (Instruction::Stwu { rs: ((w >> 21) & 0x1F) as u8, ra: ((w >> 16) & 0x1F) as u8, d: (w & 0xFFFF) as i16 }),
        (w >> 26) & 0x3F == 38 ==> spec_decode_instruction(w) == (Instruction::Stb { rs: ((w >> 21) & 0x1F) as u8, ra: ((w >> 16) & 0x1F) as u8, d: (w & 0xFFFF) as i16 }),
        (w >> 26) & 0x3F == 39 ==> spec_decode_instruction(w) == (Instruction::Stbu { rs: ((w >> 21) & 0x1F) as u8, ra: ((w >> 16) & 0x1F) as u8, d: (w & 0xFFFF) as i16 }),
        (w >> 26) & 0x3F == 40 ==> spec_decode_instruction(w) == (Instruction::Lhz { rt: ((w >> 21) & 0x1F) as u8, ra: ((w >> 16) & 0x1F) as u8, d: (w & 0xFFFF) as i16 }),
        (w >> 26) & 0x3F == 41 ==> spec_decode_instruction(w) == (Instruction::Lhzu { rt: ((w >> 21) & 0x1F) as u8, ra: ((w >> 16) & 0x1F) as u8, d: (w & 0xFFFF) as i16 }),
        (w >> 26) & 0x3F == 42 ==> spec_decode_instruction(w) == (Instruction::Lha { rt: ((w >> 21) & 0x1F) as u8, ra: ((w >> 16) & 0x1F) as u8, d: (w & 0xFFFF) as i16 }),
        (w >> 26) & 0x3F == 43 ==> spec_decode_instruction(w) == (Instruction::Lhau { rt: ((w >> 21) & 0x1F) as u8, ra: ((w >> 16) & 0x1F) as u8, d: (w & 0xFFFF) as i16 }),
        (w >> 26) & 0x3F == 44 ==> spec_decode_instruction(w) == (Instruction::Sth { rs: ((w >> 21) & 0x1F) as u8, ra: ((w >> 16) & 0x1F) as u8, d: (w & 0xFFFF) as i16 }),
        (w >> 26) & 0x3F == 45 ==> spec_decode_instruction(w) == (Instruction::Sthu { rs: ((w >> 21) & 0x1F) as u8, ra: ((w >> 16) & 0x1F) as u8, d: (w & 0xFFFF) as i16 }),
        (w >> 26) & 0x3F == 46 ==> spec_decode_instruction(w) == (Instruction::Lmw { rt: ((w >> 21) & 0x1F) as u8, ra: ((w >> 16) & 0x1F) as u8, d: (w & 0xFFFF) as i16 }),
        (w >> 26) & 0x3F == 47 ==> spec_decode_instruction(w) == (Instruction::Stmw { rs: ((w >> 21) & 0x1F) as u8, ra: ((w >> 16) & 0x1F) as u8, d: (w & 0xFFFF) as i16 }),
        (w >> 26) & 0x3F == 48 ==> spec_decode_instruction(w) == (Instruction::Lfs { frt: ((w >> 21) & 0x1F) as u8, ra: ((w >> 16) & 0x1F) as u8, d: (w & 0xFFFF) as i16 }),
        (w >> 26) & 0x3F == 49 ==> spec_decode_instruction(w) == (Instruction::Lfsu { frt: ((w >> 21) & 0x1F) as u8, ra: ((w >> 16) & 0x1F) as u8, d: (w & 0xFFFF) as i16 }),
        (w >> 26) & 0x3F == 50 ==> spec_decode_instruction(w) == (Instruction::Lfd { frt: ((w >> 21) & 0x1F) as u8, ra: ((w >> 16) & 0x1F) as u8, d: (w & 0xFFFF) as i16 }),
        (w >> 26) & 0x3F == 51 ==> spec_decode_instruction(w) == (Instruction::Lfdu { frt: ((w >> 21) & 0x1F) as u8, ra: ((w >> 16) & 0x1F) as u8, d: (w & 0xFFFF) as i16 }),
        (w >> 26) & 0x3F == 52 ==> spec_decode_instruction(w) == (Instruction::Stfs { frs: ((w >> 21) & 0x1F) as u8, ra: ((w >> 16) & 0x1F) as u8, d: (w & 0xFFFF) as i16 }),
        (w >> 26) & 0x3F == 53 ==> spec_decode_instruction(w) == (Instruction::Stfsu { frs: ((w >> 21) & 0x1F) as u8, ra: ((w >> 16) & 0x1F) as u8, d: (w & 0xFFFF) as i16 }),
        (w >> 26) & 0x3F == 54 ==> spec_decode_instruction(w) == (Instruction::Stfd { frs: ((w >> 21) & 0x1F) as u8, ra: ((w >> 16) & 0x1F) as u8, d: (w & 0xFFFF) as i16 }),
        (w >> 26) & 0x3F == 55 ==> spec_decode_instruction(w) == (Instruction::Stfdu { frs: ((w >> 21) & 0x1F) as u8, ra: ((w >> 16) & 0x1F) as u8, d: (w & 0xFFFF) as i16 }),
{
}


/// The branch-to-register, condition-register and synchronisation
/// instructions of opcode 19 (XL-form, extended opcode in bits 1-10) take
/// their operands from the XL-form bit fields: bt or bo from bits 21-25, ba
/// or bi from bits 16-20, bb from bits 11-15, CR fields from bits 23-25 and
/// 18-20, and the link bit from bit 0.
pub proof fn law_extended_19_operands(w: u32)
    ensures
        (w >> 26) & 0x3F == 19 && (w >> 1) & 0x3FF == 0 ==> spec_decode_instruction(w) == (Instruction::Mcrf { crfd: ((w >> 23) & 0x7) as u8, crfs: ((w >> 18) & 0x7) as u8 }),
        (w >> 26) & 0x3F == 19 && (w >> 1) & 0x3FF == 16 ==> spec_decode_instruction(w) == (Instruction::Bclr { bo: ((w >> 21) & 0x1F) as u8, bi: ((w >> 16) & 0x1F) as u8, lk: (w & 1) != 0 }),
        (w >> 26) & 0x3F == 19 && (w >> 1) & 0x3FF == 33 ==> spec_decode_instruction(w) == (Instruction::Crnor { bt: ((w >> 21) & 0x1F) as u8, ba: ((w >> 16) & 0x1F) as u8, bb: ((w >> 11) & 0x1F) as u8 }),
        (w >> 26) & 0x3F == 19 && (w >> 1) & 0x3FF == 50 ==> spec_decode_instruction(w) == (Instruction::Rfi),
        (w >> 26) & 0x3F == 19 && (w >> 1) & 0x3FF == 129 ==> spec_decode_instruction(w) == (Instruction::Crandc { bt: ((w >> 21) & 0x1F) as u8, ba: ((w >> 16) & 0x1F) as u8, bb: ((w >> 11) & 0x1F) as u8 }),
        (w >> 26) & 0x3F == 19 && (w >> 1) & 0x3FF == 150 ==> spec_decode_instruction(w) == (Instruction::Isync),
        (w >> 26) & 0x3F == 19 && (w >> 1) & 0x3FF == 193 ==> spec_decode_instruction(w) == (Instruction::Crxor { bt: ((w >> 21) & 0x1F) as u8, ba: ((w >> 16) & 0x1F) as u8, bb: ((w >> 11) & 0x1F) as u8 }),
        (w >> 26) & 0x3F == 19 && (w >> 1) & 0x3FF == 225 ==> spec_decode_instruction(w) == (Instruction::Crnand { bt: ((w >> 21) & 0x1F) as u8, ba: ((w >> 16) & 0x1F) as u8, bb: ((w >> 11) & 0x1F) as u8 }),
        (w >> 26) & 0x3F == 19 && (w >> 1) & 0x3FF == 257 ==> spec_decode_instruction(w) == (Instruction::Crand { bt: ((w >> 21) & 0x1F) as u8, ba: ((w >> 16) & 0x1F) as u8, bb: ((w >> 11) & 0x1F) as u8 }),
        (w >> 26) & 0x3F == 19 && (w >> 1) & 0x3FF == 289 ==> spec_decode_instruction(w) == (Instruction::Creqv { bt: ((w >> 21) & 0x1F) as u8, ba: ((w >> 16) & 0x1F) as u8, bb: ((w >> 11) & 0x1F) as u8 }),
        (w >> 26) & 0x3F == 19 && (w >> 1) & 0x3FF == 417 ==> spec_decode_instruction(w) == (Instruction::Crorc { bt: ((w >> 21) & 0x1F) as u8, ba: ((w >> 16) & 0x1F) as u8, bb: ((w >> 11) & 0x1F) as u8 }),
        (w >> 26) & 0x3F == 19 && (w >> 1) & 0x3FF == 449 ==> spec_decode_instruction(w) == (Instruction::Cror { bt: ((w >> 21) & 0x1F) as u8, ba: ((w >> 16) & 0x1F) as u8, bb: ((w >> 11) & 0x1F) as u8 }),
        (w >> 26) & 0x3F == 19 && (w >> 1) & 0x3FF == 528 ==> spec_decode_instruction(w) == (Instruction::Bcctr { bo: ((w >> 21) & 0x1F) as u8, bi: ((w >> 16) & 0x1F) as u8, lk: (w & 1) != 0 }),
{
}

/// The X-, XO- and XFX-form instructions of opcode 31 (extended opcode
/// in bits 1-10) take their operands from the format's bit fields: rt or rs
/// from bits 21-25, ra from bits 16-20, rb (or the shift, or the byte
/// count) from bits 11-15, OE from bit 10, the record bit from bit 0, a
/// special register number from bits 16-20 (low half) and 11-15 (high
/// half), and a compare's CR field and L bit from bits 23-25 and 21.
pub proof fn law_extended_31_operands(w: u32)
    ensures
        (w >> 26) & 0x3F == 31 && (w >> 1) & 0x3FF == 0 ==> spec_decode_instruction(w) == (Instruction::Cmp { crfd: ((w >> 23) & 0x7) as u8, l: ((w >> 21) & 1) != 0, ra: ((w >> 16) & 0x1F) as u8, rb: ((w >> 11) & 0x1F) as u8 }),
        (w >> 26) & 0x3F == 31 && (w >> 1) & 0x3FF == 4 ==> spec_decode_instruction(w) == (Instruction::Tw { to: ((w >> 21) & 0x1F) as u8, ra: ((w >> 16) & 0x1F) as u8, rb: ((w >> 11) & 0x1F) as u8 }),
        (w >> 26) & 0x3F == 31 && (w >> 1) & 0x3FF == 8 ==> spec_decode_instruction(w) == (Instruction::Subfc { rt: ((w >> 21) & 0x1F) as u8, ra: ((w >> 16) & 0x1F) as u8, rb: ((w >> 11) & 0x1F) as u8, oe: ((w >> 10) & 1) != 0, rc: (w & 1) != 0 }),
        (w >> 26) & 0x3F == 31 && (w >> 1) & 0x3FF == 10 ==> spec_decode_instruction(w) == (Instruction::Addc { rt: ((w >> 21) & 0x1F) as u8, ra: ((w >> 16) & 0x1F) as u8, rb: ((w >> 11) & 0x1F) as u8, oe: ((w >> 10) & 1) != 0, rc: (w & 1) != 0 }),
        (w >> 26) & 0x3F == 31 && (w >> 1) & 0x3FF == 11 ==> spec_decode_instruction(w) == (Instruction::Mulhwu { rt: ((w >> 21) & 0x1F) as u8, ra: ((w >> 16) & 0x1F) as u8, rb: ((w >> 11) & 0x1F) as u8, rc: (w & 1) != 0 }),
        (w >> 26) & 0x3F == 31 && (w >> 1) & 0x3FF == 19 ==> spec_decode_instruction(w) == (Instruction::Mfcr { rt: ((w >> 21) & 0x1F) as u8 }),
        (w >> 26) & 0x3F == 31 && (w >> 1) & 0x3FF == 20 ==> spec_decode_instruction(w) == (Instruction::Lwarx { rt: ((w >> 21) & 0x1F) as u8, ra: ((w >> 16) & 0x1F) as u8, rb: ((w >> 11) & 0x1F) as u8 }),
        (w >> 26) & 0x3F == 31 && (w >> 1) & 0x3FF == 23 ==> spec_decode_instruction(w) == (Instruction::Lwzx { rt: ((w >> 21) & 0x1F) as u8, ra: ((w >> 16) & 0x1F) as u8, rb: ((w >> 11) & 0x1F) as u8 }),
        (w >> 26) & 0x3F == 31 && (w >> 1) & 0x3FF == 24 ==> spec_decode_instruction(w) == (Instruction::Slw { ra: ((w >> 16) & 0x1F) as u8, rs: ((w >> 21) & 0x1F) as u8, rb: ((w >> 11) & 0x1F) as u8, rc: (w & 1) != 0 }),
        (w >> 26) & 0x3F == 31 && (w >> 1) & 0x3FF == 26 ==> spec_decode_instruction(w) == (Instruction::Cntlzw { ra: ((w >> 16) & 0x1F) as u8, rs: ((w >> 21) & 0x1F) as u8, rc: (w & 1) != 0 }),
        (w >> 26) & 0x3F == 31 && (w >> 1) & 0x3FF == 28 ==> spec_decode_instruction(w) == (Instruction::And { ra: ((w >> 16) & 0x1F) as u8, rs: ((w >> 21) & 0x1F) as u8, rb: ((w >> 11) & 0x1F) as u8, rc: (w & 1) != 0 }),
        (w >> 26) & 0x3F == 31 && (w >> 1) & 0x3FF == 32 ==> spec_decode_instruction(w) == (Instruction::Cmpl { crfd: ((w >> 23) & 0x7) as u8, l: ((w >> 21) & 1) != 0, ra: ((w >> 16) & 0x1F) as u8, rb: ((w >> 11) & 0x1F) as u8 }),
        (w >> 26) & 0x3F == 31 && (w >> 1) & 0x3FF == 40 ==> spec_decode_instruction(w) == (Instruction::Subf { rt: ((w >> 21) & 0x1F) as u8, ra: ((w >> 16) & 0x1F) as u8, rb: ((w >> 11) & 0x1F) as u8, oe: ((w >> 10) & 1) != 0, rc: (w & 1) != 0 }),
        (w >> 26) & 0x3F == 31 && (w >> 1) & 0x3FF == 54 ==> spec_decode_instruction(w) == (Instruction::Dcbst { ra: ((w >> 16) & 0x1F) as u8, rb: ((w >> 11) & 0x1F) as u8 }),
        (w >> 26) & 0x3F == 31 && (w >> 1) & 0x3FF == 55 ==> spec_decode_instruction(w) == (Instruction::Lwzux { rt: ((w >> 21) & 0x1F) as u8, ra: ((w >> 16) & 0x1F) as u8, rb: ((w >> 11) & 0x1F) as u8 }),
        (w >> 26) & 0x3F == 31 && (w >> 1) & 0x3FF == 60 ==> spec_decode_instruction(w) == (Instruction::Andc { ra: ((w >> 16) & 0x1F) as u8, rs: ((w >> 21) & 0x1F) as u8, rb: ((w >> 11) & 0x1F) as u8, rc: (w & 1) != 0 }),
        (w >> 26) & 0x3F == 31 && (w >> 1) & 0x3FF == 75 ==> spec_decode_instruction(w) == (Instruction::Mulhw { rt: ((w >> 21) & 0x1F) as u8, ra: ((w >> 16) & 0x1F) as u8, rb: ((w >> 11) & 0x1F) as u8, rc: (w & 1) != 0 }),
        (w >> 26) & 0x3F == 31 && (w >> 1) & 0x3FF == 83 ==> spec_decode_instruction(w) == (Instruction::Mfmsr { rt: ((w >> 21) & 0x1F) as u8 }),
        (w >> 26) & 0x3F == 31 && (w >> 1) & 0x3FF == 86 ==> spec_decode_instruction(w) == (Instruction::Dcbf { ra: ((w >> 16) & 0x1F) as u8, rb: ((w >> 11) & 0x1F) as u8 }),
        (w >> 26) & 0x3F == 31 && (w >> 1) & 0x3FF == 87 ==> spec_decode_instruction(w) == (Instruction::Lbzx { rt: ((w >> 21) & 0x1F) as u8, ra: ((w >> 16) & 0x1F) as u8, rb: ((w >> 11) & 0x1F) as u8 }),
        (w >> 26) & 0x3F == 31 && (w >> 1) & 0x3FF == 104 ==> spec_decode_instruction(w) == (Instruction::Neg { rt: ((w >> 21) & 0x1F) as u8, ra: ((w >> 16) & 0x1F) as u8, oe: ((w >> 10) & 1) != 0, rc: (w & 1) != 0 }),
        (w >> 26) & 0x3F == 31 && (w >> 1) & 0x3FF == 119 ==> spec_decode_instruction(w) == (Instruction::Lbzux { rt: ((w >> 21) & 0x1F) as u8, ra: ((w >> 16) & 0x1F) as u8, rb: ((w >> 11) & 0x1F) as u8 }),
        (w >> 26) & 0x3F == 31 && (w >> 1) & 0x3FF == 124 ==> spec_decode_instruction(w) == (Instruction::Nor { ra: ((w >> 16) & 0x1F) as u8, rs: ((w >> 21) & 0x1F) as u8, rb: ((w >> 11) & 0x1F) as u8, rc: (w & 1) != 0 }),
        (w >> 26) & 0x3F == 31 && (w >> 1) & 0x3FF == 136 ==> spec_decode_instruction(w) == (Instruction::Subfe { rt: ((w >> 21) & 0x1F) as u8, ra: ((w >> 16) & 0x1F) as u8, rb: ((w >> 11) & 0x1F) as u8, oe: ((w >> 10) & 1) != 0, rc: (w & 1) != 0 }),
        (w >> 26) & 0x3F == 31 && (w >> 1) & 0x3FF == 138 ==> spec_decode_instruction(w) == (Instruction::Adde { rt: ((w >> 21) & 0x1F) as u8, ra: ((w >> 16) & 0x1F) as u8, rb: ((w >> 11) & 0x1F) as u8, oe: ((w >> 10) & 1) != 0, rc: (w & 1) != 0 }),
        (w >> 26) & 0x3F == 31 && (w >> 1) & 0x3FF == 144 ==> spec_decode_instruction(w) == (Instruction::Mtcrf { fxm: ((w >> 12) & 0xFF) as u8, rs: ((w >> 21) & 0x1F) as u8 }),
        (w >> 26) & 0x3F == 31 && (w >> 1) & 0x3FF == 146 ==> spec_decode_instruction(w) == (Instruction::Mtmsr { rs: ((w >> 21) & 0x1F) as u8 }),
        (w >> 26) & 0x3F == 31 && (w >> 1) & 0x3FF == 150 ==> spec_decode_instruction(w) == (Instruction::Stwcx { rs: ((w >> 21) & 0x1F) as u8, ra: ((w >> 16) & 0x1F) as u8, rb: ((w >> 11) & 0x1F) as u8 }),
        (w >> 26) & 0x3F == 31 && (w >> 1) & 0x3FF == 151 ==> spec_decode_instruction(w) == (Instruction::Stwx { rs: ((w >> 21) & 0x1F) as u8, ra: ((w >> 16) & 0x1F) as u8, rb: ((w >> 11) & 0x1F) as u8 }),
        (w >> 26) & 0x3F == 31 && (w >> 1) & 0x3FF == 183 ==> spec_decode_instruction(w) == (Instruction::Stwux { rs: ((w >> 21) & 0x1F) as u8, ra: ((w >> 16) & 0x1F) as u8, rb: ((w >> 11) & 0x1F) as u8 }),
        (w >> 26) & 0x3F == 31 && (w >> 1) & 0x3FF == 200 ==> spec_decode_instruction(w) == (Instruction::Subfze { rt: ((w >> 21) & 0x1F) as u8, ra: ((w >> 16) & 0x1F) as u8, oe: ((w >> 10) & 1) != 0, rc: (w & 1) != 0 }),
        (w >> 26) & 0x3F == 31 && (w >> 1) & 0x3FF == 202 ==> spec_decode_instruction(w) == (Instruction::Addze { rt: ((w >> 21) & 0x1F) as u8, ra: ((w >> 16) & 0x1F) as u8, oe: ((w >> 10) & 1) != 0, rc: (w & 1) != 0 }),
        (w >> 26) & 0x3F == 31 && (w >> 1) & 0x3FF == 210 ==> spec_decode_instruction(w) == (Instruction::Mtsr { sr: ((w >> 16) & 0x1F) as u8, rs: ((w >> 21) & 0x1F) as u8 }),
        (w >> 26) & 0x3F == 31 && (w >> 1) & 0x3FF == 215 ==> spec_decode_instruction(w) == (Instruction::Stbx { rs: ((w >> 21) & 0x1F) as u8, ra: ((w >> 16) & 0x1F) as u8, rb: ((w >> 11) & 0x1F) as u8 }),
        (w >> 26) & 0x3F == 31 && (w >> 1) & 0x3FF == 232 ==> spec_decode_instruction(w) == (Instruction::Subfme { rt: ((w >> 21) & 0x1F) as u8, ra: ((w >> 16) & 0x1F) as u8, oe: ((w >> 10) & 1) != 0, rc: (w & 1) != 0 }),
        (w >> 26) & 0x3F == 31 && (w >> 1) & 0x3FF == 234 ==> spec_decode_instruction(w) == (Instruction::Addme { rt: ((w >> 21) & 0x1F) as u8, ra: ((w >> 16) & 0x1F) as u8, oe: ((w >> 10) & 1) != 0, rc: (w & 1) != 0 }),
        (w >> 26) & 0x3F == 31 && (w >> 1) & 0x3FF == 235 ==> spec_decode_instruction(w) == (Instruction::Mullw { rt: ((w >> 21) & 0x1F) as u8, ra: ((w >> 16) & 0x1F) as u8, rb: ((w >> 11) & 0x1F) as u8, oe: ((w >> 10) & 1) != 0, rc: (w & 1) != 0 }),
        (w >> 26) & 0x3F == 31 && (w >> 1) & 0x3FF == 242 ==> spec_decode_instruction(w) == (Instruction::Mtsrin { rs: ((w >> 21) & 0x1F) as u8, rb: ((w >> 11) & 0x1F) as u8 }),
        (w >> 26) & 0x3F == 31 && (w >> 1) & 0x3FF == 246 ==> spec_decode_instruction(w) == (Instruction::Dcbtst { ra: ((w >> 16) & 0x1F) as u8, rb: ((w >> 11) & 0x1F) as u8 }),
        (w >> 26) & 0x3F == 31 && (w >> 1) & 0x3FF == 247 ==> spec_decode_instruction(w) == (Instruction::Stbux { rs: ((w >> 21) & 0x1F) as u8, ra: ((w >> 16) & 0x1F) as u8, rb: ((w >> 11) & 0x1F) as u8 }),
        (w >> 26) & 0x3F == 31 && (w >> 1) & 0x3FF == 266 ==> spec_decode_instruction(w) == (Instruction::Add { rt: ((w >> 21) & 0x1F) as u8, ra: ((w >> 16) & 0x1F) as u8, rb: ((w >> 11) & 0x1F) as u8, oe: ((w >> 10) & 1) != 0, rc: (w & 1) != 0 }),
        (w >> 26) & 0x3F == 31 && (w >> 1) & 0x3FF == 278 ==> spec_decode_instruction(w) == (Instruction::Dcbt { ra: ((w >> 16) & 0x1F) as u8, rb: ((w >> 11) & 0x1F) as u8 }),
        (w >> 26) & 0x3F == 31 && (w >> 1) & 0x3FF == 279 ==> spec_decode_instruction(w) == (Instruction::Lhzx { rt: ((w >> 21) & 0x1F) as u8, ra: ((w >> 16) & 0x1F) as u8, rb: ((w >> 11) & 0x1F) as u8 }),
        (w >> 26) & 0x3F == 31 && (w >> 1) & 0x3FF == 284 ==> spec_decode_instruction(w) == (Instruction::Eqv { ra: ((w >> 16) & 0x1F) as u8, rs: ((w >> 21) & 0x1F) as u8, rb: ((w >> 11) & 0x1F) as u8, rc: (w & 1) != 0 }),
        (w >> 26) & 0x3F == 31 && (w >> 1) & 0x3FF == 306 ==> spec_decode_instruction(w) == (Instruction::Tlbie { rb: ((w >> 11) & 0x1F) as u8 }),
        (w >> 26) & 0x3F == 31 && (w >> 1) & 0x3FF == 310 ==> spec_decode_instruction(w) == (Instruction::Eciwx { rt: ((w >> 21) & 0x1F) as u8, ra: ((w >> 16) & 0x1F) as u8, rb: ((w >> 11) & 0x1F) as u8 }),
        (w >> 26) & 0x3F == 31 && (w >> 1) & 0x3FF == 311 ==> spec_decode_instruction(w) == (Instruction::Lhzux { rt: ((w >> 21) & 0x1F) as u8, ra: ((w >> 16) & 0x1F) as u8, rb: ((w >> 11) & 0x1F) as u8 }),
        (w >> 26) & 0x3F == 31 && (w >> 1) & 0x3FF == 316 ==> spec_decode_instruction(w) == (Instruction::Xor { ra: ((w >> 16) & 0x1F) as u8, rs: ((w >> 21) & 0x1F) as u8, rb: ((w >> 11) & 0x1F) as u8, rc: (w & 1) != 0 }),
        (w >> 26) & 0x3F == 31 && (w >> 1) & 0x3FF == 339 ==> spec_decode_instruction(w) == (Instruction::Mfspr { rt: ((w >> 21) & 0x1F) as u8, spr: ((((w >> 11) & 0x1F) as u16) << 5u16) | (((w >> 16) & 0x1F) as u16) }),
        (w >> 26) & 0x3F == 31 && (w >> 1) & 0x3FF == 343 ==> spec_decode_instruction(w) == (Instruction::Lhax { rt: ((w >> 21) & 0x1F) as u8, ra: ((w >> 16) & 0x1F) as u8, rb: ((w >> 11) & 0x1F) as u8 }),
        (w >> 26) & 0x3F == 31 && (w >> 1) & 0x3FF == 370 ==> spec_decode_instruction(w) == (Instruction::Tlbia),
        (w >> 26) & 0x3F == 31 && (w >> 1) & 0x3FF == 371 ==> spec_decode_instruction(w) == (Instruction::Mftb { rt: ((w >> 21) & 0x1F) as u8, tbr: ((((w >> 11) & 0x1F) as u16) << 5u16) | (((w >> 16) & 0x1F) as u16) }),
        (w >> 26) & 0x3F == 31 && (w >> 1) & 0x3FF == 375 ==> spec_decode_instruction(w) == (Instruction::Lhaux { rt: ((w >> 21) & 0x1F) as u8, ra: ((w >> 16) & 0x1F) as u8, rb: ((w >> 11) & 0x1F) as u8 }),
        (w >> 26) & 0x3F == 31 && (w >> 1) & 0x3FF == 407 ==> spec_decode_instruction(w) == (Instruction::Sthx { rs: ((w >> 21) & 0x1F) as u8, ra: ((w >> 16) & 0x1F) as u8, rb: ((w >> 11) & 0x1F) as u8 }),
        (w >> 26) & 0x3F == 31 && (w >> 1) & 0x3FF == 412 ==> spec_decode_instruction(w) == (Instruction::Orc { ra: ((w >> 16) & 0x1F) as u8, rs: ((w >> 21) & 0x1F) as u8, rb: ((w >> 11) & 0x1F) as u8, rc: (w & 1) != 0 }),
        (w >> 26) & 0x3F == 31 && (w >> 1) & 0x3FF == 438 ==> spec_decode_instruction(w) == (Instruction::Ecowx { rs: ((w >> 21) & 0x1F) as u8, ra: ((w >> 16) & 0x1F) as u8, rb: ((w >> 11) & 0x1F) as u8 }),
        (w >> 26) & 0x3F == 31 && (w >> 1) & 0x3FF == 439 ==> spec_decode_instruction(w) == (Instruction::Sthux { rs: ((w >> 21) & 0x1F) as u8, ra: ((w >> 16) & 0x1F) as u8, rb: ((w >> 11) & 0x1F) as u8 }),
        (w >> 26) & 0x3F == 31 && (w >> 1) & 0x3FF == 444 ==> spec_decode_instruction(w) == (Instruction::Or { ra: ((w >> 16) & 0x1F) as u8, rs: ((w >> 21) & 0x1F) as u8, rb: ((w >> 11) & 0x1F) as u8, rc: (w & 1) != 0 }),
        (w >> 26) & 0x3F == 31 && (w >> 1) & 0x3FF == 459 ==> spec_decode_instruction(w) == (Instruction::Divwu { rt: ((w >> 21) & 0x1F) as u8, ra: ((w >> 16) & 0x1F) as u8, rb: ((w >> 11) & 0x1F) as u8, oe: ((w >> 10) & 1) != 0, rc: (w & 1) != 0 }),
        (w >> 26) & 0x3F == 31 && (w >> 1) & 0x3FF == 467 ==> spec_decode_instruction(w) == (Instruction::Mtspr { spr: ((((w >> 11) & 0x1F) as u16) << 5u16) | (((w >> 16) & 0x1F) as u16), rs: ((w >> 21) & 0x1F) as u8 }),
        (w >> 26) & 0x3F == 31 && (w >> 1) & 0x3FF == 470 ==> spec_decode_instruction(w) == (Instruction::Dcbi { ra: ((w >> 16) & 0x1F) as u8, rb: ((w >> 11) & 0x1F) as u8 }),
        (w >> 26) & 0x3F == 31 && (w >> 1) & 0x3FF == 476 ==> spec_decode_instruction(w) == (Instruction::Nand { ra: ((w >> 16) & 0x1F) as u8, rs: ((w >> 21) & 0x1F) as u8, rb: ((w >> 11) & 0x1F) as u8, rc: (w & 1) != 0 }),
        (w >> 26) & 0x3F == 31 && (w >> 1) & 0x3FF == 491 ==> spec_decode_instruction(w) == (Instruction::Divw { rt: ((w >> 21) & 0x1F) as u8, ra: ((w >> 16) & 0x1F) as u8, rb: ((w >> 11) & 0x1F) as u8, oe: ((w >> 10) & 1) != 0, rc: (w & 1) != 0 }),
        (w >> 26) & 0x3F == 31 && (w >> 1) & 0x3FF == 7 ==> spec_decode_instruction(w) == (Instruction::Lvebx { vd: ((w >> 21) & 0x1F) as u8, ra: ((w >> 16) & 0x1F) as u8, rb: ((w >> 11) & 0x1F) as u8 }),
        (w >> 26) & 0x3F == 31 && (w >> 1) & 0x3FF == 39 ==> spec_decode_instruction(w) == (Instruction::Lvehx { vd: ((w >> 21) & 0x1F) as u8, ra: ((w >> 16) & 0x1F) as u8, rb: ((w >> 11) & 0x1F) as u8 }),
        (w >> 26) & 0x3F == 31 && (w >> 1) & 0x3FF == 71 ==> spec_decode_instruction(w) == (Instruction::Lvewx { vd: ((w >> 21) & 0x1F) as u8, ra: ((w >> 16) & 0x1F) as u8, rb: ((w >> 11) & 0x1F) as u8 }),
        (w >> 26) & 0x3F == 31 && (w >> 1) & 0x3FF == 103 ==> spec_decode_instruction(w) == (Instruction::Lvx { vd: ((w >> 21) & 0x1F) as u8, ra: ((w >> 16) & 0x1F) as u8, rb: ((w >> 11) & 0x1F) as u8 }),
        (w >> 26) & 0x3F == 31 && (w >> 1) & 0x3FF == 359 ==> spec_decode_instruction(w) == (Instruction::Lvxl { vd: ((w >> 21) & 0x1F) as u8, ra: ((w >> 16) & 0x1F) as u8, rb: ((w >> 11) & 0x1F) as u8 }),
        (w >> 26) & 0x3F == 31 && (w >> 1) & 0x3FF == 6 ==> spec_decode_instruction(w) == (Instruction::Lvsl { vd: ((w >> 21) & 0x1F) as u8, ra: ((w >> 16) & 0x1F) as u8, rb: ((w >> 11) & 0x1F) as u8 }),
        (w >> 26) & 0x3F == 31 && (w >> 1) & 0x3FF == 38 ==> spec_decode_instruction(w) == (Instruction::Lvsr { vd: ((w >> 21) & 0x1F) as u8, ra: ((w >> 16) & 0x1F) as u8, rb: ((w >> 11) & 0x1F) as u8 }),
        (w >> 26) & 0x3F == 31 && (w >> 1) & 0x3FF == 135 ==> spec_decode_instruction(w) == (Instruction::Stvebx { vs: ((w >> 21) & 0x1F) as u8, ra: ((w >> 16) & 0x1F) as u8, rb: ((w >> 11) & 0x1F) as u8 }),
        (w >> 26) & 0x3F == 31 && (w >> 1) & 0x3FF == 167 ==> spec_decode_instruction(w) == (Instruction::Stvehx { vs: ((w >> 21) & 0x1F) as u8, ra: ((w >> 16) & 0x1F) as u8, rb: ((w >> 11) & 0x1F) as u8 }),
        (w >> 26) & 0x3F == 31 && (w >> 1) & 0x3FF == 199 ==> spec_decode_instruction(w) == (Instruction::Stvewx { vs: ((w >> 21) & 0x1F) as u8, ra: ((w >> 16) & 0x1F) as u8, rb: ((w >> 11) & 0x1F) as u8 }),
        (w >> 26) & 0x3F == 31 && (w >> 1) & 0x3FF == 231 ==> spec_decode_instruction(w) == (Instruction::Stvx { vs: ((w >> 21) & 0x1F) as u8, ra: ((w >> 16) & 0x1F) as u8, rb: ((w >> 11) & 0x1F) as u8 }),
        (w >> 26) & 0x3F == 31 && (w >> 1) & 0x3FF == 487 ==> spec_decode_instruction(w) == (Instruction::Stvxl { vs: ((w >> 21) & 0x1F) as u8, ra: ((w >> 16) & 0x1F) as u8, rb: ((w >> 11) & 0x1F) as u8 }),
        (w >> 26) & 0x3F == 31 && (w >> 1) & 0x3FF == 512 ==> spec_decode_instruction(w) == (Instruction::Mcrxr { crfd: ((w >> 23) & 0x7) as u8 }),
        (w >> 26) & 0x3F == 31 && (w >> 1) & 0x3FF == 533 ==> spec_decode_instruction(w) == (Instruction::Lswx { rt: ((w >> 21) & 0x1F) as u8, ra: ((w >> 16) & 0x1F) as u8, rb: ((w >> 11) & 0x1F) as u8 }),
        (w >> 26) & 0x3F == 31 && (w >> 1) & 0x3FF == 534 ==> spec_decode_instruction(w) == (Instruction::Lwbrx { rt: ((w >> 21) & 0x1F) as u8, ra: ((w >> 16) & 0x1F) as u8, rb: ((w >> 11) & 0x1F) as u8 }),
        (w >> 26) & 0x3F == 31 && (w >> 1) & 0x3FF == 536 ==> spec_decode_instruction(w) == (Instruction::Srw { ra: ((w >> 16) & 0x1F) as u8, rs: ((w >> 21) & 0x1F) as u8, rb: ((w >> 11) & 0x1F) as u8, rc: (w & 1) != 0 }),
        (w >> 26) & 0x3F == 31 && (w >> 1) & 0x3FF == 566 ==> spec_decode_instruction(w) == (Instruction::Tlbsync),
        (w >> 26) & 0x3F == 31 && (w >> 1) & 0x3FF == 595 ==> spec_decode_instruction(w) == (Instruction::Mfsr { rt: ((w >> 21) & 0x1F) as u8, sr: ((w >> 16) & 0x1F) as u8 }),
        (w >> 26) & 0x3F == 31 && (w >> 1) & 0x3FF == 597 ==> spec_decode_instruction(w) == (Instruction::Lswi { rt: ((w >> 21) & 0x1F) as u8, ra: ((w >> 16) & 0x1F) as u8, nb: ((w >> 11) & 0x1F) as u8 }),
        (w >> 26) & 0x3F == 31 && (w >> 1) & 0x3FF == 598 ==> spec_decode_instruction(w) == (Instruction::Sync),
        (w >> 26) & 0x3F == 31 && (w >> 1) & 0x3FF == 659 ==> spec_decode_instruction(w) == (Instruction::Mfsrin { rt: ((w >> 21) & 0x1F) as u8, rb: ((w >> 11) & 0x1F) as u8 }),
        (w >> 26) & 0x3F == 31 && (w >> 1) & 0x3FF == 661 ==> spec_decode_instruction(w) == (Instruction::Stswx { rs: ((w >> 21) & 0x1F) as u8, ra: ((w >> 16) & 0x1F) as u8, rb: ((w >> 11) & 0x1F) as u8 }),
        (w >> 26) & 0x3F == 31 && (w >> 1) & 0x3FF == 662 ==> spec_decode_instruction(w) == (Instruction::Stwbrx { rs: ((w >> 21) & 0x1F) as u8, ra: ((w >> 16) & 0x1F) as u8, rb: ((w >> 11) & 0x1F) as u8 }),
        (w >> 26) & 0x3F == 31 && (w >> 1) & 0x3FF == 725 ==> spec_decode_instruction(w) == (Instruction::Stswi { rs: ((w >> 21) & 0x1F) as u8, ra: ((w >> 16) & 0x1F) as u8, nb: ((w >> 11) & 0x1F) as u8 }),
        (w >> 26) & 0x3F == 31 && (w >> 1) & 0x3FF == 790 ==> spec_decode_instruction(w) == (Instruction::Lhbrx { rt: ((w >> 21) & 0x1F) as u8, ra: ((w >> 16) & 0x1F) as u8, rb: ((w >> 11) & 0x1F) as u8 }),
        (w >> 26) & 0x3F == 31 && (w >> 1) & 0x3FF == 792 ==> spec_decode_instruction(w) == (Instruction::Sraw { ra: ((w >> 16) & 0x1F) as u8, rs: ((w >> 21) & 0x1F) as u8, rb: ((w >> 11) & 0x1F) as u8, rc: (w & 1) != 0 }),
        (w >> 26) & 0x3F == 31 && (w >> 1) & 0x3FF == 824 ==> spec_decode_instruction(w) == (Instruction::Srawi { ra: ((w >> 16) & 0x1F) as u8, rs: ((w >> 21) & 0x1F) as u8, sh: ((w >> 11) & 0x1F) as u8, rc: (w & 1) != 0 }),
        (w >> 26) & 0x3F == 31 && (w >> 1) & 0x3FF == 854 ==> spec_decode_instruction(w) == (Instruction::Eieio),
        (w >> 26) & 0x3F == 31 && (w >> 1) & 0x3FF == 918 ==> spec_decode_instruction(w) == (Instruction::Sthbrx { rs: ((w >> 21) & 0x1F) as u8, ra: ((w >> 16) & 0x1F) as u8, rb: ((w >> 11) & 0x1F) as u8 }),
        (w >> 26) & 0x3F == 31 && (w >> 1) & 0x3FF == 922 ==> spec_decode_instruction(w) == (Instruction::Extsh { ra: ((w >> 16) & 0x1F) as u8, rs: ((w >> 21) & 0x1F) as u8, rc: (w & 1) != 0 }),
        (w >> 26) & 0x3F == 31 && (w >> 1) & 0x3FF == 954 ==> spec_decode_instruction(w) == (Instruction::Extsb { ra: ((w >> 16) & 0x1F) as u8, rs: ((w >> 21) & 0x1F) as u8, rc: (w & 1) != 0 }),
        (w >> 26) & 0x3F == 31 && (w >> 1) & 0x3FF == 982 ==> spec_decode_instruction(w) == (Instruction::Icbi { ra: ((w >> 16) & 0x1F) as u8, rb: ((w >> 11) & 0x1F) as u8 }),
        (w >> 26) & 0x3F == 31 && (w >> 1) & 0x3FF == 1014 ==> spec_decode_instruction(w) == (Instruction::Dcbz { ra: ((w >> 16) & 0x1F) as u8, rb: ((w >> 11) & 0x1F) as u8 }),
{
}

/// The single-precision arithmetic of opcode 59 (A-form, extended opcode
/// in bits 1-5) takes frt from bits 21-25, fra from bits 16-20, frb from
/// bits 11-15, frc from bits 6-10 and the record bit from bit 0.
pub proof fn law_extended_59_operands(w: u32)
    ensures
        (w >> 26) & 0x3F == 59 && (w >> 1) & 0x1F == 18 ==> spec_decode_instruction(w) == (Instruction::Fdivs { frt: ((w >> 21) & 0x1F) as u8, fra: ((w >> 16) & 0x1F) as u8, frb: ((w >> 11) & 0x1F) as u8, rc: (w & 1) != 0 }),
        (w >> 26) & 0x3F == 59 && (w >> 1) & 0x1F == 20 ==> spec_decode_instruction(w) == (Instruction::Fsubs { frt: ((w >> 21) & 0x1F) as u8, fra: ((w >> 16) & 0x1F) as u8, frb: ((w >> 11) & 0x1F) as u8, rc: (w & 1) != 0 }),
        (w >> 26) & 0x3F == 59 && (w >> 1) & 0x1F == 21 ==> spec_decode_instruction(w) == (Instruction::Fadds { frt: ((w >> 21) & 0x1F) as u8, fra: ((w >> 16) & 0x1F) as u8, frb: ((w >> 11) & 0x1F) as u8, rc: (w & 1) != 0 }),
        (w >> 26) & 0x3F == 59 && (w >> 1) & 0x1F == 22 ==> spec_decode_instruction(w) == (Instruction::Fsqrts { frt: ((w >> 21) & 0x1F) as u8, frb: ((w >> 11) & 0x1F) as u8, rc: (w & 1) != 0 }),
        (w >> 26) & 0x3F == 59 && (w >> 1) & 0x1F == 25 ==> spec_decode_instruction(w) == (Instruction::Fmuls { frt: ((w >> 21) & 0x1F) as u8, fra: ((w >> 16) & 0x1F) as u8, frc: ((w >> 6) & 0x1F) as u8, rc: (w & 1) != 0 }),
        (w >> 26) & 0x3F == 59 && (w >> 1) & 0x1F == 28 ==> spec_decode_instruction(w) == (Instruction::Fmsubs { frt: ((w >> 21) & 0x1F) as u8, fra: ((w >> 16) & 0x1F) as u8, frc: ((w >> 6) & 0x1F) as u8, frb: ((w >> 11) & 0x1F) as u8, rc: (w & 1) != 0 }),
        (w >> 26) & 0x3F == 59 && (w >> 1) & 0x1F == 29 ==> spec_decode_instruction(w) == (Instruction::Fmadds { frt: ((w >> 21) & 0x1F) as u8, fra: ((w >> 16) & 0x1F) as u8, frc: ((w >> 6) & 0x1F) as u8, frb: ((w >> 11) & 0x1F) as u8, rc: (w & 1) != 0 }),
        (w >> 26) & 0x3F == 59 && (w >> 1) & 0x1F == 30 ==> spec_decode_instruction(w) == (Instruction::Fnmsubs { frt: ((w >> 21) & 0x1F) as u8, fra: ((w >> 16) & 0x1F) as u8, frc: ((w >> 6) & 0x1F) as u8, frb: ((w >> 11) & 0x1F) as u8, rc: (w & 1) != 0 }),
        (w >> 26) & 0x3F == 59 && (w >> 1) & 0x1F == 31 ==> spec_decode_instruction(w) == (Instruction::Fnmadds { frt: ((w >> 21) & 0x1F) as u8, fra: ((w >> 16) & 0x1F) as u8, frc: ((w >> 6) & 0x1F) as u8, frb: ((w >> 11) & 0x1F) as u8, rc: (w & 1) != 0 }),
{
}

/// The double-precision instructions of opcode 63 with a ten-bit
/// extended opcode (bits 1-10) take frt from bits 21-25, fra from bits
/// 16-20, frb from bits 11-15, a CR field from bits 23-25 and the record
/// bit from bit 0.
pub proof fn law_extended_63_operands(w: u32)
    ensures
        (w >> 26) & 0x3F == 63 && (w >> 1) & 0x3FF == 12 ==> spec_decode_instruction(w) == (Instruction::Frsp { frt: ((w >> 21) & 0x1F) as u8, frb: ((w >> 11) & 0x1F) as u8, rc: (w & 1) != 0 }),
        (w >> 26) & 0x3F == 63 && (w >> 1) & 0x3FF == 14 ==> spec_decode_instruction(w) == (Instruction::Fctiwz { frt: ((w >> 21) & 0x1F) as u8, frb: ((w >> 11) & 0x1F) as u8, rc: (w & 1) != 0 }),
        (w >> 26) & 0x3F == 63 && (w >> 1) & 0x3FF == 18 ==> spec_decode_instruction(w) == (Instruction::Fdiv { frt: ((w >> 21) & 0x1F) as u8, fra: ((w >> 16) & 0x1F) as u8, frb: ((w >> 11) & 0x1F) as u8, rc: (w & 1) != 0 }),
        (w >> 26) & 0x3F == 63 && (w >> 1) & 0x3FF == 20 ==> spec_decode_instruction(w) == (Instruction::Fsub { frt: ((w >> 21) & 0x1F) as u8, fra: ((w >> 16) & 0x1F) as u8, frb: ((w >> 11) & 0x1F) as u8, rc: (w & 1) != 0 }),
        (w >> 26) & 0x3F == 63 && (w >> 1) & 0x3FF == 21 ==> spec_decode_instruction(w) == (Instruction::Fadd { frt: ((w >> 21) & 0x1F) as u8, fra: ((w >> 16) & 0x1F) as u8, frb: ((w >> 11) & 0x1F) as u8, rc: (w & 1) != 0 }),
        (w >> 26) & 0x3F == 63 && (w >> 1) & 0x3FF == 22 ==> spec_decode_instruction(w) == (Instruction::Fsqrt { frt: ((w >> 21) & 0x1F) as u8, frb: ((w >> 11) & 0x1F) as u8, rc: (w & 1) != 0 }),
        (w >> 26) & 0x3F == 63 && (w >> 1) & 0x3FF == 25 ==> spec_decode_instruction(w) == (Instruction::Fmul { frt: ((w >> 21) & 0x1F) as u8, fra: ((w >> 16) & 0x1F) as u8, frc: ((w >> 6) & 0x1F) as u8, rc: (w & 1) != 0 }),
        (w >> 26) & 0x3F == 63 && (w >> 1) & 0x3FF == 28 ==> spec_decode_instruction(w) == (Instruction::Fmsub { frt: ((w >> 21) & 0x1F) as u8, fra: ((w >> 16) & 0x1F) as u8, frc: ((w >> 6) & 0x1F) as u8, frb: ((w >> 11) & 0x1F) as u8, rc: (w & 1) != 0 }),
        (w >> 26) & 0x3F == 63 && (w >> 1) & 0x3FF == 29 ==> spec_decode_instruction(w) == (Instruction::Fmadd { frt: ((w >> 21) & 0x1F) as u8, fra: ((w >> 16) & 0x1F) as u8, frc: ((w >> 6) & 0x1F) as u8, frb: ((w >> 11) & 0x1F) as u8, rc: (w & 1) != 0 }),
        (w >> 26) & 0x3F == 63 && (w >> 1) & 0x3FF == 30 ==> spec_decode_instruction(w) == (Instruction::Fnmsub { frt: ((w >> 21) & 0x1F) as u8, fra: ((w >> 16) & 0x1F) as u8, frc: ((w >> 6) & 0x1F) as u8, frb: ((w >> 11) & 0x1F) as u8, rc: (w & 1) != 0 }),
        (w >> 26) & 0x3F == 63 && (w >> 1) & 0x3FF == 31 ==> spec_decode_instruction(w) == (Instruction::Fnmadd { frt: ((w >> 21) & 0x1F) as u8, fra: ((w >> 16) & 0x1F) as u8, frc: ((w >> 6) & 0x1F) as u8, frb: ((w >> 11) & 0x1F) as u8, rc: (w & 1) != 0 }),
        (w >> 26) & 0x3F == 63 && (w >> 1) & 0x3FF == 40 ==> spec_decode_instruction(w) == (Instruction::Fneg { frt: ((w >> 21) & 0x1F) as u8, frb: ((w >> 11) & 0x1F) as u8, rc: (w & 1) != 0 }),
        (w >> 26) & 0x3F == 63 && (w >> 1) & 0x3FF == 72 ==> spec_decode_instruction(w) == (Instruction::Fmr { frt: ((w >> 21) & 0x1F) as u8, frb: ((w >> 11) & 0x1F) as u8, rc: (w & 1) != 0 }),
        (w >> 26) & 0x3F == 63 && (w >> 1) & 0x3FF == 264 ==> spec_decode_instruction(w) == (Instruction::Fabs { frt: ((w >> 21) & 0x1F) as u8, frb: ((w >> 11) & 0x1F) as u8, rc: (w & 1) != 0 }),
{
}

/// The AltiVec instructions of opcode 4 with an eleven-bit extended
/// opcode (bits 0-10) take vd or vs from bits 21-25, va (or an unsigned
/// immediate) from bits 16-20, vb from bits 11-15 and vc from bits 6-10.
pub proof fn law_altivec_operands(w: u32)
    ensures
        (w >> 26) & 0x3F == 4 && w & 0x7FF == 10 ==> spec_decode_instruction(w) == (Instruction::Vaddfp { vd: ((w >> 21) & 0x1F) as u8, va: ((w >> 16) & 0x1F) as u8, vb: ((w >> 11) & 0x1F) as u8 }),
        (w >> 26) & 0x3F == 4 && w & 0x7FF == 74 ==> spec_decode_instruction(w) == (Instruction::Vsubfp { vd: ((w >> 21) & 0x1F) as u8, va: ((w >> 16) & 0x1F) as u8, vb: ((w >> 11) & 0x1F) as u8 }),
        (w >> 26) & 0x3F == 4 && w & 0x7FF == 46 ==> spec_decode_instruction(w) == (Instruction::Vmaddfp { vd: ((w >> 21) & 0x1F) as u8, va: ((w >> 16) & 0x1F) as u8, vb: ((w >> 11) & 0x1F) as u8, vc: ((w >> 6) & 0x1F) as u8 }),
        (w >> 26) & 0x3F == 4 && w & 0x7FF == 47 ==> spec_decode_instruction(w) == (Instruction::Vnmsubfp { vd: ((w >> 21) & 0x1F) as u8, va: ((w >> 16) & 0x1F) as u8, vb: ((w >> 11) & 0x1F) as u8, vc: ((w >> 6) & 0x1F) as u8 }),
        (w >> 26) & 0x3F == 4 && w & 0x7FF == 0 ==> spec_decode_instruction(w) == (Instruction::Vaddubm { vd: ((w >> 21) & 0x1F) as u8, va: ((w >> 16) & 0x1F) as u8, vb: ((w >> 11) & 0x1F) as u8 }),
        (w >> 26) & 0x3F == 4 && w & 0x7FF == 64 ==> spec_decode_instruction(w) == (Instruction::Vadduhm { vd: ((w >> 21) & 0x1F) as u8, va: ((w >> 16) & 0x1F) as u8, vb: ((w >> 11) & 0x1F) as u8 }),
        (w >> 26) & 0x3F == 4 && w & 0x7FF == 128 ==> spec_decode_instruction(w) == (Instruction::Vadduwm { vd: ((w >> 21) & 0x1F) as u8, va: ((w >> 16) & 0x1F) as u8, vb: ((w >> 11) & 0x1F) as u8 }),
        (w >> 26) & 0x3F == 4 && w & 0x7FF == 1024 ==> spec_decode_instruction(w) == (Instruction::Vsububm { vd: ((w >> 21) & 0x1F) as u8, va: ((w >> 16) & 0x1F) as u8, vb: ((w >> 11) & 0x1F) as u8 }),
        (w >> 26) & 0x3F == 4 && w & 0x7FF == 1088 ==> spec_decode_instruction(w) == (Instruction::Vsubuhm { vd: ((w >> 21) & 0x1F) as u8, va: ((w >> 16) & 0x1F) as u8, vb: ((w >> 11) & 0x1F) as u8 }),
        (w >> 26) & 0x3F == 4 && w & 0x7FF == 1152 ==> spec_decode_instruction(w) == (Instruction::Vsubuwm { vd: ((w >> 21) & 0x1F) as u8, va: ((w >> 16) & 0x1F) as u8, vb: ((w >> 11) & 0x1F) as u8 }),
        (w >> 26) & 0x3F == 4 && w & 0x7FF == 512 ==> spec_decode_instruction(w) == (Instruction::Vaddubs { vd: ((w >> 21) & 0x1F) as u8, va: ((w >> 16) & 0x1F) as u8, vb: ((w >> 11) & 0x1F) as u8 }),
        (w >> 26) & 0x3F == 4 && w & 0x7FF == 576 ==> spec_decode_instruction(w) == (Instruction::Vadduhs { vd: ((w >> 21) & 0x1F) as u8, va: ((w >> 16) & 0x1F) as u8, vb: ((w >> 11) & 0x1F) as u8 }),
        (w >> 26) & 0x3F == 4 && w & 0x7FF == 640 ==> spec_decode_instruction(w) == (Instruction::Vadduws { vd: ((w >> 21) & 0x1F) as u8, va: ((w >> 16) & 0x1F) as u8, vb: ((w >> 11) & 0x1F) as u8 }),
        (w >> 26) & 0x3F == 4 && w & 0x7FF == 768 ==> spec_decode_instruction(w) == (Instruction::Vaddsbs { vd: ((w >> 21) & 0x1F) as u8, va: ((w >> 16) & 0x1F) as u8, vb: ((w >> 11) & 0x1F) as u8 }),
        (w >> 26) & 0x3F == 4 && w & 0x7FF == 832 ==> spec_decode_instruction(w) == (Instruction::Vaddshs { vd: ((w >> 21) & 0x1F) as u8, va: ((w >> 16) & 0x1F) as u8, vb: ((w >> 11) & 0x1F) as u8 }),
        (w >> 26) & 0x3F == 4 && w & 0x7FF == 896 ==> spec_decode_instruction(w) == (Instruction::Vaddsws { vd: ((w >> 21) & 0x1F) as u8, va: ((w >> 16) & 0x1F) as u8, vb: ((w >> 11) & 0x1F) as u8 }),
        (w >> 26) & 0x3F == 4 && w & 0x7FF == 258 ==> spec_decode_instruction(w) == (Instruction::Vmaxsb { vd: ((w >> 21) & 0x1F) as u8, va: ((w >> 16) & 0x1F) as u8, vb: ((w >> 11) & 0x1F) as u8 }),
        (w >> 26) & 0x3F == 4 && w & 0x7FF == 322 ==> spec_decode_instruction(w) == (Instruction::Vmaxsh { vd: ((w >> 21) & 0x1F) as u8, va: ((w >> 16) & 0x1F) as u8, vb: ((w >> 11) & 0x1F) as u8 }),
        (w >> 26) & 0x3F == 4 && w & 0x7FF == 386 ==> spec_decode_instruction(w) == (Instruction::Vmaxsw { vd: ((w >> 21) & 0x1F) as u8, va: ((w >> 16) & 0x1F) as u8, vb: ((w >> 11) & 0x1F) as u8 }),
        (w >> 26) & 0x3F == 4 && w & 0x7FF == 2 ==> spec_decode_instruction(w) == (Instruction::Vmaxub { vd: ((w >> 21) & 0x1F) as u8, va: ((w >> 16) & 0x1F) as u8, vb: ((w >> 11) & 0x1F) as u8 }),
        (w >> 26) & 0x3F == 4 && w & 0x7FF == 66 ==> spec_decode_instruction(w) == (Instruction::Vmaxuh { vd: ((w >> 21) & 0x1F) as u8, va: ((w >> 16) & 0x1F) as u8, vb: ((w >> 11) & 0x1F) as u8 }),
        (w >> 26) & 0x3F == 4 && w & 0x7FF == 130 ==> spec_decode_instruction(w) == (Instruction::Vmaxuw { vd: ((w >> 21) & 0x1F) as u8, va: ((w >> 16) & 0x1F) as u8, vb: ((w >> 11) & 0x1F) as u8 }),
        (w >> 26) & 0x3F == 4 && w & 0x7FF == 1034 ==> spec_decode_instruction(w) == (Instruction::Vmaxfp { vd: ((w >> 21) & 0x1F) as u8, va: ((w >> 16) & 0x1F) as u8, vb: ((w >> 11) & 0x1F) as u8 }),
        (w >> 26) & 0x3F == 4 && w & 0x7FF == 770 ==> spec_decode_instruction(w) == (Instruction::Vminsb { vd: ((w >> 21) & 0x1F) as u8, va: ((w >> 16) & 0x1F) as u8, vb: ((w >> 11) & 0x1F) as u8 }),
        (w >> 26) & 0x3F == 4 && w & 0x7FF == 834 ==> spec_decode_instruction(w) == (Instruction::Vminsh { vd: ((w >> 21) & 0x1F) as u8, va: ((w >> 16) & 0x1F) as u8, vb: ((w >> 11) & 0x1F) as u8 }),
        (w >> 26) & 0x3F == 4 && w & 0x7FF == 898 ==> spec_decode_instruction(w) == (Instruction::Vminsw { vd: ((w >> 21) & 0x1F) as u8, va: ((w >> 16) & 0x1F) as u8, vb: ((w >> 11) & 0x1F) as u8 }),
        (w >> 26) & 0x3F == 4 && w & 0x7FF == 514 ==> spec_decode_instruction(w) == (Instruction::Vminub { vd: ((w >> 21) & 0x1F) as u8, va: ((w >> 16) & 0x1F) as u8, vb: ((w >> 11) & 0x1F) as u8 }),
        (w >> 26) & 0x3F == 4 && w & 0x7FF == 578 ==> spec_decode_instruction(w) == (Instruction::Vminuh { vd: ((w >> 21) & 0x1F) as u8, va: ((w >> 16) & 0x1F) as u8, vb: ((w >> 11) & 0x1F) as u8 }),
        (w >> 26) & 0x3F == 4 && w & 0x7FF == 642 ==> spec_decode_instruction(w) == (Instruction::Vminuw { vd: ((w >> 21) & 0x1F) as u8, va: ((w >> 16) & 0x1F) as u8, vb: ((w >> 11) & 0x1F) as u8 }),
        (w >> 26) & 0x3F == 4 && w & 0x7FF == 1098 ==> spec_decode_instruction(w) == (Instruction::Vminfp { vd: ((w >> 21) & 0x1F) as u8, va: ((w >> 16) & 0x1F) as u8, vb: ((w >> 11) & 0x1F) as u8 }),
        (w >> 26) & 0x3F == 4 && w & 0x7FF == 1026 ==> spec_decode_instruction(w) == (Instruction::Vavgub { vd: ((w >> 21) & 0x1F) as u8, va: ((w >> 16) & 0x1F) as u8, vb: ((w >> 11) & 0x1F) as u8 }),
        (w >> 26) & 0x3F == 4 && w & 0x7FF == 1090 ==> spec_decode_instruction(w) == (Instruction::Vavguh { vd: ((w >> 21) & 0x1F) as u8, va: ((w >> 16) & 0x1F) as u8, vb: ((w >> 11) & 0x1F) as u8 }),
        (w >> 26) & 0x3F == 4 && w & 0x7FF == 1154 ==> spec_decode_instruction(w) == (Instruction::Vavguw { vd: ((w >> 21) & 0x1F) as u8, va: ((w >> 16) & 0x1F) as u8, vb: ((w >> 11) & 0x1F) as u8 }),
        (w >> 26) & 0x3F == 4 && w & 0x7FF == 1282 ==> spec_decode_instruction(w) == (Instruction::Vavgsb { vd: ((w >> 21) & 0x1F) as u8, va: ((w >> 16) & 0x1F) as u8, vb: ((w >> 11) & 0x1F) as u8 }),
        (w >> 26) & 0x3F == 4 && w & 0x7FF == 1346 ==> spec_decode_instruction(w) == (Instruction::Vavgsh { vd: ((w >> 21) & 0x1F) as u8, va: ((w >> 16) & 0x1F) as u8, vb: ((w >> 11) & 0x1F) as u8 }),
        (w >> 26) & 0x3F == 4 && w & 0x7FF == 1410 ==> spec_decode_instruction(w) == (Instruction::Vavgsw { vd: ((w >> 21) & 0x1F) as u8, va: ((w >> 16) & 0x1F) as u8, vb: ((w >> 11) & 0x1F) as u8 }),
        (w >> 26) & 0x3F == 4 && w & 0x7FF == 520 ==> spec_decode_instruction(w) == (Instruction::Vmuleub { vd: ((w >> 21) & 0x1F) as u8, va: ((w >> 16) & 0x1F) as u8, vb: ((w >> 11) & 0x1F) as u8 }),
        (w >> 26) & 0x3F == 4 && w & 0x7FF == 8 ==> spec_decode_instruction(w) == (Instruction::Vmuloub { vd: ((w >> 21) & 0x1F) as u8, va: ((w >> 16) & 0x1F) as u8, vb: ((w >> 11) & 0x1F) as u8 }),
        (w >> 26) & 0x3F == 4 && w & 0x7FF == 776 ==> spec_decode_instruction(w) == (Instruction::Vmulesb { vd: ((w >> 21) & 0x1F) as u8, va: ((w >> 16) & 0x1F) as u8, vb: ((w >> 11) & 0x1F) as u8 }),
        (w >> 26) & 0x3F == 4 && w & 0x7FF == 264 ==> spec_decode_instruction(w) == (Instruction::Vmulosb { vd: ((w >> 21) & 0x1F) as u8, va: ((w >> 16) & 0x1F) as u8, vb: ((w >> 11) & 0x1F) as u8 }),
        (w >> 26) & 0x3F == 4 && w & 0x7FF == 584 ==> spec_decode_instruction(w) == (Instruction::Vmuleuh { vd: ((w >> 21) & 0x1F) as u8, va: ((w >> 16) & 0x1F) as u8, vb: ((w >> 11) & 0x1F) as u8 }),
        (w >> 26) & 0x3F == 4 && w & 0x7FF == 72 ==> spec_decode_instruction(w) == (Instruction::Vmulouh { vd: ((w >> 21) & 0x1F) as u8, va: ((w >> 16) & 0x1F) as u8, vb: ((w >> 11) & 0x1F) as u8 }),
        (w >> 26) & 0x3F == 4 && w & 0x7FF == 840 ==> spec_decode_instruction(w) == (Instruction::Vmulesh { vd: ((w >> 21) & 0x1F) as u8, va: ((w >> 16) & 0x1F) as u8, vb: ((w >> 11) & 0x1F) as u8 }),
        (w >> 26) & 0x3F == 4 && w & 0x7FF == 328 ==> spec_decode_instruction(w) == (Instruction::Vmulosh { vd: ((w >> 21) & 0x1F) as u8, va: ((w >> 16) & 0x1F) as u8, vb: ((w >> 11) & 0x1F) as u8 }),
        (w >> 26) & 0x3F == 4 && w & 0x7FF == 1028 ==> spec_decode_instruction(w) == (Instruction::Vand { vd: ((w >> 21) & 0x1F) as u8, va: ((w >> 16) & 0x1F) as u8, vb: ((w >> 11) & 0x1F) as u8 }),
        (w >> 26) & 0x3F == 4 && w & 0x7FF == 1092 ==> spec_decode_instruction(w) == (Instruction::Vandc { vd: ((w >> 21) & 0x1F) as u8, va: ((w >> 16) & 0x1F) as u8, vb: ((w >> 11) & 0x1F) as u8 }),
        (w >> 26) & 0x3F == 4 && w & 0x7FF == 1156 ==> spec_decode_instruction(w) == (Instruction::Vor { vd: ((w >> 21) & 0x1F) as u8, va: ((w >> 16) & 0x1F) as u8, vb: ((w >> 11) & 0x1F) as u8 }),
        (w >> 26) & 0x3F == 4 && w & 0x7FF == 1284 ==> spec_decode_instruction(w) == (Instruction::Vnor { vd: ((w >> 21) & 0x1F) as u8, va: ((w >> 16) & 0x1F) as u8, vb: ((w >> 11) & 0x1F) as u8 }),
        (w >> 26) & 0x3F == 4 && w & 0x7FF == 1220 ==> spec_decode_instruction(w) == (Instruction::Vxor { vd: ((w >> 21) & 0x1F) as u8, va: ((w >> 16) & 0x1F) as u8, vb: ((w >> 11) & 0x1F) as u8 }),
        (w >> 26) & 0x3F == 4 && w & 0x7FF == 260 ==> spec_decode_instruction(w) == (Instruction::Vslb { vd: ((w >> 21) & 0x1F) as u8, va: ((w >> 16) & 0x1F) as u8, vb: ((w >> 11) & 0x1F) as u8 }),
        (w >> 26) & 0x3F == 4 && w & 0x7FF == 324 ==> spec_decode_instruction(w) == (Instruction::Vslh { vd: ((w >> 21) & 0x1F) as u8, va: ((w >> 16) & 0x1F) as u8, vb: ((w >> 11) & 0x1F) as u8 }),
        (w >> 26) & 0x3F == 4 && w & 0x7FF == 388 ==> spec_decode_instruction(w) == (Instruction::Vslw { vd: ((w >> 21) & 0x1F) as u8, va: ((w >> 16) & 0x1F) as u8, vb: ((w >> 11) & 0x1F) as u8 }),
        (w >> 26) & 0x3F == 4 && w & 0x7FF == 516 ==> spec_decode_instruction(w) == (Instruction::Vsrb { vd: ((w >> 21) & 0x1F) as u8, va: ((w >> 16) & 0x1F) as u8, vb: ((w >> 11) & 0x1F) as u8 }),
        (w >> 26) & 0x3F == 4 && w & 0x7FF == 580 ==> spec_decode_instruction(w) == (Instruction::Vsrh { vd: ((w >> 21) & 0x1F) as u8, va: ((w >> 16) & 0x1F) as u8, vb: ((w >> 11) & 0x1F) as u8 }),
        (w >> 26) & 0x3F == 4 && w & 0x7FF == 644 ==> spec_decode_instruction(w) == (Instruction::Vsrw { vd: ((w >> 21) & 0x1F) as u8, va: ((w >> 16) & 0x1F) as u8, vb: ((w >> 11) & 0x1F) as u8 }),
        (w >> 26) & 0x3F == 4 && w & 0x7FF == 772 ==> spec_decode_instruction(w) == (Instruction::Vsrab { vd: ((w >> 21) & 0x1F) as u8, va: ((w >> 16) & 0x1F) as u8, vb: ((w >> 11) & 0x1F) as u8 }),
        (w >> 26) & 0x3F == 4 && w & 0x7FF == 836 ==> spec_decode_instruction(w) == (Instruction::Vsrah { vd: ((w >> 21) & 0x1F) as u8, va: ((w >> 16) & 0x1F) as u8, vb: ((w >> 11) & 0x1F) as u8 }),
        (w >> 26) & 0x3F == 4 && w & 0x7FF == 900 ==> spec_decode_instruction(w) == (Instruction::Vsraw { vd: ((w >> 21) & 0x1F) as u8, va: ((w >> 16) & 0x1F) as u8, vb: ((w >> 11) & 0x1F) as u8 }),
        (w >> 26) & 0x3F == 4 && w & 0x7FF == 4 ==> spec_decode_instruction(w) == (Instruction::Vrlb { vd: ((w >> 21) & 0x1F) as u8, va: ((w >> 16) & 0x1F) as u8, vb: ((w >> 11) & 0x1F) as u8 }),
        (w >> 26) & 0x3F == 4 && w & 0x7FF == 68 ==> spec_decode_instruction(w) == (Instruction::Vrlh { vd: ((w >> 21) & 0x1F) as u8, va: ((w >> 16) & 0x1F) as u8, vb: ((w >> 11) & 0x1F) as u8 }),
        (w >> 26) & 0x3F == 4 && w & 0x7FF == 132 ==> spec_decode_instruction(w) == (Instruction::Vrlw { vd: ((w >> 21) & 0x1F) as u8, va: ((w >> 16) & 0x1F) as u8, vb: ((w >> 11) & 0x1F) as u8 }),
        (w >> 26) & 0x3F == 4 && w & 0x7FF == 452 ==> spec_decode_instruction(w) == (Instruction::Vsl { vd: ((w >> 21) & 0x1F) as u8, va: ((w >> 16) & 0x1F) as u8, vb: ((w >> 11) & 0x1F) as u8 }),
        (w >> 26) & 0x3F == 4 && w & 0x7FF == 708 ==> spec_decode_instruction(w) == (Instruction::Vsr { vd: ((w >> 21) & 0x1F) as u8, va: ((w >> 16) & 0x1F) as u8, vb: ((w >> 11) & 0x1F) as u8 }),
        (w >> 26) & 0x3F == 4 && w & 0x7FF == 43 ==> spec_decode_instruction(w) == (Instruction::Vperm { vd: ((w >> 21) & 0x1F) as u8, va: ((w >> 16) & 0x1F) as u8, vb: ((w >> 11) & 0x1F) as u8, vc: ((w >> 6) & 0x1F) as u8 }),
        (w >> 26) & 0x3F == 4 && w & 0x7FF == 42 ==> spec_decode_instruction(w) == (Instruction::Vsel { vd: ((w >> 21) & 0x1F) as u8, va: ((w >> 16) & 0x1F) as u8, vb: ((w >> 11) & 0x1F) as u8, vc: ((w >> 6) & 0x1F) as u8 }),
        (w >> 26) & 0x3F == 4 && w & 0x7FF == 524 ==> spec_decode_instruction(w) == (Instruction::Vspltb { vd: ((w >> 21) & 0x1F) as u8, vb: ((w >> 11) & 0x1F) as u8, uimm: ((w >> 16) & 0x1F) as u8 }),
        (w >> 26) & 0x3F == 4 && w & 0x7FF == 588 ==> spec_decode_instruction(w) == (Instruction::Vsplth { vd: ((w >> 21) & 0x1F) as u8, vb: ((w >> 11) & 0x1F) as u8, uimm: ((w >> 16) & 0x1F) as u8 }),
        (w >> 26) & 0x3F == 4 && w & 0x7FF == 652 ==> spec_decode_instruction(w) == (Instruction::Vspltw { vd: ((w >> 21) & 0x1F) as u8, vb: ((w >> 11) & 0x1F) as u8, uimm: ((w >> 16) & 0x1F) as u8 }),
        (w >> 26) & 0x3F == 4 && w & 0x7FF == 12 ==> spec_decode_instruction(w) == (Instruction::Vmrghb { vd: ((w >> 21) & 0x1F) as u8, va: ((w >> 16) & 0x1F) as u8, vb: ((w >> 11) & 0x1F) as u8 }),
        (w >> 26) & 0x3F == 4 && w & 0x7FF == 76 ==> spec_decode_instruction(w) == (Instruction::Vmrghh { vd: ((w >> 21) & 0x1F) as u8, va: ((w >> 16) & 0x1F) as u8, vb: ((w >> 11) & 0x1F) as u8 }),
        (w >> 26) & 0x3F == 4 && w & 0x7FF == 140 ==> spec_decode_instruction(w) == (Instruction::Vmrghw { vd: ((w >> 21) & 0x1F) as u8, va: ((w >> 16) & 0x1F) as u8, vb: ((w >> 11) & 0x1F) as u8 }),
        (w >> 26) & 0x3F == 4 && w & 0x7FF == 268 ==> spec_decode_instruction(w) == (Instruction::Vmrglb { vd: ((w >> 21) & 0x1F) as u8, va: ((w >> 16) & 0x1F) as u8, vb: ((w >> 11) & 0x1F) as u8 }),
        (w >> 26) & 0x3F == 4 && w & 0x7FF == 332 ==> spec_decode_instruction(w) == (Instruction::Vmrglh { vd: ((w >> 21) & 0x1F) as u8, va: ((w >> 16) & 0x1F) as u8, vb: ((w >> 11) & 0x1F) as u8 }),
        (w >> 26) & 0x3F == 4 && w & 0x7FF == 396 ==> spec_decode_instruction(w) == (Instruction::Vmrglw { vd: ((w >> 21) & 0x1F) as u8, va: ((w >> 16) & 0x1F) as u8, vb: ((w >> 11) & 0x1F) as u8 }),
        (w >> 26) & 0x3F == 4 && w & 0x7FF == 14 ==> spec_decode_instruction(w) == (Instruction::Vpkuhus { vd: ((w >> 21) & 0x1F) as u8, va: ((w >> 16) & 0x1F) as u8, vb: ((w >> 11) & 0x1F) as u8 }),
        (w >> 26) & 0x3F == 4 && w & 0x7FF == 78 ==> spec_decode_instruction(w) == (Instruction::Vpkuwus { vd: ((w >> 21) & 0x1F) as u8, va: ((w >> 16) & 0x1F) as u8, vb: ((w >> 11) & 0x1F) as u8 }),
        (w >> 26) & 0x3F == 4 && w & 0x7FF == 270 ==> spec_decode_instruction(w) == (Instruction::Vpkshss { vd: ((w >> 21) & 0x1F) as u8, va: ((w >> 16) & 0x1F) as u8, vb: ((w >> 11) & 0x1F) as u8 }),
        (w >> 26) & 0x3F == 4 && w & 0x7FF == 142 ==> spec_decode_instruction(w) == (Instruction::Vpkshus { vd: ((w >> 21) & 0x1F) as u8, va: ((w >> 16) & 0x1F) as u8, vb: ((w >> 11) & 0x1F) as u8 }),
        (w >> 26) & 0x3F == 4 && w & 0x7FF == 334 ==> spec_decode_instruction(w) == (Instruction::Vpkswss { vd: ((w >> 21) & 0x1F) as u8, va: ((w >> 16) & 0x1F) as u8, vb: ((w >> 11) & 0x1F) as u8 }),
        (w >> 26) & 0x3F == 4 && w & 0x7FF == 206 ==> spec_decode_instruction(w) == (Instruction::Vpkswus { vd: ((w >> 21) & 0x1F) as u8, va: ((w >> 16) & 0x1F) as u8, vb: ((w >> 11) & 0x1F) as u8 }),
        (w >> 26) & 0x3F == 4 && w & 0x7FF == 782 ==> spec_decode_instruction(w) == (Instruction::Vpkpx { vd: ((w >> 21) & 0x1F) as u8, va: ((w >> 16) & 0x1F) as u8, vb: ((w >> 11) & 0x1F) as u8 }),
        (w >> 26) & 0x3F == 4 && w & 0x7FF == 526 ==> spec_decode_instruction(w) == (Instruction::Vupkhsb { vd: ((w >> 21) & 0x1F) as u8, vb: ((w >> 11) & 0x1F) as u8 }),
        (w >> 26) & 0x3F == 4 && w & 0x7FF == 590 ==> spec_decode_instruction(w) == (Instruction::Vupklsb { vd: ((w >> 21) & 0x1F) as u8, vb: ((w >> 11) & 0x1F) as u8 }),
        (w >> 26) & 0x3F == 4 && w & 0x7FF == 654 ==> spec_decode_instruction(w) == (Instruction::Vupkhsh { vd: ((w >> 21) & 0x1F) as u8, vb: ((w >> 11) & 0x1F) as u8 }),
        (w >> 26) & 0x3F == 4 && w & 0x7FF == 718 ==> spec_decode_instruction(w) == (Instruction::Vupklsh { vd: ((w >> 21) & 0x1F) as u8, vb: ((w >> 11) & 0x1F) as u8 }),
        (w >> 26) & 0x3F == 4 && w & 0x7FF == 846 ==> spec_decode_instruction(w) == (Instruction::Vupkhpx { vd: ((w >> 21) & 0x1F) as u8, vb: ((w >> 11) & 0x1F) as u8 }),
        (w >> 26) & 0x3F == 4 && w & 0x7FF == 974 ==> spec_decode_instruction(w) == (Instruction::Vupklpx { vd: ((w >> 21) & 0x1F) as u8, vb: ((w >> 11) & 0x1F) as u8 }),
{
}


/// The five bits of `w` from bit `lo` (counting from the least significant
/// bit) up: a register or similar field of an instruction word.
pub open spec fn bits5(w: u32, lo: u32) -> u8 {
    ((w >> lo) & 0x1F) as u8
}

/// The three bits of `w` from bit `lo` up: a condition-register field
/// number of an instruction word.
pub open spec fn bits3(w: u32, lo: u32) -> u8 {
    ((w >> lo) & 0x7) as u8
}

/// The floating-point compares of opcode 63 take the CR field from bits
/// 23-25, fra from bits 16-20 and frb from bits 11-15.
pub proof fn law_fp_compare_operands(w: u32)
    ensures
        (w >> 26) & 0x3F == 63 && (w >> 1) & 0x3FF == 0 ==> spec_decode_instruction(w) == (Instruction::Fcmpu { crfd: bits3(w, 23), fra: bits5(w, 16), frb: bits5(w, 11) }),
        (w >> 26) & 0x3F == 63 && (w >> 1) & 0x3FF == 32 ==> spec_decode_instruction(w) == (Instruction::Fcmpo { crfd: bits3(w, 23), fra: bits5(w, 16), frb: bits5(w, 11) }),
{
}

} // verus!
