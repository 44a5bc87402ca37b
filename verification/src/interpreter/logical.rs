//! Logical instructions.
use vstd::prelude::*;
use crate::error::Error;
use crate::registers::Registers;
use super::update_cr0;

verus! {

/// What `and` leaves in the registers.
pub open spec fn and_effect(s: Registers, t: Registers, ra: u8, rs: u8, rb: u8, rc: bool) -> bool {
    let x = s.gpr[rs as int];
    let y = s.gpr[rb as int];
    s.int_result(t, ra as int, x & y, s.xer, rc)
}

/// and: ra = rs & rb
pub fn and(regs: &mut Registers, ra: u8, rs: u8, rb: u8, rc: bool) -> (r: Result<(), Error>)
    requires
        ra < 32 && rs < 32 && rb < 32,
    ensures
        r is Ok,
        and_effect(*old(regs), *final(regs), ra, rs, rb, rc),
{
    let s = regs.gpr[rs as usize];
    let b = regs.gpr[rb as usize];
    let result = s & b;
    regs.gpr[ra as usize] = result;
    if rc {
        update_cr0(regs, result);
    }
    Ok(())
}

/// What `andc` leaves in the registers.
pub open spec fn andc_effect(s: Registers, t: Registers, ra: u8, rs: u8, rb: u8, rc: bool) -> bool {
    let x = s.gpr[rs as int];
    let y = s.gpr[rb as int];
    s.int_result(t, ra as int, x & !y, s.xer, rc)
}

/// andc: ra = rs & !rb
pub fn andc(regs: &mut Registers, ra: u8, rs: u8, rb: u8, rc: bool) -> (r: Result<(), Error>)
    requires
        ra < 32 && rs < 32 && rb < 32,
    ensures
        r is Ok,
        andc_effect(*old(regs), *final(regs), ra, rs, rb, rc),
{
    let s = regs.gpr[rs as usize];
    let b = regs.gpr[rb as usize];
    let result = s & !b;
    regs.gpr[ra as usize] = result;
    if rc {
        update_cr0(regs, result);
    }
    Ok(())
}

/// What `eqv` leaves in the registers.
pub open spec fn eqv_effect(s: Registers, t: Registers, ra: u8, rs: u8, rb: u8, rc: bool) -> bool {
    let x = s.gpr[rs as int];
    let y = s.gpr[rb as int];
    s.int_result(t, ra as int, !(x ^ y), s.xer, rc)
}

/// eqv: ra = !(rs ^ rb)
pub fn eqv(regs: &mut Registers, ra: u8, rs: u8, rb: u8, rc: bool) -> (r: Result<(), Error>)
    requires
        ra < 32 && rs < 32 && rb < 32,
    ensures
        r is Ok,
        eqv_effect(*old(regs), *final(regs), ra, rs, rb, rc),
{
    let s = regs.gpr[rs as usize];
    let b = regs.gpr[rb as usize];
    let result = !(s ^ b);
    regs.gpr[ra as usize] = result;
    if rc {
        update_cr0(regs, result);
    }
    Ok(())
}

/// What `nand` leaves in the registers.
pub open spec fn nand_effect(s: Registers, t: Registers, ra: u8, rs: u8, rb: u8, rc: bool) -> bool {
    let x = s.gpr[rs as int];
    let y = s.gpr[rb as int];
    s.int_result(t, ra as int, !(x & y), s.xer, rc)
}

/// nand: ra = !(rs & rb)
pub fn nand(regs: &mut Registers, ra: u8, rs: u8, rb: u8, rc: bool) -> (r: Result<(), Error>)
    requires
        ra < 32 && rs < 32 && rb < 32,
    ensures
        r is Ok,
        nand_effect(*old(regs), *final(regs), ra, rs, rb, rc),
{
    let s = regs.gpr[rs as usize];
    let b = regs.gpr[rb as usize];
    let result = !(s & b);
    regs.gpr[ra as usize] = result;
    if rc {
        update_cr0(regs, result);
    }
    Ok(())
}

/// What `nor` leaves in the registers.
pub open spec fn nor_effect(s: Registers, t: Registers, ra: u8, rs: u8, rb: u8, rc: bool) -> bool {
    let x = s.gpr[rs as int];
    let y = s.gpr[rb as int];
    s.int_result(t, ra as int, !(x | y), s.xer, rc)
}

/// nor: ra = !(rs | rb)
pub fn nor(regs: &mut Registers, ra: u8, rs: u8, rb: u8, rc: bool) -> (r: Result<(), Error>)
    requires
        ra < 32 && rs < 32 && rb < 32,
    ensures
        r is Ok,
        nor_effect(*old(regs), *final(regs), ra, rs, rb, rc),
{
    let s = regs.gpr[rs as usize];
    let b = regs.gpr[rb as usize];
    let result = !(s | b);
    regs.gpr[ra as usize] = result;
    if rc {
        update_cr0(regs, result);
    }
    Ok(())
}

/// What `or` leaves in the registers.
pub open spec fn or_effect(s: Registers, t: Registers, ra: u8, rs: u8, rb: u8, rc: bool) -> bool {
    let x = s.gpr[rs as int];
    let y = s.gpr[rb as int];
    s.int_result(t, ra as int, x | y, s.xer, rc)
}

/// or: ra = rs | rb
pub fn or(regs: &mut Registers, ra: u8, rs: u8, rb: u8, rc: bool) -> (r: Result<(), Error>)
    requires
        ra < 32 && rs < 32 && rb < 32,
    ensures
        r is Ok,
        or_effect(*old(regs), *final(regs), ra, rs, rb, rc),
{
    let s = regs.gpr[rs as usize];
    let b = regs.gpr[rb as usize];
    let result = s | b;
    regs.gpr[ra as usize] = result;
    if rc {
        update_cr0(regs, result);
    }
    Ok(())
}

/// What `orc` leaves in the registers.
pub open spec fn orc_effect(s: Registers, t: Registers, ra: u8, rs: u8, rb: u8, rc: bool) -> bool {
    let x = s.gpr[rs as int];
    let y = s.gpr[rb as int];
    s.int_result(t, ra as int, x | !y, s.xer, rc)
}

/// orc: ra = rs | !rb
pub fn orc(regs: &mut Registers, ra: u8, rs: u8, rb: u8, rc: bool) -> (r: Result<(), Error>)
    requires
        ra < 32 && rs < 32 && rb < 32,
    ensures
        r is Ok,
        orc_effect(*old(regs), *final(regs), ra, rs, rb, rc),
{
    let s = regs.gpr[rs as usize];
    let b = regs.gpr[rb as usize];
    let result = s | !b;
    regs.gpr[ra as usize] = result;
    if rc {
        update_cr0(regs, result);
    }
    Ok(())
}

/// What `xor` leaves in the registers.
pub open spec fn xor_effect(s: Registers, t: Registers, ra: u8, rs: u8, rb: u8, rc: bool) -> bool {
    let x = s.gpr[rs as int];
    let y = s.gpr[rb as int];
    s.int_result(t, ra as int, x ^ y, s.xer, rc)
}

/// xor: ra = rs ^ rb
pub fn xor(regs: &mut Registers, ra: u8, rs: u8, rb: u8, rc: bool) -> (r: Result<(), Error>)
    requires
        ra < 32 && rs < 32 && rb < 32,
    ensures
        r is Ok,
        xor_effect(*old(regs), *final(regs), ra, rs, rb, rc),
{
    let s = regs.gpr[rs as usize];
    let b = regs.gpr[rb as usize];
    let result = s ^ b;
    regs.gpr[ra as usize] = result;
    if rc {
        update_cr0(regs, result);
    }
    Ok(())
}

/// What `andi` leaves in the registers.
pub open spec fn andi_effect(s: Registers, t: Registers, ra: u8, rs: u8, uimm: u16) -> bool {
    let x = s.gpr[rs as int];
    s.int_result(t, ra as int, x & (uimm as u32), s.xer, true)
}

/// andi.: ra = rs & uimm, always recorded in CR0
pub fn andi(regs: &mut Registers, ra: u8, rs: u8, uimm: u16) -> (r: Result<(), Error>)
    requires
        ra < 32 && rs < 32,
    ensures
        r is Ok,
        andi_effect(*old(regs), *final(regs), ra, rs, uimm),
{
    let s = regs.gpr[rs as usize];
    let result = s & (uimm as u32);
    regs.gpr[ra as usize] = result;
    update_cr0(regs, result);
    Ok(())
}

/// What `andis` leaves in the registers.
pub open spec fn andis_effect(s: Registers, t: Registers, ra: u8, rs: u8, uimm: u16) -> bool {
    let x = s.gpr[rs as int];
    s.int_result(t, ra as int, x & ((uimm as u32) << 16u32), s.xer, true)
}

/// andis.: ra = rs & (uimm << 16), always recorded in CR0
pub fn andis(regs: &mut Registers, ra: u8, rs: u8, uimm: u16) -> (r: Result<(), Error>)
    requires
        ra < 32 && rs < 32,
    ensures
        r is Ok,
        andis_effect(*old(regs), *final(regs), ra, rs, uimm),
{
    let s = regs.gpr[rs as usize];
    let result = s & ((uimm as u32) << 16u32);
    regs.gpr[ra as usize] = result;
    update_cr0(regs, result);
    Ok(())
}

/// What `ori` leaves in the registers.
pub open spec fn ori_effect(s: Registers, t: Registers, ra: u8, rs: u8, uimm: u16) -> bool {
    let x = s.gpr[rs as int];
    s.int_result(t, ra as int, x | (uimm as u32), s.xer, false)
}

/// ori: ra = rs | uimm
pub fn ori(regs: &mut Registers, ra: u8, rs: u8, uimm: u16) -> (r: Result<(), Error>)
    requires
        ra < 32 && rs < 32,
    ensures
        r is Ok,
        ori_effect(*old(regs), *final(regs), ra, rs, uimm),
{
    let s = regs.gpr[rs as usize];
    let result = s | (uimm as u32);
    regs.gpr[ra as usize] = result;
    Ok(())
}

/// What `oris` leaves in the registers.
pub open spec fn oris_effect(s: Registers, t: Registers, ra: u8, rs: u8, uimm: u16) -> bool {
    let x = s.gpr[rs as int];
    s.int_result(t, ra as int, x | ((uimm as u32) << 16u32), s.xer, false)
}

/// oris: ra = rs | (uimm << 16)
pub fn oris(regs: &mut Registers, ra: u8, rs: u8, uimm: u16) -> (r: Result<(), Error>)
    requires
        ra < 32 && rs < 32,
    ensures
        r is Ok,
        oris_effect(*old(regs), *final(regs), ra, rs, uimm),
{
    let s = regs.gpr[rs as usize];
    let result = s | ((uimm as u32) << 16u32);
    regs.gpr[ra as usize] = result;
    Ok(())
}

/// What `xori` leaves in the registers.
pub open spec fn xori_effect(s: Registers, t: Registers, ra: u8, rs: u8, uimm: u16) -> bool {
    let x = s.gpr[rs as int];
    s.int_result(t, ra as int, x ^ (uimm as u32), s.xer, false)
}

/// xori: ra = rs ^ uimm
pub fn xori(regs: &mut Registers, ra: u8, rs: u8, uimm: u16) -> (r: Result<(), Error>)
    requires
        ra < 32 && rs < 32,
    ensures
        r is Ok,
        xori_effect(*old(regs), *final(regs), ra, rs, uimm),
{
    let s = regs.gpr[rs as usize];
    let result = s ^ (uimm as u32);
    regs.gpr[ra as usize] = result;
    Ok(())
}

/// What `xoris` leaves in the registers.
pub open spec fn xoris_effect(s: Registers, t: Registers, ra: u8, rs: u8, uimm: u16) -> bool {
    let x = s.gpr[rs as int];
    s.int_result(t, ra as int, x ^ ((uimm as u32) << 16u32), s.xer, false)
}

/// xoris: ra = rs ^ (uimm << 16)
pub fn xoris(regs: &mut Registers, ra: u8, rs: u8, uimm: u16) -> (r: Result<(), Error>)
    requires
        ra < 32 && rs < 32,
    ensures
        r is Ok,
        xoris_effect(*old(regs), *final(regs), ra, rs, uimm),
{
    let s = regs.gpr[rs as usize];
    let result = s ^ ((uimm as u32) << 16u32);
    regs.gpr[ra as usize] = result;
    Ok(())
}

/// What `cntlzw` leaves in the registers.
pub open spec fn cntlzw_effect(s: Registers, t: Registers, ra: u8, rs: u8, rc: bool) -> bool {
    let x = s.gpr[rs as int];
    s.int_result(t, ra as int, x.leading_zeros(), s.xer, rc)
}

/// cntlzw: ra = number of leading zero bits of rs
pub fn cntlzw(regs: &mut Registers, ra: u8, rs: u8, rc: bool) -> (r: Result<(), Error>)
    requires
        ra < 32 && rs < 32,
    ensures
        r is Ok,
        cntlzw_effect(*old(regs), *final(regs), ra, rs, rc),
{
    let s = regs.gpr[rs as usize];
    let result = s.leading_zeros();
    regs.gpr[ra as usize] = result;
    if rc {
        update_cr0(regs, result);
    }
    Ok(())
}

/// What `extsb` leaves in the registers.
pub open spec fn extsb_effect(s: Registers, t: Registers, ra: u8, rs: u8, rc: bool) -> bool {
    let x = s.gpr[rs as int];
    s.int_result(t, ra as int, (x as i8) as i32 as u32, s.xer, rc)
}

/// extsb: ra = rs's low byte sign-extended
pub fn extsb(regs: &mut Registers, ra: u8, rs: u8, rc: bool) -> (r: Result<(), Error>)
    requires
        ra < 32 && rs < 32,
    ensures
        r is Ok,
        extsb_effect(*old(regs), *final(regs), ra, rs, rc),
{
    let s = regs.gpr[rs as usize];
    let result = (s as i8) as i32 as u32;
    regs.gpr[ra as usize] = result;
    if rc {
        update_cr0(regs, result);
    }
    Ok(())
}

/// What `extsh` leaves in the registers.
pub open spec fn extsh_effect(s: Registers, t: Registers, ra: u8, rs: u8, rc: bool) -> bool {
    let x = s.gpr[rs as int];
    s.int_result(t, ra as int, (x as i16) as i32 as u32, s.xer, rc)
}

/// extsh: ra = rs's low halfword sign-extended
pub fn extsh(regs: &mut Registers, ra: u8, rs: u8, rc: bool) -> (r: Result<(), Error>)
    requires
        ra < 32 && rs < 32,
    ensures
        r is Ok,
        extsh_effect(*old(regs), *final(regs), ra, rs, rc),
{
    let s = regs.gpr[rs as usize];
    let result = (s as i16) as i32 as u32;
    regs.gpr[ra as usize] = result;
    if rc {
        update_cr0(regs, result);
    }
    Ok(())
}

} // verus!
