//! Integer compare instructions.
use vstd::prelude::*;
use crate::error::Error;
use crate::registers::{Registers, XER_SO, has_flag, cr_nibble, with_cr_field};
use super::set_cr_field;

verus! {

/// CR after comparing `lt`/`gt`/`eq` into field `crfd`, with SO from XER.
pub open spec fn compare_cr(s: Registers, crfd: u8, lt: bool, gt: bool, eq: bool) -> u32 {
    with_cr_field(s.cr, crfd as u32, cr_nibble(lt, gt, eq, has_flag(s.xer, XER_SO)))
}

pub open spec fn signed_compare_effect(s: Registers, t: Registers, crfd: u8, ra: u8, rb: u8) -> bool {
    let a = s.gpr[ra as int] as i32;
    let b = s.gpr[rb as int] as i32;
    s.cr_result(t, compare_cr(s, crfd, a < b, a > b, a == b))
}

pub open spec fn signed_compare_imm_effect(s: Registers, t: Registers, crfd: u8, ra: u8, simm: i16) -> bool {
    let a = s.gpr[ra as int] as i32;
    let b = simm as i32;
    s.cr_result(t, compare_cr(s, crfd, a < b, a > b, a == b))
}

pub open spec fn unsigned_compare_effect(s: Registers, t: Registers, crfd: u8, ra: u8, rb: u8) -> bool {
    let a = s.gpr[ra as int];
    let b = s.gpr[rb as int];
    s.cr_result(t, compare_cr(s, crfd, a < b, a > b, a == b))
}

pub open spec fn unsigned_compare_imm_effect(s: Registers, t: Registers, crfd: u8, ra: u8, uimm: u16) -> bool {
    let a = s.gpr[ra as int];
    let b = uimm as u32;
    s.cr_result(t, compare_cr(s, crfd, a < b, a > b, a == b))
}

/// A register value read as a signed number.
fn signed(x: u32) -> (r: i32)
    ensures
        r == x as i32,
{
    x as i32
}

/// A signed immediate widened to 32 bits.
fn widen(x: i16) -> (r: i32)
    ensures
        r == x as i32,
{
    x as i32
}

/// An unsigned immediate widened to 32 bits.
fn zero_extend(x: u16) -> (r: u32)
    ensures
        r == x as u32,
{
    x as u32
}

/// cmp: signed compare of ra with rb into CR field crfd
pub fn cmp(regs: &mut Registers, crfd: u8, _l: bool, ra: u8, rb: u8) -> (r: Result<(), Error>)
    requires
        crfd < 8 && ra < 32 && rb < 32,
    ensures
        r is Ok,
        signed_compare_effect(*old(regs), *final(regs), crfd, ra, rb),
{
    let a = signed(regs.gpr_at(ra));
    let b = signed(regs.gpr_at(rb));
    let so = regs.xer & XER_SO != 0;
    set_cr_field(regs, crfd, a < b, a > b, a == b, so);
    Ok(())
}

/// cmpi: signed compare of ra with simm into CR field crfd
pub fn cmpi(regs: &mut Registers, crfd: u8, _l: bool, ra: u8, simm: i16) -> (r: Result<(), Error>)
    requires
        crfd < 8 && ra < 32,
    ensures
        r is Ok,
        signed_compare_imm_effect(*old(regs), *final(regs), crfd, ra, simm),
{
    let a = signed(regs.gpr_at(ra));
    let b = widen(simm);
    let so = regs.xer & XER_SO != 0;
    set_cr_field(regs, crfd, a < b, a > b, a == b, so);
    Ok(())
}

/// cmpl: unsigned compare of ra with rb into CR field crfd
pub fn cmpl(regs: &mut Registers, crfd: u8, _l: bool, ra: u8, rb: u8) -> (r: Result<(), Error>)
    requires
        crfd < 8 && ra < 32 && rb < 32,
    ensures
        r is Ok,
        unsigned_compare_effect(*old(regs), *final(regs), crfd, ra, rb),
{
    let a = regs.gpr_at(ra);
    let b = regs.gpr_at(rb);
    let so = regs.xer & XER_SO != 0;
    set_cr_field(regs, crfd, a < b, a > b, a == b, so);
    Ok(())
}

/// cmpli: unsigned compare of ra with uimm into CR field crfd
pub fn cmpli(regs: &mut Registers, crfd: u8, _l: bool, ra: u8, uimm: u16) -> (r: Result<(), Error>)
    requires
        crfd < 8 && ra < 32,
    ensures
        r is Ok,
        unsigned_compare_imm_effect(*old(regs), *final(regs), crfd, ra, uimm),
{
    let a = regs.gpr_at(ra);
    let b = zero_extend(uimm);
    let so = regs.xer & XER_SO != 0;
    set_cr_field(regs, crfd, a < b, a > b, a == b, so);
    Ok(())
}

} // verus!
