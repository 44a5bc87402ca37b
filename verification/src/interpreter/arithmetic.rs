//! Integer arithmetic instructions.
use vstd::prelude::*;
use crate::error::Error;
use crate::registers::{Registers, XER_SO, XER_OV, XER_CA, xer_after_overflow, xer_with_carry, has_flag};
use super::update_cr0;

verus! {

/// Signed overflow of `a + b = r` as the add instructions test it.
pub open spec fn add_overflows(a: u32, b: u32, r: u32) -> bool {
    ((a as i32) > 0 && (b as i32) > 0 && (r as i32) < 0) || ((a as i32) < 0 && (b as i32) < 0 && (r as i32) > 0)
}

/// Signed overflow of `b - a = r` as the subtract instructions test it.
pub open spec fn sub_overflows(a: u32, b: u32, r: u32) -> bool {
    ((b as i32) >= 0 && (a as i32) < 0 && (r as i32) < 0) || ((b as i32) < 0 && (a as i32) >= 0 && (r as i32) >= 0)
}

/// XER after an instruction whose overflow is `ov`, recorded only when `oe`.
pub open spec fn oe_xer(xer: u32, oe: bool, ov: bool) -> u32 {
    if oe { xer_after_overflow(xer, ov) } else { xer }
}

/// The carry bit of XER as a number.
pub open spec fn carry_in(xer: u32) -> int {
    if has_flag(xer, XER_CA) { 1 } else { 0 }
}

/// GPR `ra`, or zero when `ra` is 0.
pub open spec fn base_or_zero(s: Registers, ra: u8) -> u32 {
    if ra == 0 { 0 } else { s.gpr[ra as int] }
}

/// The immediate `simm` sign-extended to 32 bits.
pub open spec fn sext16(simm: i16) -> u32 {
    (simm as i32) as u32
}

pub open spec fn add_effect(s: Registers, t: Registers, rt: u8, ra: u8, rb: u8, oe: bool, rc: bool) -> bool {
    let a = s.gpr[ra as int];
    let b = s.gpr[rb as int];
    let r = a.wrapping_add(b);
    s.int_result(t, rt as int, r, oe_xer(s.xer, oe, add_overflows(a, b, r)), rc)
}

pub open spec fn addc_effect(s: Registers, t: Registers, rt: u8, ra: u8, rb: u8, oe: bool, rc: bool) -> bool {
    let a = s.gpr[ra as int];
    let b = s.gpr[rb as int];
    let r = a.wrapping_add(b);
    let x = xer_with_carry(s.xer, a + b > u32::MAX);
    s.int_result(t, rt as int, r, oe_xer(x, oe, add_overflows(a, b, r)), rc)
}

pub open spec fn adde_effect(s: Registers, t: Registers, rt: u8, ra: u8, rb: u8, oe: bool, rc: bool) -> bool {
    let a = s.gpr[ra as int];
    let b = s.gpr[rb as int];
    let sum = a + b + carry_in(s.xer);
    let r = (sum % 0x1_0000_0000) as u32;
    let x = xer_with_carry(s.xer, sum > u32::MAX);
    s.int_result(t, rt as int, r, oe_xer(x, oe, add_overflows(a, b, r)), rc)
}

pub open spec fn addi_effect(s: Registers, t: Registers, rt: u8, ra: u8, simm: i16) -> bool {
    s.int_result(t, rt as int, base_or_zero(s, ra).wrapping_add(sext16(simm)), s.xer, false)
}

pub open spec fn addic_effect(s: Registers, t: Registers, rt: u8, ra: u8, simm: i16, rc: bool) -> bool {
    let a = s.gpr[ra as int];
    let b = sext16(simm);
    s.int_result(t, rt as int, a.wrapping_add(b), xer_with_carry(s.xer, a + b > u32::MAX), rc)
}

pub open spec fn addis_effect(s: Registers, t: Registers, rt: u8, ra: u8, simm: i16) -> bool {
    s.int_result(t, rt as int, base_or_zero(s, ra).wrapping_add(((simm as i32) << 16u32) as u32), s.xer, false)
}

pub open spec fn addme_effect(s: Registers, t: Registers, rt: u8, ra: u8, oe: bool, rc: bool) -> bool {
    let a = s.gpr[ra as int];
    let sum = a + 0xFFFF_FFFFint + carry_in(s.xer);
    let x = xer_with_carry(s.xer, sum > u32::MAX);
    s.int_result(t, rt as int, (sum % 0x1_0000_0000) as u32, oe_xer(x, oe, (a as i32) == i32::MIN), rc)
}

pub open spec fn addze_effect(s: Registers, t: Registers, rt: u8, ra: u8, oe: bool, rc: bool) -> bool {
    let a = s.gpr[ra as int];
    let sum = a + carry_in(s.xer);
    let x = xer_with_carry(s.xer, sum > u32::MAX);
    s.int_result(t, rt as int, (sum % 0x1_0000_0000) as u32, oe_xer(x, oe, (a as i32) == i32::MAX && carry_in(s.xer) != 0), rc)
}

pub open spec fn divw_effect(s: Registers, t: Registers, rt: u8, ra: u8, rb: u8, oe: bool, rc: bool) -> bool {
    match (s.gpr[ra as int] as i32).checked_div(s.gpr[rb as int] as i32) {
        Some(q) => s.int_result(t, rt as int, q as u32, if oe { s.xer & !XER_OV } else { s.xer }, rc),
        None => s.int_result(t, rt as int, 0, if oe { s.xer | (XER_SO | XER_OV) } else { s.xer }, rc),
    }
}

pub open spec fn divwu_effect(s: Registers, t: Registers, rt: u8, ra: u8, rb: u8, oe: bool, rc: bool) -> bool {
    let b = s.gpr[rb as int];
    if b == 0 {
        s.int_result(t, rt as int, 0, if oe { s.xer | (XER_SO | XER_OV) } else { s.xer }, rc)
    } else {
        s.int_result(t, rt as int, s.gpr[ra as int] / b, if oe { s.xer & !XER_OV } else { s.xer }, rc)
    }
}

/// The high word of the signed 64-bit product of `a` and `b`.
pub open spec fn mulhw_value(a: u32, b: u32) -> u32 {
    ((((a as i32) as int * (b as i32) as int) as i64) >> 32u64) as u32
}

pub open spec fn mulhw_effect(s: Registers, t: Registers, rt: u8, ra: u8, rb: u8, rc: bool) -> bool {
    s.int_result(t, rt as int, mulhw_value(s.gpr[ra as int], s.gpr[rb as int]), s.xer, rc)
}

pub open spec fn mulhwu_effect(s: Registers, t: Registers, rt: u8, ra: u8, rb: u8, rc: bool) -> bool {
    s.int_result(t, rt as int, ((s.gpr[ra as int] as int * s.gpr[rb as int] as int) / 0x1_0000_0000) as u32, s.xer, rc)
}

pub open spec fn mulli_effect(s: Registers, t: Registers, rt: u8, ra: u8, simm: i16) -> bool {
    s.int_result(t, rt as int, ((s.gpr[ra as int] as i32) as int * simm as int) as i32 as u32, s.xer, false)
}

pub open spec fn mullw_effect(s: Registers, t: Registers, rt: u8, ra: u8, rb: u8, oe: bool, rc: bool) -> bool {
    let p = (s.gpr[ra as int] as i32) as int * (s.gpr[rb as int] as i32) as int;
    s.int_result(t, rt as int, p as i32 as u32, oe_xer(s.xer, oe, p != (p as i32) as int), rc)
}

pub open spec fn neg_effect(s: Registers, t: Registers, rt: u8, ra: u8, oe: bool, rc: bool) -> bool {
    let a = s.gpr[ra as int];
    s.int_result(t, rt as int, 0u32.wrapping_sub(a), oe_xer(s.xer, oe, (a as i32) == i32::MIN), rc)
}

pub open spec fn subf_effect(s: Registers, t: Registers, rt: u8, ra: u8, rb: u8, oe: bool, rc: bool) -> bool {
    let a = s.gpr[ra as int];
    let b = s.gpr[rb as int];
    let r = b.wrapping_sub(a);
    s.int_result(t, rt as int, r, oe_xer(s.xer, oe, sub_overflows(a, b, r)), rc)
}

pub open spec fn subfc_effect(s: Registers, t: Registers, rt: u8, ra: u8, rb: u8, oe: bool, rc: bool) -> bool {
    let a = s.gpr[ra as int];
    let b = s.gpr[rb as int];
    let r = b.wrapping_sub(a);
    let x = xer_with_carry(s.xer, a <= b);
    s.int_result(t, rt as int, r, oe_xer(x, oe, sub_overflows(a, b, r)), rc)
}

pub open spec fn subfe_effect(s: Registers, t: Registers, rt: u8, ra: u8, rb: u8, oe: bool, rc: bool) -> bool {
    let a = s.gpr[ra as int];
    let b = s.gpr[rb as int];
    let r = b.wrapping_sub(a).wrapping_add(carry_in(s.xer) as u32);
    let x = xer_with_carry(s.xer, !(b < a && b.wrapping_sub(a) as int + carry_in(s.xer) > u32::MAX));
    s.int_result(t, rt as int, r, oe_xer(x, oe, sub_overflows(a, b, r)), rc)
}

pub open spec fn subfic_effect(s: Registers, t: Registers, rt: u8, ra: u8, simm: i16) -> bool {
    let a = s.gpr[ra as int];
    let imm = sext16(simm);
    s.int_result(t, rt as int, imm.wrapping_sub(a), xer_with_carry(s.xer, a <= imm), false)
}

pub open spec fn subfme_effect(s: Registers, t: Registers, rt: u8, ra: u8, oe: bool, rc: bool) -> bool {
    let a = s.gpr[ra as int];
    let diff = 0xFFFF_FFFFint - a as int;
    let sum = diff + carry_in(s.xer);
    let x = xer_with_carry(s.xer, sum > u32::MAX);
    s.int_result(t, rt as int, (sum % 0x1_0000_0000) as u32, oe_xer(x, oe, (a as i32) == i32::MIN && carry_in(s.xer) == 0), rc)
}

pub open spec fn subfze_effect(s: Registers, t: Registers, rt: u8, ra: u8, oe: bool, rc: bool) -> bool {
    let a = s.gpr[ra as int];
    let sum = (0xFFFF_FFFFint - a as int) + carry_in(s.xer);
    let x = xer_with_carry(s.xer, sum > u32::MAX);
    s.int_result(t, rt as int, (sum % 0x1_0000_0000) as u32, oe_xer(x, oe, (a as i32) == i32::MIN && carry_in(s.xer) == 0), rc)
}

/// Record an overflow in XER: SO and OV on overflow, OV cleared otherwise.
fn record_overflow(regs: &mut Registers, overflow: bool)
    ensures
        final(regs).xer == xer_after_overflow(old(regs).xer, overflow),
        final(regs).gpr == old(regs).gpr && final(regs).cr == old(regs).cr,
        old(regs).same_except_gpr_xer_cr(*final(regs)),
{
    if overflow {
        regs.xer = regs.xer | (XER_SO | XER_OV);
    } else {
        regs.xer = regs.xer & !XER_OV;
    }
}

/// Set or clear the XER carry bit.
fn record_carry(regs: &mut Registers, carry: bool)
    ensures
        final(regs).xer == xer_with_carry(old(regs).xer, carry),
        final(regs).gpr == old(regs).gpr && final(regs).cr == old(regs).cr,
        old(regs).same_except_gpr_xer_cr(*final(regs)),
{
    if carry {
        regs.xer = regs.xer | XER_CA;
    } else {
        regs.xer = regs.xer & !XER_CA;
    }
}

/// The XER carry bit as 0 or 1.
fn carry_bit(regs: &Registers) -> (c: u32)
    ensures
        c as int == carry_in(regs.xer),
{
    if regs.xer & XER_CA != 0 { 1 } else { 0 }
}

/// Write `result` to GPR `rt` and, when `rc`, record it in CR0.
fn finish(regs: &mut Registers, rt: u8, result: u32, rc: bool)
    requires
        rt < 32,
    ensures
        old(regs).int_result(*final(regs), rt as int, result, old(regs).xer, rc),
{
    regs.gpr[rt as usize] = result;
    if rc {
        update_cr0(regs, result);
    }
}

/// add: rt = ra + rb
pub fn add(regs: &mut Registers, rt: u8, ra: u8, rb: u8, oe: bool, rc: bool) -> (r: Result<(), Error>)
    requires
        rt < 32 && ra < 32 && rb < 32,
    ensures
        r is Ok,
        add_effect(*old(regs), *final(regs), rt, ra, rb, oe, rc),
{
    let a = regs.gpr[ra as usize];
    let b = regs.gpr[rb as usize];
    let result = a.wrapping_add(b);
    if oe {
        let overflow = ((a as i32) > 0 && (b as i32) > 0 && (result as i32) < 0)
            || ((a as i32) < 0 && (b as i32) < 0 && (result as i32) > 0);
        record_overflow(regs, overflow);
    }
    finish(regs, rt, result, rc);
    Ok(())
}

/// addc: rt = ra + rb, recording the carry
pub fn addc(regs: &mut Registers, rt: u8, ra: u8, rb: u8, oe: bool, rc: bool) -> (r: Result<(), Error>)
    requires
        rt < 32 && ra < 32 && rb < 32,
    ensures
        r is Ok,
        addc_effect(*old(regs), *final(regs), rt, ra, rb, oe, rc),
{
    let a = regs.gpr[ra as usize];
    let b = regs.gpr[rb as usize];
    let result = a.wrapping_add(b);
    let carry = a as u64 + b as u64 > 0xFFFF_FFFFu64;
    record_carry(regs, carry);
    if oe {
        let overflow = ((a as i32) > 0 && (b as i32) > 0 && (result as i32) < 0)
            || ((a as i32) < 0 && (b as i32) < 0 && (result as i32) > 0);
        record_overflow(regs, overflow);
    }
    finish(regs, rt, result, rc);
    Ok(())
}

/// adde: rt = ra + rb + CA
pub fn adde(regs: &mut Registers, rt: u8, ra: u8, rb: u8, oe: bool, rc: bool) -> (r: Result<(), Error>)
    requires
        rt < 32 && ra < 32 && rb < 32,
    ensures
        r is Ok,
        adde_effect(*old(regs), *final(regs), rt, ra, rb, oe, rc),
{
    let a = regs.gpr[ra as usize];
    let b = regs.gpr[rb as usize];
    let ca = carry_bit(regs);
    let sum: u64 = a as u64 + b as u64 + ca as u64;
    let result = (sum % 0x1_0000_0000u64) as u32;
    record_carry(regs, sum > 0xFFFF_FFFFu64);
    if oe {
        let overflow = ((a as i32) > 0 && (b as i32) > 0 && (result as i32) < 0)
            || ((a as i32) < 0 && (b as i32) < 0 && (result as i32) > 0);
        record_overflow(regs, overflow);
    }
    finish(regs, rt, result, rc);
    Ok(())
}

/// addi: rt = (ra|0) + simm
pub fn addi(regs: &mut Registers, rt: u8, ra: u8, simm: i16) -> (r: Result<(), Error>)
    requires
        rt < 32 && ra < 32,
    ensures
        r is Ok,
        addi_effect(*old(regs), *final(regs), rt, ra, simm),
{
    let a = if ra == 0 { 0 } else { regs.gpr[ra as usize] };
    finish(regs, rt, a.wrapping_add(simm as i32 as u32), false);
    Ok(())
}

/// addic: rt = ra + simm, recording the carry
pub fn addic(regs: &mut Registers, rt: u8, ra: u8, simm: i16) -> (r: Result<(), Error>)
    requires
        rt < 32 && ra < 32,
    ensures
        r is Ok,
        addic_effect(*old(regs), *final(regs), rt, ra, simm, false),
{
    let a = regs.gpr[ra as usize];
    let b = simm as i32 as u32;
    record_carry(regs, a as u64 + b as u64 > 0xFFFF_FFFFu64);
    finish(regs, rt, a.wrapping_add(b), false);
    Ok(())
}

/// addic.: addic, then record the result in CR0
pub fn addic_dot(regs: &mut Registers, rt: u8, ra: u8, simm: i16) -> (r: Result<(), Error>)
    requires
        rt < 32 && ra < 32,
    ensures
        r is Ok,
        addic_effect(*old(regs), *final(regs), rt, ra, simm, true),
{
    addic(regs, rt, ra, simm)?;
    let v = regs.gpr[rt as usize];
    update_cr0(regs, v);
    Ok(())
}

/// addis: rt = (ra|0) + (simm << 16)
pub fn addis(regs: &mut Registers, rt: u8, ra: u8, simm: i16) -> (r: Result<(), Error>)
    requires
        rt < 32 && ra < 32,
    ensures
        r is Ok,
        addis_effect(*old(regs), *final(regs), rt, ra, simm),
{
    let a = if ra == 0 { 0 } else { regs.gpr[ra as usize] };
    finish(regs, rt, a.wrapping_add(((simm as i32) << 16u32) as u32), false);
    Ok(())
}

/// addme: rt = ra + CA - 1
pub fn addme(regs: &mut Registers, rt: u8, ra: u8, oe: bool, rc: bool) -> (r: Result<(), Error>)
    requires
        rt < 32 && ra < 32,
    ensures
        r is Ok,
        addme_effect(*old(regs), *final(regs), rt, ra, oe, rc),
{
    let a = regs.gpr[ra as usize];
    let ca = carry_bit(regs);
    let sum: u64 = a as u64 + 0xFFFF_FFFFu64 + ca as u64;
    record_carry(regs, sum > 0xFFFF_FFFFu64);
    if oe {
        record_overflow(regs, (a as i32) == i32::MIN);
    }
    finish(regs, rt, (sum % 0x1_0000_0000u64) as u32, rc);
    Ok(())
}

/// addze: rt = ra + CA
pub fn addze(regs: &mut Registers, rt: u8, ra: u8, oe: bool, rc: bool) -> (r: Result<(), Error>)
    requires
        rt < 32 && ra < 32,
    ensures
        r is Ok,
        addze_effect(*old(regs), *final(regs), rt, ra, oe, rc),
{
    let a = regs.gpr[ra as usize];
    let ca = carry_bit(regs);
    let sum: u64 = a as u64 + ca as u64;
    record_carry(regs, sum > 0xFFFF_FFFFu64);
    if oe {
        record_overflow(regs, (a as i32) == i32::MAX && ca != 0);
    }
    finish(regs, rt, (sum % 0x1_0000_0000u64) as u32, rc);
    Ok(())
}

/// divw: rt = ra / rb (signed); 0 when the quotient is undefined
pub fn divw(regs: &mut Registers, rt: u8, ra: u8, rb: u8, oe: bool, rc: bool) -> (r: Result<(), Error>)
    requires
        rt < 32 && ra < 32 && rb < 32,
    ensures
        r is Ok,
        divw_effect(*old(regs), *final(regs), rt, ra, rb, oe, rc),
{
    let a = regs.gpr[ra as usize] as i32;
    let b = regs.gpr[rb as usize] as i32;
    let result: i32 = match a.checked_div(b) {
        Some(q) => {
            if oe {
                regs.xer = regs.xer & !XER_OV;
            }
            q
        },
        None => {
            if oe {
                regs.xer = regs.xer | (XER_SO | XER_OV);
            }
            0
        },
    };
    finish(regs, rt, result as u32, rc);
    Ok(())
}

/// divwu: rt = ra / rb (unsigned); 0 when rb is 0
pub fn divwu(regs: &mut Registers, rt: u8, ra: u8, rb: u8, oe: bool, rc: bool) -> (r: Result<(), Error>)
    requires
        rt < 32 && ra < 32 && rb < 32,
    ensures
        r is Ok,
        divwu_effect(*old(regs), *final(regs), rt, ra, rb, oe, rc),
{
    let a = regs.gpr[ra as usize];
    let b = regs.gpr[rb as usize];
    let result = if b == 0 {
        if oe {
            regs.xer = regs.xer | (XER_SO | XER_OV);
        }
        0
    } else {
        if oe {
            regs.xer = regs.xer & !XER_OV;
        }
        a / b
    };
    finish(regs, rt, result, rc);
    Ok(())
}

/// mulhw: rt = high word of ra * rb (signed)
pub fn mulhw(regs: &mut Registers, rt: u8, ra: u8, rb: u8, rc: bool) -> (r: Result<(), Error>)
    requires
        rt < 32 && ra < 32 && rb < 32,
    ensures
        r is Ok,
        mulhw_effect(*old(regs), *final(regs), rt, ra, rb, rc),
{
    let a = regs.gpr[ra as usize] as i32 as i64;
    let b = regs.gpr[rb as usize] as i32 as i64;
    assert(i64::MIN <= a * b <= i64::MAX) by (nonlinear_arith)
        requires
            -0x8000_0000 <= a <= 0x7FFF_FFFF,
            -0x8000_0000 <= b <= 0x7FFF_FFFF,
    ;
    let result = ((a * b) >> 32u64) as u32;
    finish(regs, rt, result, rc);
    Ok(())
}

/// mulhwu: rt = high word of ra * rb (unsigned)
pub fn mulhwu(regs: &mut Registers, rt: u8, ra: u8, rb: u8, rc: bool) -> (r: Result<(), Error>)
    requires
        rt < 32 && ra < 32 && rb < 32,
    ensures
        r is Ok,
        mulhwu_effect(*old(regs), *final(regs), rt, ra, rb, rc),
{
    let a = regs.gpr[ra as usize] as u64;
    let b = regs.gpr[rb as usize] as u64;
    assert(a * b <= u64::MAX) by (nonlinear_arith)
        requires
            a <= 0xFFFF_FFFF,
            b <= 0xFFFF_FFFF,
    ;
    let result = ((a * b) / 0x1_0000_0000u64) as u32;
    finish(regs, rt, result, rc);
    Ok(())
}

/// mulli: rt = low word of ra * simm
pub fn mulli(regs: &mut Registers, rt: u8, ra: u8, simm: i16) -> (r: Result<(), Error>)
    requires
        rt < 32 && ra < 32,
    ensures
        r is Ok,
        mulli_effect(*old(regs), *final(regs), rt, ra, simm),
{
    let a = regs.gpr[ra as usize] as i32 as i64;
    let b = simm as i64;
    assert(-0x8000_0000_0000 <= a * b <= 0x8000_0000_0000) by (nonlinear_arith)
        requires
            -0x8000_0000 <= a <= 0x7FFF_FFFF,
            -0x8000 <= b <= 0x7FFF,
    ;
    let result = (a * b) as i32;
    finish(regs, rt, result as u32, false);
    Ok(())
}

/// mullw: rt = low word of ra * rb
pub fn mullw(regs: &mut Registers, rt: u8, ra: u8, rb: u8, oe: bool, rc: bool) -> (r: Result<(), Error>)
    requires
        rt < 32 && ra < 32 && rb < 32,
    ensures
        r is Ok,
        mullw_effect(*old(regs), *final(regs), rt, ra, rb, oe, rc),
{
    let a = regs.gpr[ra as usize] as i32 as i64;
    let b = regs.gpr[rb as usize] as i32 as i64;
    assert(i64::MIN <= a * b <= i64::MAX) by (nonlinear_arith)
        requires
            -0x8000_0000 <= a <= 0x7FFF_FFFF,
            -0x8000_0000 <= b <= 0x7FFF_FFFF,
    ;
    let result_64 = a * b;
    let result = result_64 as i32;
    if oe {
        record_overflow(regs, result_64 != result as i64);
    }
    finish(regs, rt, result as u32, rc);
    Ok(())
}

/// neg: rt = -ra
pub fn neg(regs: &mut Registers, rt: u8, ra: u8, oe: bool, rc: bool) -> (r: Result<(), Error>)
    requires
        rt < 32 && ra < 32,
    ensures
        r is Ok,
        neg_effect(*old(regs), *final(regs), rt, ra, oe, rc),
{
    let a = regs.gpr[ra as usize];
    let result = 0u32.wrapping_sub(a);
    if oe {
        record_overflow(regs, (a as i32) == i32::MIN);
    }
    finish(regs, rt, result, rc);
    Ok(())
}

/// subf: rt = rb - ra
pub fn subf(regs: &mut Registers, rt: u8, ra: u8, rb: u8, oe: bool, rc: bool) -> (r: Result<(), Error>)
    requires
        rt < 32 && ra < 32 && rb < 32,
    ensures
        r is Ok,
        subf_effect(*old(regs), *final(regs), rt, ra, rb, oe, rc),
{
    let a = regs.gpr[ra as usize];
    let b = regs.gpr[rb as usize];
    let result = b.wrapping_sub(a);
    if oe {
        let overflow = ((b as i32) >= 0 && (a as i32) < 0 && (result as i32) < 0)
            || ((b as i32) < 0 && (a as i32) >= 0 && (result as i32) >= 0);
        record_overflow(regs, overflow);
    }
    finish(regs, rt, result, rc);
    Ok(())
}

/// subfc: rt = rb - ra, recording the carry (no borrow)
pub fn subfc(regs: &mut Registers, rt: u8, ra: u8, rb: u8, oe: bool, rc: bool) -> (r: Result<(), Error>)
    requires
        rt < 32 && ra < 32 && rb < 32,
    ensures
        r is Ok,
        subfc_effect(*old(regs), *final(regs), rt, ra, rb, oe, rc),
{
    let a = regs.gpr[ra as usize];
    let b = regs.gpr[rb as usize];
    let result = b.wrapping_sub(a);
    record_carry(regs, a <= b);
    if oe {
        let overflow = ((b as i32) >= 0 && (a as i32) < 0 && (result as i32) < 0)
            || ((b as i32) < 0 && (a as i32) >= 0 && (result as i32) >= 0);
        record_overflow(regs, overflow);
    }
    finish(regs, rt, result, rc);
    Ok(())
}

/// subfe: rt = rb - ra + CA - 1 as the interpreter computes it
pub fn subfe(regs: &mut Registers, rt: u8, ra: u8, rb: u8, oe: bool, rc: bool) -> (r: Result<(), Error>)
    requires
        rt < 32 && ra < 32 && rb < 32,
    ensures
        r is Ok,
        subfe_effect(*old(regs), *final(regs), rt, ra, rb, oe, rc),
{
    let a = regs.gpr[ra as usize];
    let b = regs.gpr[rb as usize];
    let ca = carry_bit(regs);
    let temp = b.wrapping_sub(a);
    let borrow1 = b < a;
    let borrow2 = temp as u64 + ca as u64 > 0xFFFF_FFFFu64;
    let result = temp.wrapping_add(ca);
    record_carry(regs, !(borrow1 && borrow2));
    if oe {
        let overflow = ((b as i32) >= 0 && (a as i32) < 0 && (result as i32) < 0)
            || ((b as i32) < 0 && (a as i32) >= 0 && (result as i32) >= 0);
        record_overflow(regs, overflow);
    }
    finish(regs, rt, result, rc);
    Ok(())
}

/// subfic: rt = simm - ra, recording the carry
pub fn subfic(regs: &mut Registers, rt: u8, ra: u8, simm: i16) -> (r: Result<(), Error>)
    requires
        rt < 32 && ra < 32,
    ensures
        r is Ok,
        subfic_effect(*old(regs), *final(regs), rt, ra, simm),
{
    let a = regs.gpr[ra as usize];
    let imm = simm as i32 as u32;
    record_carry(regs, a <= imm);
    finish(regs, rt, imm.wrapping_sub(a), false);
    Ok(())
}

/// subfme: rt = !ra + CA - 1 as the interpreter computes it
pub fn subfme(regs: &mut Registers, rt: u8, ra: u8, oe: bool, rc: bool) -> (r: Result<(), Error>)
    requires
        rt < 32 && ra < 32,
    ensures
        r is Ok,
        subfme_effect(*old(regs), *final(regs), rt, ra, oe, rc),
{
    let a = regs.gpr[ra as usize];
    let ca = carry_bit(regs);
    let sum: u64 = (0xFFFF_FFFFu32 - a) as u64 + ca as u64;
    record_carry(regs, sum > 0xFFFF_FFFFu64);
    if oe {
        record_overflow(regs, (a as i32) == i32::MIN && ca == 0);
    }
    finish(regs, rt, (sum % 0x1_0000_0000u64) as u32, rc);
    Ok(())
}

/// subfze: rt = !ra + CA
pub fn subfze(regs: &mut Registers, rt: u8, ra: u8, oe: bool, rc: bool) -> (r: Result<(), Error>)
    requires
        rt < 32 && ra < 32,
    ensures
        r is Ok,
        subfze_effect(*old(regs), *final(regs), rt, ra, oe, rc),
{
    let a = regs.gpr[ra as usize];
    let ca = carry_bit(regs);
    let sum: u64 = (0xFFFF_FFFFu32 - a) as u64 + ca as u64;
    record_carry(regs, sum > 0xFFFF_FFFFu64);
    if oe {
        record_overflow(regs, (a as i32) == i32::MIN && ca == 0);
    }
    finish(regs, rt, (sum % 0x1_0000_0000u64) as u32, rc);
    Ok(())
}

} // verus!
