//! Rotate and shift instructions.
use vstd::prelude::*;
use crate::error::Error;
use crate::registers::{Registers, xer_with_carry};
use super::update_cr0;

verus! {

/// The mask of the rotate instructions from bit `mb` to bit `me`
/// (bit 0 the most significant); all ones when `mb > me`.
pub open spec fn rotate_mask(mb: u8, me: u8) -> u32 {
    if mb <= me {
        (0xFFFF_FFFFu32 >> mb) & (0xFFFF_FFFFu32 << ((31 - me) as u32))
    } else {
        0xFFFF_FFFFu32
    }
}

/// `x` rotated left by `n` bits, `n < 32`.
pub open spec fn rotl32(x: u32, n: u32) -> u32 {
    if n == 0 { x } else { (x << n) | (x >> ((32 - n) as u32)) }
}

/// The `n` low bits set.
pub open spec fn low_mask(n: u32) -> u32 {
    (1u32 << n).wrapping_sub(1)
}

/// The result and carry of an algebraic right shift of `s` by `sh` (`sh < 64`).
pub open spec fn sraw_value(s: u32, sh: u32) -> (u32, bool) {
    if sh < 32 {
        ((((s as i32) >> sh) as u32), (s as i32) < 0 && s & low_mask(sh) != 0)
    } else {
        (if (s as i32) < 0 { 0xFFFF_FFFFu32 } else { 0u32 }, (s as i32) < 0)
    }
}

fn mask(mb: u8, me: u8) -> (m: u32)
    requires
        mb < 32 && me < 32,
    ensures
        m == rotate_mask(mb, me),
{
    if mb <= me {
        (0xFFFF_FFFFu32 >> mb) & (0xFFFF_FFFFu32 << (31 - me))
    } else {
        0xFFFF_FFFFu32
    }
}

fn rotate_left(x: u32, n: u32) -> (r: u32)
    requires
        n < 32,
    ensures
        r == rotl32(x, n),
{
    if n == 0 { x } else { (x << n) | (x >> (32 - n)) }
}

pub open spec fn rlwimi_effect(s: Registers, t: Registers, ra: u8, rs: u8, sh: u8, mb: u8, me: u8, rc: bool) -> bool {
    let m = rotate_mask(mb, me);
    let v = (rotl32(s.gpr[rs as int], (sh % 32) as u32) & m) | (s.gpr[ra as int] & !m);
    s.int_result(t, ra as int, v, s.xer, rc)
}

pub open spec fn rlwinm_effect(s: Registers, t: Registers, ra: u8, rs: u8, sh: u8, mb: u8, me: u8, rc: bool) -> bool {
    s.int_result(t, ra as int, rotl32(s.gpr[rs as int], (sh % 32) as u32) & rotate_mask(mb, me), s.xer, rc)
}

pub open spec fn rlwnm_effect(s: Registers, t: Registers, ra: u8, rs: u8, rb: u8, mb: u8, me: u8, rc: bool) -> bool {
    s.int_result(t, ra as int, rotl32(s.gpr[rs as int], s.gpr[rb as int] % 32) & rotate_mask(mb, me), s.xer, rc)
}

pub open spec fn slw_effect(s: Registers, t: Registers, ra: u8, rs: u8, rb: u8, rc: bool) -> bool {
    let sh = s.gpr[rb as int] % 64;
    s.int_result(t, ra as int, if sh < 32 { s.gpr[rs as int] << sh } else { 0 }, s.xer, rc)
}

pub open spec fn srw_effect(s: Registers, t: Registers, ra: u8, rs: u8, rb: u8, rc: bool) -> bool {
    let sh = s.gpr[rb as int] % 64;
    s.int_result(t, ra as int, if sh < 32 { s.gpr[rs as int] >> sh } else { 0 }, s.xer, rc)
}

pub open spec fn sraw_effect(s: Registers, t: Registers, ra: u8, rs: u8, rb: u8, rc: bool) -> bool {
    let (v, carry) = sraw_value(s.gpr[rs as int], s.gpr[rb as int] % 64);
    s.int_result(t, ra as int, v, xer_with_carry(s.xer, carry), rc)
}

pub open spec fn srawi_effect(s: Registers, t: Registers, ra: u8, rs: u8, sh: u8, rc: bool) -> bool {
    let (v, carry) = sraw_value(s.gpr[rs as int], sh as u32);
    s.int_result(t, ra as int, v, xer_with_carry(s.xer, carry), rc)
}

fn finish(regs: &mut Registers, ra: u8, result: u32, rc: bool)
    requires
        ra < 32,
    ensures
        old(regs).int_result(*final(regs), ra as int, result, old(regs).xer, rc),
{
    regs.gpr[ra as usize] = result;
    if rc {
        update_cr0(regs, result);
    }
}

fn shift_right_algebraic(s: u32, sh: u32) -> (r: (u32, bool))
    requires
        sh < 64,
    ensures
        r == sraw_value(s, sh),
{
    let v = s as i32;
    if sh < 32 {
        let result = v >> sh;
        let carry = v < 0 && s & (1u32 << sh).wrapping_sub(1) != 0;
        (result as u32, carry)
    } else {
        (if v < 0 { 0xFFFF_FFFFu32 } else { 0u32 }, v < 0)
    }
}

/// rlwimi: insert rs rotated left by sh into ra under the mask
pub fn rlwimi(regs: &mut Registers, ra: u8, rs: u8, sh: u8, mb: u8, me: u8, rc: bool) -> (r: Result<(), Error>)
    requires
        ra < 32 && rs < 32 && mb < 32 && me < 32,
    ensures
        r is Ok,
        rlwimi_effect(*old(regs), *final(regs), ra, rs, sh, mb, me, rc),
{
    let s = regs.gpr[rs as usize];
    let a = regs.gpr[ra as usize];
    let rotated = rotate_left(s, (sh % 32) as u32);
    let m = mask(mb, me);
    finish(regs, ra, (rotated & m) | (a & !m), rc);
    Ok(())
}

/// rlwinm: ra = (rs rotated left by sh) & mask
pub fn rlwinm(regs: &mut Registers, ra: u8, rs: u8, sh: u8, mb: u8, me: u8, rc: bool) -> (r: Result<(), Error>)
    requires
        ra < 32 && rs < 32 && mb < 32 && me < 32,
    ensures
        r is Ok,
        rlwinm_effect(*old(regs), *final(regs), ra, rs, sh, mb, me, rc),
{
    let s = regs.gpr[rs as usize];
    let rotated = rotate_left(s, (sh % 32) as u32);
    let m = mask(mb, me);
    finish(regs, ra, rotated & m, rc);
    Ok(())
}

/// rlwnm: ra = (rs rotated left by the low five bits of rb) & mask
pub fn rlwnm(regs: &mut Registers, ra: u8, rs: u8, rb: u8, mb: u8, me: u8, rc: bool) -> (r: Result<(), Error>)
    requires
        ra < 32 && rs < 32 && rb < 32 && mb < 32 && me < 32,
    ensures
        r is Ok,
        rlwnm_effect(*old(regs), *final(regs), ra, rs, rb, mb, me, rc),
{
    let s = regs.gpr[rs as usize];
    let b = regs.gpr[rb as usize];
    let rotated = rotate_left(s, b % 32);
    let m = mask(mb, me);
    finish(regs, ra, rotated & m, rc);
    Ok(())
}

/// slw: ra = rs << (rb & 0x3F), zero for shifts of 32 or more
pub fn slw(regs: &mut Registers, ra: u8, rs: u8, rb: u8, rc: bool) -> (r: Result<(), Error>)
    requires
        ra < 32 && rs < 32 && rb < 32,
    ensures
        r is Ok,
        slw_effect(*old(regs), *final(regs), ra, rs, rb, rc),
{
    let s = regs.gpr[rs as usize];
    let sh = regs.gpr[rb as usize] % 64;
    let result = if sh < 32 { s << sh } else { 0 };
    finish(regs, ra, result, rc);
    Ok(())
}

/// sraw: ra = rs >> (rb & 0x3F) keeping the sign; CA set when a negative
/// value lost one bits
pub fn sraw(regs: &mut Registers, ra: u8, rs: u8, rb: u8, rc: bool) -> (r: Result<(), Error>)
    requires
        ra < 32 && rs < 32 && rb < 32,
    ensures
        r is Ok,
        sraw_effect(*old(regs), *final(regs), ra, rs, rb, rc),
{
    let s = regs.gpr[rs as usize];
    let sh = regs.gpr[rb as usize] % 64;
    let (result, carry) = shift_right_algebraic(s, sh);
    regs.xer = if carry { regs.xer | crate::registers::XER_CA } else { regs.xer & !crate::registers::XER_CA };
    finish(regs, ra, result, rc);
    Ok(())
}

/// srawi: ra = rs >> sh keeping the sign; CA set when a negative value
/// lost one bits
pub fn srawi(regs: &mut Registers, ra: u8, rs: u8, sh: u8, rc: bool) -> (r: Result<(), Error>)
    requires
        ra < 32 && rs < 32 && sh < 32,
    ensures
        r is Ok,
        srawi_effect(*old(regs), *final(regs), ra, rs, sh, rc),
{
    let s = regs.gpr[rs as usize];
    let (result, carry) = shift_right_algebraic(s, sh as u32);
    regs.xer = if carry { regs.xer | crate::registers::XER_CA } else { regs.xer & !crate::registers::XER_CA };
    finish(regs, ra, result, rc);
    Ok(())
}

/// srw: ra = rs >> (rb & 0x3F), zero for shifts of 32 or more
pub fn srw(regs: &mut Registers, ra: u8, rs: u8, rb: u8, rc: bool) -> (r: Result<(), Error>)
    requires
        ra < 32 && rs < 32 && rb < 32,
    ensures
        r is Ok,
        srw_effect(*old(regs), *final(regs), ra, rs, rb, rc),
{
    let s = regs.gpr[rs as usize];
    let sh = regs.gpr[rb as usize] % 64;
    let result = if sh < 32 { s >> sh } else { 0 };
    finish(regs, ra, result, rc);
    Ok(())
}

} // verus!
