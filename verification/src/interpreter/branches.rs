//! Branch instructions.
use vstd::prelude::*;
use crate::error::Error;
use crate::registers::{Registers, cr_bit};

verus! {

/// Whether a conditional branch with options `bo` on CR bit `bi` is taken,
/// with `ctr` the count register after any decrement. Bit 2 of `bo` skips
/// the count test, bit 1 asks for a count of one; bit 3 skips the CR test,
/// bit 4 asks for the CR bit to be set.
pub open spec fn branch_condition(ctr: u32, cr: u32, bo: u8, bi: u8) -> bool {
    let ctr_ok = bo & 4u8 != 0 || ((ctr == 1) == (bo & 2u8 != 0));
    let cond_ok = bo & 8u8 != 0 || (cr_bit(cr, bi as u32) == (bo & 16u8 != 0));
    ctr_ok && cond_ok
}

/// `t` is `s` with the program counter, link and count registers set.
pub open spec fn branch_result(s: Registers, t: Registers, pc: u32, lr: u32, ctr: u32) -> bool {
    s.same_except_branch(t) && t.pc == pc && t.lr == lr && t.ctr == ctr
}

/// The link register after a branch that links when `lk`.
pub open spec fn link(s: Registers, lk: bool) -> u32 {
    if lk { (s.pc + 4) as u32 } else { s.lr }
}

/// CTR after the optional decrement of `bc` and `bclr`.
pub open spec fn counted(s: Registers, bo: u8) -> u32 {
    if bo & 4u8 == 0 { s.ctr.wrapping_sub(1) } else { s.ctr }
}

pub open spec fn b_effect(s: Registers, t: Registers, li: i32, aa: bool, lk: bool) -> bool {
    let target = if aa { li as u32 } else { s.pc.wrapping_add(li as u32) };
    branch_result(s, t, target & !3u32, link(s, lk), s.ctr)
}

pub open spec fn bc_effect(s: Registers, t: Registers, bo: u8, bi: u8, bd: i16, aa: bool, lk: bool) -> bool {
    let ctr = counted(s, bo);
    if branch_condition(ctr, s.cr, bo, bi) {
        let target = if aa { (bd as i32) as u32 } else { s.pc.wrapping_add((bd as i32) as u32) };
        branch_result(s, t, target & !3u32, link(s, lk), ctr)
    } else {
        branch_result(s, t, s.pc.wrapping_add(4), s.lr, ctr)
    }
}

pub open spec fn bcctr_effect(s: Registers, t: Registers, bo: u8, bi: u8, lk: bool) -> bool {
    if branch_condition(s.ctr, s.cr, bo, bi) {
        branch_result(s, t, s.ctr & !3u32, link(s, lk), s.ctr)
    } else {
        branch_result(s, t, s.pc.wrapping_add(4), s.lr, s.ctr)
    }
}

pub open spec fn bclr_effect(s: Registers, t: Registers, bo: u8, bi: u8, lk: bool) -> bool {
    let ctr = counted(s, bo);
    if branch_condition(ctr, s.cr, bo, bi) {
        branch_result(s, t, s.lr & !3u32, link(s, lk), ctr)
    } else {
        branch_result(s, t, s.pc.wrapping_add(4), s.lr, ctr)
    }
}

fn check_condition(regs: &Registers, bo: u8, bi: u8) -> (r: bool)
    requires
        bi < 32,
    ensures
        r == branch_condition(regs.ctr, regs.cr, bo, bi),
{
    let ctr_ok = if bo & 0b00100u8 != 0 {
        true
    } else {
        let ctr_zero = regs.ctr == 1;
        let ctr_should_be_zero = bo & 0b00010u8 != 0;
        ctr_zero == ctr_should_be_zero
    };
    let cond_ok = if bo & 0b01000u8 != 0 {
        true
    } else {
        let cr_bit_set = (regs.cr & (1u32 << (31 - bi))) != 0;
        let should_be_set = bo & 0b10000u8 != 0;
        cr_bit_set == should_be_set
    };
    ctr_ok && cond_ok
}

/// b: branch to li, relative to the PC unless `aa`; link when `lk`
pub fn b(regs: &mut Registers, li: i32, aa: bool, lk: bool) -> (r: Result<(), Error>)
    requires
        lk ==> old(regs).pc <= u32::MAX - 4,
    ensures
        r is Ok,
        b_effect(*old(regs), *final(regs), li, aa, lk),
{
    if lk {
        regs.lr = regs.pc + 4;
    }
    if aa {
        regs.pc = (li as u32) & !3u32;
    } else {
        regs.pc = regs.pc.wrapping_add(li as u32) & !3u32;
    }
    Ok(())
}

/// bc: conditional branch by bd
pub fn bc(regs: &mut Registers, bo: u8, bi: u8, bd: i16, aa: bool, lk: bool) -> (r: Result<(), Error>)
    requires
        bi < 32,
        lk ==> old(regs).pc <= u32::MAX - 4,
    ensures
        r is Ok,
        bc_effect(*old(regs), *final(regs), bo, bi, bd, aa, lk),
{
    if bo & 0b00100u8 == 0 {
        regs.ctr = regs.ctr.wrapping_sub(1);
    }
    if check_condition(regs, bo, bi) {
        if lk {
            regs.lr = regs.pc + 4;
        }
        let target = if aa { (bd as i32) as u32 } else { regs.pc.wrapping_add((bd as i32) as u32) };
        regs.pc = target & !3u32;
    } else {
        regs.pc = regs.pc.wrapping_add(4);
    }
    Ok(())
}

/// bcctr: conditional branch to CTR
pub fn bcctr(regs: &mut Registers, bo: u8, bi: u8, lk: bool) -> (r: Result<(), Error>)
    requires
        bi < 32,
        lk ==> old(regs).pc <= u32::MAX - 4,
    ensures
        r is Ok,
        bcctr_effect(*old(regs), *final(regs), bo, bi, lk),
{
    if check_condition(regs, bo, bi) {
        let target = regs.ctr & !3u32;
        if lk {
            regs.lr = regs.pc + 4;
        }
        regs.pc = target;
    } else {
        regs.pc = regs.pc.wrapping_add(4);
    }
    Ok(())
}

/// bclr: conditional branch to LR
pub fn bclr(regs: &mut Registers, bo: u8, bi: u8, lk: bool) -> (r: Result<(), Error>)
    requires
        bi < 32,
        lk ==> old(regs).pc <= u32::MAX - 4,
    ensures
        r is Ok,
        bclr_effect(*old(regs), *final(regs), bo, bi, lk),
{
    if bo & 0b00100u8 == 0 {
        regs.ctr = regs.ctr.wrapping_sub(1);
    }
    if check_condition(regs, bo, bi) {
        let target = regs.lr & !3u32;
        if lk {
            regs.lr = regs.pc + 4;
        }
        regs.pc = target;
    } else {
        regs.pc = regs.pc.wrapping_add(4);
    }
    Ok(())
}

} // verus!
