//! Condition register logical instructions.
use vstd::prelude::*;
use crate::error::Error;
use crate::registers::{Registers, cr_bit, with_cr_bit, cr_field, with_cr_field};

verus! {

fn get_cr_bit(regs: &Registers, bit: u8) -> (r: bool)
    requires
        bit < 32,
    ensures
        r == cr_bit(regs.cr, bit as u32),
{
    let cr = regs.cr;
    (cr & (1u32 << (31 - bit))) != 0
}

fn set_cr_bit(regs: &mut Registers, bit: u8, value: bool)
    requires
        bit < 32,
    ensures
        old(regs).cr_result(*final(regs), with_cr_bit(old(regs).cr, bit as u32, value)),
{
    let mask: u32 = 1u32 << (31 - bit);
    if value {
        regs.cr = regs.cr | mask;
    } else {
        regs.cr = regs.cr & !mask;
    }
}

pub open spec fn crand_effect(s: Registers, t: Registers, bt: u8, ba: u8, bb: u8) -> bool {
    let a = cr_bit(s.cr, ba as u32);
    let b = cr_bit(s.cr, bb as u32);
    s.cr_result(t, with_cr_bit(s.cr, bt as u32, a && b))
}

/// crand: bt = ba AND bb
pub fn crand(regs: &mut Registers, bt: u8, ba: u8, bb: u8) -> (r: Result<(), Error>)
    requires
        bt < 32 && ba < 32 && bb < 32,
    ensures
        r is Ok,
        crand_effect(*old(regs), *final(regs), bt, ba, bb),
{
    let a = get_cr_bit(regs, ba);
    let b = get_cr_bit(regs, bb);
    set_cr_bit(regs, bt, a && b);
    Ok(())
}

pub open spec fn crandc_effect(s: Registers, t: Registers, bt: u8, ba: u8, bb: u8) -> bool {
    let a = cr_bit(s.cr, ba as u32);
    let b = cr_bit(s.cr, bb as u32);
    s.cr_result(t, with_cr_bit(s.cr, bt as u32, a && !b))
}

/// crandc: bt = ba AND NOT bb
pub fn crandc(regs: &mut Registers, bt: u8, ba: u8, bb: u8) -> (r: Result<(), Error>)
    requires
        bt < 32 && ba < 32 && bb < 32,
    ensures
        r is Ok,
        crandc_effect(*old(regs), *final(regs), bt, ba, bb),
{
    let a = get_cr_bit(regs, ba);
    let b = get_cr_bit(regs, bb);
    set_cr_bit(regs, bt, a && !b);
    Ok(())
}

pub open spec fn creqv_effect(s: Registers, t: Registers, bt: u8, ba: u8, bb: u8) -> bool {
    let a = cr_bit(s.cr, ba as u32);
    let b = cr_bit(s.cr, bb as u32);
    s.cr_result(t, with_cr_bit(s.cr, bt as u32, a == b))
}

/// creqv: bt = ba EQUIVALENT bb
pub fn creqv(regs: &mut Registers, bt: u8, ba: u8, bb: u8) -> (r: Result<(), Error>)
    requires
        bt < 32 && ba < 32 && bb < 32,
    ensures
        r is Ok,
        creqv_effect(*old(regs), *final(regs), bt, ba, bb),
{
    let a = get_cr_bit(regs, ba);
    let b = get_cr_bit(regs, bb);
    set_cr_bit(regs, bt, a == b);
    Ok(())
}

pub open spec fn crnand_effect(s: Registers, t: Registers, bt: u8, ba: u8, bb: u8) -> bool {
    let a = cr_bit(s.cr, ba as u32);
    let b = cr_bit(s.cr, bb as u32);
    s.cr_result(t, with_cr_bit(s.cr, bt as u32, !(a && b)))
}

/// crnand: bt = NOT (ba AND bb)
pub fn crnand(regs: &mut Registers, bt: u8, ba: u8, bb: u8) -> (r: Result<(), Error>)
    requires
        bt < 32 && ba < 32 && bb < 32,
    ensures
        r is Ok,
        crnand_effect(*old(regs), *final(regs), bt, ba, bb),
{
    let a = get_cr_bit(regs, ba);
    let b = get_cr_bit(regs, bb);
    set_cr_bit(regs, bt, !(a && b));
    Ok(())
}

pub open spec fn crnor_effect(s: Registers, t: Registers, bt: u8, ba: u8, bb: u8) -> bool {
    let a = cr_bit(s.cr, ba as u32);
    let b = cr_bit(s.cr, bb as u32);
    s.cr_result(t, with_cr_bit(s.cr, bt as u32, !(a || b)))
}

/// crnor: bt = NOT (ba OR bb)
pub fn crnor(regs: &mut Registers, bt: u8, ba: u8, bb: u8) -> (r: Result<(), Error>)
    requires
        bt < 32 && ba < 32 && bb < 32,
    ensures
        r is Ok,
        crnor_effect(*old(regs), *final(regs), bt, ba, bb),
{
    let a = get_cr_bit(regs, ba);
    let b = get_cr_bit(regs, bb);
    set_cr_bit(regs, bt, !(a || b));
    Ok(())
}

pub open spec fn cror_effect(s: Registers, t: Registers, bt: u8, ba: u8, bb: u8) -> bool {
    let a = cr_bit(s.cr, ba as u32);
    let b = cr_bit(s.cr, bb as u32);
    s.cr_result(t, with_cr_bit(s.cr, bt as u32, a || b))
}

/// cror: bt = ba OR bb
pub fn cror(regs: &mut Registers, bt: u8, ba: u8, bb: u8) -> (r: Result<(), Error>)
    requires
        bt < 32 && ba < 32 && bb < 32,
    ensures
        r is Ok,
        cror_effect(*old(regs), *final(regs), bt, ba, bb),
{
    let a = get_cr_bit(regs, ba);
    let b = get_cr_bit(regs, bb);
    set_cr_bit(regs, bt, a || b);
    Ok(())
}

pub open spec fn crorc_effect(s: Registers, t: Registers, bt: u8, ba: u8, bb: u8) -> bool {
    let a = cr_bit(s.cr, ba as u32);
    let b = cr_bit(s.cr, bb as u32);
    s.cr_result(t, with_cr_bit(s.cr, bt as u32, a || !b))
}

/// crorc: bt = ba OR NOT bb
pub fn crorc(regs: &mut Registers, bt: u8, ba: u8, bb: u8) -> (r: Result<(), Error>)
    requires
        bt < 32 && ba < 32 && bb < 32,
    ensures
        r is Ok,
        crorc_effect(*old(regs), *final(regs), bt, ba, bb),
{
    let a = get_cr_bit(regs, ba);
    let b = get_cr_bit(regs, bb);
    set_cr_bit(regs, bt, a || !b);
    Ok(())
}

pub open spec fn crxor_effect(s: Registers, t: Registers, bt: u8, ba: u8, bb: u8) -> bool {
    let a = cr_bit(s.cr, ba as u32);
    let b = cr_bit(s.cr, bb as u32);
    s.cr_result(t, with_cr_bit(s.cr, bt as u32, a != b))
}

/// crxor: bt = ba XOR bb
pub fn crxor(regs: &mut Registers, bt: u8, ba: u8, bb: u8) -> (r: Result<(), Error>)
    requires
        bt < 32 && ba < 32 && bb < 32,
    ensures
        r is Ok,
        crxor_effect(*old(regs), *final(regs), bt, ba, bb),
{
    let a = get_cr_bit(regs, ba);
    let b = get_cr_bit(regs, bb);
    set_cr_bit(regs, bt, a != b);
    Ok(())
}

/// What `mcrf` leaves: field `crfd` of CR is a copy of field `crfs`.
pub open spec fn mcrf_effect(s: Registers, t: Registers, crfd: u8, crfs: u8) -> bool {
    s.cr_result(t, with_cr_field(s.cr, crfd as u32, cr_field(s.cr, crfs as u32)))
}

/// mcrf: copy CR field crfs to CR field crfd
pub fn mcrf(regs: &mut Registers, crfd: u8, crfs: u8) -> (r: Result<(), Error>)
    requires
        crfd < 8 && crfs < 8,
    ensures
        r is Ok,
        mcrf_effect(*old(regs), *final(regs), crfd, crfs),
{
    let src_shift: u32 = 28 - (crfs as u32) * 4;
    let dst_shift: u32 = 28 - (crfd as u32) * 4;
    let nibble = (regs.cr >> src_shift) & 0xF;
    regs.cr = (regs.cr & !(0xFu32 << dst_shift)) | (nibble << dst_shift);
    Ok(())
}

/// What `mcrxr` leaves: field `crfd` of CR holds XER's top four bits (SO,
/// OV, CA and the reserved bit), which are then cleared in XER.
pub open spec fn mcrxr_effect(s: Registers, t: Registers, crfd: u8) -> bool {
    t == (Registers { cr: with_cr_field(s.cr, crfd as u32, s.xer >> 28u32), xer: s.xer & 0x0FFF_FFFFu32, ..s })
}

/// mcrxr: move XER's top four bits to CR field crfd and clear them
pub fn mcrxr(regs: &mut Registers, crfd: u8) -> (r: Result<(), Error>)
    requires
        crfd < 8,
    ensures
        r is Ok,
        mcrxr_effect(*old(regs), *final(regs), crfd),
{
    let dst_shift: u32 = 28 - (crfd as u32) * 4;
    let nibble = regs.xer >> 28;
    regs.cr = (regs.cr & !(0xFu32 << dst_shift)) | (nibble << dst_shift);
    regs.xer = regs.xer & 0x0FFF_FFFF;
    Ok(())
}

} // verus!
