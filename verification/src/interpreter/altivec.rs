//! AltiVec instructions on the register file.
use vstd::prelude::*;
use crate::altivec::arithmetic;
use crate::altivec::compare;
use crate::altivec::logical;
use crate::altivec::memory;
use crate::altivec::pack;
use crate::altivec::permute;
use crate::altivec::shift;
use crate::altivec::memory::effective_address;
use crate::altivec::types::{Vector128, sat_i8, sat_u8, sat_i16, sat_u16, sat_i32};
use crate::altivec::permute::perm_pick;
use crate::altivec::shift::{rotl8, rotl16, rotl32};
use crate::altivec::pack::{pack_pixel, unpack_pixel};
use crate::cpu::MemoryInterface;
use crate::error::Error;
use crate::registers::Registers;
use super::arithmetic::base_or_zero;

verus! {

/// Vector register `i` of `s`.
pub open spec fn vreg(s: Registers, i: u8) -> Vector128 {
    s.vr[i as int]
}

/// `t` is `s` with at most vector register `vd` changed.
pub open spec fn vr_result(s: Registers, t: Registers, vd: u8) -> bool {
    t.vr@ == s.vr@.update(vd as int, t.vr@[vd as int]) && t == (Registers { vr: t.vr, ..s })
}

fn get_vector(regs: &Registers, vr: u8) -> (v: Vector128)
    requires
        vr < 32,
    ensures
        v == vreg(*regs, vr),
{
    regs.vr[vr as usize]
}

fn set_vector(regs: &mut Registers, vr: u8, v: Vector128)
    requires
        vr < 32,
    ensures
        vr_result(*old(regs), *final(regs), vr),
        vreg(*final(regs), vr) == v,
{
    regs.vr[vr as usize] = v;
}

/// What `vaddubm` leaves in the registers.
pub open spec fn vaddubm_effect(s: Registers, t: Registers, vd: u8, va: u8, vb: u8) -> bool {
    vr_result(s, t, vd) && ({
        let va = vreg(s, va);
        let vb = vreg(s, vb);
        let r = vreg(t, vd);
        &&& forall|i: int| 0 <= i < 16 ==> #[trigger] r.byte(i) == ((va.byte(i) as int + vb.byte(i) as int) % 256) as u8
    })
}

/// Vector Add Unsigned Byte Modulo (vaddubm)
pub fn vaddubm(regs: &mut Registers, vd: u8, va: u8, vb: u8) -> (r: Result<(), Error>)
    requires
        vd < 32 && va < 32 && vb < 32,
    ensures
        r is Ok,
        vaddubm_effect(*old(regs), *final(regs), vd, va, vb),
{
    let va_value = get_vector(regs, va);
    let vb_value = get_vector(regs, vb);
    let result = arithmetic::vaddubm(va_value, vb_value);
    set_vector(regs, vd, result);
    Ok(())
}

/// What `vadduhm` leaves in the registers.
pub open spec fn vadduhm_effect(s: Registers, t: Registers, vd: u8, va: u8, vb: u8) -> bool {
    vr_result(s, t, vd) && ({
        let va = vreg(s, va);
        let vb = vreg(s, vb);
        let r = vreg(t, vd);
        &&& forall|i: int| 0 <= i < 8 ==> #[trigger] r.half(i) == ((va.half(i) as int + vb.half(i) as int) % 65536) as u16
    })
}

/// Vector Add Unsigned Halfword Modulo (vadduhm)
pub fn vadduhm(regs: &mut Registers, vd: u8, va: u8, vb: u8) -> (r: Result<(), Error>)
    requires
        vd < 32 && va < 32 && vb < 32,
    ensures
        r is Ok,
        vadduhm_effect(*old(regs), *final(regs), vd, va, vb),
{
    let va_value = get_vector(regs, va);
    let vb_value = get_vector(regs, vb);
    let result = arithmetic::vadduhm(va_value, vb_value);
    set_vector(regs, vd, result);
    Ok(())
}

/// What `vadduwm` leaves in the registers.
pub open spec fn vadduwm_effect(s: Registers, t: Registers, vd: u8, va: u8, vb: u8) -> bool {
    vr_result(s, t, vd) && ({
        let va = vreg(s, va);
        let vb = vreg(s, vb);
        let r = vreg(t, vd);
        &&& forall|i: int| 0 <= i < 4 ==> #[trigger] r.word(i) == ((va.word(i) as int + vb.word(i) as int) % 0x1_0000_0000) as u32
    })
}

/// Vector Add Unsigned Word Modulo (vadduwm)
pub fn vadduwm(regs: &mut Registers, vd: u8, va: u8, vb: u8) -> (r: Result<(), Error>)
    requires
        vd < 32 && va < 32 && vb < 32,
    ensures
        r is Ok,
        vadduwm_effect(*old(regs), *final(regs), vd, va, vb),
{
    let va_value = get_vector(regs, va);
    let vb_value = get_vector(regs, vb);
    let result = arithmetic::vadduwm(va_value, vb_value);
    set_vector(regs, vd, result);
    Ok(())
}

/// What `vsububm` leaves in the registers.
pub open spec fn vsububm_effect(s: Registers, t: Registers, vd: u8, va: u8, vb: u8) -> bool {
    vr_result(s, t, vd) && ({
        let va = vreg(s, va);
        let vb = vreg(s, vb);
        let r = vreg(t, vd);
        &&& forall|i: int| 0 <= i < 16 ==> #[trigger] r.byte(i) == ((va.byte(i) as int - vb.byte(i) as int + 256) % 256) as u8
    })
}

/// Vector Subtract Unsigned Byte Modulo (vsububm)
pub fn vsububm(regs: &mut Registers, vd: u8, va: u8, vb: u8) -> (r: Result<(), Error>)
    requires
        vd < 32 && va < 32 && vb < 32,
    ensures
        r is Ok,
        vsububm_effect(*old(regs), *final(regs), vd, va, vb),
{
    let va_value = get_vector(regs, va);
    let vb_value = get_vector(regs, vb);
    let result = arithmetic::vsububm(va_value, vb_value);
    set_vector(regs, vd, result);
    Ok(())
}

/// What `vsubuhm` leaves in the registers.
pub open spec fn vsubuhm_effect(s: Registers, t: Registers, vd: u8, va: u8, vb: u8) -> bool {
    vr_result(s, t, vd) && ({
        let va = vreg(s, va);
        let vb = vreg(s, vb);
        let r = vreg(t, vd);
        &&& forall|i: int| 0 <= i < 8 ==> #[trigger] r.half(i) == ((va.half(i) as int - vb.half(i) as int + 65536) % 65536) as u16
    })
}

/// Vector Subtract Unsigned Halfword Modulo (vsubuhm)
pub fn vsubuhm(regs: &mut Registers, vd: u8, va: u8, vb: u8) -> (r: Result<(), Error>)
    requires
        vd < 32 && va < 32 && vb < 32,
    ensures
        r is Ok,
        vsubuhm_effect(*old(regs), *final(regs), vd, va, vb),
{
    let va_value = get_vector(regs, va);
    let vb_value = get_vector(regs, vb);
    let result = arithmetic::vsubuhm(va_value, vb_value);
    set_vector(regs, vd, result);
    Ok(())
}

/// What `vsubuwm` leaves in the registers.
pub open spec fn vsubuwm_effect(s: Registers, t: Registers, vd: u8, va: u8, vb: u8) -> bool {
    vr_result(s, t, vd) && ({
        let va = vreg(s, va);
        let vb = vreg(s, vb);
        let r = vreg(t, vd);
        &&& forall|i: int| 0 <= i < 4 ==> #[trigger] r.word(i) == ((va.word(i) as int - vb.word(i) as int + 0x1_0000_0000) % 0x1_0000_0000) as u32
    })
}

/// Vector Subtract Unsigned Word Modulo (vsubuwm)
pub fn vsubuwm(regs: &mut Registers, vd: u8, va: u8, vb: u8) -> (r: Result<(), Error>)
    requires
        vd < 32 && va < 32 && vb < 32,
    ensures
        r is Ok,
        vsubuwm_effect(*old(regs), *final(regs), vd, va, vb),
{
    let va_value = get_vector(regs, va);
    let vb_value = get_vector(regs, vb);
    let result = arithmetic::vsubuwm(va_value, vb_value);
    set_vector(regs, vd, result);
    Ok(())
}

/// What `vaddubs` leaves in the registers.
pub open spec fn vaddubs_effect(s: Registers, t: Registers, vd: u8, va: u8, vb: u8) -> bool {
    vr_result(s, t, vd) && ({
        let va = vreg(s, va);
        let vb = vreg(s, vb);
        let r = vreg(t, vd);
        &&& forall|i: int| 0 <= i < 16 ==> #[trigger] r.byte(i) == (if va.byte(i) as int + vb.byte(i) as int > 255 { 255u8 } else { (va.byte(i) + vb.byte(i)) as u8 })
    })
}

/// The flag is set when at least one lane saturated.
pub fn vaddubs(regs: &mut Registers, vd: u8, va: u8, vb: u8) -> (r: Result<(), Error>)
    requires
        vd < 32 && va < 32 && vb < 32,
    ensures
        r is Ok,
        vaddubs_effect(*old(regs), *final(regs), vd, va, vb),
{
    let va_value = get_vector(regs, va);
    let vb_value = get_vector(regs, vb);
    let (result, _saturated) = arithmetic::vaddubs(va_value, vb_value);
    set_vector(regs, vd, result);
    Ok(())
}

/// What `vadduhs` leaves in the registers.
pub open spec fn vadduhs_effect(s: Registers, t: Registers, vd: u8, va: u8, vb: u8) -> bool {
    vr_result(s, t, vd) && ({
        let va = vreg(s, va);
        let vb = vreg(s, vb);
        let r = vreg(t, vd);
        &&& forall|i: int| 0 <= i < 8 ==> #[trigger] r.half(i) == (if va.half(i) as int + vb.half(i) as int > 65535 { 65535u16 } else { (va.half(i) + vb.half(i)) as u16 })
    })
}

/// The flag is set when at least one lane saturated.
pub fn vadduhs(regs: &mut Registers, vd: u8, va: u8, vb: u8) -> (r: Result<(), Error>)
    requires
        vd < 32 && va < 32 && vb < 32,
    ensures
        r is Ok,
        vadduhs_effect(*old(regs), *final(regs), vd, va, vb),
{
    let va_value = get_vector(regs, va);
    let vb_value = get_vector(regs, vb);
    let (result, _saturated) = arithmetic::vadduhs(va_value, vb_value);
    set_vector(regs, vd, result);
    Ok(())
}

/// What `vadduws` leaves in the registers.
pub open spec fn vadduws_effect(s: Registers, t: Registers, vd: u8, va: u8, vb: u8) -> bool {
    vr_result(s, t, vd) && ({
        let va = vreg(s, va);
        let vb = vreg(s, vb);
        let r = vreg(t, vd);
        &&& forall|i: int| 0 <= i < 4 ==> #[trigger] r.word(i) == (if va.word(i) as int + vb.word(i) as int > 0xFFFF_FFFF { 0xFFFF_FFFFu32 } else { (va.word(i) + vb.word(i)) as u32 })
    })
}

/// The flag is set when at least one lane saturated.
pub fn vadduws(regs: &mut Registers, vd: u8, va: u8, vb: u8) -> (r: Result<(), Error>)
    requires
        vd < 32 && va < 32 && vb < 32,
    ensures
        r is Ok,
        vadduws_effect(*old(regs), *final(regs), vd, va, vb),
{
    let va_value = get_vector(regs, va);
    let vb_value = get_vector(regs, vb);
    let (result, _saturated) = arithmetic::vadduws(va_value, vb_value);
    set_vector(regs, vd, result);
    Ok(())
}

/// What `vaddsbs` leaves in the registers.
pub open spec fn vaddsbs_effect(s: Registers, t: Registers, vd: u8, va: u8, vb: u8) -> bool {
    vr_result(s, t, vd) && ({
        let va = vreg(s, va);
        let vb = vreg(s, vb);
        let r = vreg(t, vd);
        &&& forall|i: int| 0 <= i < 16 ==> #[trigger] r.byte(i) == sat_i8(va.sbyte(i) as int + vb.sbyte(i) as int) as u8
    })
}

/// The flag is set when at least one lane saturated.
pub fn vaddsbs(regs: &mut Registers, vd: u8, va: u8, vb: u8) -> (r: Result<(), Error>)
    requires
        vd < 32 && va < 32 && vb < 32,
    ensures
        r is Ok,
        vaddsbs_effect(*old(regs), *final(regs), vd, va, vb),
{
    let va_value = get_vector(regs, va);
    let vb_value = get_vector(regs, vb);
    let (result, _saturated) = arithmetic::vaddsbs(va_value, vb_value);
    set_vector(regs, vd, result);
    Ok(())
}

/// What `vaddshs` leaves in the registers.
pub open spec fn vaddshs_effect(s: Registers, t: Registers, vd: u8, va: u8, vb: u8) -> bool {
    vr_result(s, t, vd) && ({
        let va = vreg(s, va);
        let vb = vreg(s, vb);
        let r = vreg(t, vd);
        &&& forall|i: int| 0 <= i < 8 ==> #[trigger] r.half(i) == sat_i16(va.shalf(i) as int + vb.shalf(i) as int) as u16
    })
}

/// The flag is set when at least one lane saturated.
pub fn vaddshs(regs: &mut Registers, vd: u8, va: u8, vb: u8) -> (r: Result<(), Error>)
    requires
        vd < 32 && va < 32 && vb < 32,
    ensures
        r is Ok,
        vaddshs_effect(*old(regs), *final(regs), vd, va, vb),
{
    let va_value = get_vector(regs, va);
    let vb_value = get_vector(regs, vb);
    let (result, _saturated) = arithmetic::vaddshs(va_value, vb_value);
    set_vector(regs, vd, result);
    Ok(())
}

/// What `vaddsws` leaves in the registers.
pub open spec fn vaddsws_effect(s: Registers, t: Registers, vd: u8, va: u8, vb: u8) -> bool {
    vr_result(s, t, vd) && ({
        let va = vreg(s, va);
        let vb = vreg(s, vb);
        let r = vreg(t, vd);
        &&& forall|i: int| 0 <= i < 4 ==> #[trigger] r.word(i) == sat_i32(va.sword(i) as int + vb.sword(i) as int) as u32
    })
}

/// The flag is set when at least one lane saturated.
pub fn vaddsws(regs: &mut Registers, vd: u8, va: u8, vb: u8) -> (r: Result<(), Error>)
    requires
        vd < 32 && va < 32 && vb < 32,
    ensures
        r is Ok,
        vaddsws_effect(*old(regs), *final(regs), vd, va, vb),
{
    let va_value = get_vector(regs, va);
    let vb_value = get_vector(regs, vb);
    let (result, _saturated) = arithmetic::vaddsws(va_value, vb_value);
    set_vector(regs, vd, result);
    Ok(())
}

/// What `vmaxsb` leaves in the registers.
pub open spec fn vmaxsb_effect(s: Registers, t: Registers, vd: u8, va: u8, vb: u8) -> bool {
    vr_result(s, t, vd) && ({
        let va = vreg(s, va);
        let vb = vreg(s, vb);
        let r = vreg(t, vd);
        &&& forall|i: int| 0 <= i < 16 ==> #[trigger] r.byte(i) == (if va.sbyte(i) > vb.sbyte(i) { va.sbyte(i) } else { vb.sbyte(i) }) as u8
    })
}

/// Vector Maximum Signed Byte (vmaxsb)
pub fn vmaxsb(regs: &mut Registers, vd: u8, va: u8, vb: u8) -> (r: Result<(), Error>)
    requires
        vd < 32 && va < 32 && vb < 32,
    ensures
        r is Ok,
        vmaxsb_effect(*old(regs), *final(regs), vd, va, vb),
{
    let va_value = get_vector(regs, va);
    let vb_value = get_vector(regs, vb);
    let result = arithmetic::vmaxsb(va_value, vb_value);
    set_vector(regs, vd, result);
    Ok(())
}

/// What `vmaxsh` leaves in the registers.
pub open spec fn vmaxsh_effect(s: Registers, t: Registers, vd: u8, va: u8, vb: u8) -> bool {
    vr_result(s, t, vd) && ({
        let va = vreg(s, va);
        let vb = vreg(s, vb);
        let r = vreg(t, vd);
        &&& forall|i: int| 0 <= i < 8 ==> #[trigger] r.half(i) == (if va.shalf(i) > vb.shalf(i) { va.shalf(i) } else { vb.shalf(i) }) as u16
    })
}

/// Vector Maximum Signed Halfword (vmaxsh)
pub fn vmaxsh(regs: &mut Registers, vd: u8, va: u8, vb: u8) -> (r: Result<(), Error>)
    requires
        vd < 32 && va < 32 && vb < 32,
    ensures
        r is Ok,
        vmaxsh_effect(*old(regs), *final(regs), vd, va, vb),
{
    let va_value = get_vector(regs, va);
    let vb_value = get_vector(regs, vb);
    let result = arithmetic::vmaxsh(va_value, vb_value);
    set_vector(regs, vd, result);
    Ok(())
}

/// What `vmaxsw` leaves in the registers.
pub open spec fn vmaxsw_effect(s: Registers, t: Registers, vd: u8, va: u8, vb: u8) -> bool {
    vr_result(s, t, vd) && ({
        let va = vreg(s, va);
        let vb = vreg(s, vb);
        let r = vreg(t, vd);
        &&& forall|i: int| 0 <= i < 4 ==> #[trigger] r.word(i) == (if va.sword(i) > vb.sword(i) { va.sword(i) } else { vb.sword(i) }) as u32
    })
}

/// Vector Maximum Signed Word (vmaxsw)
pub fn vmaxsw(regs: &mut Registers, vd: u8, va: u8, vb: u8) -> (r: Result<(), Error>)
    requires
        vd < 32 && va < 32 && vb < 32,
    ensures
        r is Ok,
        vmaxsw_effect(*old(regs), *final(regs), vd, va, vb),
{
    let va_value = get_vector(regs, va);
    let vb_value = get_vector(regs, vb);
    let result = arithmetic::vmaxsw(va_value, vb_value);
    set_vector(regs, vd, result);
    Ok(())
}

/// What `vmaxub` leaves in the registers.
pub open spec fn vmaxub_effect(s: Registers, t: Registers, vd: u8, va: u8, vb: u8) -> bool {
    vr_result(s, t, vd) && ({
        let va = vreg(s, va);
        let vb = vreg(s, vb);
        let r = vreg(t, vd);
        &&& forall|i: int| 0 <= i < 16 ==> #[trigger] r.byte(i) == (if va.byte(i) > vb.byte(i) { va.byte(i) } else { vb.byte(i) })
    })
}

/// Vector Maximum Unsigned Byte (vmaxub)
pub fn vmaxub(regs: &mut Registers, vd: u8, va: u8, vb: u8) -> (r: Result<(), Error>)
    requires
        vd < 32 && va < 32 && vb < 32,
    ensures
        r is Ok,
        vmaxub_effect(*old(regs), *final(regs), vd, va, vb),
{
    let va_value = get_vector(regs, va);
    let vb_value = get_vector(regs, vb);
    let result = arithmetic::vmaxub(va_value, vb_value);
    set_vector(regs, vd, result);
    Ok(())
}

/// What `vmaxuh` leaves in the registers.
pub open spec fn vmaxuh_effect(s: Registers, t: Registers, vd: u8, va: u8, vb: u8) -> bool {
    vr_result(s, t, vd) && ({
        let va = vreg(s, va);
        let vb = vreg(s, vb);
        let r = vreg(t, vd);
        &&& forall|i: int| 0 <= i < 8 ==> #[trigger] r.half(i) == (if va.half(i) > vb.half(i) { va.half(i) } else { vb.half(i) })
    })
}

/// Vector Maximum Unsigned Halfword (vmaxuh)
pub fn vmaxuh(regs: &mut Registers, vd: u8, va: u8, vb: u8) -> (r: Result<(), Error>)
    requires
        vd < 32 && va < 32 && vb < 32,
    ensures
        r is Ok,
        vmaxuh_effect(*old(regs), *final(regs), vd, va, vb),
{
    let va_value = get_vector(regs, va);
    let vb_value = get_vector(regs, vb);
    let result = arithmetic::vmaxuh(va_value, vb_value);
    set_vector(regs, vd, result);
    Ok(())
}

/// What `vmaxuw` leaves in the registers.
pub open spec fn vmaxuw_effect(s: Registers, t: Registers, vd: u8, va: u8, vb: u8) -> bool {
    vr_result(s, t, vd) && ({
        let va = vreg(s, va);
        let vb = vreg(s, vb);
        let r = vreg(t, vd);
        &&& forall|i: int| 0 <= i < 4 ==> #[trigger] r.word(i) == (if va.word(i) > vb.word(i) { va.word(i) } else { vb.word(i) })
    })
}

/// Vector Maximum Unsigned Word (vmaxuw)
pub fn vmaxuw(regs: &mut Registers, vd: u8, va: u8, vb: u8) -> (r: Result<(), Error>)
    requires
        vd < 32 && va < 32 && vb < 32,
    ensures
        r is Ok,
        vmaxuw_effect(*old(regs), *final(regs), vd, va, vb),
{
    let va_value = get_vector(regs, va);
    let vb_value = get_vector(regs, vb);
    let result = arithmetic::vmaxuw(va_value, vb_value);
    set_vector(regs, vd, result);
    Ok(())
}

/// What `vminsb` leaves in the registers.
pub open spec fn vminsb_effect(s: Registers, t: Registers, vd: u8, va: u8, vb: u8) -> bool {
    vr_result(s, t, vd) && ({
        let va = vreg(s, va);
        let vb = vreg(s, vb);
        let r = vreg(t, vd);
        &&& forall|i: int| 0 <= i < 16 ==> #[trigger] r.byte(i) == (if va.sbyte(i) < vb.sbyte(i) { va.sbyte(i) } else { vb.sbyte(i) }) as u8
    })
}

/// Vector Minimum Signed Byte (vminsb)
pub fn vminsb(regs: &mut Registers, vd: u8, va: u8, vb: u8) -> (r: Result<(), Error>)
    requires
        vd < 32 && va < 32 && vb < 32,
    ensures
        r is Ok,
        vminsb_effect(*old(regs), *final(regs), vd, va, vb),
{
    let va_value = get_vector(regs, va);
    let vb_value = get_vector(regs, vb);
    let result = arithmetic::vminsb(va_value, vb_value);
    set_vector(regs, vd, result);
    Ok(())
}

/// What `vminsh` leaves in the registers.
pub open spec fn vminsh_effect(s: Registers, t: Registers, vd: u8, va: u8, vb: u8) -> bool {
    vr_result(s, t, vd) && ({
        let va = vreg(s, va);
        let vb = vreg(s, vb);
        let r = vreg(t, vd);
        &&& forall|i: int| 0 <= i < 8 ==> #[trigger] r.half(i) == (if va.shalf(i) < vb.shalf(i) { va.shalf(i) } else { vb.shalf(i) }) as u16
    })
}

/// Vector Minimum Signed Halfword (vminsh)
pub fn vminsh(regs: &mut Registers, vd: u8, va: u8, vb: u8) -> (r: Result<(), Error>)
    requires
        vd < 32 && va < 32 && vb < 32,
    ensures
        r is Ok,
        vminsh_effect(*old(regs), *final(regs), vd, va, vb),
{
    let va_value = get_vector(regs, va);
    let vb_value = get_vector(regs, vb);
    let result = arithmetic::vminsh(va_value, vb_value);
    set_vector(regs, vd, result);
    Ok(())
}

/// What `vminsw` leaves in the registers.
pub open spec fn vminsw_effect(s: Registers, t: Registers, vd: u8, va: u8, vb: u8) -> bool {
    vr_result(s, t, vd) && ({
        let va = vreg(s, va);
        let vb = vreg(s, vb);
        let r = vreg(t, vd);
        &&& forall|i: int| 0 <= i < 4 ==> #[trigger] r.word(i) == (if va.sword(i) < vb.sword(i) { va.sword(i) } else { vb.sword(i) }) as u32
    })
}

/// Vector Minimum Signed Word (vminsw)
pub fn vminsw(regs: &mut Registers, vd: u8, va: u8, vb: u8) -> (r: Result<(), Error>)
    requires
        vd < 32 && va < 32 && vb < 32,
    ensures
        r is Ok,
        vminsw_effect(*old(regs), *final(regs), vd, va, vb),
{
    let va_value = get_vector(regs, va);
    let vb_value = get_vector(regs, vb);
    let result = arithmetic::vminsw(va_value, vb_value);
    set_vector(regs, vd, result);
    Ok(())
}

/// What `vminub` leaves in the registers.
pub open spec fn vminub_effect(s: Registers, t: Registers, vd: u8, va: u8, vb: u8) -> bool {
    vr_result(s, t, vd) && ({
        let va = vreg(s, va);
        let vb = vreg(s, vb);
        let r = vreg(t, vd);
        &&& forall|i: int| 0 <= i < 16 ==> #[trigger] r.byte(i) == (if va.byte(i) < vb.byte(i) { va.byte(i) } else { vb.byte(i) })
    })
}

/// Vector Minimum Unsigned Byte (vminub)
pub fn vminub(regs: &mut Registers, vd: u8, va: u8, vb: u8) -> (r: Result<(), Error>)
    requires
        vd < 32 && va < 32 && vb < 32,
    ensures
        r is Ok,
        vminub_effect(*old(regs), *final(regs), vd, va, vb),
{
    let va_value = get_vector(regs, va);
    let vb_value = get_vector(regs, vb);
    let result = arithmetic::vminub(va_value, vb_value);
    set_vector(regs, vd, result);
    Ok(())
}

/// What `vminuh` leaves in the registers.
pub open spec fn vminuh_effect(s: Registers, t: Registers, vd: u8, va: u8, vb: u8) -> bool {
    vr_result(s, t, vd) && ({
        let va = vreg(s, va);
        let vb = vreg(s, vb);
        let r = vreg(t, vd);
        &&& forall|i: int| 0 <= i < 8 ==> #[trigger] r.half(i) == (if va.half(i) < vb.half(i) { va.half(i) } else { vb.half(i) })
    })
}

/// Vector Minimum Unsigned Halfword (vminuh)
pub fn vminuh(regs: &mut Registers, vd: u8, va: u8, vb: u8) -> (r: Result<(), Error>)
    requires
        vd < 32 && va < 32 && vb < 32,
    ensures
        r is Ok,
        vminuh_effect(*old(regs), *final(regs), vd, va, vb),
{
    let va_value = get_vector(regs, va);
    let vb_value = get_vector(regs, vb);
    let result = arithmetic::vminuh(va_value, vb_value);
    set_vector(regs, vd, result);
    Ok(())
}

/// What `vminuw` leaves in the registers.
pub open spec fn vminuw_effect(s: Registers, t: Registers, vd: u8, va: u8, vb: u8) -> bool {
    vr_result(s, t, vd) && ({
        let va = vreg(s, va);
        let vb = vreg(s, vb);
        let r = vreg(t, vd);
        &&& forall|i: int| 0 <= i < 4 ==> #[trigger] r.word(i) == (if va.word(i) < vb.word(i) { va.word(i) } else { vb.word(i) })
    })
}

/// Vector Minimum Unsigned Word (vminuw)
pub fn vminuw(regs: &mut Registers, vd: u8, va: u8, vb: u8) -> (r: Result<(), Error>)
    requires
        vd < 32 && va < 32 && vb < 32,
    ensures
        r is Ok,
        vminuw_effect(*old(regs), *final(regs), vd, va, vb),
{
    let va_value = get_vector(regs, va);
    let vb_value = get_vector(regs, vb);
    let result = arithmetic::vminuw(va_value, vb_value);
    set_vector(regs, vd, result);
    Ok(())
}

/// What `vand` leaves in the registers.
pub open spec fn vand_effect(s: Registers, t: Registers, vd: u8, va: u8, vb: u8) -> bool {
    vr_result(s, t, vd) && ({
        let va = vreg(s, va);
        let vb = vreg(s, vb);
        let r = vreg(t, vd);
        &&& forall|i: int| 0 <= i < 4 ==> #[trigger] r.word(i) == va.word(i) & vb.word(i)
    })
}

/// Vector Logical AND (vand)
pub fn vand(regs: &mut Registers, vd: u8, va: u8, vb: u8) -> (r: Result<(), Error>)
    requires
        vd < 32 && va < 32 && vb < 32,
    ensures
        r is Ok,
        vand_effect(*old(regs), *final(regs), vd, va, vb),
{
    let va_value = get_vector(regs, va);
    let vb_value = get_vector(regs, vb);
    let result = logical::vand(va_value, vb_value);
    set_vector(regs, vd, result);
    Ok(())
}

/// What `vandc` leaves in the registers.
pub open spec fn vandc_effect(s: Registers, t: Registers, vd: u8, va: u8, vb: u8) -> bool {
    vr_result(s, t, vd) && ({
        let va = vreg(s, va);
        let vb = vreg(s, vb);
        let r = vreg(t, vd);
        &&& forall|i: int| 0 <= i < 4 ==> #[trigger] r.word(i) == va.word(i) & !vb.word(i)
    })
}

/// Vector Logical AND with Complement (vandc)
pub fn vandc(regs: &mut Registers, vd: u8, va: u8, vb: u8) -> (r: Result<(), Error>)
    requires
        vd < 32 && va < 32 && vb < 32,
    ensures
        r is Ok,
        vandc_effect(*old(regs), *final(regs), vd, va, vb),
{
    let va_value = get_vector(regs, va);
    let vb_value = get_vector(regs, vb);
    let result = logical::vandc(va_value, vb_value);
    set_vector(regs, vd, result);
    Ok(())
}

/// What `vor` leaves in the registers.
pub open spec fn vor_effect(s: Registers, t: Registers, vd: u8, va: u8, vb: u8) -> bool {
    vr_result(s, t, vd) && ({
        let va = vreg(s, va);
        let vb = vreg(s, vb);
        let r = vreg(t, vd);
        &&& forall|i: int| 0 <= i < 4 ==> #[trigger] r.word(i) == va.word(i) | vb.word(i)
    })
}

/// Vector Logical OR (vor)
pub fn vor(regs: &mut Registers, vd: u8, va: u8, vb: u8) -> (r: Result<(), Error>)
    requires
        vd < 32 && va < 32 && vb < 32,
    ensures
        r is Ok,
        vor_effect(*old(regs), *final(regs), vd, va, vb),
{
    let va_value = get_vector(regs, va);
    let vb_value = get_vector(regs, vb);
    let result = logical::vor(va_value, vb_value);
    set_vector(regs, vd, result);
    Ok(())
}

/// What `vnor` leaves in the registers.
pub open spec fn vnor_effect(s: Registers, t: Registers, vd: u8, va: u8, vb: u8) -> bool {
    vr_result(s, t, vd) && ({
        let va = vreg(s, va);
        let vb = vreg(s, vb);
        let r = vreg(t, vd);
        &&& forall|i: int| 0 <= i < 4 ==> #[trigger] r.word(i) == !(va.word(i) | vb.word(i))
    })
}

/// Vector Logical NOR (vnor)
pub fn vnor(regs: &mut Registers, vd: u8, va: u8, vb: u8) -> (r: Result<(), Error>)
    requires
        vd < 32 && va < 32 && vb < 32,
    ensures
        r is Ok,
        vnor_effect(*old(regs), *final(regs), vd, va, vb),
{
    let va_value = get_vector(regs, va);
    let vb_value = get_vector(regs, vb);
    let result = logical::vnor(va_value, vb_value);
    set_vector(regs, vd, result);
    Ok(())
}

/// What `vxor` leaves in the registers.
pub open spec fn vxor_effect(s: Registers, t: Registers, vd: u8, va: u8, vb: u8) -> bool {
    vr_result(s, t, vd) && ({
        let va = vreg(s, va);
        let vb = vreg(s, vb);
        let r = vreg(t, vd);
        &&& forall|i: int| 0 <= i < 4 ==> #[trigger] r.word(i) == va.word(i) ^ vb.word(i)
    })
}

/// Vector Logical XOR (vxor)
pub fn vxor(regs: &mut Registers, vd: u8, va: u8, vb: u8) -> (r: Result<(), Error>)
    requires
        vd < 32 && va < 32 && vb < 32,
    ensures
        r is Ok,
        vxor_effect(*old(regs), *final(regs), vd, va, vb),
{
    let va_value = get_vector(regs, va);
    let vb_value = get_vector(regs, vb);
    let result = logical::vxor(va_value, vb_value);
    set_vector(regs, vd, result);
    Ok(())
}

/// What `vcmpequb` leaves in the registers.
pub open spec fn vcmpequb_effect(s: Registers, t: Registers, vd: u8, va: u8, vb: u8) -> bool {
    vr_result(s, t, vd) && ({
        let va = vreg(s, va);
        let vb = vreg(s, vb);
        let r = vreg(t, vd);
        &&& forall|i: int| 0 <= i < 16 ==> #[trigger] r.byte(i) == (if va.byte(i) == vb.byte(i) { 0xFFu8 } else { 0u8 })
    })
}

/// Vector Compare Equal Unsigned Byte (vcmpequb)
pub fn vcmpequb(regs: &mut Registers, vd: u8, va: u8, vb: u8, _rc: bool) -> (r: Result<(), Error>)
    requires
        vd < 32 && va < 32 && vb < 32,
    ensures
        r is Ok,
        vcmpequb_effect(*old(regs), *final(regs), vd, va, vb),
{
    let va_value = get_vector(regs, va);
    let vb_value = get_vector(regs, vb);
    let result = compare::vcmpequb(va_value, vb_value);
    set_vector(regs, vd, result);
    Ok(())
}

/// What `vcmpequh` leaves in the registers.
pub open spec fn vcmpequh_effect(s: Registers, t: Registers, vd: u8, va: u8, vb: u8) -> bool {
    vr_result(s, t, vd) && ({
        let va = vreg(s, va);
        let vb = vreg(s, vb);
        let r = vreg(t, vd);
        &&& forall|i: int| 0 <= i < 8 ==> #[trigger] r.half(i) == (if va.half(i) == vb.half(i) { 0xFFFFu16 } else { 0u16 })
    })
}

/// Vector Compare Equal Unsigned Halfword (vcmpequh)
pub fn vcmpequh(regs: &mut Registers, vd: u8, va: u8, vb: u8, _rc: bool) -> (r: Result<(), Error>)
    requires
        vd < 32 && va < 32 && vb < 32,
    ensures
        r is Ok,
        vcmpequh_effect(*old(regs), *final(regs), vd, va, vb),
{
    let va_value = get_vector(regs, va);
    let vb_value = get_vector(regs, vb);
    let result = compare::vcmpequh(va_value, vb_value);
    set_vector(regs, vd, result);
    Ok(())
}

/// What `vcmpequw` leaves in the registers.
pub open spec fn vcmpequw_effect(s: Registers, t: Registers, vd: u8, va: u8, vb: u8) -> bool {
    vr_result(s, t, vd) && ({
        let va = vreg(s, va);
        let vb = vreg(s, vb);
        let r = vreg(t, vd);
        &&& forall|i: int| 0 <= i < 4 ==> #[trigger] r.word(i) == (if va.word(i) == vb.word(i) { 0xFFFF_FFFFu32 } else { 0u32 })
    })
}

/// Vector Compare Equal Unsigned Word (vcmpequw)
pub fn vcmpequw(regs: &mut Registers, vd: u8, va: u8, vb: u8, _rc: bool) -> (r: Result<(), Error>)
    requires
        vd < 32 && va < 32 && vb < 32,
    ensures
        r is Ok,
        vcmpequw_effect(*old(regs), *final(regs), vd, va, vb),
{
    let va_value = get_vector(regs, va);
    let vb_value = get_vector(regs, vb);
    let result = compare::vcmpequw(va_value, vb_value);
    set_vector(regs, vd, result);
    Ok(())
}

/// What `vcmpgtsb` leaves in the registers.
pub open spec fn vcmpgtsb_effect(s: Registers, t: Registers, vd: u8, va: u8, vb: u8) -> bool {
    vr_result(s, t, vd) && ({
        let va = vreg(s, va);
        let vb = vreg(s, vb);
        let r = vreg(t, vd);
        &&& forall|i: int| 0 <= i < 16 ==> #[trigger] r.byte(i) == (if va.sbyte(i) > vb.sbyte(i) { 0xFFu8 } else { 0u8 })
    })
}

/// Vector Compare Greater Than Signed Byte (vcmpgtsb)
pub fn vcmpgtsb(regs: &mut Registers, vd: u8, va: u8, vb: u8, _rc: bool) -> (r: Result<(), Error>)
    requires
        vd < 32 && va < 32 && vb < 32,
    ensures
        r is Ok,
        vcmpgtsb_effect(*old(regs), *final(regs), vd, va, vb),
{
    let va_value = get_vector(regs, va);
    let vb_value = get_vector(regs, vb);
    let result = compare::vcmpgtsb(va_value, vb_value);
    set_vector(regs, vd, result);
    Ok(())
}

/// What `vcmpgtsh` leaves in the registers.
pub open spec fn vcmpgtsh_effect(s: Registers, t: Registers, vd: u8, va: u8, vb: u8) -> bool {
    vr_result(s, t, vd) && ({
        let va = vreg(s, va);
        let vb = vreg(s, vb);
        let r = vreg(t, vd);
        &&& forall|i: int| 0 <= i < 8 ==> #[trigger] r.half(i) == (if va.shalf(i) > vb.shalf(i) { 0xFFFFu16 } else { 0u16 })
    })
}

/// Vector Compare Greater Than Signed Halfword (vcmpgtsh)
pub fn vcmpgtsh(regs: &mut Registers, vd: u8, va: u8, vb: u8, _rc: bool) -> (r: Result<(), Error>)
    requires
        vd < 32 && va < 32 && vb < 32,
    ensures
        r is Ok,
        vcmpgtsh_effect(*old(regs), *final(regs), vd, va, vb),
{
    let va_value = get_vector(regs, va);
    let vb_value = get_vector(regs, vb);
    let result = compare::vcmpgtsh(va_value, vb_value);
    set_vector(regs, vd, result);
    Ok(())
}

/// What `vcmpgtsw` leaves in the registers.
pub open spec fn vcmpgtsw_effect(s: Registers, t: Registers, vd: u8, va: u8, vb: u8) -> bool {
    vr_result(s, t, vd) && ({
        let va = vreg(s, va);
        let vb = vreg(s, vb);
        let r = vreg(t, vd);
        &&& forall|i: int| 0 <= i < 4 ==> #[trigger] r.word(i) == (if va.sword(i) > vb.sword(i) { 0xFFFF_FFFFu32 } else { 0u32 })
    })
}

/// Vector Compare Greater Than Signed Word (vcmpgtsw)
pub fn vcmpgtsw(regs: &mut Registers, vd: u8, va: u8, vb: u8, _rc: bool) -> (r: Result<(), Error>)
    requires
        vd < 32 && va < 32 && vb < 32,
    ensures
        r is Ok,
        vcmpgtsw_effect(*old(regs), *final(regs), vd, va, vb),
{
    let va_value = get_vector(regs, va);
    let vb_value = get_vector(regs, vb);
    let result = compare::vcmpgtsw(va_value, vb_value);
    set_vector(regs, vd, result);
    Ok(())
}

/// What `vcmpgtub` leaves in the registers.
pub open spec fn vcmpgtub_effect(s: Registers, t: Registers, vd: u8, va: u8, vb: u8) -> bool {
    vr_result(s, t, vd) && ({
        let va = vreg(s, va);
        let vb = vreg(s, vb);
        let r = vreg(t, vd);
        &&& forall|i: int| 0 <= i < 16 ==> #[trigger] r.byte(i) == (if va.byte(i) > vb.byte(i) { 0xFFu8 } else { 0u8 })
    })
}

/// Vector Compare Greater Than Unsigned Byte (vcmpgtub)
pub fn vcmpgtub(regs: &mut Registers, vd: u8, va: u8, vb: u8, _rc: bool) -> (r: Result<(), Error>)
    requires
        vd < 32 && va < 32 && vb < 32,
    ensures
        r is Ok,
        vcmpgtub_effect(*old(regs), *final(regs), vd, va, vb),
{
    let va_value = get_vector(regs, va);
    let vb_value = get_vector(regs, vb);
    let result = compare::vcmpgtub(va_value, vb_value);
    set_vector(regs, vd, result);
    Ok(())
}

/// What `vcmpgtuh` leaves in the registers.
pub open spec fn vcmpgtuh_effect(s: Registers, t: Registers, vd: u8, va: u8, vb: u8) -> bool {
    vr_result(s, t, vd) && ({
        let va = vreg(s, va);
        let vb = vreg(s, vb);
        let r = vreg(t, vd);
        &&& forall|i: int| 0 <= i < 8 ==> #[trigger] r.half(i) == (if va.half(i) > vb.half(i) { 0xFFFFu16 } else { 0u16 })
    })
}

/// Vector Compare Greater Than Unsigned Halfword (vcmpgtuh)
pub fn vcmpgtuh(regs: &mut Registers, vd: u8, va: u8, vb: u8, _rc: bool) -> (r: Result<(), Error>)
    requires
        vd < 32 && va < 32 && vb < 32,
    ensures
        r is Ok,
        vcmpgtuh_effect(*old(regs), *final(regs), vd, va, vb),
{
    let va_value = get_vector(regs, va);
    let vb_value = get_vector(regs, vb);
    let result = compare::vcmpgtuh(va_value, vb_value);
    set_vector(regs, vd, result);
    Ok(())
}

/// What `vcmpgtuw` leaves in the registers.
pub open spec fn vcmpgtuw_effect(s: Registers, t: Registers, vd: u8, va: u8, vb: u8) -> bool {
    vr_result(s, t, vd) && ({
        let va = vreg(s, va);
        let vb = vreg(s, vb);
        let r = vreg(t, vd);
        &&& forall|i: int| 0 <= i < 4 ==> #[trigger] r.word(i) == (if va.word(i) > vb.word(i) { 0xFFFF_FFFFu32 } else { 0u32 })
    })
}

/// Vector Compare Greater Than Unsigned Word (vcmpgtuw)
pub fn vcmpgtuw(regs: &mut Registers, vd: u8, va: u8, vb: u8, _rc: bool) -> (r: Result<(), Error>)
    requires
        vd < 32 && va < 32 && vb < 32,
    ensures
        r is Ok,
        vcmpgtuw_effect(*old(regs), *final(regs), vd, va, vb),
{
    let va_value = get_vector(regs, va);
    let vb_value = get_vector(regs, vb);
    let result = compare::vcmpgtuw(va_value, vb_value);
    set_vector(regs, vd, result);
    Ok(())
}

/// What `vslb` leaves in the registers.
pub open spec fn vslb_effect(s: Registers, t: Registers, vd: u8, va: u8, vb: u8) -> bool {
    vr_result(s, t, vd) && ({
        let va = vreg(s, va);
        let vb = vreg(s, vb);
        let r = vreg(t, vd);
        &&& forall|i: int| 0 <= i < 16 ==> #[trigger] r.byte(i) == (va.byte(i) << (vb.byte(i) & 7u8))
    })
}

/// Vector Shift Left Byte (vslb)
pub fn vslb(regs: &mut Registers, vd: u8, va: u8, vb: u8) -> (r: Result<(), Error>)
    requires
        vd < 32 && va < 32 && vb < 32,
    ensures
        r is Ok,
        vslb_effect(*old(regs), *final(regs), vd, va, vb),
{
    let va_value = get_vector(regs, va);
    let vb_value = get_vector(regs, vb);
    let result = shift::vslb(va_value, vb_value);
    set_vector(regs, vd, result);
    Ok(())
}

/// What `vslh` leaves in the registers.
pub open spec fn vslh_effect(s: Registers, t: Registers, vd: u8, va: u8, vb: u8) -> bool {
    vr_result(s, t, vd) && ({
        let va = vreg(s, va);
        let vb = vreg(s, vb);
        let r = vreg(t, vd);
        &&& forall|i: int| 0 <= i < 8 ==> #[trigger] r.half(i) == (va.half(i) << (vb.half(i) & 15u16))
    })
}

/// Vector Shift Left Halfword (vslh)
pub fn vslh(regs: &mut Registers, vd: u8, va: u8, vb: u8) -> (r: Result<(), Error>)
    requires
        vd < 32 && va < 32 && vb < 32,
    ensures
        r is Ok,
        vslh_effect(*old(regs), *final(regs), vd, va, vb),
{
    let va_value = get_vector(regs, va);
    let vb_value = get_vector(regs, vb);
    let result = shift::vslh(va_value, vb_value);
    set_vector(regs, vd, result);
    Ok(())
}

/// What `vslw` leaves in the registers.
pub open spec fn vslw_effect(s: Registers, t: Registers, vd: u8, va: u8, vb: u8) -> bool {
    vr_result(s, t, vd) && ({
        let va = vreg(s, va);
        let vb = vreg(s, vb);
        let r = vreg(t, vd);
        &&& forall|i: int| 0 <= i < 4 ==> #[trigger] r.word(i) == (va.word(i) << (vb.word(i) & 31u32))
    })
}

/// Vector Shift Left Word (vslw)
pub fn vslw(regs: &mut Registers, vd: u8, va: u8, vb: u8) -> (r: Result<(), Error>)
    requires
        vd < 32 && va < 32 && vb < 32,
    ensures
        r is Ok,
        vslw_effect(*old(regs), *final(regs), vd, va, vb),
{
    let va_value = get_vector(regs, va);
    let vb_value = get_vector(regs, vb);
    let result = shift::vslw(va_value, vb_value);
    set_vector(regs, vd, result);
    Ok(())
}

/// What `vsrb` leaves in the registers.
pub open spec fn vsrb_effect(s: Registers, t: Registers, vd: u8, va: u8, vb: u8) -> bool {
    vr_result(s, t, vd) && ({
        let va = vreg(s, va);
        let vb = vreg(s, vb);
        let r = vreg(t, vd);
        &&& forall|i: int| 0 <= i < 16 ==> #[trigger] r.byte(i) == (va.byte(i) >> (vb.byte(i) & 7u8))
    })
}

/// Vector Shift Right Byte (vsrb)
pub fn vsrb(regs: &mut Registers, vd: u8, va: u8, vb: u8) -> (r: Result<(), Error>)
    requires
        vd < 32 && va < 32 && vb < 32,
    ensures
        r is Ok,
        vsrb_effect(*old(regs), *final(regs), vd, va, vb),
{
    let va_value = get_vector(regs, va);
    let vb_value = get_vector(regs, vb);
    let result = shift::vsrb(va_value, vb_value);
    set_vector(regs, vd, result);
    Ok(())
}

/// What `vsrh` leaves in the registers.
pub open spec fn vsrh_effect(s: Registers, t: Registers, vd: u8, va: u8, vb: u8) -> bool {
    vr_result(s, t, vd) && ({
        let va = vreg(s, va);
        let vb = vreg(s, vb);
        let r = vreg(t, vd);
        &&& forall|i: int| 0 <= i < 8 ==> #[trigger] r.half(i) == (va.half(i) >> (vb.half(i) & 15u16))
    })
}

/// Vector Shift Right Halfword (vsrh)
pub fn vsrh(regs: &mut Registers, vd: u8, va: u8, vb: u8) -> (r: Result<(), Error>)
    requires
        vd < 32 && va < 32 && vb < 32,
    ensures
        r is Ok,
        vsrh_effect(*old(regs), *final(regs), vd, va, vb),
{
    let va_value = get_vector(regs, va);
    let vb_value = get_vector(regs, vb);
    let result = shift::vsrh(va_value, vb_value);
    set_vector(regs, vd, result);
    Ok(())
}

/// What `vsrw` leaves in the registers.
pub open spec fn vsrw_effect(s: Registers, t: Registers, vd: u8, va: u8, vb: u8) -> bool {
    vr_result(s, t, vd) && ({
        let va = vreg(s, va);
        let vb = vreg(s, vb);
        let r = vreg(t, vd);
        &&& forall|i: int| 0 <= i < 4 ==> #[trigger] r.word(i) == (va.word(i) >> (vb.word(i) & 31u32))
    })
}

/// Vector Shift Right Word (vsrw)
pub fn vsrw(regs: &mut Registers, vd: u8, va: u8, vb: u8) -> (r: Result<(), Error>)
    requires
        vd < 32 && va < 32 && vb < 32,
    ensures
        r is Ok,
        vsrw_effect(*old(regs), *final(regs), vd, va, vb),
{
    let va_value = get_vector(regs, va);
    let vb_value = get_vector(regs, vb);
    let result = shift::vsrw(va_value, vb_value);
    set_vector(regs, vd, result);
    Ok(())
}

/// What `vsrab` leaves in the registers.
pub open spec fn vsrab_effect(s: Registers, t: Registers, vd: u8, va: u8, vb: u8) -> bool {
    vr_result(s, t, vd) && ({
        let va = vreg(s, va);
        let vb = vreg(s, vb);
        let r = vreg(t, vd);
        &&& forall|i: int| 0 <= i < 16 ==> #[trigger] r.byte(i) == (va.sbyte(i) >> (vb.byte(i) & 7u8)) as u8
    })
}

/// Vector Shift Right Algebraic Byte (vsrab)
pub fn vsrab(regs: &mut Registers, vd: u8, va: u8, vb: u8) -> (r: Result<(), Error>)
    requires
        vd < 32 && va < 32 && vb < 32,
    ensures
        r is Ok,
        vsrab_effect(*old(regs), *final(regs), vd, va, vb),
{
    let va_value = get_vector(regs, va);
    let vb_value = get_vector(regs, vb);
    let result = shift::vsrab(va_value, vb_value);
    set_vector(regs, vd, result);
    Ok(())
}

/// What `vsrah` leaves in the registers.
pub open spec fn vsrah_effect(s: Registers, t: Registers, vd: u8, va: u8, vb: u8) -> bool {
    vr_result(s, t, vd) && ({
        let va = vreg(s, va);
        let vb = vreg(s, vb);
        let r = vreg(t, vd);
        &&& forall|i: int| 0 <= i < 8 ==> #[trigger] r.half(i) == (va.shalf(i) >> (vb.half(i) & 15u16)) as u16
    })
}

/// Vector Shift Right Algebraic Halfword (vsrah)
pub fn vsrah(regs: &mut Registers, vd: u8, va: u8, vb: u8) -> (r: Result<(), Error>)
    requires
        vd < 32 && va < 32 && vb < 32,
    ensures
        r is Ok,
        vsrah_effect(*old(regs), *final(regs), vd, va, vb),
{
    let va_value = get_vector(regs, va);
    let vb_value = get_vector(regs, vb);
    let result = shift::vsrah(va_value, vb_value);
    set_vector(regs, vd, result);
    Ok(())
}

/// What `vsraw` leaves in the registers.
pub open spec fn vsraw_effect(s: Registers, t: Registers, vd: u8, va: u8, vb: u8) -> bool {
    vr_result(s, t, vd) && ({
        let va = vreg(s, va);
        let vb = vreg(s, vb);
        let r = vreg(t, vd);
        &&& forall|i: int| 0 <= i < 4 ==> #[trigger] r.word(i) == (va.sword(i) >> (vb.word(i) & 31u32)) as u32
    })
}

/// Vector Shift Right Algebraic Word (vsraw)
pub fn vsraw(regs: &mut Registers, vd: u8, va: u8, vb: u8) -> (r: Result<(), Error>)
    requires
        vd < 32 && va < 32 && vb < 32,
    ensures
        r is Ok,
        vsraw_effect(*old(regs), *final(regs), vd, va, vb),
{
    let va_value = get_vector(regs, va);
    let vb_value = get_vector(regs, vb);
    let result = shift::vsraw(va_value, vb_value);
    set_vector(regs, vd, result);
    Ok(())
}

/// What `vrlb` leaves in the registers.
pub open spec fn vrlb_effect(s: Registers, t: Registers, vd: u8, va: u8, vb: u8) -> bool {
    vr_result(s, t, vd) && ({
        let va = vreg(s, va);
        let vb = vreg(s, vb);
        let r = vreg(t, vd);
        &&& forall|i: int| 0 <= i < 16 ==> #[trigger] r.byte(i) == rotl8(va.byte(i), vb.byte(i) & 7u8)
    })
}

/// Vector Rotate Left Byte (vrlb)
pub fn vrlb(regs: &mut Registers, vd: u8, va: u8, vb: u8) -> (r: Result<(), Error>)
    requires
        vd < 32 && va < 32 && vb < 32,
    ensures
        r is Ok,
        vrlb_effect(*old(regs), *final(regs), vd, va, vb),
{
    let va_value = get_vector(regs, va);
    let vb_value = get_vector(regs, vb);
    let result = shift::vrlb(va_value, vb_value);
    set_vector(regs, vd, result);
    Ok(())
}

/// What `vrlh` leaves in the registers.
pub open spec fn vrlh_effect(s: Registers, t: Registers, vd: u8, va: u8, vb: u8) -> bool {
    vr_result(s, t, vd) && ({
        let va = vreg(s, va);
        let vb = vreg(s, vb);
        let r = vreg(t, vd);
        &&& forall|i: int| 0 <= i < 8 ==> #[trigger] r.half(i) == rotl16(va.half(i), vb.half(i) & 15u16)
    })
}

/// Vector Rotate Left Halfword (vrlh)
pub fn vrlh(regs: &mut Registers, vd: u8, va: u8, vb: u8) -> (r: Result<(), Error>)
    requires
        vd < 32 && va < 32 && vb < 32,
    ensures
        r is Ok,
        vrlh_effect(*old(regs), *final(regs), vd, va, vb),
{
    let va_value = get_vector(regs, va);
    let vb_value = get_vector(regs, vb);
    let result = shift::vrlh(va_value, vb_value);
    set_vector(regs, vd, result);
    Ok(())
}

/// What `vrlw` leaves in the registers.
pub open spec fn vrlw_effect(s: Registers, t: Registers, vd: u8, va: u8, vb: u8) -> bool {
    vr_result(s, t, vd) && ({
        let va = vreg(s, va);
        let vb = vreg(s, vb);
        let r = vreg(t, vd);
        &&& forall|i: int| 0 <= i < 4 ==> #[trigger] r.word(i) == rotl32(va.word(i), vb.word(i) & 31u32)
    })
}

/// Vector Rotate Left Word (vrlw)
pub fn vrlw(regs: &mut Registers, vd: u8, va: u8, vb: u8) -> (r: Result<(), Error>)
    requires
        vd < 32 && va < 32 && vb < 32,
    ensures
        r is Ok,
        vrlw_effect(*old(regs), *final(regs), vd, va, vb),
{
    let va_value = get_vector(regs, va);
    let vb_value = get_vector(regs, vb);
    let result = shift::vrlw(va_value, vb_value);
    set_vector(regs, vd, result);
    Ok(())
}

/// What `vsl` leaves in the registers.
pub open spec fn vsl_effect(s: Registers, t: Registers, vd: u8, va: u8, vb: u8) -> bool {
    vr_result(s, t, vd) && ({
        let va = vreg(s, va);
        let vb = vreg(s, vb);
        let r = vreg(t, vd);
        &&& vb.byte(15) & 7u8 == 0 ==> r == va
        &&& vb.byte(15) & 7u8 != 0 ==> forall|i: int|
            0 <= i < 16 ==> #[trigger] r.byte(i) == (if i < 15 {
            ((va.byte(i) << (vb.byte(15) & 7u8)) | (va.byte(i + 1) >> ((8 - (vb.byte(15) & 7u8)) as u8))) as u8
            } else {
            va.byte(i) << (vb.byte(15) & 7u8)
            })
    })
}

/// Vector Shift Left (vsl): the whole vector shifted left by the low three
pub fn vsl(regs: &mut Registers, vd: u8, va: u8, vb: u8) -> (r: Result<(), Error>)
    requires
        vd < 32 && va < 32 && vb < 32,
    ensures
        r is Ok,
        vsl_effect(*old(regs), *final(regs), vd, va, vb),
{
    let va_value = get_vector(regs, va);
    let vb_value = get_vector(regs, vb);
    let result = shift::vsl(va_value, vb_value);
    set_vector(regs, vd, result);
    Ok(())
}

/// What `vsr` leaves in the registers.
pub open spec fn vsr_effect(s: Registers, t: Registers, vd: u8, va: u8, vb: u8) -> bool {
    vr_result(s, t, vd) && ({
        let va = vreg(s, va);
        let vb = vreg(s, vb);
        let r = vreg(t, vd);
        &&& vb.byte(15) & 7u8 == 0 ==> r == va
        &&& vb.byte(15) & 7u8 != 0 ==> forall|i: int|
            0 <= i < 16 ==> #[trigger] r.byte(i) == (if i > 0 {
            ((va.byte(i) >> (vb.byte(15) & 7u8)) | (va.byte(i - 1) << ((8 - (vb.byte(15) & 7u8)) as u8))) as u8
            } else {
            va.byte(i) >> (vb.byte(15) & 7u8)
            })
    })
}

/// Vector Shift Right (vsr): the whole vector shifted right by the low three
pub fn vsr(regs: &mut Registers, vd: u8, va: u8, vb: u8) -> (r: Result<(), Error>)
    requires
        vd < 32 && va < 32 && vb < 32,
    ensures
        r is Ok,
        vsr_effect(*old(regs), *final(regs), vd, va, vb),
{
    let va_value = get_vector(regs, va);
    let vb_value = get_vector(regs, vb);
    let result = shift::vsr(va_value, vb_value);
    set_vector(regs, vd, result);
    Ok(())
}

/// What `vperm` leaves in the registers.
pub open spec fn vperm_effect(s: Registers, t: Registers, vd: u8, va: u8, vb: u8, vc: u8) -> bool {
    vr_result(s, t, vd) && ({
        let va = vreg(s, va);
        let vb = vreg(s, vb);
        let vc = vreg(s, vc);
        let r = vreg(t, vd);
        &&& forall|i: int| 0 <= i < 16 ==> #[trigger] r.byte(i) == perm_pick(va, vb, vc.byte(i))
    })
}

/// Vector Permute (vperm)
pub fn vperm(regs: &mut Registers, vd: u8, va: u8, vb: u8, vc: u8) -> (r: Result<(), Error>)
    requires
        vd < 32 && va < 32 && vb < 32 && vc < 32,
    ensures
        r is Ok,
        vperm_effect(*old(regs), *final(regs), vd, va, vb, vc),
{
    let va_value = get_vector(regs, va);
    let vb_value = get_vector(regs, vb);
    let vc_value = get_vector(regs, vc);
    let result = permute::vperm(va_value, vb_value, vc_value);
    set_vector(regs, vd, result);
    Ok(())
}

/// What `vsel` leaves in the registers.
pub open spec fn vsel_effect(s: Registers, t: Registers, vd: u8, va: u8, vb: u8, vc: u8) -> bool {
    vr_result(s, t, vd) && ({
        let va = vreg(s, va);
        let vb = vreg(s, vb);
        let vc = vreg(s, vc);
        let r = vreg(t, vd);
        &&& forall|i: int| 0 <= i < 4 ==> #[trigger] r.word(i) == (vb.word(i) & vc.word(i)) | (va.word(i) & !vc.word(i))
    })
}

/// Vector Select (vsel): each bit comes from `vb` where `vc` has a one and
pub fn vsel(regs: &mut Registers, vd: u8, va: u8, vb: u8, vc: u8) -> (r: Result<(), Error>)
    requires
        vd < 32 && va < 32 && vb < 32 && vc < 32,
    ensures
        r is Ok,
        vsel_effect(*old(regs), *final(regs), vd, va, vb, vc),
{
    let va_value = get_vector(regs, va);
    let vb_value = get_vector(regs, vb);
    let vc_value = get_vector(regs, vc);
    let result = permute::vsel(va_value, vb_value, vc_value);
    set_vector(regs, vd, result);
    Ok(())
}

/// What `vspltb` leaves in the registers.
pub open spec fn vspltb_effect(s: Registers, t: Registers, vd: u8, vb: u8, uimm: u8) -> bool {
    vr_result(s, t, vd) && ({
        let vb = vreg(s, vb);
        let r = vreg(t, vd);
        &&& forall|i: int| 0 <= i < 16 ==> #[trigger] r.byte(i) == vb.byte((uimm & 0x0Fu8) as int)
    })
}

/// Vector Splat Byte (vspltb)
pub fn vspltb(regs: &mut Registers, vd: u8, vb: u8, uimm: u8) -> (r: Result<(), Error>)
    requires
        vd < 32 && vb < 32,
    ensures
        r is Ok,
        vspltb_effect(*old(regs), *final(regs), vd, vb, uimm),
{
    let vb_value = get_vector(regs, vb);
    let result = permute::vspltb(vb_value, uimm);
    set_vector(regs, vd, result);
    Ok(())
}

/// What `vsplth` leaves in the registers.
pub open spec fn vsplth_effect(s: Registers, t: Registers, vd: u8, vb: u8, uimm: u8) -> bool {
    vr_result(s, t, vd) && ({
        let vb = vreg(s, vb);
        let r = vreg(t, vd);
        &&& forall|i: int| 0 <= i < 8 ==> #[trigger] r.half(i) == vb.half((uimm & 0x07u8) as int)
    })
}

/// Vector Splat Halfword (vsplth)
pub fn vsplth(regs: &mut Registers, vd: u8, vb: u8, uimm: u8) -> (r: Result<(), Error>)
    requires
        vd < 32 && vb < 32,
    ensures
        r is Ok,
        vsplth_effect(*old(regs), *final(regs), vd, vb, uimm),
{
    let vb_value = get_vector(regs, vb);
    let result = permute::vsplth(vb_value, uimm);
    set_vector(regs, vd, result);
    Ok(())
}

/// What `vspltw` leaves in the registers.
pub open spec fn vspltw_effect(s: Registers, t: Registers, vd: u8, vb: u8, uimm: u8) -> bool {
    vr_result(s, t, vd) && ({
        let vb = vreg(s, vb);
        let r = vreg(t, vd);
        &&& forall|i: int| 0 <= i < 4 ==> #[trigger] r.word(i) == vb.word((uimm & 0x03u8) as int)
    })
}

/// Vector Splat Word (vspltw)
pub fn vspltw(regs: &mut Registers, vd: u8, vb: u8, uimm: u8) -> (r: Result<(), Error>)
    requires
        vd < 32 && vb < 32,
    ensures
        r is Ok,
        vspltw_effect(*old(regs), *final(regs), vd, vb, uimm),
{
    let vb_value = get_vector(regs, vb);
    let result = permute::vspltw(vb_value, uimm);
    set_vector(regs, vd, result);
    Ok(())
}

/// What `vspltisb` leaves in the registers.
pub open spec fn vspltisb_effect(s: Registers, t: Registers, vd: u8, simm: i8) -> bool {
    vr_result(s, t, vd) && ({
        let r = vreg(t, vd);
        &&& forall|i: int| 0 <= i < 16 ==> #[trigger] r.byte(i) == simm as u8
    })
}

/// Vector Splat Immediate Signed Byte (vspltisb)
pub fn vspltisb(regs: &mut Registers, vd: u8, simm: i8) -> (r: Result<(), Error>)
    requires
        vd < 32,
    ensures
        r is Ok,
        vspltisb_effect(*old(regs), *final(regs), vd, simm),
{

    let result = permute::vspltisb(simm);
    set_vector(regs, vd, result);
    Ok(())
}

/// What `vspltish` leaves in the registers.
pub open spec fn vspltish_effect(s: Registers, t: Registers, vd: u8, simm: i8) -> bool {
    vr_result(s, t, vd) && ({
        let simm = simm as i16;
        let r = vreg(t, vd);
        &&& forall|i: int| 0 <= i < 8 ==> #[trigger] r.half(i) == simm as u16
    })
}

/// Vector Splat Immediate Signed Halfword (vspltish)
pub fn vspltish(regs: &mut Registers, vd: u8, simm: i8) -> (r: Result<(), Error>)
    requires
        vd < 32,
    ensures
        r is Ok,
        vspltish_effect(*old(regs), *final(regs), vd, simm),
{

    let result = permute::vspltish(simm as i16);
    set_vector(regs, vd, result);
    Ok(())
}

/// What `vspltisw` leaves in the registers.
pub open spec fn vspltisw_effect(s: Registers, t: Registers, vd: u8, simm: i8) -> bool {
    vr_result(s, t, vd) && ({
        let simm = simm as i32;
        let r = vreg(t, vd);
        &&& forall|i: int| 0 <= i < 4 ==> #[trigger] r.word(i) == simm as u32
    })
}

/// Vector Splat Immediate Signed Word (vspltisw)
pub fn vspltisw(regs: &mut Registers, vd: u8, simm: i8) -> (r: Result<(), Error>)
    requires
        vd < 32,
    ensures
        r is Ok,
        vspltisw_effect(*old(regs), *final(regs), vd, simm),
{

    let result = permute::vspltisw(simm as i32);
    set_vector(regs, vd, result);
    Ok(())
}

/// What `vmrghb` leaves in the registers.
pub open spec fn vmrghb_effect(s: Registers, t: Registers, vd: u8, va: u8, vb: u8) -> bool {
    vr_result(s, t, vd) && ({
        let va = vreg(s, va);
        let vb = vreg(s, vb);
        let r = vreg(t, vd);
        &&& forall|i: int| 0 <= i < 8 ==> #[trigger] r.byte(2 * i) == va.byte(i)
        &&& forall|i: int| 0 <= i < 8 ==> #[trigger] r.byte(2 * i + 1) == vb.byte(i)
    })
}

/// Vector Merge High Byte (vmrghb)
pub fn vmrghb(regs: &mut Registers, vd: u8, va: u8, vb: u8) -> (r: Result<(), Error>)
    requires
        vd < 32 && va < 32 && vb < 32,
    ensures
        r is Ok,
        vmrghb_effect(*old(regs), *final(regs), vd, va, vb),
{
    let va_value = get_vector(regs, va);
    let vb_value = get_vector(regs, vb);
    let result = permute::vmrghb(va_value, vb_value);
    set_vector(regs, vd, result);
    Ok(())
}

/// What `vmrghh` leaves in the registers.
pub open spec fn vmrghh_effect(s: Registers, t: Registers, vd: u8, va: u8, vb: u8) -> bool {
    vr_result(s, t, vd) && ({
        let va = vreg(s, va);
        let vb = vreg(s, vb);
        let r = vreg(t, vd);
        &&& forall|i: int| 0 <= i < 4 ==> #[trigger] r.half(2 * i) == va.half(i)
        &&& forall|i: int| 0 <= i < 4 ==> #[trigger] r.half(2 * i + 1) == vb.half(i)
    })
}

/// Vector Merge High Halfword (vmrghh)
pub fn vmrghh(regs: &mut Registers, vd: u8, va: u8, vb: u8) -> (r: Result<(), Error>)
    requires
        vd < 32 && va < 32 && vb < 32,
    ensures
        r is Ok,
        vmrghh_effect(*old(regs), *final(regs), vd, va, vb),
{
    let va_value = get_vector(regs, va);
    let vb_value = get_vector(regs, vb);
    let result = permute::vmrghh(va_value, vb_value);
    set_vector(regs, vd, result);
    Ok(())
}

/// What `vmrghw` leaves in the registers.
pub open spec fn vmrghw_effect(s: Registers, t: Registers, vd: u8, va: u8, vb: u8) -> bool {
    vr_result(s, t, vd) && ({
        let va = vreg(s, va);
        let vb = vreg(s, vb);
        let r = vreg(t, vd);
        &&& r.word(0) == va.word(0)
        &&& r.word(1) == vb.word(0)
        &&& r.word(2) == va.word(1)
        &&& r.word(3) == vb.word(1)
    })
}

/// Vector Merge High Word (vmrghw)
pub fn vmrghw(regs: &mut Registers, vd: u8, va: u8, vb: u8) -> (r: Result<(), Error>)
    requires
        vd < 32 && va < 32 && vb < 32,
    ensures
        r is Ok,
        vmrghw_effect(*old(regs), *final(regs), vd, va, vb),
{
    let va_value = get_vector(regs, va);
    let vb_value = get_vector(regs, vb);
    let result = permute::vmrghw(va_value, vb_value);
    set_vector(regs, vd, result);
    Ok(())
}

/// What `vmrglb` leaves in the registers.
pub open spec fn vmrglb_effect(s: Registers, t: Registers, vd: u8, va: u8, vb: u8) -> bool {
    vr_result(s, t, vd) && ({
        let va = vreg(s, va);
        let vb = vreg(s, vb);
        let r = vreg(t, vd);
        &&& forall|i: int| 0 <= i < 8 ==> #[trigger] r.byte(2 * i) == va.byte(i + 8)
        &&& forall|i: int| 0 <= i < 8 ==> #[trigger] r.byte(2 * i + 1) == vb.byte(i + 8)
    })
}

/// Vector Merge Low Byte (vmrglb)
pub fn vmrglb(regs: &mut Registers, vd: u8, va: u8, vb: u8) -> (r: Result<(), Error>)
    requires
        vd < 32 && va < 32 && vb < 32,
    ensures
        r is Ok,
        vmrglb_effect(*old(regs), *final(regs), vd, va, vb),
{
    let va_value = get_vector(regs, va);
    let vb_value = get_vector(regs, vb);
    let result = permute::vmrglb(va_value, vb_value);
    set_vector(regs, vd, result);
    Ok(())
}

/// What `vmrglh` leaves in the registers.
pub open spec fn vmrglh_effect(s: Registers, t: Registers, vd: u8, va: u8, vb: u8) -> bool {
    vr_result(s, t, vd) && ({
        let va = vreg(s, va);
        let vb = vreg(s, vb);
        let r = vreg(t, vd);
        &&& forall|i: int| 0 <= i < 4 ==> #[trigger] r.half(2 * i) == va.half(i + 4)
        &&& forall|i: int| 0 <= i < 4 ==> #[trigger] r.half(2 * i + 1) == vb.half(i + 4)
    })
}

/// Vector Merge Low Halfword (vmrglh)
pub fn vmrglh(regs: &mut Registers, vd: u8, va: u8, vb: u8) -> (r: Result<(), Error>)
    requires
        vd < 32 && va < 32 && vb < 32,
    ensures
        r is Ok,
        vmrglh_effect(*old(regs), *final(regs), vd, va, vb),
{
    let va_value = get_vector(regs, va);
    let vb_value = get_vector(regs, vb);
    let result = permute::vmrglh(va_value, vb_value);
    set_vector(regs, vd, result);
    Ok(())
}

/// What `vmrglw` leaves in the registers.
pub open spec fn vmrglw_effect(s: Registers, t: Registers, vd: u8, va: u8, vb: u8) -> bool {
    vr_result(s, t, vd) && ({
        let va = vreg(s, va);
        let vb = vreg(s, vb);
        let r = vreg(t, vd);
        &&& r.word(0) == va.word(2)
        &&& r.word(1) == vb.word(2)
        &&& r.word(2) == va.word(3)
        &&& r.word(3) == vb.word(3)
    })
}

/// Vector Merge Low Word (vmrglw)
pub fn vmrglw(regs: &mut Registers, vd: u8, va: u8, vb: u8) -> (r: Result<(), Error>)
    requires
        vd < 32 && va < 32 && vb < 32,
    ensures
        r is Ok,
        vmrglw_effect(*old(regs), *final(regs), vd, va, vb),
{
    let va_value = get_vector(regs, va);
    let vb_value = get_vector(regs, vb);
    let result = permute::vmrglw(va_value, vb_value);
    set_vector(regs, vd, result);
    Ok(())
}

/// What `vpkuhus` leaves in the registers.
pub open spec fn vpkuhus_effect(s: Registers, t: Registers, vd: u8, va: u8, vb: u8) -> bool {
    vr_result(s, t, vd) && ({
        let va = vreg(s, va);
        let vb = vreg(s, vb);
        let r = vreg(t, vd);
        &&& forall|i: int| 0 <= i < 8 ==> #[trigger] r.byte(i) == sat_u8(va.half(i) as int)
        &&& forall|i: int| 0 <= i < 8 ==> #[trigger] r.byte(i + 8) == sat_u8(vb.half(i) as int)
    })
}

/// The lanes of `va` fill the first half of the result and those of `vb`
pub fn vpkuhus(regs: &mut Registers, vd: u8, va: u8, vb: u8) -> (r: Result<(), Error>)
    requires
        vd < 32 && va < 32 && vb < 32,
    ensures
        r is Ok,
        vpkuhus_effect(*old(regs), *final(regs), vd, va, vb),
{
    let va_value = get_vector(regs, va);
    let vb_value = get_vector(regs, vb);
    let result = pack::vpkuhus(va_value, vb_value);
    set_vector(regs, vd, result);
    Ok(())
}

/// What `vpkuwus` leaves in the registers.
pub open spec fn vpkuwus_effect(s: Registers, t: Registers, vd: u8, va: u8, vb: u8) -> bool {
    vr_result(s, t, vd) && ({
        let va = vreg(s, va);
        let vb = vreg(s, vb);
        let r = vreg(t, vd);
        &&& forall|i: int| 0 <= i < 4 ==> #[trigger] r.half(i) == sat_u16(va.word(i) as int)
        &&& forall|i: int| 0 <= i < 4 ==> #[trigger] r.half(i + 4) == sat_u16(vb.word(i) as int)
    })
}

/// The lanes of `va` fill the first half of the result and those of `vb`
pub fn vpkuwus(regs: &mut Registers, vd: u8, va: u8, vb: u8) -> (r: Result<(), Error>)
    requires
        vd < 32 && va < 32 && vb < 32,
    ensures
        r is Ok,
        vpkuwus_effect(*old(regs), *final(regs), vd, va, vb),
{
    let va_value = get_vector(regs, va);
    let vb_value = get_vector(regs, vb);
    let result = pack::vpkuwus(va_value, vb_value);
    set_vector(regs, vd, result);
    Ok(())
}

/// What `vpkshss` leaves in the registers.
pub open spec fn vpkshss_effect(s: Registers, t: Registers, vd: u8, va: u8, vb: u8) -> bool {
    vr_result(s, t, vd) && ({
        let va = vreg(s, va);
        let vb = vreg(s, vb);
        let r = vreg(t, vd);
        &&& forall|i: int| 0 <= i < 8 ==> #[trigger] r.byte(i) == sat_i8(va.shalf(i) as int) as u8
        &&& forall|i: int| 0 <= i < 8 ==> #[trigger] r.byte(i + 8) == sat_i8(vb.shalf(i) as int) as u8
    })
}

/// The lanes of `va` fill the first half of the result and those of `vb`
pub fn vpkshss(regs: &mut Registers, vd: u8, va: u8, vb: u8) -> (r: Result<(), Error>)
    requires
        vd < 32 && va < 32 && vb < 32,
    ensures
        r is Ok,
        vpkshss_effect(*old(regs), *final(regs), vd, va, vb),
{
    let va_value = get_vector(regs, va);
    let vb_value = get_vector(regs, vb);
    let result = pack::vpkshss(va_value, vb_value);
    set_vector(regs, vd, result);
    Ok(())
}

/// What `vpkshus` leaves in the registers.
pub open spec fn vpkshus_effect(s: Registers, t: Registers, vd: u8, va: u8, vb: u8) -> bool {
    vr_result(s, t, vd) && ({
        let va = vreg(s, va);
        let vb = vreg(s, vb);
        let r = vreg(t, vd);
        &&& forall|i: int| 0 <= i < 8 ==> #[trigger] r.byte(i) == sat_u8(va.shalf(i) as int)
        &&& forall|i: int| 0 <= i < 8 ==> #[trigger] r.byte(i + 8) == sat_u8(vb.shalf(i) as int)
    })
}

/// The lanes of `va` fill the first half of the result and those of `vb`
pub fn vpkshus(regs: &mut Registers, vd: u8, va: u8, vb: u8) -> (r: Result<(), Error>)
    requires
        vd < 32 && va < 32 && vb < 32,
    ensures
        r is Ok,
        vpkshus_effect(*old(regs), *final(regs), vd, va, vb),
{
    let va_value = get_vector(regs, va);
    let vb_value = get_vector(regs, vb);
    let result = pack::vpkshus(va_value, vb_value);
    set_vector(regs, vd, result);
    Ok(())
}

/// What `vpkswss` leaves in the registers.
pub open spec fn vpkswss_effect(s: Registers, t: Registers, vd: u8, va: u8, vb: u8) -> bool {
    vr_result(s, t, vd) && ({
        let va = vreg(s, va);
        let vb = vreg(s, vb);
        let r = vreg(t, vd);
        &&& forall|i: int| 0 <= i < 4 ==> #[trigger] r.half(i) == sat_i16(va.sword(i) as int) as u16
        &&& forall|i: int| 0 <= i < 4 ==> #[trigger] r.half(i + 4) == sat_i16(vb.sword(i) as int) as u16
    })
}

/// The lanes of `va` fill the first half of the result and those of `vb`
pub fn vpkswss(regs: &mut Registers, vd: u8, va: u8, vb: u8) -> (r: Result<(), Error>)
    requires
        vd < 32 && va < 32 && vb < 32,
    ensures
        r is Ok,
        vpkswss_effect(*old(regs), *final(regs), vd, va, vb),
{
    let va_value = get_vector(regs, va);
    let vb_value = get_vector(regs, vb);
    let result = pack::vpkswss(va_value, vb_value);
    set_vector(regs, vd, result);
    Ok(())
}

/// What `vpkswus` leaves in the registers.
pub open spec fn vpkswus_effect(s: Registers, t: Registers, vd: u8, va: u8, vb: u8) -> bool {
    vr_result(s, t, vd) && ({
        let va = vreg(s, va);
        let vb = vreg(s, vb);
        let r = vreg(t, vd);
        &&& forall|i: int| 0 <= i < 4 ==> #[trigger] r.half(i) == sat_u16(va.sword(i) as int)
        &&& forall|i: int| 0 <= i < 4 ==> #[trigger] r.half(i + 4) == sat_u16(vb.sword(i) as int)
    })
}

/// The lanes of `va` fill the first half of the result and those of `vb`
pub fn vpkswus(regs: &mut Registers, vd: u8, va: u8, vb: u8) -> (r: Result<(), Error>)
    requires
        vd < 32 && va < 32 && vb < 32,
    ensures
        r is Ok,
        vpkswus_effect(*old(regs), *final(regs), vd, va, vb),
{
    let va_value = get_vector(regs, va);
    let vb_value = get_vector(regs, vb);
    let result = pack::vpkswus(va_value, vb_value);
    set_vector(regs, vd, result);
    Ok(())
}

/// What `vpkpx` leaves in the registers.
pub open spec fn vpkpx_effect(s: Registers, t: Registers, vd: u8, va: u8, vb: u8) -> bool {
    vr_result(s, t, vd) && ({
        let va = vreg(s, va);
        let vb = vreg(s, vb);
        let r = vreg(t, vd);
        &&& forall|i: int| 0 <= i < 4 ==> #[trigger] r.half(i) == pack_pixel(va.word(i))
        &&& forall|i: int| 0 <= i < 4 ==> #[trigger] r.half(i + 4) == pack_pixel(vb.word(i))
    })
}

/// The lanes of `va` fill the first half of the result and those of `vb`
pub fn vpkpx(regs: &mut Registers, vd: u8, va: u8, vb: u8) -> (r: Result<(), Error>)
    requires
        vd < 32 && va < 32 && vb < 32,
    ensures
        r is Ok,
        vpkpx_effect(*old(regs), *final(regs), vd, va, vb),
{
    let va_value = get_vector(regs, va);
    let vb_value = get_vector(regs, vb);
    let result = pack::vpkpx(va_value, vb_value);
    set_vector(regs, vd, result);
    Ok(())
}

/// What `vupkhsb` leaves in the registers.
pub open spec fn vupkhsb_effect(s: Registers, t: Registers, vd: u8, vb: u8) -> bool {
    vr_result(s, t, vd) && ({
        let vb = vreg(s, vb);
        let r = vreg(t, vd);
        &&& forall|i: int| 0 <= i < 8 ==> #[trigger] r.half(i) == (vb.sbyte(i) as i16) as u16
    })
}

/// Vector Unpack High Signed Byte (vupkhsb)
pub fn vupkhsb(regs: &mut Registers, vd: u8, vb: u8) -> (r: Result<(), Error>)
    requires
        vd < 32 && vb < 32,
    ensures
        r is Ok,
        vupkhsb_effect(*old(regs), *final(regs), vd, vb),
{
    let vb_value = get_vector(regs, vb);
    let result = pack::vupkhsb(vb_value);
    set_vector(regs, vd, result);
    Ok(())
}

/// What `vupklsb` leaves in the registers.
pub open spec fn vupklsb_effect(s: Registers, t: Registers, vd: u8, vb: u8) -> bool {
    vr_result(s, t, vd) && ({
        let vb = vreg(s, vb);
        let r = vreg(t, vd);
        &&& forall|i: int| 0 <= i < 8 ==> #[trigger] r.half(i) == (vb.sbyte(i + 8) as i16) as u16
    })
}

/// Vector Unpack Low Signed Byte (vupklsb)
pub fn vupklsb(regs: &mut Registers, vd: u8, vb: u8) -> (r: Result<(), Error>)
    requires
        vd < 32 && vb < 32,
    ensures
        r is Ok,
        vupklsb_effect(*old(regs), *final(regs), vd, vb),
{
    let vb_value = get_vector(regs, vb);
    let result = pack::vupklsb(vb_value);
    set_vector(regs, vd, result);
    Ok(())
}

/// What `vupkhsh` leaves in the registers.
pub open spec fn vupkhsh_effect(s: Registers, t: Registers, vd: u8, vb: u8) -> bool {
    vr_result(s, t, vd) && ({
        let vb = vreg(s, vb);
        let r = vreg(t, vd);
        &&& forall|i: int| 0 <= i < 4 ==> #[trigger] r.word(i) == (vb.shalf(i) as i32) as u32
    })
}

/// Vector Unpack High Signed Halfword (vupkhsh)
pub fn vupkhsh(regs: &mut Registers, vd: u8, vb: u8) -> (r: Result<(), Error>)
    requires
        vd < 32 && vb < 32,
    ensures
        r is Ok,
        vupkhsh_effect(*old(regs), *final(regs), vd, vb),
{
    let vb_value = get_vector(regs, vb);
    let result = pack::vupkhsh(vb_value);
    set_vector(regs, vd, result);
    Ok(())
}

/// What `vupklsh` leaves in the registers.
pub open spec fn vupklsh_effect(s: Registers, t: Registers, vd: u8, vb: u8) -> bool {
    vr_result(s, t, vd) && ({
        let vb = vreg(s, vb);
        let r = vreg(t, vd);
        &&& forall|i: int| 0 <= i < 4 ==> #[trigger] r.word(i) == (vb.shalf(i + 4) as i32) as u32
    })
}

/// Vector Unpack Low Signed Halfword (vupklsh)
pub fn vupklsh(regs: &mut Registers, vd: u8, vb: u8) -> (r: Result<(), Error>)
    requires
        vd < 32 && vb < 32,
    ensures
        r is Ok,
        vupklsh_effect(*old(regs), *final(regs), vd, vb),
{
    let vb_value = get_vector(regs, vb);
    let result = pack::vupklsh(vb_value);
    set_vector(regs, vd, result);
    Ok(())
}

/// What `vupkhpx` leaves in the registers.
pub open spec fn vupkhpx_effect(s: Registers, t: Registers, vd: u8, vb: u8) -> bool {
    vr_result(s, t, vd) && ({
        let vb = vreg(s, vb);
        let r = vreg(t, vd);
        &&& forall|i: int| 0 <= i < 4 ==> #[trigger] r.word(i) == unpack_pixel(vb.half(i))
    })
}

/// Vector Unpack High Pixel (vupkhpx)
pub fn vupkhpx(regs: &mut Registers, vd: u8, vb: u8) -> (r: Result<(), Error>)
    requires
        vd < 32 && vb < 32,
    ensures
        r is Ok,
        vupkhpx_effect(*old(regs), *final(regs), vd, vb),
{
    let vb_value = get_vector(regs, vb);
    let result = pack::vupkhpx(vb_value);
    set_vector(regs, vd, result);
    Ok(())
}

/// What `vupklpx` leaves in the registers.
pub open spec fn vupklpx_effect(s: Registers, t: Registers, vd: u8, vb: u8) -> bool {
    vr_result(s, t, vd) && ({
        let vb = vreg(s, vb);
        let r = vreg(t, vd);
        &&& forall|i: int| 0 <= i < 4 ==> #[trigger] r.word(i) == unpack_pixel(vb.half(i + 4))
    })
}

/// Vector Unpack Low Pixel (vupklpx)
pub fn vupklpx(regs: &mut Registers, vd: u8, vb: u8) -> (r: Result<(), Error>)
    requires
        vd < 32 && vb < 32,
    ensures
        r is Ok,
        vupklpx_effect(*old(regs), *final(regs), vd, vb),
{
    let vb_value = get_vector(regs, vb);
    let result = pack::vupklpx(vb_value);
    set_vector(regs, vd, result);
    Ok(())
}

/// A vector load: on success only `vd` changed, otherwise nothing did.
pub open spec fn vector_loaded(s: Registers, t: Registers, ok: bool, vd: u8) -> bool {
    &&& ok ==> vr_result(s, t, vd)
    &&& !ok ==> t == s
}

/// The address `(ra|0) + rb` of the vector memory instructions.
pub open spec fn vector_ea(s: Registers, ra: u8, rb: u8) -> u32 {
    effective_address(base_or_zero(s, ra), s.gpr[rb as int])
}

/// A vector load whose memory access gave `rv`: on `Ok(v)`, `v` is in
/// `vd` and nothing else changed; on `Err(e)` the load fails with `e` and
/// nothing changed.
pub open spec fn loaded_vector(s: Registers, t: Registers, r: Result<(), Error>, rv: Result<Vector128, Error>, vd: u8) -> bool {
    match rv {
        Ok(v) => r == Ok::<(), Error>(()) && vr_result(s, t, vd) && vreg(t, vd) == v,
        Err(e) => r == Err::<(), Error>(e) && t == s,
    }
}

/// lvx: load vd from the address (ra|0) + rb
pub fn lvx<M: MemoryInterface>(regs: &mut Registers, memory: &M, vd: u8, ra: u8, rb: u8) -> (r: Result<(), Error>)
    requires
        vd < 32 && ra < 32 && rb < 32,
    ensures
        vector_loaded(*old(regs), *final(regs), r is Ok, vd),
        exists|rv: Result<Vector128, Error>| memory::vector_read(memory, memory::aligned_ea(base_or_zero(*old(regs), ra), old(regs).gpr[rb as int]), rv)
            && #[trigger] loaded_vector(*old(regs), *final(regs), r, rv, vd),
{
    let ra_val = if ra == 0 { 0 } else { regs.gpr[ra as usize] };
    let rb_val = regs.gpr[rb as usize];
    let rv = memory::lvx(memory, ra_val, rb_val);
    let result = match rv {
        Ok(v) => v,
        Err(e) => {
            assert(loaded_vector(*old(regs), *regs, Err(e), rv, vd));
            return Err(e);
        },
    };
    set_vector(regs, vd, result);
    assert(loaded_vector(*old(regs), *regs, Ok(()), rv, vd));
    Ok(())
}

/// stvx: store vs at the address (ra|0) + rb
pub fn stvx<M: MemoryInterface>(regs: &mut Registers, memory: &M, vs: u8, ra: u8, rb: u8) -> (r: Result<(), Error>)
    requires
        vs < 32 && ra < 32 && rb < 32,
    ensures
        *final(regs) == *old(regs),
        memory::vector_written(memory, memory::aligned_ea(base_or_zero(*old(regs), ra), old(regs).gpr[rb as int]), vreg(*old(regs), vs), r),
{
    let ra_val = if ra == 0 { 0 } else { regs.gpr[ra as usize] };
    let rb_val = regs.gpr[rb as usize];
    let vec = get_vector(regs, vs);
    let wr = memory::stvx(memory, vec, ra_val, rb_val);
    match wr {
        Ok(()) => Ok(()),
        Err(e) => Err(e),
    }
}

/// lvxl: load vd from the address (ra|0) + rb
pub fn lvxl<M: MemoryInterface>(regs: &mut Registers, memory: &M, vd: u8, ra: u8, rb: u8) -> (r: Result<(), Error>)
    requires
        vd < 32 && ra < 32 && rb < 32,
    ensures
        vector_loaded(*old(regs), *final(regs), r is Ok, vd),
        exists|rv: Result<Vector128, Error>| memory::vector_read(memory, memory::aligned_ea(base_or_zero(*old(regs), ra), old(regs).gpr[rb as int]), rv)
            && #[trigger] loaded_vector(*old(regs), *final(regs), r, rv, vd),
{
    let ra_val = if ra == 0 { 0 } else { regs.gpr[ra as usize] };
    let rb_val = regs.gpr[rb as usize];
    let rv = memory::lvxl(memory, ra_val, rb_val);
    let result = match rv {
        Ok(v) => v,
        Err(e) => {
            assert(loaded_vector(*old(regs), *regs, Err(e), rv, vd));
            return Err(e);
        },
    };
    set_vector(regs, vd, result);
    assert(loaded_vector(*old(regs), *regs, Ok(()), rv, vd));
    Ok(())
}

/// stvxl: store vs at the address (ra|0) + rb
pub fn stvxl<M: MemoryInterface>(regs: &mut Registers, memory: &M, vs: u8, ra: u8, rb: u8) -> (r: Result<(), Error>)
    requires
        vs < 32 && ra < 32 && rb < 32,
    ensures
        *final(regs) == *old(regs),
        memory::vector_written(memory, memory::aligned_ea(base_or_zero(*old(regs), ra), old(regs).gpr[rb as int]), vreg(*old(regs), vs), r),
{
    let ra_val = if ra == 0 { 0 } else { regs.gpr[ra as usize] };
    let rb_val = regs.gpr[rb as usize];
    let vec = get_vector(regs, vs);
    let wr = memory::stvxl(memory, vec, ra_val, rb_val);
    match wr {
        Ok(()) => Ok(()),
        Err(e) => Err(e),
    }
}

/// lvebx: load vd from the address (ra|0) + rb
pub fn lvebx<M: MemoryInterface>(regs: &mut Registers, memory: &M, vd: u8, ra: u8, rb: u8) -> (r: Result<(), Error>)
    requires
        vd < 32 && ra < 32 && rb < 32,
    ensures
        vector_loaded(*old(regs), *final(regs), r is Ok, vd),
        r is Ok ==> forall|k: int| 0 <= k < 16 && k != vector_ea(*old(regs), ra, rb) % 16 ==> #[trigger] vreg(*final(regs), vd).byte(k) == 0,
        exists|rv: Result<Vector128, Error>| memory::byte_element_read(memory, vector_ea(*old(regs), ra, rb), rv)
            && #[trigger] loaded_vector(*old(regs), *final(regs), r, rv, vd),
{
    let ra_val = if ra == 0 { 0 } else { regs.gpr[ra as usize] };
    let rb_val = regs.gpr[rb as usize];
    let rv = memory::lvebx(memory, ra_val, rb_val);
    let result = match rv {
        Ok(v) => v,
        Err(e) => {
            assert(loaded_vector(*old(regs), *regs, Err(e), rv, vd));
            return Err(e);
        },
    };
    set_vector(regs, vd, result);
    assert(loaded_vector(*old(regs), *regs, Ok(()), rv, vd));
    Ok(())
}

/// lvehx: load vd from the address (ra|0) + rb
pub fn lvehx<M: MemoryInterface>(regs: &mut Registers, memory: &M, vd: u8, ra: u8, rb: u8) -> (r: Result<(), Error>)
    requires
        vd < 32 && ra < 32 && rb < 32,
    ensures
        vector_loaded(*old(regs), *final(regs), r is Ok, vd),
        r is Ok ==> forall|k: int| 0 <= k < 8 && k != (vector_ea(*old(regs), ra, rb) / 2) % 8 ==> #[trigger] vreg(*final(regs), vd).half(k) == 0,
        exists|rv: Result<Vector128, Error>| memory::half_element_read(memory, vector_ea(*old(regs), ra, rb), rv)
            && #[trigger] loaded_vector(*old(regs), *final(regs), r, rv, vd),
{
    let ra_val = if ra == 0 { 0 } else { regs.gpr[ra as usize] };
    let rb_val = regs.gpr[rb as usize];
    let rv = memory::lvehx(memory, ra_val, rb_val);
    let result = match rv {
        Ok(v) => v,
        Err(e) => {
            assert(loaded_vector(*old(regs), *regs, Err(e), rv, vd));
            return Err(e);
        },
    };
    set_vector(regs, vd, result);
    assert(loaded_vector(*old(regs), *regs, Ok(()), rv, vd));
    Ok(())
}

/// lvewx: load vd from the address (ra|0) + rb
pub fn lvewx<M: MemoryInterface>(regs: &mut Registers, memory: &M, vd: u8, ra: u8, rb: u8) -> (r: Result<(), Error>)
    requires
        vd < 32 && ra < 32 && rb < 32,
    ensures
        vector_loaded(*old(regs), *final(regs), r is Ok, vd),
        r is Ok ==> forall|k: int| 0 <= k < 4 && k != (vector_ea(*old(regs), ra, rb) / 4) % 4 ==> #[trigger] vreg(*final(regs), vd).word(k) == 0,
        exists|rv: Result<Vector128, Error>| memory::word_element_read(memory, vector_ea(*old(regs), ra, rb), rv)
            && #[trigger] loaded_vector(*old(regs), *final(regs), r, rv, vd),
{
    let ra_val = if ra == 0 { 0 } else { regs.gpr[ra as usize] };
    let rb_val = regs.gpr[rb as usize];
    let rv = memory::lvewx(memory, ra_val, rb_val);
    let result = match rv {
        Ok(v) => v,
        Err(e) => {
            assert(loaded_vector(*old(regs), *regs, Err(e), rv, vd));
            return Err(e);
        },
    };
    set_vector(regs, vd, result);
    assert(loaded_vector(*old(regs), *regs, Ok(()), rv, vd));
    Ok(())
}

/// stvebx: store vs at the address (ra|0) + rb
pub fn stvebx<M: MemoryInterface>(regs: &mut Registers, memory: &M, vs: u8, ra: u8, rb: u8) -> (r: Result<(), Error>)
    requires
        vs < 32 && ra < 32 && rb < 32,
    ensures
        *final(regs) == *old(regs),
        memory.writes_u8(vector_ea(*old(regs), ra, rb), vreg(*old(regs), vs).byte((vector_ea(*old(regs), ra, rb) % 16) as int), r),
{
    let ra_val = if ra == 0 { 0 } else { regs.gpr[ra as usize] };
    let rb_val = regs.gpr[rb as usize];
    let vec = get_vector(regs, vs);
    memory::stvebx(memory, vec, ra_val, rb_val)
}

/// stvehx: store vs at the address (ra|0) + rb
pub fn stvehx<M: MemoryInterface>(regs: &mut Registers, memory: &M, vs: u8, ra: u8, rb: u8) -> (r: Result<(), Error>)
    requires
        vs < 32 && ra < 32 && rb < 32,
    ensures
        *final(regs) == *old(regs),
        memory.writes_u16(
            (vector_ea(*old(regs), ra, rb) - vector_ea(*old(regs), ra, rb) % 2) as u32,
            vreg(*old(regs), vs).half(((vector_ea(*old(regs), ra, rb) / 2) % 8) as int),
            r,
        ),
{
    let ra_val = if ra == 0 { 0 } else { regs.gpr[ra as usize] };
    let rb_val = regs.gpr[rb as usize];
    let vec = get_vector(regs, vs);
    memory::stvehx(memory, vec, ra_val, rb_val)
}

/// stvewx: store vs at the address (ra|0) + rb
pub fn stvewx<M: MemoryInterface>(regs: &mut Registers, memory: &M, vs: u8, ra: u8, rb: u8) -> (r: Result<(), Error>)
    requires
        vs < 32 && ra < 32 && rb < 32,
    ensures
        *final(regs) == *old(regs),
        memory.writes_u32(
            (vector_ea(*old(regs), ra, rb) - vector_ea(*old(regs), ra, rb) % 4) as u32,
            vreg(*old(regs), vs).word(((vector_ea(*old(regs), ra, rb) / 4) % 4) as int),
            r,
        ),
{
    let ra_val = if ra == 0 { 0 } else { regs.gpr[ra as usize] };
    let rb_val = regs.gpr[rb as usize];
    let vec = get_vector(regs, vs);
    memory::stvewx(memory, vec, ra_val, rb_val)
}

/// What `lvsl` leaves in the registers.
pub open spec fn lvsl_effect(s: Registers, t: Registers, vd: u8, ra: u8, rb: u8) -> bool {
    &&& vr_result(s, t, vd)
    &&& forall|i: int| 0 <= i < 16 ==> #[trigger] vreg(t, vd).byte(i) == ((((vector_ea(s, ra, rb) & 0x0Fu32) as int + i) % 256) as u8) & 0x1Fu8
}

/// lvsl: vd = the permute control vector for the address (ra|0) + rb
pub fn lvsl<M: MemoryInterface>(regs: &mut Registers, _memory: &M, vd: u8, ra: u8, rb: u8) -> (r: Result<(), Error>)
    requires
        vd < 32 && ra < 32 && rb < 32,
    ensures
        r is Ok,
        lvsl_effect(*old(regs), *final(regs), vd, ra, rb),
{
    let ra_val = if ra == 0 { 0 } else { regs.gpr[ra as usize] };
    let rb_val = regs.gpr[rb as usize];
    let result = memory::lvsl(ra_val, rb_val);
    set_vector(regs, vd, result);
    Ok(())
}

/// What `lvsr` leaves in the registers.
pub open spec fn lvsr_effect(s: Registers, t: Registers, vd: u8, ra: u8, rb: u8) -> bool {
    &&& vr_result(s, t, vd)
    &&& forall|i: int| 0 <= i < 16 ==> #[trigger] vreg(t, vd).byte(i) == (((16 - (vector_ea(s, ra, rb) & 0x0Fu32) as int + i) % 256) as u8) & 0x1Fu8
}

/// lvsr: vd = the permute control vector for the address (ra|0) + rb
pub fn lvsr<M: MemoryInterface>(regs: &mut Registers, _memory: &M, vd: u8, ra: u8, rb: u8) -> (r: Result<(), Error>)
    requires
        vd < 32 && ra < 32 && rb < 32,
    ensures
        r is Ok,
        lvsr_effect(*old(regs), *final(regs), vd, ra, rb),
{
    let ra_val = if ra == 0 { 0 } else { regs.gpr[ra as usize] };
    let rb_val = regs.gpr[rb as usize];
    let result = memory::lvsr(ra_val, rb_val);
    set_vector(regs, vd, result);
    Ok(())
}

} // verus!
