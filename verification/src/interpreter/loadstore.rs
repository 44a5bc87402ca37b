//! Integer and floating-point load and store instructions.
use vstd::prelude::*;
use crate::cpu::MemoryInterface;
use crate::error::Error;
use crate::registers::Registers;
use super::FloatUnit;
use super::set_cr_field;
use crate::registers::{XER_SO, has_flag, with_cr_field, cr_nibble};
use super::arithmetic::{base_or_zero, sext16};

verus! {

/// The address `(ra|0) + d`.
pub open spec fn ea_disp(s: Registers, ra: u8, d: i16) -> u32 {
    base_or_zero(s, ra).wrapping_add(sext16(d))
}

/// The address `(ra|0) + rb`.
pub open spec fn ea_indexed(s: Registers, ra: u8, rb: u8) -> u32 {
    base_or_zero(s, ra).wrapping_add(s.gpr[rb as int])
}

/// `t` is `s` after a load that put `v` in GPR `rt` and then, when
/// `update`, the address `ea` in GPR `ra`.
pub open spec fn load_result(s: Registers, t: Registers, rt: u8, v: u32, update: bool, ra: u8, ea: u32) -> bool {
    let g = s.gpr@.update(rt as int, v);
    &&& s.same_except_gpr_xer_cr(t)
    &&& t.xer == s.xer
    &&& t.cr == s.cr
    &&& t.gpr@ == if update { g.update(ra as int, ea) } else { g }
}

/// `t` is `s` after a store that, when `update`, put the address `ea` in GPR `ra`.
pub open spec fn store_result(s: Registers, t: Registers, update: bool, ra: u8, ea: u32) -> bool {
    if update { t == (Registers { gpr: t.gpr, ..s }) && t.gpr@ == s.gpr@.update(ra as int, ea) } else { t == s }
}

/// `t` is `s` after a floating-point load that put the bits `v` in FPR
/// `frt` and then, when `update`, the address `ea` in GPR `ra`.
pub open spec fn fp_load_result(s: Registers, t: Registers, frt: u8, v: u64, update: bool, ra: u8, ea: u32) -> bool {
    &&& t.fpr@ == s.fpr@.update(frt as int, v)
    &&& t == (Registers { fpr: t.fpr, gpr: t.gpr, ..s })
    &&& t.gpr@ == if update { s.gpr@.update(ra as int, ea) } else { s.gpr@ }
}

/// A word load: on success some word is in `rt`, otherwise nothing changed.
pub open spec fn word_loaded(s: Registers, t: Registers, ok: bool, rt: u8, update: bool, ra: u8, ea: u32) -> bool {
    &&& ok ==> exists|v: u32| #[trigger] load_result(s, t, rt, v, update, ra, ea)
    &&& !ok ==> t == s
}

/// A byte load: on success some zero-extended byte is in `rt`.
pub open spec fn byte_loaded(s: Registers, t: Registers, ok: bool, rt: u8, update: bool, ra: u8, ea: u32) -> bool {
    &&& ok ==> exists|v: u8| #[trigger] load_result(s, t, rt, v as u32, update, ra, ea)
    &&& !ok ==> t == s
}

/// A halfword load: on success some zero-extended halfword is in `rt`.
pub open spec fn half_loaded(s: Registers, t: Registers, ok: bool, rt: u8, update: bool, ra: u8, ea: u32) -> bool {
    &&& ok ==> exists|v: u16| #[trigger] load_result(s, t, rt, v as u32, update, ra, ea)
    &&& !ok ==> t == s
}

/// An algebraic halfword load: on success some sign-extended halfword is in `rt`.
pub open spec fn half_signed_loaded(s: Registers, t: Registers, ok: bool, rt: u8, update: bool, ra: u8, ea: u32) -> bool {
    &&& ok ==> exists|v: u16| #[trigger] load_result(s, t, rt, (v as i16) as i32 as u32, update, ra, ea)
    &&& !ok ==> t == s
}

/// A store: on success, with `update`, `ra` holds the address; otherwise
/// nothing changed.
pub open spec fn stored(s: Registers, t: Registers, ok: bool, update: bool, ra: u8, ea: u32) -> bool {
    &&& ok ==> store_result(s, t, update, ra, ea)
    &&& !ok ==> t == s
}

/// A floating-point load: on success some bits are in `frt`.
pub open spec fn fp_loaded(s: Registers, t: Registers, ok: bool, frt: u8, update: bool, ra: u8, ea: u32) -> bool {
    &&& ok ==> exists|v: u64| #[trigger] fp_load_result(s, t, frt, v, update, ra, ea)
    &&& !ok ==> t == s
}

/// A word load that read `rd`: on `Ok(v)` the load succeeds with `v` in
/// `rt`; on `Err(e)` it fails with `e` and nothing changes.
pub open spec fn word_read(s: Registers, t: Registers, r: Result<(), Error>, rd: Result<u32, Error>, rt: u8, update: bool, ra: u8, ea: u32) -> bool {
    match rd {
        Ok(v) => r == Ok::<(), Error>(()) && load_result(s, t, rt, v, update, ra, ea),
        Err(e) => r == Err::<(), Error>(e) && t == s,
    }
}

/// A byte load that read `rd`: the byte, zero-extended, goes to `rt`.
pub open spec fn byte_read(s: Registers, t: Registers, r: Result<(), Error>, rd: Result<u8, Error>, rt: u8, update: bool, ra: u8, ea: u32) -> bool {
    match rd {
        Ok(v) => r == Ok::<(), Error>(()) && load_result(s, t, rt, v as u32, update, ra, ea),
        Err(e) => r == Err::<(), Error>(e) && t == s,
    }
}

/// A halfword load that read `rd`: the halfword, zero-extended, goes to `rt`.
pub open spec fn half_read(s: Registers, t: Registers, r: Result<(), Error>, rd: Result<u16, Error>, rt: u8, update: bool, ra: u8, ea: u32) -> bool {
    match rd {
        Ok(v) => r == Ok::<(), Error>(()) && load_result(s, t, rt, v as u32, update, ra, ea),
        Err(e) => r == Err::<(), Error>(e) && t == s,
    }
}

/// An algebraic halfword load that read `rd`: the halfword, sign-extended,
/// goes to `rt`.
pub open spec fn half_signed_read(s: Registers, t: Registers, r: Result<(), Error>, rd: Result<u16, Error>, rt: u8, update: bool, ra: u8, ea: u32) -> bool {
    match rd {
        Ok(v) => r == Ok::<(), Error>(()) && load_result(s, t, rt, (v as i16) as i32 as u32, update, ra, ea),
        Err(e) => r == Err::<(), Error>(e) && t == s,
    }
}

/// A doubleword floating-point load that read `rd`: the bits go to `frt`.
pub open spec fn fp_read(s: Registers, t: Registers, r: Result<(), Error>, rd: Result<u64, Error>, frt: u8, update: bool, ra: u8, ea: u32) -> bool {
    match rd {
        Ok(v) => r == Ok::<(), Error>(()) && fp_load_result(s, t, frt, v, update, ra, ea),
        Err(e) => r == Err::<(), Error>(e) && t == s,
    }
}

/// A single floating-point load that read `rd` and widened it to the bits
/// `wide`: those bits go to `frt`.
pub open spec fn single_read(s: Registers, t: Registers, r: Result<(), Error>, rd: Result<u32, Error>, wide: u64, frt: u8, update: bool, ra: u8, ea: u32) -> bool {
    match rd {
        Ok(v) => r == Ok::<(), Error>(()) && fp_load_result(s, t, frt, wide, update, ra, ea),
        Err(e) => r == Err::<(), Error>(e) && t == s,
    }
}

/// A store whose memory write gave `wr`: on success, with `update`, `ra`
/// holds the address; on `Err(e)` it fails with `e` and nothing changes.
pub open spec fn store_write(s: Registers, t: Registers, r: Result<(), Error>, wr: Result<(), Error>, update: bool, ra: u8, ea: u32) -> bool {
    match wr {
        Ok(_) => r == Ok::<(), Error>(()) && store_result(s, t, update, ra, ea),
        Err(e) => r == Err::<(), Error>(e) && t == s,
    }
}

fn effective_address(regs: &Registers, ra: u8, offset: i16) -> (ea: u32)
    requires
        ra < 32,
    ensures
        ea == ea_disp(*regs, ra, offset),
{
    let base = if ra == 0 { 0 } else { regs.gpr[ra as usize] };
    base.wrapping_add(offset as i32 as u32)
}

fn effective_address_indexed(regs: &Registers, ra: u8, rb: u8) -> (ea: u32)
    requires
        ra < 32 && rb < 32,
    ensures
        ea == ea_indexed(*regs, ra, rb),
{
    let base = if ra == 0 { 0 } else { regs.gpr[ra as usize] };
    base.wrapping_add(regs.gpr[rb as usize])
}

/// lwz: load the word at (ra|0) + d into rt
pub fn lwz<M: MemoryInterface>(regs: &mut Registers, memory: &M, rt: u8, ra: u8, d: i16) -> (r: Result<(), Error>)
    requires
        rt < 32 && ra < 32,
    ensures
        word_loaded(*old(regs), *final(regs), r is Ok, rt, false, ra, ea_disp(*old(regs), ra, d)),
        exists|rd: Result<u32, Error>| memory.reads_u32(ea_disp(*old(regs), ra, d), rd)
            && #[trigger] word_read(*old(regs), *final(regs), r, rd, rt, false, ra, ea_disp(*old(regs), ra, d)),
{
    let ea = effective_address(regs, ra, d);
    let rd = memory.read_u32(ea);
    let value = match rd {
        Ok(x) => x,
        Err(e) => {
            assert(word_read(*old(regs), *regs, Err(e), rd, rt, false, ra, ea));
            return Err(e);
        },
    };
    regs.gpr[rt as usize] = value;
    assert(load_result(*old(regs), *regs, rt, value, false, ra, ea));
    assert(word_read(*old(regs), *regs, Ok(()), rd, rt, false, ra, ea));
    Ok(())
}

/// lwzu: load the word at (ra|0) + d into rt; ra takes the address
pub fn lwzu<M: MemoryInterface>(regs: &mut Registers, memory: &M, rt: u8, ra: u8, d: i16) -> (r: Result<(), Error>)
    requires
        rt < 32 && ra < 32,
    ensures
        word_loaded(*old(regs), *final(regs), r is Ok, rt, true, ra, ea_disp(*old(regs), ra, d)),
        exists|rd: Result<u32, Error>| memory.reads_u32(ea_disp(*old(regs), ra, d), rd)
            && #[trigger] word_read(*old(regs), *final(regs), r, rd, rt, true, ra, ea_disp(*old(regs), ra, d)),
{
    let ea = effective_address(regs, ra, d);
    let rd = memory.read_u32(ea);
    let value = match rd {
        Ok(x) => x,
        Err(e) => {
            assert(word_read(*old(regs), *regs, Err(e), rd, rt, true, ra, ea));
            return Err(e);
        },
    };
    regs.gpr[rt as usize] = value;
    regs.gpr[ra as usize] = ea;
    assert(load_result(*old(regs), *regs, rt, value, true, ra, ea));
    assert(word_read(*old(regs), *regs, Ok(()), rd, rt, true, ra, ea));
    Ok(())
}

/// lwzx: load the word at (ra|0) + rb into rt
pub fn lwzx<M: MemoryInterface>(regs: &mut Registers, memory: &M, rt: u8, ra: u8, rb: u8) -> (r: Result<(), Error>)
    requires
        rt < 32 && ra < 32 && rb < 32,
    ensures
        word_loaded(*old(regs), *final(regs), r is Ok, rt, false, ra, ea_indexed(*old(regs), ra, rb)),
        exists|rd: Result<u32, Error>| memory.reads_u32(ea_indexed(*old(regs), ra, rb), rd)
            && #[trigger] word_read(*old(regs), *final(regs), r, rd, rt, false, ra, ea_indexed(*old(regs), ra, rb)),
{
    let ea = effective_address_indexed(regs, ra, rb);
    let rd = memory.read_u32(ea);
    let value = match rd {
        Ok(x) => x,
        Err(e) => {
            assert(word_read(*old(regs), *regs, Err(e), rd, rt, false, ra, ea));
            return Err(e);
        },
    };
    regs.gpr[rt as usize] = value;
    assert(load_result(*old(regs), *regs, rt, value, false, ra, ea));
    assert(word_read(*old(regs), *regs, Ok(()), rd, rt, false, ra, ea));
    Ok(())
}

/// lwzux: load the word at (ra|0) + rb into rt; ra takes the address
pub fn lwzux<M: MemoryInterface>(regs: &mut Registers, memory: &M, rt: u8, ra: u8, rb: u8) -> (r: Result<(), Error>)
    requires
        rt < 32 && ra < 32 && rb < 32,
    ensures
        word_loaded(*old(regs), *final(regs), r is Ok, rt, true, ra, ea_indexed(*old(regs), ra, rb)),
        exists|rd: Result<u32, Error>| memory.reads_u32(ea_indexed(*old(regs), ra, rb), rd)
            && #[trigger] word_read(*old(regs), *final(regs), r, rd, rt, true, ra, ea_indexed(*old(regs), ra, rb)),
{
    let ea = effective_address_indexed(regs, ra, rb);
    let rd = memory.read_u32(ea);
    let value = match rd {
        Ok(x) => x,
        Err(e) => {
            assert(word_read(*old(regs), *regs, Err(e), rd, rt, true, ra, ea));
            return Err(e);
        },
    };
    regs.gpr[rt as usize] = value;
    regs.gpr[ra as usize] = ea;
    assert(load_result(*old(regs), *regs, rt, value, true, ra, ea));
    assert(word_read(*old(regs), *regs, Ok(()), rd, rt, true, ra, ea));
    Ok(())
}

/// lbz: load the byte at (ra|0) + d into rt
pub fn lbz<M: MemoryInterface>(regs: &mut Registers, memory: &M, rt: u8, ra: u8, d: i16) -> (r: Result<(), Error>)
    requires
        rt < 32 && ra < 32,
    ensures
        byte_loaded(*old(regs), *final(regs), r is Ok, rt, false, ra, ea_disp(*old(regs), ra, d)),
        exists|rd: Result<u8, Error>| memory.reads_u8(ea_disp(*old(regs), ra, d), rd)
            && #[trigger] byte_read(*old(regs), *final(regs), r, rd, rt, false, ra, ea_disp(*old(regs), ra, d)),
{
    let ea = effective_address(regs, ra, d);
    let rd = memory.read_u8(ea);
    let value = match rd {
        Ok(x) => x,
        Err(e) => {
            assert(byte_read(*old(regs), *regs, Err(e), rd, rt, false, ra, ea));
            return Err(e);
        },
    };
    regs.gpr[rt as usize] = value as u32;
    assert(load_result(*old(regs), *regs, rt, value as u32, false, ra, ea));
    assert(byte_read(*old(regs), *regs, Ok(()), rd, rt, false, ra, ea));
    Ok(())
}

/// lbzu: load the byte at (ra|0) + d into rt; ra takes the address
pub fn lbzu<M: MemoryInterface>(regs: &mut Registers, memory: &M, rt: u8, ra: u8, d: i16) -> (r: Result<(), Error>)
    requires
        rt < 32 && ra < 32,
    ensures
        byte_loaded(*old(regs), *final(regs), r is Ok, rt, true, ra, ea_disp(*old(regs), ra, d)),
        exists|rd: Result<u8, Error>| memory.reads_u8(ea_disp(*old(regs), ra, d), rd)
            && #[trigger] byte_read(*old(regs), *final(regs), r, rd, rt, true, ra, ea_disp(*old(regs), ra, d)),
{
    let ea = effective_address(regs, ra, d);
    let rd = memory.read_u8(ea);
    let value = match rd {
        Ok(x) => x,
        Err(e) => {
            assert(byte_read(*old(regs), *regs, Err(e), rd, rt, true, ra, ea));
            return Err(e);
        },
    };
    regs.gpr[rt as usize] = value as u32;
    regs.gpr[ra as usize] = ea;
    assert(load_result(*old(regs), *regs, rt, value as u32, true, ra, ea));
    assert(byte_read(*old(regs), *regs, Ok(()), rd, rt, true, ra, ea));
    Ok(())
}

/// lbzx: load the byte at (ra|0) + rb into rt
pub fn lbzx<M: MemoryInterface>(regs: &mut Registers, memory: &M, rt: u8, ra: u8, rb: u8) -> (r: Result<(), Error>)
    requires
        rt < 32 && ra < 32 && rb < 32,
    ensures
        byte_loaded(*old(regs), *final(regs), r is Ok, rt, false, ra, ea_indexed(*old(regs), ra, rb)),
        exists|rd: Result<u8, Error>| memory.reads_u8(ea_indexed(*old(regs), ra, rb), rd)
            && #[trigger] byte_read(*old(regs), *final(regs), r, rd, rt, false, ra, ea_indexed(*old(regs), ra, rb)),
{
    let ea = effective_address_indexed(regs, ra, rb);
    let rd = memory.read_u8(ea);
    let value = match rd {
        Ok(x) => x,
        Err(e) => {
            assert(byte_read(*old(regs), *regs, Err(e), rd, rt, false, ra, ea));
            return Err(e);
        },
    };
    regs.gpr[rt as usize] = value as u32;
    assert(load_result(*old(regs), *regs, rt, value as u32, false, ra, ea));
    assert(byte_read(*old(regs), *regs, Ok(()), rd, rt, false, ra, ea));
    Ok(())
}

/// lbzux: load the byte at (ra|0) + rb into rt; ra takes the address
pub fn lbzux<M: MemoryInterface>(regs: &mut Registers, memory: &M, rt: u8, ra: u8, rb: u8) -> (r: Result<(), Error>)
    requires
        rt < 32 && ra < 32 && rb < 32,
    ensures
        byte_loaded(*old(regs), *final(regs), r is Ok, rt, true, ra, ea_indexed(*old(regs), ra, rb)),
        exists|rd: Result<u8, Error>| memory.reads_u8(ea_indexed(*old(regs), ra, rb), rd)
            && #[trigger] byte_read(*old(regs), *final(regs), r, rd, rt, true, ra, ea_indexed(*old(regs), ra, rb)),
{
    let ea = effective_address_indexed(regs, ra, rb);
    let rd = memory.read_u8(ea);
    let value = match rd {
        Ok(x) => x,
        Err(e) => {
            assert(byte_read(*old(regs), *regs, Err(e), rd, rt, true, ra, ea));
            return Err(e);
        },
    };
    regs.gpr[rt as usize] = value as u32;
    regs.gpr[ra as usize] = ea;
    assert(load_result(*old(regs), *regs, rt, value as u32, true, ra, ea));
    assert(byte_read(*old(regs), *regs, Ok(()), rd, rt, true, ra, ea));
    Ok(())
}

/// lhz: load the halfword at (ra|0) + d into rt
pub fn lhz<M: MemoryInterface>(regs: &mut Registers, memory: &M, rt: u8, ra: u8, d: i16) -> (r: Result<(), Error>)
    requires
        rt < 32 && ra < 32,
    ensures
        half_loaded(*old(regs), *final(regs), r is Ok, rt, false, ra, ea_disp(*old(regs), ra, d)),
        exists|rd: Result<u16, Error>| memory.reads_u16(ea_disp(*old(regs), ra, d), rd)
            && #[trigger] half_read(*old(regs), *final(regs), r, rd, rt, false, ra, ea_disp(*old(regs), ra, d)),
{
    let ea = effective_address(regs, ra, d);
    let rd = memory.read_u16(ea);
    let value = match rd {
        Ok(x) => x,
        Err(e) => {
            assert(half_read(*old(regs), *regs, Err(e), rd, rt, false, ra, ea));
            return Err(e);
        },
    };
    regs.gpr[rt as usize] = value as u32;
    assert(load_result(*old(regs), *regs, rt, value as u32, false, ra, ea));
    assert(half_read(*old(regs), *regs, Ok(()), rd, rt, false, ra, ea));
    Ok(())
}

/// lhzu: load the halfword at (ra|0) + d into rt; ra takes the address
pub fn lhzu<M: MemoryInterface>(regs: &mut Registers, memory: &M, rt: u8, ra: u8, d: i16) -> (r: Result<(), Error>)
    requires
        rt < 32 && ra < 32,
    ensures
        half_loaded(*old(regs), *final(regs), r is Ok, rt, true, ra, ea_disp(*old(regs), ra, d)),
        exists|rd: Result<u16, Error>| memory.reads_u16(ea_disp(*old(regs), ra, d), rd)
            && #[trigger] half_read(*old(regs), *final(regs), r, rd, rt, true, ra, ea_disp(*old(regs), ra, d)),
{
    let ea = effective_address(regs, ra, d);
    let rd = memory.read_u16(ea);
    let value = match rd {
        Ok(x) => x,
        Err(e) => {
            assert(half_read(*old(regs), *regs, Err(e), rd, rt, true, ra, ea));
            return Err(e);
        },
    };
    regs.gpr[rt as usize] = value as u32;
    regs.gpr[ra as usize] = ea;
    assert(load_result(*old(regs), *regs, rt, value as u32, true, ra, ea));
    assert(half_read(*old(regs), *regs, Ok(()), rd, rt, true, ra, ea));
    Ok(())
}

/// lhzx: load the halfword at (ra|0) + rb into rt
pub fn lhzx<M: MemoryInterface>(regs: &mut Registers, memory: &M, rt: u8, ra: u8, rb: u8) -> (r: Result<(), Error>)
    requires
        rt < 32 && ra < 32 && rb < 32,
    ensures
        half_loaded(*old(regs), *final(regs), r is Ok, rt, false, ra, ea_indexed(*old(regs), ra, rb)),
        exists|rd: Result<u16, Error>| memory.reads_u16(ea_indexed(*old(regs), ra, rb), rd)
            && #[trigger] half_read(*old(regs), *final(regs), r, rd, rt, false, ra, ea_indexed(*old(regs), ra, rb)),
{
    let ea = effective_address_indexed(regs, ra, rb);
    let rd = memory.read_u16(ea);
    let value = match rd {
        Ok(x) => x,
        Err(e) => {
            assert(half_read(*old(regs), *regs, Err(e), rd, rt, false, ra, ea));
            return Err(e);
        },
    };
    regs.gpr[rt as usize] = value as u32;
    assert(load_result(*old(regs), *regs, rt, value as u32, false, ra, ea));
    assert(half_read(*old(regs), *regs, Ok(()), rd, rt, false, ra, ea));
    Ok(())
}

/// lhzux: load the halfword at (ra|0) + rb into rt; ra takes the address
pub fn lhzux<M: MemoryInterface>(regs: &mut Registers, memory: &M, rt: u8, ra: u8, rb: u8) -> (r: Result<(), Error>)
    requires
        rt < 32 && ra < 32 && rb < 32,
    ensures
        half_loaded(*old(regs), *final(regs), r is Ok, rt, true, ra, ea_indexed(*old(regs), ra, rb)),
        exists|rd: Result<u16, Error>| memory.reads_u16(ea_indexed(*old(regs), ra, rb), rd)
            && #[trigger] half_read(*old(regs), *final(regs), r, rd, rt, true, ra, ea_indexed(*old(regs), ra, rb)),
{
    let ea = effective_address_indexed(regs, ra, rb);
    let rd = memory.read_u16(ea);
    let value = match rd {
        Ok(x) => x,
        Err(e) => {
            assert(half_read(*old(regs), *regs, Err(e), rd, rt, true, ra, ea));
            return Err(e);
        },
    };
    regs.gpr[rt as usize] = value as u32;
    regs.gpr[ra as usize] = ea;
    assert(load_result(*old(regs), *regs, rt, value as u32, true, ra, ea));
    assert(half_read(*old(regs), *regs, Ok(()), rd, rt, true, ra, ea));
    Ok(())
}

/// lha: load the halfword, sign-extended, at (ra|0) + d into rt
pub fn lha<M: MemoryInterface>(regs: &mut Registers, memory: &M, rt: u8, ra: u8, d: i16) -> (r: Result<(), Error>)
    requires
        rt < 32 && ra < 32,
    ensures
        half_signed_loaded(*old(regs), *final(regs), r is Ok, rt, false, ra, ea_disp(*old(regs), ra, d)),
        exists|rd: Result<u16, Error>| memory.reads_u16(ea_disp(*old(regs), ra, d), rd)
            && #[trigger] half_signed_read(*old(regs), *final(regs), r, rd, rt, false, ra, ea_disp(*old(regs), ra, d)),
{
    let ea = effective_address(regs, ra, d);
    let rd = memory.read_u16(ea);
    let value = match rd {
        Ok(x) => x,
        Err(e) => {
            assert(half_signed_read(*old(regs), *regs, Err(e), rd, rt, false, ra, ea));
            return Err(e);
        },
    };
    regs.gpr[rt as usize] = value as i16 as i32 as u32;
    assert(load_result(*old(regs), *regs, rt, (value as i16) as i32 as u32, false, ra, ea));
    assert(half_signed_read(*old(regs), *regs, Ok(()), rd, rt, false, ra, ea));
    Ok(())
}

/// lhau: load the halfword, sign-extended, at (ra|0) + d into rt; ra takes the address
pub fn lhau<M: MemoryInterface>(regs: &mut Registers, memory: &M, rt: u8, ra: u8, d: i16) -> (r: Result<(), Error>)
    requires
        rt < 32 && ra < 32,
    ensures
        half_signed_loaded(*old(regs), *final(regs), r is Ok, rt, true, ra, ea_disp(*old(regs), ra, d)),
        exists|rd: Result<u16, Error>| memory.reads_u16(ea_disp(*old(regs), ra, d), rd)
            && #[trigger] half_signed_read(*old(regs), *final(regs), r, rd, rt, true, ra, ea_disp(*old(regs), ra, d)),
{
    let ea = effective_address(regs, ra, d);
    let rd = memory.read_u16(ea);
    let value = match rd {
        Ok(x) => x,
        Err(e) => {
            assert(half_signed_read(*old(regs), *regs, Err(e), rd, rt, true, ra, ea));
            return Err(e);
        },
    };
    regs.gpr[rt as usize] = value as i16 as i32 as u32;
    regs.gpr[ra as usize] = ea;
    assert(load_result(*old(regs), *regs, rt, (value as i16) as i32 as u32, true, ra, ea));
    assert(half_signed_read(*old(regs), *regs, Ok(()), rd, rt, true, ra, ea));
    Ok(())
}

/// lhax: load the halfword, sign-extended, at (ra|0) + rb into rt
pub fn lhax<M: MemoryInterface>(regs: &mut Registers, memory: &M, rt: u8, ra: u8, rb: u8) -> (r: Result<(), Error>)
    requires
        rt < 32 && ra < 32 && rb < 32,
    ensures
        half_signed_loaded(*old(regs), *final(regs), r is Ok, rt, false, ra, ea_indexed(*old(regs), ra, rb)),
        exists|rd: Result<u16, Error>| memory.reads_u16(ea_indexed(*old(regs), ra, rb), rd)
            && #[trigger] half_signed_read(*old(regs), *final(regs), r, rd, rt, false, ra, ea_indexed(*old(regs), ra, rb)),
{
    let ea = effective_address_indexed(regs, ra, rb);
    let rd = memory.read_u16(ea);
    let value = match rd {
        Ok(x) => x,
        Err(e) => {
            assert(half_signed_read(*old(regs), *regs, Err(e), rd, rt, false, ra, ea));
            return Err(e);
        },
    };
    regs.gpr[rt as usize] = value as i16 as i32 as u32;
    assert(load_result(*old(regs), *regs, rt, (value as i16) as i32 as u32, false, ra, ea));
    assert(half_signed_read(*old(regs), *regs, Ok(()), rd, rt, false, ra, ea));
    Ok(())
}

/// lhaux: load the halfword, sign-extended, at (ra|0) + rb into rt; ra takes the address
pub fn lhaux<M: MemoryInterface>(regs: &mut Registers, memory: &M, rt: u8, ra: u8, rb: u8) -> (r: Result<(), Error>)
    requires
        rt < 32 && ra < 32 && rb < 32,
    ensures
        half_signed_loaded(*old(regs), *final(regs), r is Ok, rt, true, ra, ea_indexed(*old(regs), ra, rb)),
        exists|rd: Result<u16, Error>| memory.reads_u16(ea_indexed(*old(regs), ra, rb), rd)
            && #[trigger] half_signed_read(*old(regs), *final(regs), r, rd, rt, true, ra, ea_indexed(*old(regs), ra, rb)),
{
    let ea = effective_address_indexed(regs, ra, rb);
    let rd = memory.read_u16(ea);
    let value = match rd {
        Ok(x) => x,
        Err(e) => {
            assert(half_signed_read(*old(regs), *regs, Err(e), rd, rt, true, ra, ea));
            return Err(e);
        },
    };
    regs.gpr[rt as usize] = value as i16 as i32 as u32;
    regs.gpr[ra as usize] = ea;
    assert(load_result(*old(regs), *regs, rt, (value as i16) as i32 as u32, true, ra, ea));
    assert(half_signed_read(*old(regs), *regs, Ok(()), rd, rt, true, ra, ea));
    Ok(())
}

/// stw: store the word of rs at (ra|0) + d
pub fn stw<M: MemoryInterface>(regs: &mut Registers, memory: &M, rs: u8, ra: u8, d: i16) -> (r: Result<(), Error>)
    requires
        rs < 32 && ra < 32,
    ensures
        stored(*old(regs), *final(regs), r is Ok, false, ra, ea_disp(*old(regs), ra, d)),
        exists|wr: Result<(), Error>| memory.writes_u32(ea_disp(*old(regs), ra, d), old(regs).gpr[rs as int], wr)
            && #[trigger] store_write(*old(regs), *final(regs), r, wr, false, ra, ea_disp(*old(regs), ra, d)),
{
    let ea = effective_address(regs, ra, d);
    let value = regs.gpr[rs as usize];
    let wr = memory.write_u32(ea, value);
    match wr {
        Ok(_) => {},
        Err(e) => {
            assert(store_write(*old(regs), *regs, Err(e), wr, false, ra, ea));
            return Err(e);
        },
    }
    assert(store_write(*old(regs), *regs, Ok(()), wr, false, ra, ea));
    Ok(())
}

/// stwu: store the word of rs at (ra|0) + d; ra takes the address
pub fn stwu<M: MemoryInterface>(regs: &mut Registers, memory: &M, rs: u8, ra: u8, d: i16) -> (r: Result<(), Error>)
    requires
        rs < 32 && ra < 32,
    ensures
        stored(*old(regs), *final(regs), r is Ok, true, ra, ea_disp(*old(regs), ra, d)),
        exists|wr: Result<(), Error>| memory.writes_u32(ea_disp(*old(regs), ra, d), old(regs).gpr[rs as int], wr)
            && #[trigger] store_write(*old(regs), *final(regs), r, wr, true, ra, ea_disp(*old(regs), ra, d)),
{
    let ea = effective_address(regs, ra, d);
    let value = regs.gpr[rs as usize];
    let wr = memory.write_u32(ea, value);
    match wr {
        Ok(_) => {},
        Err(e) => {
            assert(store_write(*old(regs), *regs, Err(e), wr, true, ra, ea));
            return Err(e);
        },
    }
    regs.gpr[ra as usize] = ea;
    assert(store_write(*old(regs), *regs, Ok(()), wr, true, ra, ea));
    Ok(())
}

/// stwx: store the word of rs at (ra|0) + rb
pub fn stwx<M: MemoryInterface>(regs: &mut Registers, memory: &M, rs: u8, ra: u8, rb: u8) -> (r: Result<(), Error>)
    requires
        rs < 32 && ra < 32 && rb < 32,
    ensures
        stored(*old(regs), *final(regs), r is Ok, false, ra, ea_indexed(*old(regs), ra, rb)),
        exists|wr: Result<(), Error>| memory.writes_u32(ea_indexed(*old(regs), ra, rb), old(regs).gpr[rs as int], wr)
            && #[trigger] store_write(*old(regs), *final(regs), r, wr, false, ra, ea_indexed(*old(regs), ra, rb)),
{
    let ea = effective_address_indexed(regs, ra, rb);
    let value = regs.gpr[rs as usize];
    let wr = memory.write_u32(ea, value);
    match wr {
        Ok(_) => {},
        Err(e) => {
            assert(store_write(*old(regs), *regs, Err(e), wr, false, ra, ea));
            return Err(e);
        },
    }
    assert(store_write(*old(regs), *regs, Ok(()), wr, false, ra, ea));
    Ok(())
}

/// stwux: store the word of rs at (ra|0) + rb; ra takes the address
pub fn stwux<M: MemoryInterface>(regs: &mut Registers, memory: &M, rs: u8, ra: u8, rb: u8) -> (r: Result<(), Error>)
    requires
        rs < 32 && ra < 32 && rb < 32,
    ensures
        stored(*old(regs), *final(regs), r is Ok, true, ra, ea_indexed(*old(regs), ra, rb)),
        exists|wr: Result<(), Error>| memory.writes_u32(ea_indexed(*old(regs), ra, rb), old(regs).gpr[rs as int], wr)
            && #[trigger] store_write(*old(regs), *final(regs), r, wr, true, ra, ea_indexed(*old(regs), ra, rb)),
{
    let ea = effective_address_indexed(regs, ra, rb);
    let value = regs.gpr[rs as usize];
    let wr = memory.write_u32(ea, value);
    match wr {
        Ok(_) => {},
        Err(e) => {
            assert(store_write(*old(regs), *regs, Err(e), wr, true, ra, ea));
            return Err(e);
        },
    }
    regs.gpr[ra as usize] = ea;
    assert(store_write(*old(regs), *regs, Ok(()), wr, true, ra, ea));
    Ok(())
}

/// stb: store the low byte of rs at (ra|0) + d
pub fn stb<M: MemoryInterface>(regs: &mut Registers, memory: &M, rs: u8, ra: u8, d: i16) -> (r: Result<(), Error>)
    requires
        rs < 32 && ra < 32,
    ensures
        stored(*old(regs), *final(regs), r is Ok, false, ra, ea_disp(*old(regs), ra, d)),
        exists|wr: Result<(), Error>| memory.writes_u8(ea_disp(*old(regs), ra, d), old(regs).gpr[rs as int] as u8, wr)
            && #[trigger] store_write(*old(regs), *final(regs), r, wr, false, ra, ea_disp(*old(regs), ra, d)),
{
    let ea = effective_address(regs, ra, d);
    let value = regs.gpr[rs as usize] as u8;
    let wr = memory.write_u8(ea, value);
    match wr {
        Ok(_) => {},
        Err(e) => {
            assert(store_write(*old(regs), *regs, Err(e), wr, false, ra, ea));
            return Err(e);
        },
    }
    assert(store_write(*old(regs), *regs, Ok(()), wr, false, ra, ea));
    Ok(())
}

/// stbu: store the low byte of rs at (ra|0) + d; ra takes the address
pub fn stbu<M: MemoryInterface>(regs: &mut Registers, memory: &M, rs: u8, ra: u8, d: i16) -> (r: Result<(), Error>)
    requires
        rs < 32 && ra < 32,
    ensures
        stored(*old(regs), *final(regs), r is Ok, true, ra, ea_disp(*old(regs), ra, d)),
        exists|wr: Result<(), Error>| memory.writes_u8(ea_disp(*old(regs), ra, d), old(regs).gpr[rs as int] as u8, wr)
            && #[trigger] store_write(*old(regs), *final(regs), r, wr, true, ra, ea_disp(*old(regs), ra, d)),
{
    let ea = effective_address(regs, ra, d);
    let value = regs.gpr[rs as usize] as u8;
    let wr = memory.write_u8(ea, value);
    match wr {
        Ok(_) => {},
        Err(e) => {
            assert(store_write(*old(regs), *regs, Err(e), wr, true, ra, ea));
            return Err(e);
        },
    }
    regs.gpr[ra as usize] = ea;
    assert(store_write(*old(regs), *regs, Ok(()), wr, true, ra, ea));
    Ok(())
}

/// stbx: store the low byte of rs at (ra|0) + rb
pub fn stbx<M: MemoryInterface>(regs: &mut Registers, memory: &M, rs: u8, ra: u8, rb: u8) -> (r: Result<(), Error>)
    requires
        rs < 32 && ra < 32 && rb < 32,
    ensures
        stored(*old(regs), *final(regs), r is Ok, false, ra, ea_indexed(*old(regs), ra, rb)),
        exists|wr: Result<(), Error>| memory.writes_u8(ea_indexed(*old(regs), ra, rb), old(regs).gpr[rs as int] as u8, wr)
            && #[trigger] store_write(*old(regs), *final(regs), r, wr, false, ra, ea_indexed(*old(regs), ra, rb)),
{
    let ea = effective_address_indexed(regs, ra, rb);
    let value = regs.gpr[rs as usize] as u8;
    let wr = memory.write_u8(ea, value);
    match wr {
        Ok(_) => {},
        Err(e) => {
            assert(store_write(*old(regs), *regs, Err(e), wr, false, ra, ea));
            return Err(e);
        },
    }
    assert(store_write(*old(regs), *regs, Ok(()), wr, false, ra, ea));
    Ok(())
}

/// stbux: store the low byte of rs at (ra|0) + rb; ra takes the address
pub fn stbux<M: MemoryInterface>(regs: &mut Registers, memory: &M, rs: u8, ra: u8, rb: u8) -> (r: Result<(), Error>)
    requires
        rs < 32 && ra < 32 && rb < 32,
    ensures
        stored(*old(regs), *final(regs), r is Ok, true, ra, ea_indexed(*old(regs), ra, rb)),
        exists|wr: Result<(), Error>| memory.writes_u8(ea_indexed(*old(regs), ra, rb), old(regs).gpr[rs as int] as u8, wr)
            && #[trigger] store_write(*old(regs), *final(regs), r, wr, true, ra, ea_indexed(*old(regs), ra, rb)),
{
    let ea = effective_address_indexed(regs, ra, rb);
    let value = regs.gpr[rs as usize] as u8;
    let wr = memory.write_u8(ea, value);
    match wr {
        Ok(_) => {},
        Err(e) => {
            assert(store_write(*old(regs), *regs, Err(e), wr, true, ra, ea));
            return Err(e);
        },
    }
    regs.gpr[ra as usize] = ea;
    assert(store_write(*old(regs), *regs, Ok(()), wr, true, ra, ea));
    Ok(())
}

/// sth: store the low halfword of rs at (ra|0) + d
pub fn sth<M: MemoryInterface>(regs: &mut Registers, memory: &M, rs: u8, ra: u8, d: i16) -> (r: Result<(), Error>)
    requires
        rs < 32 && ra < 32,
    ensures
        stored(*old(regs), *final(regs), r is Ok, false, ra, ea_disp(*old(regs), ra, d)),
        exists|wr: Result<(), Error>| memory.writes_u16(ea_disp(*old(regs), ra, d), old(regs).gpr[rs as int] as u16, wr)
            && #[trigger] store_write(*old(regs), *final(regs), r, wr, false, ra, ea_disp(*old(regs), ra, d)),
{
    let ea = effective_address(regs, ra, d);
    let value = regs.gpr[rs as usize] as u16;
    let wr = memory.write_u16(ea, value);
    match wr {
        Ok(_) => {},
        Err(e) => {
            assert(store_write(*old(regs), *regs, Err(e), wr, false, ra, ea));
            return Err(e);
        },
    }
    assert(store_write(*old(regs), *regs, Ok(()), wr, false, ra, ea));
    Ok(())
}

/// sthu: store the low halfword of rs at (ra|0) + d; ra takes the address
pub fn sthu<M: MemoryInterface>(regs: &mut Registers, memory: &M, rs: u8, ra: u8, d: i16) -> (r: Result<(), Error>)
    requires
        rs < 32 && ra < 32,
    ensures
        stored(*old(regs), *final(regs), r is Ok, true, ra, ea_disp(*old(regs), ra, d)),
        exists|wr: Result<(), Error>| memory.writes_u16(ea_disp(*old(regs), ra, d), old(regs).gpr[rs as int] as u16, wr)
            && #[trigger] store_write(*old(regs), *final(regs), r, wr, true, ra, ea_disp(*old(regs), ra, d)),
{
    let ea = effective_address(regs, ra, d);
    let value = regs.gpr[rs as usize] as u16;
    let wr = memory.write_u16(ea, value);
    match wr {
        Ok(_) => {},
        Err(e) => {
            assert(store_write(*old(regs), *regs, Err(e), wr, true, ra, ea));
            return Err(e);
        },
    }
    regs.gpr[ra as usize] = ea;
    assert(store_write(*old(regs), *regs, Ok(()), wr, true, ra, ea));
    Ok(())
}

/// sthx: store the low halfword of rs at (ra|0) + rb
pub fn sthx<M: MemoryInterface>(regs: &mut Registers, memory: &M, rs: u8, ra: u8, rb: u8) -> (r: Result<(), Error>)
    requires
        rs < 32 && ra < 32 && rb < 32,
    ensures
        stored(*old(regs), *final(regs), r is Ok, false, ra, ea_indexed(*old(regs), ra, rb)),
        exists|wr: Result<(), Error>| memory.writes_u16(ea_indexed(*old(regs), ra, rb), old(regs).gpr[rs as int] as u16, wr)
            && #[trigger] store_write(*old(regs), *final(regs), r, wr, false, ra, ea_indexed(*old(regs), ra, rb)),
{
    let ea = effective_address_indexed(regs, ra, rb);
    let value = regs.gpr[rs as usize] as u16;
    let wr = memory.write_u16(ea, value);
    match wr {
        Ok(_) => {},
        Err(e) => {
            assert(store_write(*old(regs), *regs, Err(e), wr, false, ra, ea));
            return Err(e);
        },
    }
    assert(store_write(*old(regs), *regs, Ok(()), wr, false, ra, ea));
    Ok(())
}

/// sthux: store the low halfword of rs at (ra|0) + rb; ra takes the address
pub fn sthux<M: MemoryInterface>(regs: &mut Registers, memory: &M, rs: u8, ra: u8, rb: u8) -> (r: Result<(), Error>)
    requires
        rs < 32 && ra < 32 && rb < 32,
    ensures
        stored(*old(regs), *final(regs), r is Ok, true, ra, ea_indexed(*old(regs), ra, rb)),
        exists|wr: Result<(), Error>| memory.writes_u16(ea_indexed(*old(regs), ra, rb), old(regs).gpr[rs as int] as u16, wr)
            && #[trigger] store_write(*old(regs), *final(regs), r, wr, true, ra, ea_indexed(*old(regs), ra, rb)),
{
    let ea = effective_address_indexed(regs, ra, rb);
    let value = regs.gpr[rs as usize] as u16;
    let wr = memory.write_u16(ea, value);
    match wr {
        Ok(_) => {},
        Err(e) => {
            assert(store_write(*old(regs), *regs, Err(e), wr, true, ra, ea));
            return Err(e);
        },
    }
    regs.gpr[ra as usize] = ea;
    assert(store_write(*old(regs), *regs, Ok(()), wr, true, ra, ea));
    Ok(())
}

/// lfd: load the doubleword at (ra|0) + d into frt
pub fn lfd<M: MemoryInterface>(regs: &mut Registers, memory: &M, frt: u8, ra: u8, d: i16) -> (r: Result<(), Error>)
    requires
        frt < 32 && ra < 32,
    ensures
        fp_loaded(*old(regs), *final(regs), r is Ok, frt, false, ra, ea_disp(*old(regs), ra, d)),
        exists|rd: Result<u64, Error>| memory.reads_u64(ea_disp(*old(regs), ra, d), rd)
            && #[trigger] fp_read(*old(regs), *final(regs), r, rd, frt, false, ra, ea_disp(*old(regs), ra, d)),
{
    let ea = effective_address(regs, ra, d);
    let rd = memory.read_u64(ea);
    let bits = match rd {
        Ok(x) => x,
        Err(e) => {
            assert(fp_read(*old(regs), *regs, Err(e), rd, frt, false, ra, ea));
            return Err(e);
        },
    };
    regs.fpr[frt as usize] = bits;
    assert(fp_load_result(*old(regs), *regs, frt, bits, false, ra, ea));
    assert(fp_read(*old(regs), *regs, Ok(()), rd, frt, false, ra, ea));
    Ok(())
}

/// lfdu: load the doubleword at (ra|0) + d into frt; ra takes the address
pub fn lfdu<M: MemoryInterface>(regs: &mut Registers, memory: &M, frt: u8, ra: u8, d: i16) -> (r: Result<(), Error>)
    requires
        frt < 32 && ra < 32,
    ensures
        fp_loaded(*old(regs), *final(regs), r is Ok, frt, true, ra, ea_disp(*old(regs), ra, d)),
        exists|rd: Result<u64, Error>| memory.reads_u64(ea_disp(*old(regs), ra, d), rd)
            && #[trigger] fp_read(*old(regs), *final(regs), r, rd, frt, true, ra, ea_disp(*old(regs), ra, d)),
{
    let ea = effective_address(regs, ra, d);
    let rd = memory.read_u64(ea);
    let bits = match rd {
        Ok(x) => x,
        Err(e) => {
            assert(fp_read(*old(regs), *regs, Err(e), rd, frt, true, ra, ea));
            return Err(e);
        },
    };
    regs.fpr[frt as usize] = bits;
    regs.gpr[ra as usize] = ea;
    assert(fp_load_result(*old(regs), *regs, frt, bits, true, ra, ea));
    assert(fp_read(*old(regs), *regs, Ok(()), rd, frt, true, ra, ea));
    Ok(())
}

/// lfs: load the single at (ra|0) + d, widened to double, into frt
pub fn lfs<M: MemoryInterface, F: FloatUnit>(regs: &mut Registers, memory: &M, fpu: &F, frt: u8, ra: u8, d: i16) -> (r: Result<(), Error>)
    requires
        frt < 32 && ra < 32,
    ensures
        fp_loaded(*old(regs), *final(regs), r is Ok, frt, false, ra, ea_disp(*old(regs), ra, d)),
        exists|rd: Result<u32, Error>, wide: u64| memory.reads_u32(ea_disp(*old(regs), ra, d), rd) && (rd matches Ok(v) ==> fpu.widens(v, wide))
            && #[trigger] single_read(*old(regs), *final(regs), r, rd, wide, frt, false, ra, ea_disp(*old(regs), ra, d)),
{
    let ea = effective_address(regs, ra, d);
    let rd = memory.read_u32(ea);
    let raw = match rd {
        Ok(x) => x,
        Err(e) => {
            assert(single_read(*old(regs), *regs, Err(e), rd, 0, frt, false, ra, ea));
            return Err(e);
        },
    };
    let bits = fpu.single_to_double(raw);
    regs.fpr[frt as usize] = bits;
    assert(fp_load_result(*old(regs), *regs, frt, bits, false, ra, ea));
    assert(single_read(*old(regs), *regs, Ok(()), rd, bits, frt, false, ra, ea));
    Ok(())
}

/// lfsu: load the single at (ra|0) + d, widened to double, into frt; ra takes the address
pub fn lfsu<M: MemoryInterface, F: FloatUnit>(regs: &mut Registers, memory: &M, fpu: &F, frt: u8, ra: u8, d: i16) -> (r: Result<(), Error>)
    requires
        frt < 32 && ra < 32,
    ensures
        fp_loaded(*old(regs), *final(regs), r is Ok, frt, true, ra, ea_disp(*old(regs), ra, d)),
        exists|rd: Result<u32, Error>, wide: u64| memory.reads_u32(ea_disp(*old(regs), ra, d), rd) && (rd matches Ok(v) ==> fpu.widens(v, wide))
            && #[trigger] single_read(*old(regs), *final(regs), r, rd, wide, frt, true, ra, ea_disp(*old(regs), ra, d)),
{
    let ea = effective_address(regs, ra, d);
    let rd = memory.read_u32(ea);
    let raw = match rd {
        Ok(x) => x,
        Err(e) => {
            assert(single_read(*old(regs), *regs, Err(e), rd, 0, frt, true, ra, ea));
            return Err(e);
        },
    };
    let bits = fpu.single_to_double(raw);
    regs.fpr[frt as usize] = bits;
    regs.gpr[ra as usize] = ea;
    assert(fp_load_result(*old(regs), *regs, frt, bits, true, ra, ea));
    assert(single_read(*old(regs), *regs, Ok(()), rd, bits, frt, true, ra, ea));
    Ok(())
}

/// stfd: store the bits of frs at (ra|0) + d
pub fn stfd<M: MemoryInterface>(regs: &mut Registers, memory: &M, frs: u8, ra: u8, d: i16) -> (r: Result<(), Error>)
    requires
        frs < 32 && ra < 32,
    ensures
        stored(*old(regs), *final(regs), r is Ok, false, ra, ea_disp(*old(regs), ra, d)),
        exists|wr: Result<(), Error>| memory.writes_u64(ea_disp(*old(regs), ra, d), old(regs).fpr[frs as int], wr)
            && #[trigger] store_write(*old(regs), *final(regs), r, wr, false, ra, ea_disp(*old(regs), ra, d)),
{
    let ea = effective_address(regs, ra, d);
    let wr = memory.write_u64(ea, regs.fpr[frs as usize]);
    match wr {
        Ok(_) => {},
        Err(e) => {
            assert(store_write(*old(regs), *regs, Err(e), wr, false, ra, ea));
            return Err(e);
        },
    }
    assert(store_write(*old(regs), *regs, Ok(()), wr, false, ra, ea));
    Ok(())
}

/// stfdu: store the bits of frs at (ra|0) + d; ra takes the address
pub fn stfdu<M: MemoryInterface>(regs: &mut Registers, memory: &M, frs: u8, ra: u8, d: i16) -> (r: Result<(), Error>)
    requires
        frs < 32 && ra < 32,
    ensures
        stored(*old(regs), *final(regs), r is Ok, true, ra, ea_disp(*old(regs), ra, d)),
        exists|wr: Result<(), Error>| memory.writes_u64(ea_disp(*old(regs), ra, d), old(regs).fpr[frs as int], wr)
            && #[trigger] store_write(*old(regs), *final(regs), r, wr, true, ra, ea_disp(*old(regs), ra, d)),
{
    let ea = effective_address(regs, ra, d);
    let wr = memory.write_u64(ea, regs.fpr[frs as usize]);
    match wr {
        Ok(_) => {},
        Err(e) => {
            assert(store_write(*old(regs), *regs, Err(e), wr, true, ra, ea));
            return Err(e);
        },
    }
    regs.gpr[ra as usize] = ea;
    assert(store_write(*old(regs), *regs, Ok(()), wr, true, ra, ea));
    Ok(())
}

/// stfs: store frs rounded to single at (ra|0) + d
pub fn stfs<M: MemoryInterface, F: FloatUnit>(regs: &mut Registers, memory: &M, fpu: &F, frs: u8, ra: u8, d: i16) -> (r: Result<(), Error>)
    requires
        frs < 32 && ra < 32,
    ensures
        stored(*old(regs), *final(regs), r is Ok, false, ra, ea_disp(*old(regs), ra, d)),
        exists|narrow: u32, wr: Result<(), Error>| fpu.narrows(old(regs).fpr[frs as int], narrow) && #[trigger] memory.writes_u32(ea_disp(*old(regs), ra, d), narrow, wr)
            && store_write(*old(regs), *final(regs), r, wr, false, ra, ea_disp(*old(regs), ra, d)),
{
    let ea = effective_address(regs, ra, d);
    let bits = fpu.double_to_single(regs.fpr[frs as usize]);
    let wr = memory.write_u32(ea, bits);
    match wr {
        Ok(_) => {},
        Err(e) => {
            assert(store_write(*old(regs), *regs, Err(e), wr, false, ra, ea));
            return Err(e);
        },
    }
    assert(store_write(*old(regs), *regs, Ok(()), wr, false, ra, ea));
    Ok(())
}

/// stfsu: store frs rounded to single at (ra|0) + d; ra takes the address
pub fn stfsu<M: MemoryInterface, F: FloatUnit>(regs: &mut Registers, memory: &M, fpu: &F, frs: u8, ra: u8, d: i16) -> (r: Result<(), Error>)
    requires
        frs < 32 && ra < 32,
    ensures
        stored(*old(regs), *final(regs), r is Ok, true, ra, ea_disp(*old(regs), ra, d)),
        exists|narrow: u32, wr: Result<(), Error>| fpu.narrows(old(regs).fpr[frs as int], narrow) && #[trigger] memory.writes_u32(ea_disp(*old(regs), ra, d), narrow, wr)
            && store_write(*old(regs), *final(regs), r, wr, true, ra, ea_disp(*old(regs), ra, d)),
{
    let ea = effective_address(regs, ra, d);
    let bits = fpu.double_to_single(regs.fpr[frs as usize]);
    let wr = memory.write_u32(ea, bits);
    match wr {
        Ok(_) => {},
        Err(e) => {
            assert(store_write(*old(regs), *regs, Err(e), wr, true, ra, ea));
            return Err(e);
        },
    }
    regs.gpr[ra as usize] = ea;
    assert(store_write(*old(regs), *regs, Ok(()), wr, true, ra, ea));
    Ok(())
}

/// The bytes of a word in reverse order.
pub open spec fn swap32(v: u32) -> u32 {
    ((v & 0xFFu32) << 24u32) | (((v >> 8u32) & 0xFFu32) << 16u32) | (((v >> 16u32) & 0xFFu32) << 8u32) | (v >> 24u32)
}

/// The bytes of a halfword in reverse order.
pub open spec fn swap16(h: u16) -> u16 {
    ((h & 0xFFu16) << 8u16) | (h >> 8u16)
}

/// A word read with its bytes reversed.
pub open spec fn swapped32(rd: Result<u32, Error>) -> Result<u32, Error> {
    match rd {
        Ok(v) => Ok(swap32(v)),
        Err(e) => Err(e),
    }
}

/// A halfword read with its bytes reversed.
pub open spec fn swapped16(rd: Result<u16, Error>) -> Result<u16, Error> {
    match rd {
        Ok(v) => Ok(swap16(v)),
        Err(e) => Err(e),
    }
}

fn swap32_exec(v: u32) -> (r: u32)
    ensures
        r == swap32(v),
{
    ((v & 0xFF) << 24) | (((v >> 8) & 0xFF) << 16) | (((v >> 16) & 0xFF) << 8) | (v >> 24)
}

fn swap16_exec(h: u16) -> (r: u16)
    ensures
        r == swap16(h),
{
    ((h & 0xFF) << 8) | (h >> 8)
}

/// lwbrx: load the word at (ra|0) + rb, bytes reversed, into rt
pub fn lwbrx<M: MemoryInterface>(regs: &mut Registers, memory: &M, rt: u8, ra: u8, rb: u8) -> (r: Result<(), Error>)
    requires
        rt < 32 && ra < 32 && rb < 32,
    ensures
        exists|rd: Result<u32, Error>| memory.reads_u32(ea_indexed(*old(regs), ra, rb), rd)
            && #[trigger] word_read(*old(regs), *final(regs), r, swapped32(rd), rt, false, ra, ea_indexed(*old(regs), ra, rb)),
{
    let ea = effective_address_indexed(regs, ra, rb);
    let rd = memory.read_u32(ea);
    match rd {
        Ok(v) => {
            let w = swap32_exec(v);
            regs.gpr[rt as usize] = w;
            assert(load_result(*old(regs), *regs, rt, w, false, ra, ea));
            assert(word_read(*old(regs), *regs, Ok(()), swapped32(rd), rt, false, ra, ea));
            Ok(())
        },
        Err(e) => {
            assert(word_read(*old(regs), *regs, Err(e), swapped32(rd), rt, false, ra, ea));
            Err(e)
        },
    }
}

/// lhbrx: load the halfword at (ra|0) + rb, bytes reversed and
/// zero-extended, into rt
pub fn lhbrx<M: MemoryInterface>(regs: &mut Registers, memory: &M, rt: u8, ra: u8, rb: u8) -> (r: Result<(), Error>)
    requires
        rt < 32 && ra < 32 && rb < 32,
    ensures
        exists|rd: Result<u16, Error>| memory.reads_u16(ea_indexed(*old(regs), ra, rb), rd)
            && #[trigger] half_read(*old(regs), *final(regs), r, swapped16(rd), rt, false, ra, ea_indexed(*old(regs), ra, rb)),
{
    let ea = effective_address_indexed(regs, ra, rb);
    let rd = memory.read_u16(ea);
    match rd {
        Ok(v) => {
            let h = swap16_exec(v);
            regs.gpr[rt as usize] = h as u32;
            assert(load_result(*old(regs), *regs, rt, h as u32, false, ra, ea));
            assert(half_read(*old(regs), *regs, Ok(()), swapped16(rd), rt, false, ra, ea));
            Ok(())
        },
        Err(e) => {
            assert(half_read(*old(regs), *regs, Err(e), swapped16(rd), rt, false, ra, ea));
            Err(e)
        },
    }
}

/// stwbrx: store the word of rs, bytes reversed, at (ra|0) + rb
pub fn stwbrx<M: MemoryInterface>(regs: &mut Registers, memory: &M, rs: u8, ra: u8, rb: u8) -> (r: Result<(), Error>)
    requires
        rs < 32 && ra < 32 && rb < 32,
    ensures
        exists|wr: Result<(), Error>| memory.writes_u32(ea_indexed(*old(regs), ra, rb), swap32(old(regs).gpr[rs as int]), wr)
            && #[trigger] store_write(*old(regs), *final(regs), r, wr, false, ra, ea_indexed(*old(regs), ra, rb)),
{
    let ea = effective_address_indexed(regs, ra, rb);
    let value = swap32_exec(regs.gpr[rs as usize]);
    let wr = memory.write_u32(ea, value);
    match wr {
        Ok(_) => {
            assert(store_write(*old(regs), *regs, Ok(()), wr, false, ra, ea));
            Ok(())
        },
        Err(e) => {
            assert(store_write(*old(regs), *regs, Err(e), wr, false, ra, ea));
            Err(e)
        },
    }
}

/// sthbrx: store the low halfword of rs, bytes reversed, at (ra|0) + rb
pub fn sthbrx<M: MemoryInterface>(regs: &mut Registers, memory: &M, rs: u8, ra: u8, rb: u8) -> (r: Result<(), Error>)
    requires
        rs < 32 && ra < 32 && rb < 32,
    ensures
        exists|wr: Result<(), Error>| memory.writes_u16(ea_indexed(*old(regs), ra, rb), swap16(old(regs).gpr[rs as int] as u16), wr)
            && #[trigger] store_write(*old(regs), *final(regs), r, wr, false, ra, ea_indexed(*old(regs), ra, rb)),
{
    let ea = effective_address_indexed(regs, ra, rb);
    let value = swap16_exec(regs.gpr[rs as usize] as u16);
    let wr = memory.write_u16(ea, value);
    match wr {
        Ok(_) => {
            assert(store_write(*old(regs), *regs, Ok(()), wr, false, ra, ea));
            Ok(())
        },
        Err(e) => {
            assert(store_write(*old(regs), *regs, Err(e), wr, false, ra, ea));
            Err(e)
        },
    }
}

/// lwarx: load the word at (ra|0) + rb into rt and take a reservation on
/// it; with one processor and nothing else writing memory, the reservation
/// needs no record.
pub fn lwarx<M: MemoryInterface>(regs: &mut Registers, memory: &M, rt: u8, ra: u8, rb: u8) -> (r: Result<(), Error>)
    requires
        rt < 32 && ra < 32 && rb < 32,
    ensures
        exists|rd: Result<u32, Error>| memory.reads_u32(ea_indexed(*old(regs), ra, rb), rd)
            && #[trigger] word_read(*old(regs), *final(regs), r, rd, rt, false, ra, ea_indexed(*old(regs), ra, rb)),
{
    lwzx(regs, memory, rt, ra, rb)
}

/// What `stwcx.` leaves once its write gave `wr`: on success CR0 holds EQ
/// (the store was made) and the summary overflow; on failure nothing
/// changed.
pub open spec fn conditional_store(s: Registers, t: Registers, r: Result<(), Error>, wr: Result<(), Error>) -> bool {
    match wr {
        Ok(_) => r == Ok::<(), Error>(()) && s.cr_result(t, with_cr_field(s.cr, 0, cr_nibble(false, false, true, has_flag(s.xer, XER_SO)))),
        Err(e) => r == Err::<(), Error>(e) && t == s,
    }
}

/// stwcx.: store the word of rs at (ra|0) + rb under the reservation that
/// `lwarx` took, which (with one processor) always holds, and report the
/// store in CR0
pub fn stwcx<M: MemoryInterface>(regs: &mut Registers, memory: &M, rs: u8, ra: u8, rb: u8) -> (r: Result<(), Error>)
    requires
        rs < 32 && ra < 32 && rb < 32,
    ensures
        exists|wr: Result<(), Error>| memory.writes_u32(ea_indexed(*old(regs), ra, rb), old(regs).gpr[rs as int], wr)
            && #[trigger] conditional_store(*old(regs), *final(regs), r, wr),
{
    let ea = effective_address_indexed(regs, ra, rb);
    let wr = memory.write_u32(ea, regs.gpr[rs as usize]);
    match wr {
        Ok(_) => {
            let so = regs.xer & XER_SO != 0;
            set_cr_field(regs, 0, false, false, true, so);
            assert(conditional_store(*old(regs), *regs, Ok(()), wr));
            Ok(())
        },
        Err(e) => {
            assert(conditional_store(*old(regs), *regs, Err(e), wr));
            Err(e)
        },
    }
}

/// The address of word `k` of a multiple access starting at `ea`.
pub open spec fn word_at(ea: u32, k: int) -> u32 {
    ((ea + 4 * k) % 0x1_0000_0000) as u32
}

/// Reading the words from `ea` on can give `words`.
pub open spec fn multiple_read<M: MemoryInterface>(memory: &M, ea: u32, words: Seq<u32>) -> bool {
    forall|k: int| 0 <= k < words.len() ==> #[trigger] memory.reads_u32(word_at(ea, k), Ok::<u32, Error>(words[k]))
}

/// What `lmw` leaves: on success the words read from `ea` on are in
/// `rt`..31 and nothing else changed; on failure (the error of the first
/// read that failed) nothing changed.
pub open spec fn multiple_loaded<M: MemoryInterface>(memory: &M, s: Registers, t: Registers, r: Result<(), Error>, rt: u8, ea: u32) -> bool {
    match r {
        Ok(_) => exists|words: Seq<u32>| #[trigger] multiple_read(memory, ea, words) && words.len() == 32 - rt
            && t == (Registers { gpr: t.gpr, ..s })
            && forall|k: int| 0 <= k < 32 ==> #[trigger] t.gpr@[k] == (if rt <= k { words[k - rt] } else { s.gpr@[k] }),
        Err(e) => t == s && exists|words: Seq<u32>| #[trigger] multiple_read(memory, ea, words) && words.len() < 32 - rt
            && memory.reads_u32(word_at(ea, words.len() as int), Err::<u32, Error>(e)),
    }
}

fn next_word_addr(ea: u32, addr: u32, k: u32) -> (r: u32)
    requires
        addr == word_at(ea, k as int),
    ensures
        r == word_at(ea, k + 1),
{
    let r = addr.wrapping_add(4);
    assert(((ea + 4 * k) % 0x1_0000_0000 + 4) % 0x1_0000_0000 == (ea + 4 * (k + 1)) % 0x1_0000_0000) by (nonlinear_arith);
    r
}

/// lmw: load the words at (ra|0) + d on into rt..31
pub fn lmw<M: MemoryInterface>(regs: &mut Registers, memory: &M, rt: u8, ra: u8, d: i16) -> (r: Result<(), Error>)
    requires
        rt < 32 && ra < 32,
    ensures
        multiple_loaded(memory, *old(regs), *final(regs), r, rt, ea_disp(*old(regs), ra, d)),
{
    let ea = effective_address(regs, ra, d);
    let n: u32 = 32 - rt as u32;
    let mut vals: Vec<u32> = Vec::new();
    let mut addr = ea;
    let mut k: u32 = 0;
    while k < n
        invariant
            k <= n,
            n == 32 - rt,
            vals@.len() == k,
            ea == ea_disp(*old(regs), ra, d),
            addr == word_at(ea, k as int),
            multiple_read(memory, ea, vals@),
            *regs == *old(regs),
        decreases n - k,
    {
        let rd = memory.read_u32(addr);
        match rd {
            Ok(v) => {
                let ghost prev = vals@;
                vals.push(v);
                assert forall|j: int| 0 <= j < vals@.len() implies #[trigger] memory.reads_u32(word_at(ea, j), Ok::<u32, Error>(vals@[j])) by {
                    if j < k {
                        assert(vals@[j] == prev[j]);
                    }
                }
            },
            Err(e) => {
                assert(multiple_read(memory, ea, vals@));
                assert(memory.reads_u32(word_at(ea, vals@.len() as int), Err::<u32, Error>(e)));
                assert(ea == ea_disp(*old(regs), ra, d));
                return Err(e);
            },
        }
        addr = next_word_addr(ea, addr, k);
        k = k + 1;
    }
    let mut j: usize = 0;
    while j < vals.len()
        invariant
            j <= vals@.len(),
            vals@.len() == 32 - rt,
            rt < 32,
            multiple_read(memory, ea, vals@),
            *regs == (Registers { gpr: regs.gpr, ..*old(regs) }),
            forall|i: int| 0 <= i < 32 ==> #[trigger] regs.gpr@[i] == (if rt <= i < rt + j { vals@[i - rt] } else { old(regs).gpr@[i] }),
        decreases vals@.len() - j,
    {
        regs.gpr[rt as usize + j] = vals[j];
        j = j + 1;
    }
    assert(multiple_read(memory, ea, vals@));
    Ok(())
}

/// Writing the word `v` at `a` can succeed.
pub open spec fn word_store_ok<M: MemoryInterface>(memory: &M, a: u32, v: u32) -> bool {
    exists|ok: Result<(), Error>| ok is Ok && #[trigger] memory.writes_u32(a, v, ok)
}

/// Storing `rs`..`rs + n - 1` from `ea` on could succeed word by word.
pub open spec fn multiple_written<M: MemoryInterface>(memory: &M, ea: u32, s: Registers, rs: u8, n: int) -> bool {
    forall|k: int| 0 <= k < n ==> #[trigger] word_store_ok(memory, word_at(ea, k), s.gpr@[rs + k])
}

/// What `stmw` does: it writes `rs`..31 from `ea` on, in order, and fails
/// with the error of the first write that fails; the registers do not
/// change.
pub open spec fn multiple_stored<M: MemoryInterface>(memory: &M, s: Registers, t: Registers, r: Result<(), Error>, rs: u8, ea: u32) -> bool {
    &&& t == s
    &&& exists|n: int| 0 <= n <= 32 - rs && #[trigger] multiple_written(memory, ea, s, rs, n) && match r {
        Ok(_) => n == 32 - rs,
        Err(e) => n < 32 - rs && memory.writes_u32(word_at(ea, n), s.gpr@[rs + n], Err::<(), Error>(e)),
    }
}

/// stmw: store rs..31 at (ra|0) + d on
pub fn stmw<M: MemoryInterface>(regs: &mut Registers, memory: &M, rs: u8, ra: u8, d: i16) -> (r: Result<(), Error>)
    requires
        rs < 32 && ra < 32,
    ensures
        multiple_stored(memory, *old(regs), *final(regs), r, rs, ea_disp(*old(regs), ra, d)),
{
    let ea = effective_address(regs, ra, d);
    let n: u32 = 32 - rs as u32;
    let mut addr = ea;
    let mut k: u32 = 0;
    while k < n
        invariant
            k <= n,
            n == 32 - rs,
            rs < 32,
            ea == ea_disp(*old(regs), ra, d),
            addr == word_at(ea, k as int),
            multiple_written(memory, ea, *regs, rs, k as int),
            *regs == *old(regs),
        decreases n - k,
    {
        let v = regs.gpr[rs as usize + k as usize];
        let wr = memory.write_u32(addr, v);
        match wr {
            Ok(_) => {
                assert(word_store_ok(memory, addr, v));
                assert forall|j: int| 0 <= j < k + 1 implies #[trigger] word_store_ok(memory, word_at(ea, j), regs.gpr@[rs + j]) by {
                    if j < k {
                        assert(multiple_written(memory, ea, *regs, rs, k as int));
                    }
                }
            },
            Err(e) => {
                assert(multiple_written(memory, ea, *regs, rs, k as int));
                assert(memory.writes_u32(word_at(ea, k as int), regs.gpr@[rs + k], Err::<(), Error>(e)));
                assert(ea == ea_disp(*old(regs), ra, d));
                return Err(e);
            },
        }
        addr = next_word_addr(ea, addr, k);
        k = k + 1;
    }
    assert(multiple_written(memory, ea, *regs, rs, n as int));
    Ok(())
}

/// The address of byte `k` of a string access starting at `ea`.
pub open spec fn byte_at(ea: u32, k: int) -> u32 {
    ((ea + k) % 0x1_0000_0000) as u32
}

fn next_byte_addr(ea: u32, addr: u32, k: u32) -> (r: u32)
    requires
        addr == byte_at(ea, k as int),
    ensures
        r == byte_at(ea, k + 1),
{
    let r = addr.wrapping_add(1);
    assert(((ea + k) % 0x1_0000_0000 + 1) % 0x1_0000_0000 == (ea + (k + 1)) % 0x1_0000_0000) by (nonlinear_arith);
    r
}

/// Reading the bytes from `ea` on can give `bytes`.
pub open spec fn string_read<M: MemoryInterface>(memory: &M, ea: u32, bytes: Seq<u8>) -> bool {
    forall|k: int| 0 <= k < bytes.len() ==> #[trigger] memory.reads_u8(byte_at(ea, k), Ok::<u8, Error>(bytes[k]))
}

/// Byte `i` of `bytes`, or zero past their end.
pub open spec fn byte_or_zero(bytes: Seq<u8>, i: int) -> int {
    if 0 <= i < bytes.len() { bytes[i] as int } else { 0 }
}

/// Word `q` of a string: its bytes `4q`..`4q + 3`, most significant first,
/// with zeros past the string's end.
pub open spec fn string_word(bytes: Seq<u8>, q: int) -> u32 {
    (byte_or_zero(bytes, 4 * q) * 0x100_0000 + byte_or_zero(bytes, 4 * q + 1) * 0x1_0000 + byte_or_zero(bytes, 4 * q + 2) * 0x100
        + byte_or_zero(bytes, 4 * q + 3)) as u32
}

/// Which word of a string starting at register `rt` goes to register `k`.
pub open spec fn string_slot(rt: u8, k: int) -> int {
    (k - rt + 32) % 32
}

/// How many registers a string of `count` bytes fills.
pub open spec fn string_regs(count: int) -> int {
    (count + 3) / 4
}

/// What a string load of `count` bytes from `ea` into `rt`, `rt + 1`, ...
/// (wrapping after 31) leaves: on success each filled register holds its
/// four bytes, the last one padded with zeros, and nothing else changed; on
/// failure (the error of the first read that failed) nothing changed.
pub open spec fn string_loaded<M: MemoryInterface>(memory: &M, s: Registers, t: Registers, r: Result<(), Error>, rt: u8, ea: u32, count: int) -> bool {
    match r {
        Ok(_) => exists|bytes: Seq<u8>| #[trigger] string_read(memory, ea, bytes) && bytes.len() == count
            && t == (Registers { gpr: t.gpr, ..s })
            && forall|k: int| 0 <= k < 32 ==> #[trigger] t.gpr@[k] == (if string_slot(rt, k) < string_regs(count) {
                string_word(bytes, string_slot(rt, k))
            } else {
                s.gpr@[k]
            }),
        Err(e) => t == s && exists|bytes: Seq<u8>| #[trigger] string_read(memory, ea, bytes) && bytes.len() < count
            && memory.reads_u8(byte_at(ea, bytes.len() as int), Err::<u8, Error>(e)),
    }
}

fn byte_or_zero_exec(bytes: &Vec<u8>, i: usize) -> (r: u32)
    ensures
        r == byte_or_zero(bytes@, i as int),
        r < 256,
{
    if i < bytes.len() {
        bytes[i] as u32
    } else {
        0
    }
}

/// Load `count` bytes from `ea` on into `rt`, `rt + 1`, ... (wrapping
/// after 31), four to a register.
fn load_string<M: MemoryInterface>(regs: &mut Registers, memory: &M, rt: u8, ea: u32, count: u32) -> (r: Result<(), Error>)
    requires
        rt < 32,
        count <= 128,
    ensures
        string_loaded(memory, *old(regs), *final(regs), r, rt, ea, count as int),
{
    let mut bytes: Vec<u8> = Vec::new();
    let mut addr = ea;
    let mut k: u32 = 0;
    while k < count
        invariant
            k <= count,
            bytes@.len() == k,
            addr == byte_at(ea, k as int),
            string_read(memory, ea, bytes@),
            *regs == *old(regs),
        decreases count - k,
    {
        let rd = memory.read_u8(addr);
        match rd {
            Ok(b) => {
                let ghost prev = bytes@;
                bytes.push(b);
                assert forall|j: int| 0 <= j < bytes@.len() implies #[trigger] memory.reads_u8(byte_at(ea, j), Ok::<u8, Error>(bytes@[j])) by {
                    if j < k {
                        assert(bytes@[j] == prev[j]);
                    }
                }
            },
            Err(e) => {
                assert(string_read(memory, ea, bytes@));
                assert(memory.reads_u8(byte_at(ea, bytes@.len() as int), Err::<u8, Error>(e)));
                return Err(e);
            },
        }
        addr = next_byte_addr(ea, addr, k);
        k = k + 1;
    }
    let touched: u32 = (count + 3) / 4;
    let mut q: u32 = 0;
    while q < touched
        invariant
            q <= touched,
            touched == string_regs(count as int),
            touched <= 32,
            rt < 32,
            bytes@.len() == count,
            string_read(memory, ea, bytes@),
            *regs == (Registers { gpr: regs.gpr, ..*old(regs) }),
            forall|i: int| 0 <= i < 32 ==> #[trigger] regs.gpr@[i] == (if string_slot(rt, i) < q {
                string_word(bytes@, string_slot(rt, i))
            } else {
                old(regs).gpr@[i]
            }),
        decreases touched - q,
    {
        let reg: usize = ((rt as u32 + q) % 32) as usize;
        let base: usize = 4 * q as usize;
        let value: u32 = byte_or_zero_exec(&bytes, base) * 0x100_0000 + byte_or_zero_exec(&bytes, base + 1) * 0x1_0000
            + byte_or_zero_exec(&bytes, base + 2) * 0x100 + byte_or_zero_exec(&bytes, base + 3);
        assert(string_slot(rt, reg as int) == q);
        regs.gpr[reg] = value;
        assert forall|i: int| 0 <= i < 32 implies #[trigger] regs.gpr@[i] == (if string_slot(rt, i) < q + 1 {
            string_word(bytes@, string_slot(rt, i))
        } else {
            old(regs).gpr@[i]
        }) by {
            if i != reg {
                assert(string_slot(rt, i) != q);
            }
        }
        q = q + 1;
    }
    assert(string_read(memory, ea, bytes@));
    Ok(())
}

/// lswi: load `nb` bytes (32 when `nb` is 0) from (ra|0) into rt, rt + 1, ...
pub fn lswi<M: MemoryInterface>(regs: &mut Registers, memory: &M, rt: u8, ra: u8, nb: u8) -> (r: Result<(), Error>)
    requires
        rt < 32 && ra < 32 && nb < 32,
    ensures
        string_loaded(memory, *old(regs), *final(regs), r, rt, super::arithmetic::base_or_zero(*old(regs), ra), if nb == 0 { 32 } else { nb as int }),
{
    let ea = if ra == 0 { 0 } else { regs.gpr[ra as usize] };
    let count: u32 = if nb == 0 { 32 } else { nb as u32 };
    load_string(regs, memory, rt, ea, count)
}

/// lswx: load XER's low seven bits' worth of bytes from (ra|0) + rb into
/// rt, rt + 1, ...
pub fn lswx<M: MemoryInterface>(regs: &mut Registers, memory: &M, rt: u8, ra: u8, rb: u8) -> (r: Result<(), Error>)
    requires
        rt < 32 && ra < 32 && rb < 32,
    ensures
        string_loaded(memory, *old(regs), *final(regs), r, rt, ea_indexed(*old(regs), ra, rb), (old(regs).xer % 128) as int),
{
    let ea = effective_address_indexed(regs, ra, rb);
    let count: u32 = regs.xer % 128;
    load_string(regs, memory, rt, ea, count)
}

/// The weight of byte `j` (0 the most significant) of a word.
pub open spec fn byte_weight(j: int) -> int {
    if j == 0 { 0x100_0000 } else if j == 1 { 0x1_0000 } else if j == 2 { 0x100 } else { 1 }
}

/// Byte `k` of the string stored from `rs`, `rs + 1`, ... (wrapping after
/// 31), most significant byte of each register first.
pub open spec fn string_byte(s: Registers, rs: u8, k: int) -> u8 {
    ((s.gpr@[(rs + k / 4) % 32] as int / byte_weight(k % 4)) % 256) as u8
}

/// Writing the byte `v` at `a` can succeed.
pub open spec fn byte_store_ok<M: MemoryInterface>(memory: &M, a: u32, v: u8) -> bool {
    exists|ok: Result<(), Error>| ok is Ok && #[trigger] memory.writes_u8(a, v, ok)
}

/// Storing the first `n` bytes of the string could succeed byte by byte.
pub open spec fn string_written<M: MemoryInterface>(memory: &M, ea: u32, s: Registers, rs: u8, n: int) -> bool {
    forall|k: int| 0 <= k < n ==> #[trigger] byte_store_ok(memory, byte_at(ea, k), string_byte(s, rs, k))
}

/// What a string store of `count` bytes from `rs`, ... to `ea` on does: it
/// writes them in order and fails with the error of the first write that
/// fails; the registers do not change.
pub open spec fn string_stored<M: MemoryInterface>(memory: &M, s: Registers, t: Registers, r: Result<(), Error>, rs: u8, ea: u32, count: int) -> bool {
    &&& t == s
    &&& exists|n: int| 0 <= n <= count && #[trigger] string_written(memory, ea, s, rs, n) && match r {
        Ok(_) => n == count,
        Err(e) => n < count && memory.writes_u8(byte_at(ea, n), string_byte(s, rs, n), Err::<(), Error>(e)),
    }
}

/// Store `count` bytes of `rs`, `rs + 1`, ... (wrapping after 31) from `ea`
/// on.
fn store_string<M: MemoryInterface>(regs: &Registers, memory: &M, rs: u8, ea: u32, count: u32) -> (r: Result<(), Error>)
    requires
        rs < 32,
        count <= 128,
    ensures
        string_stored(memory, *regs, *regs, r, rs, ea, count as int),
{
    let mut addr = ea;
    let mut k: u32 = 0;
    while k < count
        invariant
            k <= count,
            rs < 32,
            addr == byte_at(ea, k as int),
            string_written(memory, ea, *regs, rs, k as int),
        decreases count - k,
    {
        let reg: usize = ((rs as u32 + k / 4) % 32) as usize;
        let v = regs.gpr[reg];
        let j = k % 4;
        let weight: u32 = if j == 0 { 0x100_0000 } else if j == 1 { 0x1_0000 } else if j == 2 { 0x100 } else { 1 };
        let b: u8 = ((v / weight) % 256) as u8;
        assert(b == string_byte(*regs, rs, k as int));
        let wr = memory.write_u8(addr, b);
        match wr {
            Ok(_) => {
                assert(byte_store_ok(memory, addr, b));
                assert forall|i: int| 0 <= i < k + 1 implies #[trigger] byte_store_ok(memory, byte_at(ea, i), string_byte(*regs, rs, i)) by {
                    if i < k {
                        assert(string_written(memory, ea, *regs, rs, k as int));
                    }
                }
            },
            Err(e) => {
                assert(string_written(memory, ea, *regs, rs, k as int));
                assert(memory.writes_u8(byte_at(ea, k as int), string_byte(*regs, rs, k as int), Err::<(), Error>(e)));
                return Err(e);
            },
        }
        addr = next_byte_addr(ea, addr, k);
        k = k + 1;
    }
    assert(string_written(memory, ea, *regs, rs, count as int));
    Ok(())
}

/// stswi: store `nb` bytes (32 when `nb` is 0) of rs, rs + 1, ... at (ra|0)
pub fn stswi<M: MemoryInterface>(regs: &mut Registers, memory: &M, rs: u8, ra: u8, nb: u8) -> (r: Result<(), Error>)
    requires
        rs < 32 && ra < 32 && nb < 32,
    ensures
        string_stored(memory, *old(regs), *final(regs), r, rs, super::arithmetic::base_or_zero(*old(regs), ra), if nb == 0 { 32 } else { nb as int }),
{
    let ea = if ra == 0 { 0 } else { regs.gpr[ra as usize] };
    let count: u32 = if nb == 0 { 32 } else { nb as u32 };
    store_string(regs, memory, rs, ea, count)
}

/// stswx: store XER's low seven bits' worth of bytes of rs, rs + 1, ... at
/// (ra|0) + rb
pub fn stswx<M: MemoryInterface>(regs: &mut Registers, memory: &M, rs: u8, ra: u8, rb: u8) -> (r: Result<(), Error>)
    requires
        rs < 32 && ra < 32 && rb < 32,
    ensures
        string_stored(memory, *old(regs), *final(regs), r, rs, ea_indexed(*old(regs), ra, rb), (old(regs).xer % 128) as int),
{
    let ea = effective_address_indexed(regs, ra, rb);
    let count: u32 = regs.xer % 128;
    store_string(regs, memory, rs, ea, count)
}


/// The effective address of a load or store is the sum, modulo 2^32, of
/// `ra` (or zero when the instruction names register 0) and either `rb` or
/// the displacement (shown here for non-negative displacements).
pub proof fn law_effective_addresses(s: Registers, ra: u8, rb: u8, d: i16)
    requires
        ra < 32,
        rb < 32,
    ensures
        (ea_indexed(s, ra, rb) as int - ((if ra == 0 { 0 } else { s.gpr[ra as int] as int }) + s.gpr[rb as int] as int)) % 0x1_0000_0000 == 0,
        d >= 0 ==> (ea_disp(s, ra, d) as int - ((if ra == 0 { 0 } else { s.gpr[ra as int] as int }) + d as int)) % 0x1_0000_0000 == 0,
{
}


/// A load that read `v` succeeds and leaves exactly `v` (a byte or halfword
/// zero-extended) in `rt`, with `ra` then holding the address for the update
/// forms (when `ra` is not `rt`); a load whose read failed fails with the
/// read's error and changes no register.
pub proof fn law_loads_deliver_what_was_read(s: Registers, t: Registers, r: Result<(), Error>, rt: u8, update: bool, ra: u8, ea: u32, w: Result<u32, Error>, h: Result<u16, Error>, b: Result<u8, Error>)
    requires
        rt < 32,
        ra < 32,
    ensures
        word_read(s, t, r, w, rt, update, ra, ea) ==> match w {
            Ok(v) => r is Ok && t.gpr[rt as int] == (if update && ra == rt { ea } else { v }) && (update ==> t.gpr[ra as int] == ea),
            Err(e) => r == Err::<(), Error>(e) && t == s,
        },
        half_read(s, t, r, h, rt, update, ra, ea) ==> match h {
            Ok(v) => r is Ok && (!(update && ra == rt) ==> t.gpr[rt as int] == v as int),
            Err(e) => r == Err::<(), Error>(e) && t == s,
        },
        byte_read(s, t, r, b, rt, update, ra, ea) ==> match b {
            Ok(v) => r is Ok && (!(update && ra == rt) ==> t.gpr[rt as int] == v as int),
            Err(e) => r == Err::<(), Error>(e) && t == s,
        },
{
    if word_read(s, t, r, w, rt, update, ra, ea) {
        assert(t.gpr[rt as int] == t.gpr@[rt as int] && t.gpr[ra as int] == t.gpr@[ra as int]);
    }
    if half_read(s, t, r, h, rt, update, ra, ea) {
        assert(t.gpr[rt as int] == t.gpr@[rt as int]);
    }
    if byte_read(s, t, r, b, rt, update, ra, ea) {
        assert(t.gpr[rt as int] == t.gpr@[rt as int]);
    }
}

} // verus!
