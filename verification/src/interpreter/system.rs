//! System and special-register instructions.
use vstd::prelude::*;
use vstd::string::StringExecFns;
use crate::cpu::MemoryInterface;
use crate::error::Error;
use crate::registers::{Registers, PpcModel};
use crate::text::{dec_chars, decimal};
use super::loadstore::{word_loaded, word_read, store_write, load_result, ea_indexed};

verus! {

pub const SPR_XER: u16 = 1;
pub const SPR_LR: u16 = 8;
pub const SPR_CTR: u16 = 9;
pub const SPR_DSISR: u16 = 18;
pub const SPR_DAR: u16 = 19;
pub const SPR_DEC: u16 = 22;
pub const SPR_SDR1: u16 = 25;
pub const SPR_SRR0: u16 = 26;
pub const SPR_SRR1: u16 = 27;
pub const SPR_SPRG0: u16 = 272;
pub const SPR_SPRG1: u16 = 273;
pub const SPR_SPRG2: u16 = 274;
pub const SPR_SPRG3: u16 = 275;
pub const SPR_PVR: u16 = 287;

/// The processor version register of each model.
pub open spec fn pvr_of(m: PpcModel) -> u32 {
    match m {
        PpcModel::G3 => 0x0008_0200,
        PpcModel::G4 => 0x000C_1101,
        PpcModel::G5 => 0x0039_0202,
    }
}

/// What `mfspr` reads from special register `spr`.
pub open spec fn spr_value(s: Registers, spr: u16) -> u32 {
    if spr == SPR_XER {
        s.xer
    } else if spr == SPR_LR {
        s.lr
    } else if spr == SPR_CTR {
        s.ctr
    } else if spr == SPR_PVR {
        pvr_of(s.model)
    } else {
        s.spr[spr as int]
    }
}

pub open spec fn mfspr_effect(s: Registers, t: Registers, rt: u8, spr: u16) -> bool {
    s.int_result(t, rt as int, spr_value(s, spr), s.xer, false)
}

pub open spec fn mtspr_effect(s: Registers, t: Registers, spr: u16, rs: u8) -> bool {
    let v = s.gpr[rs as int];
    if spr == SPR_XER {
        t == (Registers { xer: v, ..s })
    } else if spr == SPR_LR {
        t == (Registers { lr: v, ..s })
    } else if spr == SPR_CTR {
        t == (Registers { ctr: v, ..s })
    } else if spr == SPR_PVR {
        t == s
    } else {
        t.spr@ == s.spr@.update(spr as int, v) && t == (Registers { spr: t.spr, ..s })
    }
}

/// CR after `mtcrf` has handled fields `i` to 7: each field whose bit in
/// `fxm` is set (the most significant bit for field 0) is copied from `value`.
pub open spec fn mtcrf_value(cr: u32, value: u32, fxm: u8, i: int) -> u32
    decreases 8 - i,
{
    if i >= 8 {
        cr
    } else {
        let shift = ((7 - i) * 4) as u32;
        let mask = 0xFu32 << shift;
        let next = if fxm & (1u8 << ((7 - i) as u8)) != 0 { (cr & !mask) | (value & mask) } else { cr };
        mtcrf_value(next, value, fxm, i + 1)
    }
}

/// Index of the segment register that `rb`'s top four bits select.
pub open spec fn segment_of(x: u32) -> int {
    (x / 0x1000_0000) as int
}

/// `t` is `s` with segment register `i` set to `v`.
pub open spec fn sr_result(s: Registers, t: Registers, i: int, v: u32) -> bool {
    t.sr@ == s.sr@.update(i, v) && t == (Registers { sr: t.sr, ..s })
}

/// Whether `twi` traps: bit 4 of `to` on signed less, bit 3 on signed
/// greater, bit 2 on equal, bit 1 on unsigned less, bit 0 on unsigned greater.
pub open spec fn trap_condition(a: u32, simm: i16, to: u8) -> bool {
    let sa = a as i32;
    let b = simm as i32;
    let ub = (simm as i32) as u32;
    (to & 0b10000u8 != 0 && sa < b) || (to & 0b01000u8 != 0 && sa > b) || (to & 0b00100u8 != 0 && sa == b)
        || (to & 0b00010u8 != 0 && a < ub) || (to & 0b00001u8 != 0 && a > ub)
}

/// The message of the error that `mftb` reports for an unknown time base register.
pub open spec fn invalid_tbr_message(tbr: u16) -> Seq<char> {
    "Invalid TBR register: "@ + dec_chars(tbr as nat)
}

/// Whether `tbr` names the lower (268) or upper (269) time base word, in
/// either encoding.
pub open spec fn valid_tbr(tbr: u16) -> bool {
    tbr == 268 || tbr == 0x0CC || tbr == 269 || tbr == 0x0CD
}

/// What a successful `mftb` leaves: the PC for the lower word, zero for the upper.
pub open spec fn mftb_effect(s: Registers, t: Registers, rt: u8, tbr: u16) -> bool {
    s.int_result(t, rt as int, if tbr == 268 || tbr == 0x0CC { s.pc } else { 0 }, s.xer, false)
}

/// Whether `twi` traps on the registers `s`.
pub open spec fn traps(s: Registers, to: u8, ra: u8, simm: i16) -> bool {
    trap_condition(s.gpr[ra as int], simm, to)
}

pub open spec fn mfmsr_effect(s: Registers, t: Registers, rt: u8) -> bool {
    s.int_result(t, rt as int, s.msr, s.xer, false)
}

pub open spec fn mtmsr_effect(s: Registers, t: Registers, rs: u8) -> bool {
    t == (Registers { msr: s.gpr[rs as int], ..s })
}

pub open spec fn mfcr_effect(s: Registers, t: Registers, rt: u8) -> bool {
    s.int_result(t, rt as int, s.cr, s.xer, false)
}

pub open spec fn mtcrf_effect(s: Registers, t: Registers, fxm: u8, rs: u8) -> bool {
    t == (Registers { cr: mtcrf_value(s.cr, s.gpr[rs as int], fxm, 0), ..s })
}

pub open spec fn mfsr_effect(s: Registers, t: Registers, rt: u8, sr: u8) -> bool {
    s.int_result(t, rt as int, s.sr[(sr % 16) as int], s.xer, false)
}

pub open spec fn mfsrin_effect(s: Registers, t: Registers, rt: u8, rb: u8) -> bool {
    s.int_result(t, rt as int, s.sr[segment_of(s.gpr[rb as int])], s.xer, false)
}

pub open spec fn mtsr_effect(s: Registers, t: Registers, sr: u8, rs: u8) -> bool {
    sr_result(s, t, (sr % 16) as int, s.gpr[rs as int])
}

pub open spec fn mtsrin_effect(s: Registers, t: Registers, rs: u8, rb: u8) -> bool {
    sr_result(s, t, segment_of(s.gpr[rb as int]), s.gpr[rs as int])
}

/// mfspr: rt = special register spr
pub fn mfspr(regs: &mut Registers, rt: u8, spr: u16) -> (r: Result<(), Error>)
    requires
        rt < 32 && spr < 1024,
    ensures
        r is Ok,
        mfspr_effect(*old(regs), *final(regs), rt, spr),
{
    let value = if spr == SPR_XER {
        regs.xer
    } else if spr == SPR_LR {
        regs.lr
    } else if spr == SPR_CTR {
        regs.ctr
    } else if spr == SPR_PVR {
        match regs.model {
            PpcModel::G3 => 0x0008_0200,
            PpcModel::G4 => 0x000C_1101,
            PpcModel::G5 => 0x0039_0202,
        }
    } else {
        regs.spr[spr as usize]
    };
    regs.gpr[rt as usize] = value;
    Ok(())
}

/// mtspr: special register spr = rs; writes to the PVR are ignored
pub fn mtspr(regs: &mut Registers, spr: u16, rs: u8) -> (r: Result<(), Error>)
    requires
        rs < 32 && spr < 1024,
    ensures
        r is Ok,
        mtspr_effect(*old(regs), *final(regs), spr, rs),
{
    let value = regs.gpr[rs as usize];
    if spr == SPR_XER {
        regs.xer = value;
    } else if spr == SPR_LR {
        regs.lr = value;
    } else if spr == SPR_CTR {
        regs.ctr = value;
    } else if spr == SPR_PVR {
    } else {
        regs.spr[spr as usize] = value;
    }
    Ok(())
}

/// mfmsr: rt = MSR
pub fn mfmsr(regs: &mut Registers, rt: u8) -> (r: Result<(), Error>)
    requires
        rt < 32,
    ensures
        r is Ok,
        mfmsr_effect(*old(regs), *final(regs), rt),
{
    regs.gpr[rt as usize] = regs.msr;
    Ok(())
}

/// mtmsr: MSR = rs
pub fn mtmsr(regs: &mut Registers, rs: u8) -> (r: Result<(), Error>)
    requires
        rs < 32,
    ensures
        r is Ok,
        mtmsr_effect(*old(regs), *final(regs), rs),
{
    regs.msr = regs.gpr[rs as usize];
    Ok(())
}

/// mfcr: rt = CR
pub fn mfcr(regs: &mut Registers, rt: u8) -> (r: Result<(), Error>)
    requires
        rt < 32,
    ensures
        r is Ok,
        mfcr_effect(*old(regs), *final(regs), rt),
{
    regs.gpr[rt as usize] = regs.cr;
    Ok(())
}

/// mtcrf: copy the CR fields that fxm selects from rs
pub fn mtcrf(regs: &mut Registers, fxm: u8, rs: u8) -> (r: Result<(), Error>)
    requires
        rs < 32,
    ensures
        r is Ok,
        mtcrf_effect(*old(regs), *final(regs), fxm, rs),
{
    let value = regs.gpr[rs as usize];
    let mut cr = regs.cr;
    let mut i: u32 = 0;
    while i < 8
        invariant
            i <= 8,
            mtcrf_value(cr, value, fxm, i as int) == mtcrf_value(old(regs).cr, value, fxm, 0),
        decreases 8 - i,
    {
        if fxm & (1u8 << ((7 - i) as u8)) != 0 {
            let shift: u32 = (7 - i) * 4;
            let mask: u32 = 0xFu32 << shift;
            cr = (cr & !mask) | (value & mask);
        }
        i = i + 1;
    }
    regs.cr = cr;
    Ok(())
}

/// dcbf: no data cache, nothing to do
pub fn dcbf(_regs: &mut Registers, _ra: u8, _rb: u8) -> (r: Result<(), Error>)
    ensures
        r is Ok,
        *final(_regs) == *old(_regs),
{
    Ok(())
}

/// dcbst: no data cache, nothing to do
pub fn dcbst(_regs: &mut Registers, _ra: u8, _rb: u8) -> (r: Result<(), Error>)
    ensures
        r is Ok,
        *final(_regs) == *old(_regs),
{
    Ok(())
}

/// dcbt: no data cache to prefetch into
pub fn dcbt(_regs: &mut Registers, _ra: u8, _rb: u8) -> (r: Result<(), Error>)
    ensures
        r is Ok,
        *final(_regs) == *old(_regs),
{
    Ok(())
}

/// dcbtst: no data cache to prefetch into
pub fn dcbtst(_regs: &mut Registers, _ra: u8, _rb: u8) -> (r: Result<(), Error>)
    ensures
        r is Ok,
        *final(_regs) == *old(_regs),
{
    Ok(())
}

/// The start of the 32-byte block that holds `ea`.
pub open spec fn block_of(ea: u32) -> u32 {
    (ea - ea % 32) as u32
}

/// Zeroing each of the `n` bytes from `block` on can succeed.
pub open spec fn zeroed_first<M: MemoryInterface>(memory: &M, block: u32, n: u32) -> bool {
    forall|a: u32| block <= a < block + n ==> #[trigger] memory.writes_u8(a, 0u8, Ok::<(), Error>(()))
}

/// dcbz: zero the 32-byte block that holds the effective address, byte by
/// byte from its start; the first byte write that fails ends it with that
/// error.
pub fn dcbz<M: MemoryInterface>(regs: &Registers, ra: u8, rb: u8, memory: &M) -> (r: Result<(), Error>)
    requires
        ra < 32 && rb < 32,
    ensures
        r is Ok ==> zeroed_first(memory, block_of(ea_indexed(*regs, ra, rb)), 32),
        r matches Err(e) ==> exists|n: u32| n < 32 && #[trigger] zeroed_first(memory, block_of(ea_indexed(*regs, ra, rb)), n)
            && memory.writes_u8((block_of(ea_indexed(*regs, ra, rb)) + n) as u32, 0u8, Err::<(), Error>(e)),
{
    let base = if ra == 0 { 0 } else { regs.gpr[ra as usize] };
    let ea = base.wrapping_add(regs.gpr[rb as usize]);
    let block_start = ea - ea % 32;
    let mut i: u32 = 0;
    while i < 32
        invariant
            i <= 32,
            block_start <= u32::MAX - 31,
            block_start == block_of(ea_indexed(*regs, ra, rb)),
            zeroed_first(memory, block_start, i),
        decreases 32 - i,
    {
        let w = memory.write_u8(block_start + i, 0);
        match w {
            Ok(()) => {
                assert(w is Ok);
                let ghost u = w->Ok_0;
                assert(u == ());
                assert(w == Ok::<(), Error>(()));
                assert forall|a: u32| block_start <= a < block_start + (i + 1) implies #[trigger] memory.writes_u8(a, 0u8, Ok::<(), Error>(())) by {
                    if a < block_start + i {
                        assert(zeroed_first(memory, block_start, i));
                    }
                }
            },
            Err(e) => {
                assert(zeroed_first(memory, block_start, i));
                return Err(e);
            },
        }
        i = i + 1;
    }
    Ok(())
}

/// icbi: no instruction cache, nothing to do
pub fn icbi(_regs: &mut Registers, _ra: u8, _rb: u8) -> (r: Result<(), Error>)
    ensures
        r is Ok,
        *final(_regs) == *old(_regs),
{
    Ok(())
}

/// mfsr: rt = segment register sr (low four bits)
pub fn mfsr(regs: &mut Registers, rt: u8, sr: u8) -> (r: Result<(), Error>)
    requires
        rt < 32,
    ensures
        r is Ok,
        mfsr_effect(*old(regs), *final(regs), rt, sr),
{
    let index = (sr % 16) as usize;
    regs.gpr[rt as usize] = regs.sr[index];
    Ok(())
}

/// mfsrin: rt = the segment register that rb's top four bits select
pub fn mfsrin(regs: &mut Registers, rt: u8, rb: u8) -> (r: Result<(), Error>)
    requires
        rt < 32 && rb < 32,
    ensures
        r is Ok,
        mfsrin_effect(*old(regs), *final(regs), rt, rb),
{
    let index = (regs.gpr[rb as usize] / 0x1000_0000) as usize;
    regs.gpr[rt as usize] = regs.sr[index];
    Ok(())
}

/// mtsr: segment register sr (low four bits) = rs
pub fn mtsr(regs: &mut Registers, sr: u8, rs: u8) -> (r: Result<(), Error>)
    requires
        rs < 32,
    ensures
        r is Ok,
        mtsr_effect(*old(regs), *final(regs), sr, rs),
{
    let index = (sr % 16) as usize;
    regs.sr[index] = regs.gpr[rs as usize];
    Ok(())
}

/// mtsrin: the segment register that rb's top four bits select = rs
pub fn mtsrin(regs: &mut Registers, rs: u8, rb: u8) -> (r: Result<(), Error>)
    requires
        rs < 32 && rb < 32,
    ensures
        r is Ok,
        mtsrin_effect(*old(regs), *final(regs), rs, rb),
{
    let index = (regs.gpr[rb as usize] / 0x1000_0000) as usize;
    regs.sr[index] = regs.gpr[rs as usize];
    Ok(())
}

/// tlbie: no TLB, nothing to do
pub fn tlbie(_regs: &mut Registers, _rb: u8) -> (r: Result<(), Error>)
    ensures
        r is Ok,
        *final(_regs) == *old(_regs),
{
    Ok(())
}

/// tlbia: no TLB, nothing to do
pub fn tlbia(_regs: &mut Registers) -> (r: Result<(), Error>)
    ensures
        r is Ok,
        *final(_regs) == *old(_regs),
{
    Ok(())
}

/// tlbsync: no TLB, nothing to do
pub fn tlbsync(_regs: &mut Registers) -> (r: Result<(), Error>)
    ensures
        r is Ok,
        *final(_regs) == *old(_regs),
{
    Ok(())
}

/// mftb: rt = time base; the PC stands in for the lower word and the upper
/// word reads as zero
pub fn mftb(regs: &mut Registers, rt: u8, tbr: u16) -> (r: Result<(), Error>)
    requires
        rt < 32,
    ensures
        valid_tbr(tbr) ==> r is Ok && mftb_effect(*old(regs), *final(regs), rt, tbr),
        !valid_tbr(tbr) ==> *final(regs) == *old(regs) && (r matches Err(Error::Cpu(m)) && m@ == invalid_tbr_message(tbr)),
{
    let value = if tbr == 268 || tbr == 0x0CC {
        regs.pc
    } else if tbr == 269 || tbr == 0x0CD {
        0
    } else {
        let mut m = String::from_str("Invalid TBR register: ");
        m.append(decimal(tbr as u64).as_str());
        return Err(Error::Cpu(m));
    };
    regs.gpr[rt as usize] = value;
    Ok(())
}

/// twi: trap when the TO condition holds between ra and simm
pub fn twi(regs: &mut Registers, to: u8, ra: u8, simm: i16) -> (r: Result<(), Error>)
    requires
        ra < 32,
    ensures
        *final(regs) == *old(regs),
        traps(*old(regs), to, ra, simm) ==> (r matches Err(Error::Cpu(m)) && m@ == "Trap condition met"@),
        !traps(*old(regs), to, ra, simm) ==> r is Ok,
{
    let a = regs.gpr[ra as usize];
    let sa = a as i32;
    let b = simm as i32;
    let ub = b as u32;
    let should_trap = (to & 0b10000u8 != 0 && sa < b) || (to & 0b01000u8 != 0 && sa > b) || (to & 0b00100u8 != 0 && sa == b)
        || (to & 0b00010u8 != 0 && a < ub) || (to & 0b00001u8 != 0 && a > ub);
    if should_trap {
        return Err(Error::Cpu(String::from_str("Trap condition met")));
    }
    Ok(())
}

/// eciwx: external control in, treated as a word load from (ra|0) + rb
pub fn eciwx<M: MemoryInterface>(regs: &mut Registers, memory: &M, rt: u8, ra: u8, rb: u8) -> (r: Result<(), Error>)
    requires
        rt < 32 && ra < 32 && rb < 32,
    ensures
        word_loaded(*old(regs), *final(regs), r is Ok, rt, false, ra, ea_indexed(*old(regs), ra, rb)),
        exists|rd: Result<u32, Error>| memory.reads_u32(ea_indexed(*old(regs), ra, rb), rd)
            && #[trigger] word_read(*old(regs), *final(regs), r, rd, rt, false, ra, ea_indexed(*old(regs), ra, rb)),
{
    let base = if ra == 0 { 0 } else { regs.gpr[ra as usize] };
    let ea = base.wrapping_add(regs.gpr[rb as usize]);
    assert(ea == ea_indexed(*old(regs), ra, rb));
    let rd = memory.read_u32(ea);
    let value = match rd {
        Ok(x) => x,
        Err(e) => {
            assert(word_read(*old(regs), *regs, Err(e), rd, rt, false, ra, ea));
            return Err(e);
        },
    };
    regs.gpr[rt as usize] = value;
    assert(load_result(*old(regs), *regs, rt, value, false, ra, ea));
    assert(word_read(*old(regs), *regs, Ok(()), rd, rt, false, ra, ea));
    Ok(())
}

/// ecowx: external control out, treated as a word store of rs to (ra|0) + rb
pub fn ecowx<M: MemoryInterface>(regs: &mut Registers, memory: &M, rs: u8, ra: u8, rb: u8) -> (r: Result<(), Error>)
    requires
        rs < 32 && ra < 32 && rb < 32,
    ensures
        *final(regs) == *old(regs),
        exists|wr: Result<(), Error>| memory.writes_u32(ea_indexed(*old(regs), ra, rb), old(regs).gpr[rs as int], wr)
            && #[trigger] store_write(*old(regs), *final(regs), r, wr, false, ra, ea_indexed(*old(regs), ra, rb)),
{
    let base = if ra == 0 { 0 } else { regs.gpr[ra as usize] };
    let ea = base.wrapping_add(regs.gpr[rb as usize]);
    assert(ea == ea_indexed(*old(regs), ra, rb));
    let wr = memory.write_u32(ea, regs.gpr[rs as usize]);
    match wr {
        Ok(_) => {},
        Err(e) => {
            assert(store_write(*old(regs), *regs, Err(e), wr, false, ra, ea));
            return Err(e);
        },
    }
    assert(store_write(*old(regs), *regs, Ok(()), wr, false, ra, ea));
    Ok(())
}

/// dcbi: no data cache, nothing to do
pub fn dcbi(_regs: &mut Registers, _ra: u8, _rb: u8) -> (r: Result<(), Error>)
    ensures
        r is Ok,
        *final(_regs) == *old(_regs),
{
    Ok(())
}

} // verus!
