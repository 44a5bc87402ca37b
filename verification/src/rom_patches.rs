//! Patches applied to NewWorld ROM images before they run.
use vstd::prelude::*;
use crate::bytes::{be32_bytes, write_be32, matches_at, bytes_equal_at};
use crate::error::Error;

verus! {

/// Where the ROM's boot structure lies.
pub const BOOT_STRUCT_OFFSET: usize = 0x30d000;

/// Where the physical RAM base is stored, within the boot structure.
pub const RAM_BASE_OFFSET: usize = 0x30d360;

/// Where the segment-register/BAT/SDR initialisation code starts.
pub const SR_INIT_OFFSET: usize = 0x310000;

/// The PowerPC no-op instruction (`ori r0,r0,0`).
pub const POWERPC_NOP: u32 = 0x60000000;

/// `li r0,0`, written after the no-op.
pub const LI_R0_ZERO: u32 = 0x38000000;

/// `d` with the big-endian bytes of `v` written at `i`.
pub open spec fn with_be32(d: Seq<u8>, i: int, v: u32) -> Seq<u8> {
    d.subrange(0, i) + be32_bytes(v) + d.subrange(i + 4, d.len() as int)
}

/// The image after the NewWorld patches: too small an image is left
/// alone; otherwise the RAM base is recorded in the boot structure, and
/// the MMU initialisation is skipped when the image holds it.
pub open spec fn spec_patched(d: Seq<u8>, ram_base: u32) -> Seq<u8> {
    if d.len() < 0x30d400 {
        d
    } else {
        let a = with_be32(d, RAM_BASE_OFFSET as int, ram_base);
        if d.len() > SR_INIT_OFFSET + 8 {
            with_be32(with_be32(a, SR_INIT_OFFSET as int, POWERPC_NOP), SR_INIT_OFFSET + 4, LI_R0_ZERO)
        } else {
            a
        }
    }
}

/// Apply necessary patches to NewWorld ROM
pub fn patch_newworld_rom(rom_data: &mut [u8], ram_base: u32, ram_size: u32) -> (r: Result<(), Error>)
    ensures
        r is Ok,
        final(rom_data)@ == spec_patched(old(rom_data)@, ram_base),
{
    if rom_data.len() < 0x30d400 {
        return Ok(());
    }
    write_be32(rom_data, RAM_BASE_OFFSET, ram_base);
    if rom_data.len() > SR_INIT_OFFSET + 8 {
        write_be32(rom_data, SR_INIT_OFFSET, POWERPC_NOP);
        write_be32(rom_data, SR_INIT_OFFSET + 4, LI_R0_ZERO);
    }
    Ok(())
}

/// The first position in `[start, min(end, len) - pattern.len()]` where
/// `pattern` occurs.
pub open spec fn spec_find_rom_pattern(d: Seq<u8>, start: int, end: int, pat: Seq<u8>) -> Option<int>
    decreases end - start,
{
    let e = if end < d.len() { end } else { d.len() as int };
    if start >= e || pat.len() == 0 || start > e - pat.len() {
        None
    } else if matches_at(d, pat, start) {
        Some(start)
    } else {
        spec_find_rom_pattern(d, start + 1, end, pat)
    }
}

/// Search for a byte pattern in ROM: the first position from `start` at
/// which it lies wholly below `min(end, len)`, or `None` (also for an
/// empty pattern, or one longer than the range).
pub fn find_rom_pattern(rom_data: &[u8], start: usize, end: usize, pattern: &[u8]) -> (r: Option<usize>)
    ensures
        r matches Some(i) ==> spec_find_rom_pattern(rom_data@, start as int, end as int, pattern@) == Some(i as int),
        r is None ==> spec_find_rom_pattern(rom_data@, start as int, end as int, pattern@) is None,
{
    let limit = if end < rom_data.len() {
        end
    } else {
        rom_data.len()
    };
    if start >= limit || pattern.len() == 0 || pattern.len() > limit {
        return None;
    }
    let last = limit - pattern.len();
    if start > last {
        return None;
    }
    let mut i: usize = start;
    loop
        invariant
            start <= i <= last,
            last + pattern@.len() == limit,
            limit == (if end < rom_data@.len() { end as int } else { rom_data@.len() as int }),
            pattern@.len() > 0,
            spec_find_rom_pattern(rom_data@, i as int, end as int, pattern@) == spec_find_rom_pattern(
                rom_data@,
                start as int,
                end as int,
                pattern@,
            ),
        decreases last - i,
    {
        if bytes_equal_at(rom_data, pattern, i) {
            return Some(i);
        }
        if i == last {
            assert(spec_find_rom_pattern(rom_data@, i + 1, end as int, pattern@) is None);
            return None;
        }
        i = i + 1;
    }
}

} // verus!
