//! The emulated address space: RAM, the boot ROM, a writable shadow of the
//! ROM region used while booting, and memory-mapped devices.
//!
//! RAM itself is held by the caller (it is backed by a mapped file so that
//! a debugger can read it) and is handed to each access as a byte slice.
use vstd::prelude::*;
use crate::bytes::{be32, be32_bytes, read_be32, write_be32};
use crate::error::Error;
use crate::rom::Rom;

verus! {

/// The ROM shadow always starts at the traditional Mac ROM base.
pub const ROM_SHADOW_BASE: u32 = 0xFFC0_0000;

/// The smallest ROM shadow: room for the decompressed Toolbox.
pub const MIN_SHADOW_SIZE: usize = 0x80_0000;

/// A memory-mapped device, as the address space sees it.
pub trait MmioDevice {
    /// Read `size` bytes at `offset` within the device.
    fn read(&self, offset: u32, size: u32) -> Result<u32, Error>;

    /// Write `size` bytes of `value` at `offset` within the device.
    fn write(&mut self, offset: u32, size: u32, value: u32) -> Result<(), Error>;
}

/// A device mapped at `[base, base + size)`.
pub struct MmioEntry<D> {
    pub base: u32,
    pub size: u32,
    pub device: D,
}

/// Where an access lands.
#[derive(Debug, Clone, Copy, PartialEq, Eq, Structural)]
pub enum Target {
    /// The ROM shadow, at this offset.
    Shadow(usize),
    /// The ROM image, at this offset.
    Rom(usize),
    /// Device `index`, at this offset within it.
    Device(usize, u32),
    /// RAM, at this offset.
    Ram(usize),
    /// Nothing: reads give zero and writes are dropped.
    Nowhere,
}

/// The first device whose range holds the `width` bytes at `addr`.
pub open spec fn device_at(ranges: Seq<(u32, u32)>, addr: u32, width: int) -> Option<int>
    decreases ranges.len(),
{
    if ranges.len() == 0 {
        None
    } else {
        match device_at(ranges.drop_last(), addr, width) {
            Some(i) => Some(i),
            None => {
                let (base, size) = ranges.last();
                if base <= addr && addr - base + width - 1 < size {
                    Some(ranges.len() - 1)
                } else {
                    None
                }
            },
        }
    }
}

/// No device offset of `addr` is so close to the top of the address space
/// that adding `width - 1` to it overflows.
pub open spec fn device_offsets_fit(ranges: Seq<(u32, u32)>, addr: u32, width: int) -> bool {
    forall|i: int| 0 <= i < ranges.len() && #[trigger] ranges[i].0 <= addr ==> addr - ranges[i].0 + width - 1 <= u32::MAX
}

/// The shadow offset of the `width` bytes at `addr`, when the shadow is
/// enabled and holds them.
pub open spec fn shadow_hit_in(shadow: Option<Seq<u8>>, addr: u32, width: int) -> Option<int> {
    match shadow {
        Some(s) => if addr >= ROM_SHADOW_BASE && addr + width - 1 <= u32::MAX && addr - ROM_SHADOW_BASE + width
            <= s.len() {
            Some(addr - ROM_SHADOW_BASE)
        } else {
            None
        },
        None => None,
    }
}

/// The ROM image offset of `addr`, when a ROM is loaded and covers it.
pub open spec fn rom_hit_in(rom: Option<Rom>, addr: u32) -> Option<int> {
    match rom {
        Some(r) => if addr >= r.base() && addr - r.base() < r.bytes().len() {
            Some(addr - r.base())
        } else {
            None
        },
        None => None,
    }
}

/// Where an access goes once neither the shadow nor the ROM took it: a
/// device, else RAM, else nowhere.
pub open spec fn device_or_ram_in(ranges: Seq<(u32, u32)>, ram_len: int, addr: u32, width: int) -> Target {
    match device_at(ranges, addr, width) {
        Some(i) => Target::Device(i as usize, (addr - ranges[i].0) as u32),
        None => if addr + width <= ram_len {
            Target::Ram(addr as usize)
        } else {
            Target::Nowhere
        },
    }
}

/// Where a byte read at `addr` lands: the shadow, then the ROM, then a
/// device, then RAM.
pub open spec fn read_u8_target_in(shadow: Option<Seq<u8>>, rom: Option<Rom>, ranges: Seq<(u32, u32)>, ram_len: int, addr: u32) -> Target {
    match shadow_hit_in(shadow, addr, 1) {
        Some(o) => Target::Shadow(o as usize),
        None => match rom_hit_in(rom, addr) {
            Some(o) => Target::Rom(o as usize),
            None => device_or_ram_in(ranges, ram_len, addr, 1),
        },
    }
}

/// Where a 32-bit read at `addr` lands: the shadow, then a device, then
/// RAM. The ROM image is not consulted.
pub open spec fn read_u32_target_in(shadow: Option<Seq<u8>>, ranges: Seq<(u32, u32)>, ram_len: int, addr: u32) -> Target {
    match shadow_hit_in(shadow, addr, 4) {
        Some(o) => Target::Shadow(o as usize),
        None => device_or_ram_in(ranges, ram_len, addr, 4),
    }
}

/// Where a write of `width` bytes at `addr` lands: writes to the ROM
/// region go to the shadow or nowhere; then a device; then RAM.
pub open spec fn write_target_in(shadow: Option<Seq<u8>>, ranges: Seq<(u32, u32)>, ram_len: int, addr: u32, width: int) -> Target {
    if addr >= ROM_SHADOW_BASE && addr + width - 1 <= u32::MAX {
        match shadow_hit_in(shadow, addr, width) {
            Some(o) => Target::Shadow(o as usize),
            None => Target::Nowhere,
        }
    } else {
        device_or_ram_in(ranges, ram_len, addr, width)
    }
}

/// The byte a read at `addr` gives, unless a device answers it.
pub open spec fn value_u8_in(shadow: Option<Seq<u8>>, rom: Option<Rom>, ranges: Seq<(u32, u32)>, ram: Seq<u8>, addr: u32) -> Option<u8> {
    match read_u8_target_in(shadow, rom, ranges, ram.len() as int, addr) {
        Target::Shadow(o) => Some(shadow->0[o as int]),
        Target::Rom(o) => Some(rom->0.bytes()[o as int]),
        Target::Ram(o) => Some(ram[o as int]),
        Target::Nowhere => Some(0u8),
        Target::Device(_, _) => None,
    }
}

/// The word a 32-bit read at `addr` gives, unless a device answers it.
pub open spec fn value_u32_in(shadow: Option<Seq<u8>>, ranges: Seq<(u32, u32)>, ram: Seq<u8>, addr: u32) -> Option<u32> {
    match read_u32_target_in(shadow, ranges, ram.len() as int, addr) {
        Target::Shadow(o) => Some(be32(shadow->0, o as int) as u32),
        Target::Ram(o) => Some(be32(ram, o as int) as u32),
        Target::Nowhere => Some(0u32),
        _ => None,
    }
}

/// The shadow and RAM after `bytes` are written at `addr`, unless a device
/// takes the write.
pub open spec fn after_write_in(shadow: Option<Seq<u8>>, ranges: Seq<(u32, u32)>, ram: Seq<u8>, addr: u32, bytes: Seq<u8>) -> Option<(Option<Seq<u8>>, Seq<u8>)> {
    match write_target_in(shadow, ranges, ram.len() as int, addr, bytes.len() as int) {
        Target::Shadow(o) => Some((Some(with_bytes(shadow->0, o as int, bytes)), ram)),
        Target::Ram(o) => Some((shadow, with_bytes(ram, o as int, bytes))),
        Target::Device(_, _) => None,
        _ => Some((shadow, ram)),
    }
}

/// A word written as four big-endian bytes reads back as the same word.
pub proof fn lemma_be32_written(d: Seq<u8>, o: int, v: u32)
    requires
        0 <= o,
        o + 4 <= d.len(),
    ensures
        be32(with_bytes(d, o, be32_bytes(v)), o) == v,
        with_bytes(d, o, be32_bytes(v)).len() == d.len(),
{
    let w = with_bytes(d, o, be32_bytes(v));
    assert(w[o] == be32_bytes(v)[0]);
    assert(w[o + 1] == be32_bytes(v)[1]);
    assert(w[o + 2] == be32_bytes(v)[2]);
    assert(w[o + 3] == be32_bytes(v)[3]);
    crate::bytes::lemma_be32_bytes(v);
}

/// A 32-bit write that lands in the shadow or in RAM is read back by a
/// 32-bit read of the same address.
pub proof fn law_read_u32_after_write_u32(shadow: Option<Seq<u8>>, ranges: Seq<(u32, u32)>, ram: Seq<u8>, addr: u32, v: u32)
    requires
        write_target_in(shadow, ranges, ram.len() as int, addr, 4) matches Target::Shadow(_)
            || write_target_in(shadow, ranges, ram.len() as int, addr, 4) matches Target::Ram(_),
    ensures
        after_write_in(shadow, ranges, ram, addr, be32_bytes(v)) matches Some((sh, rm)) && value_u32_in(sh, ranges, rm, addr)
            == Some(v),
{
    match write_target_in(shadow, ranges, ram.len() as int, addr, 4) {
        Target::Shadow(o) => {
            lemma_be32_written(shadow->0, o as int, v);
        },
        Target::Ram(o) => {
            lemma_be32_written(ram, o as int, v);
        },
        _ => {},
    }
}

/// A 32-bit write that lands in the shadow or in RAM leaves every byte
/// outside the four it writes unchanged.
pub proof fn law_write_u32_keeps_other_bytes(shadow: Option<Seq<u8>>, ranges: Seq<(u32, u32)>, ram: Seq<u8>, addr: u32, v: u32, k: int)
    requires
        write_target_in(shadow, ranges, ram.len() as int, addr, 4) matches Target::Shadow(_)
            || write_target_in(shadow, ranges, ram.len() as int, addr, 4) matches Target::Ram(_),
    ensures
        after_write_in(shadow, ranges, ram, addr, be32_bytes(v)) matches Some((sh, rm)) && (match write_target_in(
            shadow,
            ranges,
            ram.len() as int,
            addr,
            4,
        ) {
            Target::Shadow(o) => rm == ram && sh->0.len() == shadow->0.len() && (0 <= k < shadow->0.len() && !(o <= k < o + 4)
                ==> sh->0[k] == shadow->0[k]),
            Target::Ram(o) => sh == shadow && rm.len() == ram.len() && (0 <= k < ram.len() && !(o <= k < o + 4) ==> rm[k]
                == ram[k]),
            _ => true,
        }),
{
}

/// A byte write that lands in the shadow or in RAM is read back by a byte
/// read of the same address, unless the ROM image covers that address
/// (reads see the image, writes do not reach it).
pub proof fn law_read_u8_after_write_u8(shadow: Option<Seq<u8>>, rom: Option<Rom>, ranges: Seq<(u32, u32)>, ram: Seq<u8>, addr: u32, v: u8)
    requires
        write_target_in(shadow, ranges, ram.len() as int, addr, 1) matches Target::Shadow(_)
            || write_target_in(shadow, ranges, ram.len() as int, addr, 1) matches Target::Ram(_),
        rom_hit_in(rom, addr) is None,
    ensures
        after_write_in(shadow, ranges, ram, addr, seq![v]) matches Some((sh, rm)) && value_u8_in(sh, rom, ranges, rm, addr)
            == Some(v),
{
    match write_target_in(shadow, ranges, ram.len() as int, addr, 1) {
        Target::Shadow(o) => {
            assert(with_bytes(shadow->0, o as int, seq![v])[o as int] == v);
        },
        Target::Ram(o) => {
            assert(with_bytes(ram, o as int, seq![v])[o as int] == v);
        },
        _ => {},
    }
}

/// The memory system: ROM, ROM shadow and devices around caller-held RAM.
pub struct Memory<D> {
    rom: Option<Rom>,
    rom_shadow: Option<Vec<u8>>,
    devices: Vec<MmioEntry<D>>,
}

impl<D: MmioDevice> Memory<D> {
    /// The ROM, if one is loaded.
    pub closed spec fn rom_view(self) -> Option<Rom> {
        self.rom
    }

    /// The ROM shadow's bytes, if it is enabled.
    pub closed spec fn shadow(self) -> Option<Seq<u8>> {
        match self.rom_shadow {
            Some(v) => Some(v@),
            None => None,
        }
    }

    /// The address ranges of the devices, in registration order.
    pub closed spec fn ranges(self) -> Seq<(u32, u32)> {
        self.devices@.map_values(|e: MmioEntry<D>| (e.base, e.size))
    }

    /// Where a byte read at `addr` lands.
    pub open spec fn read_u8_target(self, ram_len: int, addr: u32) -> Target {
        read_u8_target_in(self.shadow(), self.rom_view(), self.ranges(), ram_len, addr)
    }

    /// Where a 32-bit read at `addr` lands.
    pub open spec fn read_u32_target(self, ram_len: int, addr: u32) -> Target {
        read_u32_target_in(self.shadow(), self.ranges(), ram_len, addr)
    }

    /// Where a write of `width` bytes at `addr` lands.
    pub open spec fn write_target(self, ram_len: int, addr: u32, width: int) -> Target {
        write_target_in(self.shadow(), self.ranges(), ram_len, addr, width)
    }

    /// The byte a read at `addr` gives, unless a device answers it.
    pub open spec fn value_u8(self, ram: Seq<u8>, addr: u32) -> Option<u8> {
        value_u8_in(self.shadow(), self.rom_view(), self.ranges(), ram, addr)
    }

    /// The word a 32-bit read at `addr` gives, unless a device answers it.
    pub open spec fn value_u32(self, ram: Seq<u8>, addr: u32) -> Option<u32> {
        value_u32_in(self.shadow(), self.ranges(), ram, addr)
    }

    /// Whether the `width` bytes at `addr` can be measured against every
    /// device without leaving 32 bits (what the 32- and 64-bit accesses
    /// need).
    pub fn offsets_fit(&self, addr: u32, width: u32) -> (r: bool)
        requires
            1 <= width <= 8,
        ensures
            r == device_offsets_fit(self.ranges(), addr, width as int),
    {
        let ghost ranges = self.ranges();
        let mut i: usize = 0;
        while i < self.devices.len()
            invariant
                i <= self.devices@.len(),
                1 <= width <= 8,
                ranges == self.ranges(),
                ranges.len() == self.devices@.len(),
                forall|j: int| 0 <= j < i && #[trigger] ranges[j].0 <= addr ==> addr - ranges[j].0 + width - 1 <= u32::MAX,
            decreases self.devices@.len() - i,
        {
            let base = self.devices[i].base;
            assert(ranges[i as int].0 == base);
            if base <= addr && (addr - base) as u64 + width as u64 - 1 > 0xFFFF_FFFFu64 {
                return false;
            }
            i = i + 1;
        }
        true
    }

    /// Whether the loaded ROM image holds all eight bytes at `addr`.
    pub fn rom_holds_u64(&self, addr: u32) -> (r: bool)
        ensures
            r == (self.rom_u64_hit(addr) is Some),
    {
        match &self.rom {
            Some(rom) => {
                let base = rom.base_address();
                addr >= base && rom.size() >= 8 && ((addr - base) as usize) <= rom.size() - 8
            },
            None => false,
        }
    }

    /// The index of the first device holding the `width` bytes at `addr`.
    fn find_device(&self, addr: u32, width: u32) -> (r: Option<usize>)
        requires
            1 <= width <= 4,
            device_offsets_fit(self.ranges(), addr, width as int),
        ensures
            r matches Some(i) ==> device_at(self.ranges(), addr, width as int) == Some(i as int) && i < self.ranges().len()
                && self.ranges()[i as int].0 <= addr,
            r is None ==> device_at(self.ranges(), addr, width as int) is None,
    {
        let ghost ranges = self.ranges();
        let mut i: usize = 0;
        while i < self.devices.len()
            invariant
                i <= self.devices@.len(),
                1 <= width <= 4,
                ranges == self.ranges(),
                ranges.len() == self.devices@.len(),
                device_offsets_fit(ranges, addr, width as int),
                device_at(ranges.take(i as int), addr, width as int) is None,
            decreases self.devices@.len() - i,
        {
            let base = self.devices[i].base;
            let size = self.devices[i].size;
            proof {
                assert(ranges[i as int] == (base, size));
                assert(ranges[i as int].0 == base);
                assert(ranges.take(i + 1).drop_last() =~= ranges.take(i as int));
                assert(ranges.take(i + 1).last() == ranges[i as int]);
            }
            if base <= addr && addr - base + (width - 1) < size {
                proof {
                    lemma_device_at_prefix(ranges, addr, width as int, i + 1, ranges.len() as int);
                    assert(ranges.take(ranges.len() as int) =~= ranges);
                }
                return Some(i);
            }
            i = i + 1;
        }
        assert(ranges.take(ranges.len() as int) =~= ranges);
        None
    }

    /// Read a byte. What a device answers is the device's own affair.
    pub fn read_u8(&self, ram: &[u8], addr: u32) -> (r: Result<u8, Error>)
        ensures
            self.value_u8(ram@, addr) matches Some(v) ==> r == Ok::<u8, Error>(v),
    {
        if addr >= ROM_SHADOW_BASE {
            match &self.rom_shadow {
                Some(shadow) => {
                    let offset = (addr - ROM_SHADOW_BASE) as usize;
                    if offset < shadow.len() {
                        return Ok(shadow[offset]);
                    }
                },
                None => {},
            }
        }
        match &self.rom {
            Some(rom) => {
                match rom.address_to_offset(addr) {
                    Some(offset) => return Ok(rom.read_u8(offset)),
                    None => {},
                }
            },
            None => {},
        }
        proof {
            assert(device_offsets_fit(self.ranges(), addr, 1));
        }
        match self.find_device(addr, 1) {
            Some(i) => {
                proof {
                    assert(self.ranges()[i as int].0 == self.devices@[i as int].base);
                }
                let offset = addr - self.devices[i].base;
                return match self.devices[i].device.read(offset, 1) {
                    Ok(v) => Ok(#[verifier::truncate] (v as u8)),
                    Err(e) => Err(e),
                };
            },
            None => {},
        }
        if (addr as usize) < ram.len() {
            Ok(ram[addr as usize])
        } else {
            Ok(0)
        }
    }

    /// Read a 32-bit word (big-endian). The ROM image itself is not read:
    /// the shadow holds a copy of it.
    pub fn read_u32(&self, ram: &[u8], addr: u32) -> (r: Result<u32, Error>)
        requires
            device_offsets_fit(self.ranges(), addr, 4),
        ensures
            self.value_u32(ram@, addr) matches Some(v) ==> r == Ok::<u32, Error>(v),
    {
        if addr >= ROM_SHADOW_BASE && addr <= u32::MAX - 3 {
            match &self.rom_shadow {
                Some(shadow) => {
                    let offset = (addr - ROM_SHADOW_BASE) as usize;
                    if offset <= shadow.len() && shadow.len() - offset >= 4 {
                        return Ok(read_be32(shadow.as_slice(), offset));
                    }
                },
                None => {},
            }
        }
        match self.find_device(addr, 4) {
            Some(i) => {
                proof {
                    assert(self.ranges()[i as int].0 == self.devices@[i as int].base);
                }
                let offset = addr - self.devices[i].base;
                return self.devices[i].device.read(offset, 4);
            },
            None => {},
        }
        if (addr as usize) <= ram.len() && ram.len() - (addr as usize) >= 4 {
            Ok(read_be32(ram, addr as usize))
        } else {
            Ok(0)
        }
    }

    /// Write a byte. Writes to the ROM region go to the shadow, or are
    /// dropped when it does not cover them.
    pub fn write_u8(&mut self, ram: &mut [u8], addr: u32, value: u8) -> (r: Result<(), Error>)
        ensures
            final(self).rom_view() == old(self).rom_view(),
            final(self).ranges() == old(self).ranges(),
            final(ram)@.len() == old(ram)@.len(),
            match after_write_in(old(self).shadow(), old(self).ranges(), old(ram)@, addr, seq![value]) {
                Some((sh, rm)) => r is Ok && final(self).shadow() == sh && final(ram)@ == rm,
                None => final(self).shadow() == old(self).shadow() && final(ram)@ == old(ram)@,
            },
    {
        if addr >= ROM_SHADOW_BASE {
            match &mut self.rom_shadow {
                Some(shadow) => {
                    let offset = (addr - ROM_SHADOW_BASE) as usize;
                    if offset < shadow.len() {
                        shadow.set(offset, value);
                        return Ok(());
                    }
                },
                None => {},
            }
            return Ok(());
        }
        proof {
            assert(device_offsets_fit(self.ranges(), addr, 1));
        }
        match self.find_device(addr, 1) {
            Some(i) => {
                proof {
                    assert(self.ranges()[i as int].0 == self.devices@[i as int].base);
                }
                let offset = addr - self.devices[i].base;
                let ghost before = self.devices@;
                let mut entry = self.devices.remove(i);
                let res = entry.device.write(offset, 1, value as u32);
                self.devices.insert(i, entry);
                proof {
                    assert(self.ranges() =~= old(self).ranges());
                }
                return res;
            },
            None => {},
        }
        if (addr as usize) < ram.len() {
            ram[addr as usize] = value;
        }
        Ok(())
    }

    /// Write a 32-bit word (big-endian). Writes to the ROM region go to the
    /// shadow, or are dropped when it does not cover them.
    pub fn write_u32(&mut self, ram: &mut [u8], addr: u32, value: u32) -> (r: Result<(), Error>)
        requires
            device_offsets_fit(old(self).ranges(), addr, 4),
        ensures
            final(self).rom_view() == old(self).rom_view(),
            final(self).ranges() == old(self).ranges(),
            final(ram)@.len() == old(ram)@.len(),
            match after_write_in(old(self).shadow(), old(self).ranges(), old(ram)@, addr, be32_bytes(value)) {
                Some((sh, rm)) => r is Ok && final(self).shadow() == sh && final(ram)@ == rm,
                None => final(self).shadow() == old(self).shadow() && final(ram)@ == old(ram)@,
            },
    {
        if addr >= ROM_SHADOW_BASE && addr <= u32::MAX - 3 {
            match &mut self.rom_shadow {
                Some(shadow) => {
                    let offset = (addr - ROM_SHADOW_BASE) as usize;
                    if offset <= shadow.len() && shadow.len() - offset >= 4 {
                        write_be32(shadow.as_mut_slice(), offset, value);
                        return Ok(());
                    }
                },
                None => {},
            }
            return Ok(());
        }
        match self.find_device(addr, 4) {
            Some(i) => {
                proof {
                    assert(self.ranges()[i as int].0 == self.devices@[i as int].base);
                }
                let offset = addr - self.devices[i].base;
                let mut entry = self.devices.remove(i);
                let res = entry.device.write(offset, 4, value);
                self.devices.insert(i, entry);
                proof {
                    assert(self.ranges() =~= old(self).ranges());
                }
                return res;
            },
            None => {},
        }
        if (addr as usize) <= ram.len() && ram.len() - (addr as usize) >= 4 {
            write_be32(ram, addr as usize, value);
        }
        Ok(())
    }

    /// Read a 16-bit word (big-endian), byte by byte.
    pub fn read_u16(&self, ram: &[u8], addr: u32) -> (r: Result<u16, Error>)
        requires
            addr < u32::MAX,
        ensures
            self.value_u8(ram@, addr) matches Some(x) ==> (self.value_u8(ram@, (addr + 1) as u32) matches Some(y)
                ==> r == Ok::<u16, Error>((x * 0x100 + y) as u16)),
    {
        let b0 = match self.read_u8(ram, addr) {
            Ok(b) => b,
            Err(e) => return Err(e),
        };
        let b1 = match self.read_u8(ram, addr + 1) {
            Ok(b) => b,
            Err(e) => return Err(e),
        };
        Ok((b0 as u16) * 0x100 + (b1 as u16))
    }

    /// The 64-bit word the ROM image holds at `addr`, when it holds all
    /// eight bytes.
    pub open spec fn rom_u64_hit(self, addr: u32) -> Option<int> {
        match self.rom_view() {
            Some(r) => if addr >= r.base() && addr - r.base() + 8 <= r.bytes().len() {
                Some(addr - r.base())
            } else {
                None
            },
            None => None,
        }
    }

    /// Read a 64-bit word (big-endian): from the ROM image when it holds
    /// all eight bytes, else as two 32-bit reads.
    pub fn read_u64(&self, ram: &[u8], addr: u32) -> (r: Result<u64, Error>)
        requires
            self.rom_u64_hit(addr) is None ==> addr <= u32::MAX - 4 && device_offsets_fit(self.ranges(), addr, 4)
                && device_offsets_fit(self.ranges(), (addr + 4) as u32, 4),
        ensures
            self.rom_u64_hit(addr) matches Some(o) ==> r == Ok::<u64, Error>(
                (be32(self.rom_view()->0.bytes(), o) * 0x1_0000_0000 + be32(self.rom_view()->0.bytes(), o + 4)) as u64,
            ),
            self.rom_u64_hit(addr) is None ==> (self.value_u32(ram@, addr) matches Some(h) ==> (self.value_u32(
                ram@,
                (addr + 4) as u32,
            ) matches Some(l) ==> r == Ok::<u64, Error>((h * 0x1_0000_0000 + l) as u64))),
    {
        match &self.rom {
            Some(rom) => {
                let base = rom.base_address();
                if addr >= base {
                    let offset = (addr - base) as usize;
                    if offset <= rom.size() && rom.size() - offset >= 8 {
                        let b0 = rom.read_u32(offset) as u64;
                        let b1 = rom.read_u32(offset + 4) as u64;
                        assert((b0 << 32u64) | b1 == b0 * 0x1_0000_0000 + b1) by (bit_vector)
                            requires
                                b0 <= 0xFFFF_FFFF,
                                b1 <= 0xFFFF_FFFF,
                        ;
                        return Ok((b0 << 32u64) | b1);
                    }
                }
            },
            None => {},
        }
        let high = match self.read_u32(ram, addr) {
            Ok(v) => v as u64,
            Err(e) => return Err(e),
        };
        let low = match self.read_u32(ram, addr + 4) {
            Ok(v) => v as u64,
            Err(e) => return Err(e),
        };
        assert((high << 32u64) | low == high * 0x1_0000_0000 + low) by (bit_vector)
            requires
                high <= 0xFFFF_FFFF,
                low <= 0xFFFF_FFFF,
        ;
        Ok((high << 32u64) | low)
    }

    /// Read a 32-bit word at a physical address (for page-table walks).
    pub fn read_u32_phys(&self, ram: &[u8], paddr: u32) -> (r: Result<u32, Error>)
        requires
            device_offsets_fit(self.ranges(), paddr, 4),
        ensures
            self.value_u32(ram@, paddr) matches Some(v) ==> r == Ok::<u32, Error>(v),
    {
        self.read_u32(ram, paddr)
    }

    /// Read a 64-bit word at a physical address (for page-table walks).
    pub fn read_u64_phys(&self, ram: &[u8], paddr: u32) -> (r: Result<u64, Error>)
        requires
            self.rom_u64_hit(paddr) is None ==> paddr <= u32::MAX - 4 && device_offsets_fit(self.ranges(), paddr, 4)
                && device_offsets_fit(self.ranges(), (paddr + 4) as u32, 4),
        ensures
            self.rom_u64_hit(paddr) matches Some(o) ==> r == Ok::<u64, Error>(
                (be32(self.rom_view()->0.bytes(), o) * 0x1_0000_0000 + be32(self.rom_view()->0.bytes(), o + 4)) as u64,
            ),
            self.rom_u64_hit(paddr) is None ==> (self.value_u32(ram@, paddr) matches Some(h) ==> (self.value_u32(
                ram@,
                (paddr + 4) as u32,
            ) matches Some(l) ==> r == Ok::<u64, Error>((h * 0x1_0000_0000 + l) as u64))),
    {
        self.read_u64(ram, paddr)
    }

    /// Write a 16-bit word (big-endian), byte by byte.
    pub fn write_u16(&mut self, ram: &mut [u8], addr: u32, value: u16) -> (r: Result<(), Error>)
        requires
            addr < u32::MAX,
        ensures
            final(self).rom_view() == old(self).rom_view(),
            final(self).ranges() == old(self).ranges(),
            match after_write_in(old(self).shadow(), old(self).ranges(), old(ram)@, addr, seq![(value / 0x100) as u8]) {
                Some((sh1, rm1)) => match after_write_in(sh1, old(self).ranges(), rm1, (addr + 1) as u32, seq![(value % 0x100) as u8]) {
                    Some((sh2, rm2)) => r is Ok && final(self).shadow() == sh2 && final(ram)@ == rm2,
                    None => true,
                },
                None => true,
            },
    {
        let hi = (value >> 8u16) as u8;
        let lo = (value & 0xFF) as u8;
        assert(hi == (value / 0x100) as u8 && lo == (value % 0x100) as u8) by (bit_vector)
            requires
                hi == (value >> 8u16) as u8,
                lo == (value & 0xFF) as u8,
        ;
        match self.write_u8(ram, addr, hi) {
            Ok(()) => {},
            Err(e) => return Err(e),
        }
        self.write_u8(ram, addr + 1, lo)
    }

    /// Write a 64-bit word (big-endian) as two 32-bit words.
    pub fn write_u64(&mut self, ram: &mut [u8], addr: u32, value: u64) -> (r: Result<(), Error>)
        requires
            addr <= u32::MAX - 4,
            device_offsets_fit(old(self).ranges(), addr, 4),
            device_offsets_fit(old(self).ranges(), (addr + 4) as u32, 4),
        ensures
            final(self).rom_view() == old(self).rom_view(),
            final(self).ranges() == old(self).ranges(),
            match after_write_in(old(self).shadow(), old(self).ranges(), old(ram)@, addr, be32_bytes((value / 0x1_0000_0000) as u32)) {
                Some((sh1, rm1)) => match after_write_in(sh1, old(self).ranges(), rm1, (addr + 4) as u32, be32_bytes((value % 0x1_0000_0000) as u32)) {
                    Some((sh2, rm2)) => r is Ok && final(self).shadow() == sh2 && final(ram)@ == rm2,
                    None => true,
                },
                None => true,
            },
    {
        let high = (value >> 32u64) as u32;
        let low = (value & 0xFFFF_FFFF) as u32;
        assert(high == (value / 0x1_0000_0000) as u32 && low == (value % 0x1_0000_0000) as u32) by (bit_vector)
            requires
                high == (value >> 32u64) as u32,
                low == (value & 0xFFFF_FFFF) as u32,
        ;
        match self.write_u32(ram, addr, high) {
            Ok(()) => {},
            Err(e) => return Err(e),
        }
        self.write_u32(ram, addr + 4, low)
    }

    /// Write data to the ROM shadow at a ROM address; used during boot to
    /// decompress the Toolbox into ROM space.
    pub fn write_to_rom_shadow(&mut self, addr: u32, data: &[u8]) -> (r: Result<(), Error>)
        requires
            old(self).shadow() is Some && addr >= ROM_SHADOW_BASE ==> addr - ROM_SHADOW_BASE + data@.len() <= usize::MAX,
        ensures
            final(self).rom_view() == old(self).rom_view(),
            final(self).ranges() == old(self).ranges(),
            old(self).shadow() is None ==> (r matches Err(Error::Memory(m)) && m@ == "ROM shadow not enabled"@)
                && final(self).shadow() == old(self).shadow(),
            old(self).shadow() is Some && addr < ROM_SHADOW_BASE ==> r == Err::<(), Error>(Error::ShadowBelowBase(addr))
                && final(self).shadow() == old(self).shadow(),
            old(self).shadow() is Some && addr >= ROM_SHADOW_BASE ==> {
                let s = old(self).shadow()->0;
                let o = addr - ROM_SHADOW_BASE;
                if o + data@.len() <= s.len() {
                    r is Ok && final(self).shadow() == Some(with_bytes(s, o, data@))
                } else {
                    r == Err::<(), Error>(Error::ShadowOutOfBounds {
                        offset: o as usize,
                        data_len: data@.len() as usize,
                        shadow_len: s.len() as usize,
                    }) && final(self).shadow() == old(self).shadow()
                }
            },
    {
        match &mut self.rom_shadow {
            Some(shadow) => {
                if addr >= ROM_SHADOW_BASE {
                    let offset = (addr - ROM_SHADOW_BASE) as usize;
                    let end = offset + data.len();
                    if end <= shadow.len() {
                        let ghost before = shadow@;
                        let mut i: usize = 0;
                        while i < data.len()
                            invariant
                                i <= data@.len(),
                                end == offset + data@.len(),
                                end <= shadow@.len(),
                                shadow@.len() == before.len(),
                                forall|j: int| 0 <= j < shadow@.len() ==> #[trigger] shadow@[j] == (if offset <= j < offset + i {
                                    data@[j - offset]
                                } else {
                                    before[j]
                                }),
                            decreases data@.len() - i,
                        {
                            shadow.set(offset + i, data[i]);
                            i = i + 1;
                        }
                        assert(shadow@ =~= with_bytes(before, offset as int, data@));
                        Ok(())
                    } else {
                        Err(Error::ShadowOutOfBounds { offset, data_len: data.len(), shadow_len: shadow.len() })
                    }
                } else {
                    Err(Error::ShadowBelowBase(addr))
                }
            },
            None => Err(Error::Memory("ROM shadow not enabled".to_owned())),
        }
    }

    /// A memory system with no ROM, no shadow and no device.
    pub fn new() -> (r: Self)
        ensures
            r.rom_view() is None,
            r.shadow() is None,
            r.ranges().len() == 0,
    {
        let r = Self { rom: None, rom_shadow: None, devices: Vec::new() };
        assert(r.ranges() =~= Seq::<(u32, u32)>::empty());
        r
    }

    /// Get ROM reference
    pub fn rom(&self) -> (r: Option<&Rom>)
        ensures
            r matches Some(x) ==> self.rom_view() == Some(*x),
            r is None ==> self.rom_view() is None,
    {
        match &self.rom {
            Some(x) => Some(x),
            None => None,
        }
    }

    /// Load ROM into memory, and enable the ROM shadow: a zeroed buffer of
    /// at least 8 MiB covering the ROM region from 0xFFC00000, holding a copy
    /// of the ROM at its place when it fits.
    pub fn load_rom(&mut self, rom: Rom)
        ensures
            final(self).rom_view() == Some(rom),
            final(self).ranges() == old(self).ranges(),
            final(self).shadow() == Some(spec_initial_shadow(rom.bytes(), rom.base())),
    {
        let size = rom.size();
        let shadow_size = if size > MIN_SHADOW_SIZE {
            size
        } else {
            MIN_SHADOW_SIZE
        };
        let mut shadow: Vec<u8> = vec![0u8; shadow_size];
        let base = rom.base_address();
        let rom_offset_in_shadow: usize = if base >= ROM_SHADOW_BASE {
            (base - ROM_SHADOW_BASE) as usize
        } else {
            0
        };
        let ghost zero = shadow@;
        proof {
            assert forall|j: int| 0 <= j < shadow_size implies #[trigger] zero[j] == 0 by {
                assert(cloned(0u8, zero[j]));
            }
        }
        if rom_offset_in_shadow <= shadow_size && size <= shadow_size - rom_offset_in_shadow {
            let data = rom.data();
            let mut i: usize = 0;
            while i < size
                invariant
                    i <= size,
                    size == data@.len(),
                    rom_offset_in_shadow + size <= shadow_size,
                    shadow@.len() == shadow_size,
                    forall|j: int| 0 <= j < shadow_size ==> #[trigger] shadow@[j] == (if rom_offset_in_shadow <= j < rom_offset_in_shadow + i {
                        data@[j - rom_offset_in_shadow]
                    } else {
                        0u8
                    }),
                decreases size - i,
            {
                shadow.set(rom_offset_in_shadow + i, data[i]);
                i = i + 1;
            }
            assert(shadow@ =~= spec_initial_shadow(rom.bytes(), rom.base()));
        } else {
            assert(shadow@ =~= spec_initial_shadow(rom.bytes(), rom.base()));
        }
        self.rom_shadow = Some(shadow);
        self.rom = Some(rom);
    }

    /// Register a memory-mapped I/O device at `[base_address, base_address
    /// + size)`. A device already registered at that base is replaced.
    pub fn register_mmio(&mut self, base_address: u32, size: u32, device: D)
        ensures
            final(self).rom_view() == old(self).rom_view(),
            final(self).shadow() == old(self).shadow(),
            (forall|i: int| 0 <= i < old(self).ranges().len() ==> (#[trigger] old(self).ranges()[i]).0 != base_address)
                ==> final(self).ranges() == old(self).ranges().push((base_address, size)),
            (exists|i: int| 0 <= i < old(self).ranges().len() && (#[trigger] old(self).ranges()[i]).0 == base_address)
                ==> final(self).ranges() == old(self).ranges().update(
                    choose|i: int| 0 <= i < old(self).ranges().len() && old(self).ranges()[i].0 == base_address
                        && forall|j: int| 0 <= j < i ==> old(self).ranges()[j].0 != base_address,
                    (base_address, size),
                ),
    {
        let ghost old_ranges = self.ranges();
        let mut i: usize = 0;
        while i < self.devices.len()
            invariant
                i <= self.devices@.len(),
                self.ranges() == old_ranges,
                self.rom_view() == old(self).rom_view(),
                self.shadow() == old(self).shadow(),
                old_ranges == old(self).ranges(),
                forall|j: int| 0 <= j < i ==> old_ranges[j].0 != base_address,
            decreases self.devices@.len() - i,
        {
            if self.devices[i].base == base_address {
                let ghost before = self.devices@;
                self.devices.set(i, MmioEntry { base: base_address, size, device });
                proof {
                    assert(self.ranges() =~= old_ranges.update(i as int, (base_address, size)));
                    let c = choose|k: int| 0 <= k < old_ranges.len() && old_ranges[k].0 == base_address
                        && forall|j: int| 0 <= j < k ==> old_ranges[j].0 != base_address;
                    assert(0 <= i < old_ranges.len() && old_ranges[i as int].0 == base_address
                        && forall|j: int| 0 <= j < i ==> old_ranges[j].0 != base_address);
                    if c < i {
                        assert(old_ranges[c].0 != base_address);
                    }
                    if c > i {
                        assert(old_ranges[i as int].0 != base_address);
                    }
                }
                return;
            }
            i = i + 1;
        }
        self.devices.push(MmioEntry { base: base_address, size, device });
        assert(self.ranges() =~= old_ranges.push((base_address, size)));
    }
}

/// `d` with `b` written at `i`.
pub open spec fn with_bytes(d: Seq<u8>, i: int, b: Seq<u8>) -> Seq<u8> {
    d.subrange(0, i) + b + d.subrange(i + b.len(), d.len() as int)
}

/// Once a prefix of the devices holds an address, every longer prefix
/// gives the same device.
proof fn lemma_device_at_prefix(ranges: Seq<(u32, u32)>, addr: u32, width: int, k: int, m: int)
    requires
        0 <= k <= m <= ranges.len(),
        device_at(ranges.take(k), addr, width) is Some,
    ensures
        device_at(ranges.take(m), addr, width) == device_at(ranges.take(k), addr, width),
    decreases m - k,
{
    if m > k {
        lemma_device_at_prefix(ranges, addr, width, k, m - 1);
        assert(ranges.take(m).drop_last() =~= ranges.take(m - 1));
    }
}

/// The ROM shadow a ROM starts with: zeros, with the ROM copied at its
/// offset from 0xFFC00000 (0 when it lies below) when it fits.
pub open spec fn spec_initial_shadow(rom: Seq<u8>, base: u32) -> Seq<u8> {
    let size = if rom.len() > MIN_SHADOW_SIZE { rom.len() as int } else { MIN_SHADOW_SIZE as int };
    let off = if base >= ROM_SHADOW_BASE { base - ROM_SHADOW_BASE } else { 0 };
    Seq::new(size as nat, |j: int| if off + rom.len() <= size && off <= j < off + rom.len() { rom[j - off] } else { 0u8 })
}

/// RAM after the boot-time structures are set up: a `blr` stub at
/// 0x1000 and a branch-to-self after it; the client interface stub (`sc`,
/// `blr`) at 0x3000; a function descriptor at 0x2000 pointing at the stub
/// with TOC 0x5100; a pointer to that descriptor at 0x4DB0; and the ROM
/// globals at 0x5000 cleared, with the pointer table's address at 0x50B8.
/// Each structure but the first is set up only when RAM extends past it.
pub open spec fn spec_boot_ram(d: Seq<u8>) -> Seq<u8> {
    let a = with_bytes(with_bytes(d, 0x1000, be32_bytes(0x4E800020)), 0x1004, be32_bytes(0x48000000));
    let b = if 0x3008 < d.len() {
        with_bytes(with_bytes(a, 0x3000, be32_bytes(0x44000002)), 0x3004, be32_bytes(0x4E800020))
    } else {
        a
    };
    let c = if 0x200C < d.len() {
        with_bytes(with_bytes(with_bytes(b, 0x2000, be32_bytes(0x1000)), 0x2004, be32_bytes(0x5100)), 0x2008, be32_bytes(0))
    } else {
        b
    };
    let e = if 0x4DB4 < d.len() {
        with_bytes(c, 0x4DB0, be32_bytes(0x2000))
    } else {
        c
    };
    if 0x5200 < d.len() {
        with_bytes(with_bytes(e, 0x5000, Seq::new(0x200, |j: int| 0u8)), 0x50B8, be32_bytes(0x4DB0))
    } else {
        e
    }
}

/// Write `v` big-endian at `i`, as `with_bytes` says.
fn put_be32(ram: &mut [u8], i: usize, v: u32)
    requires
        i + 4 <= old(ram)@.len(),
    ensures
        final(ram)@ == with_bytes(old(ram)@, i as int, be32_bytes(v)),
{
    write_be32(ram, i, v);
}

/// Initialize boot-time RAM structures: exception stubs, the client
/// interface stub, a function descriptor and its pointer table, and the
/// ROM globals.
pub fn init_boot_ram(ram: &mut [u8])
    requires
        old(ram)@.len() >= 0x1008,
    ensures
        final(ram)@ == spec_boot_ram(old(ram)@),
{
    let stub_addr: usize = 0x1000;
    put_be32(ram, stub_addr, 0x4E800020);
    put_be32(ram, stub_addr + 4, 0x48000000);
    let of_client_addr: usize = 0x3000;
    if of_client_addr + 8 < ram.len() {
        put_be32(ram, of_client_addr, 0x44000002);
        put_be32(ram, of_client_addr + 4, 0x4E800020);
    }
    let func_descriptor: usize = 0x2000;
    if func_descriptor + 12 < ram.len() {
        put_be32(ram, func_descriptor, 0x1000);
        put_be32(ram, func_descriptor + 4, 0x5100);
        put_be32(ram, func_descriptor + 8, 0);
    }
    let func_ptr_table: usize = 0x4DB0;
    if func_ptr_table + 4 < ram.len() {
        put_be32(ram, func_ptr_table, 0x2000);
    }
    let globals_base: usize = 0x5000;
    if globals_base + 0x200 < ram.len() {
        let ghost before = ram@;
        let mut i: usize = 0;
        while i < 0x200
            invariant
                i <= 0x200,
                globals_base == 0x5000,
                ram.len() == ram@.len(),
                ram@.len() == before.len(),
                before.len() > 0x5200,
                forall|j: int| 0 <= j < ram@.len() ==> #[trigger] ram@[j] == (if 0x5000 <= j < 0x5000 + i {
                    0u8
                } else {
                    before[j]
                }),
            decreases 0x200 - i,
        {
            ram[globals_base + i] = 0;
            i = i + 1;
        }
        assert(ram@ =~= with_bytes(before, 0x5000, Seq::new(0x200, |j: int| 0u8)));
        put_be32(ram, globals_base + 0xB8, 0x4DB0);
    }
}

/// RAM after stack frames for `k` steps of 16 bytes are set up around
/// `addr`: at each distance below and above, when the frame lies in RAM,
/// a zero back-chain word and the return address at +8.
pub open spec fn spec_stack_frames(d: Seq<u8>, addr: int, ret: u32, k: nat) -> Seq<u8>
    decreases k,
{
    if k == 0 {
        d
    } else {
        let prev = spec_stack_frames(d, addr, ret, (k - 1) as nat);
        let off = (k - 1) * 16;
        let below = if addr >= off && addr - off + 12 < d.len() {
            with_bytes(with_bytes(prev, addr - off, be32_bytes(0)), addr - off + 8, be32_bytes(ret))
        } else {
            prev
        };
        if addr + off + 12 < d.len() {
            with_bytes(with_bytes(below, addr + off, be32_bytes(0)), addr + off + 8, be32_bytes(ret))
        } else {
            below
        }
    }
}

/// Initialize stack frames in both directions around `stack_addr` (4 KiB
/// each way), each returning to `return_addr`.
pub fn init_stack_frame(ram: &mut [u8], stack_addr: u32, return_addr: u32)
    ensures
        final(ram)@ == spec_stack_frames(old(ram)@, stack_addr as int, return_addr, 256),
{
    let addr = stack_addr as usize;
    let ghost d = ram@;
    let mut k: usize = 0;
    while k < 256
        invariant
            k <= 256,
            d.len() == ram@.len(),
            addr == stack_addr,
            ram@ == spec_stack_frames(d, addr as int, return_addr, k as nat),
        decreases 256 - k,
    {
        let offset = k * 16;
        if addr >= offset && ram.len() > 12 && addr - offset < ram.len() - 12 {
            let frame_addr = addr - offset;
            put_be32(ram, frame_addr, 0);
            put_be32(ram, frame_addr + 8, return_addr);
        }
        if addr <= ram.len() && ram.len() - addr > offset + 12 {
            let frame_addr = addr + offset;
            put_be32(ram, frame_addr, 0);
            put_be32(ram, frame_addr + 8, return_addr);
        }
        k = k + 1;
    }
}

} // verus!
