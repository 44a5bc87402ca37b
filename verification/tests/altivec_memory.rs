use newton_emu::altivec::memory::{lvebx, lvehx, lvewx, lvx, stvebx, stvehx, stvewx, stvx};
use newton_emu::altivec::types::Vector128;
use newton_emu::cpu::MemoryInterface;
use newton_emu::error::Error;
use std::cell::RefCell;
use std::collections::HashMap;

struct TestMemory {
    data: RefCell<HashMap<u32, u8>>,
}

impl TestMemory {
    fn new() -> Self {
        Self { data: RefCell::new(HashMap::new()) }
    }
}

impl MemoryInterface for TestMemory {
    fn read_u8(&self, addr: u32) -> Result<u8, Error> {
        Ok(*self.data.borrow().get(&addr).unwrap_or(&0))
    }
    fn read_u16(&self, addr: u32) -> Result<u16, Error> {
        let hi = self.read_u8(addr)?;
        let lo = self.read_u8(addr + 1)?;
        Ok((hi as u16) << 8 | lo as u16)
    }
    fn read_u32(&self, addr: u32) -> Result<u32, Error> {
        let b0 = self.read_u8(addr)?;
        let b1 = self.read_u8(addr + 1)?;
        let b2 = self.read_u8(addr + 2)?;
        let b3 = self.read_u8(addr + 3)?;
        Ok((b0 as u32) << 24 | (b1 as u32) << 16 | (b2 as u32) << 8 | b3 as u32)
    }
    fn read_u64(&self, addr: u32) -> Result<u64, Error> {
        let hi = self.read_u32(addr)?;
        let lo = self.read_u32(addr + 4)?;
        Ok((hi as u64) << 32 | lo as u64)
    }
    fn write_u8(&self, addr: u32, value: u8) -> Result<(), Error> {
        self.data.borrow_mut().insert(addr, value);
        Ok(())
    }
    fn write_u16(&self, addr: u32, value: u16) -> Result<(), Error> {
        self.write_u8(addr, (value >> 8) as u8)?;
        self.write_u8(addr + 1, value as u8)?;
        Ok(())
    }
    fn write_u32(&self, addr: u32, value: u32) -> Result<(), Error> {
        self.write_u8(addr, (value >> 24) as u8)?;
        self.write_u8(addr + 1, (value >> 16) as u8)?;
        self.write_u8(addr + 2, (value >> 8) as u8)?;
        self.write_u8(addr + 3, value as u8)?;
        Ok(())
    }
    fn write_u64(&self, addr: u32, value: u64) -> Result<(), Error> {
        self.write_u32(addr, (value >> 32) as u32)?;
        self.write_u32(addr + 4, value as u32)?;
        Ok(())
    }
    fn read_u32_phys(&self, paddr: u32) -> Result<u32, Error> {
        self.read_u32(paddr)
    }
    fn read_u64_phys(&self, paddr: u32) -> Result<u64, Error> {
        self.read_u64(paddr)
    }
}

#[test]
fn test_lvx_stvx() {
    let memory = TestMemory::new();
    let vector = Vector128::from_words([0x11223344, 0x55667788, 0x99AABBCC, 0xDDEEFF00]);
    stvx(&memory, vector, 0x1000, 0x00).unwrap();
    let loaded = lvx(&memory, 0x1000, 0x00).unwrap();
    assert_eq!(loaded.as_words(), vector.as_words());
    let vector2 = Vector128::from_words([0xAAAAAAAA, 0xBBBBBBBB, 0xCCCCCCCC, 0xDDDDDDDD]);
    stvx(&memory, vector2, 0x1004, 0x00).unwrap();
    let loaded2 = lvx(&memory, 0x1000, 0x00).unwrap();
    assert_eq!(loaded2.as_words(), vector2.as_words());
}

#[test]
fn test_lvebx_stvebx() {
    let memory = TestMemory::new();
    let vector = Vector128::from_bytes([0, 1, 2, 3, 4, 5, 6, 7, 8, 9, 10, 11, 12, 13, 14, 15]);
    stvebx(&memory, vector, 0x1000, 0x05).unwrap();
    let loaded = lvebx(&memory, 0x1000, 0x05).unwrap();
    let bytes = loaded.as_bytes();
    assert_eq!(bytes[5], 5);
    assert_eq!(bytes[0], 0);
    assert_eq!(bytes[15], 0);
}

#[test]
fn halfword_and_word_elements_round_trip() {
    let memory = TestMemory::new();
    let vector = Vector128::from_halfwords([10, 11, 12, 13, 14, 15, 16, 17]);
    stvehx(&memory, vector, 0x2000, 0x07).unwrap();
    assert_eq!(memory.read_u16(0x2006).unwrap(), 13);
    let loaded = lvehx(&memory, 0x2000, 0x07).unwrap();
    assert_eq!(loaded.as_halfwords(), [0, 0, 0, 13, 0, 0, 0, 0]);

    let words = Vector128::from_words([1, 2, 3, 4]);
    stvewx(&memory, words, 0x3000, 0x0B).unwrap();
    assert_eq!(memory.read_u32(0x3008).unwrap(), 3);
    let loaded = lvewx(&memory, 0x3000, 0x0B).unwrap();
    assert_eq!(loaded.as_words(), [0, 0, 3, 0]);
}
