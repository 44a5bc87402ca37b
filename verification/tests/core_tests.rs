use newton_emu::elf::{ElfClass, ElfData, ElfError, ElfFile, ElfMachine};
use newton_emu::emulator::{setup_rom_nodes, toolbox_image_property};
use newton_emu::error::Error;
use newton_emu::jit::{JitCompiler, HOT_THRESHOLD};
use newton_emu::lzss::{decode_rom_lzss, decompress_lzss, decompress_prcl};
use newton_emu::memory::{Memory, MmioDevice};
use newton_emu::mixed_mode::MixedModeManager;
use newton_emu::rom_patches::find_rom_pattern;
use newton_emu::openfirmware::device_tree::DeviceTree;

struct NullDevice;

impl MmioDevice for NullDevice {
    fn read(&self, _offset: u32, _size: u32) -> Result<u32, Error> {
        Ok(0)
    }
    fn write(&mut self, _offset: u32, _size: u32, _value: u32) -> Result<(), Error> {
        Err(Error::Memory("read-only device".to_string()))
    }
}

#[test]
fn test_is_68k_address() {
    assert!(MixedModeManager::is_68k_address(0x40800000));
    assert!(MixedModeManager::is_68k_address(0x45000000));
    assert!(MixedModeManager::is_68k_address(0x4FFFFFFF));
    assert!(MixedModeManager::is_68k_address(0xFFC00000));
    assert!(MixedModeManager::is_68k_address(0xFFFFFFFF));
    assert!(!MixedModeManager::is_68k_address(0x00000000));
    assert!(!MixedModeManager::is_68k_address(0x00400000));
    assert!(!MixedModeManager::is_68k_address(0x10000000));
}

#[test]
fn test_elf_magic() {
    let mut data = vec![0u8; 52];
    data[0..4].copy_from_slice(&[0x7F, b'E', b'L', b'F']);
    data[4] = 1;
    data[5] = 2;
    data[18] = 0;
    data[19] = 20;
    let elf = ElfFile::parse(data).unwrap();
    assert_eq!(elf.header.class, ElfClass::Elf32);
    assert_eq!(elf.header.data, ElfData::BigEndian);
    assert_eq!(elf.header.machine, ElfMachine::PowerPC);
}

#[test]
fn test_lzss_literal() {
    let compressed = vec![0xFF, b'H', b'e', b'l', b'l', b'o', b' ', b'W', b'o'];
    let result = decompress_lzss(&compressed).unwrap();
    assert_eq!(&result[..8], b"Hello Wo");
}

#[test]
fn test_prcl_magic() {
    let mut data = vec![0u8; 64];
    data[0..4].copy_from_slice(b"prcl");
    data[0x14] = 0;
    data[0x15] = 0;
    data[0x16] = 0;
    data[0x17] = 16;
    let result = decompress_prcl(&data);
    assert!(result.is_ok());
}

#[test]
fn elf_errors_name_each_refusal() {
    assert_eq!(ElfFile::parse(vec![0u8; 10]).unwrap_err(), ElfError::TooSmall);
    assert_eq!(ElfFile::parse(vec![0u8; 52]).unwrap_err(), ElfError::NotElf);
    let mut data = vec![0u8; 52];
    data[0..4].copy_from_slice(&[0x7F, b'E', b'L', b'F']);
    data[4] = 3;
    assert_eq!(ElfFile::parse(data.clone()).unwrap_err(), ElfError::InvalidClass);
    data[4] = 2;
    data[5] = 2;
    assert_eq!(ElfFile::parse(data.clone()).unwrap_err(), ElfError::Not32Bit);
    data[4] = 1;
    data[5] = 1;
    assert_eq!(ElfFile::parse(data.clone()).unwrap_err(), ElfError::NotBigEndian);
    data[5] = 2;
    data[19] = 21;
    assert_eq!(ElfFile::parse(data.clone()).unwrap_err(), ElfError::NotPowerPC);
    data[19] = 20;
    let elf = ElfFile::parse(data).unwrap();
    assert_eq!(elf.load_to_memory().unwrap_err(), ElfError::NoLoadableSegments);
}

#[test]
fn elf_segment_is_laid_out_at_its_address() {
    let mut data = vec![0u8; 52 + 32 + 4];
    data[0..4].copy_from_slice(&[0x7F, b'E', b'L', b'F']);
    data[4] = 1;
    data[5] = 2;
    data[19] = 20;
    data[24..28].copy_from_slice(&0x0010_0004u32.to_be_bytes());
    data[28..32].copy_from_slice(&52u32.to_be_bytes());
    data[42..44].copy_from_slice(&32u16.to_be_bytes());
    data[44..46].copy_from_slice(&1u16.to_be_bytes());
    let ph = 52;
    data[ph..ph + 4].copy_from_slice(&1u32.to_be_bytes());
    data[ph + 4..ph + 8].copy_from_slice(&84u32.to_be_bytes());
    data[ph + 8..ph + 12].copy_from_slice(&0x0010_0000u32.to_be_bytes());
    data[ph + 16..ph + 20].copy_from_slice(&4u32.to_be_bytes());
    data[ph + 20..ph + 24].copy_from_slice(&8u32.to_be_bytes());
    data[84..88].copy_from_slice(&[1, 2, 3, 4]);
    let elf = ElfFile::parse(data).unwrap();
    assert_eq!(elf.entry_point(), 0x0010_0004);
    let (image, base, entry) = elf.load_to_memory().unwrap();
    assert_eq!(image, vec![1, 2, 3, 4, 0, 0, 0, 0]);
    assert_eq!(base, 0x0010_0000);
    assert_eq!(entry, 0x0010_0004);
}

#[test]
fn lzss_back_reference_copies_from_ring() {
    // Two literals, then a back-reference of length 3 to the first ring
    // slot written (0xFEE); the copy reads successive slots, the last one
    // being the byte the copy itself just wrote.
    let compressed = vec![0b0000_0011, b'a', b'b', 0xF0, 0xEE];
    let out = decompress_lzss(&compressed).unwrap();
    assert_eq!(out, b"ababa".to_vec());
}

#[test]
fn prcl_errors() {
    assert!(decompress_prcl(&[0u8; 10]).is_err());
    assert!(decompress_prcl(&[0u8; 64]).is_err());
    let mut data = vec![0u8; 40];
    data[0..4].copy_from_slice(b"prcl");
    data[0x17] = 16;
    assert!(decompress_prcl(&data).is_err());
}

#[test]
fn memory_word_reads_back_what_was_written() {
    let mut mem: Memory<NullDevice> = Memory::new();
    let mut ram = vec![0u8; 0x2000];
    mem.write_u32(&mut ram, 0x100, 0xDEAD_BEEF).unwrap();
    assert_eq!(mem.read_u32(&ram, 0x100).unwrap(), 0xDEAD_BEEF);
    assert_eq!(ram[0x100..0x104], [0xDE, 0xAD, 0xBE, 0xEF]);
    assert_eq!(mem.read_u8(&ram, 0x103).unwrap(), 0xEF);
    mem.write_u8(&mut ram, 0x104, 7).unwrap();
    assert_eq!(mem.read_u32(&ram, 0x100).unwrap(), 0xDEAD_BEEF);
}

#[test]
fn memory_device_refusal_is_reported() {
    let mut mem: Memory<NullDevice> = Memory::new();
    let mut ram = vec![0u8; 0x2000];
    mem.register_mmio(0x1000, 0x100, NullDevice);
    assert!(mem.write_u8(&mut ram, 0x1010, 1).is_err());
    assert_eq!(ram[0x1010], 0);
}

#[test]
fn toolbox_image_comes_from_boot_constants() {
    let script = "hex\nh# 12345 constant lzss-offset\nh# 678 constant lzss-size\n";
    let v = toolbox_image_property(script, 0xFFF0_0000);
    assert_eq!(v, vec![0xFF, 0xF1, 0x23, 0x45, 0x00, 0x00, 0x06, 0x78]);
}

#[test]
fn toolbox_image_defaults_and_fallbacks() {
    let v = toolbox_image_property("nothing here", 0x1000);
    assert_eq!(v, vec![0x00, 0x01, 0x66, 0x90, 0x00, 0x20, 0x88, 0x80]);
    let script = "h#  ABC  constant parcels-offset\r\nh# 10 constant parcels-size";
    let v = toolbox_image_property(script, 0xFFFF_FFFF);
    assert_eq!(v, vec![0x00, 0x00, 0x0A, 0xBB, 0x00, 0x00, 0x00, 0x10]);
}

#[test]
fn rom_nodes_are_added_once() {
    let mut dt = DeviceTree::new();
    setup_rom_nodes(&mut dt, 0x0800_0000, 0xFFC0_0000, Some("h# 10 constant lzss-offset"));
    assert_eq!(dt.get_property("/", "memory").unwrap(), &[0, 0, 0, 0, 8, 0, 0, 0]);
    assert_eq!(dt.get_property("/rom", "device_type").unwrap(), b"rom");
    assert_eq!(dt.get_property("/rom/macos", "name").unwrap(), b"macos");
    assert_eq!(
        dt.get_property("/rom/macos", "AAPL,toolbox-image,lzss").unwrap(),
        &[0xFF, 0xC0, 0x00, 0x10, 0x00, 0x20, 0x88, 0x80]
    );
    dt.set_property("/rom/macos", "name", b"kept".to_vec());
    setup_rom_nodes(&mut dt, 0x0800_0000, 0xFFC0_0000, None);
    assert_eq!(dt.get_property("/rom/macos", "name").unwrap(), b"kept");
}

#[test]
fn back_references_copy_successive_ring_slots() {
    let rom = decode_rom_lzss(&[0x07, b'a', b'b', b'c', 0xEE, 0xF0]);
    assert_eq!(rom, b"abcabc".to_vec());
    let raw = decompress_lzss(&[0x07, b'a', b'b', b'c', 0xF0, 0xEE]).unwrap();
    assert_eq!(raw, b"abcabc".to_vec());
}

#[test]
fn patterns_longer_than_the_range_are_not_found() {
    assert_eq!(find_rom_pattern(&[1, 2], 0, 10, &[1, 2, 3]), None);
    assert_eq!(find_rom_pattern(&[1, 2, 3, 1, 2, 3], 1, 6, &[1, 2, 3]), Some(3));
    assert_eq!(find_rom_pattern(&[1, 2, 3], 0, 3, &[]), None);
}

#[test]
fn elf_errors_read_as_messages() {
    assert_eq!(ElfError::NotElf.message(), "Not an ELF file");
    assert_eq!(ElfError::UnknownType(7).message(), "Unknown ELF type: 7");
    assert_eq!(ElfError::UnsupportedMachine(62).to_error(), Error::Other("Unsupported architecture: 62".to_string()));
}

#[test]
fn block_becomes_hot_at_the_threshold() {
    let mut jit = JitCompiler::new();
    for _ in 1..HOT_THRESHOLD {
        assert!(!jit.should_compile(0x1000));
    }
    assert!(!jit.should_compile(0x2000));
    assert!(jit.should_compile(0x1000));
    assert!(jit.should_compile(0x1000));
    assert!(!jit.is_compiled(0x1000));
    jit.clear_cache();
    assert!(!jit.should_compile(0x1000));
    let stats = jit.stats();
    assert_eq!(stats.compiled_blocks, 0);
    assert_eq!(stats.total_instructions, 0);
    assert_eq!(stats.cache_size_bytes, 0);
}
