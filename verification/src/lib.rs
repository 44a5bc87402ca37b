//! A verified core of a PowerPC Macintosh emulator.
pub mod altivec;
pub mod bytes;
pub mod config;
pub mod cpu;
pub mod cpu_thread;
pub mod decoder;
pub mod elf;
pub mod emulator;
pub mod error;
pub mod exceptions;
pub mod exec_result;
pub mod jit;
pub mod lzss;
pub mod memory;
pub mod mixed_mode;
pub mod debugger;
pub mod debugger_protocol;
pub mod debugger_ipc;
pub mod text;
pub mod openfirmware;
pub mod rom;
pub mod rom_patches;
pub mod registers;
pub mod interpreter;
