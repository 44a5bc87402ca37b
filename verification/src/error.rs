//! The error type shared by the library.
use vstd::prelude::*;

verus! {

/// An emulator error, by the subsystem that raised it.
#[derive(Debug, Clone, PartialEq, Eq)]
pub enum Error {
    /// A memory access failed.
    Memory(String),
    /// The CPU could not carry out a request.
    Cpu(String),
    /// Any other failure, with its message.
    Other(String),
    /// A read of ROM bytes past the end of the image.
    RomRangeOutOfBounds { offset: usize, size: usize, rom_size: usize },
    /// A write to the ROM shadow below its base address.
    ShadowBelowBase(u32),
    /// A write to the ROM shadow past its end.
    ShadowOutOfBounds { offset: usize, data_len: usize, shadow_len: usize },
}

} // verus!
