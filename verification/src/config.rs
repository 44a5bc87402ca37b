//! Emulator configuration. Reading it from a file happens outside.
use vstd::prelude::*;

verus! {

/// Emulator configuration
#[derive(Debug, Clone)]
pub struct EmulatorConfig {
    pub cpu: CpuConfig,
    pub memory: MemoryConfig,
    pub display: DisplayConfig,
}

impl Default for EmulatorConfig {
    fn default() -> (r: Self)
        ensures
            r.cpu.model == CpuModel::G4 && r.cpu.clock_speed == 500 && !r.cpu.enable_jit,
            r.memory.ram_size_mb == 256 && r.memory.rom_path is None,
            r.display.width == 640 && r.display.height == 480 && r.display.color_depth == 32,
    {
        Self { cpu: CpuConfig::default(), memory: MemoryConfig::default(), display: DisplayConfig::default() }
    }
}

/// CPU configuration
#[derive(Debug, Clone, Copy)]
pub struct CpuConfig {
    /// CPU model (G3/G4/G5)
    pub model: CpuModel,
    /// Clock speed in MHz
    pub clock_speed: u32,
    /// Enable JIT compilation
    pub enable_jit: bool,
}

impl Default for CpuConfig {
    fn default() -> (r: Self)
        ensures
            r.model == CpuModel::G4,
            r.clock_speed == 500,
            !r.enable_jit,
    {
        Self { model: CpuModel::G4, clock_speed: 500, enable_jit: false }
    }
}

/// CPU model
#[derive(Debug, Clone, Copy, PartialEq, Eq, Structural)]
pub enum CpuModel {
    G3,
    G4,
    G5,
}

/// Memory configuration
#[derive(Debug, Clone)]
pub struct MemoryConfig {
    /// RAM size in MB
    pub ram_size_mb: usize,
    /// ROM file path
    pub rom_path: Option<String>,
}

impl Default for MemoryConfig {
    fn default() -> (r: Self)
        ensures
            r.ram_size_mb == 256,
            r.rom_path is None,
    {
        Self { ram_size_mb: 256, rom_path: None }
    }
}

/// Display configuration
#[derive(Debug, Clone, Copy)]
pub struct DisplayConfig {
    /// Display width
    pub width: u32,
    /// Display height
    pub height: u32,
    /// Color depth (8, 16, or 32 bits)
    pub color_depth: u8,
}

impl Default for DisplayConfig {
    fn default() -> (r: Self)
        ensures
            r.width == 640,
            r.height == 480,
            r.color_depth == 32,
    {
        Self { width: 640, height: 480, color_depth: 32 }
    }
}

} // verus!
