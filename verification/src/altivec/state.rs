//! The AltiVec status registers kept beside the vector registers.
use vstd::prelude::*;

verus! {

/// Vector Status and Control Register (VSCR).
///
/// Bit 16 (`NJ`) selects non-Java floating-point mode; bit 0 (`SAT`) records
/// that a saturating instruction saturated.
#[derive(Debug, Clone, Copy, PartialEq, Eq)]
pub struct Vscr {
    /// The raw register bits.
    pub bits: u32,
}

/// Non-Java floating-point mode: denormalized values are forced to zero.
pub const VSCR_NJ: u32 = 0x0001_0000;

/// Saturation flag.
pub const VSCR_SAT: u32 = 0x0000_0001;

impl Vscr {
    /// The register with no flag set.
    pub fn empty() -> (r: Self)
        ensures
            r.bits == 0,
    {
        Vscr { bits: 0 }
    }

    /// The raw register bits.
    pub fn bits(&self) -> (r: u32)
        ensures
            r == self.bits,
    {
        self.bits
    }

    /// Whether every flag of `flags` is set.
    pub fn contains(&self, flags: u32) -> (r: bool)
        ensures
            r == (self.bits & flags == flags),
    {
        self.bits & flags == flags
    }

    /// Set the flags of `flags`.
    pub fn insert(&mut self, flags: u32)
        ensures
            final(self).bits == old(self).bits | flags,
    {
        self.bits = self.bits | flags;
    }
}

/// AltiVec state kept apart from the main CPU registers: the VSCR and the
/// VRSAVE register (bit `n` marks vector register `n` as in use).
#[derive(Debug, Clone)]
pub struct AltivecState {
    /// Vector Status and Control Register
    pub vscr: Vscr,
    /// VRSAVE - indicates which vector registers are in use
    pub vrsave: u32,
}

impl AltivecState {
    /// Create new AltiVec state
    pub fn new() -> (r: Self)
        ensures
            r.vscr.bits == 0,
            r.vrsave == 0,
    {
        Self { vscr: Vscr::empty(), vrsave: 0 }
    }

    /// Reset AltiVec state
    pub fn reset(&mut self)
        ensures
            final(self).vscr.bits == 0,
            final(self).vrsave == 0,
    {
        self.vscr = Vscr::empty();
        self.vrsave = 0;
    }
}

} // verus!
