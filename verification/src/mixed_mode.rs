//! The Mixed Mode Manager: which instruction set runs, PowerPC or 68k, and
//! when control passes from one to the other.
use vstd::prelude::*;

verus! {

/// Whether an address holds 68k code: the Toolbox space
/// 0x40800000-0x4FFFFFFF, or the ROM region from 0xFFC00000 up.
pub open spec fn spec_is_68k_address(addr: u32) -> bool {
    (0x4080_0000 <= addr < 0x5000_0000) || addr >= 0xFFC0_0000
}

/// Mixed Mode Manager
#[derive(Debug, Clone, Copy, PartialEq, Eq, Structural)]
pub struct MixedModeManager {
    /// Is currently executing 68k code?
    in_68k_mode: bool,
}

impl MixedModeManager {
    /// Whether 68k code is running.
    pub closed spec fn in_68k(self) -> bool {
        self.in_68k_mode
    }

    /// Create a new Mixed Mode Manager, running PowerPC code.
    pub fn new() -> (r: Self)
        ensures
            !r.in_68k(),
    {
        Self { in_68k_mode: false }
    }

    /// Check if we're currently in 68k mode
    pub fn is_68k_mode(&self) -> (r: bool)
        ensures
            r == self.in_68k(),
    {
        self.in_68k_mode
    }

    /// Check if an address is in 68k code space: 68k Toolbox code lives in
    /// 0x40800000-0x4FFFFFFF, and the decompressed 68k ROM from 0xFFC00000.
    pub fn is_68k_address(addr: u32) -> (r: bool)
        ensures
            r == spec_is_68k_address(addr),
    {
        if addr >= 0x4080_0000 && addr < 0x5000_0000 {
            return true;
        }
        if addr >= 0xFFC0_0000 {
            return true;
        }
        false
    }

    /// Switch from PowerPC to 68k execution at `target_addr`, which becomes
    /// the 68k program counter.
    pub fn switch_to_68k(&mut self, target_addr: u32) -> (r: u32)
        ensures
            final(self).in_68k(),
            r == target_addr,
    {
        self.in_68k_mode = true;
        target_addr
    }

    /// Switch from 68k back to PowerPC execution.
    pub fn switch_to_ppc(&mut self)
        ensures
            !final(self).in_68k(),
    {
        self.in_68k_mode = false;
    }

    /// After a PowerPC step that left the program counter at `pc`: switch
    /// to 68k when `pc` is in 68k code, giving the 68k program counter.
    pub fn after_ppc_step(&mut self, pc: u32) -> (r: Option<u32>)
        requires
            !old(self).in_68k(),
        ensures
            spec_is_68k_address(pc) ==> r == Some(pc) && final(self).in_68k(),
            !spec_is_68k_address(pc) ==> r is None && !final(self).in_68k(),
    {
        if Self::is_68k_address(pc) {
            Some(self.switch_to_68k(pc))
        } else {
            None
        }
    }
}

impl Default for MixedModeManager {
    fn default() -> (r: Self)
        ensures
            !r.in_68k(),
    {
        Self::new()
    }
}

} // verus!
