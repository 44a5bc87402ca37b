//! The outcome of executing one instruction.
use vstd::prelude::*;

verus! {

/// Result of executing an instruction
#[derive(Debug, Clone, Copy, PartialEq, Eq, Structural)]
pub enum ExecResult {
    /// Normal instruction - advance PC by 4
    Continue,
    /// Branch taken - PC already set, don't advance
    BranchTaken,
    /// Conditional branch not taken - advance PC by 4
    BranchNotTaken,
    /// System call - special handling may be needed
    Syscall,
    /// Trap instruction
    Trap,
}

impl ExecResult {
    /// Check if PC should be auto-incremented
    pub fn should_advance_pc(&self) -> (r: bool)
        ensures
            r == (*self == ExecResult::Continue || *self == ExecResult::BranchNotTaken),
    {
        match self {
            ExecResult::Continue | ExecResult::BranchNotTaken => true,
            _ => false,
        }
    }
}

} // verus!
