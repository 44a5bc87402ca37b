//! The messages of the debugger protocol: commands from a frontend and the
//! responses sent back. Their JSON form is given to them outside.
use vstd::prelude::*;
use crate::debugger::{Breakpoint, BreakpointType, ExecutionState};

verus! {

/// The kind of a breakpoint, as the protocol names it.
#[derive(Debug, Clone, Copy, PartialEq, Eq, Structural)]
pub enum BreakpointTypeDto {
    Execute,
    MemoryRead,
    MemoryWrite,
    MemoryAccess,
}

/// The breakpoint kind a protocol kind names.
pub open spec fn spec_bp_type_of_dto(dto: BreakpointTypeDto) -> BreakpointType {
    match dto {
        BreakpointTypeDto::Execute => BreakpointType::Execute,
        BreakpointTypeDto::MemoryRead => BreakpointType::MemoryRead,
        BreakpointTypeDto::MemoryWrite => BreakpointType::MemoryWrite,
        BreakpointTypeDto::MemoryAccess => BreakpointType::MemoryAccess,
    }
}

/// The protocol kind of a breakpoint kind.
pub open spec fn spec_dto_of_bp_type(bp: BreakpointType) -> BreakpointTypeDto {
    match bp {
        BreakpointType::Execute => BreakpointTypeDto::Execute,
        BreakpointType::MemoryRead => BreakpointTypeDto::MemoryRead,
        BreakpointType::MemoryWrite => BreakpointTypeDto::MemoryWrite,
        BreakpointType::MemoryAccess => BreakpointTypeDto::MemoryAccess,
    }
}

impl From<BreakpointTypeDto> for BreakpointType {
    fn from(dto: BreakpointTypeDto) -> (r: Self) {
        match dto {
            BreakpointTypeDto::Execute => BreakpointType::Execute,
            BreakpointTypeDto::MemoryRead => BreakpointType::MemoryRead,
            BreakpointTypeDto::MemoryWrite => BreakpointType::MemoryWrite,
            BreakpointTypeDto::MemoryAccess => BreakpointType::MemoryAccess,
        }
    }
}

impl vstd::std_specs::convert::FromSpecImpl<BreakpointTypeDto> for BreakpointType {
    open spec fn obeys_from_spec() -> bool {
        true
    }

    open spec fn from_spec(dto: BreakpointTypeDto) -> BreakpointType {
        spec_bp_type_of_dto(dto)
    }
}

impl From<BreakpointType> for BreakpointTypeDto {
    fn from(bp: BreakpointType) -> (r: Self) {
        match bp {
            BreakpointType::Execute => BreakpointTypeDto::Execute,
            BreakpointType::MemoryRead => BreakpointTypeDto::MemoryRead,
            BreakpointType::MemoryWrite => BreakpointTypeDto::MemoryWrite,
            BreakpointType::MemoryAccess => BreakpointTypeDto::MemoryAccess,
        }
    }
}

impl vstd::std_specs::convert::FromSpecImpl<BreakpointType> for BreakpointTypeDto {
    open spec fn obeys_from_spec() -> bool {
        true
    }

    open spec fn from_spec(bp: BreakpointType) -> BreakpointTypeDto {
        spec_dto_of_bp_type(bp)
    }
}

/// The execution state of the debugger, as the protocol names it.
#[derive(Debug, Clone, Copy, PartialEq, Eq, Structural)]
pub enum ExecutionStateDto {
    Running,
    Paused,
    BreakpointHit { address: u32 },
    Stepping,
    SteppingOver,
    SteppingOut,
}

/// The protocol form of an execution state.
pub open spec fn spec_dto_of_state(state: ExecutionState) -> ExecutionStateDto {
    match state {
        ExecutionState::Running => ExecutionStateDto::Running,
        ExecutionState::Paused => ExecutionStateDto::Paused,
        ExecutionState::BreakpointHit { address } => ExecutionStateDto::BreakpointHit { address },
        ExecutionState::Stepping => ExecutionStateDto::Stepping,
        ExecutionState::SteppingOver => ExecutionStateDto::SteppingOver,
        ExecutionState::SteppingOut => ExecutionStateDto::SteppingOut,
    }
}

impl From<ExecutionState> for ExecutionStateDto {
    fn from(state: ExecutionState) -> (r: Self) {
        match state {
            ExecutionState::Running => ExecutionStateDto::Running,
            ExecutionState::Paused => ExecutionStateDto::Paused,
            ExecutionState::BreakpointHit { address } => ExecutionStateDto::BreakpointHit { address },
            ExecutionState::Stepping => ExecutionStateDto::Stepping,
            ExecutionState::SteppingOver => ExecutionStateDto::SteppingOver,
            ExecutionState::SteppingOut => ExecutionStateDto::SteppingOut,
        }
    }
}

impl vstd::std_specs::convert::FromSpecImpl<ExecutionState> for ExecutionStateDto {
    open spec fn obeys_from_spec() -> bool {
        true
    }

    open spec fn from_spec(state: ExecutionState) -> ExecutionStateDto {
        spec_dto_of_state(state)
    }
}

/// The CPU registers a frontend is shown, apart from the floating-point
/// registers, which are added where the message is encoded.
#[derive(Debug, Clone, Copy)]
pub struct CpuStateSummary {
    /// Program counter
    pub pc: u32,
    /// Link register
    pub lr: u32,
    /// Count register
    pub ctr: u32,
    /// Condition register
    pub cr: u32,
    /// XER register
    pub xer: u32,
    /// General purpose registers (r0-r31)
    pub gpr: [u32; 32],
    /// Execution state
    pub execution_state: ExecutionStateDto,
    /// Instruction count
    pub instruction_count: u64,
}

/// A breakpoint, as the protocol shows it.
#[derive(Debug, Clone, Copy, PartialEq, Eq, Structural)]
pub struct BreakpointDto {
    pub address: u32,
    pub bp_type: BreakpointTypeDto,
    pub enabled: bool,
    pub hit_count: u32,
}

/// The protocol form of a breakpoint.
pub open spec fn spec_dto_of_breakpoint(bp: Breakpoint) -> BreakpointDto {
    BreakpointDto {
        address: bp.address,
        bp_type: spec_dto_of_bp_type(bp.bp_type),
        enabled: bp.enabled,
        hit_count: bp.hit_count,
    }
}

impl BreakpointDto {
    /// The protocol form of a breakpoint.
    pub fn from_breakpoint(bp: &Breakpoint) -> (r: Self)
        ensures
            r == spec_dto_of_breakpoint(*bp),
    {
        BreakpointDto {
            address: bp.address,
            bp_type: BreakpointTypeDto::from(bp.bp_type),
            enabled: bp.enabled,
            hit_count: bp.hit_count,
        }
    }
}

/// One disassembled instruction.
#[derive(Debug, Clone)]
pub struct DisassemblyDto {
    pub address: u32,
    pub bytes: Vec<u8>,
    pub mnemonic: String,
    pub operands: String,
}

/// A range of memory.
#[derive(Debug, Clone)]
pub struct MemoryDto {
    pub address: u32,
    pub data: Vec<u8>,
}

/// A command from a debugger frontend.
#[derive(Debug, Clone)]
pub enum DebuggerCommand {
    /// Enable the debugger
    Enable,
    /// Disable the debugger
    Disable,
    /// Pause execution
    Pause,
    /// Resume execution
    Resume,
    /// Step one instruction
    StepInto,
    /// Step over (execute function calls without stepping into them)
    StepOver,
    /// Step out (run until current function returns)
    StepOut,
    /// Add breakpoint
    AddBreakpoint { address: u32, bp_type: BreakpointTypeDto },
    /// Remove breakpoint
    RemoveBreakpoint { address: u32, bp_type: BreakpointTypeDto },
    /// Get current CPU state
    GetCpuState,
    /// Get memory range
    GetMemory { address: u32, length: u32 },
    /// Write memory
    WriteMemory { address: u32, data: Vec<u8> },
    /// Get all breakpoints
    GetBreakpoints,
    /// Disassemble instructions
    Disassemble { address: u32, count: u32 },
}

/// A response to a debugger frontend.
#[derive(Debug, Clone)]
pub enum DebuggerResponse {
    /// Command executed successfully (`ok` on the wire)
    Success,
    /// Command failed
    Error { message: String },
    /// CPU state
    CpuState { state: CpuStateSummary },
    /// Memory data
    Memory { data: MemoryDto },
    /// Breakpoint list
    Breakpoints { breakpoints: Vec<BreakpointDto> },
    /// Disassembly
    Disassembly { instructions: Vec<DisassemblyDto> },
    /// Execution state changed (event)
    StateChanged { state: ExecutionStateDto },
    /// Breakpoint hit (event)
    BreakpointHit { address: u32, bp_type: BreakpointTypeDto },
}

} // verus!
