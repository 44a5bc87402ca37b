//! What the debugger IPC handler does with each command from a frontend:
//! the change to the debugger and the response. Reading commands and
//! writing responses as JSON lines happens outside.
use vstd::prelude::*;
use vstd::string::StringExecFns;
use crate::debugger::{Breakpoint, Debugger, DebuggerView, ExecutionState, fresh_debugger, lists_keys, breakpoints_of, spec_add_breakpoint, spec_remove_breakpoint};
use crate::debugger_protocol::{BreakpointDto, CpuStateSummary, DebuggerCommand, DebuggerResponse, ExecutionStateDto, spec_bp_type_of_dto, spec_dto_of_breakpoint, spec_dto_of_state};

verus! {

/// The CPU registers the handler reports.
#[derive(Debug, Clone, Copy)]
pub struct CpuRegisters {
    pub pc: u32,
    pub lr: u32,
    pub ctr: u32,
    pub cr: u32,
    pub xer: u32,
    pub gpr: [u32; 32],
}

/// `bps` lists the breakpoints of a debugger: the execution breakpoints,
/// then the read breakpoints, then the write breakpoints, each map once
/// per key in some order.
pub open spec fn breakpoint_listing(v: DebuggerView, bps: Seq<Breakpoint>) -> bool {
    exists|k1: Seq<u32>, k2: Seq<u32>, k3: Seq<u32>|
        lists_keys(v.exec_breakpoints, k1) && lists_keys(v.read_breakpoints, k2) && lists_keys(v.write_breakpoints, k3)
            && bps == breakpoints_of(v.exec_breakpoints, k1) + breakpoints_of(v.read_breakpoints, k2) + breakpoints_of(
            v.write_breakpoints,
            k3,
        )
}

/// Whether a response is the error with this message.
pub open spec fn is_error(r: DebuggerResponse, msg: Seq<char>) -> bool {
    r matches DebuggerResponse::Error { message } && message@ == msg
}

/// The message for commands that need the debugger while it is off.
pub open spec fn not_enabled() -> Seq<char> {
    "Debugger not enabled"@
}

/// The debugger after a command that acts on it, when it is on.
pub open spec fn spec_debugger_after(cmd: DebuggerCommand, v: DebuggerView, pc: u32) -> DebuggerView {
    match cmd {
        DebuggerCommand::Pause => DebuggerView { state: ExecutionState::Paused, ..v },
        DebuggerCommand::Resume => DebuggerView { state: ExecutionState::Running, ..v },
        DebuggerCommand::StepInto => DebuggerView { state: ExecutionState::Stepping, ..v },
        DebuggerCommand::StepOver => DebuggerView {
            state: ExecutionState::SteppingOver,
            step_over_target: Some((pc + 4) as u32),
            ..v
        },
        DebuggerCommand::StepOut => DebuggerView {
            state: ExecutionState::SteppingOut,
            step_out_depth: Some(v.call_stack.len() as usize),
            ..v
        },
        DebuggerCommand::AddBreakpoint { address, bp_type } => spec_add_breakpoint(v, address, spec_bp_type_of_dto(bp_type)),
        DebuggerCommand::RemoveBreakpoint { address, bp_type } => spec_remove_breakpoint(v, address, spec_bp_type_of_dto(bp_type)),
        _ => v,
    }
}

/// Whether a command acts on the debugger and needs it on.
pub open spec fn needs_debugger(cmd: DebuggerCommand) -> bool {
    cmd is Pause || cmd is Resume || cmd is StepInto || cmd is StepOver || cmd is StepOut || cmd is AddBreakpoint
        || cmd is RemoveBreakpoint || cmd is GetBreakpoints
}

/// Handle a single command from a frontend: change the debugger as it
/// says and give the response to send. `cpu` holds the registers when the
/// CPU runs on this thread, and `ram_path` is the file RAM is mapped from.
pub fn handle_command(cmd: DebuggerCommand, debugger: &mut Option<Debugger>, cpu: Option<CpuRegisters>, ram_path: &str) -> (r: DebuggerResponse)
    requires
        cmd is StepOver && (*old(debugger)) is Some ==> (cpu matches Some(c) ==> c.pc <= u32::MAX - 4),
    ensures
        match cmd {
            DebuggerCommand::Enable => r is Success && (*final(debugger)) is Some && ((*old(debugger)) is None
                ==> (*final(debugger))->0@ == fresh_debugger()) && ((*old(debugger)) is Some ==> *final(debugger) == *old(debugger)),
            DebuggerCommand::Disable => r is Success && (*final(debugger)) is None,
            DebuggerCommand::GetCpuState => *final(debugger) == *old(debugger) && match cpu {
                Some(c) => r matches DebuggerResponse::CpuState { state } && state.pc == c.pc && state.lr == c.lr
                    && state.ctr == c.ctr && state.cr == c.cr && state.xer == c.xer && state.gpr == c.gpr && match *old(debugger) {
                    Some(d) => state.execution_state == spec_dto_of_state(d@.state) && state.instruction_count
                        == d@.instruction_count,
                    None => state.execution_state == ExecutionStateDto::Running && state.instruction_count == 0,
                },
                None => is_error(r, "CPU not available"@),
            },
            DebuggerCommand::GetMemory { .. } => *final(debugger) == *old(debugger) && is_error(
                r,
                "Use memory-mapped file instead: "@ + ram_path@,
            ),
            DebuggerCommand::WriteMemory { .. } => *final(debugger) == *old(debugger) && is_error(
                r,
                "Use memory-mapped file for writes"@,
            ),
            DebuggerCommand::Disassemble { .. } => *final(debugger) == *old(debugger) && is_error(
                r,
                "Disassembly not yet implemented"@,
            ),
            DebuggerCommand::GetBreakpoints => *final(debugger) == *old(debugger) && match *old(debugger) {
                Some(d) => r matches DebuggerResponse::Breakpoints { breakpoints } && exists|bps: Seq<Breakpoint>|
                    breakpoint_listing(d@, bps) && breakpoints@ == bps.map_values(|b: Breakpoint| spec_dto_of_breakpoint(b)),
                None => is_error(r, not_enabled()),
            },
            _ => match *old(debugger) {
                Some(d) => r is Success && ((*final(debugger)) matches Some(d2) && d2@ == spec_debugger_after(
                    cmd,
                    d@,
                    match cpu {
                        Some(c) => c.pc,
                        None => 0,
                    },
                )),
                None => is_error(r, not_enabled()) && (*final(debugger)) is None,
            },
        },
{
    match cmd {
        DebuggerCommand::Enable => {
            if debugger.is_none() {
                *debugger = Some(Debugger::new());
            }
            DebuggerResponse::Success
        },
        DebuggerCommand::Disable => {
            *debugger = None;
            DebuggerResponse::Success
        },
        DebuggerCommand::GetCpuState => {
            match cpu {
                Some(c) => {
                    let (execution_state, instruction_count) = match debugger {
                        Some(d) => (ExecutionStateDto::from(d.state()), d.instruction_count()),
                        None => (ExecutionStateDto::Running, 0),
                    };
                    DebuggerResponse::CpuState {
                        state: CpuStateSummary {
                            pc: c.pc,
                            lr: c.lr,
                            ctr: c.ctr,
                            cr: c.cr,
                            xer: c.xer,
                            gpr: c.gpr,
                            execution_state,
                            instruction_count,
                        },
                    }
                },
                None => DebuggerResponse::Error { message: String::from_str("CPU not available") },
            }
        },
        DebuggerCommand::GetMemory { .. } => {
            let mut message = String::from_str("Use memory-mapped file instead: ");
            message.append(ram_path);
            DebuggerResponse::Error { message }
        },
        DebuggerCommand::WriteMemory { .. } => {
            DebuggerResponse::Error { message: String::from_str("Use memory-mapped file for writes") }
        },
        DebuggerCommand::Disassemble { .. } => {
            DebuggerResponse::Error { message: String::from_str("Disassembly not yet implemented") }
        },
        DebuggerCommand::GetBreakpoints => {
            match debugger {
                Some(d) => {
                    let list = d.breakpoints();
                    let ghost bps = list@.unref();
                    let mut breakpoints: Vec<BreakpointDto> = Vec::new();
                    let mut i: usize = 0;
                    while i < list.len()
                        invariant
                            i <= list@.len(),
                            bps == list@.unref(),
                            breakpoints@ == bps.take(i as int).map_values(|b: Breakpoint| spec_dto_of_breakpoint(b)),
                        decreases list@.len() - i,
                    {
                        breakpoints.push(BreakpointDto::from_breakpoint(list[i]));
                        assert(bps.take(i + 1) =~= bps.take(i as int).push(bps[i as int]));
                        assert(breakpoints@ =~= bps.take(i + 1).map_values(|b: Breakpoint| spec_dto_of_breakpoint(b)));
                        i = i + 1;
                    }
                    assert(bps.take(bps.len() as int) =~= bps);
                    assert(breakpoint_listing(d@, bps));
                    DebuggerResponse::Breakpoints { breakpoints }
                },
                None => DebuggerResponse::Error { message: String::from_str("Debugger not enabled") },
            }
        },
        _ => {
            let pc: u32 = match cpu {
                Some(c) => c.pc,
                None => 0,
            };
            match debugger.take() {
                Some(mut d) => {
                    match cmd {
                        DebuggerCommand::Pause => d.pause(),
                        DebuggerCommand::Resume => d.resume(),
                        DebuggerCommand::StepInto => d.step_into(),
                        DebuggerCommand::StepOver => d.step_over(pc),
                        DebuggerCommand::StepOut => d.step_out(),
                        DebuggerCommand::AddBreakpoint { address, bp_type } => {
                            d.add_breakpoint(address, bp_type.into());
                        },
                        DebuggerCommand::RemoveBreakpoint { address, bp_type } => {
                            d.remove_breakpoint(address, bp_type.into());
                        },
                        _ => {},
                    }
                    *debugger = Some(d);
                    DebuggerResponse::Success
                },
                None => DebuggerResponse::Error { message: String::from_str("Debugger not enabled") },
            }
        },
    }
}

} // verus!
