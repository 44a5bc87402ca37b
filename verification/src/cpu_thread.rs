//! The decisions of the CPU thread: what each command does to the run
//! state, the breakpoints and the instruction count, which CPU operation it
//! asks for, and which events it reports.
//!
//! The thread itself (channels, the CPU, the loop) lies outside: it hands
//! each command and each step's outcome to a [`CpuControl`] and carries out
//! what comes back.
use std::collections::HashSet;
use vstd::prelude::*;
use crate::registers::Registers;
use vstd::string::StringExecFns;

verus! {

broadcast use vstd::std_specs::hash::group_hash_axioms;

/// Commands to the CPU thread.
#[derive(Debug, Clone)]
pub enum CpuCommand {
    /// Start running continuously
    Run,
    /// Pause execution
    Pause,
    /// Execute a single instruction
    Step,
    /// Reset the CPU
    Reset,
    /// Run for a specific number of cycles
    RunCycles(u64),
    /// Set a breakpoint at an address
    SetBreakpoint(u32),
    /// Clear a breakpoint at an address
    ClearBreakpoint(u32),
    /// Clear all breakpoints
    ClearAllBreakpoints,
    /// Request CPU state snapshot
    GetState,
    /// Set CPU register value
    SetRegister { index: usize, value: u32 },
    /// Set program counter
    SetPC(u32),
    /// Shutdown the CPU thread
    Shutdown,
}

/// Events from the CPU thread.
#[derive(Debug, Clone)]
pub enum CpuEvent {
    /// CPU state changed (running/paused)
    StateChanged(CpuState),
    /// Hit a breakpoint
    Breakpoint(u32),
    /// CPU error occurred
    Error(String),
    /// Completed requested number of cycles
    CyclesCompleted(u64),
    /// CPU state snapshot (in response to GetState)
    State(CpuStateSnapshot),
    /// Single step completed
    StepCompleted,
    /// CPU was reset
    Reset,
}

/// The run state of the CPU thread.
#[derive(Debug, Clone, Copy, PartialEq, Eq, Structural)]
pub enum CpuState {
    /// CPU is running
    Running,
    /// CPU is paused
    Paused,
    /// CPU thread has stopped
    Stopped,
}

/// A snapshot of the CPU registers and run state.
#[derive(Debug, Clone, Copy)]
pub struct CpuStateSnapshot {
    /// General purpose registers
    pub gpr: [u32; 32],
    /// Program counter
    pub pc: u32,
    /// Link register
    pub lr: u32,
    /// Count register
    pub ctr: u32,
    /// Condition register
    pub cr: u32,
    /// XER register
    pub xer: u32,
    /// Current execution state
    pub state: CpuState,
    /// Total instructions executed
    pub instruction_count: u64,
}

impl CpuStateSnapshot {
    /// Create a snapshot from the registers.
    pub fn from_registers(regs: &Registers, state: CpuState, count: u64) -> (r: Self)
        ensures
            r.gpr == regs.gpr,
            r.pc == regs.pc,
            r.lr == regs.lr,
            r.ctr == regs.ctr,
            r.cr == regs.cr,
            r.xer == regs.xer,
            r.state == state,
            r.instruction_count == count,
    {
        Self { gpr: regs.gpr, pc: regs.pc, lr: regs.lr, ctr: regs.ctr, cr: regs.cr, xer: regs.xer, state, instruction_count: count }
    }
}

/// What the CPU itself must do for a command.
#[derive(Debug, Clone, Copy, PartialEq, Eq, Structural)]
pub enum CpuOp {
    /// Nothing.
    Nothing,
    /// Execute one instruction, then report it through `after_step` with
    /// `StepKind::Single`.
    StepOnce,
    /// Reset the CPU.
    ResetCpu,
    /// Execute up to this many instructions, reporting each through
    /// `after_step` with `StepKind::Cycle` while it says to go on, then
    /// report `cycles_completed`.
    RunCycles(u64),
    /// Set general purpose register `index` to `value`.
    SetRegister(usize, u32),
    /// Set the program counter.
    SetPc(u32),
    /// Take a snapshot of the registers with `snapshot_state` and
    /// `instruction_count` and report it.
    Snapshot,
    /// Leave the thread's loop.
    Exit,
}

/// Which step an outcome belongs to.
#[derive(Debug, Clone, Copy, PartialEq, Eq, Structural)]
pub enum StepKind {
    /// A single step asked for by `Step`.
    Single,
    /// One of the steps of `RunCycles`.
    Cycle,
    /// A step taken because the CPU is running.
    Running,
}

/// The state the CPU thread keeps between commands.
pub struct CpuControl {
    state: CpuState,
    breakpoints: HashSet<u32>,
    instruction_count: u64,
}

/// The message of an event for a failed step.
pub open spec fn step_error_message(kind: StepKind, msg: Seq<char>) -> Seq<char> {
    match kind {
        StepKind::Single => "Step failed: "@ + msg,
        StepKind::Cycle => "Execution failed: "@ + msg,
        StepKind::Running => "Execution error: "@ + msg,
    }
}

/// Whether an event is the error event with this message.
pub open spec fn is_error_event(e: CpuEvent, msg: Seq<char>) -> bool {
    e matches CpuEvent::Error(m) && m@ == msg
}

impl CpuControl {
    /// The run state.
    pub closed spec fn run_state(self) -> CpuState {
        self.state
    }

    /// The breakpoint addresses.
    pub closed spec fn breakpoint_set(self) -> Set<u32> {
        self.breakpoints@
    }

    /// The number of instructions executed since the last reset.
    pub closed spec fn count(self) -> u64 {
        self.instruction_count
    }

    /// The state the thread starts in: paused, with no breakpoint and no
    /// instruction executed.
    pub fn new() -> (r: Self)
        ensures
            r.run_state() == CpuState::Paused,
            r.breakpoint_set() == Set::<u32>::empty(),
            r.count() == 0,
    {
        Self { state: CpuState::Paused, breakpoints: HashSet::new(), instruction_count: 0 }
    }

    /// The event the thread sends when it starts.
    pub fn initial_event(&self) -> (r: CpuEvent)
        ensures
            r == CpuEvent::StateChanged(self.run_state()),
    {
        CpuEvent::StateChanged(self.state)
    }

    /// Whether the thread should wait for a command (when paused) rather
    /// than poll for one (when running).
    pub fn waits_for_command(&self) -> (r: bool)
        ensures
            r == (self.run_state() != CpuState::Running),
    {
        self.state != CpuState::Running
    }

    /// Whether the thread should execute an instruction after handling
    /// what it received.
    pub fn should_step(&self) -> (r: bool)
        ensures
            r == (self.run_state() == CpuState::Running),
    {
        self.state == CpuState::Running
    }

    /// The run state, for a snapshot.
    pub fn snapshot_state(&self) -> (r: CpuState)
        ensures
            r == self.run_state(),
    {
        self.state
    }

    /// The instruction count, for a snapshot.
    pub fn instruction_count(&self) -> (r: u64)
        ensures
            r == self.count(),
    {
        self.instruction_count
    }

    /// Handle a command: update the state and say what the CPU must do and
    /// which events to send now.
    pub fn handle_command(&mut self, cmd: CpuCommand) -> (r: (CpuOp, Vec<CpuEvent>))
        ensures
            match cmd {
                CpuCommand::Run => final(self).run_state() == CpuState::Running && r.0 == CpuOp::Nothing
                    && r.1@ == seq![CpuEvent::StateChanged(CpuState::Running)]
                    && final(self).breakpoint_set() == old(self).breakpoint_set() && final(self).count() == old(self).count(),
                CpuCommand::Pause => final(self).run_state() == CpuState::Paused && r.0 == CpuOp::Nothing
                    && r.1@ == seq![CpuEvent::StateChanged(CpuState::Paused)]
                    && final(self).breakpoint_set() == old(self).breakpoint_set() && final(self).count() == old(self).count(),
                CpuCommand::Step => r.0 == CpuOp::StepOnce && r.1@.len() == 0 && final(self).run_state() == old(self).run_state()
                    && final(self).breakpoint_set() == old(self).breakpoint_set() && final(self).count() == old(self).count(),
                CpuCommand::Reset => r.0 == CpuOp::ResetCpu && final(self).count() == 0
                    && final(self).run_state() == CpuState::Paused
                    && r.1@ == seq![CpuEvent::Reset, CpuEvent::StateChanged(CpuState::Paused)]
                    && final(self).breakpoint_set() == old(self).breakpoint_set(),
                CpuCommand::RunCycles(n) => r.0 == CpuOp::RunCycles(n) && r.1@.len() == 0
                    && final(self).run_state() == old(self).run_state()
                    && final(self).breakpoint_set() == old(self).breakpoint_set() && final(self).count() == old(self).count(),
                CpuCommand::SetBreakpoint(a) => r.0 == CpuOp::Nothing && r.1@.len() == 0
                    && final(self).breakpoint_set() == old(self).breakpoint_set().insert(a)
                    && final(self).run_state() == old(self).run_state() && final(self).count() == old(self).count(),
                CpuCommand::ClearBreakpoint(a) => r.0 == CpuOp::Nothing && r.1@.len() == 0
                    && final(self).breakpoint_set() == old(self).breakpoint_set().remove(a)
                    && final(self).run_state() == old(self).run_state() && final(self).count() == old(self).count(),
                CpuCommand::ClearAllBreakpoints => r.0 == CpuOp::Nothing && r.1@.len() == 0
                    && final(self).breakpoint_set() == Set::<u32>::empty()
                    && final(self).run_state() == old(self).run_state() && final(self).count() == old(self).count(),
                CpuCommand::GetState => r.0 == CpuOp::Snapshot && r.1@.len() == 0
                    && final(self).run_state() == old(self).run_state()
                    && final(self).breakpoint_set() == old(self).breakpoint_set() && final(self).count() == old(self).count(),
                CpuCommand::SetRegister { index, value } => r.0 == (if index < 32 {
                    CpuOp::SetRegister(index, value)
                } else {
                    CpuOp::Nothing
                }) && r.1@.len() == 0 && final(self).run_state() == old(self).run_state()
                    && final(self).breakpoint_set() == old(self).breakpoint_set() && final(self).count() == old(self).count(),
                CpuCommand::SetPC(pc) => r.0 == CpuOp::SetPc(pc) && r.1@.len() == 0
                    && final(self).run_state() == old(self).run_state()
                    && final(self).breakpoint_set() == old(self).breakpoint_set() && final(self).count() == old(self).count(),
                CpuCommand::Shutdown => r.0 == CpuOp::Exit && final(self).run_state() == CpuState::Stopped
                    && r.1@ == seq![CpuEvent::StateChanged(CpuState::Stopped)]
                    && final(self).breakpoint_set() == old(self).breakpoint_set() && final(self).count() == old(self).count(),
            },
    {
        let mut events: Vec<CpuEvent> = Vec::new();
        let op = match cmd {
            CpuCommand::Run => {
                self.state = CpuState::Running;
                events.push(CpuEvent::StateChanged(CpuState::Running));
                CpuOp::Nothing
            },
            CpuCommand::Pause => {
                self.state = CpuState::Paused;
                events.push(CpuEvent::StateChanged(CpuState::Paused));
                CpuOp::Nothing
            },
            CpuCommand::Step => CpuOp::StepOnce,
            CpuCommand::Reset => {
                self.instruction_count = 0;
                self.state = CpuState::Paused;
                events.push(CpuEvent::Reset);
                events.push(CpuEvent::StateChanged(CpuState::Paused));
                CpuOp::ResetCpu
            },
            CpuCommand::RunCycles(cycles) => CpuOp::RunCycles(cycles),
            CpuCommand::SetBreakpoint(addr) => {
                self.breakpoints.insert(addr);
                CpuOp::Nothing
            },
            CpuCommand::ClearBreakpoint(addr) => {
                self.breakpoints.remove(&addr);
                CpuOp::Nothing
            },
            CpuCommand::ClearAllBreakpoints => {
                self.breakpoints.clear();
                CpuOp::Nothing
            },
            CpuCommand::GetState => CpuOp::Snapshot,
            CpuCommand::SetRegister { index, value } => {
                if index < 32 {
                    CpuOp::SetRegister(index, value)
                } else {
                    CpuOp::Nothing
                }
            },
            CpuCommand::SetPC(pc) => CpuOp::SetPc(pc),
            CpuCommand::Shutdown => {
                self.state = CpuState::Stopped;
                events.push(CpuEvent::StateChanged(CpuState::Stopped));
                CpuOp::Exit
            },
        };
        (op, events)
    }

    /// Account for one executed step: `Ok(pc)` with the program counter
    /// after it, or `Err(message)`. Gives the events to send and whether
    /// a run of cycles goes on.
    pub fn after_step(&mut self, kind: StepKind, outcome: Result<u32, String>) -> (r: (Vec<CpuEvent>, bool))
        requires
            outcome is Ok ==> old(self).count() < u64::MAX,
        ensures
            final(self).breakpoint_set() == old(self).breakpoint_set(),
            match outcome {
                Ok(pc) => {
                    let hit = old(self).breakpoint_set().contains(pc);
                    &&& final(self).count() == old(self).count() + 1
                    &&& match kind {
                        StepKind::Single => final(self).run_state() == old(self).run_state() && r.1 && r.0@ == (if hit {
                            seq![CpuEvent::StepCompleted, CpuEvent::Breakpoint(pc)]
                        } else {
                            seq![CpuEvent::StepCompleted]
                        }),
                        _ => if hit {
                            final(self).run_state() == CpuState::Paused && !r.1
                                && r.0@ == seq![CpuEvent::Breakpoint(pc), CpuEvent::StateChanged(CpuState::Paused)]
                        } else {
                            final(self).run_state() == old(self).run_state() && r.1 && r.0@.len() == 0
                        },
                    }
                },
                Err(m) => {
                    &&& final(self).count() == old(self).count()
                    &&& !r.1
                    &&& is_error_event(r.0@[0], step_error_message(kind, m@))
                    &&& match kind {
                        StepKind::Running => final(self).run_state() == CpuState::Paused && r.0@.len() == 2
                            && r.0@[1] == CpuEvent::StateChanged(CpuState::Paused),
                        _ => final(self).run_state() == old(self).run_state() && r.0@.len() == 1,
                    }
                },
            },
    {
        let mut events: Vec<CpuEvent> = Vec::new();
        match outcome {
            Ok(pc) => {
                self.instruction_count = self.instruction_count + 1;
                let hit = self.breakpoints.contains(&pc);
                match kind {
                    StepKind::Single => {
                        events.push(CpuEvent::StepCompleted);
                        if hit {
                            events.push(CpuEvent::Breakpoint(pc));
                        }
                        (events, true)
                    },
                    _ => {
                        if hit {
                            events.push(CpuEvent::Breakpoint(pc));
                            self.state = CpuState::Paused;
                            events.push(CpuEvent::StateChanged(CpuState::Paused));
                            (events, false)
                        } else {
                            (events, true)
                        }
                    },
                }
            },
            Err(msg) => {
                let mut text = match kind {
                    StepKind::Single => String::from_str("Step failed: "),
                    StepKind::Cycle => String::from_str("Execution failed: "),
                    StepKind::Running => String::from_str("Execution error: "),
                };
                text.append(msg.as_str());
                events.push(CpuEvent::Error(text));
                match kind {
                    StepKind::Running => {
                        self.state = CpuState::Paused;
                        events.push(CpuEvent::StateChanged(CpuState::Paused));
                    },
                    _ => {},
                }
                (events, false)
            },
        }
    }

    /// The event sent when a run of cycles ends.
    pub fn cycles_completed(&self, cycles: u64) -> (r: CpuEvent)
        ensures
            r == CpuEvent::CyclesCompleted(cycles),
    {
        CpuEvent::CyclesCompleted(cycles)
    }
}

} // verus!
