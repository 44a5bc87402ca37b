//! The system debugger: execution and memory breakpoints, stepping, and a
//! shadow call stack.
use std::collections::HashMap;
use vstd::prelude::*;
use vstd::std_specs::iter::IteratorSpec;

verus! {

broadcast use vstd::std_specs::hash::group_hash_axioms;

/// Breakpoint type
#[derive(Debug, Clone, Copy, PartialEq, Eq, Hash, Structural)]
pub enum BreakpointType {
    /// Break on instruction execution at address
    Execute,
    /// Break on memory read from address
    MemoryRead,
    /// Break on memory write to address
    MemoryWrite,
    /// Break on memory read or write
    MemoryAccess,
}

/// Breakpoint definition
#[derive(Debug, Clone)]
pub struct Breakpoint {
    /// Address to break on
    pub address: u32,
    /// Type of breakpoint
    pub bp_type: BreakpointType,
    /// Is this breakpoint enabled?
    pub enabled: bool,
    /// Optional condition (if None, always breaks)
    pub condition: Option<String>,
    /// Hit count (how many times has this breakpoint been hit?)
    pub hit_count: u32,
}

/// A fresh breakpoint: enabled, unconditional, never hit.
pub open spec fn fresh_breakpoint(address: u32, bp_type: BreakpointType) -> Breakpoint {
    Breakpoint { address, bp_type, enabled: true, condition: None, hit_count: 0 }
}

impl Breakpoint {
    /// Create a new breakpoint
    pub fn new(address: u32, bp_type: BreakpointType) -> (r: Self)
        ensures
            r == fresh_breakpoint(address, bp_type),
    {
        Self { address, bp_type, enabled: true, condition: None, hit_count: 0 }
    }
}

/// Execution state of the debugger
#[derive(Debug, Clone, Copy, PartialEq, Eq, Structural)]
pub enum ExecutionState {
    /// Running normally
    Running,
    /// Paused by user
    Paused,
    /// Paused by breakpoint
    BreakpointHit { address: u32 },
    /// Stepping (will pause after next instruction)
    Stepping,
    /// Step over (will pause after current function returns or next instruction)
    SteppingOver,
    /// Step out (will pause when current function returns)
    SteppingOut,
}

/// Call stack frame
#[derive(Debug, Clone, Copy, PartialEq, Eq, Structural)]
pub struct StackFrame {
    /// Return address
    pub return_address: u32,
    /// Stack pointer at call time
    pub stack_pointer: u32,
    /// Function address (if known)
    pub function_address: Option<u32>,
}

/// The abstract state of a debugger.
pub struct DebuggerView {
    pub state: ExecutionState,
    pub exec_breakpoints: Map<u32, Breakpoint>,
    pub read_breakpoints: Map<u32, Breakpoint>,
    pub write_breakpoints: Map<u32, Breakpoint>,
    pub call_stack: Seq<StackFrame>,
    pub step_over_target: Option<u32>,
    pub step_out_depth: Option<usize>,
    pub instruction_count: u64,
}

/// The state of a debugger that has just been created: running, with no
/// breakpoint, no call and no instruction counted.
pub open spec fn fresh_debugger() -> DebuggerView {
    DebuggerView {
        state: ExecutionState::Running,
        exec_breakpoints: Map::empty(),
        read_breakpoints: Map::empty(),
        write_breakpoints: Map::empty(),
        call_stack: Seq::empty(),
        step_over_target: None,
        step_out_depth: None,
        instruction_count: 0,
    }
}

/// `bp` with its hit count raised by one.
pub open spec fn hit_once(bp: Breakpoint) -> Breakpoint {
    Breakpoint { hit_count: (bp.hit_count + 1) as u32, ..bp }
}

/// Whether a breakpoint map stops at `address`: an enabled breakpoint is
/// set there.
pub open spec fn stops_at(m: Map<u32, Breakpoint>, address: u32) -> bool {
    m.contains_key(address) && m[address].enabled
}

/// No hit count in `m` is at its maximum, so one more hit can be counted.
pub open spec fn counts_have_room(m: Map<u32, Breakpoint>) -> bool {
    forall|a: u32| #[trigger] m.contains_key(a) ==> m[a].hit_count < u32::MAX
}

/// What checking a breakpoint map at `address` does to the map.
pub open spec fn after_check(m: Map<u32, Breakpoint>, address: u32) -> Map<u32, Breakpoint> {
    if stops_at(m, address) {
        m.insert(address, hit_once(m[address]))
    } else {
        m
    }
}

/// The debugger after adding a breakpoint.
pub open spec fn spec_add_breakpoint(d: DebuggerView, address: u32, t: BreakpointType) -> DebuggerView {
    let bp = fresh_breakpoint(address, t);
    match t {
        BreakpointType::Execute => DebuggerView { exec_breakpoints: d.exec_breakpoints.insert(address, bp), ..d },
        BreakpointType::MemoryRead => DebuggerView { read_breakpoints: d.read_breakpoints.insert(address, bp), ..d },
        BreakpointType::MemoryWrite => DebuggerView { write_breakpoints: d.write_breakpoints.insert(address, bp), ..d },
        BreakpointType::MemoryAccess => DebuggerView {
            read_breakpoints: d.read_breakpoints.insert(address, bp),
            write_breakpoints: d.write_breakpoints.insert(address, bp),
            ..d
        },
    }
}

/// The debugger after removing a breakpoint.
pub open spec fn spec_remove_breakpoint(d: DebuggerView, address: u32, t: BreakpointType) -> DebuggerView {
    match t {
        BreakpointType::Execute => DebuggerView { exec_breakpoints: d.exec_breakpoints.remove(address), ..d },
        BreakpointType::MemoryRead => DebuggerView { read_breakpoints: d.read_breakpoints.remove(address), ..d },
        BreakpointType::MemoryWrite => DebuggerView { write_breakpoints: d.write_breakpoints.remove(address), ..d },
        BreakpointType::MemoryAccess => DebuggerView {
            read_breakpoints: d.read_breakpoints.remove(address),
            write_breakpoints: d.write_breakpoints.remove(address),
            ..d
        },
    }
}

/// Whether `before_instruction` at `pc` pauses, and the debugger after it.
pub open spec fn spec_before_instruction(d: DebuggerView, pc: u32) -> (DebuggerView, bool) {
    let d1 = DebuggerView { instruction_count: (d.instruction_count + 1) as u64, ..d };
    if stops_at(d.exec_breakpoints, pc) {
        (DebuggerView {
            exec_breakpoints: after_check(d.exec_breakpoints, pc),
            state: ExecutionState::BreakpointHit { address: pc },
            ..d1
        }, true)
    } else {
        match d.state {
            ExecutionState::Stepping => (DebuggerView { state: ExecutionState::Paused, ..d1 }, true),
            ExecutionState::SteppingOver => {
                if d.step_over_target == Some(pc) {
                    (DebuggerView { state: ExecutionState::Paused, step_over_target: None, ..d1 }, true)
                } else {
                    (d1, false)
                }
            },
            ExecutionState::SteppingOut => {
                if d.step_out_depth is Some && d.call_stack.len() < d.step_out_depth->0 {
                    (DebuggerView { state: ExecutionState::Paused, step_out_depth: None, ..d1 }, true)
                } else {
                    (d1, false)
                }
            },
            _ => (d1, false),
        }
    }
}

/// An execution breakpoint, once added, stops execution at its address:
/// the next `before_instruction` there pauses with `BreakpointHit`, counts
/// one hit and one instruction.
pub proof fn law_exec_breakpoint_stops(d: DebuggerView, address: u32)
    requires
        d.instruction_count < u64::MAX,
    ensures
        ({
            let (d2, paused) = spec_before_instruction(spec_add_breakpoint(d, address, BreakpointType::Execute), address);
            &&& paused
            &&& d2.state == ExecutionState::BreakpointHit { address }
            &&& d2.exec_breakpoints[address].hit_count == 1
            &&& d2.instruction_count == d.instruction_count + 1
        }),
{
}

/// A removed execution breakpoint no longer stops execution, and removing
/// leaves the breakpoints at every other address as they were.
pub proof fn law_removed_breakpoint_does_not_stop(d: DebuggerView, address: u32, other: u32)
    requires
        other != address,
    ensures
        !stops_at(spec_remove_breakpoint(d, address, BreakpointType::Execute).exec_breakpoints, address),
        spec_remove_breakpoint(d, address, BreakpointType::Execute).exec_breakpoints.contains_key(other)
            == d.exec_breakpoints.contains_key(other),
{
}

/// Adding then removing a breakpoint at an address that had none gives back
/// the debugger as it was.
pub proof fn law_add_then_remove(d: DebuggerView, address: u32, t: BreakpointType)
    requires
        !d.exec_breakpoints.contains_key(address),
        !d.read_breakpoints.contains_key(address),
        !d.write_breakpoints.contains_key(address),
    ensures
        spec_remove_breakpoint(spec_add_breakpoint(d, address, t), address, t) == d,
{
    let d2 = spec_remove_breakpoint(spec_add_breakpoint(d, address, t), address, t);
    assert(d2.exec_breakpoints =~= d.exec_breakpoints);
    assert(d2.read_breakpoints =~= d.read_breakpoints);
    assert(d2.write_breakpoints =~= d.write_breakpoints);
}

/// A memory-access breakpoint stops both reads and writes at its address.
pub proof fn law_access_breakpoint_covers_reads_and_writes(d: DebuggerView, address: u32)
    ensures
        stops_at(spec_add_breakpoint(d, address, BreakpointType::MemoryAccess).read_breakpoints, address),
        stops_at(spec_add_breakpoint(d, address, BreakpointType::MemoryAccess).write_breakpoints, address),
{
}

/// Stepping pauses after exactly one instruction when no breakpoint
/// intervenes.
pub proof fn law_step_into_pauses_after_one(d: DebuggerView, pc: u32)
    requires
        !stops_at(d.exec_breakpoints, pc),
    ensures
        ({
            let (d2, paused) = spec_before_instruction(DebuggerView { state: ExecutionState::Stepping, ..d }, pc);
            paused && d2.state == ExecutionState::Paused
        }),
{
}

/// Step over pauses when execution reaches the instruction after the one it
/// was issued at, and not before: at any other instruction (without a
/// breakpoint) it counts the instruction and keeps stepping over, so a later
/// arrival at the target still pauses.
pub proof fn law_step_over_stops_at_next(d: DebuggerView, current_pc: u32, pc: u32)
    requires
        current_pc <= u32::MAX - 4,
        !stops_at(d.exec_breakpoints, pc),
    ensures
        ({
            let d1 = DebuggerView {
                state: ExecutionState::SteppingOver,
                step_over_target: Some((current_pc + 4) as u32),
                ..d
            };
            let (d2, paused) = spec_before_instruction(d1, pc);
            &&& paused == (pc == current_pc + 4)
            &&& paused ==> d2.state == ExecutionState::Paused && d2.step_over_target is None
            &&& !paused ==> d2 == (DebuggerView { instruction_count: (d.instruction_count + 1) as u64, ..d1 })
            &&& !paused && !stops_at(d.exec_breakpoints, (current_pc + 4) as u32) ==> spec_before_instruction(
                d2,
                (current_pc + 4) as u32,
            ).1
        }),
{
}

/// The debugger after it saw each of `pcs` in turn, and whether any of
/// them held execution.
pub open spec fn see_all(d: DebuggerView, pcs: Seq<u32>) -> (DebuggerView, bool)
    decreases pcs.len(),
{
    if pcs.len() == 0 {
        (d, false)
    } else {
        let (d1, p1) = see_all(d, pcs.drop_last());
        let (d2, p2) = spec_before_instruction(d1, pcs.last());
        (d2, p1 || p2)
    }
}

/// After a step over at `current_pc`, any run of instructions elsewhere
/// (without breakpoints) leaves the debugger stepping over towards
/// `current_pc + 4` without pausing; the instruction there then pauses it.
pub proof fn law_step_over_pauses_only_at_next(d: DebuggerView, current_pc: u32, pcs: Seq<u32>)
    requires
        current_pc <= u32::MAX - 4,
        forall|i: int| 0 <= i < pcs.len() ==> #[trigger] pcs[i] != current_pc + 4 && !stops_at(d.exec_breakpoints, pcs[i]),
        !stops_at(d.exec_breakpoints, (current_pc + 4) as u32),
    ensures
        ({
            let d1 = DebuggerView {
                state: ExecutionState::SteppingOver,
                step_over_target: Some((current_pc + 4) as u32),
                ..d
            };
            let (d2, paused) = see_all(d1, pcs);
            let (d3, paused3) = spec_before_instruction(d2, (current_pc + 4) as u32);
            &&& !paused
            &&& d2.state == ExecutionState::SteppingOver
            &&& d2.step_over_target == Some((current_pc + 4) as u32)
            &&& d2.exec_breakpoints == d.exec_breakpoints
            &&& paused3
            &&& d3.state == ExecutionState::Paused
        }),
    decreases pcs.len(),
{
    if pcs.len() > 0 {
        let rest = pcs.drop_last();
        assert forall|i: int| 0 <= i < rest.len() implies #[trigger] rest[i] != current_pc + 4 && !stops_at(d.exec_breakpoints, rest[i]) by {
            assert(rest[i] == pcs[i]);
        }
        law_step_over_pauses_only_at_next(d, current_pc, rest);
        assert(pcs.last() == pcs[pcs.len() - 1]);
    }
}

/// Step out pauses once the call stack is shallower than when it was
/// issued: after one tracked return from a non-empty stack.
pub proof fn law_step_out_stops_after_return(d: DebuggerView, pc: u32)
    requires
        d.call_stack.len() > 0,
        d.call_stack.len() <= usize::MAX,
        !stops_at(d.exec_breakpoints, pc),
    ensures
        ({
            let d1 = DebuggerView {
                state: ExecutionState::SteppingOut,
                step_out_depth: Some(d.call_stack.len() as usize),
                ..d
            };
            let d2 = DebuggerView { call_stack: d1.call_stack.drop_last(), ..d1 };
            let (d3, paused) = spec_before_instruction(d2, pc);
            paused && d3.state == ExecutionState::Paused && d3.step_out_depth is None
        }),
{
}

/// While running with no breakpoint at `pc`, `before_instruction` never
/// pauses and only counts the instruction.
pub proof fn law_running_does_not_pause(d: DebuggerView, pc: u32)
    requires
        d.state == ExecutionState::Running,
        !stops_at(d.exec_breakpoints, pc),
    ensures
        ({
            let (d2, paused) = spec_before_instruction(d, pc);
            !paused && d2 == DebuggerView { instruction_count: (d.instruction_count + 1) as u64, ..d }
        }),
{
}

/// System debugger
pub struct Debugger {
    state: ExecutionState,
    exec_breakpoints: HashMap<u32, Breakpoint>,
    mem_read_breakpoints: HashMap<u32, Breakpoint>,
    mem_write_breakpoints: HashMap<u32, Breakpoint>,
    call_stack: Vec<StackFrame>,
    step_over_target: Option<u32>,
    step_out_depth: Option<usize>,
    instruction_count: u64,
}

impl View for Debugger {
    type V = DebuggerView;

    closed spec fn view(&self) -> DebuggerView {
        DebuggerView {
            state: self.state,
            exec_breakpoints: self.exec_breakpoints@,
            read_breakpoints: self.mem_read_breakpoints@,
            write_breakpoints: self.mem_write_breakpoints@,
            call_stack: self.call_stack@,
            step_over_target: self.step_over_target,
            step_out_depth: self.step_out_depth,
            instruction_count: self.instruction_count,
        }
    }
}

/// Check one breakpoint map at `address`, counting a hit on an enabled
/// breakpoint.
fn check_map(m: &mut HashMap<u32, Breakpoint>, address: u32) -> (r: bool)
    requires
        stops_at(old(m)@, address) ==> old(m)@[address].hit_count < u32::MAX,
    ensures
        r == stops_at(old(m)@, address),
        final(m)@ == after_check(old(m)@, address),
{
    match m.remove(&address) {
        Some(bp) => {
            if bp.enabled {
                let mut bp = bp;
                bp.hit_count = bp.hit_count + 1;
                m.insert(address, bp);
                proof {
                    assert(final(m)@ =~= after_check(old(m)@, address));
                }
                true
            } else {
                m.insert(address, bp);
                proof {
                    assert(final(m)@ =~= old(m)@);
                }
                false
            }
        },
        None => false,
    }
}


/// The breakpoints of `m`, one per key, in the order of `keys`.
pub open spec fn breakpoints_of(m: Map<u32, Breakpoint>, keys: Seq<u32>) -> Seq<Breakpoint> {
    keys.map_values(|k: u32| m[k])
}

/// `keys` lists each key of `m` exactly once.
pub open spec fn lists_keys(m: Map<u32, Breakpoint>, keys: Seq<u32>) -> bool {
    keys.no_duplicates() && keys.to_set() == m.dom()
}

/// Append the breakpoints of `m` to `out`, in the map's iteration order.
fn push_breakpoints<'a>(m: &'a HashMap<u32, Breakpoint>, out: &mut Vec<&'a Breakpoint>)
    ensures
        exists|keys: Seq<u32>|
            lists_keys(m@, keys) && final(out)@.unref() == old(out)@.unref() + breakpoints_of(m@, keys),
{
    let ghost start = out@.unref();
    let ghost refs = vstd::std_specs::hash::spec_keys_iter(m).remaining();
    let ghost keys = refs.unref();
    proof {
        vstd::std_specs::hash::axiom_spec_keys_iter(m);
        assert(keys.no_duplicates()) by {
            assert forall|i: int, j: int| 0 <= i < keys.len() && 0 <= j < keys.len() && i != j
                implies keys[i] != keys[j] by {
                assert(keys[i] == *refs[i] && keys[j] == *refs[j]);
            }
        }
    }
    for k in it: m.keys()
        invariant
            it.seq() == refs,
            keys == refs.unref(),
            out@.unref() == start + breakpoints_of(m@, keys.take(it.index())),
            keys.to_set() == m@.dom(),
    {
        assert(*k == keys[it.index()]);
        assert(keys.take(it.index() + 1) =~= keys.take(it.index()).push(*k));
        assert(keys.to_set().contains(*k));
        let bp = m.get(k).unwrap();
        assert(m@.contains_key(*k) && m@[*k] == *bp);
        let ghost before = out@;
        out.push(bp);
        assert(out@ == before.push(bp));
        assert(out@.unref() =~= before.unref().push(*bp));
        assert(out@.unref() =~= start + breakpoints_of(m@, keys.take(it.index() + 1)));
    }
    assert(keys.take(keys.len() as int) =~= keys);
    assert(lists_keys(m@, keys));
}

impl Debugger {
    /// Create a new debugger
    pub fn new() -> (r: Self)
        ensures
            r@ == (DebuggerView {
                state: ExecutionState::Running,
                exec_breakpoints: Map::empty(),
                read_breakpoints: Map::empty(),
                write_breakpoints: Map::empty(),
                call_stack: Seq::empty(),
                step_over_target: None,
                step_out_depth: None,
                instruction_count: 0,
            }),
    {
        Self {
            state: ExecutionState::Running,
            exec_breakpoints: HashMap::new(),
            mem_read_breakpoints: HashMap::new(),
            mem_write_breakpoints: HashMap::new(),
            call_stack: Vec::new(),
            step_over_target: None,
            step_out_depth: None,
            instruction_count: 0,
        }
    }

    /// Get current execution state
    pub fn state(&self) -> (r: ExecutionState)
        ensures
            r == self@.state,
    {
        self.state
    }

    /// Set execution state
    pub fn set_state(&mut self, state: ExecutionState)
        ensures
            final(self)@ == (DebuggerView { state, ..old(self)@ }),
    {
        self.state = state;
    }

    /// Check if emulator should pause
    pub fn should_pause(&self) -> (r: bool)
        ensures
            r == (self@.state != ExecutionState::Running),
    {
        match self.state {
            ExecutionState::Running => false,
            _ => true,
        }
    }

    /// Resume execution
    pub fn resume(&mut self)
        ensures
            final(self)@ == (DebuggerView { state: ExecutionState::Running, ..old(self)@ }),
    {
        self.state = ExecutionState::Running;
    }

    /// Pause execution
    pub fn pause(&mut self)
        ensures
            final(self)@ == (DebuggerView { state: ExecutionState::Paused, ..old(self)@ }),
    {
        self.state = ExecutionState::Paused;
    }

    /// Step one instruction
    pub fn step_into(&mut self)
        ensures
            final(self)@ == (DebuggerView { state: ExecutionState::Stepping, ..old(self)@ }),
    {
        self.state = ExecutionState::Stepping;
    }

    /// Step over: break at the instruction after `current_pc`.
    pub fn step_over(&mut self, current_pc: u32)
        requires
            current_pc <= u32::MAX - 4,
        ensures
            final(self)@ == (DebuggerView {
                state: ExecutionState::SteppingOver,
                step_over_target: Some((current_pc + 4) as u32),
                ..old(self)@
            }),
    {
        self.step_over_target = Some(current_pc + 4);
        self.state = ExecutionState::SteppingOver;
    }

    /// Step out (run until current function returns)
    pub fn step_out(&mut self)
        ensures
            final(self)@ == (DebuggerView {
                state: ExecutionState::SteppingOut,
                step_out_depth: Some(old(self)@.call_stack.len() as usize),
                ..old(self)@
            }),
    {
        self.step_out_depth = Some(self.call_stack.len());
        self.state = ExecutionState::SteppingOut;
    }

    /// Add a breakpoint; the address doubles as its id.
    pub fn add_breakpoint(&mut self, address: u32, bp_type: BreakpointType) -> (r: usize)
        ensures
            r == address as usize,
            final(self)@ == spec_add_breakpoint(old(self)@, address, bp_type),
    {
        let id = address as usize;
        match bp_type {
            BreakpointType::Execute => {
                self.exec_breakpoints.insert(address, Breakpoint::new(address, bp_type));
            },
            BreakpointType::MemoryRead => {
                self.mem_read_breakpoints.insert(address, Breakpoint::new(address, bp_type));
            },
            BreakpointType::MemoryWrite => {
                self.mem_write_breakpoints.insert(address, Breakpoint::new(address, bp_type));
            },
            BreakpointType::MemoryAccess => {
                self.mem_read_breakpoints.insert(address, Breakpoint::new(address, bp_type));
                self.mem_write_breakpoints.insert(address, Breakpoint::new(address, bp_type));
            },
        }
        proof {
            assert(self@ =~= spec_add_breakpoint(old(self)@, address, bp_type));
        }
        id
    }

    /// Remove breakpoint
    pub fn remove_breakpoint(&mut self, address: u32, bp_type: BreakpointType)
        ensures
            final(self)@ == spec_remove_breakpoint(old(self)@, address, bp_type),
    {
        match bp_type {
            BreakpointType::Execute => {
                self.exec_breakpoints.remove(&address);
            },
            BreakpointType::MemoryRead => {
                self.mem_read_breakpoints.remove(&address);
            },
            BreakpointType::MemoryWrite => {
                self.mem_write_breakpoints.remove(&address);
            },
            BreakpointType::MemoryAccess => {
                self.mem_read_breakpoints.remove(&address);
                self.mem_write_breakpoints.remove(&address);
            },
        }
        proof {
            assert(self@ =~= spec_remove_breakpoint(old(self)@, address, bp_type));
        }
    }

    /// Check if we should break on instruction execution
    pub fn check_exec_breakpoint(&mut self, pc: u32) -> (r: bool)
        requires
            stops_at(old(self)@.exec_breakpoints, pc) ==> old(self)@.exec_breakpoints[pc].hit_count < u32::MAX,
        ensures
            r == stops_at(old(self)@.exec_breakpoints, pc),
            r ==> final(self)@ == (DebuggerView {
                exec_breakpoints: after_check(old(self)@.exec_breakpoints, pc),
                state: ExecutionState::BreakpointHit { address: pc },
                ..old(self)@
            }),
            !r ==> final(self)@ == old(self)@,
    {
        let hit = check_map(&mut self.exec_breakpoints, pc);
        if hit {
            self.state = ExecutionState::BreakpointHit { address: pc };
        }
        proof {
            if !hit {
                assert(self@ =~= old(self)@);
            }
        }
        hit
    }

    /// Check if we should break on memory read
    pub fn check_mem_read_breakpoint(&mut self, address: u32) -> (r: bool)
        requires
            stops_at(old(self)@.read_breakpoints, address) ==> old(self)@.read_breakpoints[address].hit_count < u32::MAX,
        ensures
            r == stops_at(old(self)@.read_breakpoints, address),
            r ==> final(self)@ == (DebuggerView {
                read_breakpoints: after_check(old(self)@.read_breakpoints, address),
                state: ExecutionState::BreakpointHit { address },
                ..old(self)@
            }),
            !r ==> final(self)@ == old(self)@,
    {
        let hit = check_map(&mut self.mem_read_breakpoints, address);
        if hit {
            self.state = ExecutionState::BreakpointHit { address };
        }
        proof {
            if !hit {
                assert(self@ =~= old(self)@);
            }
        }
        hit
    }

    /// Check if we should break on memory write
    pub fn check_mem_write_breakpoint(&mut self, address: u32) -> (r: bool)
        requires
            stops_at(old(self)@.write_breakpoints, address) ==> old(self)@.write_breakpoints[address].hit_count < u32::MAX,
        ensures
            r == stops_at(old(self)@.write_breakpoints, address),
            r ==> final(self)@ == (DebuggerView {
                write_breakpoints: after_check(old(self)@.write_breakpoints, address),
                state: ExecutionState::BreakpointHit { address },
                ..old(self)@
            }),
            !r ==> final(self)@ == old(self)@,
    {
        let hit = check_map(&mut self.mem_write_breakpoints, address);
        if hit {
            self.state = ExecutionState::BreakpointHit { address };
        }
        proof {
            if !hit {
                assert(self@ =~= old(self)@);
            }
        }
        hit
    }

    /// Whether `before_instruction(pc)` can count one more instruction and
    /// one more hit of a breakpoint at `pc`.
    pub fn can_count(&self, pc: u32) -> (r: bool)
        ensures
            r == (self@.instruction_count < u64::MAX && (stops_at(self@.exec_breakpoints, pc) ==> self@.exec_breakpoints[pc].hit_count
                < u32::MAX)),
    {
        if self.instruction_count == u64::MAX {
            return false;
        }
        match self.exec_breakpoints.get(&pc) {
            Some(bp) => !bp.enabled || bp.hit_count < u32::MAX,
            None => true,
        }
    }

    /// Called before executing an instruction; returns true if execution
    /// should pause.
    pub fn before_instruction(&mut self, pc: u32) -> (r: bool)
        requires
            old(self)@.instruction_count < u64::MAX,
            stops_at(old(self)@.exec_breakpoints, pc) ==> old(self)@.exec_breakpoints[pc].hit_count < u32::MAX,
        ensures
            (final(self)@, r) == spec_before_instruction(old(self)@, pc),
    {
        self.instruction_count = self.instruction_count + 1;
        if self.check_exec_breakpoint(pc) {
            return true;
        }
        match self.state {
            ExecutionState::Stepping => {
                self.state = ExecutionState::Paused;
                return true;
            },
            ExecutionState::SteppingOver => {
                if let Some(target) = self.step_over_target {
                    if pc == target {
                        self.state = ExecutionState::Paused;
                        self.step_over_target = None;
                        return true;
                    }
                }
            },
            ExecutionState::SteppingOut => {
                if let Some(depth) = self.step_out_depth {
                    if self.call_stack.len() < depth {
                        self.state = ExecutionState::Paused;
                        self.step_out_depth = None;
                        return true;
                    }
                }
            },
            _ => {},
        }
        false
    }

    /// Track function call (for stack tracking)
    pub fn track_call(&mut self, return_address: u32, stack_pointer: u32, function_address: u32)
        ensures
            final(self)@ == (DebuggerView {
                call_stack: old(self)@.call_stack.push(
                    StackFrame { return_address, stack_pointer, function_address: Some(function_address) },
                ),
                ..old(self)@
            }),
    {
        self.call_stack.push(
            StackFrame { return_address, stack_pointer, function_address: Some(function_address) },
        );
    }

    /// Track function return
    pub fn track_return(&mut self)
        ensures
            final(self)@ == (DebuggerView {
                call_stack: if old(self)@.call_stack.len() == 0 {
                    old(self)@.call_stack
                } else {
                    old(self)@.call_stack.drop_last()
                },
                ..old(self)@
            }),
    {
        self.call_stack.pop();
        proof {
            assert(self@.call_stack =~= if old(self)@.call_stack.len() == 0 {
                old(self)@.call_stack
            } else {
                old(self)@.call_stack.drop_last()
            });
        }
    }

    /// Get call stack
    pub fn call_stack(&self) -> (r: &[StackFrame])
        ensures
            r@ == self@.call_stack,
    {
        self.call_stack.as_slice()
    }

    /// Get all breakpoints: the execution, then the read, then the write
    /// breakpoints, each group in its map's iteration order.
    pub fn breakpoints(&self) -> (r: Vec<&Breakpoint>)
        ensures
            exists|k1: Seq<u32>, k2: Seq<u32>, k3: Seq<u32>|
                lists_keys(self@.exec_breakpoints, k1) && lists_keys(self@.read_breakpoints, k2)
                    && lists_keys(self@.write_breakpoints, k3) && r@.unref() == breakpoints_of(
                    self@.exec_breakpoints,
                    k1,
                ) + breakpoints_of(self@.read_breakpoints, k2) + breakpoints_of(
                    self@.write_breakpoints,
                    k3,
                ),
    {
        let mut out: Vec<&Breakpoint> = Vec::new();
        push_breakpoints(&self.exec_breakpoints, &mut out);
        let ghost o1 = out@.unref();
        push_breakpoints(&self.mem_read_breakpoints, &mut out);
        let ghost o2 = out@.unref();
        push_breakpoints(&self.mem_write_breakpoints, &mut out);
        proof {
            let k1 = choose|keys: Seq<u32>|
                lists_keys(self@.exec_breakpoints, keys) && o1 == Seq::<Breakpoint>::empty()
                    + breakpoints_of(self@.exec_breakpoints, keys);
            let k2 = choose|keys: Seq<u32>|
                lists_keys(self@.read_breakpoints, keys) && o2 == o1 + breakpoints_of(self@.read_breakpoints, keys);
            let k3 = choose|keys: Seq<u32>|
                lists_keys(self@.write_breakpoints, keys) && out@.unref() == o2 + breakpoints_of(
                    self@.write_breakpoints,
                    keys,
                );
            assert(out@.unref() =~= breakpoints_of(self@.exec_breakpoints, k1) + breakpoints_of(
                self@.read_breakpoints,
                k2,
            ) + breakpoints_of(self@.write_breakpoints, k3));
        }
        out
    }

    /// Get instruction count
    pub fn instruction_count(&self) -> (r: u64)
        ensures
            r == self@.instruction_count,
    {
        self.instruction_count
    }
}

} // verus!
