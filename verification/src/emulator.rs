//! The emulator's decisions that do not touch devices or threads: what a
//! step does, how an OpenFirmware client call is read and answered, the
//! ROM device-tree nodes, where the ROM's ELF bootloader loads, and the
//! kind of a disk image.
use vstd::prelude::*;
use vstd::string::StringSliceAdditionalSpecFns;
use crate::bytes::{be32_bytes, be32_vec, concat_bytes, str_bytes};
use crate::cpu::{Cpu, MemoryInterface, bat_upper, bat_lower, bat_length_code, step_outcome, step_accesses};
use crate::exec_result::ExecResult;
use crate::interpreter::FloatUnit;
use crate::registers::{BatEntry, Registers};
use crate::debugger::Debugger;
use crate::error::Error;
use crate::elf::{ElfFile, spec_parse_header, spec_program_headers, spec_load_to_memory, segments_in_range, is_loadable};
use crate::memory::{Memory, MmioDevice, device_at, after_write_in, init_boot_ram, init_stack_frame, spec_boot_ram, spec_stack_frames};
use crate::openfirmware::OpenFirmware;
use crate::openfirmware::forth_model::{ForthState, eval_rest};
use vstd::string::StringExecFns;
use crate::openfirmware::client_interface::{ClientInterface, ServiceResult, service_effect};
use crate::openfirmware::device_tree::{DeviceTree, DeviceNode, is_root_path};
use crate::openfirmware::node_is;
use crate::bytes::{find_from, rfind_from, find_bytes, rfind_bytes, copy_range, lemma_find_from, lemma_rfind_from};
use crate::text::{hex8, hex8_chars};
use crate::rom::{Rom, RomType, spec_find_elf_offset, spec_boot_script, ws_len, skip_ws, is_hex_digit, hex_value, hex_prefix, hex_digit_value, is_hex_byte, hex_byte_value, lemma_hex_value_mono};

verus! {

/// Where the OpenFirmware client interface stub lies: a call to it traps
/// into the emulator.
pub const OF_CLIENT_INTERFACE_OFFSET: u32 = 0x3000;

/// Framebuffer base address.
pub const FRAMEBUFFER_BASE_ADDR: u32 = 0x0080_0000;

/// MESH SCSI controller base address.
pub const MESH_SCSI_BASE_ADDR: u32 = 0xF300_0000;

/// MESH SCSI controller register window size.
pub const MESH_SCSI_SIZE: u32 = 0x1000;

/// High memory I/O space base.
pub const HIGH_MEM_IO_BASE: u32 = 0xFFFF_0000;

/// High memory I/O space size.
pub const HIGH_MEM_IO_SIZE: u32 = 0x10000;

/// How the emulator runs the CPU.
#[derive(Debug, Clone, Copy, PartialEq, Eq, Structural)]
pub enum EmulatorMode {
    /// Single-threaded mode (CPU runs in main thread)
    SingleThreaded,
    /// Multi-threaded mode (CPU runs in dedicated thread)
    MultiThreaded,
}

/// What to do for the instruction at the program counter.
#[derive(Debug, Clone, Copy, PartialEq, Eq, Structural)]
pub enum StepAction {
    /// The debugger holds execution here.
    Pause,
    /// The instruction is the OpenFirmware client interface stub: answer
    /// the client call.
    ClientCall,
    /// Execute the instruction.
    Execute,
}

/// Decide what to do for the instruction at `pc` in single-threaded mode:
/// the debugger, when on, sees it first and may hold execution; a call to
/// the client interface stub is answered when OpenFirmware is present;
/// anything else executes.
pub fn next_step_action(debugger: &mut Option<Debugger>, openfirmware_present: bool, pc: u32) -> (r: StepAction)
    requires
        (*old(debugger)) matches Some(d) ==> d@.instruction_count < u64::MAX && (crate::debugger::stops_at(
            d@.exec_breakpoints,
            pc,
        ) ==> d@.exec_breakpoints[pc].hit_count < u32::MAX),
    ensures
        match *old(debugger) {
            Some(d) => (*final(debugger)) matches Some(d2) && d2@ == crate::debugger::spec_before_instruction(d@, pc).0
                && if crate::debugger::spec_before_instruction(d@, pc).1 {
                r == StepAction::Pause
            } else if openfirmware_present && pc == OF_CLIENT_INTERFACE_OFFSET {
                r == StepAction::ClientCall
            } else {
                r == StepAction::Execute
            },
            None => (*final(debugger)) is None && if openfirmware_present && pc == OF_CLIENT_INTERFACE_OFFSET {
                r == StepAction::ClientCall
            } else {
                r == StepAction::Execute
            },
        },
{
    match debugger.take() {
        Some(mut d) => {
            let pause = d.before_instruction(pc);
            *debugger = Some(d);
            if pause {
                return StepAction::Pause;
            }
        },
        None => {},
    }
    if openfirmware_present && pc == OF_CLIENT_INTERFACE_OFFSET {
        StepAction::ClientCall
    } else {
        StepAction::Execute
    }
}

/// A client interface call as read from the caller's argument block.
#[derive(Debug, Clone)]
pub struct ClientCall {
    /// The service name
    pub service: String,
    /// The input arguments
    pub args: Vec<u32>,
    /// The strings some arguments point at, read out for the service
    pub string_args: Vec<String>,
    /// How many return values the caller expects
    pub n_returns: u32,
    /// Where the return values go
    pub returns_addr: u32,
}

/// What was found at a client call's argument block.
#[derive(Debug, Clone)]
pub enum CallRead {
    /// The service name pointer is null; the call is ignored.
    NullService,
    /// The service name is empty; the call is ignored.
    EmptyService,
    /// A call to answer.
    Call(ClientCall),
}

/// `a + b`, wrapping at 32 bits as release builds do.
pub open spec fn wadd(a: u32, b: int) -> u32 {
    ((a + b) % 0x1_0000_0000) as u32
}

/// Reading the bytes at `ptr`, `ptr + 1`, ... (wrapping) can give `bytes`.
pub open spec fn reads_bytes<M: MemoryInterface>(mem: &M, ptr: u32, bytes: Seq<u8>) -> bool {
    forall|i: int| 0 <= i < bytes.len() ==> #[trigger] mem.reads_u8(wadd(ptr, i), Ok::<u8, Error>(bytes[i]))
}

/// No byte of `bytes` is NUL.
pub open spec fn no_nul(bytes: Seq<u8>) -> bool {
    forall|i: int| 0 <= i < bytes.len() ==> #[trigger] bytes[i] != 0
}

/// What reading a C string at `ptr` can give: the text of the bytes before
/// the NUL (at most 257 of them, after which reading stops), or the error
/// of the first byte read that failed.
pub open spec fn cstring_read<M: MemoryInterface>(mem: &M, ptr: u32, r: Result<String, Error>) -> bool {
    match r {
        Ok(s) => exists|bytes: Seq<u8>| #[trigger] reads_bytes(mem, ptr, bytes) && no_nul(bytes) && bytes.len() <= 257
            && (bytes.len() == 257 || mem.reads_u8(wadd(ptr, bytes.len() as int), Ok::<u8, Error>(0u8)))
            && s@ == crate::text::utf8_lossy(bytes),
        Err(e) => exists|bytes: Seq<u8>| #[trigger] reads_bytes(mem, ptr, bytes) && no_nul(bytes) && bytes.len() <= 256
            && mem.reads_u8(wadd(ptr, bytes.len() as int), Err::<u8, Error>(e)),
    }
}

/// `a.wrapping_add(b)` is `a + b` modulo 2^32.
pub proof fn lemma_wrapping_add(a: u32, b: u32)
    ensures
        a.wrapping_add(b) == wadd(a, b as int),
{
    if a as int + b as int > u32::MAX as int {
        assert(((a + b) % 0x1_0000_0000) == a + b - 0x1_0000_0000);
    } else {
        assert(((a + b) % 0x1_0000_0000) == a + b);
    }
}

/// Read a NUL-terminated C string of at most 257 bytes from memory.
pub fn read_cstring<M: MemoryInterface>(mem: &M, ptr: u32) -> (r: Result<String, Error>)
    ensures
        cstring_read(mem, ptr, r),
{
    let mut bytes: Vec<u8> = Vec::new();
    let mut offset: u32 = 0;
    loop
        invariant_except_break
            bytes@.len() == offset,
        invariant
            offset <= 256,
            reads_bytes(mem, ptr, bytes@),
            no_nul(bytes@),
        ensures
            bytes@.len() <= 257,
            reads_bytes(mem, ptr, bytes@),
            no_nul(bytes@),
            bytes@.len() == 257 || mem.reads_u8(wadd(ptr, bytes@.len() as int), Ok::<u8, Error>(0u8)),
        decreases 256 - offset,
    {
        let rd = mem.read_u8(ptr.wrapping_add(offset));
        proof {
            lemma_wrapping_add(ptr, offset);
        }
        let byte = match rd {
            Ok(b) => b,
            Err(e) => {
                assert(reads_bytes(mem, ptr, bytes@));
                return Err(e);
            },
        };
        if byte == 0 {
            break;
        }
        let ghost prev = bytes@;
        bytes.push(byte);
        assert forall|i: int| 0 <= i < bytes@.len() implies #[trigger] mem.reads_u8(wadd(ptr, i), Ok::<u8, Error>(bytes@[i])) by {
            if i < offset {
                assert(bytes@[i] == prev[i]);
            }
        }
        if offset >= 256 {
            break;
        }
        offset = offset + 1;
    }
    let s = crate::text::string_from_utf8_lossy(bytes.as_slice());
    Ok(s)
}

/// How many strings a service takes from memory, and which argument each
/// comes from: `finddevice` and `call-method` read the first argument,
/// `getprop` and `getproplen` the second (after an empty placeholder), and
/// `write` the buffer its second and third arguments describe.
pub open spec fn string_arg_count(service: Seq<char>, n_args: int) -> int {
    if service == "finddevice"@ && n_args >= 1 {
        1
    } else if (service == "getprop"@ || service == "getproplen"@) && n_args >= 2 {
        2
    } else if service == "write"@ && n_args >= 3 {
        1
    } else if service == "call-method"@ && n_args >= 1 {
        1
    } else {
        0
    }
}

/// The number of bytes of a `write` buffer that are read: the length
/// asked for, at most 4096.
pub open spec fn write_len(n: u32) -> int {
    if n < 4096 { n as int } else { 4096 }
}

/// The C string the first argument points to, as the one string argument.
pub open spec fn first_cstring_read<M: MemoryInterface>(mem: &M, args: Seq<u32>, r: Result<Vec<String>, Error>) -> bool {
    match r {
        Ok(v) => v@.len() == 1 && cstring_read(mem, args[0], Ok::<String, Error>(v@[0])),
        Err(e) => cstring_read(mem, args[0], Err::<String, Error>(e)),
    }
}

/// What reading the string arguments of `service` with arguments `args` can
/// give: the C string the first argument points to (`finddevice`,
/// `call-method`); an empty string and the C string the second argument
/// points to (`getprop`, `getproplen`); for `write`, the text of the bytes
/// of the buffer the second argument points to, as many as the third asks
/// for (at most 4096), up to the first read that fails; and no string
/// otherwise. A failed C string read fails the whole.
pub open spec fn string_args_read<M: MemoryInterface>(mem: &M, service: Seq<char>, args: Seq<u32>, r: Result<Vec<String>, Error>) -> bool {
    if service == "finddevice"@ && args.len() >= 1 {
        first_cstring_read(mem, args, r)
    } else if (service == "getprop"@ || service == "getproplen"@) && args.len() >= 2 {
        match r {
            Ok(v) => v@.len() == 2 && v@[0]@.len() == 0 && cstring_read(mem, args[1], Ok::<String, Error>(v@[1])),
            Err(e) => cstring_read(mem, args[1], Err::<String, Error>(e)),
        }
    } else if service == "write"@ && args.len() >= 3 {
        r matches Ok(v) && v@.len() == 1 && exists|bytes: Seq<u8>| #[trigger] reads_bytes(mem, args[1], bytes)
            && bytes.len() <= write_len(args[2]) && v@[0]@ == crate::text::utf8_lossy(bytes)
            && (bytes.len() == write_len(args[2]) || exists|e: Error| mem.reads_u8(wadd(args[1], bytes.len() as int), Err::<u8, Error>(e)))
    } else if service == "call-method"@ && args.len() >= 1 {
        first_cstring_read(mem, args, r)
    } else {
        r matches Ok(v) && v@.len() == 0
    }
}

/// Read the string arguments of a service from memory.
pub fn read_string_args<M: MemoryInterface>(mem: &M, service: &str, args: &[u32]) -> (r: Result<Vec<String>, Error>)
    ensures
        r matches Ok(v) ==> v@.len() == string_arg_count(service@, args@.len() as int),
        string_args_read(mem, service@, args@, r),
{
    let mut strings: Vec<String> = Vec::new();
    if crate::text::str_eq(service, "finddevice") && args.len() >= 1 {
        match read_cstring(mem, args[0]) {
            Ok(s) => strings.push(s),
            Err(e) => return Err(e),
        }
    } else if (crate::text::str_eq(service, "getprop") || crate::text::str_eq(service, "getproplen")) && args.len() >= 2 {
        strings.push(String::new());
        match read_cstring(mem, args[1]) {
            Ok(s) => strings.push(s),
            Err(e) => return Err(e),
        }
    } else if crate::text::str_eq(service, "write") && args.len() >= 3 {
        let buf_ptr = args[1];
        let len = if args[2] < 4096 {
            args[2]
        } else {
            4096
        };
        let mut bytes: Vec<u8> = Vec::new();
        let mut i: u32 = 0;
        while i < len
            invariant_except_break
                bytes@.len() == i,
            invariant
                i <= len,
                len == write_len(args@[2]),
                buf_ptr == args@[1],
                reads_bytes(mem, buf_ptr, bytes@),
                bytes@.len() <= len,
            ensures
                bytes@.len() == len || exists|e: Error| mem.reads_u8(wadd(buf_ptr, bytes@.len() as int), Err::<u8, Error>(e)),
            decreases len - i,
        {
            let rd = mem.read_u8(buf_ptr.wrapping_add(i));
            proof {
                lemma_wrapping_add(buf_ptr, i);
            }
            match rd {
                Ok(b) => {
                    let ghost prev = bytes@;
                    bytes.push(b);
                    assert forall|k: int| 0 <= k < bytes@.len() implies #[trigger] mem.reads_u8(wadd(buf_ptr, k), Ok::<u8, Error>(bytes@[k])) by {
                        if k < i {
                            assert(bytes@[k] == prev[k]);
                        }
                    }
                },
                Err(e) => {
                    assert(mem.reads_u8(wadd(buf_ptr, bytes@.len() as int), Err::<u8, Error>(e)));
                    break;
                },
            }
            i = i + 1;
        }
        strings.push(crate::text::string_from_utf8_lossy(bytes.as_slice()));
    } else if crate::text::str_eq(service, "call-method") && args.len() >= 1 {
        match read_cstring(mem, args[0]) {
            Ok(s) => strings.push(s),
            Err(e) => return Err(e),
        }
    }
    Ok(strings)
}

/// Reading the word at `a` can succeed.
pub open spec fn word_readable<M: MemoryInterface>(mem: &M, a: u32) -> bool {
    exists|w: u32| #[trigger] mem.reads_u32(a, Ok::<u32, Error>(w))
}

/// The address of argument `i` in the argument block at `p`.
pub open spec fn arg_addr(p: u32, i: int) -> u32 {
    wadd(p, 12 + 4 * i)
}

/// `e` is an error that some word or byte read can give.
pub open spec fn read_error<M: MemoryInterface>(mem: &M, e: Error) -> bool {
    exists|a: u32|
        #![trigger mem.reads_u32(a, Err::<u32, Error>(e))]
        #![trigger mem.reads_u8(a, Err::<u8, Error>(e))]
        mem.reads_u32(a, Err::<u32, Error>(e)) || mem.reads_u8(a, Err::<u8, Error>(e))
}

/// What reading the client call at `p` can give: a null or empty service
/// name after reading the three header words (and the name), or the call
/// with the arguments, counts and strings read from memory; an error is one
/// that a read gave.
pub open spec fn client_call_read<M: MemoryInterface>(mem: &M, p: u32, r: Result<CallRead, Error>) -> bool {
    match r {
        Ok(CallRead::NullService) => mem.reads_u32(p, Ok::<u32, Error>(0u32)) && word_readable(mem, wadd(p, 4))
            && word_readable(mem, wadd(p, 8)),
        Ok(CallRead::EmptyService) => exists|sp: u32, s: String| sp != 0 && #[trigger] mem.reads_u32(p, Ok::<u32, Error>(sp))
            && word_readable(mem, wadd(p, 4)) && word_readable(mem, wadd(p, 8)) && s@.len() == 0
            && #[trigger] cstring_read(mem, sp, Ok::<String, Error>(s)),
        Ok(CallRead::Call(c)) => exists|sp: u32| sp != 0 && #[trigger] mem.reads_u32(p, Ok::<u32, Error>(sp))
            && mem.reads_u32(wadd(p, 4), Ok::<u32, Error>(c.args@.len() as u32))
            && mem.reads_u32(wadd(p, 8), Ok::<u32, Error>(c.n_returns))
            && cstring_read(mem, sp, Ok::<String, Error>(c.service))
            && (forall|i: int| 0 <= i < c.args@.len() ==> #[trigger] mem.reads_u32(arg_addr(p, i), Ok::<u32, Error>(c.args@[i])))
            && string_args_read(mem, c.service@, c.args@, Ok::<Vec<String>, Error>(c.string_args)),
        Err(e) => read_error(mem, e),
    }
}

/// A C string read that failed failed with an error of a byte read.
proof fn lemma_cstring_error<M: MemoryInterface>(mem: &M, ptr: u32, e: Error)
    requires
        cstring_read(mem, ptr, Err::<String, Error>(e)),
    ensures
        read_error(mem, e),
{
    let bytes = choose|bytes: Seq<u8>| #[trigger] reads_bytes(mem, ptr, bytes) && no_nul(bytes) && bytes.len() <= 256
        && mem.reads_u8(wadd(ptr, bytes.len() as int), Err::<u8, Error>(e));
    let a = wadd(ptr, bytes.len() as int);
    assert(mem.reads_u8(a, Err::<u8, Error>(e)));
}

/// Read a client interface call from the argument block at `args_ptr`:
/// the service name pointer, the argument and return counts, then the
/// arguments; the return values follow the arguments.
pub fn read_client_call<M: MemoryInterface>(mem: &M, args_ptr: u32) -> (r: Result<CallRead, Error>)
    ensures
        r matches Ok(CallRead::Call(c)) ==> c.service@.len() > 0 && c.returns_addr == wadd(args_ptr, (12 + 4 * c.args@.len()) as int)
            && c.string_args@.len() == string_arg_count(c.service@, c.args@.len() as int) && c.args@.len() <= u32::MAX,
        client_call_read(mem, args_ptr, r),
{
    let r0 = mem.read_u32(args_ptr);
    let service_ptr = match r0 {
        Ok(v) => v,
        Err(e) => {
            assert(mem.reads_u32(args_ptr, Err::<u32, Error>(e)));
            return Err(e);
        },
    };
    let r1 = mem.read_u32(args_ptr.wrapping_add(4));
    proof {
        lemma_wrapping_add(args_ptr, 4);
    }
    let n_args = match r1 {
        Ok(v) => v,
        Err(e) => {
            assert(mem.reads_u32(wadd(args_ptr, 4), Err::<u32, Error>(e)));
            return Err(e);
        },
    };
    let r2 = mem.read_u32(args_ptr.wrapping_add(8));
    proof {
        lemma_wrapping_add(args_ptr, 8);
    }
    let n_returns = match r2 {
        Ok(v) => v,
        Err(e) => {
            assert(mem.reads_u32(wadd(args_ptr, 8), Err::<u32, Error>(e)));
            return Err(e);
        },
    };
    assert(word_readable(mem, wadd(args_ptr, 4)));
    assert(word_readable(mem, wadd(args_ptr, 8)));
    if service_ptr == 0 {
        return Ok(CallRead::NullService);
    }
    let rs = read_cstring(mem, service_ptr);
    let service = match rs {
        Ok(s) => s,
        Err(e) => {
            proof {
                lemma_cstring_error(mem, service_ptr, e);
            }
            return Err(e);
        },
    };
    if service.as_str().is_empty() {
        assert(cstring_read(mem, service_ptr, Ok::<String, Error>(service)));
        return Ok(CallRead::EmptyService);
    }
    let mut args: Vec<u32> = Vec::new();
    let mut i: u32 = 0;
    while i < n_args
        invariant
            i <= n_args,
            args@.len() == i,
            forall|k: int| 0 <= k < args@.len() ==> #[trigger] mem.reads_u32(arg_addr(args_ptr, k), Ok::<u32, Error>(args@[k])),
        decreases n_args - i,
    {
        let off = 12u32.wrapping_add(i.wrapping_mul(4));
        let addr = args_ptr.wrapping_add(off);
        assert(addr == ((args_ptr + (12 + 4 * i)) % 0x1_0000_0000) as u32) by (bit_vector)
            requires
                addr == args_ptr.wrapping_add(12u32.wrapping_add(i.wrapping_mul(4)));
        assert(addr == arg_addr(args_ptr, i as int));
        let ra = mem.read_u32(addr);
        match ra {
            Ok(v) => {
                let ghost prev = args@;
                args.push(v);
                assert forall|k: int| 0 <= k < args@.len() implies #[trigger] mem.reads_u32(arg_addr(args_ptr, k), Ok::<u32, Error>(args@[k])) by {
                    if k < i {
                        assert(args@[k] == prev[k]);
                    }
                }
            },
            Err(e) => {
                assert(mem.reads_u32(addr, Err::<u32, Error>(e)));
                return Err(e);
            },
        }
        i = i + 1;
    }
    let rsa = read_string_args(mem, service.as_str(), args.as_slice());
    let string_args = match rsa {
        Ok(v) => v,
        Err(e) => {
            proof {
                let ss = service@;
                if ss == "finddevice"@ && args@.len() >= 1 {
                    lemma_cstring_error(mem, args@[0], e);
                } else if (ss == "getprop"@ || ss == "getproplen"@) && args@.len() >= 2 {
                    lemma_cstring_error(mem, args@[1], e);
                } else if ss == "write"@ && args@.len() >= 3 {
                } else if ss == "call-method"@ && args@.len() >= 1 {
                    lemma_cstring_error(mem, args@[0], e);
                }
            }
            return Err(e);
        },
    };
    let returns_addr = args_ptr.wrapping_add(12u32.wrapping_add(n_args.wrapping_mul(4)));
    assert(returns_addr == ((args_ptr + (12 + 4 * n_args)) % 0x1_0000_0000) as u32) by (bit_vector)
        requires
            returns_addr == args_ptr.wrapping_add(12u32.wrapping_add(n_args.wrapping_mul(4)));
    let c = ClientCall { service, args, string_args, n_returns, returns_addr };
    assert(mem.reads_u32(wadd(args_ptr, 4), Ok::<u32, Error>(c.args@.len() as u32)));
    Ok(CallRead::Call(c))
}

/// What answering a client call does outside the client interface.
#[derive(Debug, Clone)]
pub struct ClientAnswer {
    /// Text a `write` call shows on the console
    pub console_text: Option<String>,
    /// Bytes the service writes to the caller's memory
    pub memory_write: Option<(u32, Vec<u8>)>,
    /// Return values and where each goes
    pub return_writes: Vec<(u32, u32)>,
}

/// The return values written back: as many of the service's values as
/// the caller expects, one word each from `returns_addr` on.
pub open spec fn return_writes_of(values: Seq<u32>, n_returns: u32, returns_addr: u32) -> Seq<(u32, u32)> {
    let n = if values.len() < n_returns { values.len() as int } else { n_returns as int };
    Seq::new(n as nat, |i: int| (wadd(returns_addr, 4 * i), values[i]))
}

/// `text` is what a `write` call shows on the console, or nothing for
/// another call.
pub open spec fn console_of(call: ClientCall, text: Option<String>) -> bool {
    if call.service@ == "write"@ && call.string_args@.len() > 0 {
        text matches Some(t) && t@ == call.string_args@[0]@
    } else {
        text is None
    }
}

/// `ans` answers `call` through the client interface `ci0`, which becomes
/// `ci1`, over the device tree `tree`: the service's effect, its bytes and
/// its return values.
pub open spec fn present_answer(ci0: ClientInterface, ci1: ClientInterface, tree: DeviceTree, call: ClientCall, ans: ClientAnswer) -> bool {
    &&& console_of(call, ans.console_text)
    &&& exists|res: ServiceResult| #[trigger] service_effect(ci0, ci1, tree, call.service@, call.args@, call.string_args@, res)
        && ans.return_writes@ == return_writes_of(res.returns@, call.n_returns, call.returns_addr)
        && (match res.memory_write {
            Some((a, d)) => ans.memory_write matches Some((a2, d2)) && a2 == a && d2@ == d@,
            None => ans.memory_write is None,
        })
}

/// `ans` answers `call` without OpenFirmware: the single return value -1.
pub open spec fn absent_answer(call: ClientCall, ans: ClientAnswer) -> bool {
    &&& console_of(call, ans.console_text)
    &&& ans.memory_write is None
    &&& ans.return_writes@ == return_writes_of(seq![0xFFFF_FFFFu32], call.n_returns, call.returns_addr)
}

/// A claim in `call` would take the client interface's arithmetic beyond
/// 32 bits, or the client interface has no handle left to give.
pub open spec fn call_out_of_range(ci: ClientInterface, call: ClientCall) -> bool {
    ||| ci.handles().len() >= 0xFFFF_FFFF
    ||| call.service@ == "claim"@ && call.args@.len() >= 3 && !ci.claim_fits(call.args@[0], call.args@[1], call.args@[2])
    ||| call.service@ == "call-method"@ && call.string_args@.len() > 0 && call.args@.len() >= 5 && call.string_args@[0]@ == "claim"@
        && !ci.claim_fits(call.args@[2], call.args@[3], call.args@[4])
}

/// Answer a client interface call: run the service (or fail with -1 when
/// OpenFirmware is absent) and say what to write back.
pub fn answer_client_call(
    ci: &mut ClientInterface,
    dt: &mut DeviceTree,
    openfirmware_present: bool,
    call: &ClientCall,
) -> (r: ClientAnswer)
    requires
        old(ci).wf(),
        openfirmware_present ==> old(ci).handles().len() < u32::MAX,
        openfirmware_present && call.service@ == "claim"@ && call.args@.len() >= 3 ==> old(ci).claim_fits(call.args@[0], call.args@[1], call.args@[2]),
        openfirmware_present && call.service@ == "call-method"@ && call.string_args@.len() > 0 && call.args@.len() >= 5 && call.string_args@[0]@
            == "claim"@ ==> old(ci).claim_fits(call.args@[2], call.args@[3], call.args@[4]),
    ensures
        final(ci).wf(),
        *final(dt) == *old(dt),
        (call.service@ == "write"@ && call.string_args@.len() > 0) ==> (r.console_text matches Some(t) && t@ == call.string_args@[0]@),
        !(call.service@ == "write"@ && call.string_args@.len() > 0) ==> r.console_text is None,
        openfirmware_present ==> exists|res: ServiceResult| service_effect(*old(ci), *final(ci), *old(dt), call.service@, call.args@, call.string_args@, res)
            && r.return_writes@ == return_writes_of(res.returns@, call.n_returns, call.returns_addr)
            && (match res.memory_write {
                Some((a, d)) => r.memory_write matches Some((a2, d2)) && a2 == a && d2@ == d@,
                None => r.memory_write is None,
            }),
        !openfirmware_present ==> *final(ci) == *old(ci) && r.memory_write is None
            && r.return_writes@ == return_writes_of(seq![0xFFFF_FFFFu32], call.n_returns, call.returns_addr),
        openfirmware_present ==> present_answer(*old(ci), *final(ci), *old(dt), *call, r),
        !openfirmware_present ==> absent_answer(*call, r),
{
    let console_text = if crate::text::str_eq(call.service.as_str(), "write") && call.string_args.len() > 0 {
        Some(call.string_args[0].clone())
    } else {
        None
    };
    let result = if openfirmware_present {
        match ci.call_service(dt, call.service.as_str(), call.args.as_slice(), call.string_args.as_slice()) {
            Ok(res) => res,
            Err(_) => ServiceResult::new(Vec::new()),
        }
    } else {
        let mut v: Vec<u32> = Vec::new();
        v.push(0xFFFF_FFFF);
        ServiceResult::new(v)
    };
    let ghost values = result.returns@;
    let n: usize = if (result.returns.len() as u64) < (call.n_returns as u64) {
        result.returns.len()
    } else {
        call.n_returns as usize
    };
    let mut return_writes: Vec<(u32, u32)> = Vec::new();
    let mut i: usize = 0;
    while i < n
        invariant
            i <= n,
            n <= result.returns@.len(),
            n == (if result.returns@.len() < call.n_returns { result.returns@.len() as int } else { call.n_returns as int }),
            i <= u32::MAX,
            return_writes@ =~= return_writes_of(result.returns@, call.n_returns, call.returns_addr).subrange(0, i as int),
        decreases n - i,
    {
        let iv = i as u32;
        let base = call.returns_addr;
        let addr = base.wrapping_add(iv.wrapping_mul(4));
        assert(addr == ((base + 4 * iv) % 0x1_0000_0000) as u32) by (bit_vector)
            requires
                addr == base.wrapping_add(iv.wrapping_mul(4));
        return_writes.push((addr, result.returns[i]));
        i = i + 1;
    }
    let ans = ClientAnswer { console_text, memory_write: result.memory_write, return_writes };
    assert(ans.return_writes@ =~= return_writes_of(result.returns@, call.n_returns, call.returns_addr));
    ans
}

/// Writing the byte `v` at `a` can succeed.
pub open spec fn byte_writable<M: MemoryInterface>(mem: &M, a: u32, v: u8) -> bool {
    exists|ok: Result<(), Error>| ok is Ok && #[trigger] mem.writes_u8(a, v, ok)
}

/// Writing the word `v` at `a` can succeed.
pub open spec fn word_writable<M: MemoryInterface>(mem: &M, a: u32, v: u32) -> bool {
    exists|ok: Result<(), Error>| ok is Ok && #[trigger] mem.writes_u32(a, v, ok)
}

/// Writing one of the bytes `d`, from `a` on, can fail with `e`.
pub open spec fn byte_write_failed<M: MemoryInterface>(mem: &M, a: u32, d: Seq<u8>, e: Error) -> bool {
    exists|i: int| 0 <= i < d.len() && #[trigger] mem.writes_u8(a.wrapping_add(i as u32), d[i], Err::<(), Error>(e))
}

/// What carrying out `answer`'s writes can give: success when each of its
/// writes (the service's bytes, one by one from their address, then each
/// return value) could succeed; otherwise the error one of them gave.
pub open spec fn answer_applied<M: MemoryInterface>(mem: &M, answer: ClientAnswer, r: Result<(), Error>) -> bool {
    match r {
        Ok(_) => {
            &&& (answer.memory_write matches Some((a, d)) ==> forall|i: int|
                0 <= i < d@.len() ==> #[trigger] byte_writable(mem, a.wrapping_add(i as u32), d@[i]))
            &&& forall|k: int| 0 <= k < answer.return_writes@.len() ==> #[trigger] word_writable(
                mem,
                answer.return_writes@[k].0,
                answer.return_writes@[k].1,
            )
        },
        Err(e) => {
            ||| answer.memory_write matches Some((a, d)) && byte_write_failed(mem, a, d@, e)
            ||| exists|k: int| 0 <= k < answer.return_writes@.len()
                && #[trigger] mem.writes_u32(answer.return_writes@[k].0, answer.return_writes@[k].1, Err::<(), Error>(e))
        },
    }
}

/// Carry out the writes of an answered call: the service's bytes, then the
/// return values.
pub fn apply_client_answer<M: MemoryInterface>(mem: &M, answer: &ClientAnswer) -> (r: Result<(), Error>)
    ensures
        answer_applied(mem, *answer, r),
{
    match &answer.memory_write {
        Some((addr, data)) => {
            let mut i: usize = 0;
            while i < data.len()
                invariant
                    i <= data@.len(),
                    answer.memory_write == Some((*addr, *data)),
                    forall|j: int| 0 <= j < i ==> #[trigger] byte_writable(mem, addr.wrapping_add(j as u32), data@[j]),
                decreases data@.len() - i,
            {
                let a = addr.wrapping_add(i as u32);
                let w = mem.write_u8(a, data[i]);
                match w {
                    Ok(()) => {
                        assert(byte_writable(mem, a, data@[i as int]));
                    },
                    Err(e) => {
                        assert(mem.writes_u8(addr.wrapping_add((i as int) as u32), data@[i as int], Err::<(), Error>(e)));
                        assert(byte_write_failed(mem, *addr, data@, e));
                        return Err(e);
                    },
                }
                i = i + 1;
            }
        },
        None => {},
    }
    let mut k: usize = 0;
    while k < answer.return_writes.len()
        invariant
            k <= answer.return_writes@.len(),
            answer.memory_write matches Some((a, d)) ==> forall|i: int|
                0 <= i < d@.len() ==> #[trigger] byte_writable(mem, a.wrapping_add(i as u32), d@[i]),
            forall|j: int| 0 <= j < k ==> #[trigger] word_writable(mem, answer.return_writes@[j].0, answer.return_writes@[j].1),
        decreases answer.return_writes@.len() - k,
    {
        let (a, v) = answer.return_writes[k];
        let w = mem.write_u32(a, v);
        match w {
            Ok(()) => {
                assert(word_writable(mem, a, v));
            },
            Err(e) => {
                assert(mem.writes_u32(answer.return_writes@[k as int].0, answer.return_writes@[k as int].1, Err::<(), Error>(e)));
                return Err(e);
            },
        }
        k = k + 1;
    }
    Ok(())
}

/// The length of the whitespace character ending at `hi`, no further back
/// than `lo` (Unicode White_Space, as `trim_end` of Rust strings knows it),
/// or 0.
pub open spec fn ws_end_len(d: Seq<u8>, lo: int, hi: int) -> int {
    if lo <= hi - 1 && hi <= d.len() && (9 <= d[hi - 1] <= 13 || d[hi - 1] == 32) {
        1
    } else if lo <= hi - 2 && hi <= d.len() && d[hi - 2] == 0xC2 && (d[hi - 1] == 0x85 || d[hi - 1] == 0xA0) {
        2
    } else if lo <= hi - 3 && hi <= d.len() && ws_len(d, hi - 3) == 3 {
        3
    } else {
        0
    }
}

/// The end of `[lo, hi)` with trailing whitespace removed.
pub open spec fn trim_end_at(d: Seq<u8>, lo: int, hi: int) -> int
    decreases hi - lo,
{
    if hi > lo && ws_end_len(d, lo, hi) > 0 {
        trim_end_at(d, lo, hi - ws_end_len(d, lo, hi))
    } else {
        hi
    }
}

/// The digits of a numeral: without its leading '+', if any.
pub open spec fn unsigned_digits(s: Seq<u8>) -> Seq<u8> {
    if s.len() > 0 && s[0] == 0x2B {
        s.subrange(1, s.len() as int)
    } else {
        s
    }
}

/// Whether every byte is a hexadecimal digit.
pub open spec fn all_hex_digits(t: Seq<u8>) -> bool {
    forall|i: int| 0 <= i < t.len() ==> is_hex_digit(#[trigger] t[i])
}

/// The value of a hexadecimal numeral as `u32::from_str_radix(_, 16)`
/// reads it: an optional leading '+', then one or more hexadecimal digits,
/// of a value that fits in 32 bits.
pub open spec fn parse_hex_u32(s: Seq<u8>) -> Option<u32> {
    let t = unsigned_digits(s);
    if t.len() == 0 || !all_hex_digits(t) {
        None
    } else if hex_value(t, 0, t.len() as int) > u32::MAX {
        None
    } else {
        Some(hex_value(t, 0, t.len() as int) as u32)
    }
}

/// The bytes of " constant ".
pub open spec fn spaced_constant_word() -> Seq<u8> {
    seq![0x20u8, 0x63, 0x6F, 0x6E, 0x73, 0x74, 0x61, 0x6E, 0x74, 0x20]
}

/// The value a line defines for a constant: the numeral between the last
/// "h# " before the first " constant name" and that phrase, with the
/// whitespace around it trimmed.
pub open spec fn line_value(line: Seq<u8>, name: Seq<u8>) -> Option<u32> {
    match find_from(line, spaced_constant_word() + name, 0) {
        None => None,
        Some(pos) => {
            let before = line.subrange(0, pos);
            match rfind_from(before, hex_prefix(), pos - 3) {
                None => None,
                Some(h) => {
                    let start = skip_ws(before, h + 3);
                    let end = trim_end_at(before, start, pos);
                    parse_hex_u32(before.subrange(start, end))
                },
            }
        },
    }
}

/// The end of the line starting at `p`: the next newline, or the end.
pub open spec fn line_end(d: Seq<u8>, p: int) -> int
    decreases d.len() - p,
{
    if p >= d.len() || d[p] == 0x0A {
        p
    } else {
        line_end(d, p + 1)
    }
}

/// The end of the text of the line that starts at `p`, without its line
/// terminator ("\n" or "\r\n").
pub open spec fn line_content_end(d: Seq<u8>, p: int) -> int {
    let e = line_end(d, p);
    if e < d.len() && e > p && d[e - 1] == 0x0D {
        e - 1
    } else {
        e
    }
}

/// The value of a constant in a boot script, read line by line from `p`
/// as `str::lines` splits it: the first line that defines it with a valid
/// numeral.
pub open spec fn script_constant_from(d: Seq<u8>, p: int, name: Seq<u8>) -> Option<u32>
    decreases d.len() + 1 - p,
{
    if p >= d.len() || p < 0 {
        None
    } else {
        match line_value(d.subrange(p, line_content_end(d, p)), name) {
            Some(v) => Some(v),
            None => {
                proof {
                    lemma_line_end(d, p);
                }
                script_constant_from(d, line_end(d, p) + 1, name)
            },
        }
    }
}

/// A line ends at or after its start, within the text, at a newline or
/// the end.
pub proof fn lemma_line_end(d: Seq<u8>, p: int)
    ensures
        p <= d.len() ==> p <= line_end(d, p) <= d.len(),
        p <= d.len() ==> forall|k: int| p <= k < line_end(d, p) ==> d[k] != 0x0A,
        line_end(d, p) < d.len() ==> d[line_end(d, p)] == 0x0A,
    decreases d.len() - p,
{
    if p < d.len() && d[p] != 0x0A {
        lemma_line_end(d, p + 1);
    }
}


/// The length of the whitespace character that ends at `hi`, no further
/// back than `lo`.
fn ws_end_len_at(d: &[u8], lo: usize, hi: usize) -> (r: usize)
    requires
        lo <= hi <= d@.len(),
    ensures
        r == ws_end_len(d@, lo as int, hi as int),
{
    if hi - lo >= 1 {
        let c = d[hi - 1];
        if (9 <= c && c <= 13) || c == 32 {
            return 1;
        }
    }
    if hi - lo >= 2 {
        if d[hi - 2] == 0xC2 && (d[hi - 1] == 0x85 || d[hi - 1] == 0xA0) {
            return 2;
        }
    }
    if hi - lo >= 3 {
        proof {
            assert(d@.subrange(0, d@.len() as int) =~= d@);
        }
        if Rom::ws_len_at(d, d.len(), hi - 3) == 3 {
            return 3;
        }
    }
    0
}

/// `u32::from_str_radix(s, 16)` on the bytes of `s`.
fn parse_hex_u32_bytes(s: &[u8]) -> (r: Option<u32>)
    ensures
        r == parse_hex_u32(s@),
{
    let first: usize = if s.len() > 0 && s[0] == 0x2B {
        1
    } else {
        0
    };
    let ghost t = unsigned_digits(s@);
    assert(t =~= s@.subrange(first as int, s@.len() as int));
    if first == s.len() {
        return None;
    }
    let mut value: u64 = 0;
    let mut i: usize = first;
    while i < s.len()
        invariant
            first <= i <= s@.len(),
            first < s@.len(),
            first == (if s@.len() > 0 && s@[0] == 0x2B { 1int } else { 0int }),
            t == unsigned_digits(s@),
            t == s@.subrange(first as int, s@.len() as int),
            forall|k: int| 0 <= k < i - first ==> is_hex_digit(#[trigger] t[k]),
            value == hex_value(t, 0, i - first),
            value <= u32::MAX,
        decreases s@.len() - i,
    {
        let c = s[i];
        if !is_hex_byte(c) {
            proof {
                assert(t[i - first] == c);
                assert(0 <= i - first < t.len() && !is_hex_digit(t[i - first]));
            }
            return None;
        }
        let d = hex_byte_value(c);
        let nv: u64 = value * 16 + d as u64;
        proof {
            assert(t[i - first] == c);
            assert(hex_value(t, 0, i + 1 - first) == hex_value(t, 0, i - first) * 16 + hex_digit_value(t[i - first]));
        }
        if nv > 0xFFFF_FFFF {
            proof {
                assert(nv == hex_value(t, 0, i + 1 - first));
                if all_hex_digits(t) {
                    lemma_hex_value_mono(t, 0, i + 1 - first, t.len() as int);
                }
            }
            return None;
        }
        value = nv;
        i = i + 1;
    }
    Some(value as u32)
}

/// The value a line defines for the constant named `name`, given
/// `pattern`, the bytes of " constant " followed by the name.
fn line_boot_constant(line: &[u8], pattern: &[u8], name: &[u8]) -> (r: Option<u32>)
    requires
        pattern@ == spaced_constant_word() + name@,
    ensures
        r == line_value(line@, name@),
{
    let pos = match find_bytes(line, pattern, 0) {
        Some(p) => p,
        None => return None,
    };
    proof {
        lemma_find_from(line@, pattern@, 0);
    }
    let before = copy_range(line, 0, pos);
    let h3: [u8; 3] = [0x68, 0x23, 0x20];
    assert(h3@ =~= hex_prefix());
    let h = match rfind_bytes(before.as_slice(), &h3, before.len()) {
        Some(q) => q,
        None => return None,
    };
    proof {
        lemma_rfind_from(before@, hex_prefix(), pos - 3);
        assert(before@.subrange(0, before@.len() as int) =~= before@);
    }
    let mut p: usize = h + 3;
    while p < before.len() && Rom::ws_len_at(before.as_slice(), before.len(), p) > 0
        invariant
            h + 3 <= p <= before@.len(),
            before@.subrange(0, before@.len() as int) == before@,
            skip_ws(before@, p as int) == skip_ws(before@, h + 3),
        decreases before@.len() - p,
    {
        let w = Rom::ws_len_at(before.as_slice(), before.len(), p);
        p = p + w;
    }
    let start = p;
    let mut q: usize = before.len();
    while q > start && ws_end_len_at(before.as_slice(), start, q) > 0
        invariant
            start <= q <= before@.len(),
            trim_end_at(before@, start as int, q as int) == trim_end_at(before@, start as int, before@.len() as int),
        decreases q - start,
    {
        let w = ws_end_len_at(before.as_slice(), start, q);
        q = q - w;
    }
    let digits = copy_range(before.as_slice(), start, q);
    parse_hex_u32_bytes(digits.as_slice())
}

/// The value of a constant that a boot script defines as
/// "h# XXXX constant name": the first line with a valid definition.
fn find_boot_constant(boot_script: &str, name: &str) -> (r: Option<u32>)
    ensures
        r == script_constant_from(boot_script.spec_bytes(), 0, name.spec_bytes()),
{
    let script = boot_script.as_bytes();
    let nm = name.as_bytes();
    let mut pattern: Vec<u8> = Vec::new();
    pattern.push(0x20);
    pattern.push(0x63);
    pattern.push(0x6F);
    pattern.push(0x6E);
    pattern.push(0x73);
    pattern.push(0x74);
    pattern.push(0x61);
    pattern.push(0x6E);
    pattern.push(0x74);
    pattern.push(0x20);
    let mut i: usize = 0;
    while i < nm.len()
        invariant
            i <= nm@.len(),
            pattern@ == spaced_constant_word() + nm@.subrange(0, i as int),
        decreases nm@.len() - i,
    {
        pattern.push(nm[i]);
        assert(pattern@ =~= spaced_constant_word() + nm@.subrange(0, i + 1));
        i = i + 1;
    }
    assert(nm@.subrange(0, nm@.len() as int) =~= nm@);
    let mut p: usize = 0;
    while p < script.len()
        invariant
            p <= script@.len(),
            pattern@ == spaced_constant_word() + nm@,
            script@ == boot_script.spec_bytes(),
            nm@ == name.spec_bytes(),
            script_constant_from(script@, p as int, nm@) == script_constant_from(script@, 0, nm@),
        decreases script@.len() - p,
    {
        let mut e: usize = p;
        while e < script.len() && script[e] != 0x0A
            invariant
                p <= e <= script@.len(),
                line_end(script@, e as int) == line_end(script@, p as int),
            decreases script@.len() - e,
        {
            e = e + 1;
        }
        let content_end: usize = if e < script.len() && e > p && script[e - 1] == 0x0D {
            e - 1
        } else {
            e
        };
        proof {
            assert(line_end(script@, e as int) == e);
            assert(content_end == line_content_end(script@, p as int));
        }
        let line = copy_range(script, p, content_end);
        match line_boot_constant(line.as_slice(), pattern.as_slice(), nm) {
            Some(v) => return Some(v),
            None => {},
        }
        if e == script.len() {
            proof {
                assert(script_constant_from(script@, e + 1, nm@) is None);
            }
            return None;
        }
        p = e + 1;
    }
    None
}

/// A boot constant, the one under the second name when the first is not
/// defined, or a default.
pub open spec fn constant_or(script: Seq<u8>, first: Seq<u8>, second: Seq<u8>, default: u32) -> u32 {
    match script_constant_from(script, 0, first) {
        Some(v) => v,
        None => match script_constant_from(script, 0, second) {
            Some(v) => v,
            None => default,
        },
    }
}

/// Where the compressed Toolbox lies in the ROM image.
pub open spec fn toolbox_lzss_offset(script: Seq<u8>) -> u32 {
    constant_or(script, "lzss-offset".spec_bytes(), "parcels-offset".spec_bytes(), 0x015690)
}

/// The size of the compressed Toolbox.
pub open spec fn toolbox_lzss_size(script: Seq<u8>) -> u32 {
    constant_or(script, "lzss-size".spec_bytes(), "parcels-size".spec_bytes(), 0x208880)
}

/// The "AAPL,toolbox-image,lzss" value: the address of the compressed
/// Toolbox in a ROM mapped at `rom_base`, then its size.
pub open spec fn toolbox_image(script: Seq<u8>, rom_base: u32) -> Seq<u8> {
    be32_bytes(wadd(rom_base, toolbox_lzss_offset(script) as int)) + be32_bytes(toolbox_lzss_size(script))
}

/// The "AAPL,toolbox-image,lzss" property value the boot script of a ROM
/// mapped at `rom_base` calls for.
pub fn toolbox_image_property(boot_script: &str, rom_base: u32) -> (r: Vec<u8>)
    ensures
        r@ == toolbox_image(boot_script.spec_bytes(), rom_base),
{
    let offset = match find_boot_constant(boot_script, "lzss-offset") {
        Some(v) => v,
        None => match find_boot_constant(boot_script, "parcels-offset") {
            Some(v) => v,
            None => 0x015690,
        },
    };
    let size = match find_boot_constant(boot_script, "lzss-size") {
        Some(v) => v,
        None => match find_boot_constant(boot_script, "parcels-size") {
            Some(v) => v,
            None => 0x208880,
        },
    };
    let address = rom_base.wrapping_add(offset);
    proof {
        assert(address == wadd(rom_base, offset as int));
    }
    concat_bytes(be32_vec(address), be32_vec(size))
}

/// The root node's properties once a NewWorld ROM is loaded with
/// `ram_size` bytes of RAM: those it had, and the copyright notice, the
/// memory, debug, stdout, RTAS size and writable ROM aperture properties
/// the ROM looks for.
pub open spec fn newworld_root_props(p: Map<Seq<char>, Seq<u8>>, ram_size: u32) -> Map<Seq<char>, Seq<u8>> {
    p.insert("copyright"@, "Copyright 1983-2001 Apple Computer, Inc.".spec_bytes())
        .insert("memory"@, be32_bytes(0) + be32_bytes(ram_size))
        .insert("AAPL,debug"@, be32_bytes(0))
        .insert("stdout"@, be32_bytes(0))
        .insert("rtas-size"@, be32_bytes(0x10000))
        .insert("AAPL,writable-ROM-aperture"@, be32_bytes(0xFFC0_0000) + be32_bytes(0x40_0000))
}

/// The properties of the "/rom" node.
pub open spec fn rom_node_props() -> Map<Seq<char>, Seq<u8>> {
    Map::empty().insert("name"@, "rom".spec_bytes()).insert("device_type"@, "rom".spec_bytes())
}

/// The properties of the "/rom/macos" node: its name and, where the ROM
/// has a boot script, where the compressed Toolbox lies.
pub open spec fn macos_node_props(boot_script: Option<Seq<u8>>, rom_base: u32) -> Map<Seq<char>, Seq<u8>> {
    let m = Map::empty().insert("name"@, "macos".spec_bytes());
    match boot_script {
        Some(b) => m.insert("AAPL,toolbox-image,lzss"@, toolbox_image(b, rom_base)),
        None => m,
    }
}

/// The bytes of a boot script, if any.
pub open spec fn script_bytes(boot_script: Option<&str>) -> Option<Seq<u8>> {
    match boot_script {
        Some(b) => Some(b.spec_bytes()),
        None => None,
    }
}

/// Describe a NewWorld ROM in the device tree: the root node's properties,
/// a "/rom" node and a "/rom/macos" node (each only where the path names
/// no node yet) that tells the ROM where its compressed Toolbox lies.
pub fn setup_rom_nodes(dt: &mut DeviceTree, ram_size: u32, rom_base: u32, boot_script: Option<&str>)
    ensures
        final(dt).root_node().props() == newworld_root_props(old(dt).root_node().props(), ram_size),
        final(dt).root_node().name == old(dt).root_node().name,
        final(dt).root_node().node_type == old(dt).root_node().node_type,
        final(dt).root_node().children == old(dt).root_node().children,
        old(dt).node_at("/rom"@) is None ==> final(dt).table().contains_key("/rom"@) && {
            let n = final(dt).table()["/rom"@];
            n.name@ == "rom"@ && n.node_type@ == "rom"@ && n.children@.len() == 0 && n.props() == rom_node_props()
        },
        old(dt).node_at("/rom"@) is Some ==> final(dt).node_at("/rom"@) == old(dt).node_at("/rom"@),
        old(dt).node_at("/rom/macos"@) is None ==> final(dt).table().contains_key("/rom/macos"@) && node_is(
            final(dt).table()["/rom/macos"@],
            "macos"@,
            macos_node_props(script_bytes(boot_script), rom_base),
        ),
        old(dt).node_at("/rom/macos"@) is Some ==> final(dt).node_at("/rom/macos"@) == old(dt).node_at("/rom/macos"@),
        forall|p: Seq<char>| p != "/rom"@ && p != "/rom/macos"@ ==> #[trigger] final(dt).table().contains_key(p)
            == old(dt).table().contains_key(p) && (old(dt).table().contains_key(p) ==> final(dt).table()[p] == old(dt).table()[p]),
{
    proof {
        reveal_strlit("/rom");
        reveal_strlit("/rom/macos");
        reveal_strlit("");
    }
    {
        let root = dt.root_mut();
        root.add_property("copyright", str_bytes("Copyright 1983-2001 Apple Computer, Inc."));
        root.add_property("memory", concat_bytes(be32_vec(0), be32_vec(ram_size)));
        root.add_property("AAPL,debug", be32_vec(0));
        root.add_property("stdout", be32_vec(0));
        root.add_property("rtas-size", be32_vec(0x10000));
        root.add_property("AAPL,writable-ROM-aperture", concat_bytes(be32_vec(0xFFC0_0000), be32_vec(0x40_0000)));
    }
    let ghost t0 = dt.table();
    if dt.find_node("/rom").is_none() {
        let mut rom_node = DeviceNode::new("rom", "rom");
        rom_node.add_property("name", str_bytes("rom"));
        rom_node.add_property("device_type", str_bytes("rom"));
        dt.add_node("/rom", rom_node);
    }
    let ghost t1 = dt.table();
    if dt.find_node("/rom/macos").is_none() {
        let mut macos_node = DeviceNode::new("macos", "");
        macos_node.add_property("name", str_bytes("macos"));
        match boot_script {
            Some(b) => {
                macos_node.add_property("AAPL,toolbox-image,lzss", toolbox_image_property(b, rom_base));
            },
            None => {},
        }
        dt.add_node("/rom/macos", macos_node);
    }
    proof {
        assert("/rom"@.len() == 4 && seq!['/'].len() == 1);
        assert(!is_root_path("/rom"@));
        assert("/rom/macos"@.len() == 10);
        assert(!is_root_path("/rom/macos"@));
        assert("/rom"@ != "/rom/macos"@) by {
            assert("/rom"@.len() != "/rom/macos"@.len());
        }
    }
}

/// The bytes of the ROM's ELF bootloader that are parsed: at most 128 KiB
/// from its offset.
pub open spec fn rom_elf_window(rom: Seq<u8>, off: int) -> Seq<u8> {
    let n = if rom.len() - off < 0x20000 {
        rom.len() - off
    } else {
        0x20000
    };
    rom.subrange(off, off + n)
}

/// Where the ELF bootloader of a ROM starts, if it has one.
pub open spec fn rom_elf_offset(rom: Rom) -> Option<int> {
    if rom.kind() == RomType::NewWorld {
        spec_find_elf_offset(rom.bytes())
    } else {
        None
    }
}

/// Whether the loadable segments of an ELF image, if it parses, end within
/// the 32-bit address space.
pub open spec fn elf_loadable(d: Seq<u8>) -> bool {
    match spec_parse_header(d) {
        Ok(h) => segments_in_range(spec_program_headers(d, h.phoff, h.phentsize, h.phnum)),
        Err(_) => true,
    }
}

/// Whether the ELF bootloader of a ROM, if it has one, can be laid out in
/// the 32-bit address space.
pub open spec fn rom_elf_loadable(rom: Rom) -> bool {
    match rom_elf_offset(rom) {
        Some(o) => elf_loadable(rom_elf_window(rom.bytes(), o)),
        None => true,
    }
}

/// The memory image of the ROM's ELF bootloader, the address it loads at
/// and its entry point; none where the ROM has no ELF image or it does not
/// parse or load.
pub open spec fn spec_rom_elf_image(rom: Rom) -> Option<(Seq<u8>, u32, u32)> {
    match rom_elf_offset(rom) {
        None => None,
        Some(o) => {
            let d = rom_elf_window(rom.bytes(), o);
            match spec_parse_header(d) {
                Err(_) => None,
                Ok(h) => match spec_load_to_memory(spec_program_headers(d, h.phoff, h.phentsize, h.phnum), d, h.entry) {
                    Ok(x) => Some(x),
                    Err(_) => None,
                },
            }
        },
    }
}

/// Whether the ROM's ELF bootloader, if it has one, can be laid out in the
/// 32-bit address space (`rom_elf_loadable`).
pub fn rom_elf_loadable_check(rom: &Rom) -> (r: bool)
    ensures
        r == rom_elf_loadable(*rom),
{
    let elf_offset = match rom.get_elf_offset() {
        Some(o) => o,
        None => return true,
    };
    let elf_size: usize = 0x20000;
    let remaining = rom.size() - elf_offset;
    let actual_size = if remaining < elf_size {
        remaining
    } else {
        elf_size
    };
    let elf_data = copy_range(rom.data(), elf_offset, elf_offset + actual_size);
    proof {
        assert(elf_data@ == rom_elf_window(rom.bytes(), elf_offset as int));
    }
    match ElfFile::parse(elf_data) {
        Ok(elf) => {
            let phs = &elf.program_headers;
            assert(rom_elf_offset(*rom) == Some(elf_offset as int));
            assert(rom_elf_loadable(*rom) == segments_in_range(phs@));
            let mut i: usize = 0;
            while i < phs.len()
                invariant
                    i <= phs@.len(),
                    rom_elf_loadable(*rom) == segments_in_range(phs@),
                    forall|j: int| 0 <= j < i && is_loadable(#[trigger] phs@[j]) ==> phs@[j].vaddr + phs@[j].memsz <= u32::MAX,
                decreases phs@.len() - i,
            {
                let ph = phs[i];
                if ph.p_type == 1 && ph.memsz > 0 && ph.vaddr as u64 + ph.memsz as u64 > 0xFFFF_FFFFu64 {
                    assert(is_loadable(phs@[i as int]) && !(phs@[i as int].vaddr + phs@[i as int].memsz <= u32::MAX));
                    assert(!segments_in_range(phs@));
                    return false;
                }
                i = i + 1;
            }
            true
        },
        Err(_) => true,
    }
}

/// Parse the ROM's ELF bootloader and lay out its loadable segments.
pub fn rom_elf_image(rom: &Rom) -> (r: Option<(Vec<u8>, u32, u32)>)
    requires
        rom_elf_loadable(*rom),
    ensures
        r matches Some((m, lo, e)) ==> spec_rom_elf_image(*rom) == Some((m@, lo, e)) && lo + m@.len() <= u32::MAX,
        r is None ==> spec_rom_elf_image(*rom) is None,
{
    let elf_offset = match rom.get_elf_offset() {
        Some(o) => o,
        None => return None,
    };
    let elf_size: usize = 0x20000;
    let remaining = rom.size() - elf_offset;
    let actual_size = if remaining < elf_size {
        remaining
    } else {
        elf_size
    };
    let elf_data = copy_range(rom.data(), elf_offset, elf_offset + actual_size);
    proof {
        assert(elf_data@ == rom_elf_window(rom.bytes(), elf_offset as int));
    }
    match ElfFile::parse(elf_data) {
        Ok(elf) => {
            match elf.load_to_memory() {
                Ok((image, load_addr, entry)) => Some((image, load_addr, entry)),
                Err(_) => None,
            }
        },
        Err(_) => None,
    }
}

/// Whether no device claims a byte of `[lo, lo + n)`.
pub open spec fn no_device_in(ranges: Seq<(u32, u32)>, lo: int, n: int) -> bool {
    forall|a: u32| lo <= a < lo + n ==> #[trigger] device_at(ranges, a, 1) is None
}

/// The ROM shadow and RAM after writing the byte `b` at `addr`: a device
/// that takes the byte leaves both as they were.
pub open spec fn byte_written(shadow: Option<Seq<u8>>, ranges: Seq<(u32, u32)>, ram: Seq<u8>, addr: u32, b: u8) -> (Option<Seq<u8>>, Seq<u8>) {
    match after_write_in(shadow, ranges, ram, addr, seq![b]) {
        Some(x) => x,
        None => (shadow, ram),
    }
}

/// The ROM shadow and RAM after writing the first `n` bytes of `m`, one by
/// one, from `lo` on.
pub open spec fn bytes_written(shadow: Option<Seq<u8>>, ranges: Seq<(u32, u32)>, ram: Seq<u8>, lo: u32, m: Seq<u8>, n: int) -> (Option<Seq<u8>>, Seq<u8>)
    decreases n,
{
    if n <= 0 {
        (shadow, ram)
    } else {
        let prev = bytes_written(shadow, ranges, ram, lo, m, n - 1);
        byte_written(prev.0, ranges, prev.1, (lo + n - 1) as u32, m[n - 1])
    }
}

/// What loading the ROM's ELF bootloader does, from ROM shadow `sh0` and
/// RAM `ram0` to `sh1` and `ram1`, giving `r`: with no ROM or no ELF image
/// that parses and loads, nothing and `None`; otherwise the image's bytes
/// are written in order from its load address until one is refused by a
/// device, and the entry point is given when every byte went in.
pub open spec fn elf_loaded(
    rom: Option<Rom>,
    ranges: Seq<(u32, u32)>,
    sh0: Option<Seq<u8>>,
    ram0: Seq<u8>,
    sh1: Option<Seq<u8>>,
    ram1: Seq<u8>,
    r: Option<u32>,
) -> bool {
    match rom {
        None => r is None && sh1 == sh0 && ram1 == ram0,
        Some(rom) => match spec_rom_elf_image(rom) {
            None => r is None && sh1 == sh0 && ram1 == ram0,
            Some((m, lo, e)) => exists|n: int| 0 <= n <= m.len() && #[trigger] bytes_written(sh0, ranges, ram0, lo, m, n) == (sh1, ram1)
                && r == (if n == m.len() { Some(e) } else { None::<u32> })
                && (n < m.len() ==> device_at(ranges, (lo + n) as u32, 1) is Some),
        },
    }
}

/// Load the ROM's ELF bootloader into memory at the address its segments
/// ask for, and give its entry point. Nothing is loaded where the ROM has
/// no ELF image that parses and loads, and loading stops at the first byte
/// a device refuses.
pub fn parse_elf_at_load_base<D: MmioDevice>(mem: &mut Memory<D>, ram: &mut [u8], load_base: u32) -> (r: Option<u32>)
    requires
        old(mem).rom_view() matches Some(rom) ==> rom_elf_loadable(rom),
    ensures
        final(mem).rom_view() == old(mem).rom_view(),
        final(mem).ranges() == old(mem).ranges(),
        old(mem).rom_view() is None ==> r is None,
        old(mem).rom_view() matches Some(rom) ==> match spec_rom_elf_image(rom) {
            None => r is None,
            Some((m, lo, e)) => (r matches Some(x) ==> x == e) && (no_device_in(old(mem).ranges(), lo as int, m.len() as int)
                ==> r == Some(e)),
        },
        elf_loaded(old(mem).rom_view(), old(mem).ranges(), old(mem).shadow(), old(ram)@, final(mem).shadow(), final(ram)@, r),
{
    let image = match mem.rom() {
        Some(rom) => rom_elf_image(rom),
        None => return None,
    };
    let (memory_image, target_addr, entry) = match image {
        Some(x) => x,
        None => return None,
    };
    let _ = load_base;
    let ghost rom = mem.rom_view()->0;
    let ghost ranges0 = mem.ranges();
    let ghost sh0 = mem.shadow();
    let ghost ram0 = ram@;
    let mut i: usize = 0;
    while i < memory_image.len()
        invariant
            i <= memory_image@.len(),
            bytes_written(sh0, ranges0, ram0, target_addr, memory_image@, i as int) == (mem.shadow(), ram@),
            sh0 == old(mem).shadow(),
            ram0 == old(ram)@,
            target_addr + memory_image@.len() <= u32::MAX,
            mem.rom_view() == Some(rom),
            mem.ranges() == ranges0,
            old(mem).rom_view() == Some(rom),
            old(mem).ranges() == ranges0,
            spec_rom_elf_image(rom) == Some((memory_image@, target_addr, entry)),
        decreases memory_image@.len() - i,
    {
        let a: u32 = target_addr + i as u32;
        let ghost before = (mem.shadow(), ram@);
        match mem.write_u8(ram, a, memory_image[i]) {
            Ok(()) => {
                assert(bytes_written(sh0, ranges0, ram0, target_addr, memory_image@, i + 1) == (mem.shadow(), ram@));
            },
            Err(_) => {
                proof {
                    assert(device_at(ranges0, a, 1) is Some);
                    assert(!no_device_in(ranges0, target_addr as int, memory_image@.len() as int));
                    assert(bytes_written(sh0, ranges0, ram0, target_addr, memory_image@, i as int) == (mem.shadow(), ram@));
                    assert((target_addr + i) as u32 == a);
                    let n = i as int;
                    assert(0 <= n <= memory_image@.len() && bytes_written(sh0, ranges0, ram0, target_addr, memory_image@, n) == (mem.shadow(), ram@)
                        && None::<u32> == (if n == memory_image@.len() { Some(entry) } else { None::<u32> })
                        && (n < memory_image@.len() ==> device_at(ranges0, (target_addr + n) as u32, 1) is Some));
                    assert(spec_rom_elf_image(rom) matches Some((m, lo, e)) && m == memory_image@ && lo == target_addr && e == entry);
                    assert(elf_loaded(old(mem).rom_view(), ranges0, sh0, ram0, mem.shadow(), ram@, None));
                }
                return None;
            },
        }
        i = i + 1;
    }
    assert(bytes_written(sh0, ranges0, ram0, target_addr, memory_image@, memory_image@.len() as int) == (mem.shadow(), ram@));
    assert(Some(entry) == (if memory_image@.len() == memory_image@.len() { Some(entry) } else { None::<u32> }));
    assert(spec_rom_elf_image(rom) matches Some((m, lo, e)) && m == memory_image@ && lo == target_addr && e == entry);
    assert(elf_loaded(old(mem).rom_view(), ranges0, sh0, ram0, mem.shadow(), ram@, Some(entry)));
    Some(entry)
}


/// The Forth program run to boot a NewWorld ROM: it defines the ELF's
/// offset and size in the ROM and the load base as constants, then calls
/// init-program and go.
pub open spec fn boot_program_text(elf_offset: u32, elf_size: u32, load_base: u32) -> Seq<char> {
    "\n            hex\n            "@ + hex8_chars(elf_offset) + " constant elf-offset\n            "@ + hex8_chars(elf_size) + " constant elf-size\n            "@ + hex8_chars(load_base)
        + " constant load-base\n            \n            \\ Allocate memory for ELF at load-base\n            \\ In a real OF implementation, this would call claim\n            \\ For now, we assume the memory is available\n            \n            \\ Copy ELF from ROM to load-base\n            \\ ROM is mapped at high memory, we need to copy the ELF portion\n            \\ This is done by the Forth interpreter's memory operations\n            \n            \\ Parse and load the ELF\n            init-program\n            \n            \\ Start execution\n            go\n        "@
}

/// The Forth program run to boot a NewWorld ROM.
pub fn boot_program(elf_offset: u32, elf_size: u32, load_base: u32) -> (r: String)
    ensures
        r@ == boot_program_text(elf_offset, elf_size, load_base),
{
    let mut s = String::from_str("\n            hex\n            ");
    s.append(hex8(elf_offset).as_str());
    s.append(" constant elf-offset\n            ");
    s.append(hex8(elf_size).as_str());
    s.append(" constant elf-size\n            ");
    s.append(hex8(load_base).as_str());
    s.append(" constant load-base\n            \n            \\ Allocate memory for ELF at load-base\n            \\ In a real OF implementation, this would call claim\n            \\ For now, we assume the memory is available\n            \n            \\ Copy ELF from ROM to load-base\n            \\ ROM is mapped at high memory, we need to copy the ELF portion\n            \\ This is done by the Forth interpreter's memory operations\n            \n            \\ Parse and load the ELF\n            init-program\n            \n            \\ Start execution\n            go\n        ");
    s
}

/// What running the boot program does, from OpenFirmware `of0`, ROM
/// shadow `sh0` and RAM `ram0` to `of1`, `sh1` and `ram1`, giving the
/// program's entry `r`. Only a NewWorld ROM with a boot script runs it;
/// when it ends without error and set a load base, the ROM's ELF image is
/// loaded (`elf_loaded`) and its entry, if it loaded, is given, else the
/// entry `go` set; without a load base, the entry `go` set. Memory changes
/// only by that load.
pub open spec fn boot_run(
    rom: Option<Rom>,
    ranges: Seq<(u32, u32)>,
    sh0: Option<Seq<u8>>,
    ram0: Seq<u8>,
    of0: OpenFirmware,
    sh1: Option<Seq<u8>>,
    ram1: Seq<u8>,
    of1: OpenFirmware,
    r: Option<u32>,
) -> bool {
    match rom {
        None => r is None && of1 == of0 && sh1 == sh0 && ram1 == ram0,
        Some(rom) => {
            let after = eval_rest((ForthState { input: boot_program_text(0x5000, 0x20000, 0x0040_0000), pos: 0, ..of0.interpreter()@ }));
            let runs = rom.kind() == RomType::NewWorld && spec_boot_script(rom.kind(), rom.bytes()) is Some;
            &&& !runs ==> r is None
            &&& runs ==> of1.interpreter()@ == after.0
            &&& runs && after.1 is Some ==> r is None
            &&& runs && after.1 is None && after.0.load_base is None ==> r == after.0.program_entry
            &&& runs && after.1 is None && after.0.load_base is Some ==> exists|rp: Option<u32>| #[trigger] elf_loaded(Some(rom), ranges, sh0, ram0, sh1, ram1, rp)
                && r == (match rp {
                Some(e) => Some(e),
                None => after.0.program_entry,
            })
            &&& !(runs && after.1 is None && after.0.load_base is Some) ==> sh1 == sh0 && ram1 == ram0
        },
    }
}

/// Run the boot program and find where the loaded program starts: the
/// entry point of the ROM's ELF image once it is loaded at the load base
/// the program set, else the entry `go` set; none when the ROM has no boot
/// script or the program fails.
pub fn execute_boot_script_and_get_entry<D: MmioDevice>(of: &mut OpenFirmware, mem: &mut Memory<D>, ram: &mut [u8]) -> (r: Option<u32>)
    requires
        old(of).wf(),
        old(mem).rom_view() matches Some(rom) ==> rom_elf_loadable(rom),
    ensures
        final(of).wf(),
        old(mem).rom_view() is None ==> r is None && *final(of) == *old(of),
        old(mem).rom_view() matches Some(rom) ==> {
            let after = eval_rest((ForthState {
                input: boot_program_text(0x5000, 0x20000, 0x0040_0000),
                pos: 0,
                ..old(of).interpreter()@
            }));
            &&& rom.kind() != RomType::NewWorld ==> r is None
            &&& rom.kind() == RomType::NewWorld && spec_boot_script(rom.kind(), rom.bytes()) is Some ==> {
                &&& final(of).interpreter()@ == after.0
                &&& after.1 is Some ==> r is None
                &&& after.1 is None && after.0.load_base is None ==> r == after.0.program_entry
                &&& after.1 is None && after.0.load_base is Some ==> exists|rp: Option<u32>| #[trigger] elf_loaded(
                    Some(rom),
                    old(mem).ranges(),
                    old(mem).shadow(),
                    old(ram)@,
                    final(mem).shadow(),
                    final(ram)@,
                    rp,
                ) && r == (match rp {
                    Some(e) => Some(e),
                    None => after.0.program_entry,
                })
            }
            &&& !(rom.kind() == RomType::NewWorld && spec_boot_script(rom.kind(), rom.bytes()) is Some && after.1 is None
                && after.0.load_base is Some) ==> final(mem).shadow() == old(mem).shadow() && final(ram)@ == old(ram)@
        },
        old(mem).rom_view() is None ==> final(mem).shadow() == old(mem).shadow() && final(ram)@ == old(ram)@,
        final(mem).rom_view() == old(mem).rom_view(),
        final(mem).ranges() == old(mem).ranges(),
        boot_run(old(mem).rom_view(), old(mem).ranges(), old(mem).shadow(), old(ram)@, *old(of), final(mem).shadow(), final(ram)@, *final(of), r),
{
    let has_script = match mem.rom() {
        Some(rom) => rom.get_boot_script().is_some(),
        None => return None,
    };
    if !has_script {
        return None;
    }
    let code = boot_program(0x5000, 0x20000, 0x0040_0000);
    match of.execute_forth(code.as_str()) {
        Ok(()) => {
            let entry = of.forth().program_entry();
            match of.forth().load_base() {
                Some(base) => {
                    let rp = parse_elf_at_load_base(mem, ram, base);
                    match rp {
                        Some(e) => Some(e),
                        None => entry,
                    }
                },
                None => entry,
            }
        },
        Err(_) => None,
    }
}

/// The registers the emulator sets for a NewWorld ROM on reset.
#[derive(Debug, Clone, Copy, PartialEq, Eq, Structural)]
pub struct BootRegisters {
    /// The ROM entry point for the program counter (r2 is cleared with it),
    /// when a ROM is loaded
    pub entry: Option<u32>,
    /// The initial stack pointer (r1): 4 KiB below the top of RAM
    pub stack_pointer: u32,
    /// The link register: the idle loop the boot RAM holds at 0x1004
    pub link_register: u32,
    /// r5: the OpenFirmware client interface entry
    pub client_interface: u32,
}

/// Set up RAM for a NewWorld boot (the boot stubs, and stack frames around
/// the initial stack pointer that return to the idle loop) and give the
/// registers the ROM is entered with.
pub fn prepare_newworld_boot(ram: &mut [u8], rom_entry: Option<u32>) -> (r: BootRegisters)
    requires
        0x1008 <= old(ram)@.len() <= u32::MAX,
    ensures
        r.entry == rom_entry,
        r.stack_pointer == old(ram)@.len() - 0x1000,
        r.link_register == 0x1004,
        r.client_interface == OF_CLIENT_INTERFACE_OFFSET,
        final(ram)@ == spec_stack_frames(spec_boot_ram(old(ram)@), old(ram)@.len() - 0x1000, 0x1004, 256),
{
    init_boot_ram(ram);
    let stack_top = (ram.len() - 0x1000) as u32;
    init_stack_frame(ram, stack_top, 0x1004);
    BootRegisters { entry: rom_entry, stack_pointer: stack_top, link_register: 0x1004, client_interface: OF_CLIENT_INTERFACE_OFFSET }
}

/// The BAT pair that maps the 4 MiB ROM aperture at 0xFFC0_0000 onto
/// itself for supervisor code, writable through the data BAT.
pub open spec fn rom_aperture_bat(writable: bool) -> BatEntry {
    BatEntry {
        upper: bat_upper(0xFFC0_0000, bat_length_code(0x40_0000) as u32, true, false),
        lower: bat_lower(0xFFC0_0000, writable),
    }
}

/// The CPU registers a NewWorld boot starts from, given those before and
/// the values `prepare_newworld_boot` chose.
pub open spec fn newworld_registers(s: Registers, boot: BootRegisters) -> Registers {
    let g = match boot.entry {
        Some(_) => s.gpr@.update(2, 0),
        None => s.gpr@,
    };
    Registers {
        pc: match boot.entry {
            Some(e) => e,
            None => s.pc,
        },
        lr: boot.link_register,
        ..s
    }
}

/// `t` is `s` after pointing the CPU at a NewWorld ROM with `boot`.
pub open spec fn entered(s: Registers, t: Registers, boot: BootRegisters) -> bool {
    &&& t.gpr@ == (match boot.entry {
        Some(_) => s.gpr@.update(2, 0),
        None => s.gpr@,
    }).update(1, boot.stack_pointer).update(5, boot.client_interface)
    &&& t.dbat@ == s.dbat@.update(0, rom_aperture_bat(true))
    &&& t.ibat@ == s.ibat@.update(0, rom_aperture_bat(false))
    &&& t == (Registers { gpr: t.gpr, dbat: t.dbat, ibat: t.ibat, ..newworld_registers(s, boot) })
}

/// Point the CPU at a NewWorld ROM: the entry point (with r2 cleared, for
/// the ROM to set up its own table of contents), the ROM aperture mapped by
/// DBAT0 and IBAT0, the initial stack pointer in r1, the idle loop in LR
/// and the client interface entry in r5.
pub fn enter_newworld_rom(cpu: &mut Cpu, boot: &BootRegisters)
    ensures
        final(cpu).mode() == old(cpu).mode(),
        final(cpu).registers.gpr@ == (match boot.entry {
            Some(_) => old(cpu).registers.gpr@.update(2, 0),
            None => old(cpu).registers.gpr@,
        }).update(1, boot.stack_pointer).update(5, boot.client_interface),
        final(cpu).registers.dbat@ == old(cpu).registers.dbat@.update(0, rom_aperture_bat(true)),
        final(cpu).registers.ibat@ == old(cpu).registers.ibat@.update(0, rom_aperture_bat(false)),
        final(cpu).registers == (Registers {
            gpr: final(cpu).registers.gpr,
            dbat: final(cpu).registers.dbat,
            ibat: final(cpu).registers.ibat,
            ..newworld_registers(old(cpu).registers, *boot)
        }),
        entered(old(cpu).registers, final(cpu).registers, *boot),
{
    if let Some(entry) = boot.entry {
        cpu.registers.pc = entry;
        cpu.registers.gpr[2] = 0;
    }
    let _ = cpu.setup_bat(0, true, 0xFFC0_0000, 0xFFC0_0000, 4 * 1024 * 1024, true, true, false);
    let _ = cpu.setup_bat(0, false, 0xFFC0_0000, 0xFFC0_0000, 4 * 1024 * 1024, false, true, false);
    cpu.registers.gpr[1] = boot.stack_pointer;
    cpu.registers.lr = boot.link_register;
    cpu.registers.gpr[5] = boot.client_interface;
}

/// RAM prepared for a NewWorld boot: the boot stubs and the stack frames
/// below the initial stack pointer.
pub open spec fn prepared_ram(ram: Seq<u8>) -> Seq<u8> {
    spec_stack_frames(spec_boot_ram(ram), ram.len() - 0x1000, 0x1004, 256)
}

/// Where a ROM's code starts.
pub open spec fn rom_entry_address(rom: Rom) -> u32 {
    ((rom.base() + (rom.entry() as u32)) % 0x1_0000_0000) as u32
}

/// Reset the machine for a NewWorld ROM: prepare the boot RAM, reset the
/// registers and point them at the ROM (`enter_newworld_rom`), run the
/// boot program, and start at the program it loaded when it gives an entry
/// point. Gives the registers the ROM was entered with.
pub fn reset_newworld<D: MmioDevice>(cpu: &mut Cpu, of: &mut OpenFirmware, mem: &mut Memory<D>, ram: &mut [u8]) -> (r: BootRegisters)
    requires
        0x1008 <= old(ram)@.len() <= u32::MAX,
        old(of).wf(),
        old(mem).rom_view() matches Some(rom) ==> rom_elf_loadable(rom),
    ensures
        r.entry == (match old(mem).rom_view() {
            Some(rom) => Some(rom_entry_address(rom)),
            None => None::<u32>,
        }),
        r.stack_pointer == old(ram)@.len() - 0x1000,
        r.link_register == 0x1004,
        r.client_interface == OF_CLIENT_INTERFACE_OFFSET,
        final(cpu).mode() == old(cpu).mode(),
        final(of).wf(),
        final(mem).rom_view() == old(mem).rom_view(),
        final(mem).ranges() == old(mem).ranges(),
        exists|z: Registers, t: Registers, prog: Option<u32>|
            #![trigger entered(z, t, r), boot_run(old(mem).rom_view(), old(mem).ranges(), old(mem).shadow(), prepared_ram(old(ram)@), *old(of), final(mem).shadow(), final(ram)@, *final(of), prog)]
            z.is_zeroed(old(cpu).registers.model) && entered(z, t, r)
            && boot_run(old(mem).rom_view(), old(mem).ranges(), old(mem).shadow(), prepared_ram(old(ram)@), *old(of), final(mem).shadow(), final(ram)@, *final(of), prog)
            && final(cpu).registers == (match prog {
                Some(e) => Registers { pc: e, ..t },
                None => t,
            }),
{
    let rom_entry = match mem.rom() {
        Some(rom) => Some(rom.entry_address()),
        None => None,
    };
    let boot = prepare_newworld_boot(ram, rom_entry);
    let ghost ram1 = ram@;
    assert(ram1 == prepared_ram(old(ram)@));
    let model = cpu.registers.model;
    cpu.registers = Registers::new(model);
    let ghost z = cpu.registers;
    enter_newworld_rom(cpu, &boot);
    let ghost t = cpu.registers;
    let ghost sh0 = mem.shadow();
    let ghost of0 = *of;
    let prog = execute_boot_script_and_get_entry(of, mem, ram);
    assert(boot_run(old(mem).rom_view(), old(mem).ranges(), sh0, ram1, of0, mem.shadow(), ram@, *of, prog));
    match prog {
        Some(e) => {
            cpu.registers.pc = e;
        },
        None => {},
    }
    assert(entered(z, t, boot));
    boot
}

/// One single-threaded emulator step: the debugger may hold execution, a
/// call of the client interface stub is left to the caller to answer, and
/// anything else is one CPU step.
pub fn emulator_step<M: MemoryInterface, F: FloatUnit>(
    cpu: &mut Cpu,
    memory: &M,
    fpu: &F,
    debugger: &mut Option<Debugger>,
    openfirmware_present: bool,
) -> (r: Result<StepAction, Error>)
    requires
        (*old(debugger)) matches Some(d) ==> d@.instruction_count < u64::MAX && (crate::debugger::stops_at(
            d@.exec_breakpoints,
            old(cpu).registers.pc,
        ) ==> d@.exec_breakpoints[old(cpu).registers.pc].hit_count < u32::MAX),
    ensures
        final(cpu).mode() == old(cpu).mode(),
        match *old(debugger) {
            Some(d) => (*final(debugger)) matches Some(d2) && d2@ == crate::debugger::spec_before_instruction(d@, old(cpu).registers.pc).0,
            None => (*final(debugger)) is None,
        },
        match r {
            Ok(StepAction::Execute) => exists|fetch: Result<u32, Error>, mid: Registers, x: Result<ExecResult, Error>|
                memory.reads_u32(old(cpu).registers.pc, fetch)
                && #[trigger] step_outcome(old(cpu).registers, final(cpu).registers, fetch, mid, x, Ok(()))
                && step_accesses(memory, fpu, old(cpu).registers, fetch, mid, x),
            Ok(_) => final(cpu).registers == old(cpu).registers,
            Err(e) => exists|fetch: Result<u32, Error>, mid: Registers, x: Result<ExecResult, Error>|
                memory.reads_u32(old(cpu).registers.pc, fetch)
                && #[trigger] step_outcome(old(cpu).registers, final(cpu).registers, fetch, mid, x, Err(e))
                && step_accesses(memory, fpu, old(cpu).registers, fetch, mid, x),
        },
        r is Ok ==> r->Ok_0 == (match *old(debugger) {
            Some(d) => if crate::debugger::spec_before_instruction(d@, old(cpu).registers.pc).1 {
                StepAction::Pause
            } else if openfirmware_present && old(cpu).registers.pc == OF_CLIENT_INTERFACE_OFFSET {
                StepAction::ClientCall
            } else {
                StepAction::Execute
            },
            None => if openfirmware_present && old(cpu).registers.pc == OF_CLIENT_INTERFACE_OFFSET {
                StepAction::ClientCall
            } else {
                StepAction::Execute
            },
        }),
        r is Err ==> (match *old(debugger) {
            Some(d) => !crate::debugger::spec_before_instruction(d@, old(cpu).registers.pc).1,
            None => true,
        }) && !(openfirmware_present && old(cpu).registers.pc == OF_CLIENT_INTERFACE_OFFSET),
{
    let pc = cpu.registers.pc;
    let ghost s = cpu.registers;
    let action = next_step_action(debugger, openfirmware_present, pc);
    match action {
        StepAction::Execute => {
            let stepped = cpu.step(memory, fpu);
            let ghost w = choose|f: Result<u32, Error>, m: Registers, x: Result<ExecResult, Error>|
                memory.reads_u32(s.pc, f) && #[trigger] step_outcome(s, cpu.registers, f, m, x, stepped) && step_accesses(memory, fpu, s, f, m, x);
            assert(memory.reads_u32(s.pc, w.0) && step_accesses(memory, fpu, s, w.0, w.1, w.2));
            assert(step_outcome(s, cpu.registers, w.0, w.1, w.2, stepped));
            match stepped {
                Ok(()) => {
                    assert(step_outcome(s, cpu.registers, w.0, w.1, w.2, Ok(())));
                    Ok(StepAction::Execute)
                },
                Err(e) => {
                    assert(step_outcome(s, cpu.registers, w.0, w.1, w.2, Err(e)));
                    Err(e)
                },
            }
        },
        _ => Ok(action),
    }
}

/// The error for a client call whose claim arguments would overflow 32-bit
/// arithmetic, or for a client interface out of handles.
pub open spec fn call_out_of_range_message() -> Seq<char> {
    "Client interface call arguments out of range"@
}

/// Answer a call with OpenFirmware present, after checking that the claim
/// arithmetic the service does stays within 32 bits.
fn answer_with_openfirmware(of: &mut OpenFirmware, call: &ClientCall) -> (r: Result<ClientAnswer, Error>)
    requires
        old(of).wf(),
    ensures
        final(of).wf(),
        final(of).tree() == old(of).tree(),
        final(of).interpreter() == old(of).interpreter(),
        r is Err ==> final(of).client() == old(of).client() && (r matches Err(Error::Cpu(m)) && m@ == call_out_of_range_message()),
        r is Err <==> call_out_of_range(old(of).client(), *call),
        r matches Ok(ans) ==> present_answer(old(of).client(), final(of).client(), old(of).tree(), *call, ans),
{
    let (ci, dt) = of.client_and_tree_mut();
    let service = call.service.as_str();
    let out_of_range = ci.handle_count() >= 0xFFFF_FFFFusize
        || (crate::text::str_eq(service, "claim") && call.args.len() >= 3 && !ci.claim_fits_check(call.args[0], call.args[1], call.args[2]))
        || (crate::text::str_eq(service, "call-method") && call.string_args.len() > 0 && call.args.len() >= 5
            && crate::text::str_eq(call.string_args[0].as_str(), "claim") && !ci.claim_fits_check(call.args[2], call.args[3], call.args[4]));
    if out_of_range {
        return Err(Error::Cpu(String::from_str("Client interface call arguments out of range")));
    }
    Ok(answer_client_call(ci, dt, true, call))
}

/// How a handled call ends once its writes gave `wr`: on success the
/// caller resumes at LR and gets the console text; on failure nothing
/// changed and the write's error is returned.
pub open spec fn call_finished(s: Registers, t: Registers, wr: Result<(), Error>, ans: ClientAnswer, r: Result<Option<String>, Error>) -> bool {
    match wr {
        Ok(_) => r == Ok::<Option<String>, Error>(ans.console_text) && t == (Registers { pc: s.lr, ..s }),
        Err(e) => r == Err::<Option<String>, Error>(e) && t == s,
    }
}

/// What handling a client call that read `rc` from memory does, from
/// registers `s` and OpenFirmware `of0` to `t` and `of1`, returning `r`.
pub open spec fn call_handled<M: MemoryInterface>(
    mem: &M,
    s: Registers,
    t: Registers,
    of0: Option<OpenFirmware>,
    of1: Option<OpenFirmware>,
    rc: Result<CallRead, Error>,
    r: Result<Option<String>, Error>,
) -> bool {
    match rc {
        Err(e) => r == Err::<Option<String>, Error>(e) && t == s && of1 == of0,
        Ok(CallRead::Call(c)) => match of0 {
            Some(of) => if call_out_of_range(of.client(), c) {
                &&& r matches Err(Error::Cpu(m)) && m@ == call_out_of_range_message()
                &&& t == s
                &&& of1 matches Some(of2) && of2.client() == of.client() && of2.tree() == of.tree()
            } else {
                exists|ans: ClientAnswer, wr: Result<(), Error>| #[trigger] answer_applied(mem, ans, wr)
                    && (of1 matches Some(of2) && present_answer(of.client(), of2.client(), of.tree(), c, ans))
                    && call_finished(s, t, wr, ans, r)
            },
            None => exists|ans: ClientAnswer, wr: Result<(), Error>| #[trigger] answer_applied(mem, ans, wr) && of1 is None
                && absent_answer(c, ans) && call_finished(s, t, wr, ans, r),
        },
        Ok(_) => r == Ok::<Option<String>, Error>(None) && t == s && of1 == of0,
    }
}

/// Answer a call of the client interface stub: read the argument block
/// that r3 points at, run the service (every service fails with -1 when
/// OpenFirmware is absent), write back its bytes and return values, and
/// return to the caller through LR. A null or empty service name is
/// ignored. Gives the text a `write` call shows on the console.
pub fn handle_openfirmware_call<M: MemoryInterface>(cpu: &mut Cpu, mem: &M, openfirmware: &mut Option<OpenFirmware>)
    -> (r: Result<Option<String>, Error>)
    requires
        (*old(openfirmware)) matches Some(of) ==> of.wf(),
    ensures
        final(cpu).mode() == old(cpu).mode(),
        final(cpu).registers == old(cpu).registers || final(cpu).registers == (Registers { pc: old(cpu).registers.lr, ..old(cpu).registers }),
        r is Err ==> final(cpu).registers == old(cpu).registers,
        r matches Ok(Some(_)) ==> final(cpu).registers == (Registers { pc: old(cpu).registers.lr, ..old(cpu).registers }),
        match *old(openfirmware) {
            Some(of) => (*final(openfirmware)) matches Some(of2) && of2.wf() && of2.tree() == of.tree() && of2.interpreter() == of.interpreter(),
            None => (*final(openfirmware)) is None,
        },
        exists|rc: Result<CallRead, Error>| client_call_read(mem, old(cpu).registers.gpr[3], rc)
            && #[trigger] call_handled(mem, old(cpu).registers, final(cpu).registers, *old(openfirmware), *final(openfirmware), rc, r),
{
    let args_ptr = cpu.registers.gpr[3];
    let rc = read_client_call(mem, args_ptr);
    let read = match rc {
        Ok(x) => x,
        Err(e) => {
            assert(call_handled(mem, old(cpu).registers, cpu.registers, *old(openfirmware), *openfirmware, rc, Err(e)));
            return Err(e);
        },
    };
    let call = match read {
        CallRead::Call(c) => c,
        _ => {
            assert(call_handled(mem, old(cpu).registers, cpu.registers, *old(openfirmware), *openfirmware, rc, Ok(None)));
            return Ok(None);
        },
    };
    let answer = match openfirmware.take() {
        Some(mut of) => {
            let answered = answer_with_openfirmware(&mut of, &call);
            *openfirmware = Some(of);
            match answered {
                Ok(a) => a,
                Err(e) => {
                    assert(call_handled(mem, old(cpu).registers, cpu.registers, *old(openfirmware), *openfirmware, rc, Err(e)));
                    return Err(e);
                },
            }
        },
        None => {
            let mut ci = ClientInterface::new();
            let mut dt = DeviceTree::new();
            answer_client_call(&mut ci, &mut dt, false, &call)
        },
    };
    let wr = apply_client_answer(mem, &answer);
    match wr {
        Ok(()) => {},
        Err(e) => {
            assert(call_finished(old(cpu).registers, cpu.registers, wr, answer, Err(e)));
            assert(call_handled(mem, old(cpu).registers, cpu.registers, *old(openfirmware), *openfirmware, rc, Err(e)));
            return Err(e);
        },
    }
    cpu.registers.pc = cpu.registers.lr;
    assert(call_finished(old(cpu).registers, cpu.registers, wr, answer, Ok(answer.console_text)));
    assert(call_handled(mem, old(cpu).registers, cpu.registers, *old(openfirmware), *openfirmware, rc, Ok(answer.console_text)));
    Ok(answer.console_text)
}

/// The message when the debugger's counters cannot count another step.
pub open spec fn counters_exhausted_message() -> Seq<char> {
    "Debugger counters exhausted"@
}

/// The debugger, if on, can count one more step at `pc`.
pub open spec fn debugger_room(d: Option<Debugger>, pc: u32) -> bool {
    d matches Some(x) ==> x@.instruction_count < u64::MAX && (crate::debugger::stops_at(x@.exec_breakpoints, pc)
        ==> x@.exec_breakpoints[pc].hit_count < u32::MAX)
}

/// `d2` is the debugger `d` after it saw the instruction at `pc`.
pub open spec fn debugger_saw(d: Option<Debugger>, d2: Option<Debugger>, pc: u32) -> bool {
    match d {
        Some(x) => d2 matches Some(y) && y@ == crate::debugger::spec_before_instruction(x@, pc).0,
        None => d2 is None,
    }
}

/// The debugger `d` holds execution at `pc`.
pub open spec fn debugger_holds(d: Option<Debugger>, pc: u32) -> bool {
    d matches Some(x) && crate::debugger::spec_before_instruction(x@, pc).1
}

/// The registers, the debugger and OpenFirmware between two cycles.
pub type RunState = (Registers, Option<Debugger>, Option<OpenFirmware>);

/// One cycle of `run_cycles`, from `a` to `b`, with the outcome `out`:
/// `Ok((true, text))` to go on (with the console text of an answered
/// `write`), `Ok((false, None))` when the debugger holds execution, or the
/// error that ends the run (the debugger cannot count another step, or the
/// client call or the step failed).
pub open spec fn cycle<M: MemoryInterface, F: FloatUnit>(mem: &M, fpu: &F, a: RunState, b: RunState, out: Result<(bool, Option<String>), Error>) -> bool {
    let (s, d, of) = a;
    let (t, d2, of2) = b;
    if !debugger_room(d, s.pc) {
        &&& out matches Err(Error::Cpu(m)) && m@ == counters_exhausted_message()
        &&& b == a
    } else if debugger_holds(d, s.pc) {
        out == Ok::<(bool, Option<String>), Error>((false, None)) && t == s && debugger_saw(d, d2, s.pc) && of2 == of
    } else if of is Some && s.pc == OF_CLIENT_INTERFACE_OFFSET {
        &&& debugger_saw(d, d2, s.pc)
        &&& exists|rc: Result<CallRead, Error>, rr: Result<Option<String>, Error>| client_call_read(mem, s.gpr[3], rc)
            && #[trigger] call_handled(mem, s, t, of, of2, rc, rr) && match rr {
            Ok(text) => out == Ok::<(bool, Option<String>), Error>((true, text)),
            Err(e) => out == Err::<(bool, Option<String>), Error>(e),
        }
    } else {
        &&& debugger_saw(d, d2, s.pc)
        &&& of2 == of
        &&& exists|fetch: Result<u32, Error>, mid: Registers, x: Result<ExecResult, Error>, rr: Result<(), Error>|
            mem.reads_u32(s.pc, fetch) && #[trigger] step_outcome(s, t, fetch, mid, x, rr) && step_accesses(mem, fpu, s, fetch, mid, x) && match rr {
            Ok(_) => out == Ok::<(bool, Option<String>), Error>((true, None)),
            Err(e) => out == Err::<(bool, Option<String>), Error>(e),
        }
    }
}

/// Cycle `i` of the trace went on, with console text `texts[i]`.
pub open spec fn cycle_went_on<M: MemoryInterface, F: FloatUnit>(mem: &M, fpu: &F, states: Seq<RunState>, texts: Seq<Option<String>>, i: int) -> bool {
    cycle(mem, fpu, states[i], states[i + 1], Ok::<(bool, Option<String>), Error>((true, texts[i])))
}

/// A run of cycles that each went on: `states` are the states between
/// them, `texts` what each showed on the console.
pub open spec fn run_trace<M: MemoryInterface, F: FloatUnit>(mem: &M, fpu: &F, states: Seq<RunState>, texts: Seq<Option<String>>) -> bool {
    &&& states.len() == texts.len() + 1
    &&& forall|i: int| 0 <= i < texts.len() ==> #[trigger] cycle_went_on(mem, fpu, states, texts, i)
}

/// The console texts that were shown, in order.
pub open spec fn shown(texts: Seq<Option<String>>) -> Seq<String>
    decreases texts.len(),
{
    if texts.len() == 0 {
        Seq::empty()
    } else {
        let rest = shown(texts.drop_last());
        match texts.last() {
            Some(t) => rest.push(t),
            None => rest,
        }
    }
}

/// How a run of at most `cycles` cycles from `init` ends in `fin` with
/// result `r`: after all of them, or at a cycle where the debugger held
/// execution or that failed.
pub open spec fn run_outcome<M: MemoryInterface, F: FloatUnit>(
    mem: &M,
    fpu: &F,
    init: RunState,
    fin: RunState,
    cycles: u64,
    r: Result<Vec<String>, Error>,
) -> bool {
    exists|states: Seq<RunState>, texts: Seq<Option<String>>| #[trigger] run_trace(mem, fpu, states, texts) && states[0] == init
        && texts.len() <= cycles && match r {
        Ok(v) => v@ == shown(texts) && ((texts.len() == cycles && fin == states.last()) || (texts.len() < cycles && cycle(
            mem,
            fpu,
            states.last(),
            fin,
            Ok::<(bool, Option<String>), Error>((false, None)),
        ))),
        Err(e) => texts.len() < cycles && cycle(mem, fpu, states.last(), fin, Err::<(bool, Option<String>), Error>(e)),
    }
}

/// Run up to `cycles` single-threaded steps: stop early when the debugger
/// holds execution; answer client interface calls; execute everything else.
/// Gives the console text of the `write` calls answered.
pub fn run_cycles<M: MemoryInterface, F: FloatUnit>(
    cpu: &mut Cpu,
    memory: &M,
    fpu: &F,
    debugger: &mut Option<Debugger>,
    openfirmware: &mut Option<OpenFirmware>,
    cycles: u64,
) -> (r: Result<Vec<String>, Error>)
    requires
        (*old(openfirmware)) matches Some(of) ==> of.wf(),
    ensures
        final(cpu).mode() == old(cpu).mode(),
        (*final(debugger)) is Some == (*old(debugger)) is Some,
        match *old(openfirmware) {
            Some(of) => (*final(openfirmware)) matches Some(of2) && of2.wf() && of2.tree() == of.tree() && of2.interpreter() == of.interpreter(),
            None => (*final(openfirmware)) is None,
        },
        run_outcome(memory, fpu, (old(cpu).registers, *old(debugger), *old(openfirmware)), (final(cpu).registers, *final(debugger), *final(openfirmware)), cycles, r),
{
    let mut console: Vec<String> = Vec::new();
    let mut n: u64 = 0;
    let ghost init: RunState = (cpu.registers, *debugger, *openfirmware);
    let ghost mut states: Seq<RunState> = seq![init];
    let ghost mut texts: Seq<Option<String>> = Seq::empty();
    while n < cycles
        invariant_except_break
            states.last() == (cpu.registers, *debugger, *openfirmware),
        invariant
            cpu.mode() == old(cpu).mode(),
            (*debugger) is Some == (*old(debugger)) is Some,
            match *old(openfirmware) {
                Some(of) => (*openfirmware) matches Some(of2) && of2.wf() && of2.tree() == of.tree() && of2.interpreter() == of.interpreter(),
                None => (*openfirmware) is None,
            },
            init == (old(cpu).registers, *old(debugger), *old(openfirmware)),
            run_trace(memory, fpu, states, texts),
            states[0] == init,
            texts.len() == n,
            n <= cycles,
            console@ == shown(texts),
        ensures
            (texts.len() == cycles && states.last() == (cpu.registers, *debugger, *openfirmware)) || (texts.len() < cycles && cycle(
                memory,
                fpu,
                states.last(),
                (cpu.registers, *debugger, *openfirmware),
                Ok::<(bool, Option<String>), Error>((false, None)),
            )),
        decreases cycles - n,
    {
        let ghost a: RunState = (cpu.registers, *debugger, *openfirmware);
        let pc = cpu.registers.pc;
        let room = match debugger {
            Some(d) => d.can_count(pc),
            None => true,
        };
        if !room {
            let e = Error::Cpu(String::from_str("Debugger counters exhausted"));
            assert(cycle(memory, fpu, a, (cpu.registers, *debugger, *openfirmware), Err::<(bool, Option<String>), Error>(e)));
            return Err(e);
        }
        let action = next_step_action(debugger, openfirmware.is_some(), pc);
        match action {
            StepAction::Pause => {
                assert(cycle(memory, fpu, a, (cpu.registers, *debugger, *openfirmware), Ok::<(bool, Option<String>), Error>((false, None))));
                break;
            },
            StepAction::ClientCall => {
                let rr = handle_openfirmware_call(cpu, memory, openfirmware);
                match rr {
                    Ok(t) => {
                        assert(cycle(memory, fpu, a, (cpu.registers, *debugger, *openfirmware), Ok::<(bool, Option<String>), Error>((true, t))));
                        proof {
                            let ghost prev_texts = texts;
                            let ghost prev_states = states;
                            states = states.push((cpu.registers, *debugger, *openfirmware));
                            texts = texts.push(t);
                            assert forall|i: int| 0 <= i < texts.len() implies #[trigger] cycle_went_on(memory, fpu, states, texts, i) by {
                                if i < prev_texts.len() {
                                    assert(cycle_went_on(memory, fpu, prev_states, prev_texts, i));
                                }
                            }
                            assert(texts.drop_last() =~= prev_texts);
                        }
                        match t {
                            Some(text) => console.push(text),
                            None => {},
                        }
                    },
                    Err(e) => {
                        assert(cycle(memory, fpu, a, (cpu.registers, *debugger, *openfirmware), Err::<(bool, Option<String>), Error>(e)));
                        return Err(e);
                    },
                }
            },
            StepAction::Execute => {
                let rs = cpu.step(memory, fpu);
                match rs {
                    Ok(()) => {
                        assert(cycle(memory, fpu, a, (cpu.registers, *debugger, *openfirmware), Ok::<(bool, Option<String>), Error>((true, None))));
                        proof {
                            let ghost prev_texts = texts;
                            let ghost prev_states = states;
                            states = states.push((cpu.registers, *debugger, *openfirmware));
                            texts = texts.push(None);
                            assert forall|i: int| 0 <= i < texts.len() implies #[trigger] cycle_went_on(memory, fpu, states, texts, i) by {
                                if i < prev_texts.len() {
                                    assert(cycle_went_on(memory, fpu, prev_states, prev_texts, i));
                                }
                            }
                            assert(texts.drop_last() =~= prev_texts);
                        }
                    },
                    Err(e) => {
                        assert(cycle(memory, fpu, a, (cpu.registers, *debugger, *openfirmware), Err::<(bool, Option<String>), Error>(e)));
                        return Err(e);
                    },
                }
            },
        }
        n = n + 1;
    }
    Ok(console)
}

} // verus!
