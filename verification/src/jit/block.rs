//! Basic blocks: straight runs of instructions that end at a branch, a
//! system call or trap, or a size limit.
use vstd::prelude::*;
use crate::cpu::MemoryInterface;
use crate::decoder::{Instruction, decode_instruction, spec_decode_instruction};
use crate::error::Error;

verus! {

/// The most instructions a block holds.
pub const MAX_BLOCK_SIZE: usize = 1000;

/// How a block exits.
#[derive(Debug, Clone, Copy, PartialEq, Eq, Structural)]
pub enum ExitType {
    /// Unconditional branch to target
    Branch(u32),
    /// Conditional branch (may fall through)
    ConditionalBranch(u32),
    /// Branch to link register (return)
    BranchToLR,
    /// Branch to count register
    BranchToCTR,
    /// Fall through to next instruction
    Fallthrough,
    /// System call or trap
    Syscall,
    /// Unknown/invalid instruction
    Unknown,
}

/// A basic block of instructions.
#[derive(Debug, Clone)]
pub struct BasicBlock {
    /// Starting address of the block
    pub start_addr: u32,
    /// Instructions in this block
    pub instructions: Vec<Instruction>,
    /// How this block exits
    pub exit_type: ExitType,
    /// Address of next instruction after block
    pub next_addr: u32,
}

/// Builds basic blocks from memory.
pub struct BlockBuilder;

/// Whether an instruction ends a basic block: a branch, a system call or
/// trap, or a return from interrupt.
pub open spec fn spec_is_block_terminator(instr: Instruction) -> bool {
    match instr {
        Instruction::B { .. } | Instruction::Bc { .. } | Instruction::Bclr { .. } | Instruction::Bcctr { .. }
        | Instruction::Sc | Instruction::Tw { .. } | Instruction::Twi { .. } | Instruction::Rfi => true,
        _ => false,
    }
}

/// How a block that ends with `instr` at `addr` exits. Relative targets
/// wrap around the address space.
pub open spec fn spec_exit_type(instr: Instruction, addr: u32) -> ExitType {
    match instr {
        Instruction::B { li, aa, .. } => if aa {
            ExitType::Branch(li as u32)
        } else {
            ExitType::Branch(((addr + li) % 0x1_0000_0000) as u32)
        },
        Instruction::Bc { bd, aa, .. } => if aa {
            ExitType::ConditionalBranch(bd as u32)
        } else {
            ExitType::ConditionalBranch(((addr + bd) % 0x1_0000_0000) as u32)
        },
        Instruction::Bclr { .. } => ExitType::BranchToLR,
        Instruction::Bcctr { .. } => ExitType::BranchToCTR,
        Instruction::Sc => ExitType::Syscall,
        Instruction::Tw { .. } | Instruction::Twi { .. } => ExitType::Syscall,
        Instruction::Rfi => ExitType::BranchToLR,
        _ => ExitType::Unknown,
    }
}

/// Whether a block is well formed: it starts at its address, holds one to
/// `MAX_BLOCK_SIZE` instructions of which only the last may end a block,
/// ends four bytes per instruction later, and exits as its last
/// instruction says, or falls through when it was cut at the size limit.
pub open spec fn well_formed_block(b: BasicBlock, start: u32) -> bool {
    let n = b.instructions@.len();
    &&& b.start_addr == start
    &&& 1 <= n <= MAX_BLOCK_SIZE
    &&& b.next_addr == start + 4 * n
    &&& forall|i: int| 0 <= i < n - 1 ==> !spec_is_block_terminator(#[trigger] b.instructions@[i])
    &&& if spec_is_block_terminator(b.instructions@[n - 1]) {
        b.exit_type == spec_exit_type(b.instructions@[n - 1], (b.next_addr - 4) as u32)
    } else {
        n == MAX_BLOCK_SIZE && b.exit_type == ExitType::Fallthrough
    }
}

/// The address of instruction `i` of a block starting at `start`.
pub open spec fn instr_addr(start: u32, i: int) -> u32 {
    (start + 4 * i) as u32
}

/// Reading the words from `start` on, one per instruction, can give `words`.
pub open spec fn words_read<M: MemoryInterface>(memory: &M, start: u32, words: Seq<u32>) -> bool {
    forall|i: int| 0 <= i < words.len() ==> #[trigger] memory.reads_u32(instr_addr(start, i), Ok::<u32, Error>(words[i]))
}

/// `instrs` are the decoded `words`.
pub open spec fn decodes_to(words: Seq<u32>, instrs: Seq<Instruction>) -> bool {
    &&& words.len() == instrs.len()
    &&& forall|i: int| 0 <= i < words.len() ==> #[trigger] instrs[i] == spec_decode_instruction(words[i])
}

/// The error for a block that would run past the end of the address space.
pub open spec fn block_overflow_message() -> Seq<char> {
    "Block runs past the end of the address space"@
}

impl BlockBuilder {
    /// Build a basic block starting at the given address. Each instruction
    /// is read from memory and decoded. The build fails on a failed read,
    /// and when the block would run past the end of the address space.
    pub fn build_from_memory<M: MemoryInterface>(start_addr: u32, memory: &M) -> (r: Result<BasicBlock, Error>)
        ensures
            r matches Ok(b) ==> well_formed_block(b, start_addr),
            r matches Ok(b) ==> exists|words: Seq<u32>| #[trigger] words_read(memory, start_addr, words) && decodes_to(words, b.instructions@),
            r matches Err(e) ==> (exists|words: Seq<u32>| #[trigger] words_read(memory, start_addr, words) && words.len() < MAX_BLOCK_SIZE
                && (forall|i: int| 0 <= i < words.len() ==> !spec_is_block_terminator(#[trigger] spec_decode_instruction(words[i])))
                && memory.reads_u32(instr_addr(start_addr, words.len() as int), Err::<u32, Error>(e)))
                || (e matches Error::Cpu(m) && m@ == block_overflow_message() && exists|words: Seq<u32>| #[trigger] words_read(memory, start_addr, words)
                && 1 <= words.len() <= MAX_BLOCK_SIZE
                && (forall|i: int| 0 <= i < words.len() - 1 ==> !spec_is_block_terminator(#[trigger] spec_decode_instruction(words[i])))
                && start_addr + 4 * words.len() > u32::MAX),
    {
        let mut instructions: Vec<Instruction> = Vec::new();
        let ghost mut words: Seq<u32> = Seq::empty();
        let mut current_addr = start_addr;
        let exit_type;
        loop
            invariant_except_break
                instructions@.len() < MAX_BLOCK_SIZE,
                instructions@.len() > 0 ==> !spec_is_block_terminator(instructions@[instructions@.len() - 1]),
            invariant
                current_addr == start_addr + 4 * instructions@.len(),
                forall|i: int| 0 <= i < instructions@.len() - 1 ==> !spec_is_block_terminator(#[trigger] instructions@[i]),
                words_read(memory, start_addr, words),
                decodes_to(words, instructions@),
            ensures
                words_read(memory, start_addr, words),
                decodes_to(words, instructions@),
                1 <= instructions@.len() <= MAX_BLOCK_SIZE,
                current_addr == start_addr + 4 * instructions@.len(),
                forall|i: int| 0 <= i < instructions@.len() - 1 ==> !spec_is_block_terminator(#[trigger] instructions@[i]),
                if spec_is_block_terminator(instructions@[instructions@.len() - 1]) {
                    exit_type == spec_exit_type(instructions@[instructions@.len() - 1], (current_addr - 4) as u32)
                } else {
                    instructions@.len() == MAX_BLOCK_SIZE && exit_type == ExitType::Fallthrough
                },
            decreases MAX_BLOCK_SIZE - instructions@.len(),
        {
            let rd = memory.read_u32(current_addr);
            let instr_word = match rd {
                Ok(w) => w,
                Err(e) => {
                    assert(current_addr == instr_addr(start_addr, words.len() as int));
                    assert forall|i: int| 0 <= i < words.len() implies !spec_is_block_terminator(#[trigger] spec_decode_instruction(words[i])) by {
                        assert(instructions@[i] == spec_decode_instruction(words[i]));
                    }
                    return Err(e);
                },
            };
            let instr = match decode_instruction(instr_word) {
                Ok(i) => i,
                Err(e) => return Err(e),
            };
            let is_block_end = Self::is_block_terminator(&instr);
            proof {
                let prev = words;
                words = words.push(instr_word);
                assert(current_addr == instr_addr(start_addr, prev.len() as int));
                assert forall|i: int| 0 <= i < words.len() implies #[trigger] memory.reads_u32(instr_addr(start_addr, i), Ok::<u32, Error>(words[i])) by {
                    if i < prev.len() {
                        assert(words[i] == prev[i]);
                    }
                }
            }
            instructions.push(instr);
            if current_addr > u32::MAX - 4 {
                proof {
                    assert forall|i: int| 0 <= i < words.len() - 1 implies !spec_is_block_terminator(#[trigger] spec_decode_instruction(words[i])) by {
                        assert(instructions@[i] == spec_decode_instruction(words[i]));
                    }
                }
                let e = Error::Cpu(String::from_str("Block runs past the end of the address space"));
                assert(e matches Error::Cpu(m) && m@ == block_overflow_message());
                assert(words_read(memory, start_addr, words) && 1 <= words.len() <= MAX_BLOCK_SIZE && start_addr + 4 * words.len() > u32::MAX);
                return Err(e);
            }
            current_addr = current_addr + 4;
            if is_block_end {
                exit_type = Self::get_exit_type(&instr, current_addr - 4);
                break;
            }
            if instructions.len() >= MAX_BLOCK_SIZE {
                exit_type = ExitType::Fallthrough;
                break;
            }
        }
        Ok(BasicBlock { start_addr, instructions, exit_type, next_addr: current_addr })
    }

    /// Check if instruction terminates a basic block
    fn is_block_terminator(instr: &Instruction) -> (r: bool)
        ensures
            r == spec_is_block_terminator(*instr),
    {
        match instr {
            Instruction::B { .. } | Instruction::Bc { .. } | Instruction::Bclr { .. } | Instruction::Bcctr { .. }
            | Instruction::Sc | Instruction::Tw { .. } | Instruction::Twi { .. } | Instruction::Rfi => true,
            _ => false,
        }
    }

    /// Determine the exit type from a terminator instruction
    fn get_exit_type(instr: &Instruction, instr_addr: u32) -> (r: ExitType)
        ensures
            r == spec_exit_type(*instr, instr_addr),
    {
        match instr {
            Instruction::B { li, aa, .. } => {
                if *aa {
                    ExitType::Branch(*li as u32)
                } else {
                    let t = instr_addr.wrapping_add(*li as u32);
                    assert(t == ((instr_addr + *li) % 0x1_0000_0000) as u32) by (bit_vector)
                        requires t == instr_addr.wrapping_add(*li as u32);
                    ExitType::Branch(t)
                }
            },
            Instruction::Bc { bd, aa, .. } => {
                if *aa {
                    ExitType::ConditionalBranch(*bd as i32 as u32)
                } else {
                    let t = instr_addr.wrapping_add(*bd as i32 as u32);
                    assert(t == ((instr_addr + *bd) % 0x1_0000_0000) as u32) by (bit_vector)
                        requires t == instr_addr.wrapping_add(*bd as i32 as u32);
                    ExitType::ConditionalBranch(t)
                }
            },
            Instruction::Bclr { .. } => ExitType::BranchToLR,
            Instruction::Bcctr { .. } => ExitType::BranchToCTR,
            Instruction::Sc => ExitType::Syscall,
            Instruction::Tw { .. } | Instruction::Twi { .. } => ExitType::Syscall,
            Instruction::Rfi => ExitType::BranchToLR,
            _ => ExitType::Unknown,
        }
    }
}

impl BasicBlock {
    /// Get the size of this block in bytes
    pub fn size_bytes(&self) -> (r: usize)
        requires
            self.instructions@.len() * 4 <= usize::MAX,
        ensures
            r == self.instructions@.len() * 4,
    {
        self.instructions.len() * 4
    }

    /// Check if this block can fall through to the next instruction
    pub fn can_fallthrough(&self) -> (r: bool)
        ensures
            r == (self.exit_type is Fallthrough || self.exit_type is ConditionalBranch),
    {
        match self.exit_type {
            ExitType::Fallthrough | ExitType::ConditionalBranch(_) => true,
            _ => false,
        }
    }

    /// Get the branch target if this is a direct branch
    pub fn branch_target(&self) -> (r: Option<u32>)
        ensures
            r == (match self.exit_type {
                ExitType::Branch(t) | ExitType::ConditionalBranch(t) => Some(t),
                _ => None::<u32>,
            }),
    {
        match self.exit_type {
            ExitType::Branch(target) | ExitType::ConditionalBranch(target) => Some(target),
            _ => None,
        }
    }
}

} // verus!
