//! Basic blocks and the cache of blocks found for compilation.
use std::collections::{HashMap, HashSet};
use vstd::prelude::*;
use crate::jit::cache::{CodeCache, total_instruction_count};

pub mod block;
pub mod cache;

verus! {

broadcast use vstd::std_specs::hash::group_hash_axioms;

/// How many executions of a block make it hot, worth compiling.
pub const HOT_THRESHOLD: u32 = 100;

/// The execution count of `addr` after one more execution, given the
/// counts `counts` before it.
pub open spec fn next_count(counts: Map<u32, u32>, addr: u32) -> int {
    if counts.contains_key(addr) { counts[addr] + 1 } else { 1 }
}

/// The compiler's bookkeeping: which blocks are cached, how often each
/// address has been executed, and which addresses have compiled code.
/// Generating the native code itself is left to the code generator.
pub struct JitCompiler {
    /// Code cache for compiled blocks
    cache: CodeCache,
    /// Execution counter for hot code detection
    exec_counters: HashMap<u32, u32>,
    /// Addresses whose compiled code is ready to run
    compiled_functions: HashSet<u32>,
}

impl JitCompiler {
    /// The execution count of each address seen so far.
    pub closed spec fn counts(self) -> Map<u32, u32> {
        self.exec_counters@
    }

    /// The addresses with compiled code.
    pub closed spec fn compiled(self) -> Set<u32> {
        self.compiled_functions@
    }

    /// The block cache.
    pub closed spec fn cache_view(self) -> CodeCache {
        self.cache
    }

    /// Create a compiler with an empty cache and no counts.
    pub fn new() -> (r: Self)
        ensures
            r.counts() == Map::<u32, u32>::empty(),
            r.compiled() == Set::<u32>::empty(),
            r.cache_view().wf(),
            r.cache_view().blocks_view() == Map::<u32, block::BasicBlock>::empty(),
    {
        Self { cache: CodeCache::new(), exec_counters: HashMap::new(), compiled_functions: HashSet::new() }
    }

    /// Count one more execution of the block at `addr` and say whether it
    /// should be compiled now: once its count reaches `HOT_THRESHOLD`, as
    /// long as it has no compiled code.
    pub fn should_compile(&mut self, addr: u32) -> (r: bool)
        requires
            next_count(old(self).counts(), addr) <= u32::MAX,
        ensures
            final(self).counts() == old(self).counts().insert(addr, next_count(old(self).counts(), addr) as u32),
            final(self).compiled() == old(self).compiled(),
            final(self).cache_view() == old(self).cache_view(),
            r == (next_count(old(self).counts(), addr) >= HOT_THRESHOLD && !old(self).compiled().contains(addr)),
    {
        let count: u32 = match self.exec_counters.get(&addr) {
            Some(c) => *c + 1,
            None => 1,
        };
        self.exec_counters.insert(addr, count);
        count >= HOT_THRESHOLD && !self.compiled_functions.contains(&addr)
    }

    /// Check if a block is already compiled
    pub fn is_compiled(&self, addr: u32) -> (r: bool)
        ensures
            r == self.compiled().contains(addr),
    {
        self.compiled_functions.contains(&addr)
    }

    /// Get statistics about JIT compilation
    pub fn stats(&self) -> (r: JitStats)
        requires
            self.cache_view().wf(),
            self.cache_view().blocks_view().len() * vstd::layout::size_of::<block::BasicBlock>() + 9 * self.cache_view().size_count() <= usize::MAX,
        ensures
            r.compiled_blocks == self.cache_view().blocks_view().len(),
            r.total_instructions == total_instruction_count(self.cache_view().blocks_view()),
            r.cache_size_bytes == self.cache_view().blocks_view().len() * vstd::layout::size_of::<block::BasicBlock>() + 9 * self.cache_view().size_count(),
    {
        JitStats {
            compiled_blocks: self.cache.len(),
            total_instructions: self.cache.total_instructions(),
            cache_size_bytes: self.cache.estimated_size(),
        }
    }

    /// Clear the cache, the compiled code and the counts.
    pub fn clear_cache(&mut self)
        ensures
            final(self).counts() == Map::<u32, u32>::empty(),
            final(self).compiled() == Set::<u32>::empty(),
            final(self).cache_view().wf(),
            final(self).cache_view().blocks_view() == Map::<u32, block::BasicBlock>::empty(),
            final(self).cache_view().size_count() == 0,
    {
        self.cache.clear();
        self.compiled_functions.clear();
        self.exec_counters.clear();
    }
}


/// Statistics about JIT compilation.
#[derive(Debug, Clone, Copy, PartialEq, Eq, Structural)]
pub struct JitStats {
    /// Number of compiled blocks
    pub compiled_blocks: usize,
    /// Total instructions in cache
    pub total_instructions: usize,
    /// Estimated cache size in bytes
    pub cache_size_bytes: usize,
}

} // verus!
