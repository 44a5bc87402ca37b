//! The cache of basic blocks found for compilation, by start address.
use std::collections::HashMap;
use vstd::prelude::*;
use vstd::std_specs::iter::IteratorSpec;
use crate::jit::block::BasicBlock;

verus! {

broadcast use vstd::std_specs::hash::group_hash_axioms;

/// The number of instructions in the blocks of `m` at `keys`.
pub open spec fn instruction_sum(keys: Seq<u32>, m: Map<u32, BasicBlock>) -> int
    decreases keys.len(),
{
    if keys.len() == 0 {
        0
    } else {
        instruction_sum(keys.drop_last(), m) + m[keys.last()].instructions@.len()
    }
}

/// `keys` lists each key of `m` exactly once.
pub open spec fn lists_keys(m: Map<u32, BasicBlock>, keys: Seq<u32>) -> bool {
    keys.no_duplicates() && keys.to_set() == m.dom()
}

/// The number of instructions in all blocks of `m`.
pub open spec fn total_instruction_count(m: Map<u32, BasicBlock>) -> int {
    instruction_sum(choose|keys: Seq<u32>| lists_keys(m, keys), m)
}

/// Removing one key from the list takes its block's instructions away
/// from the sum.
proof fn lemma_sum_remove(keys: Seq<u32>, m: Map<u32, BasicBlock>, i: int)
    requires
        0 <= i < keys.len(),
    ensures
        instruction_sum(keys, m) == instruction_sum(keys.remove(i), m) + m[keys[i]].instructions@.len(),
        instruction_sum(keys.remove(i), m) >= 0,
    decreases keys.len(),
{
    if i < keys.len() - 1 {
        lemma_sum_remove(keys.drop_last(), m, i);
        assert(keys.remove(i).drop_last() =~= keys.drop_last().remove(i));
        assert(keys.remove(i).last() == keys.last());
    } else {
        assert(keys.remove(i) =~= keys.drop_last());
        lemma_sum_nonneg(keys.drop_last(), m);
    }
}

/// A sum of counts is never negative.
proof fn lemma_sum_nonneg(keys: Seq<u32>, m: Map<u32, BasicBlock>)
    ensures
        instruction_sum(keys, m) >= 0,
    decreases keys.len(),
{
    if keys.len() > 0 {
        lemma_sum_nonneg(keys.drop_last(), m);
    }
}

/// The sum depends only on the blocks at the listed keys.
proof fn lemma_sum_agree(keys: Seq<u32>, m1: Map<u32, BasicBlock>, m2: Map<u32, BasicBlock>)
    requires
        forall|i: int| 0 <= i < keys.len() ==> m1[#[trigger] keys[i]].instructions@.len() == m2[keys[i]].instructions@.len(),
    ensures
        instruction_sum(keys, m1) == instruction_sum(keys, m2),
    decreases keys.len(),
{
    if keys.len() > 0 {
        let k = keys.drop_last();
        assert forall|i: int| 0 <= i < k.len() implies m1[#[trigger] k[i]].instructions@.len() == m2[k[i]].instructions@.len() by {
            assert(k[i] == keys[i]);
        }
        lemma_sum_agree(k, m1, m2);
        assert(keys.last() == keys[keys.len() - 1]);
    }
}

/// Two lists of the same keys, each without repetition, give the same sum.
proof fn lemma_sum_permutation(s1: Seq<u32>, s2: Seq<u32>, m: Map<u32, BasicBlock>)
    requires
        s1.no_duplicates(),
        s2.no_duplicates(),
        s1.to_set() == s2.to_set(),
    ensures
        instruction_sum(s1, m) == instruction_sum(s2, m),
    decreases s1.len(),
{
    if s1.len() == 0 {
        if s2.len() > 0 {
            assert(s2.to_set().contains(s2[0]));
        }
    } else {
        let x = s1.last();
        assert(s1.to_set().contains(x));
        assert(s2.to_set().contains(x));
        let j = choose|j: int| 0 <= j < s2.len() && s2[j] == x;
        let t1 = s1.drop_last();
        let t2 = s2.remove(j);
        assert(t1.no_duplicates()) by {
            assert forall|a: int, b: int| 0 <= a < t1.len() && 0 <= b < t1.len() && a != b implies t1[a] != t1[b] by {
                assert(t1[a] == s1[a] && t1[b] == s1[b]);
            }
        }
        assert(t2.no_duplicates()) by {
            assert forall|a: int, b: int| 0 <= a < t2.len() && 0 <= b < t2.len() && a != b implies t2[a] != t2[b] by {
                let a2 = if a < j { a } else { a + 1 };
                let b2 = if b < j { b } else { b + 1 };
                assert(t2[a] == s2[a2] && t2[b] == s2[b2]);
            }
        }
        assert forall|y: u32| t1.to_set().contains(y) == t2.to_set().contains(y) by {
            if t1.to_set().contains(y) {
                let a = choose|a: int| 0 <= a < t1.len() && t1[a] == y;
                assert(s1[a] == y);
                assert(s1.to_set().contains(y));
                assert(s2.to_set().contains(y));
                let b = choose|b: int| 0 <= b < s2.len() && s2[b] == y;
                assert(y != x) by {
                    if y == x {
                        assert(s1[a] == s1[s1.len() - 1]);
                    }
                }
                assert(b != j);
                let b2 = if b < j { b } else { b - 1 };
                assert(t2[b2] == y);
            }
            if t2.to_set().contains(y) {
                let b = choose|b: int| 0 <= b < t2.len() && t2[b] == y;
                let b2 = if b < j { b } else { b + 1 };
                assert(s2[b2] == y);
                assert(b2 != j);
                assert(s2.to_set().contains(y));
                assert(s1.to_set().contains(y));
                let a = choose|a: int| 0 <= a < s1.len() && s1[a] == y;
                assert(a != s1.len() - 1);
                assert(t1[a] == y);
            }
        }
        assert(t1.to_set() =~= t2.to_set());
        lemma_sum_permutation(t1, t2, m);
        lemma_sum_remove(s2, m, j);
    }
}

/// A code cache
pub struct CodeCache {
    /// Compiled basic blocks indexed by start address
    blocks: HashMap<u32, BasicBlock>,
    /// Total size of cached code, in bytes of PowerPC instructions
    total_size: usize,
    /// The cached addresses, each once
    order: Ghost<Seq<u32>>,
}

impl CodeCache {
    /// The cached blocks by start address.
    pub closed spec fn blocks_view(self) -> Map<u32, BasicBlock> {
        self.blocks@
    }

    /// The total size of the cached code: four bytes per instruction of
    /// each cached block.
    pub closed spec fn size_count(self) -> usize {
        self.total_size
    }

    /// The cache is consistent: the size count is that of the cached blocks.
    pub closed spec fn wf(self) -> bool {
        &&& lists_keys(self.blocks@, self.order@)
        &&& self.total_size == 4 * instruction_sum(self.order@, self.blocks@)
    }

    /// The listed keys agree with any listing of the cached addresses.
    proof fn lemma_total(self)
        requires
            self.wf(),
        ensures
            total_instruction_count(self.blocks_view()) == instruction_sum(self.order@, self.blocks@),
            4 * total_instruction_count(self.blocks_view()) == self.size_count(),
    {
        let keys = choose|keys: Seq<u32>| lists_keys(self.blocks@, keys);
        assert(lists_keys(self.blocks@, self.order@));
        lemma_sum_permutation(keys, self.order@, self.blocks@);
    }

    /// Create a new code cache
    pub fn new() -> (r: Self)
        ensures
            r.wf(),
            r.blocks_view() == Map::<u32, BasicBlock>::empty(),
            r.size_count() == 0,
    {
        let r = Self { blocks: HashMap::new(), total_size: 0, order: Ghost(Seq::empty()) };
        assert(r.order@.to_set() =~= Set::<u32>::empty());
        r
    }

    /// Insert a compiled block into the cache, replacing any block at that
    /// address; the size count gains the new block's size and loses that of
    /// the block it replaces.
    pub fn insert(&mut self, addr: u32, block: BasicBlock)
        requires
            old(self).wf(),
            old(self).size_count() + 4 * block.instructions@.len() <= usize::MAX,
        ensures
            final(self).wf(),
            final(self).blocks_view() == old(self).blocks_view().insert(addr, block),
            final(self).size_count() == old(self).size_count() + 4 * block.instructions@.len() - (if old(self).blocks_view().contains_key(addr) {
                4 * old(self).blocks_view()[addr].instructions@.len()
            } else {
                0
            }),
            final(self).size_count() == 4 * total_instruction_count(final(self).blocks_view()),
    {
        let ghost old_m = self.blocks@;
        let ghost old_order = self.order@;
        let size = block.size_bytes();
        let replaced: usize = match self.blocks.get(&addr) {
            Some(old_block) => {
                proof {
                    assert(old_order.to_set().contains(addr));
                    let j = choose|j: int| 0 <= j < old_order.len() && old_order[j] == addr;
                    lemma_sum_remove(old_order, old_m, j);
                    lemma_sum_nonneg(old_order.remove(j), old_m);
                }
                old_block.size_bytes()
            },
            None => 0,
        };
        self.total_size = self.total_size - replaced + size;
        let ghost b = block;
        let had = self.blocks.contains_key(&addr);
        self.blocks.insert(addr, block);
        proof {
            let m = self.blocks@;
            if had {
                let j = choose|j: int| 0 <= j < old_order.len() && old_order[j] == addr;
                assert(old_order.to_set().contains(addr));
                lemma_sum_remove(old_order, old_m, j);
                lemma_sum_remove(old_order, m, j);
                let rest = old_order.remove(j);
                assert forall|i: int| 0 <= i < rest.len() implies old_m[#[trigger] rest[i]].instructions@.len() == m[rest[i]].instructions@.len() by {
                    let i2 = if i < j { i } else { i + 1 };
                    assert(rest[i] == old_order[i2]);
                    assert(old_order[i2] != addr);
                }
                lemma_sum_agree(rest, old_m, m);
                assert(self.order@.to_set() =~= m.dom());
            } else {
                lemma_sum_agree(old_order, old_m, old_m);
                self.order@ = old_order.push(addr);
                assert(self.order@.drop_last() =~= old_order);
                assert forall|i: int| 0 <= i < old_order.len() implies old_m[#[trigger] old_order[i]].instructions@.len() == m[old_order[i]].instructions@.len() by {
                    assert(old_order.to_set().contains(old_order[i]));
                }
                lemma_sum_agree(old_order, old_m, m);
                assert(self.order@.no_duplicates()) by {
                    assert forall|a: int, c: int| 0 <= a < self.order@.len() && 0 <= c < self.order@.len() && a != c
                        implies self.order@[a] != self.order@[c] by {
                        if a < old_order.len() && c < old_order.len() {
                            assert(self.order@[a] == old_order[a] && self.order@[c] == old_order[c]);
                        } else if a < old_order.len() {
                            assert(old_order.to_set().contains(old_order[a]));
                        } else if c < old_order.len() {
                            assert(old_order.to_set().contains(old_order[c]));
                        }
                    }
                }
                assert(self.order@.to_set() =~= m.dom()) by {
                    assert forall|y: u32| self.order@.to_set().contains(y) implies m.dom().contains(y) by {
                        let a = choose|a: int| 0 <= a < self.order@.len() && self.order@[a] == y;
                        if a < old_order.len() {
                            assert(old_order[a] == y);
                            assert(old_order.to_set().contains(y));
                        }
                    }
                    assert forall|y: u32| m.dom().contains(y) implies self.order@.to_set().contains(y) by {
                        if y != addr {
                            assert(old_order.to_set().contains(y));
                            let a = choose|a: int| 0 <= a < old_order.len() && old_order[a] == y;
                            assert(self.order@[a] == y);
                        } else {
                            assert(self.order@[old_order.len() as int] == y);
                        }
                    }
                }
            }
            self.lemma_total();
        }
    }

    /// Get a block from the cache
    pub fn get_block(&self, addr: u32) -> (r: Option<&BasicBlock>)
        ensures
            r matches Some(b) ==> self.blocks_view().contains_key(addr) && *b == self.blocks_view()[addr],
            r is None ==> !self.blocks_view().contains_key(addr),
    {
        self.blocks.get(&addr)
    }

    /// Check if a block is cached
    pub fn contains(&self, addr: u32) -> (r: bool)
        ensures
            r == self.blocks_view().contains_key(addr),
    {
        self.blocks.contains_key(&addr)
    }

    /// Remove a block from the cache; its size leaves the size count.
    pub fn remove(&mut self, addr: u32) -> (r: Option<BasicBlock>)
        requires
            old(self).wf(),
        ensures
            final(self).wf(),
            final(self).blocks_view() == old(self).blocks_view().remove(addr),
            r matches Some(b) ==> old(self).blocks_view().contains_key(addr) && b == old(self).blocks_view()[addr]
                && final(self).size_count() == old(self).size_count() - 4 * b.instructions@.len(),
            r is None ==> !old(self).blocks_view().contains_key(addr) && final(self).size_count() == old(self).size_count(),
    {
        let ghost old_m = self.blocks@;
        let ghost old_order = self.order@;
        match self.blocks.remove(&addr) {
            Some(block) => {
                proof {
                    assert(old_order.to_set().contains(addr));
                    let j = choose|j: int| 0 <= j < old_order.len() && old_order[j] == addr;
                    lemma_sum_remove(old_order, old_m, j);
                    let rest = old_order.remove(j);
                    let m = self.blocks@;
                    assert forall|i: int| 0 <= i < rest.len() implies old_m[#[trigger] rest[i]].instructions@.len() == m[rest[i]].instructions@.len() by {
                        let i2 = if i < j { i } else { i + 1 };
                        assert(rest[i] == old_order[i2]);
                    }
                    lemma_sum_agree(rest, old_m, m);
                    self.order@ = rest;
                    assert(rest.no_duplicates()) by {
                        assert forall|a: int, c: int| 0 <= a < rest.len() && 0 <= c < rest.len() && a != c implies rest[a] != rest[c] by {
                            let a2 = if a < j { a } else { a + 1 };
                            let c2 = if c < j { c } else { c + 1 };
                            assert(rest[a] == old_order[a2] && rest[c] == old_order[c2]);
                        }
                    }
                    assert(rest.to_set() =~= m.dom()) by {
                        assert forall|y: u32| rest.to_set().contains(y) implies m.dom().contains(y) by {
                            let a = choose|a: int| 0 <= a < rest.len() && rest[a] == y;
                            let a2 = if a < j { a } else { a + 1 };
                            assert(old_order[a2] == y);
                            assert(old_order.to_set().contains(y));
                        }
                        assert forall|y: u32| m.dom().contains(y) implies rest.to_set().contains(y) by {
                            assert(old_order.to_set().contains(y));
                            let a = choose|a: int| 0 <= a < old_order.len() && old_order[a] == y;
                            assert(a != j);
                            let a2 = if a < j { a } else { a - 1 };
                            assert(rest[a2] == y);
                        }
                    }
                }
                assert(block == old_m[addr]);
                assert(instruction_sum(self.order@, self.blocks@) + block.instructions@.len() == instruction_sum(old_order, old_m));
                let size = block.size_bytes();
                self.total_size = self.total_size - size;
                Some(block)
            },
            None => {
                assert(self.blocks@ =~= old_m);
                None
            },
        }
    }

    /// Clear the entire cache
    pub fn clear(&mut self)
        ensures
            final(self).wf(),
            final(self).blocks_view() == Map::<u32, BasicBlock>::empty(),
            final(self).size_count() == 0,
    {
        self.blocks.clear();
        self.total_size = 0;
        proof {
            self.order@ = Seq::empty();
            assert(self.order@.to_set() =~= Set::<u32>::empty());
        }
    }

    /// Get number of cached blocks
    pub fn len(&self) -> (r: usize)
        requires
            self.wf(),
        ensures
            r == self.blocks_view().len(),
    {
        self.blocks.len()
    }

    /// Check if cache is empty
    pub fn is_empty(&self) -> (r: bool)
        ensures
            r == (self.blocks_view() == Map::<u32, BasicBlock>::empty()),
    {
        let r = self.blocks.is_empty();
        proof {
            if !r {
                assert(self.blocks@ != Map::<u32, BasicBlock>::empty()) by {
                    let k = choose|k: u32| self.blocks@.dom().contains(k);
                    assert(!Map::<u32, BasicBlock>::empty().dom().contains(k));
                }
            } else {
                assert(self.blocks@ =~= Map::<u32, BasicBlock>::empty());
            }
        }
        r
    }

    /// Get total number of instructions in cache
    pub fn total_instructions(&self) -> (r: usize)
        requires
            self.wf(),
        ensures
            r == total_instruction_count(self.blocks_view()),
    {
        proof {
            self.lemma_total();
        }
        let m = &self.blocks;
        let ghost refs = vstd::std_specs::hash::spec_keys_iter(m).remaining();
        let ghost keys = refs.unref();
        proof {
            vstd::std_specs::hash::axiom_spec_keys_iter(m);
            assert(keys.no_duplicates()) by {
                assert forall|i: int, j: int| 0 <= i < keys.len() && 0 <= j < keys.len() && i != j implies keys[i]
                    != keys[j] by {
                    assert(keys[i] == *refs[i] && keys[j] == *refs[j]);
                }
            }
            lemma_sum_permutation(keys, self.order@, self.blocks@);
        }
        let mut total: usize = 0;
        for k in it: m.keys()
            invariant
                it.seq() == refs,
                keys == refs.unref(),
                keys.to_set() == m@.dom(),
                keys.no_duplicates(),
                instruction_sum(keys, m@) == total_instruction_count(self.blocks_view()),
                m@ == self.blocks@,
                4 * instruction_sum(keys, m@) <= usize::MAX,
                total == instruction_sum(keys.take(it.index()), m@),
        {
            assert(*k == keys[it.index()]);
            assert(keys.take(it.index() + 1).drop_last() =~= keys.take(it.index()));
            assert(keys.to_set().contains(*k));
            let b = m.get(k).unwrap();
            proof {
                let rest = keys.take(it.index() + 1);
                lemma_sum_prefix(keys, m@, it.index() + 1);
            }
            total = total + b.instructions.len();
        }
        assert(keys.take(keys.len() as int) =~= keys);
        total
    }

    /// Get estimated cache size in bytes: block metadata, instruction data,
    /// and about eight bytes of native code per PowerPC instruction.
    pub fn estimated_size(&self) -> (r: usize)
        requires
            self.wf(),
            self.blocks_view().len() * vstd::layout::size_of::<BasicBlock>() + 9 * self.size_count() <= usize::MAX,
        ensures
            r == self.blocks_view().len() * vstd::layout::size_of::<BasicBlock>() + 9 * self.size_count(),
            self.size_count() == 4 * total_instruction_count(self.blocks_view()),
    {
        proof {
            self.lemma_total();
        }
        let n = self.blocks.len();
        let s = core::mem::size_of::<BasicBlock>();
        assert(n * s <= usize::MAX) by (nonlinear_arith)
            requires
                n * s + 9 * self.total_size <= usize::MAX,
                self.total_size >= 0,
        ;
        let metadata_size = n * s;
        let instruction_size = self.total_size;
        let estimated_compiled_size = instruction_size * 8;
        metadata_size + instruction_size + estimated_compiled_size
    }
}

/// Inserting twice at one address into an empty cache leaves only the
/// second block, and the cache's size counts only that block: the
/// estimated size is one block's metadata plus nine bytes per instruction
/// byte of it. Removing it then leaves an empty cache of size zero.
pub proof fn law_reinsert_counts_only_the_new_block(
    c0: CodeCache,
    c1: CodeCache,
    c2: CodeCache,
    c3: CodeCache,
    addr: u32,
    b1: BasicBlock,
    b2: BasicBlock,
)
    requires
        c0.blocks_view() == Map::<u32, BasicBlock>::empty(),
        c0.size_count() == 0,
        c1.blocks_view() == c0.blocks_view().insert(addr, b1),
        c1.size_count() == c0.size_count() + 4 * b1.instructions@.len() - (if c0.blocks_view().contains_key(addr) {
            4 * c0.blocks_view()[addr].instructions@.len()
        } else {
            0
        }),
        c2.blocks_view() == c1.blocks_view().insert(addr, b2),
        c2.size_count() == c1.size_count() + 4 * b2.instructions@.len() - (if c1.blocks_view().contains_key(addr) {
            4 * c1.blocks_view()[addr].instructions@.len()
        } else {
            0
        }),
        c2.size_count() == 4 * total_instruction_count(c2.blocks_view()),
        c3.blocks_view() == c2.blocks_view().remove(addr),
        c3.size_count() == c2.size_count() - 4 * c2.blocks_view()[addr].instructions@.len(),
    ensures
        c2.blocks_view() == map![addr => b2],
        c2.blocks_view().len() == 1,
        total_instruction_count(c2.blocks_view()) == b2.instructions@.len(),
        c2.blocks_view().len() * vstd::layout::size_of::<BasicBlock>() + 9 * c2.size_count() == vstd::layout::size_of::<
            BasicBlock,
        >() + 36 * b2.instructions@.len(),
        c3.blocks_view() == Map::<u32, BasicBlock>::empty(),
        c3.blocks_view().len() * vstd::layout::size_of::<BasicBlock>() + 9 * c3.size_count() == 0,
{
    assert(c2.blocks_view() =~= map![addr => b2]);
    assert(c2.blocks_view().dom() =~= set![addr]);
    assert(c3.blocks_view() =~= Map::<u32, BasicBlock>::empty());
    assert(c3.blocks_view().dom() =~= Set::<u32>::empty());
    assert(c3.blocks_view().len() == 0);
    let n = c3.blocks_view().len();
    let z = vstd::layout::size_of::<BasicBlock>();
    assert(n * z == 0) by (nonlinear_arith)
        requires
            n == 0,
    ;
}

/// A prefix's sum never exceeds the whole list's.
proof fn lemma_sum_prefix(keys: Seq<u32>, m: Map<u32, BasicBlock>, n: int)
    requires
        0 <= n <= keys.len(),
    ensures
        0 <= instruction_sum(keys.take(n), m) <= instruction_sum(keys, m),
    decreases keys.len(),
{
    lemma_sum_nonneg(keys.take(n), m);
    if n < keys.len() {
        assert(keys.drop_last().take(n) =~= keys.take(n));
        lemma_sum_prefix(keys.drop_last(), m, n);
    } else {
        assert(keys.take(n) =~= keys);
    }
}

impl Default for CodeCache {
    fn default() -> (r: Self)
        ensures
            r.wf(),
            r.blocks_view() == Map::<u32, BasicBlock>::empty(),
            r.size_count() == 0,
    {
        Self::new()
    }
}

} // verus!
