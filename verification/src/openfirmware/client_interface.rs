//! The OpenFirmware client interface: the services a booting ROM calls to
//! look up devices, read their properties and claim memory.
use vstd::prelude::*;
use crate::openfirmware::device_tree::DeviceTree;
use crate::text::{str_eq, first_match, lemma_first_match, lemma_first_match_is};

verus! {

/// A claimed memory region.
#[derive(Debug, Clone, Copy, PartialEq, Eq, Structural)]
pub struct MemoryRegion {
    pub base: u32,
    pub size: u32,
}

/// The result of a client interface service.
#[derive(Debug, Clone)]
pub struct ServiceResult {
    /// Return values to write back to the return value array
    pub returns: Vec<u32>,
    /// Optional memory write (address, data)
    pub memory_write: Option<(u32, Vec<u8>)>,
}

/// The failure value of a service (-1).
pub const SERVICE_FAILED: u32 = 0xFFFF_FFFF;

impl ServiceResult {
    /// Create a simple result with just return values
    pub fn new(values: Vec<u32>) -> (r: Self)
        ensures
            r.returns@ == values@,
            r.memory_write is None,
    {
        Self { returns: values, memory_write: None }
    }

    /// Create a result with return values and a memory write
    pub fn with_memory_write(values: Vec<u32>, addr: u32, data: Vec<u8>) -> (r: Self)
        ensures
            r.returns@ == values@,
            r.memory_write matches Some((a, d)) && a == addr && d@ == data@,
    {
        Self { returns: values, memory_write: Some((addr, data)) }
    }
}

/// A one-element list.
fn single(a: u32) -> (r: Vec<u32>)
    ensures
        r@ == seq![a],
{
    let mut v: Vec<u32> = Vec::new();
    v.push(a);
    v
}

/// A two-element list.
fn pair(a: u32, b: u32) -> (r: Vec<u32>)
    ensures
        r@ == seq![a, b],
{
    let mut v: Vec<u32> = Vec::new();
    v.push(a);
    v.push(b);
    v
}

/// A result that only returns `v`.
pub open spec fn returns_only(r: ServiceResult, v: Seq<u32>) -> bool {
    r.returns@ == v && r.memory_write is None
}

/// The client interface state: the device handles given out so far, and
/// the claimed memory.
pub struct ClientInterface {
    /// The device path of each handle; handle 0 is the root.
    paths: Vec<String>,
    /// Allocated memory regions
    allocated_regions: Vec<MemoryRegion>,
    /// Next available address for dynamic allocation
    next_alloc_addr: u32,
}

/// The path of a handle entry.
pub open spec fn path_key() -> spec_fn(String) -> Seq<char> {
    |s: String| s@
}

/// Whether a region and the range `[virt, virt + size)` overlap, as the
/// claim service tests it.
pub open spec fn overlaps(region: MemoryRegion, virt: u32, size: u32) -> bool {
    let region_end = region.base + region.size;
    let request_end = virt + size;
    (virt >= region.base && virt < region_end) || (request_end > region.base && request_end <= region_end) || (virt
        <= region.base && request_end >= region_end)
}

/// The address a dynamic claim starts at: the next free address, moved up
/// to the alignment when it is not aligned.
pub open spec fn aligned_alloc_addr(next: u32, align: u32) -> int {
    if align > 0 && next & ((align - 1) as u32) != 0 {
        ((next + align) as u32 & !((align - 1) as u32)) as int
    } else {
        next as int
    }
}

/// What the `getprop` service gives in state `s0`.
pub open spec fn getprop_effect(s0: ClientInterface, tree: DeviceTree, args: Seq<u32>, sargs: Seq<String>, r: ServiceResult) -> bool {
    &&& (if args.len() < 4 || sargs.len() < 2 || args[0] >= s0.handles().len() {
        returns_only(r, seq![SERVICE_FAILED])
    } else {
        let path = s0.handles()[args[0] as int];
        match tree.node_at(path) {
            Some(n) => if n.props().contains_key(sargs[1]@) {
                let value = n.props()[sargs[1]@];
                let len = value.len() as u32;
                let copy_len = if len < args[3] { len } else { args[3] };
                r.returns@ == seq![len] && (r.memory_write matches Some((a, d)) && a == args[2] && d@
                    == value.subrange(0, copy_len as int))
            } else {
                returns_only(r, seq![SERVICE_FAILED])
            },
            None => returns_only(r, seq![SERVICE_FAILED]),
        }
    })
}

/// What the `getproplen` service gives in state `s0`.
pub open spec fn getproplen_effect(s0: ClientInterface, tree: DeviceTree, args: Seq<u32>, sargs: Seq<String>, r: ServiceResult) -> bool {
    &&& (if args.len() < 2 || sargs.len() < 2 || args[0] >= s0.handles().len() {
        returns_only(r, seq![SERVICE_FAILED])
    } else {
        match tree.node_at(s0.handles()[args[0] as int]) {
            Some(n) => if n.props().contains_key(sargs[1]@) {
                returns_only(r, seq![n.props()[sargs[1]@].len() as u32])
            } else {
                returns_only(r, seq![SERVICE_FAILED])
            },
            None => returns_only(r, seq![SERVICE_FAILED]),
        }
    })
}

/// What the `finddevice` service gives and does, from state `s0` to `s1`.
pub open spec fn finddevice_effect(s0: ClientInterface, s1: ClientInterface, tree: DeviceTree, sargs: Seq<String>, r: ServiceResult) -> bool {
    &&& (s1.wf())
    &&& (s1.regions() == s0.regions())
    &&& (s1.next_alloc() == s0.next_alloc())
    &&& (sargs.len() == 0 ==> returns_only(r, seq![SERVICE_FAILED]) && s1.handles() == s0.handles())
    &&& (sargs.len() > 0 ==> match s0.handle_of(sargs[0]@) {
        Some(h) => returns_only(r, seq![h as u32]) && s1.handles() == s0.handles(),
        None => if tree.node_at(sargs[0]@) is Some {
            returns_only(r, seq![s0.handles().len() as u32])
                && s1.handles() == s0.handles().push(sargs[0]@)
        } else {
            returns_only(r, seq![SERVICE_FAILED]) && s1.handles() == s0.handles()
        },
    })
}

/// What the `claim` service gives and does, from state `s0` to `s1`.
pub open spec fn claim_effect(s0: ClientInterface, s1: ClientInterface, args: Seq<u32>, r: ServiceResult) -> bool {
    &&& (args.len() < 3 ==> returns_only(r, seq![SERVICE_FAILED]) && s1 == s0)
    &&& (args.len() >= 3 ==> {
        let virt = args[0];
        let size = args[1];
        let align = args[2];
        if virt != 0 {
            if exists|i: int| 0 <= i < s0.regions().len() && overlaps(#[trigger] s0.regions()[i], virt, size) {
                returns_only(r, seq![SERVICE_FAILED]) && s1 == s0
            } else {
                returns_only(r, seq![virt]) && s1.regions() == s0.regions().push(
                    MemoryRegion { base: virt, size },
                ) && s1.next_alloc() == s0.next_alloc() && s1.handles() == s0.handles()
            }
        } else {
            let base = aligned_alloc_addr(s0.next_alloc(), align) as u32;
            returns_only(r, seq![base]) && s1.regions() == s0.regions().push(
                MemoryRegion { base, size },
            ) && s1.next_alloc() == base + size && s1.handles() == s0.handles()
        }
    })
}

/// What the `release` service gives and does, from state `s0` to `s1`.
pub open spec fn release_effect(s0: ClientInterface, s1: ClientInterface, args: Seq<u32>, r: ServiceResult) -> bool {
    &&& (args.len() < 2 ==> returns_only(r, seq![SERVICE_FAILED]) && s1 == s0)
    &&& (args.len() >= 2 ==> {
        let target = MemoryRegion { base: args[0], size: args[1] };
        match s0.regions().index_of_first(target) {
            Some(j) => returns_only(r, seq![0u32]) && s1.regions() == s0.regions().remove(j)
                && s1.handles() == s0.handles() && s1.next_alloc() == s0.next_alloc(),
            None => returns_only(r, seq![SERVICE_FAILED]) && s1 == s0,
        }
    })
}

/// What the `call-method` service gives and does, from state `s0` to `s1`.
pub open spec fn call_method_effect(s0: ClientInterface, s1: ClientInterface, args: Seq<u32>, sargs: Seq<String>, r: ServiceResult) -> bool {
    &&& (sargs.len() == 0 || args.len() < 2 ==> returns_only(r, seq![SERVICE_FAILED]) && s1 == s0)
    &&& (sargs.len() > 0 && args.len() >= 2 ==> {
        let method = sargs[0]@;
        let margs = args.subrange(2, args.len() as int);
        if method == "claim"@ {
            if margs.len() >= 3 {
                let virt = margs[0];
                let size = margs[1];
                let align = margs[2];
                if virt != 0 && exists|i: int| 0 <= i < s0.regions().len() && overlaps(
                    #[trigger] s0.regions()[i],
                    virt,
                    size,
                ) {
                    returns_only(r, seq![0u32, SERVICE_FAILED]) && s1 == s0
                } else {
                    let base = if virt != 0 { virt } else { aligned_alloc_addr(s0.next_alloc(), align) as u32 };
                    returns_only(r, seq![0u32, base]) && s1.regions() == s0.regions().push(
                        MemoryRegion { base, size },
                    )
                }
            } else {
                returns_only(r, seq![SERVICE_FAILED, 0u32]) && s1 == s0
            }
        } else if method == "instantiate-rtas"@ {
            s1 == s0 && if margs.len() >= 2 {
                returns_only(r, seq![0u32, margs[0]])
            } else {
                returns_only(r, seq![SERVICE_FAILED])
            }
        } else {
            returns_only(r, seq![SERVICE_FAILED]) && s1 == s0
        }
    })
}

/// What a service that always answers with `v` does: nothing else.
pub open spec fn answers(s0: ClientInterface, s1: ClientInterface, r: ServiceResult, v: Seq<u32>) -> bool {
    returns_only(r, v) && s1 == s0
}

/// What the device-tree traversal services (`peer`, `child`, `parent`)
/// give: the device tree offers no traversal of nodes, so no relative is
/// ever reported (0); -1 when no handle is given.
pub open spec fn traversal_effect(s0: ClientInterface, s1: ClientInterface, args: Seq<u32>, r: ServiceResult) -> bool {
    if args.len() == 0 {
        answers(s0, s1, r, seq![SERVICE_FAILED])
    } else {
        answers(s0, s1, r, seq![0u32])
    }
}

/// What the service named `service` gives and does, from state `s0` to
/// `s1`.
pub open spec fn service_effect(s0: ClientInterface, s1: ClientInterface, tree: DeviceTree, service: Seq<char>, args: Seq<u32>, sargs: Seq<String>, r: ServiceResult) -> bool {
    if service == "peer"@ || service == "child"@ || service == "parent"@ {
        traversal_effect(s0, s1, args, r)
    } else if service == "getprop"@ {
        getprop_effect(s0, tree, args, sargs, r) && s1 == s0
    } else if service == "getproplen"@ {
        getproplen_effect(s0, tree, args, sargs, r) && s1 == s0
    } else if service == "nextprop"@ || service == "package-to-path"@ {
        answers(s0, s1, r, seq![SERVICE_FAILED])
    } else if service == "setprop"@ || service == "close"@ || service == "read"@ || service == "seek"@ || service
        == "exit"@ || service == "test"@ {
        answers(s0, s1, r, seq![0u32])
    } else if service == "open"@ {
        answers(s0, s1, r, seq![1u32])
    } else if service == "finddevice"@ {
        finddevice_effect(s0, s1, tree, sargs, r)
    } else if service == "claim"@ {
        claim_effect(s0, s1, args, r)
    } else if service == "release"@ {
        release_effect(s0, s1, args, r)
    } else if service == "write"@ {
        answers(s0, s1, r, if args.len() < 3 { seq![SERVICE_FAILED] } else { seq![args[2]] })
    } else if service == "call-method"@ {
        call_method_effect(s0, s1, args, sargs, r)
    } else {
        answers(s0, s1, r, seq![SERVICE_FAILED])
    }
}

impl ClientInterface {
    /// The device path of each handle, by handle.
    pub closed spec fn handles(self) -> Seq<Seq<char>> {
        self.paths@.map_values(|s: String| s@)
    }

    /// The claimed regions, in claim order.
    pub closed spec fn regions(self) -> Seq<MemoryRegion> {
        self.allocated_regions@
    }

    /// Where the next dynamic claim starts looking.
    pub closed spec fn next_alloc(self) -> u32 {
        self.next_alloc_addr
    }

    /// The interface is consistent: handle 0 is the root, no path has two
    /// handles, and every handle fits in 32 bits.
    pub closed spec fn wf(self) -> bool {
        &&& self.paths@.len() >= 1
        &&& self.paths@[0]@ == seq!['/']
        &&& self.paths@.len() <= u32::MAX
        &&& forall|i: int, j: int| 0 <= i < j < self.paths@.len() ==> self.paths@[i]@ != self.paths@[j]@
    }

    /// The handle of a path, if one was given out.
    pub open spec fn handle_of(self, path: Seq<char>) -> Option<int> {
        first_match(self.handles(), |s: Seq<char>| s, path)
    }

    /// Whether every claim and the alignment arithmetic a claim with these
    /// arguments performs stays within 32 bits.
    pub open spec fn claim_fits(self, virt: u32, size: u32, align: u32) -> bool {
        if virt != 0 {
            virt + size <= u32::MAX && forall|i: int| 0 <= i < self.regions().len() ==> #[trigger] self.regions()[i].base
                + self.regions()[i].size <= u32::MAX
        } else {
            (align > 0 && self.next_alloc() & ((align - 1) as u32) != 0 ==> self.next_alloc() + align <= u32::MAX)
                && aligned_alloc_addr(self.next_alloc(), align) + size <= u32::MAX
        }
    }

    /// How many handles were given out.
    pub fn handle_count(&self) -> (r: usize)
        ensures
            r == self.handles().len(),
    {
        self.paths.len()
    }

    /// Whether a claim with these arguments stays within 32 bits
    /// (`claim_fits`).
    pub fn claim_fits_check(&self, virt: u32, size: u32, align: u32) -> (r: bool)
        ensures
            r == self.claim_fits(virt, size, align),
    {
        if virt != 0 {
            if virt as u64 + size as u64 > 0xFFFF_FFFFu64 {
                return false;
            }
            let mut i: usize = 0;
            while i < self.allocated_regions.len()
                invariant
                    i <= self.allocated_regions@.len(),
                    virt != 0,
                    virt + size <= u32::MAX,
                    forall|k: int| 0 <= k < i ==> #[trigger] self.regions()[k].base + self.regions()[k].size <= u32::MAX,
                decreases self.allocated_regions@.len() - i,
            {
                let region = self.allocated_regions[i];
                assert(self.regions()[i as int] == region);
                if region.base as u64 + region.size as u64 > 0xFFFF_FFFFu64 {
                    assert(!(self.regions()[i as int].base + self.regions()[i as int].size <= u32::MAX));
                    return false;
                }
                i = i + 1;
            }
            true
        } else {
            let next = self.next_alloc_addr;
            if align > 0 && next & (align - 1) != 0 {
                if next as u64 + align as u64 > 0xFFFF_FFFFu64 {
                    return false;
                }
                let addr = (next + align) & !(align - 1);
                addr as u64 + size as u64 <= 0xFFFF_FFFFu64
            } else {
                next as u64 + size as u64 <= 0xFFFF_FFFFu64
            }
        }
    }

    /// Create a new client interface: handle 0 is the root, no memory is
    /// claimed, and dynamic claims start at 4 MiB.
    pub fn new() -> (r: Self)
        ensures
            r.wf(),
            r.handles() == seq![seq!['/']],
            r.regions().len() == 0,
            r.next_alloc() == 0x0040_0000,
    {
        let mut paths: Vec<String> = Vec::new();
        let root = "/".to_owned();
        proof {
            reveal_strlit("/");
            assert(root@ =~= seq!['/']);
        }
        paths.push(root);
        let r = Self { paths, allocated_regions: Vec::new(), next_alloc_addr: 0x0040_0000 };
        assert(r.handles() =~= seq![seq!['/']]);
        r
    }

    /// The handle already given out for a path.
    fn find_handle(&self, path: &str) -> (r: Option<u32>)
        requires
            self.wf(),
        ensures
            r matches Some(h) ==> self.handle_of(path@) == Some(h as int),
            r is None ==> self.handle_of(path@) is None,
    {
        let ghost hs = self.handles();
        let mut i: usize = 0;
        while i < self.paths.len()
            invariant
                self.wf(),
                hs == self.handles(),
                i <= self.paths@.len(),
                forall|j: int| 0 <= j < i ==> #[trigger] hs[j] != path@,
            decreases self.paths@.len() - i,
        {
            if str_eq(self.paths[i].as_str(), path) {
                proof {
                    lemma_first_match_is(hs, |s: Seq<char>| s, path@, i as int);
                }
                return Some(i as u32);
            }
            i = i + 1;
        }
        proof {
            lemma_first_match_is(hs, |s: Seq<char>| s, path@, i as int);
        }
        None
    }

    /// Give out the next handle for a path that has none.
    fn allocate_handle(&mut self, path: &str) -> (h: u32)
        requires
            old(self).wf(),
            old(self).handle_of(path@) is None,
            old(self).handles().len() < u32::MAX,
        ensures
            final(self).wf(),
            h == old(self).handles().len(),
            final(self).handles() == old(self).handles().push(path@),
            final(self).regions() == old(self).regions(),
            final(self).next_alloc() == old(self).next_alloc(),
    {
        let h = self.paths.len() as u32;
        proof {
            lemma_first_match(self.handles(), |s: Seq<char>| s, path@);
        }
        self.paths.push(path.to_owned());
        proof {
            assert(self.handles() =~= old(self).handles().push(path@));
            assert forall|i: int, j: int| 0 <= i < j < self.paths@.len() implies self.paths@[i]@ != self.paths@[j]@ by {
                if j == self.paths@.len() - 1 {
                    assert(old(self).handles()[i] == old(self).paths@[i]@);
                }
            }
        }
        h
    }

    /// The handle of a path: the one given out before, else a new one when
    /// the device tree has the path, else 0.
    fn get_or_allocate_handle(&mut self, device_tree: &DeviceTree, path: &str) -> (r: ServiceResult)
        requires
            old(self).wf(),
            old(self).handles().len() < u32::MAX,
        ensures
            final(self).wf(),
            final(self).regions() == old(self).regions(),
            final(self).next_alloc() == old(self).next_alloc(),
            match old(self).handle_of(path@) {
                Some(h) => returns_only(r, seq![h as u32]) && final(self).handles() == old(self).handles(),
                None => if device_tree.node_at(path@) is Some {
                    returns_only(r, seq![old(self).handles().len() as u32])
                        && final(self).handles() == old(self).handles().push(path@)
                } else {
                    returns_only(r, seq![0u32]) && final(self).handles() == old(self).handles()
                },
            },
    {
        match self.find_handle(path) {
            Some(h) => ServiceResult::new(single(h)),
            None => {
                if device_tree.find_node(path).is_some() {
                    let h = self.allocate_handle(path);
                    ServiceResult::new(single(h))
                } else {
                    ServiceResult::new(single(0))
                }
            },
        }
    }

    /// The path of a handle, if it was given out.
    fn path_of(&self, handle: u32) -> (r: Option<&str>)
        requires
            self.wf(),
        ensures
            r matches Some(p) ==> handle < self.handles().len() && p@ == self.handles()[handle as int],
            r is None ==> handle >= self.handles().len(),
    {
        if (handle as usize) < self.paths.len() {
            Some(self.paths[handle as usize].as_str())
        } else {
            None
        }
    }

    /// getprop: copy as much of a property as fits into the caller's
    /// buffer, and return its full length; -1 when the handle or the
    /// property is unknown or arguments are missing.
    fn getprop(&self, device_tree: &DeviceTree, args: &[u32], string_args: &[String]) -> (r: ServiceResult)
        requires
            self.wf(),
        ensures
            getprop_effect(*self, *device_tree, args@, string_args@, r),
    {
        if args.len() < 4 || string_args.len() < 2 {
            return ServiceResult::new(single(SERVICE_FAILED));
        }
        let phandle = args[0];
        let property_name = string_args[1].as_str();
        let buf_ptr = args[2];
        let buf_len = args[3];
        match self.path_of(phandle) {
            Some(path) => {
                match device_tree.get_property(path, property_name) {
                    Some(value) => {
                        let len = value.len() as u32;
                        let copy_len = if len < buf_len {
                            len
                        } else {
                            buf_len
                        };
                        let mut data: Vec<u8> = Vec::new();
                        let mut i: usize = 0;
                        while i < copy_len as usize
                            invariant
                                i <= copy_len,
                                copy_len <= len,
                                len == value@.len() as u32,
                                copy_len <= value@.len(),
                                data@ == value@.subrange(0, i as int),
                            decreases copy_len - i,
                        {
                            data.push(value[i]);
                            assert(data@ =~= value@.subrange(0, i + 1));
                            i = i + 1;
                        }
                        ServiceResult::with_memory_write(single(len), buf_ptr, data)
                    },
                    None => ServiceResult::new(single(SERVICE_FAILED)),
                }
            },
            None => ServiceResult::new(single(SERVICE_FAILED)),
        }
    }

    /// getproplen: the length of a property; -1 when the handle or the
    /// property is unknown or arguments are missing.
    fn getproplen(&self, device_tree: &DeviceTree, args: &[u32], string_args: &[String]) -> (r: ServiceResult)
        requires
            self.wf(),
        ensures
            getproplen_effect(*self, *device_tree, args@, string_args@, r),
    {
        if args.len() < 2 || string_args.len() < 2 {
            return ServiceResult::new(single(SERVICE_FAILED));
        }
        match self.path_of(args[0]) {
            Some(path) => {
                match device_tree.get_property(path, string_args[1].as_str()) {
                    Some(value) => ServiceResult::new(single(value.len() as u32)),
                    None => ServiceResult::new(single(SERVICE_FAILED)),
                }
            },
            None => ServiceResult::new(single(SERVICE_FAILED)),
        }
    }

    /// finddevice: the handle of a device path, given out when the tree
    /// has the path; -1 when it has not or no path is given.
    fn finddevice(&mut self, device_tree: &DeviceTree, string_args: &[String]) -> (r: ServiceResult)
        requires
            old(self).wf(),
            old(self).handles().len() < u32::MAX,
        ensures
            finddevice_effect(*old(self), *final(self), *device_tree, string_args@, r),
    {
        if string_args.len() == 0 {
            return ServiceResult::new(single(SERVICE_FAILED));
        }
        let device_path = string_args[0].as_str();
        match self.find_handle(device_path) {
            Some(h) => ServiceResult::new(single(h)),
            None => {
                if device_tree.find_node(device_path).is_some() {
                    let h = self.allocate_handle(device_path);
                    ServiceResult::new(single(h))
                } else {
                    ServiceResult::new(single(SERVICE_FAILED))
                }
            },
        }
    }

    /// claim: claim `size` bytes at `virt`, or, when `virt` is 0, at the
    /// next free address aligned to `align`. A requested range that
    /// overlaps a claimed region fails with -1.
    fn claim(&mut self, args: &[u32]) -> (r: ServiceResult)
        requires
            args@.len() >= 3 ==> old(self).claim_fits(args@[0], args@[1], args@[2]),
        ensures
            claim_effect(*old(self), *final(self), args@, r),
            old(self).wf() ==> final(self).wf(),
    {
        if args.len() < 3 {
            return ServiceResult::new(single(SERVICE_FAILED));
        }
        let virt = args[0];
        let size = args[1];
        let align = args[2];
        let base_addr = if virt != 0 {
            let mut i: usize = 0;
            while i < self.allocated_regions.len()
                invariant
                    i <= self.allocated_regions@.len(),
                    *self == *old(self),
                    args@.len() >= 3,
                    virt != 0,
                    virt == args@[0],
                    size == args@[1],
                    virt + size <= u32::MAX,
                    forall|k: int| 0 <= k < self.regions().len() ==> #[trigger] self.regions()[k].base + self.regions()[k].size <= u32::MAX,
                    forall|k: int| 0 <= k < i ==> !overlaps(#[trigger] self.regions()[k], virt, size),
                decreases self.allocated_regions@.len() - i,
            {
                let region = self.allocated_regions[i];
                assert(self.regions()[i as int] == region);
                let region_end = region.base + region.size;
                let request_end = virt + size;
                if (virt >= region.base && virt < region_end) || (request_end > region.base && request_end <= region_end)
                    || (virt <= region.base && request_end >= region_end) {
                    assert(overlaps(self.regions()[i as int], virt, size));
                    return ServiceResult::new(single(SERVICE_FAILED));
                }
                i = i + 1;
            }
            virt
        } else {
            let mut addr = self.next_alloc_addr;
            if align > 0 {
                let mask = align - 1;
                if (addr & mask) != 0 {
                    addr = (addr + align) & !mask;
                }
            }
            self.next_alloc_addr = addr + size;
            addr
        };
        self.allocated_regions.push(MemoryRegion { base: base_addr, size });
        ServiceResult::new(single(base_addr))
    }

    /// release: give back a claimed region, named by its exact base and
    /// size; -1 when no such region was claimed.
    fn release(&mut self, args: &[u32]) -> (r: ServiceResult)
        ensures
            release_effect(*old(self), *final(self), args@, r),
            old(self).wf() ==> final(self).wf(),
    {
        if args.len() < 2 {
            return ServiceResult::new(single(SERVICE_FAILED));
        }
        let virt = args[0];
        let size = args[1];
        let ghost target = MemoryRegion { base: virt, size };
        let mut i: usize = 0;
        while i < self.allocated_regions.len()
            invariant
                i <= self.allocated_regions@.len(),
                *self == *old(self),
                args@.len() >= 2,
                virt == args@[0],
                size == args@[1],
                target == (MemoryRegion { base: virt, size }),
                forall|k: int| 0 <= k < i ==> #[trigger] self.regions()[k] != target,
            decreases self.allocated_regions@.len() - i,
        {
            let region = self.allocated_regions[i];
            if region.base == virt && region.size == size {
                proof {
                    assert(self.regions()[i as int] == target);
                    self.regions().index_of_first_ensures(target);
                    let j = self.regions().index_of_first(target)->0;
                    if j < i {
                        assert(self.regions()[j] != target);
                    }
                    if j > i {
                        assert(self.regions()[i as int] == target);
                    }
                }
                self.allocated_regions.remove(i);
                return ServiceResult::new(single(0));
            }
            i = i + 1;
        }
        proof {
            self.regions().index_of_first_ensures(target);
            if self.regions().contains(target) {
                let j = choose|j: int| 0 <= j < self.regions().len() && self.regions()[j] == target;
                assert(self.regions()[j] != target);
            }
        }
        ServiceResult::new(single(SERVICE_FAILED))
    }

    /// write: report the whole length as written; -1 when arguments are
    /// missing. Showing the text is left to the caller.
    fn write(&mut self, args: &[u32], string_args: &[String]) -> (r: ServiceResult)
        ensures
            *final(self) == *old(self),
            args@.len() < 3 ==> returns_only(r, seq![SERVICE_FAILED]),
            args@.len() >= 3 ==> returns_only(r, seq![args@[2]]),
    {
        if args.len() < 3 {
            return ServiceResult::new(single(SERVICE_FAILED));
        }
        ServiceResult::new(single(args[2]))
    }

    /// Call a client interface service by name. The arguments come from
    /// the caller's argument array; strings it points at are read out
    /// beforehand into `string_args`. Unknown services fail with -1.
    pub fn call_service(
        &mut self,
        device_tree: &mut DeviceTree,
        service: &str,
        args: &[u32],
        string_args: &[String],
    ) -> (r: Result<ServiceResult, crate::error::Error>)
        requires
            old(self).wf(),
            old(self).handles().len() < u32::MAX,
            service@ == "claim"@ && args@.len() >= 3 ==> old(self).claim_fits(args@[0], args@[1], args@[2]),
            service@ == "call-method"@ && string_args@.len() > 0 && args@.len() >= 5 && string_args@[0]@ == "claim"@
                ==> old(self).claim_fits(args@[2], args@[3], args@[4]),
        ensures
            final(self).wf(),
            *final(device_tree) == *old(device_tree),
            r matches Ok(res) && service_effect(*old(self), *final(self), *old(device_tree), service@, args@, string_args@, res),
    {
        let res = if str_eq(service, "peer") || str_eq(service, "child") || str_eq(service, "parent") {
            if args.len() == 0 {
                ServiceResult::new(single(SERVICE_FAILED))
            } else {
                ServiceResult::new(single(0))
            }
        } else if str_eq(service, "getprop") {
            self.getprop(device_tree, args, string_args)
        } else if str_eq(service, "getproplen") {
            self.getproplen(device_tree, args, string_args)
        } else if str_eq(service, "nextprop") || str_eq(service, "package-to-path") {
            ServiceResult::new(single(SERVICE_FAILED))
        } else if str_eq(service, "setprop") || str_eq(service, "close") || str_eq(service, "read") || str_eq(service, "seek")
            || str_eq(service, "exit") || str_eq(service, "test") {
            ServiceResult::new(single(0))
        } else if str_eq(service, "open") {
            ServiceResult::new(single(1))
        } else if str_eq(service, "finddevice") {
            self.finddevice(device_tree, string_args)
        } else if str_eq(service, "claim") {
            self.claim(args)
        } else if str_eq(service, "release") {
            self.release(args)
        } else if str_eq(service, "write") {
            self.write(args, string_args)
        } else if str_eq(service, "call-method") {
            self.call_method(args, string_args)
        } else {
            ServiceResult::new(single(SERVICE_FAILED))
        };
        Ok(res)
    }

    /// call-method: the "claim" and "instantiate-rtas" methods; anything
    /// else fails with a catch result of -1.
    fn call_method(&mut self, args: &[u32], string_args: &[String]) -> (r: ServiceResult)
        requires
            string_args@.len() > 0 && args@.len() >= 5 && string_args@[0]@ == "claim"@ ==> old(self).claim_fits(
                args@[2],
                args@[3],
                args@[4],
            ),
        ensures
            call_method_effect(*old(self), *final(self), args@, string_args@, r),
            old(self).wf() ==> final(self).wf(),
    {
        if string_args.len() == 0 || args.len() < 2 {
            return ServiceResult::new(single(SERVICE_FAILED));
        }
        let method_name = string_args[0].as_str();
        proof {
            reveal_strlit("claim");
            reveal_strlit("instantiate-rtas");
        }
        if str_eq(method_name, "claim") {
            if args.len() >= 5 {
                let claim_args: [u32; 3] = [args[2], args[3], args[4]];
                assert(claim_args@ =~= seq![args@[2], args@[3], args@[4]]);
                let claim_result = self.claim(&claim_args);
                if claim_result.returns.len() > 0 {
                    let base_addr = claim_result.returns[0];
                    ServiceResult::new(pair(0, base_addr))
                } else {
                    ServiceResult::new(pair(SERVICE_FAILED, 0))
                }
            } else {
                ServiceResult::new(pair(SERVICE_FAILED, 0))
            }
        } else if str_eq(method_name, "instantiate-rtas") {
            if args.len() >= 4 {
                let rtas_base = args[2];
                ServiceResult::new(pair(0, rtas_base))
            } else {
                ServiceResult::new(single(SERVICE_FAILED))
            }
        } else {
            ServiceResult::new(single(SERVICE_FAILED))
        }
    }
}


/// Whether the ranges `[a, a + n)` and `[b, b + m)` share an address.
pub open spec fn ranges_intersect(a: int, n: int, b: int, m: int) -> bool {
    b < a + n && a < b + m
}

/// A claim at a fixed address `virt` of `size > 0` bytes succeeds exactly
/// when `[virt, virt + size)` shares no address with any claimed region:
/// it then answers `virt` and records the region after the others;
/// otherwise it answers -1 and changes nothing. (Every claimed region is
/// taken to be non-empty here: with an empty range the claim's test also
/// refuses a request that merely starts at the region's base.)
pub proof fn law_fixed_claim_needs_a_free_range(s0: ClientInterface, s1: ClientInterface, args: Seq<u32>, r: ServiceResult)
    requires
        claim_effect(s0, s1, args, r),
        args.len() >= 3,
        args[0] != 0,
        args[1] > 0,
        forall|i: int| 0 <= i < s0.regions().len() ==> #[trigger] s0.regions()[i].size > 0,
    ensures
        (forall|i: int| 0 <= i < s0.regions().len() ==> !ranges_intersect(args[0] as int, args[1] as int, #[trigger] s0.regions()[i].base as int, s0.regions()[i].size as int))
            ==> r.returns@ == seq![args[0]] && s1.regions() == s0.regions().push(MemoryRegion { base: args[0], size: args[1] }),
        (exists|i: int| 0 <= i < s0.regions().len() && ranges_intersect(args[0] as int, args[1] as int, #[trigger] s0.regions()[i].base as int, s0.regions()[i].size as int))
            ==> r.returns@ == seq![SERVICE_FAILED] && s1 == s0,
{
    let virt = args[0];
    let size = args[1];
    assert forall|i: int| 0 <= i < s0.regions().len() implies #[trigger] overlaps(s0.regions()[i], virt, size)
        == ranges_intersect(virt as int, size as int, s0.regions()[i].base as int, s0.regions()[i].size as int) by {
        assert(s0.regions()[i].size > 0);
    }
}

} // verus!
