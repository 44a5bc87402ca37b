//! OpenFirmware support: the device tree, the client interface and the
//! CHRP boot script.
use vstd::prelude::*;
use vstd::string::StringSliceAdditionalSpecFns;
use crate::bytes::{be32_bytes, be32_vec, str_bytes, concat_bytes};
use crate::openfirmware::device_tree::{DeviceTree, DeviceNode, child_path};
use crate::openfirmware::client_interface::{ClientInterface, ServiceResult, service_effect};
use crate::openfirmware::forth::ForthInterpreter;
use crate::openfirmware::forth_model::{ForthState, eval_rest, of_initial_state};
use crate::error::Error;

pub mod device_tree;
pub mod client_interface;
pub mod forth_model;
pub mod forth;
pub mod boot_script;


verus! {

/// The properties of the root node after initialisation.
pub open spec fn init_root_props(p: Map<Seq<char>, Seq<u8>>) -> Map<Seq<char>, Seq<u8>> {
    p.insert("device_type"@, "chrp".spec_bytes())
        .insert("model"@, "Power Macintosh".spec_bytes())
        .insert("compatible"@, "iMac,1\0PowerMac1,1\0".spec_bytes())
        .insert("#address-cells"@, be32_bytes(1))
        .insert("#size-cells"@, be32_bytes(1))
}

/// The properties of the CPU node.
pub open spec fn cpu_node_props() -> Map<Seq<char>, Seq<u8>> {
    Map::empty().insert("device_type"@, "cpu".spec_bytes())
        .insert("cpu-version"@, be32_bytes(0x800C0000))
        .insert("clock-frequency"@, be32_bytes(500_000_000))
        .insert("bus-frequency"@, be32_bytes(100_000_000))
        .insert("timebase-frequency"@, be32_bytes(25_000_000))
        .insert("reg"@, be32_bytes(0))
}

/// The properties of the CPUs node.
pub open spec fn cpus_node_props() -> Map<Seq<char>, Seq<u8>> {
    Map::empty().insert("device_type"@, "cpu".spec_bytes())
        .insert("#address-cells"@, be32_bytes(1))
        .insert("#size-cells"@, be32_bytes(0))
}

/// The properties of the memory node: 256 MiB at address 0.
pub open spec fn memory_node_props() -> Map<Seq<char>, Seq<u8>> {
    Map::empty().insert("device_type"@, "memory".spec_bytes())
        .insert("reg"@, be32_bytes(0) + be32_bytes(0x10000000))
}

/// The properties of the PCI host bridge node.
pub open spec fn pci_node_props() -> Map<Seq<char>, Seq<u8>> {
    Map::empty().insert("device_type"@, "pci".spec_bytes())
        .insert("compatible"@, "grackle".spec_bytes())
        .insert("#address-cells"@, be32_bytes(3))
        .insert("#size-cells"@, be32_bytes(2))
        .insert("reg"@, be32_bytes(0xFEC00000))
        .insert("bus-range"@, be32_bytes(0) + be32_bytes(0))
}

/// The properties of the display node: 800x600 at 32 bits.
pub open spec fn display_node_props() -> Map<Seq<char>, Seq<u8>> {
    Map::empty().insert("device_type"@, "display".spec_bytes())
        .insert("model"@, "ATY,Rage128".spec_bytes())
        .insert("width"@, be32_bytes(800))
        .insert("height"@, be32_bytes(600))
        .insert("depth"@, be32_bytes(32))
        .insert("linebytes"@, be32_bytes(3200))
}

/// The properties of the chosen node.
pub open spec fn chosen_node_props() -> Map<Seq<char>, Seq<u8>> {
    Map::empty().insert("stdin"@, be32_bytes(0))
        .insert("stdout"@, be32_bytes(0))
        .insert("bootargs"@, "".spec_bytes())
}

/// The properties of the options node.
pub open spec fn options_node_props() -> Map<Seq<char>, Seq<u8>> {
    Map::empty().insert("boot-device"@, "hd:,\\:tbxi".spec_bytes())
        .insert("boot-file"@, "".spec_bytes())
        .insert("auto-boot?"@, "true".spec_bytes())
}

/// Whether `n` is a fresh node with this name and these properties.
pub open spec fn node_is(n: DeviceNode, name: Seq<char>, props: Map<Seq<char>, Seq<u8>>) -> bool {
    n.name@ == name && n.node_type@.len() == 0 && n.children@.len() == 0 && n.props() == props
}

/// A new node with no type.
fn new_node(name: &str) -> (r: DeviceNode)
    ensures
        r.name@ == name@,
        r.node_type@.len() == 0,
        r.children@.len() == 0,
        r.props() == Map::<Seq<char>, Seq<u8>>::empty(),
{
    let r = DeviceNode::new(name, "");
    proof {
        reveal_strlit("");
    }
    r
}

/// Initialize the device tree with standard Mac hardware: properties of
/// the root node, and nodes for the CPU, memory, PCI bridge, display,
/// chosen and options.
pub fn init_device_tree(dt: &mut DeviceTree)
    ensures
        final(dt).root_node().props() == init_root_props(old(dt).root_node().props()),
        final(dt).root_node().name == old(dt).root_node().name,
        final(dt).root_node().children == old(dt).root_node().children,
        final(dt).table().contains_key("/cpus/PowerPC,G4"@)
            && node_is(final(dt).table()["/cpus/PowerPC,G4"@], "PowerPC,G4"@, cpu_node_props()),
        final(dt).table().contains_key("/cpus"@) && node_is(final(dt).table()["/cpus"@], "cpus"@, cpus_node_props()),
        final(dt).table().contains_key("/memory"@) && node_is(final(dt).table()["/memory"@], "memory"@, memory_node_props()),
        final(dt).table().contains_key("/pci"@) && node_is(final(dt).table()["/pci"@], "pci"@, pci_node_props()),
        final(dt).table().contains_key("/pci/ATY,RageProVRAM"@) && node_is(
            final(dt).table()["/pci/ATY,RageProVRAM"@],
            "ATY,RageProVRAM"@,
            display_node_props(),
        ),
        final(dt).table().contains_key("/chosen"@) && node_is(final(dt).table()["/chosen"@], "chosen"@, chosen_node_props()),
        final(dt).table().contains_key("/options"@) && node_is(final(dt).table()["/options"@], "options"@, options_node_props()),
        forall|p: Seq<char>| p != "/cpus/PowerPC,G4"@ && p != "/cpus"@ && p != "/memory"@ && p != "/pci"@ && p
            != "/pci/ATY,RageProVRAM"@ && p != "/chosen"@ && p != "/options"@ ==> #[trigger] final(dt).table().contains_key(p)
            == old(dt).table().contains_key(p) && (old(dt).table().contains_key(p) ==> final(dt).table()[p] == old(dt).table()[p]),
{
    {
        let root = dt.root_mut();
        root.add_property("device_type", str_bytes("chrp"));
        root.add_property("model", str_bytes("Power Macintosh"));
        root.add_property("compatible", str_bytes("iMac,1\0PowerMac1,1\0"));
        root.add_property("#address-cells", be32_vec(1));
        root.add_property("#size-cells", be32_vec(1));
    }
    let mut cpus = new_node("cpus");
    cpus.add_property("device_type", str_bytes("cpu"));
    cpus.add_property("#address-cells", be32_vec(1));
    cpus.add_property("#size-cells", be32_vec(0));
    let mut cpu = new_node("PowerPC,G4");
    cpu.add_property("device_type", str_bytes("cpu"));
    cpu.add_property("cpu-version", be32_vec(0x800C0000));
    cpu.add_property("clock-frequency", be32_vec(500_000_000));
    cpu.add_property("bus-frequency", be32_vec(100_000_000));
    cpu.add_property("timebase-frequency", be32_vec(25_000_000));
    cpu.add_property("reg", be32_vec(0));
    let ghost t0 = dt.table();
    proof {
        reveal_strlit("/cpus");
        reveal_strlit("PowerPC,G4");
        reveal_strlit("/cpus/PowerPC,G4");
        reveal_strlit("/memory");
        reveal_strlit("/pci");
        reveal_strlit("/pci/ATY,RageProVRAM");
        reveal_strlit("/chosen");
        reveal_strlit("/options");
        assert(child_path("/cpus"@, "PowerPC,G4"@) =~= "/cpus/PowerPC,G4"@);
        assert("/cpus/PowerPC,G4"@.len() != "/cpus"@.len());
        assert("/cpus/PowerPC,G4"@.len() != "/memory"@.len());
        assert("/cpus/PowerPC,G4"@.len() != "/pci"@.len());
        assert("/cpus/PowerPC,G4"@.len() != "/pci/ATY,RageProVRAM"@.len());
        assert("/cpus/PowerPC,G4"@.len() != "/chosen"@.len());
        assert("/cpus/PowerPC,G4"@.len() != "/options"@.len());
        assert("/cpus"@.len() != "/memory"@.len());
        assert("/cpus"@.len() != "/pci"@.len());
        assert("/cpus"@.len() != "/pci/ATY,RageProVRAM"@.len());
        assert("/cpus"@.len() != "/chosen"@.len());
        assert("/cpus"@.len() != "/options"@.len());
        assert("/memory"@.len() != "/pci"@.len());
        assert("/memory"@.len() != "/pci/ATY,RageProVRAM"@.len());
        assert("/memory"@[1] != "/chosen"@[1]);
        assert("/memory"@.len() != "/options"@.len());
        assert("/pci"@.len() != "/pci/ATY,RageProVRAM"@.len());
        assert("/pci"@.len() != "/chosen"@.len());
        assert("/pci"@.len() != "/options"@.len());
        assert("/pci/ATY,RageProVRAM"@.len() != "/chosen"@.len());
        assert("/pci/ATY,RageProVRAM"@.len() != "/options"@.len());
        assert("/chosen"@.len() != "/options"@.len());
    }
    dt.add_child("/cpus", cpu);
    dt.add_node("/cpus", cpus);
    let mut memory = new_node("memory");
    memory.add_property("device_type", str_bytes("memory"));
    memory.add_property("reg", concat_bytes(be32_vec(0), be32_vec(0x10000000)));
    dt.add_node("/memory", memory);
    let mut pci = new_node("pci");
    pci.add_property("device_type", str_bytes("pci"));
    pci.add_property("compatible", str_bytes("grackle"));
    pci.add_property("#address-cells", be32_vec(3));
    pci.add_property("#size-cells", be32_vec(2));
    pci.add_property("reg", be32_vec(0xFEC00000));
    pci.add_property("bus-range", concat_bytes(be32_vec(0), be32_vec(0)));
    dt.add_node("/pci", pci);
    let mut display = new_node("ATY,RageProVRAM");
    display.add_property("device_type", str_bytes("display"));
    display.add_property("model", str_bytes("ATY,Rage128"));
    display.add_property("width", be32_vec(800));
    display.add_property("height", be32_vec(600));
    display.add_property("depth", be32_vec(32));
    display.add_property("linebytes", be32_vec(800 * 4));
    dt.add_node("/pci/ATY,RageProVRAM", display);
    let mut chosen = new_node("chosen");
    chosen.add_property("stdin", be32_vec(0));
    chosen.add_property("stdout", be32_vec(0));
    chosen.add_property("bootargs", str_bytes(""));
    dt.add_node("/chosen", chosen);
    let mut options = new_node("options");
    options.add_property("boot-device", str_bytes("hd:,\\:tbxi"));
    options.add_property("boot-file", str_bytes(""));
    options.add_property("auto-boot?", str_bytes("true"));
    dt.add_node("/options", options);
}


/// Whether a device tree is the one `init_device_tree` makes from an empty
/// tree: the root's properties and the seven standard nodes, nothing else.
pub open spec fn is_initial_tree(dt: DeviceTree) -> bool {
    &&& dt.root_node().props() == init_root_props(Map::empty())
    &&& dt.root_node().name@.len() == 0
    &&& dt.root_node().children@.len() == 0
    &&& dt.table().contains_key("/cpus/PowerPC,G4"@) && node_is(dt.table()["/cpus/PowerPC,G4"@], "PowerPC,G4"@, cpu_node_props())
    &&& dt.table().contains_key("/cpus"@) && node_is(dt.table()["/cpus"@], "cpus"@, cpus_node_props())
    &&& dt.table().contains_key("/memory"@) && node_is(dt.table()["/memory"@], "memory"@, memory_node_props())
    &&& dt.table().contains_key("/pci"@) && node_is(dt.table()["/pci"@], "pci"@, pci_node_props())
    &&& dt.table().contains_key("/pci/ATY,RageProVRAM"@) && node_is(
        dt.table()["/pci/ATY,RageProVRAM"@],
        "ATY,RageProVRAM"@,
        display_node_props(),
    )
    &&& dt.table().contains_key("/chosen"@) && node_is(dt.table()["/chosen"@], "chosen"@, chosen_node_props())
    &&& dt.table().contains_key("/options"@) && node_is(dt.table()["/options"@], "options"@, options_node_props())
    &&& forall|p: Seq<char>| p != "/cpus/PowerPC,G4"@ && p != "/cpus"@ && p != "/memory"@ && p != "/pci"@ && p
        != "/pci/ATY,RageProVRAM"@ && p != "/chosen"@ && p != "/options"@ ==> !#[trigger] dt.table().contains_key(p)
}

/// OpenFirmware state
pub struct OpenFirmware {
    /// Device tree
    device_tree: DeviceTree,
    /// Client interface
    client_interface: ClientInterface,
    /// Forth interpreter
    forth: ForthInterpreter,
}

impl OpenFirmware {
    /// The device tree.
    pub closed spec fn tree(self) -> DeviceTree {
        self.device_tree
    }

    /// The client interface.
    pub closed spec fn client(self) -> ClientInterface {
        self.client_interface
    }

    /// The Forth interpreter.
    pub closed spec fn interpreter(self) -> ForthInterpreter {
        self.forth
    }

    /// The client interface and the interpreter keep their invariants.
    pub open spec fn wf(self) -> bool {
        self.client().wf() && self.interpreter().wf()
    }

    /// Create a new OpenFirmware instance: the standard device tree, a
    /// fresh client interface and interpreter.
    pub fn new() -> (r: Self)
        ensures
            r.wf(),
            is_initial_tree(r.tree()),
            r.client().handles() == seq![seq!['/']],
            r.client().regions().len() == 0,
            r.client().next_alloc() == 0x0040_0000,
            r.interpreter()@ == of_initial_state(),
    {
        let mut of = Self { device_tree: DeviceTree::new(), client_interface: ClientInterface::new(), forth: ForthInterpreter::new() };
        proof {
            assert(of.device_tree.root_node().props() =~= Map::<Seq<char>, Seq<u8>>::empty());
        }
        init_device_tree(&mut of.device_tree);
        of.forth.register_of_words();
        of
    }

    /// Get the device tree
    pub fn device_tree(&self) -> (r: &DeviceTree)
        ensures
            *r == self.tree(),
    {
        &self.device_tree
    }

    /// Get the device tree mutably
    pub fn device_tree_mut(&mut self) -> (r: &mut DeviceTree)
        ensures
            *r == old(self).tree(),
            final(self).tree() == *final(r),
            final(self).client() == old(self).client(),
            final(self).interpreter() == old(self).interpreter(),
    {
        &mut self.device_tree
    }

    /// Get the client interface
    pub fn client_interface(&self) -> (r: &ClientInterface)
        ensures
            *r == self.client(),
    {
        &self.client_interface
    }

    /// Get the client interface mutably
    pub fn client_interface_mut(&mut self) -> (r: &mut ClientInterface)
        ensures
            *r == old(self).client(),
            final(self).client() == *final(r),
            final(self).tree() == old(self).tree(),
            final(self).interpreter() == old(self).interpreter(),
    {
        &mut self.client_interface
    }

    /// Get the client interface and the device tree mutably, together.
    pub fn client_and_tree_mut(&mut self) -> (r: (&mut ClientInterface, &mut DeviceTree))
        ensures
            *r.0 == old(self).client(),
            *r.1 == old(self).tree(),
            final(self).client() == *final(r.0),
            final(self).tree() == *final(r.1),
            final(self).interpreter() == old(self).interpreter(),
    {
        (&mut self.client_interface, &mut self.device_tree)
    }

    /// Get the Forth interpreter
    pub fn forth(&self) -> (r: &ForthInterpreter)
        ensures
            *r == self.interpreter(),
    {
        &self.forth
    }

    /// Get the Forth interpreter mutably
    pub fn forth_mut(&mut self) -> (r: &mut ForthInterpreter)
        ensures
            *r == old(self).interpreter(),
            final(self).interpreter() == *final(r),
            final(self).tree() == old(self).tree(),
            final(self).client() == old(self).client(),
    {
        &mut self.forth
    }

    /// Execute Forth code
    pub fn execute_forth(&mut self, code: &str) -> (r: Result<(), Error>)
        requires
            old(self).wf(),
        ensures
            final(self).wf(),
            final(self).tree() == old(self).tree(),
            final(self).client() == old(self).client(),
            final(self).interpreter()@ == eval_rest((ForthState { input: code@, pos: 0, ..old(self).interpreter()@ })).0,
            crate::openfirmware::forth::result_is(
                r,
                eval_rest((ForthState { input: code@, pos: 0, ..old(self).interpreter()@ })).1,
            ),
    {
        self.forth.eval(code)
    }

    /// Call a client interface service
    pub fn call_client_service(&mut self, service: &str, args: &[u32], string_args: &[String]) -> (r: Result<
        ServiceResult,
        Error,
    >)
        requires
            old(self).wf(),
            old(self).client().handles().len() < u32::MAX,
            service@ == "claim"@ && args@.len() >= 3 ==> old(self).client().claim_fits(args@[0], args@[1], args@[2]),
            service@ == "call-method"@ && string_args@.len() > 0 && args@.len() >= 5 && string_args@[0]@ == "claim"@
                ==> old(self).client().claim_fits(args@[2], args@[3], args@[4]),
        ensures
            final(self).wf(),
            final(self).tree() == old(self).tree(),
            final(self).interpreter() == old(self).interpreter(),
            r matches Ok(res) && service_effect(
                old(self).client(),
                final(self).client(),
                old(self).tree(),
                service@,
                args@,
                string_args@,
                res,
            ),
    {
        self.client_interface.call_service(&mut self.device_tree, service, args, string_args)
    }
}

impl Default for OpenFirmware {
    fn default() -> (r: Self)
        ensures
            r.wf(),
            is_initial_tree(r.tree()),
            r.interpreter()@ == of_initial_state(),
    {
        Self::new()
    }
}

} // verus!
