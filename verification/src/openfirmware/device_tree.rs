//! OpenFirmware device tree: named nodes with byte-string properties and
//! child nodes, plus a flat table from path to node.
use vstd::prelude::*;
use vstd::string::StringExecFns;
use crate::text::{str_eq, first_match, keyed_map, lemma_first_match, lemma_first_match_is, lemma_keyed_map_update, lemma_keyed_map_push};

verus! {

/// Device tree property
#[derive(Debug, Clone)]
pub struct Property {
    pub name: String,
    pub value: Vec<u8>,
}

impl Property {
    /// A property with the given name and value.
    pub fn new(name: &str, value: Vec<u8>) -> (r: Self)
        ensures
            r.name@ == name@,
            r.value@ == value@,
    {
        Self { name: name.to_owned(), value }
    }
}

/// The name of a property.
pub open spec fn property_name(p: Property) -> Seq<char> {
    p.name@
}

/// Properties are looked up by name.
pub open spec fn property_key() -> spec_fn(Property) -> Seq<char> {
    |p: Property| p.name@
}

/// Children are looked up by name.
pub open spec fn node_key() -> spec_fn(DeviceNode) -> Seq<char> {
    |n: DeviceNode| n.name@
}

/// The name of a node.
pub open spec fn node_name(n: DeviceNode) -> Seq<char> {
    n.name@
}

/// The value of a property.
pub open spec fn property_value() -> spec_fn(Property) -> Seq<u8> {
    |p: Property| p.value@
}

/// The properties of a list, by name: a name that occurs more than once
/// means its first occurrence.
pub open spec fn properties_view(props: Seq<Property>) -> Map<Seq<char>, Seq<u8>> {
    keyed_map(props, property_key(), property_value())
}

/// Device tree node
#[derive(Debug)]
pub struct DeviceNode {
    /// Node name
    pub name: String,
    /// Node type (if any)
    pub node_type: String,
    /// Properties, looked up by name
    pub properties: Vec<Property>,
    /// Child nodes
    pub children: Vec<DeviceNode>,
}

impl DeviceNode {
    /// The node's properties by name.
    pub open spec fn props(self) -> Map<Seq<char>, Seq<u8>> {
        properties_view(self.properties@)
    }

    /// The first child with the given name, if any.
    pub open spec fn child_named(self, name: Seq<char>) -> Option<int> {
        first_match(self.children@, node_key(), name)
    }

    /// Create a new device node
    pub fn new(name: &str, node_type: &str) -> (r: Self)
        ensures
            r.name@ == name@,
            r.node_type@ == node_type@,
            r.properties@.len() == 0,
            r.children@.len() == 0,
            r.props() == Map::<Seq<char>, Seq<u8>>::empty(),
    {
        let r = Self {
            name: name.to_owned(),
            node_type: node_type.to_owned(),
            properties: Vec::new(),
            children: Vec::new(),
        };
        assert(r.props() =~= Map::<Seq<char>, Seq<u8>>::empty());
        r
    }

    /// Index of the first property named `name`.
    fn find_property_index(&self, name: &str) -> (r: Option<usize>)
        ensures
            r matches Some(i) ==> i < self.properties@.len() && first_match(self.properties@, property_key(), name@) == Some(i as int),
            r is None ==> first_match(self.properties@, property_key(), name@) is None,
    {
        let mut i: usize = 0;
        while i < self.properties.len()
            invariant
                0 <= i <= self.properties@.len(),
                forall|j: int| 0 <= j < i ==> property_name(#[trigger] self.properties@[j]) != name@,
            decreases self.properties@.len() - i,
        {
            if str_eq(self.properties[i].name.as_str(), name) {
                proof {
                    lemma_first_match_is(self.properties@, property_key(), name@, i as int);
                }
                return Some(i);
            }
            i = i + 1;
        }
        proof {
            lemma_first_match_is(self.properties@, property_key(), name@, i as int);
        }
        None
    }

    /// Add a property, replacing any value it had.
    pub fn add_property(&mut self, name: &str, value: Vec<u8>)
        ensures
            final(self).props() == old(self).props().insert(name@, value@),
            final(self).name == old(self).name,
            final(self).node_type == old(self).node_type,
            final(self).children == old(self).children,
    {
        let ghost old_props = self.properties@;
        let p = Property::new(name, value);
        proof {
            assert(property_key()(p) == name@);
        }
        match self.find_property_index(name) {
            Some(i) => {
                self.properties.set(i, p);
                proof {
                    lemma_keyed_map_update(old_props, property_key(), property_value(), i as int, p);
                }
            },
            None => {
                self.properties.push(p);
                proof {
                    lemma_keyed_map_push(old_props, property_key(), property_value(), p);
                }
            },
        }
    }

    /// Get a property value
    pub fn get_property(&self, name: &str) -> (r: Option<&[u8]>)
        ensures
            r is Some == self.props().contains_key(name@),
            r matches Some(v) ==> v@ == self.props()[name@],
    {
        match self.find_property_index(name) {
            Some(i) => Some(self.properties[i].value.as_slice()),
            None => None,
        }
    }

    /// Add a child node
    pub fn add_child(&mut self, child: DeviceNode)
        ensures
            final(self).children@ == old(self).children@.push(child),
            final(self).name == old(self).name,
            final(self).node_type == old(self).node_type,
            final(self).properties == old(self).properties,
    {
        self.children.push(child);
    }

    /// Index of the first child named `name`.
    fn find_child_index(&self, name: &str) -> (r: Option<usize>)
        ensures
            r matches Some(i) ==> i < self.children@.len() && self.child_named(name@) == Some(i as int),
            r is None ==> self.child_named(name@) is None,
    {
        let mut i: usize = 0;
        while i < self.children.len()
            invariant
                0 <= i <= self.children@.len(),
                forall|j: int| 0 <= j < i ==> node_name(#[trigger] self.children@[j]) != name@,
            decreases self.children@.len() - i,
        {
            if str_eq(self.children[i].name.as_str(), name) {
                proof {
                    lemma_first_match_is(self.children@, node_key(), name@, i as int);
                }
                return Some(i);
            }
            i = i + 1;
        }
        proof {
            lemma_first_match_is(self.children@, node_key(), name@, i as int);
        }
        None
    }

    /// Find a child by name
    pub fn find_child(&self, name: &str) -> (r: Option<&DeviceNode>)
        ensures
            r is Some == self.child_named(name@) is Some,
            r matches Some(c) ==> *c == self.children@[self.child_named(name@)->0],
    {
        match self.find_child_index(name) {
            Some(i) => Some(&self.children[i]),
            None => None,
        }
    }

    /// Find a child by name (mutable)
    pub fn find_child_mut(&mut self, name: &str) -> (r: Option<&mut DeviceNode>)
        ensures
            r is Some == old(self).child_named(name@) is Some,
            r matches Some(c) ==> {
                &&& *c == old(self).children@[old(self).child_named(name@)->0]
                &&& final(self).children@ == old(self).children@.update(
                    old(self).child_named(name@)->0,
                    *final(c),
                )
                &&& final(self).name == old(self).name
                &&& final(self).node_type == old(self).node_type
                &&& final(self).properties == old(self).properties
            },
            r is None ==> *final(self) == *old(self),
    {
        match self.find_child_index(name) {
            Some(i) => Some(&mut self.children[i]),
            None => None,
        }
    }
}

/// A node of the flat table, with the path it was added under.
#[derive(Debug)]
pub struct NodeEntry {
    pub path: String,
    pub node: DeviceNode,
}

/// Table entries are looked up by path.
pub open spec fn entry_key() -> spec_fn(NodeEntry) -> Seq<char> {
    |e: NodeEntry| e.path@
}

/// The node of a table entry.
pub open spec fn entry_node() -> spec_fn(NodeEntry) -> DeviceNode {
    |e: NodeEntry| e.node
}

/// The path of a table entry.
pub open spec fn entry_path(e: NodeEntry) -> Seq<char> {
    e.path@
}

/// Whether a path names the root: "/" or the empty path.
pub open spec fn is_root_path(path: Seq<char>) -> bool {
    path == seq!['/'] || path.len() == 0
}

/// The path of a child named `name` under `parent`.
pub open spec fn child_path(parent: Seq<char>, name: Seq<char>) -> Seq<char> {
    if parent == seq!['/'] {
        seq!['/'] + name
    } else {
        parent + seq!['/'] + name
    }
}

/// OpenFirmware device tree
#[derive(Debug)]
pub struct DeviceTree {
    /// Root node
    root: DeviceNode,
    /// Flat table of path -> node for quick lookups
    nodes: Vec<NodeEntry>,
}

impl DeviceTree {
    /// The table of nodes by path (the root is not in it).
    pub closed spec fn table(self) -> Map<Seq<char>, DeviceNode> {
        keyed_map(self.nodes@, entry_key(), entry_node())
    }

    /// The root node.
    pub closed spec fn root_node(self) -> DeviceNode {
        self.root
    }

    /// The node a path names, if any.
    pub open spec fn node_at(self, path: Seq<char>) -> Option<DeviceNode> {
        if is_root_path(path) {
            Some(self.root_node())
        } else if self.table().contains_key(path) {
            Some(self.table()[path])
        } else {
            None
        }
    }

    /// Create a new empty device tree
    pub fn new() -> (r: Self)
        ensures
            r.root_node().name@.len() == 0,
            r.root_node().node_type@.len() == 0,
            r.root_node().properties@.len() == 0,
            r.root_node().children@.len() == 0,
            r.table() == Map::<Seq<char>, DeviceNode>::empty(),
    {
        let r = Self { root: DeviceNode::new("", ""), nodes: Vec::new() };
        proof {
            reveal_strlit("");
            assert(r.table() =~= Map::<Seq<char>, DeviceNode>::empty());
        }
        r
    }

    /// Get the root node
    pub fn root(&self) -> (r: &DeviceNode)
        ensures
            *r == self.root_node(),
    {
        &self.root
    }

    /// Get the root node mutably
    pub fn root_mut(&mut self) -> (r: &mut DeviceNode)
        ensures
            *r == old(self).root_node(),
            final(self).root_node() == *final(r),
            final(self).table() == old(self).table(),
    {
        &mut self.root
    }

    /// Index of the first table entry with the given path.
    fn find_entry_index(&self, path: &str) -> (r: Option<usize>)
        ensures
            r matches Some(i) ==> i < self.nodes@.len() && first_match(self.nodes@, entry_key(), path@) == Some(i as int),
            r is None ==> first_match(self.nodes@, entry_key(), path@) is None,
    {
        let mut i: usize = 0;
        while i < self.nodes.len()
            invariant
                0 <= i <= self.nodes@.len(),
                forall|j: int| 0 <= j < i ==> entry_path(#[trigger] self.nodes@[j]) != path@,
            decreases self.nodes@.len() - i,
        {
            if str_eq(self.nodes[i].path.as_str(), path) {
                proof {
                    lemma_first_match_is(self.nodes@, entry_key(), path@, i as int);
                }
                return Some(i);
            }
            i = i + 1;
        }
        proof {
            lemma_first_match_is(self.nodes@, entry_key(), path@, i as int);
        }
        None
    }

    /// Put `node` in the table under `path`, replacing what was there.
    fn insert_entry(&mut self, path: String, node: DeviceNode)
        ensures
            final(self).table() == old(self).table().insert(path@, node),
            final(self).root_node() == old(self).root_node(),
    {
        let ghost old_nodes = self.nodes@;
        let found = self.find_entry_index(path.as_str());
        let e = NodeEntry { path, node };
        proof {
            assert(entry_key()(e) == e.path@);
        }
        match found {
            Some(i) => {
                self.nodes.set(i, e);
                proof {
                    lemma_keyed_map_update(old_nodes, entry_key(), entry_node(), i as int, e);
                }
            },
            None => {
                self.nodes.push(e);
                proof {
                    lemma_keyed_map_push(old_nodes, entry_key(), entry_node(), e);
                }
            },
        }
    }

    /// Add a node at a specific path
    pub fn add_node(&mut self, path: &str, node: DeviceNode)
        ensures
            final(self).table() == old(self).table().insert(path@, node),
            final(self).root_node() == old(self).root_node(),
    {
        self.insert_entry(path.to_owned(), node);
    }

    /// Add a child node to a parent path
    pub fn add_child(&mut self, parent_path: &str, child: DeviceNode)
        ensures
            final(self).table() == old(self).table().insert(child_path(parent_path@, child.name@), child),
            final(self).root_node() == old(self).root_node(),
    {
        proof {
            reveal_strlit("/");
            assert("/"@ =~= seq!['/']);
        }
        let child_path = if str_eq(parent_path, "/") {
            let mut p = String::from_str("/");
            p.append(child.name.as_str());
            p
        } else {
            let mut p = String::from_str(parent_path);
            p.append("/");
            p.append(child.name.as_str());
            p
        };
        self.insert_entry(child_path, child);
    }

    /// Find a node by path
    pub fn find_node(&self, path: &str) -> (r: Option<&DeviceNode>)
        ensures
            r matches Some(n) ==> self.node_at(path@) == Some(*n),
            r is None ==> self.node_at(path@) is None,
    {
        proof {
            reveal_strlit("/");
            assert("/"@ =~= seq!['/']);
        }
        if str_eq(path, "/") || path.is_empty() {
            Some(&self.root)
        } else {
            match self.find_entry_index(path) {
                Some(i) => Some(&self.nodes[i].node),
                None => None,
            }
        }
    }

    /// Find a node by path (mutable)
    pub fn find_node_mut(&mut self, path: &str) -> (r: Option<&mut DeviceNode>)
        ensures
            r is Some == old(self).node_at(path@) is Some,
            r matches Some(n) ==> {
                &&& old(self).node_at(path@) == Some(*n)
                &&& final(self).node_at(path@) == Some(*final(n))
                &&& is_root_path(path@) ==> final(self).table() == old(self).table()
                &&& !is_root_path(path@) ==> final(self).root_node() == old(self).root_node()
                    && final(self).table() == old(self).table().insert(path@, *final(n))
            },
            r is None ==> *final(self) == *old(self),
    {
        proof {
            reveal_strlit("/");
            assert("/"@ =~= seq!['/']);
        }
        if str_eq(path, "/") || path.is_empty() {
            Some(&mut self.root)
        } else {
            match self.find_entry_index(path) {
                Some(i) => {
                    let ghost old_nodes = self.nodes@;
                    let r = &mut self.nodes[i].node;
                    proof {
                        lemma_first_match(old_nodes, entry_key(), path@);
                        lemma_keyed_map_update(old_nodes, entry_key(), entry_node(), i as int,
                            NodeEntry { path: old_nodes[i as int].path, node: *final(r) });
                    }
                    Some(r)
                },
                None => None,
            }
        }
    }

    /// Get a property from a node
    pub fn get_property(&self, path: &str, property: &str) -> (r: Option<&[u8]>)
        ensures
            r is Some == (self.node_at(path@) matches Some(n) && n.props().contains_key(property@)),
            r matches Some(v) ==> v@ == self.node_at(path@)->0.props()[property@],
    {
        match self.find_node(path) {
            Some(n) => n.get_property(property),
            None => None,
        }
    }

    /// Set a property on a node
    pub fn set_property(&mut self, path: &str, property: &str, value: Vec<u8>)
        ensures
            old(self).node_at(path@) matches Some(n) ==> final(self).node_at(path@) matches Some(m)
                && m.props() == n.props().insert(property@, value@)
                && m.name == n.name && m.node_type == n.node_type && m.children == n.children,
            old(self).node_at(path@) is None ==> *final(self) == *old(self),
            forall|p: Seq<char>| !is_root_path(p) && !is_root_path(path@) && p != path@
                ==> #[trigger] final(self).node_at(p) == old(self).node_at(p),
            forall|p: Seq<char>| is_root_path(p) && !is_root_path(path@)
                ==> #[trigger] final(self).node_at(p) == old(self).node_at(p),
            forall|p: Seq<char>| !is_root_path(p) && is_root_path(path@)
                ==> #[trigger] final(self).node_at(p) == old(self).node_at(p),
    {
        match self.find_node_mut(path) {
            Some(node) => node.add_property(property, value),
            None => {},
        }
    }
}

impl Default for DeviceTree {
    fn default() -> (r: Self)
        ensures
            r.root_node().name@.len() == 0,
            r.root_node().properties@.len() == 0,
            r.root_node().children@.len() == 0,
            r.table() == Map::<Seq<char>, DeviceNode>::empty(),
    {
        Self::new()
    }
}

} // verus!
