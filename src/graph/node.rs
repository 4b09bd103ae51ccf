use vstd::prelude::*;

verus! {

/// A crate in the entity graph.
#[derive(Debug, Clone)]
pub struct Crate {
    pub name: String,
    pub path: String,
}

impl Crate {
    pub fn new(name: String, path: String) -> (r: Self)
        ensures
            r.name@ == name@,
            r.path@ == path@,
    {
        Self { name, path }
    }
}

/// A module (namespace) in the entity graph.
#[derive(Debug, Clone)]
pub struct Module {
    pub name: String,
    pub path: String,
}

impl Module {
    pub fn new(name: String, path: String) -> (r: Self)
        ensures
            r.name@ == name@,
            r.path@ == path@,
    {
        Self { name, path }
    }
}

/// A type (struct or enum) in the entity graph.
#[derive(Debug, Clone)]
pub struct Type {
    pub name: String,
    pub path: String,
}

impl Type {
    pub fn new(name: String, path: String) -> (r: Self)
        ensures
            r.name@ == name@,
            r.path@ == path@,
    {
        Self { name, path }
    }
}

/// A free function in the entity graph.
#[derive(Debug, Clone)]
pub struct Function {
    pub name: String,
    pub path: String,
}

impl Function {
    pub fn new(name: String, path: String) -> (r: Self)
        ensures
            r.name@ == name@,
            r.path@ == path@,
    {
        Self { name, path }
    }
}

/// A trait in the entity graph.
#[derive(Debug, Clone)]
pub struct Trait {
    pub name: String,
    pub path: String,
}

impl Trait {
    pub fn new(name: String, path: String) -> (r: Self)
        ensures
            r.name@ == name@,
            r.path@ == path@,
    {
        Self { name, path }
    }
}

/// The kind of a node, without its payload.
#[derive(Debug, Clone, Copy, PartialEq, Eq, Structural)]
pub enum NodeKind {
    Crate,
    Module,
    Type,
    Function,
    Trait,
}

/// What a node is, as a value: its kind, its name and its full path.
pub struct NodeView {
    pub kind: NodeKind,
    pub name: Seq<char>,
    pub path: Seq<char>,
}

/// A tagged entity of the graph: a namespace or a symbol.
#[derive(Debug, Clone)]
pub enum Node {
    Crate(Crate),
    Module(Module),
    Type(Type),
    Function(Function),
    Trait(Trait),
}

impl View for Node {
    type V = NodeView;

    open spec fn view(&self) -> NodeView {
        NodeView { kind: self.spec_kind(), name: self.spec_name(), path: self.spec_path() }
    }
}

impl Node {
    /// The last path segment of the node.
    pub open spec fn spec_name(&self) -> Seq<char> {
        match self {
            Node::Crate(x) => x.name@,
            Node::Module(x) => x.name@,
            Node::Type(x) => x.name@,
            Node::Function(x) => x.name@,
            Node::Trait(x) => x.name@,
        }
    }

    /// The full hierarchical path stored in the node.
    pub open spec fn spec_path(&self) -> Seq<char> {
        match self {
            Node::Crate(x) => x.path@,
            Node::Module(x) => x.path@,
            Node::Type(x) => x.path@,
            Node::Function(x) => x.path@,
            Node::Trait(x) => x.path@,
        }
    }

    pub open spec fn spec_kind(&self) -> NodeKind {
        match self {
            Node::Crate(_) => NodeKind::Crate,
            Node::Module(_) => NodeKind::Module,
            Node::Type(_) => NodeKind::Type,
            Node::Function(_) => NodeKind::Function,
            Node::Trait(_) => NodeKind::Trait,
        }
    }

    pub open spec fn is_module(&self) -> bool {
        self is Module
    }

    pub fn name(&self) -> (r: String)
        ensures
            r@ == self.spec_name(),
    {
        match self {
            Node::Crate(x) => x.name.clone(),
            Node::Module(x) => x.name.clone(),
            Node::Type(x) => x.name.clone(),
            Node::Function(x) => x.name.clone(),
            Node::Trait(x) => x.name.clone(),
        }
    }

    pub fn full_path(&self) -> (r: String)
        ensures
            r@ == self.spec_path(),
    {
        match self {
            Node::Crate(x) => x.path.clone(),
            Node::Module(x) => x.path.clone(),
            Node::Type(x) => x.path.clone(),
            Node::Function(x) => x.path.clone(),
            Node::Trait(x) => x.path.clone(),
        }
    }

    /// A copy of the node, field by field.
    pub fn duplicate(&self) -> (r: Node)
        ensures
            r == *self,
    {
        match self {
            Node::Crate(x) => Node::Crate(Crate { name: x.name.clone(), path: x.path.clone() }),
            Node::Module(x) => Node::Module(Module { name: x.name.clone(), path: x.path.clone() }),
            Node::Type(x) => Node::Type(Type { name: x.name.clone(), path: x.path.clone() }),
            Node::Function(x) => Node::Function(
                Function { name: x.name.clone(), path: x.path.clone() },
            ),
            Node::Trait(x) => Node::Trait(Trait { name: x.name.clone(), path: x.path.clone() }),
        }
    }

    pub fn kind(&self) -> (r: NodeKind)
        ensures
            r == self.spec_kind(),
    {
        match self {
            Node::Crate(_) => NodeKind::Crate,
            Node::Module(_) => NodeKind::Module,
            Node::Type(_) => NodeKind::Type,
            Node::Function(_) => NodeKind::Function,
            Node::Trait(_) => NodeKind::Trait,
        }
    }

    /// The name of the node's kind: `"Crate"`, `"Module"`, `"Type"`, `"Function"` or `"Trait"`.
    pub fn node_str(&self) -> (r: &'static str)
        ensures
            r@ == kind_str(self.spec_kind()),
    {
        match self {
            Node::Crate(_) => "Crate",
            Node::Module(_) => "Module",
            Node::Type(_) => "Type",
            Node::Function(_) => "Function",
            Node::Trait(_) => "Trait",
        }
    }
}

pub open spec fn kind_str(k: NodeKind) -> Seq<char> {
    match k {
        NodeKind::Crate => "Crate"@,
        NodeKind::Module => "Module"@,
        NodeKind::Type => "Type"@,
        NodeKind::Function => "Function"@,
        NodeKind::Trait => "Trait"@,
    }
}

/// The relation carried by an edge.
#[derive(Debug, Clone, Copy, PartialEq, Eq, Structural)]
pub enum Relation {
    Contains,
    Implements,
    Uses,
}

/// A node index together with a copy of the node.
#[derive(Debug, Clone)]
pub struct Entry {
    pub index: usize,
    pub node: Node,
}

impl Entry {
    pub fn new(index: usize, node: Node) -> (r: Self)
        ensures
            r.index == index,
            r.node == node,
    {
        Self { index, node }
    }
}

/// A node index, a copy of the node, and the relation of the edge that reached it.
#[derive(Debug, Clone)]
pub struct RelatedEntry {
    pub index: usize,
    pub node: Node,
    pub relation: Relation,
}

impl RelatedEntry {
    pub fn new(index: usize, node: Node, relation: Relation) -> (r: Self)
        ensures
            r.index == index,
            r.node == node,
            r.relation == relation,
    {
        Self { index, node, relation }
    }

    pub fn relation(&self) -> (r: Relation)
        ensures
            r == self.relation,
    {
        self.relation
    }

    pub fn node(&self) -> (r: &Node)
        ensures
            *r == self.node,
    {
        &self.node
    }

    pub fn index(&self) -> (r: usize)
        ensures
            r == self.index,
    {
        self.index
    }
}

} // verus!
