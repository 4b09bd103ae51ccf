//! Resolution results, discovery records and import statements.
use vstd::prelude::*;

verus! {

/// Where a symbol was found.
#[derive(Debug)]
pub enum TypeLocation {
    /// A builtin or prelude type: no import.
    Builtin,
    /// A symbol of the runtime framework, with its full path.
    BloxideFramework(String),
    /// A symbol of the actor's own messaging module, with its full path.
    ActorCustom(String),
    /// Not found.
    Unknown,
}

pub enum LocationView {
    Builtin,
    Framework(Seq<char>),
    ActorCustom(Seq<char>),
    Unknown,
}

impl View for TypeLocation {
    type V = LocationView;

    open spec fn view(&self) -> LocationView {
        match self {
            TypeLocation::Builtin => LocationView::Builtin,
            TypeLocation::BloxideFramework(p) => LocationView::Framework(p@),
            TypeLocation::ActorCustom(p) => LocationView::ActorCustom(p@),
            TypeLocation::Unknown => LocationView::Unknown,
        }
    }
}

impl TypeLocation {
    pub fn duplicate(&self) -> (r: Self)
        ensures
            r@ == self@,
    {
        match self {
            TypeLocation::Builtin => TypeLocation::Builtin,
            TypeLocation::BloxideFramework(p) => TypeLocation::BloxideFramework(p.clone()),
            TypeLocation::ActorCustom(p) => TypeLocation::ActorCustom(p.clone()),
            TypeLocation::Unknown => TypeLocation::Unknown,
        }
    }
}

/// The part of the actor definition a type was discovered in.
#[derive(Debug, Clone, Copy, PartialEq, Eq, Structural)]
pub enum TypeContext {
    ExtendedState,
    Component,
    States,
    MessageSet,
    Runtime,
}

/// A symbol name found in a type signature, with where it was found.
#[derive(Debug)]
pub struct DiscoveredType {
    pub name: String,
    pub full_type: String,
    pub used_in_module: String,
    pub context: TypeContext,
}

pub struct DiscoveredView {
    pub name: Seq<char>,
    pub full_type: Seq<char>,
    pub used_in_module: Seq<char>,
    pub context: TypeContext,
}

impl View for DiscoveredType {
    type V = DiscoveredView;

    open spec fn view(&self) -> DiscoveredView {
        DiscoveredView {
            name: self.name@,
            full_type: self.full_type@,
            used_in_module: self.used_in_module@,
            context: self.context,
        }
    }
}

/// The import statement for a path.
pub open spec fn import_line(p: Seq<char>) -> Seq<char> {
    "use "@ + p + ";"@
}

/// A path to import.
#[derive(Debug, Clone)]
pub struct Import(pub String);

impl Import {
    pub fn new(value: &str) -> (r: Self)
        ensures
            r.0@ == value@,
    {
        Import(value.to_owned())
    }

    /// The statement `use <path>;`.
    pub fn rust_import(&self) -> (r: String)
        ensures
            r@ == import_line(self.0@),
    {
        let mut r = String::from_str("use ");
        r.append(self.0.as_str());
        r.append(";");
        r
    }

    pub fn as_str(&self) -> (r: &str)
        ensures
            r@ == self.0@,
    {
        self.0.as_str()
    }
}

} // verus!
