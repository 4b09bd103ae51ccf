//! Enum variants whose arguments are plain type references.
use vstd::prelude::*;

verus! {

#[derive(Debug, Default)]
pub struct EnumVariant {
    pub ident: String,
    pub args: Vec<Link>,
}

impl EnumVariant {
    /// A variant without arguments.
    pub fn new(ident: &str) -> (r: Self)
        ensures
            r.ident@ == ident@,
            r.args@.len() == 0,
    {
        EnumVariant { ident: ident.to_owned(), args: Vec::new() }
    }
}

/// A type reference held by a variant.
#[derive(Debug, Default)]
pub struct Link(pub String);

impl Link {
    pub fn new(link: &str) -> (r: Self)
        ensures
            r.0@ == link@,
    {
        Link(link.to_owned())
    }

    pub fn as_str(&self) -> (r: &str)
        ensures
            r@ == self.0@,
    {
        self.0.as_str()
    }
}

} // verus!
