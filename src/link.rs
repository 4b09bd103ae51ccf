//! A reference to a type, written as in source code.
use vstd::prelude::*;

verus! {

/// A type signature string, such as `Message<SomeType>` or `a::b::C`.
#[derive(Debug, Clone)]
pub struct Link(pub String);

impl Link {
    pub fn new(link: &str) -> (r: Self)
        ensures
            r.0@ == link@,
    {
        Link(link.to_owned())
    }

    pub fn as_str(&self) -> (r: &str)
        ensures
            r@ == self.0@,
    {
        self.0.as_str()
    }

    /// A copy of the link.
    pub fn duplicate(&self) -> (r: Self)
        ensures
            r.0@ == self.0@,
    {
        Link(self.0.clone())
    }
}

} // verus!
