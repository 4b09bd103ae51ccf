//! A named, typed field.
use vstd::prelude::*;
use crate::link::Link;
use crate::path::{concat_all, concat_parts, str_eq};

verus! {

#[derive(Debug, Clone)]
pub struct Field {
    ident: String,
    ty: Link,
}

impl Field {
    pub closed spec fn spec_ident(&self) -> Seq<char> {
        self.ident@
    }

    pub closed spec fn spec_ty(&self) -> Seq<char> {
        self.ty.0@
    }

    pub fn new(ident: &str, ty: &str) -> (r: Self)
        ensures
            r.spec_ident() == ident@,
            r.spec_ty() == ty@,
    {
        Field { ident: ident.to_owned(), ty: Link::new(ty) }
    }

    pub fn ident(&self) -> (r: &str)
        ensures
            r@ == self.spec_ident(),
    {
        self.ident.as_str()
    }

    pub fn ty(&self) -> (r: &Link)
        ensures
            r.0@ == self.spec_ty(),
    {
        &self.ty
    }

    /// A copy of the field.
    pub fn duplicate(&self) -> (r: Self)
        ensures
            r.spec_ident() == self.spec_ident(),
            r.spec_ty() == self.spec_ty(),
    {
        Field { ident: self.ident.clone(), ty: self.ty.duplicate() }
    }
}

impl Field {
    pub open spec fn text(&self) -> Seq<char> {
        concat_all(seq!["pub "@, self.spec_ident(), ": "@, self.spec_ty()])
    }

    /// The field as a public struct field.
    pub fn to_rust(&self) -> (r: String)
        ensures
            r@ == self.text(),
    {
        let p = ["pub ", self.ident.as_str(), ": ", self.ty.as_str()];
        proof {
            assert(p@.map_values(|x: &str| x@) =~= seq![p@[0]@, self.spec_ident(), p@[2]@, self.spec_ty()]);
        }
        concat_parts(&p)
    }

    /// Whether both fields have the same name and type.
    pub fn same_as(&self, other: &Field) -> (r: bool)
        ensures
            r == (self.spec_ident() == other.spec_ident() && self.spec_ty() == other.spec_ty()),
    {
        str_eq(self.ident.as_str(), other.ident.as_str()) && str_eq(self.ty.as_str(), other.ty.as_str())
    }
}

/// Copies of the fields, in order.
pub fn copy_fields(fields: &[Field]) -> (r: Vec<Field>)
    ensures
        r@.len() == fields@.len(),
        forall|i: int|
            0 <= i < r@.len() ==> (#[trigger] r@[i]).spec_ident() == fields@[i].spec_ident()
                && r@[i].spec_ty() == fields@[i].spec_ty(),
{
    let mut r: Vec<Field> = Vec::new();
    let mut i: usize = 0;
    while i < fields.len()
        invariant
            i <= fields@.len(),
            r@.len() == i,
            forall|j: int|
                0 <= j < i ==> (#[trigger] r@[j]).spec_ident() == fields@[j].spec_ident()
                    && r@[j].spec_ty() == fields@[j].spec_ty(),
        decreases fields@.len() - i,
    {
        r.push(fields[i].duplicate());
        i = i + 1;
    }
    r
}

} // verus!
