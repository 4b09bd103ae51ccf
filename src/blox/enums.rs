//! Enum definitions of the actor: the message set, its custom types, the state enum.
use vstd::prelude::*;
use crate::link::Link;

verus! {

#[derive(Debug)]
pub struct EnumDef {
    pub ident: String,
    pub variants: Vec<EnumVariant>,
}

impl EnumDef {
    pub fn new(ident: &str, variants: Vec<EnumVariant>) -> (r: Self)
        ensures
            r.ident@ == ident@,
            r.variants == variants,
    {
        EnumDef { ident: ident.to_owned(), variants }
    }
}

/// A variant with zero or more type-signature arguments.
#[derive(Debug)]
pub struct EnumVariant {
    pub ident: String,
    pub args: Vec<Link>,
}

impl EnumVariant {
    pub fn new(ident: &str, args: Vec<Link>) -> (r: Self)
        ensures
            r.ident@ == ident@,
            r.args == args,
    {
        EnumVariant { ident: ident.to_owned(), args }
    }
}

} // verus!
