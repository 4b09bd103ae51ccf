//! A message enum made of plain variants.
use vstd::prelude::*;
use crate::blox::enum_variant::EnumVariant;

verus! {

#[derive(Debug, Default)]
pub struct MsgEnum {
    pub ident: String,
    pub variants: Vec<EnumVariant>,
}

impl MsgEnum {
    pub fn new(ident: &str, variants: Vec<EnumVariant>) -> (r: Self)
        ensures
            r.ident@ == ident@,
            r.variants == variants,
    {
        MsgEnum { ident: ident.to_owned(), variants }
    }
}

} // verus!
