//! The message set of an actor and its custom payload types.
use vstd::prelude::*;
use crate::blox::enums::EnumDef;

verus! {

#[derive(Debug)]
pub struct MessageSet {
    pub def: EnumDef,
    pub custom_types: Vec<EnumDef>,
}

impl MessageSet {
    pub fn new(def: EnumDef) -> (r: Self)
        ensures
            r.def == def,
            r.custom_types@.len() == 0,
    {
        MessageSet { def, custom_types: Vec::new() }
    }

    pub fn with_custom_types(def: EnumDef, custom_types: Vec<EnumDef>) -> (r: Self)
        ensures
            r.def == def,
            r.custom_types == custom_types,
    {
        MessageSet { def, custom_types }
    }

    pub fn get(&self) -> (r: &EnumDef)
        ensures
            *r == self.def,
    {
        &self.def
    }
}

} // verus!
