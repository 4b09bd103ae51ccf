//! Code of the extended-state module.
use vstd::prelude::*;
use crate::blox::ext_state::{ExtState, ext_state_text};
use crate::graph::codegen::CodeGenGraph;

verus! {

/// The code of an extended state.
pub fn generate_ext_state(ext_state: &ExtState, _graph: &CodeGenGraph) -> (r: String)
    ensures
        r@ == ext_state_text(*ext_state),
{
    ext_state.to_rust()
}

} // verus!
