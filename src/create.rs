pub mod component_gen;
pub mod file_gen;
pub mod ext_state_gen;
pub mod generator;
pub mod message_gen;
pub mod runtime_gen;
pub mod state_gen;
pub mod trait_impl;

pub use state_gen::{
    generate_inner_states, generate_inner_states_with_graph,
    generate_inner_states_with_structural_analysis, generate_state_enum_impl,
    generate_state_enum_impl_with_graph, generate_state_enum_impl_with_structural_analysis,
};
pub use trait_impl::generate_state_impls;
pub use generator::ActorGenerator;
