pub mod codegen;
pub mod discover;
pub mod node;
pub mod pet;
pub mod rgraph;
pub mod ty;
pub mod walk;

pub use codegen::CodeGenGraph;
pub use ty::Import;
