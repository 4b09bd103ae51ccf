pub mod blox;
pub mod create;
pub mod field;
pub mod graph;
pub mod link;
pub mod method;
pub mod path;
pub mod sorted;

pub use blox::{actor, component, enum_variant, enums, ext_state, message_handlers, message_set, msg_enum, state};
pub use field::Field;
pub use link::Link;
pub use method::Method;
