pub mod actor;
pub mod component;
pub mod enum_variant;
pub mod enums;
pub mod ext_state;
pub mod message_handlers;
pub mod message_set;
pub mod msg_enum;
pub mod state;
