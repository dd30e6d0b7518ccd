pub mod frame;
pub mod chat;
pub mod behaviour;
