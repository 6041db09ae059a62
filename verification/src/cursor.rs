//! The spawn-per-turn backend: codec and per-turn session state machine.

pub mod message_parser;
pub mod session;
