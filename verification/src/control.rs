//! The persistent control-protocol backend: codec, command builder, and
//! control-session state machine.

pub mod message_parser;
pub mod command_builder;
pub mod protocol;
