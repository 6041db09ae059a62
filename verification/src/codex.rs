//! The JSON-RPC app-server backend: codec, JSON-RPC helpers, handshake state
//! machine, and the one-shot command builder.

pub mod message_parser;
pub mod app_server;
pub mod exec_transport;
pub mod jsonrpc;
