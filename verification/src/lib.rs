//! Synchronization core of a multi-client editing backend.
//!
//! The crate holds authoritative in-memory `State` objects (editor
//! sessions) in a [`state::StatesList`] registry, routes inbound
//! [`messaging::Messages`] through a single-consumer dispatch step
//! ([`server::Server::process_message`]), and exposes a token-gated
//! RPC facade ([`server::RpcManager`]) over states, their filesystems
//! and their loaded extensions.

pub mod assoc;
pub mod errors;
pub mod extensions;
pub mod filesystems;
pub mod laws;
pub mod messaging;
pub mod server;
pub mod state;
