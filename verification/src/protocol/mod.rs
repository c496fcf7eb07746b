//! Core protocol: wire types, errors, JSON-RPC envelopes, agents and
//! middleware layering.

pub mod agent;
pub mod codec;
pub mod error;
pub mod jsonrpc;
pub mod metadata;
pub mod types;
