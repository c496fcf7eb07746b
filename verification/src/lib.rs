//! Messaggero: wire types, framing and routing logic for multi-agent
//! communication, with machine-checked contracts.

pub mod audit;
pub mod keyed;
pub mod llm;
pub mod protocol;
pub mod server;
pub mod text;
pub mod transport;
