//! Transports: the byte buffer model, the fast binary framing, routing,
//! discovery and the transport audit log.

pub mod buffer;
pub mod fast;
pub mod log;
pub mod outbound;
pub mod router;
pub mod discovery;
