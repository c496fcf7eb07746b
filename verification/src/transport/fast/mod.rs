//! The fast binary transport: length-prefixed frames and the decisions of
//! its server and clients.

pub mod codec;
pub mod exchange;
