//! Wire encodings.

use vstd::prelude::*;

verus! {

/// Wire encoding format.
#[non_exhaustive]
#[derive(Debug, Clone, Copy, PartialEq, Eq, Structural)]
pub enum Encoding {
    /// JSON, used for A2A interoperability.
    Json,
    /// Bincode, used for the fast path.
    Binary,
}

} // verus!
