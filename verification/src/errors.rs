//! The error taxonomy for connection attempts and liveness probes.

use vstd::prelude::*;

verus! {

/// Why one connection attempt or one liveness probe failed. Every variant
/// is terminal for the affected connection: nothing is retried at this
/// layer, and a connection whose probe failed is discarded, never returned
/// to the idle set.
#[derive(Clone, Copy, Debug, PartialEq, Eq, Structural)]
pub enum ConnError {
    /// The operation exceeded its configured timeout bound.
    Timeout,
    /// The socket or TLS session failed or was closed under the connection.
    Transport,
    /// The remote peer answered with a malformed or rejecting response.
    Protocol,
}

} // verus!
