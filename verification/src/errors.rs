//! The error taxonomy of the transport.

use vstd::prelude::*;

verus! {

/// Every way a request or a transport construction can fail.
///
/// Construction errors are returned synchronously by the bootstrap entry
/// points; per-request errors are delivered exactly once as the outcome of a
/// single request and never halt the processing loop.
#[derive(Debug, Clone, Copy, PartialEq, Eq, Structural)]
pub enum Error {
    /// The injected client factory failed to produce a network client.
    ClientConstructionFailed,
    /// The destination string is not a valid URI.
    InvalidDestination,
    /// The response carried a status code other than 200.
    HttpStatusError(u16),
    /// The configured time limit elapsed before the response arrived.
    RequestTimeout,
    /// The submission queue has no live consumer any more.
    QueueClosed,
    /// The executing loop went away before delivering a result.
    ExecutorTerminated,
    /// The network layer itself failed (connection or body read).
    UnderlyingTransportError,
}

} // verus!
