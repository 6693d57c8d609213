//! The dispatch core of an HTTP transport for JSON-RPC clients.
//!
//! Callers submit opaque byte payloads through cloneable handles; one
//! consumer loop executes them against a connection-reusing HTTP client, in
//! strict submission order, racing each call against an optional timer. This
//! crate holds the core's logic with its contracts: monotonic unique request
//! identifiers, request construction with automatic and caller-overridable
//! headers, the FIFO submission queue, the status mapping and timeout
//! decisions of the execution loop, and the bootstrap rules that hand back a
//! ready transport or a construction error synchronously. The surrounding
//! runtime — the event loop, the network client, the channels — performs the
//! I/O these decisions drive.

pub mod builder;
pub mod dispatch;
pub mod errors;
pub mod handle;
pub mod headers;
pub mod id;
pub mod queue;
pub mod race;
pub mod transport;

pub use builder::{DefaultClient, HostSetup, HttpTransportBuilder};
pub use dispatch::{BodyRead, CallScript, Delivery, ResponseHead};
pub use errors::Error;
pub use handle::HttpHandle;
pub use headers::{HeaderEntry, HeaderValue, Headers};
pub use id::IdCounter;
pub use queue::{Request, SubmissionQueue};
pub use race::TimeLimited;
pub use transport::HttpTransport;
