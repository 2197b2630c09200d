//! Socket-keyed correlation of HTTP requests with their responses, for an
//! agent that watches a process's socket calls and reports a pair of tracing
//! spans for every exchange it sees.
//!
//! The library is the agent's logic and holds no process-wide state. Its
//! caller owns the trace store, the tracer and the reentrancy guard, shares
//! them as it sees fit, and hands them in with every event:
//!
//! - [`endpoint`] classifies raw socket addresses;
//! - [`store`] keeps one entry per traced socket descriptor;
//! - [`framer`] frames byte buffers as HTTP/1.x heads;
//! - [`propagate`] writes a trace context into a header block and gathers
//!   header fields back into a carrier;
//! - [`span`] plans spans and starts them on the tracing backend;
//! - [`driver`] turns socket events into store updates and spans;
//! - [`bytes`] holds the byte-level helpers the rest is built on.

pub mod bytes;
pub mod driver;
pub mod endpoint;
pub mod framer;
pub mod propagate;
pub mod span;
pub mod store;

pub use crate::bytes::vec_i8_into_u8;
pub use crate::driver::{add_span, end_trace, start_trace};
pub use crate::endpoint::from_libc_sockaddr;
pub use crate::store::{add_trace, create_trace, Trace, Traces};
