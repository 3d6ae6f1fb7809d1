//! A stream transport: drives a byte-stream protocol over an edge-triggered,
//! non-blocking socket, one readiness notification at a time.

pub mod buffer;
pub mod protocol;
pub mod stream;
pub mod laws;

pub use crate::protocol::{Async, Protocol, Transport};
pub use crate::stream::{Io, Phase, Step, Stream, Timeout};
