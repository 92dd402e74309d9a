//! Bridges two asynchronous HTTP body-streaming abstractions and wraps an
//! open transport connection as a two-phase (readiness, then call) service.
//!
//! The crate verifies the decision logic of the bridge: how each poll outcome
//! of the wrapped value is translated into a poll outcome of the exposed face,
//! and what the connection wrapper hands to the transport and back on each of
//! its two dispatch paths. The asynchronous plumbing itself (trait impls over
//! a concrete transport, the event loop) stays outside the verified library.

pub mod body;
pub mod client;
