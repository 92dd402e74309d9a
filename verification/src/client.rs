//! Client-side pieces: the wrapper that presents an open transport
//! connection as a two-phase (readiness, then call) service.

pub mod connection;
