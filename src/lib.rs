//! An HTTP client core built around an ordered chain of middleware.
//!
//! The chain itself, the built-in logger and redirect policies, and the
//! client configuration record are modelled with plain values and verified.
//! Awaiting middleware and talking to the network is left to the caller.

pub mod config;
pub mod middleware;
pub mod url;
