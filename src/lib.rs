//! A small forwarding proxy: requests are rewritten to target one fixed
//! upstream host over HTTPS, a `/status` path reports how many requests
//! were forwarded, and the server drains in-flight work on shutdown.
//!
//! The modules hold the decisions; the network plumbing lives in the
//! binary around this library.
pub mod rewrite;
pub mod wire;
pub mod stats;
pub mod pipeline;
pub mod lifecycle;
