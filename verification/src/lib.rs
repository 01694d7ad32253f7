//! A TCP reachability probe library.
//!
//! A caller names a target `host:port`; the service attempts a bounded TCP
//! connection to it and reports the outcome as an HTTP status code and a short
//! text body. This crate holds the verified request-to-probe pipeline: parsing
//! and validating query parameters, building the per-request response policy,
//! selecting the canonical resolved address, and mapping the probe outcome to
//! the final status and body. Name resolution, the TCP connect itself, and the
//! HTTP server around it are the unverified shell's business; they hand this
//! library plain values and take plain values back.

pub mod addr;
pub mod digits;
pub mod handler;
pub mod laws;
pub mod policy;
pub mod probe;
pub mod text;
pub mod usage;
