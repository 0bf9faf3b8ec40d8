//! Log-shipping bridge: a host application hands in discrete log events
//! (identifier, severity, elapsed time, message) and the bridge persists them
//! to a document store without blocking the caller.
//!
//! This crate holds the verified core: acknowledgment formatting, timestamp
//! formatting, configuration resolution, the once-only connection manager,
//! and the create-or-append document semantics of the upsert protocol. The
//! unverifiable rim (plugin ABI, threading, the store client itself) lives
//! outside and talks to this crate through plain values.

pub mod config;
pub mod conn;
pub mod decimal;
pub mod errors;
pub mod ingest;
pub mod timestamp;
pub mod upsert;
