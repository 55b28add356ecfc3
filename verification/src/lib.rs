//! Lifecycle and concurrency orchestration core of an NTS-KE
//! (Network Time Security Key Establishment) server.
//!
//! The crate models the two-phase server lifecycle: `connect` assembles the
//! shared server state (key-rotator handle behind a reader/writer lock and an
//! immutable TLS configuration) from a loaded configuration, and `start` is
//! driven as a state machine that fans the shared state out to one listener
//! worker per configured address, a key-rotation worker and an optional
//! telemetry worker, then joins on a counted completion coordinator.

pub mod config;
pub mod coordinator;
pub mod errors;
pub mod rotator;
pub mod server;
pub mod tls;
