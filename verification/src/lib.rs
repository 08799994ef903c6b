//! Supervision of a single long-running external service process: finding a
//! free network port, planning its launch, deciding readiness from its log
//! output and from probes, retrying failed attempts with exponential
//! backoff, and a single-slot registry backing the stop operation.
//!
//! All decision logic lives here, verified. The I/O that carries the
//! decisions out (binding sockets, spawning the process, sleeping, reading
//! its output, the observer's event bus) belongs to the caller, which
//! drives these state machines with the outcomes it observes.

pub mod config;
pub mod drain;
pub mod http;
pub mod monitor;
pub mod ports;
pub mod registry;
pub mod retry;
pub mod session;
pub mod text;
