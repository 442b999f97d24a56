//! Event-driven TCP server core: per-connection byte buffers, the
//! descriptor registries, and the readiness-dispatch decision logic of an
//! edge-triggered, one-shot reactor.
//!
//! Everything that computes or decides lives here, verified. The kernel
//! calls themselves (accept, recv, send, the multiplexer) are performed by
//! an unverified shell that feeds their outcomes into the step functions of
//! this crate.

pub mod buf;
pub mod conn;
pub mod error;
pub mod event_loop;
pub mod server;
pub mod sockbuf;
pub mod socket;

pub use conn::Connection;
