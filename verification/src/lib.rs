//! A WebSocket connectivity probe.
//!
//! Given a raw target string, the library validates it as an absolute URL,
//! dispatches on its scheme between a plaintext and an encrypted transport,
//! and translates the outcome of a single connection-plus-handshake attempt
//! into a normalized result, rendered as an HTTP reply. The network I/O
//! itself is performed by the surrounding service between [`target::validate`]
//! / [`probe::dispatch`] and [`probe::settle`]; every decision along the way
//! is made here.

pub mod probe;
pub mod respond;
pub mod target;
