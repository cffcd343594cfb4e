//! A duplex byte pump between a pseudo-terminal and the controlling terminal.
//!
//! The crate holds the decisions of a readiness-driven relay: how bytes move
//! through the two transfer buffers, which readiness conditions each
//! descriptor is registered for, when the relay ends, and how the child's
//! termination becomes an exit code. Descriptors, the poller and the child
//! process belong to the caller, which reports what its reads, writes and
//! waits returned.

pub mod pump;
pub mod readiness;
pub mod recorder;
pub mod session;
pub mod trace;
pub mod transfer;
