//! Verified core of a supervised IPC client for an external media player.
//!
//! The library holds the logic that is worth proving: the decision rules of
//! the process supervisor (probe, stale-socket cleanup, respawn, bounded
//! readiness polling), the wire codec of the newline-delimited JSON control
//! protocol, the command facade that maps typed operations to wire requests,
//! and the small persisted item list.  The embedding application performs the
//! actual process and socket I/O and feeds the outcomes back into these
//! decision functions.

pub mod errors;
pub mod facade;
pub mod store;
pub mod supervisor;
pub mod text;
pub mod transport;
pub mod wire;
