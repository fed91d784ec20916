//! Stream-transport core of an HTTP/2-based tunneling layer: a duplex-stream
//! adapter over one multiplexed stream, a half-close-aware active-stream
//! counter, a connection liveness watchdog, and the error classification that
//! maps stream-reset reasons onto the generic I/O error taxonomy.
//!
//! The multiplexed-stream layer itself (frame codec, flow-control bookkeeping,
//! timers, task scheduling) is an external collaborator: this crate holds the
//! decision logic, stated over plain values, and a scripted in-memory backend
//! that stands in for the multiplexed layer when the adapters are exercised.
use vstd::prelude::*;

pub mod chunk;
pub mod classify;
pub mod fake;
pub mod ping;
pub mod stream;
pub mod tracker;

verus! {

/// Immutable flow-control and pooling parameters, fixed at connection-setup
/// time and shared by every stream of a connection.
///
/// The idle-release timeout is carried in milliseconds.
#[derive(Clone, Copy, Debug)]
pub struct Config {
    pub window_size: u32,
    pub connection_window_size: u32,
    pub frame_size: u32,
    pub pool_max_streams_per_conn: u16,
    pub pool_unused_release_timeout: u64,
}

} // verus!
