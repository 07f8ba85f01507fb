//! Core logic of a TCP throughput harness built on a completion-based I/O
//! interface: a server pushes fixed-size pages over a connection while a
//! client drains them for a fixed wall-clock duration and reports aggregate
//! bytes and pages transferred.
//!
//! This crate holds the verified part of the harness: the per-stream worker
//! state machines with their buffer-ownership discipline, the shared
//! statistics counters, the transfer-buffer pool, and the deadline
//! arithmetic. The asynchronous runtime, the sockets and the submission of
//! the actual I/O operations live outside the library and drive these state
//! machines with plain values.

use vstd::prelude::*;

pub mod pool;
pub mod session;
pub mod stats;
pub mod worker;

verus! {

/// Size in bytes of one page-sized transfer buffer.
pub const PAGE_SIZE: usize = 4096;

/// Length of a client measurement run, in seconds.
pub const DURATION_SECS: u64 = 10;

/// Number of concurrent stream workers per connection.
pub const PARALLEL_STREAMS: usize = 16;

/// The absolute deadline of a run: the instant the run started plus its
/// fixed duration, both in milliseconds.
pub fn deadline_after(start_ms: u64, duration_ms: u64) -> (r: u64)
    requires
        start_ms + duration_ms <= u64::MAX,
    ensures
        r == start_ms + duration_ms,
{
    start_ms + duration_ms
}

} // verus!
