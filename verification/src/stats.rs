//! Shared transfer statistics: two monotonically increasing counters,
//! mutated by every worker on completion and read once after all workers
//! have stopped.

use vstd::prelude::*;

verus! {

/// Aggregate counters for one measurement run: total bytes observed and
/// total completed operations ("pages"). Counters only grow; they are never
/// reset during a run.
pub struct Stats {
    /// Total bytes transferred so far.
    pub total_bytes: usize,
    /// Total completed operations so far.
    pub total_pages: usize,
}

impl Stats {
    /// A fresh, zeroed counter pair.
    pub fn new() -> (r: Stats)
        ensures
            r.total_bytes == 0,
            r.total_pages == 0,
    {
        Stats { total_bytes: 0, total_pages: 0 }
    }

    /// Record one completed operation that transferred `bytes` bytes: add to
    /// the byte counter and increment the page counter. Both counters are
    /// non-decreasing across the call.
    pub fn add(&mut self, bytes: usize)
        requires
            old(self).total_bytes + bytes <= usize::MAX,
            old(self).total_pages + 1 <= usize::MAX,
        ensures
            final(self).total_bytes == old(self).total_bytes + bytes,
            final(self).total_pages == old(self).total_pages + 1,
            final(self).total_bytes >= old(self).total_bytes,
            final(self).total_pages >= old(self).total_pages,
    {
        self.total_bytes = self.total_bytes + bytes;
        self.total_pages = self.total_pages + 1;
    }

    /// A consistent view of both counters, meant to be taken after every
    /// worker of the run has stopped.
    pub fn snapshot(&self) -> (r: (usize, usize))
        ensures
            r.0 == self.total_bytes,
            r.1 == self.total_pages,
    {
        (self.total_bytes, self.total_pages)
    }
}

} // verus!
