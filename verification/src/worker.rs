//! Per-stream worker state machines.
//!
//! Each worker drives one fixed-size buffer through repeated I/O operations
//! on the shared connection. The worker owns its buffer except while an
//! operation is outstanding: submission moves the buffer out of the worker
//! and into the operation, and handling the completion moves it back. The
//! state machines here make every decision of the loop — deadline check,
//! peer-closed detection, error isolation, statistics update — while the
//! unverified runtime outside the library performs the actual submissions
//! and hands the completions back as plain values.

use vstd::prelude::*;
use crate::stats::Stats;

verus! {

/// Why a worker's loop ended.
#[derive(Clone, Copy, PartialEq, Eq, Debug)]
pub enum StopReason {
    /// The run's deadline had passed at the top of the loop (client only).
    Deadline,
    /// An operation completed with zero bytes: the peer closed the
    /// connection. This is the normal stop condition, not an error.
    PeerClosed,
    /// An operation failed; the worker stops without retrying.
    IoError,
}

/// The outcome of one completed I/O operation, as the runtime reports it
/// back to a worker.
#[derive(Clone, Copy, PartialEq, Eq, Debug)]
pub enum Completion {
    /// The operation completed and transferred this many bytes (possibly
    /// fewer than the buffer holds; partial transfers are normal
    /// completions, and zero bytes means the peer closed the connection).
    Done { bytes: usize },
    /// The operation failed.
    Failed,
}

/// Where a client (reader) worker stands in its loop.
#[derive(Clone, Copy, PartialEq, Eq, Debug)]
pub enum ClientPhase {
    /// At the top of the loop, holding its buffer, about to check the
    /// deadline.
    Idle,
    /// One read operation is outstanding; the buffer is inside it.
    Reading,
    /// The loop has ended for the given reason.
    Stopped(StopReason),
}

/// Where a server (writer) worker stands in its loop.
#[derive(Clone, Copy, PartialEq, Eq, Debug)]
pub enum ServerPhase {
    /// Holding its buffer, about to submit the next write.
    Idle,
    /// One write operation is outstanding; the buffer is inside it.
    Writing,
    /// The loop has ended for the given reason.
    Stopped(StopReason),
}

/// The phase a client worker moves to from `Idle` once it has read the
/// clock: stop if the deadline has passed, otherwise submit a read.
pub open spec fn client_check_step(deadline_ms: u64, now_ms: u64) -> ClientPhase {
    if now_ms >= deadline_ms {
        ClientPhase::Stopped(StopReason::Deadline)
    } else {
        ClientPhase::Reading
    }
}

/// The phase a client worker moves to from `Reading` once its read
/// completes: zero bytes means the peer closed, a failure stops the worker,
/// and anything else loops back to the deadline check.
pub open spec fn client_completion_step(c: Completion) -> ClientPhase {
    match c {
        Completion::Done { bytes } => {
            if bytes == 0 {
                ClientPhase::Stopped(StopReason::PeerClosed)
            } else {
                ClientPhase::Idle
            }
        },
        Completion::Failed => ClientPhase::Stopped(StopReason::IoError),
    }
}

/// The phase a server worker moves to from `Writing` once its write
/// completes: zero bytes means the peer disconnected, a failure stops the
/// worker, and anything else submits the next write. The server has no
/// deadline.
pub open spec fn server_completion_step(c: Completion) -> ServerPhase {
    match c {
        Completion::Done { bytes } => {
            if bytes == 0 {
                ServerPhase::Stopped(StopReason::PeerClosed)
            } else {
                ServerPhase::Idle
            }
        },
        Completion::Failed => ServerPhase::Stopped(StopReason::IoError),
    }
}

/// The counters a client worker leaves behind after handling one read
/// completion: a successful read of `bytes > 0` adds `bytes` to the byte
/// counter and one to the page counter; a zero-byte read or a failure
/// leaves the counters untouched.
pub open spec fn stats_after_read(s: Stats, c: Completion) -> Stats {
    match c {
        Completion::Done { bytes } => {
            if bytes == 0 {
                s
            } else {
                Stats {
                    total_bytes: (s.total_bytes + bytes) as usize,
                    total_pages: (s.total_pages + 1) as usize,
                }
            }
        },
        Completion::Failed => s,
    }
}

/// One client-side stream worker: a reader loop bound to one buffer slot
/// and the session's shared deadline.
pub struct ClientWorker {
    /// Where the worker stands in its loop.
    pub phase: ClientPhase,
    /// The worker's transfer buffer — `None` exactly while a read operation
    /// is outstanding, because the buffer's ownership has moved into it.
    pub buffer: Option<Vec<u8>>,
    /// The fixed length of the worker's buffer, in bytes.
    pub page_size: usize,
    /// The absolute instant, in milliseconds, past which the worker stops.
    pub deadline_ms: u64,
}

impl ClientWorker {
    /// The buffer-ownership discipline: the worker holds its buffer — at its
    /// fixed page size — exactly when no operation of its slot is
    /// outstanding.
    pub open spec fn wf(self) -> bool {
        &&& (self.phase is Reading <==> self.buffer is None)
        &&& (self.buffer matches Some(b) ==> b@.len() == self.page_size)
    }

    /// A fresh worker at the top of its loop, owning `buffer` for its
    /// exclusive lifetime.
    pub fn new(buffer: Vec<u8>, deadline_ms: u64) -> (r: ClientWorker)
        ensures
            r.wf(),
            r.phase is Idle,
            r.page_size == buffer@.len(),
            r.deadline_ms == deadline_ms,
            r.buffer == Some(buffer),
    {
        let page_size = buffer.len();
        ClientWorker { phase: ClientPhase::Idle, buffer: Some(buffer), page_size, deadline_ms }
    }

    /// True once the worker's loop has ended.
    pub fn is_stopped(&self) -> (r: bool)
        ensures
            r == (self.phase is Stopped),
    {
        match self.phase {
            ClientPhase::Stopped(_) => true,
            _ => false,
        }
    }

    /// The top of the loop: consult the clock against the deadline. If the
    /// deadline has passed the worker stops and keeps its buffer; otherwise
    /// it hands the buffer out — transferring ownership into the read
    /// operation the caller is about to submit — and records that the
    /// operation is outstanding.
    pub fn begin_read(&mut self, now_ms: u64) -> (r: Option<Vec<u8>>)
        requires
            old(self).wf(),
            old(self).phase is Idle,
        ensures
            final(self).wf(),
            final(self).page_size == old(self).page_size,
            final(self).deadline_ms == old(self).deadline_ms,
            final(self).phase == client_check_step(old(self).deadline_ms, now_ms),
            now_ms >= old(self).deadline_ms ==> r is None && final(self).buffer == old(self).buffer,
            now_ms < old(self).deadline_ms ==> r == old(self).buffer && final(self).buffer is None,
    {
        if now_ms >= self.deadline_ms {
            self.phase = ClientPhase::Stopped(StopReason::Deadline);
            None
        } else {
            self.phase = ClientPhase::Reading;
            self.buffer.take()
        }
    }

    /// Handle the completion of the outstanding read: take the buffer back,
    /// and either stop (peer closed, or the read failed — the statistics are
    /// then untouched) or record the transferred bytes in the shared
    /// statistics and return to the top of the loop.
    pub fn complete_read(&mut self, buffer: Vec<u8>, c: Completion, stats: &mut Stats)
        requires
            old(self).wf(),
            old(self).phase is Reading,
            buffer@.len() == old(self).page_size,
            c matches Completion::Done { bytes } ==> old(stats).total_bytes + bytes <= usize::MAX
                && old(stats).total_pages + 1 <= usize::MAX,
        ensures
            final(self).wf(),
            final(self).page_size == old(self).page_size,
            final(self).deadline_ms == old(self).deadline_ms,
            final(self).phase == client_completion_step(c),
            final(self).buffer == Some(buffer),
            *final(stats) == stats_after_read(*old(stats), c),
            final(stats).total_bytes >= old(stats).total_bytes,
            final(stats).total_pages >= old(stats).total_pages,
    {
        self.buffer = Some(buffer);
        match c {
            Completion::Done { bytes } => {
                if bytes == 0 {
                    self.phase = ClientPhase::Stopped(StopReason::PeerClosed);
                } else {
                    stats.add(bytes);
                    self.phase = ClientPhase::Idle;
                }
            },
            Completion::Failed => {
                self.phase = ClientPhase::Stopped(StopReason::IoError);
            },
        }
    }
}

/// One server-side stream worker: a writer loop bound to one buffer slot.
/// It pushes its page until the peer disconnects or a write fails.
pub struct ServerWorker {
    /// Where the worker stands in its loop.
    pub phase: ServerPhase,
    /// The worker's transfer buffer — `None` exactly while a write
    /// operation is outstanding.
    pub buffer: Option<Vec<u8>>,
    /// The fixed length of the worker's buffer, in bytes.
    pub page_size: usize,
}

impl ServerWorker {
    /// The buffer-ownership discipline: the worker holds its buffer — at its
    /// fixed page size — exactly when no operation of its slot is
    /// outstanding.
    pub open spec fn wf(self) -> bool {
        &&& (self.phase is Writing <==> self.buffer is None)
        &&& (self.buffer matches Some(b) ==> b@.len() == self.page_size)
    }

    /// A fresh worker owning `buffer` — the page it will write over and
    /// over — for its exclusive lifetime.
    pub fn new(buffer: Vec<u8>) -> (r: ServerWorker)
        ensures
            r.wf(),
            r.phase is Idle,
            r.page_size == buffer@.len(),
            r.buffer == Some(buffer),
    {
        let page_size = buffer.len();
        ServerWorker { phase: ServerPhase::Idle, buffer: Some(buffer), page_size }
    }

    /// True once the worker's loop has ended.
    pub fn is_stopped(&self) -> (r: bool)
        ensures
            r == (self.phase is Stopped),
    {
        match self.phase {
            ServerPhase::Stopped(_) => true,
            _ => false,
        }
    }

    /// Hand the page out — transferring ownership into the write operation
    /// the caller is about to submit — and record that the operation is
    /// outstanding.
    pub fn begin_write(&mut self) -> (r: Vec<u8>)
        requires
            old(self).wf(),
            old(self).phase is Idle,
        ensures
            final(self).wf(),
            final(self).page_size == old(self).page_size,
            final(self).phase is Writing,
            final(self).buffer is None,
            Some(r) == old(self).buffer,
            r@.len() == old(self).page_size,
    {
        self.phase = ServerPhase::Writing;
        self.buffer.take().unwrap()
    }

    /// Handle the completion of the outstanding write: take the buffer
    /// back, and either stop (peer disconnected, or the write failed) or
    /// return to the top of the loop for the next submission.
    pub fn complete_write(&mut self, buffer: Vec<u8>, c: Completion)
        requires
            old(self).wf(),
            old(self).phase is Writing,
            buffer@.len() == old(self).page_size,
        ensures
            final(self).wf(),
            final(self).page_size == old(self).page_size,
            final(self).phase == server_completion_step(c),
            final(self).buffer == Some(buffer),
    {
        self.buffer = Some(buffer);
        match c {
            Completion::Done { bytes } => {
                if bytes == 0 {
                    self.phase = ServerPhase::Stopped(StopReason::PeerClosed);
                } else {
                    self.phase = ServerPhase::Idle;
                }
            },
            Completion::Failed => {
                self.phase = ServerPhase::Stopped(StopReason::IoError);
            },
        }
    }
}

/// Single-outstanding-operation-per-slot: a well-formed client worker with
/// a read in flight has surrendered its buffer, so the buffer cannot be
/// handed to a second operation before the first completes — submitting
/// again is only possible from `Idle`, which holds the buffer.
pub proof fn lemma_client_single_outstanding(w: ClientWorker)
    requires
        w.wf(),
        w.phase is Reading,
    ensures
        w.buffer is None,
{
}

/// Single-outstanding-operation-per-slot for the server side: a well-formed
/// server worker with a write in flight has surrendered its buffer.
pub proof fn lemma_server_single_outstanding(w: ServerWorker)
    requires
        w.wf(),
        w.phase is Writing,
    ensures
        w.buffer is None,
{
}

/// Once the deadline has passed, the deadline check is final: a worker at
/// the top of its loop stops at once without submitting anything, and a
/// worker with a read already in flight either stops when that completion
/// is handled or stops at the very next deadline check — so at most the one
/// already-outstanding operation runs after the deadline.
pub proof fn lemma_deadline_stops_promptly(deadline_ms: u64, now1_ms: u64, c: Completion, now2_ms: u64)
    requires
        now1_ms >= deadline_ms,
        now2_ms >= deadline_ms,
    ensures
        client_check_step(deadline_ms, now1_ms) == ClientPhase::Stopped(StopReason::Deadline),
        client_completion_step(c) is Stopped || client_check_step(deadline_ms, now2_ms) is Stopped,
{
}

} // verus!
