//! Session setup and the coordinator's join condition.
//!
//! A session spawns a fixed number of stream workers per connection, each
//! with its own freshly allocated page, lets them run concurrently, and
//! waits for every one of them regardless of how it stopped. The spawning
//! and joining of tasks happens in the unverified runtime; this module
//! builds the workers with their pool and decides when the join is
//! complete.

use vstd::prelude::*;
use crate::pool::{make_pattern_page, make_zero_page, page_pattern};
use crate::worker::{ClientWorker, ServerWorker};

verus! {

/// The client side of a session: `parallel` reader workers, each at the
/// top of its loop with its own zeroed page of `page_size` bytes and the
/// session's shared deadline.
pub fn make_client_workers(parallel: usize, page_size: usize, deadline_ms: u64) -> (r: Vec<ClientWorker>)
    ensures
        r@.len() == parallel,
        forall|i: int| 0 <= i < parallel ==> {
            &&& (#[trigger] r@[i]).wf()
            &&& r@[i].phase is Idle
            &&& r@[i].page_size == page_size
            &&& r@[i].deadline_ms == deadline_ms
        },
{
    let mut workers: Vec<ClientWorker> = Vec::new();
    let mut k: usize = 0;
    while k < parallel
        invariant
            k <= parallel,
            workers@.len() == k,
            forall|i: int| 0 <= i < k ==> {
                &&& (#[trigger] workers@[i]).wf()
                &&& workers@[i].phase is Idle
                &&& workers@[i].page_size == page_size
                &&& workers@[i].deadline_ms == deadline_ms
            },
        decreases parallel - k,
    {
        let page = make_zero_page(page_size);
        workers.push(ClientWorker::new(page, deadline_ms));
        k = k + 1;
    }
    workers
}

/// The server side of a session: `parallel` writer workers, each at the
/// top of its loop with its own copy of the pattern page of `page_size`
/// bytes.
pub fn make_server_workers(parallel: usize, page_size: usize) -> (r: Vec<ServerWorker>)
    ensures
        r@.len() == parallel,
        forall|i: int| 0 <= i < parallel ==> {
            &&& (#[trigger] r@[i]).wf()
            &&& r@[i].phase is Idle
            &&& r@[i].page_size == page_size
            &&& r@[i].buffer matches Some(b) && b@ == page_pattern(page_size as nat)
        },
{
    let mut workers: Vec<ServerWorker> = Vec::new();
    let mut k: usize = 0;
    while k < parallel
        invariant
            k <= parallel,
            workers@.len() == k,
            forall|i: int| 0 <= i < k ==> {
                &&& (#[trigger] workers@[i]).wf()
                &&& workers@[i].phase is Idle
                &&& workers@[i].page_size == page_size
                &&& workers@[i].buffer matches Some(b) && b@ == page_pattern(page_size as nat)
            },
        decreases parallel - k,
    {
        let page = make_pattern_page(page_size);
        workers.push(ServerWorker::new(page));
        k = k + 1;
    }
    workers
}

/// The coordinator's join condition on the client side: true exactly when
/// every worker's loop has ended, whatever its stop reason was.
pub fn all_client_stopped(workers: &Vec<ClientWorker>) -> (r: bool)
    ensures
        r == (forall|i: int| 0 <= i < workers@.len() ==> (#[trigger] workers@[i]).phase is Stopped),
{
    let mut k: usize = 0;
    while k < workers.len()
        invariant
            k <= workers@.len(),
            forall|i: int| 0 <= i < k ==> (#[trigger] workers@[i]).phase is Stopped,
        decreases workers@.len() - k,
    {
        if !workers[k].is_stopped() {
            return false;
        }
        k = k + 1;
    }
    true
}

/// The coordinator's join condition on the server side: true exactly when
/// every worker's loop has ended, whatever its stop reason was.
pub fn all_server_stopped(workers: &Vec<ServerWorker>) -> (r: bool)
    ensures
        r == (forall|i: int| 0 <= i < workers@.len() ==> (#[trigger] workers@[i]).phase is Stopped),
{
    let mut k: usize = 0;
    while k < workers.len()
        invariant
            k <= workers@.len(),
            forall|i: int| 0 <= i < k ==> (#[trigger] workers@[i]).phase is Stopped,
        decreases workers@.len() - k,
    {
        if !workers[k].is_stopped() {
            return false;
        }
        k = k + 1;
    }
    true
}


} // verus!
