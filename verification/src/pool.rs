//! The buffer pool: fixed-length transfer pages, allocated once at session
//! start and then recycled by the workers for every iteration of their
//! loops. The server's pages carry a fixed repeating pattern; the client's
//! start zeroed, since a reader never looks at what it receives.

use vstd::prelude::*;

verus! {

/// The server's page pattern: byte `i` of a page holds `i mod 256`.
pub open spec fn page_pattern(len: nat) -> Seq<u8> {
    Seq::new(len, |i: int| (i % 256) as u8)
}

/// A page of `page_size` bytes filled with the repeating pattern
/// byte `i` = `i mod 256` — what the server pushes to its peers.
pub fn make_pattern_page(page_size: usize) -> (r: Vec<u8>)
    ensures
        r@ == page_pattern(page_size as nat),
        r@.len() == page_size,
{
    let mut page: Vec<u8> = Vec::new();
    let mut i: usize = 0;
    while i < page_size
        invariant
            i <= page_size,
            page@.len() == i,
            forall|j: int| 0 <= j < i ==> page@[j] == (j % 256) as u8,
        decreases page_size - i,
    {
        page.push((i % 256) as u8);
        i = i + 1;
    }
    proof {
        assert(page@ =~= page_pattern(page_size as nat));
    }
    page
}

/// A page of `page_size` zero bytes — a client slot's receive buffer.
pub fn make_zero_page(page_size: usize) -> (r: Vec<u8>)
    ensures
        r@.len() == page_size,
        forall|j: int| 0 <= j < page_size ==> r@[j] == 0u8,
{
    let mut page: Vec<u8> = Vec::new();
    let mut i: usize = 0;
    while i < page_size
        invariant
            i <= page_size,
            page@.len() == i,
            forall|j: int| 0 <= j < i ==> page@[j] == 0u8,
        decreases page_size - i,
    {
        page.push(0u8);
        i = i + 1;
    }
    page
}

} // verus!
