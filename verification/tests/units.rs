use uring_throughput::deadline_after;
use uring_throughput::pool::{make_pattern_page, make_zero_page};
use uring_throughput::stats::Stats;
use uring_throughput::worker::{ClientPhase, ClientWorker, Completion, StopReason};
use uring_throughput::{DURATION_SECS, PAGE_SIZE, PARALLEL_STREAMS};

#[test]
fn stats_start_at_zero() {
    let s = Stats::new();
    assert_eq!(s.snapshot(), (0, 0));
}

#[test]
fn stats_accumulate_bytes_and_pages() {
    let mut s = Stats::new();
    s.add(10);
    s.add(20);
    assert_eq!(s.snapshot(), (30, 2));
}

#[test]
fn stats_counters_never_decrease() {
    let mut s = Stats::new();
    let mut last_bytes: usize = 0;
    let mut last_pages: usize = 0;
    for step in [4096usize, 0, 17, 4096] {
        s.add(step);
        let (bytes, pages) = s.snapshot();
        assert!(bytes >= last_bytes);
        assert!(pages >= last_pages);
        last_bytes = bytes;
        last_pages = pages;
    }
}

#[test]
fn pattern_page_repeats_every_256_bytes() {
    let page = make_pattern_page(PAGE_SIZE);
    assert_eq!(page.len(), PAGE_SIZE);
    for i in 0..PAGE_SIZE {
        assert_eq!(page[i], (i % 256) as u8);
    }
}

#[test]
fn pattern_page_of_odd_length() {
    let page = make_pattern_page(300);
    assert_eq!(page.len(), 300);
    assert_eq!(page[0], 0);
    assert_eq!(page[255], 255);
    assert_eq!(page[256], 0);
    assert_eq!(page[299], 43);
}

#[test]
fn zero_page_is_zeroed() {
    let page = make_zero_page(PAGE_SIZE);
    assert_eq!(page.len(), PAGE_SIZE);
    assert!(page.iter().all(|b| *b == 0));
}

#[test]
fn deadline_is_start_plus_duration() {
    assert_eq!(deadline_after(5, 1000), 1005);
    assert_eq!(deadline_after(0, DURATION_SECS * 1000), 10_000);
}

#[test]
fn configured_constants() {
    assert_eq!(PAGE_SIZE, 4096);
    assert_eq!(DURATION_SECS, 10);
    assert_eq!(PARALLEL_STREAMS, 16);
}

#[test]
fn failed_read_stops_worker_without_counting() {
    let mut s = Stats::new();
    let mut w = ClientWorker::new(make_zero_page(PAGE_SIZE), 1_000_000);
    let buf = w.begin_read(0).expect("deadline not reached");
    w.complete_read(buf, Completion::Failed, &mut s);
    assert_eq!(w.phase, ClientPhase::Stopped(StopReason::IoError));
    assert_eq!(s.snapshot(), (0, 0));
}

#[test]
fn partial_read_counts_as_one_page() {
    let mut s = Stats::new();
    let mut w = ClientWorker::new(make_zero_page(PAGE_SIZE), 1_000_000);
    let buf = w.begin_read(0).expect("deadline not reached");
    w.complete_read(buf, Completion::Done { bytes: 100 }, &mut s);
    assert_eq!(w.phase, ClientPhase::Idle);
    assert_eq!(s.snapshot(), (100, 1));
}
