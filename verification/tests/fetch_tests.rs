use parfetch::error::DownloadError;
use parfetch::fetch::{range_header, Fetch};
use parfetch::progress::Progress;
use parfetch::range::ByteRange;

fn range(start: u64, end: u64) -> ByteRange {
    ByteRange { start, end }
}

#[test]
fn range_header_is_inclusive_on_both_ends() {
    assert_eq!(range_header(&range(0, 249)), "bytes=0-249");
    assert_eq!(range_header(&range(750, 999)), "bytes=750-999");
    assert_eq!(range_header(&range(7, 7)), "bytes=7-7");
    assert_eq!(
        range_header(&range(0, u64::MAX - 1)),
        "bytes=0-18446744073709551614"
    );
}

#[test]
fn ranged_fetcher_asks_for_its_range() {
    let fetch = Fetch::ranged(range(250, 499));
    assert_eq!(fetch, Fetch { range: Some(range(250, 499)), start: 250, len: 250, written: 0 });
    assert_eq!(fetch.request_range(), Some(String::from("bytes=250-499")));
    assert_eq!(fetch.offset(), 250);
    assert!(!fetch.is_complete());
}

#[test]
fn single_stream_fetcher_sends_no_range() {
    let fetch = Fetch::whole(1000);
    assert_eq!(fetch, Fetch { range: None, start: 0, len: 1000, written: 0 });
    assert_eq!(fetch.request_range(), None);
    assert_eq!(fetch.offset(), 0);
}

#[test]
fn ranged_fetcher_wants_partial_content() {
    let fetch = Fetch::ranged(range(3, 5));
    let refused = Err(DownloadError::Transport { range: Some(range(3, 5)) });
    assert_eq!(fetch.check_status(206), Ok(()));
    assert_eq!(fetch.check_status(200), refused);
    assert_eq!(fetch.check_status(416), refused);
    assert_eq!(fetch.check_status(500), refused);
}

#[test]
fn single_stream_fetcher_wants_success() {
    let fetch = Fetch::whole(10);
    let refused = Err(DownloadError::Transport { range: None });
    assert_eq!(fetch.check_status(200), Ok(()));
    assert_eq!(fetch.check_status(206), Ok(()));
    assert_eq!(fetch.check_status(299), Ok(()));
    assert_eq!(fetch.check_status(199), refused);
    assert_eq!(fetch.check_status(300), refused);
    assert_eq!(fetch.check_status(404), refused);
}

#[test]
fn chunks_are_written_at_the_running_offset() {
    let mut progress = Progress::new(10);
    let mut fetch = Fetch::ranged(range(6, 9));
    assert_eq!(fetch.write_offset(1), Ok(6));
    assert_eq!(fetch.record(1, &mut progress), Ok(()));
    assert_eq!(fetch.write_offset(2), Ok(7));
    assert_eq!(fetch.record(2, &mut progress), Ok(()));
    assert_eq!(fetch.offset(), 9);
    assert_eq!(fetch.finish(), Err(DownloadError::Transport { range: Some(range(6, 9)) }));
    assert_eq!(fetch.write_offset(1), Ok(9));
    assert_eq!(fetch.record(1, &mut progress), Ok(()));
    assert_eq!(fetch.written, 4);
    assert!(fetch.is_complete());
    assert_eq!(fetch.finish(), Ok(()));
    assert_eq!(progress.completed(), 4);
}

#[test]
fn chunk_past_the_end_of_the_span_is_refused() {
    let mut progress = Progress::new(10);
    let mut fetch = Fetch::ranged(range(3, 5));
    let refused = DownloadError::Transport { range: Some(range(3, 5)) };
    assert_eq!(fetch.write_offset(4), Err(refused));
    assert_eq!(fetch.record(4, &mut progress), Err(refused));
    assert_eq!(fetch, Fetch::ranged(range(3, 5)));
    assert_eq!(progress, Progress::new(10));
    assert_eq!(fetch.record(3, &mut progress), Ok(()));
    assert_eq!(fetch.write_offset(1), Err(refused));
    assert_eq!(fetch.write_offset(0), Ok(6));
    assert_eq!(fetch.record(0, &mut progress), Ok(()));
    assert_eq!(progress.completed(), 3);
}

#[test]
fn short_body_is_a_transport_error() {
    let mut progress = Progress::new(1000);
    let mut fetch = Fetch::whole(1000);
    assert_eq!(fetch.record(999, &mut progress), Ok(()));
    assert_eq!(fetch.finish(), Err(DownloadError::Transport { range: None }));
    assert_eq!(fetch.record(1, &mut progress), Ok(()));
    assert_eq!(fetch.finish(), Ok(()));
    assert!(progress.is_complete());
}

#[test]
fn empty_resource_is_complete_at_once() {
    let mut progress = Progress::new(0);
    let mut fetch = Fetch::whole(0);
    assert!(fetch.is_complete());
    assert_eq!(fetch.finish(), Ok(()));
    assert_eq!(fetch.write_offset(1), Err(DownloadError::Transport { range: None }));
    assert_eq!(fetch.record(0, &mut progress), Ok(()));
    assert!(progress.is_complete());
}

#[test]
fn widest_span_keeps_its_offsets_in_bounds() {
    let mut progress = Progress::new(u64::MAX);
    let mut fetch = Fetch::whole(u64::MAX);
    assert_eq!(fetch.record(usize::MAX, &mut progress), Ok(()));
    assert_eq!(fetch.offset(), usize::MAX as u64);
    assert_eq!(fetch.write_offset(1), Err(DownloadError::Transport { range: None }));
    assert!(fetch.is_complete());
}

#[test]
fn progress_adds_up() {
    let mut progress = Progress::new(1000);
    assert_eq!(progress.total(), 1000);
    assert_eq!(progress.completed(), 0);
    progress.advance(250);
    progress.advance(0);
    progress.advance(100);
    assert_eq!(progress.completed(), 350);
    assert!(!progress.is_complete());
    progress.advance(650);
    assert_eq!(progress.completed(), 1000);
    assert!(progress.is_complete());
}

#[test]
fn progress_never_passes_the_total() {
    let mut progress = Progress::new(10);
    progress.advance(7);
    progress.advance(7);
    assert_eq!(progress, Progress { completed: 10, total: 10 });
    progress.advance(u64::MAX);
    assert_eq!(progress.completed(), 10);
}

#[test]
fn progress_never_goes_back() {
    let mut progress = Progress::new(100);
    let mut last = 0;
    for n in [0u64, 5, 0, 20, 80, 3] {
        progress.advance(n);
        assert!(progress.completed() >= last);
        last = progress.completed();
    }
    assert_eq!(last, 100);
}

#[test]
fn fetcher_failures_name_its_range() {
    let ranged = Fetch::ranged(range(250, 499));
    assert_eq!(ranged.transport_failure(), DownloadError::Transport { range: Some(range(250, 499)) });
    assert_eq!(ranged.write_failure(), DownloadError::Write { range: Some(range(250, 499)) });
    let whole = Fetch::whole(1000);
    assert_eq!(whole.transport_failure(), DownloadError::Transport { range: None });
    assert_eq!(whole.write_failure(), DownloadError::Write { range: None });
}
