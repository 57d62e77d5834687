use parfetch::coordinator::{Action, Coordinator, Event, Phase};
use parfetch::error::{DownloadError, DownloadOutcome};
use parfetch::fetch::Fetch;
use parfetch::metadata::{metadata_from_head, ResourceMetadata};
use parfetch::plan::plan;
use parfetch::progress::Progress;
use parfetch::range::ByteRange;

fn meta(total_size: u64, supports_ranges: bool) -> ResourceMetadata {
    ResourceMetadata { total_size, supports_ranges }
}

fn range(start: u64, end: u64) -> ByteRange {
    ByteRange { start, end }
}

fn source(total_size: usize) -> Vec<u8> {
    (0..total_size).map(|i| (i * 7 + 3) as u8).collect()
}

/// Delivers the fetcher's span from `body` in chunks of at most `chunk` bytes,
/// writing each where the fetcher says, and stops with a transport error once
/// `fail_after` bytes are delivered.
fn run_fetcher(
    fetch: &mut Fetch,
    body: &[u8],
    chunk: usize,
    fail_after: Option<u64>,
    file: &mut [u8],
    progress: &mut Progress,
) -> Result<(), DownloadError> {
    fetch.check_status(if fetch.range.is_some() { 206 } else { 200 })?;
    let first = fetch.start as usize;
    let mut sent = 0usize;
    while sent < fetch.len as usize {
        if fail_after == Some(sent as u64) {
            return Err(DownloadError::Transport { range: fetch.range });
        }
        let n = chunk.min(fetch.len as usize - sent);
        let at = fetch.write_offset(n)? as usize;
        file[at..at + n].copy_from_slice(&body[first + sent..first + sent + n]);
        fetch.record(n, progress)?;
        sent += n;
    }
    fetch.finish()
}

#[test]
fn ranged_download_runs_to_completion() {
    let body = source(1000);
    let mut file = Vec::new();
    let mut c = Coordinator::new(4).unwrap();
    assert_eq!(c.phase, Phase::Idle);
    assert_eq!(c.step(Event::Start), Action::Probe);
    assert_eq!(c.phase, Phase::Probing);
    let probed = metadata_from_head(200, Some(b"1000"), Some(b"bytes"));
    assert_eq!(c.step(Event::Probed(probed)), Action::Prepare { total_size: 1000 });
    assert_eq!(c.phase, Phase::Partitioning);
    file.resize(1000, 0);
    assert_eq!(c.step(Event::Prepared(Ok(()))), Action::Dispatch { tasks: 4 });
    assert_eq!(c.phase, Phase::Dispatching);
    let mut tasks = plan(c.metadata.unwrap(), c.jobs).unwrap();
    assert_eq!(tasks.len(), 4);
    assert_eq!(c.step(Event::Dispatched), Action::Wait);
    assert_eq!(c.phase, Phase::Awaiting);
    let mut progress = Progress::new(1000);
    let mut last = Action::Wait;
    for i in [2usize, 0, 3, 1] {
        assert_eq!(last, Action::Wait);
        assert_eq!(c.outcome(), None);
        let result = run_fetcher(&mut tasks[i], &body, 64, None, &mut file, &mut progress);
        last = c.step(Event::TaskFinished(result));
    }
    assert_eq!(last, Action::Finish(DownloadOutcome::Completed));
    assert_eq!(c.phase, Phase::Completed);
    assert_eq!(c.outcome(), Some(DownloadOutcome::Completed));
    assert_eq!(file.len(), 1000);
    assert_eq!(file, body);
    assert_eq!(progress.completed(), 1000);
    assert!(progress.is_complete());
}

#[test]
fn fallback_download_runs_to_completion() {
    let body = source(10);
    let mut file = vec![0u8; 10];
    let mut c = Coordinator::new(4).unwrap();
    c.step(Event::Start);
    let probed = metadata_from_head(200, Some(b"10"), None);
    assert_eq!(c.step(Event::Probed(probed)), Action::Prepare { total_size: 10 });
    assert_eq!(c.phase, Phase::Fallback);
    assert_eq!(c.step(Event::Prepared(Ok(()))), Action::Stream);
    assert_eq!(c.phase, Phase::Awaiting);
    let mut tasks = plan(c.metadata.unwrap(), c.jobs).unwrap();
    assert_eq!(tasks, vec![Fetch::whole(10)]);
    assert_eq!(tasks[0].request_range(), None);
    let mut progress = Progress::new(10);
    let result = run_fetcher(&mut tasks[0], &body, 3, None, &mut file, &mut progress);
    assert_eq!(
        c.step(Event::TaskFinished(result)),
        Action::Finish(DownloadOutcome::Completed)
    );
    assert_eq!(file, body);
    assert_eq!(progress.completed(), 10);
}

#[test]
fn one_failing_range_fails_the_download_but_not_its_siblings() {
    let body = source(1000);
    let mut file = vec![0u8; 1000];
    let mut c = Coordinator::new(4).unwrap();
    c.step(Event::Start);
    c.step(Event::Probed(Ok(meta(1000, true))));
    c.step(Event::Prepared(Ok(())));
    let mut tasks = plan(meta(1000, true), 4).unwrap();
    c.step(Event::Dispatched);
    let mut progress = Progress::new(1000);
    let failing = 1usize;
    let mut actions = Vec::new();
    for i in [0usize, 1, 2, 3] {
        let fail_after = if i == failing { Some(100) } else { None };
        let result = run_fetcher(&mut tasks[i], &body, 50, fail_after, &mut file, &mut progress);
        assert_eq!(result.is_err(), i == failing);
        actions.push(c.step(Event::TaskFinished(result)));
    }
    let cause = DownloadError::Transport { range: Some(range(250, 499)) };
    assert_eq!(
        actions,
        vec![
            Action::Wait,
            Action::Wait,
            Action::Wait,
            Action::Finish(DownloadOutcome::Failed(cause))
        ]
    );
    assert_eq!(c.phase, Phase::Failed);
    assert_eq!(c.outcome(), Some(DownloadOutcome::Failed(cause)));
    assert_eq!(file[..250], body[..250]);
    assert_eq!(file[250..350], body[250..350]);
    assert_eq!(file[500..], body[500..]);
    assert!(file[350..500].iter().all(|b| *b == 0));
    assert_eq!(progress.completed(), 850);
    assert!(tasks[0].is_complete() && tasks[2].is_complete() && tasks[3].is_complete());
    assert_eq!(tasks[1].written, 100);
}

#[test]
fn first_failure_by_completion_order_is_reported() {
    let mut c = Coordinator::new(3).unwrap();
    c.step(Event::Start);
    c.step(Event::Probed(Ok(meta(30, true))));
    assert_eq!(c.step(Event::Prepared(Ok(()))), Action::Dispatch { tasks: 3 });
    c.step(Event::Dispatched);
    let late = DownloadError::Write { range: Some(range(20, 29)) };
    let early = DownloadError::Transport { range: Some(range(0, 9)) };
    assert_eq!(c.step(Event::TaskFinished(Err(late))), Action::Wait);
    assert_eq!(c.phase, Phase::Awaiting);
    assert_eq!(c.step(Event::TaskFinished(Err(early))), Action::Wait);
    assert_eq!(
        c.step(Event::TaskFinished(Ok(()))),
        Action::Finish(DownloadOutcome::Failed(late))
    );
    assert_eq!(c.first_failure, Some(late));
}

#[test]
fn missing_length_fails_before_any_file_is_made() {
    let mut c = Coordinator::new(4).unwrap();
    assert_eq!(c.step(Event::Start), Action::Probe);
    let probed = metadata_from_head(200, None, Some(b"bytes"));
    assert_eq!(probed, Err(DownloadError::MissingLength));
    assert_eq!(
        c.step(Event::Probed(probed)),
        Action::Finish(DownloadOutcome::Failed(DownloadError::MissingLength))
    );
    assert_eq!(c.phase, Phase::Failed);
    assert_eq!(c.metadata, None);
    assert_eq!(c.step(Event::Prepared(Ok(()))), Action::Ignored);
    assert_eq!(c.step(Event::Dispatched), Action::Ignored);
    assert_eq!(c.step(Event::Start), Action::Ignored);
    assert_eq!(c.outcome(), Some(DownloadOutcome::Failed(DownloadError::MissingLength)));
}

#[test]
fn failed_probe_fails_the_download() {
    let mut c = Coordinator::new(2).unwrap();
    c.step(Event::Start);
    let transport = DownloadError::Transport { range: None };
    assert_eq!(
        c.step(Event::Probed(metadata_from_head(404, Some(b"10"), Some(b"bytes")))),
        Action::Finish(DownloadOutcome::Failed(transport))
    );
    assert_eq!(c.phase, Phase::Failed);
}

#[test]
fn one_job_takes_the_single_stream_path() {
    let mut c = Coordinator::new(1).unwrap();
    c.step(Event::Start);
    c.step(Event::Probed(Ok(meta(1000, true))));
    assert_eq!(c.phase, Phase::Fallback);
    assert_eq!(c.step(Event::Prepared(Ok(()))), Action::Stream);
    let tasks = plan(meta(1000, true), 1).unwrap();
    assert_eq!(tasks.len(), 1);
    assert_eq!(tasks[0].request_range(), None);
}

#[test]
fn no_range_support_takes_the_single_stream_path() {
    for accept_ranges in [None, Some(&b"none"[..]), Some(&b"Bytes"[..])] {
        let mut c = Coordinator::new(8).unwrap();
        c.step(Event::Start);
        c.step(Event::Probed(metadata_from_head(200, Some(b"1000"), accept_ranges)));
        assert_eq!(c.phase, Phase::Fallback);
        assert_eq!(c.step(Event::Prepared(Ok(()))), Action::Stream);
        let tasks = plan(c.metadata.unwrap(), c.jobs).unwrap();
        assert!(tasks.iter().all(|t| t.request_range().is_none()));
        assert_eq!(tasks.len(), 1);
    }
}

#[test]
fn tiny_resources_take_the_single_stream_path() {
    for total_size in [0u64, 1] {
        let mut c = Coordinator::new(4).unwrap();
        c.step(Event::Start);
        c.step(Event::Probed(Ok(meta(total_size, true))));
        assert_eq!(c.phase, Phase::Fallback);
        assert_eq!(plan(meta(total_size, true), 4), Ok(vec![Fetch::whole(total_size)]));
    }
}

#[test]
fn more_jobs_than_bytes_starts_one_fetcher_per_byte() {
    let mut c = Coordinator::new(8).unwrap();
    c.step(Event::Start);
    c.step(Event::Probed(Ok(meta(3, true))));
    assert_eq!(c.step(Event::Prepared(Ok(()))), Action::Dispatch { tasks: 3 });
    assert_eq!(
        plan(meta(3, true), 8),
        Ok(vec![
            Fetch::ranged(range(0, 0)),
            Fetch::ranged(range(1, 1)),
            Fetch::ranged(range(2, 2))
        ])
    );
}

#[test]
fn plan_in_range_mode_follows_the_partition() {
    let tasks = plan(meta(10, true), 3).unwrap();
    assert_eq!(
        tasks,
        vec![
            Fetch { range: Some(range(0, 2)), start: 0, len: 3, written: 0 },
            Fetch { range: Some(range(3, 5)), start: 3, len: 3, written: 0 },
            Fetch { range: Some(range(6, 9)), start: 6, len: 4, written: 0 },
        ]
    );
    let headers: Vec<Option<String>> = tasks.iter().map(|t| t.request_range()).collect();
    assert_eq!(
        headers,
        vec![
            Some(String::from("bytes=0-2")),
            Some(String::from("bytes=3-5")),
            Some(String::from("bytes=6-9"))
        ]
    );
}

#[test]
fn zero_jobs_is_refused() {
    assert_eq!(Coordinator::new(0), Err(DownloadError::Configuration));
    assert_eq!(plan(meta(1000, true), 0), Err(DownloadError::Configuration));
    assert_eq!(plan(meta(1000, false), 0), Err(DownloadError::Configuration));
}

#[test]
fn output_that_cannot_be_made_fails_the_download() {
    for supports_ranges in [false, true] {
        let mut c = Coordinator::new(4).unwrap();
        c.step(Event::Start);
        c.step(Event::Probed(Ok(meta(1000, supports_ranges))));
        let cause = DownloadError::Write { range: None };
        assert_eq!(
            c.step(Event::Prepared(Err(cause))),
            Action::Finish(DownloadOutcome::Failed(cause))
        );
        assert_eq!(c.phase, Phase::Failed);
        assert_eq!(c.step(Event::Dispatched), Action::Ignored);
    }
}

#[test]
fn events_out_of_turn_change_nothing() {
    let mut c = Coordinator::new(4).unwrap();
    let idle = c;
    assert_eq!(c.step(Event::Dispatched), Action::Ignored);
    assert_eq!(c.step(Event::TaskFinished(Ok(()))), Action::Ignored);
    assert_eq!(c.step(Event::Probed(Ok(meta(10, true)))), Action::Ignored);
    assert_eq!(c, idle);
    c.step(Event::Start);
    let probing = c;
    assert_eq!(c.step(Event::Start), Action::Ignored);
    assert_eq!(c.step(Event::Prepared(Ok(()))), Action::Ignored);
    assert_eq!(c, probing);
    c.step(Event::Probed(Ok(meta(10, true))));
    c.step(Event::Prepared(Ok(())));
    let dispatching = c;
    assert_eq!(c.step(Event::TaskFinished(Ok(()))), Action::Ignored);
    assert_eq!(c.step(Event::Prepared(Ok(()))), Action::Ignored);
    assert_eq!(c, dispatching);
}

#[test]
fn finished_download_ignores_later_events() {
    let mut c = Coordinator::new(1).unwrap();
    c.step(Event::Start);
    c.step(Event::Probed(Ok(meta(5, false))));
    c.step(Event::Prepared(Ok(())));
    assert_eq!(
        c.step(Event::TaskFinished(Ok(()))),
        Action::Finish(DownloadOutcome::Completed)
    );
    let done = c;
    assert_eq!(c.step(Event::TaskFinished(Err(DownloadError::MissingLength))), Action::Ignored);
    assert_eq!(c.step(Event::Start), Action::Ignored);
    assert_eq!(c, done);
    assert_eq!(c.outcome(), Some(DownloadOutcome::Completed));
}
