use vstd::prelude::*;

use crate::error::{DownloadError, DownloadOutcome};
use crate::decimal::decimal_value;
use crate::metadata::{bytes_token, is_success, metadata_of, ResourceMetadata};
use crate::plan::{planned, planned_count, uses_fallback, whole_fetch};

verus! {

/// Where a download stands.
#[derive(Clone, Copy, Debug, PartialEq, Eq, Structural)]
pub enum Phase {
    /// Nothing has been asked of the server yet.
    Idle,
    /// The metadata request is under way.
    Probing,
    /// Single-stream mode was chosen; the output file is being made.
    Fallback,
    /// Range mode was chosen; the output file is being made and the ranges laid out.
    Partitioning,
    /// The ranges are laid out; one fetcher per range is being started.
    Dispatching,
    /// Every fetcher is started; their results are awaited.
    Awaiting,
    /// Every fetcher succeeded.
    Completed,
    /// The download failed.
    Failed,
}

/// What the caller reports to the coordinator.
#[derive(Clone, Copy, Debug, PartialEq, Eq)]
pub enum Event {
    /// The download is to begin.
    Start,
    /// The metadata request ended, with the metadata or the reason it has none.
    Probed(Result<ResourceMetadata, DownloadError>),
    /// The output file was created and sized, or could not be.
    Prepared(Result<(), DownloadError>),
    /// Every fetcher has been started.
    Dispatched,
    /// One fetcher ended, with success or its error.
    TaskFinished(Result<(), DownloadError>),
}

/// What the coordinator asks of the caller in answer to an event.
#[derive(Clone, Copy, Debug, PartialEq, Eq)]
pub enum Action {
    /// Send the metadata request and report `Probed`.
    Probe,
    /// Create the output file, or truncate it, to exactly `total_size` bytes,
    /// and report `Prepared`.
    Prepare { total_size: u64 },
    /// Run the single-stream fetcher, and report `TaskFinished` when it ends.
    Stream,
    /// Start the `tasks` planned ranged fetchers, and report `Dispatched` once
    /// all are started.
    Dispatch { tasks: usize },
    /// Wait for the next fetcher to end, and report `TaskFinished` with its result.
    Wait,
    /// The download is over.
    Finish(DownloadOutcome),
    /// The event has no meaning in the present phase; nothing changed.
    Ignored,
}

/// The decisions of one download.
#[derive(Clone, Copy, Debug, PartialEq, Eq)]
pub struct Coordinator {
    /// Parallel fetchers asked for, at least one.
    pub jobs: usize,
    pub phase: Phase,
    /// What the metadata request told, once it has succeeded.
    pub metadata: Option<ResourceMetadata>,
    /// Fetchers that have not reported yet.
    pub pending: usize,
    /// The first failure that was reported.
    pub first_failure: Option<DownloadError>,
}

impl Coordinator {
    /// What is on record fits the phase: no metadata before the probe has
    /// succeeded, the mode that the metadata calls for, as many fetchers
    /// pending as are still to report, and a failure exactly where one is due.
    pub open spec fn wf(&self) -> bool {
        &&& self.jobs >= 1
        &&& match self.phase {
            Phase::Idle | Phase::Probing => self.metadata is None && self.first_failure is None,
            Phase::Fallback => self.metadata is Some && self.first_failure is None
                && uses_fallback(self.metadata.unwrap(), self.jobs),
            Phase::Partitioning => self.metadata is Some && self.first_failure is None
                && !uses_fallback(self.metadata.unwrap(), self.jobs),
            Phase::Dispatching => self.metadata is Some && self.first_failure is None
                && !uses_fallback(self.metadata.unwrap(), self.jobs) && self.pending
                == planned_count(self.metadata.unwrap(), self.jobs),
            Phase::Awaiting => self.metadata is Some && 1 <= self.pending <= planned_count(
                self.metadata.unwrap(),
                self.jobs,
            ),
            Phase::Completed => self.metadata is Some && self.first_failure is None
                && self.pending == 0,
            Phase::Failed => self.first_failure is Some,
        }
    }

    /// The outcome, once the download is over.
    pub open spec fn spec_outcome(&self) -> Option<DownloadOutcome> {
        match self.phase {
            Phase::Completed => Some(DownloadOutcome::Completed),
            Phase::Failed if self.first_failure is Some => Some(
                DownloadOutcome::Failed(self.first_failure.unwrap()),
            ),
            _ => None,
        }
    }

    /// The failure on record after one more fetcher has reported `result`:
    /// the one already on record if there is one, else the error of `result`.
    pub open spec fn failure_after(&self, result: Result<(), DownloadError>) -> Option<
        DownloadError,
    > {
        if self.first_failure is Some {
            self.first_failure
        } else {
            match result {
                Ok(_) => None,
                Err(e) => Some(e),
            }
        }
    }

    /// The coordinator after `event`.
    pub open spec fn next(&self, event: Event) -> Coordinator {
        match (self.phase, event) {
            (Phase::Idle, Event::Start) => Coordinator { phase: Phase::Probing, ..*self },
            (Phase::Probing, Event::Probed(Err(e))) => Coordinator {
                phase: Phase::Failed,
                first_failure: Some(e),
                ..*self
            },
            (Phase::Probing, Event::Probed(Ok(meta))) => Coordinator {
                phase: if uses_fallback(meta, self.jobs) {
                    Phase::Fallback
                } else {
                    Phase::Partitioning
                },
                metadata: Some(meta),
                ..*self
            },
            (Phase::Fallback, Event::Prepared(Ok(_))) => Coordinator {
                phase: Phase::Awaiting,
                pending: 1,
                ..*self
            },
            (Phase::Partitioning, Event::Prepared(Ok(_))) => Coordinator {
                phase: Phase::Dispatching,
                pending: planned_count(self.metadata.unwrap(), self.jobs) as usize,
                ..*self
            },
            (Phase::Fallback, Event::Prepared(Err(e))) | (
                Phase::Partitioning,
                Event::Prepared(Err(e)),
            ) => Coordinator { phase: Phase::Failed, first_failure: Some(e), ..*self },
            (Phase::Dispatching, Event::Dispatched) => Coordinator {
                phase: Phase::Awaiting,
                ..*self
            },
            (Phase::Awaiting, Event::TaskFinished(result)) => Coordinator {
                phase: if self.pending > 1 {
                    Phase::Awaiting
                } else if self.failure_after(result) is None {
                    Phase::Completed
                } else {
                    Phase::Failed
                },
                pending: (self.pending - 1) as usize,
                first_failure: self.failure_after(result),
                ..*self
            },
            _ => *self,
        }
    }

    /// What the coordinator asks for in answer to `event`.
    pub open spec fn response(&self, event: Event) -> Action {
        match (self.phase, event) {
            (Phase::Idle, Event::Start) => Action::Probe,
            (Phase::Probing, Event::Probed(Err(e))) => Action::Finish(DownloadOutcome::Failed(e)),
            (Phase::Probing, Event::Probed(Ok(meta))) => Action::Prepare {
                total_size: meta.total_size,
            },
            (Phase::Fallback, Event::Prepared(Ok(_))) => Action::Stream,
            (Phase::Partitioning, Event::Prepared(Ok(_))) => Action::Dispatch {
                tasks: planned_count(self.metadata.unwrap(), self.jobs) as usize,
            },
            (Phase::Fallback, Event::Prepared(Err(e))) | (
                Phase::Partitioning,
                Event::Prepared(Err(e)),
            ) => Action::Finish(DownloadOutcome::Failed(e)),
            (Phase::Dispatching, Event::Dispatched) => Action::Wait,
            (Phase::Awaiting, Event::TaskFinished(result)) => if self.pending > 1 {
                Action::Wait
            } else {
                match self.failure_after(result) {
                    None => Action::Finish(DownloadOutcome::Completed),
                    Some(e) => Action::Finish(DownloadOutcome::Failed(e)),
                }
            },
            _ => Action::Ignored,
        }
    }

    /// A coordinator for a download with `jobs` parallel fetchers. Zero jobs
    /// is a configuration error.
    pub fn new(jobs: usize) -> (r: Result<Coordinator, DownloadError>)
        ensures
            r is Err <==> jobs == 0,
            r matches Err(e) ==> e == DownloadError::Configuration,
            r matches Ok(c) ==> c.wf() && c == (Coordinator {
                jobs,
                phase: Phase::Idle,
                metadata: None,
                pending: 0,
                first_failure: None,
            }),
    {
        if jobs == 0 {
            Err(DownloadError::Configuration)
        } else {
            Ok(Coordinator { jobs, phase: Phase::Idle, metadata: None, pending: 0, first_failure: None })
        }
    }

    /// Number of fetchers that a download of this resource uses.
    fn task_count(&self, meta: ResourceMetadata) -> (n: usize)
        requires
            self.jobs >= 1,
        ensures
            n == planned_count(meta, self.jobs),
            uses_fallback(meta, self.jobs) ==> n == 1,
            !uses_fallback(meta, self.jobs) ==> n >= 2,
    {
        if !meta.supports_ranges || self.jobs <= 1 || meta.total_size <= 1 {
            1
        } else if self.jobs as u64 <= meta.total_size {
            self.jobs
        } else {
            meta.total_size as usize
        }
    }

    /// Whether the coordinator is well formed.
    pub fn is_valid(&self) -> (b: bool)
        ensures
            b == self.wf(),
    {
        if self.jobs == 0 {
            return false;
        }
        let unfailed = self.first_failure.is_none();
        match self.phase {
            Phase::Idle => self.metadata.is_none() && unfailed,
            Phase::Probing => self.metadata.is_none() && unfailed,
            Phase::Failed => !unfailed,
            _ => match self.metadata {
                None => false,
                Some(meta) => {
                    let tasks = self.task_count(meta);
                    match self.phase {
                        Phase::Fallback => unfailed && tasks == 1,
                        Phase::Partitioning => unfailed && tasks >= 2,
                        Phase::Dispatching => unfailed && tasks >= 2 && self.pending == tasks,
                        Phase::Awaiting => 1 <= self.pending && self.pending <= tasks,
                        _ => unfailed && self.pending == 0,
                    }
                },
            },
        }
    }

    /// Takes one event: moves to the next phase and says what to do next.
    pub fn step(&mut self, event: Event) -> (action: Action)
        requires
            old(self).wf(),
        ensures
            *final(self) == old(self).next(event),
            action == old(self).response(event),
            final(self).wf(),
    {
        match self.phase {
            Phase::Idle => match event {
                Event::Start => {
                    self.phase = Phase::Probing;
                    Action::Probe
                },
                _ => Action::Ignored,
            },
            Phase::Probing => match event {
                Event::Probed(Err(e)) => {
                    self.phase = Phase::Failed;
                    self.first_failure = Some(e);
                    Action::Finish(DownloadOutcome::Failed(e))
                },
                Event::Probed(Ok(meta)) => {
                    let tasks = self.task_count(meta);
                    self.phase = if tasks == 1 {
                        Phase::Fallback
                    } else {
                        Phase::Partitioning
                    };
                    self.metadata = Some(meta);
                    Action::Prepare { total_size: meta.total_size }
                },
                _ => Action::Ignored,
            },
            Phase::Fallback => match event {
                Event::Prepared(Ok(_)) => {
                    self.phase = Phase::Awaiting;
                    self.pending = 1;
                    Action::Stream
                },
                Event::Prepared(Err(e)) => {
                    self.phase = Phase::Failed;
                    self.first_failure = Some(e);
                    Action::Finish(DownloadOutcome::Failed(e))
                },
                _ => Action::Ignored,
            },
            Phase::Partitioning => match event {
                Event::Prepared(Ok(_)) => {
                    let meta = match self.metadata {
                        Some(meta) => meta,
                        None => {
                            return Action::Ignored;
                        },
                    };
                    let tasks = self.task_count(meta);
                    self.phase = Phase::Dispatching;
                    self.pending = tasks;
                    Action::Dispatch { tasks }
                },
                Event::Prepared(Err(e)) => {
                    self.phase = Phase::Failed;
                    self.first_failure = Some(e);
                    Action::Finish(DownloadOutcome::Failed(e))
                },
                _ => Action::Ignored,
            },
            Phase::Dispatching => match event {
                Event::Dispatched => {
                    self.phase = Phase::Awaiting;
                    Action::Wait
                },
                _ => Action::Ignored,
            },
            Phase::Awaiting => match event {
                Event::TaskFinished(result) => {
                    if self.first_failure.is_none() {
                        match result {
                            Ok(_) => {},
                            Err(e) => {
                                self.first_failure = Some(e);
                            },
                        }
                    }
                    self.pending = self.pending - 1;
                    if self.pending > 0 {
                        Action::Wait
                    } else {
                        match self.first_failure {
                            None => {
                                self.phase = Phase::Completed;
                                Action::Finish(DownloadOutcome::Completed)
                            },
                            Some(e) => {
                                self.phase = Phase::Failed;
                                Action::Finish(DownloadOutcome::Failed(e))
                            },
                        }
                    }
                },
                _ => Action::Ignored,
            },
            Phase::Completed => Action::Ignored,
            Phase::Failed => Action::Ignored,
        }
    }

    /// The coordinator after the fetchers have reported `results`, in the
    /// order in which they ended.
    pub open spec fn after_results(&self, results: Seq<Result<(), DownloadError>>) -> Coordinator
        decreases results.len(),
    {
        if results.len() == 0 {
            *self
        } else {
            self.after_results(results.drop_last()).next(Event::TaskFinished(results.last()))
        }
    }

    /// The outcome, once the download is over.
    pub fn outcome(&self) -> (r: Option<DownloadOutcome>)
        ensures
            r == self.spec_outcome(),
    {
        match self.phase {
            Phase::Completed => Some(DownloadOutcome::Completed),
            Phase::Failed => match self.first_failure {
                Some(e) => Some(DownloadOutcome::Failed(e)),
                None => None,
            },
            _ => None,
        }
    }
}

/// The error of the first result that is a failure, if any is.
pub open spec fn first_error(results: Seq<Result<(), DownloadError>>) -> Option<DownloadError>
    decreases results.len(),
{
    if results.len() == 0 {
        None
    } else if first_error(results.drop_last()) is Some {
        first_error(results.drop_last())
    } else {
        match results.last() {
            Ok(_) => None,
            Err(e) => Some(e),
        }
    }
}

/// The outcome that a complete set of results amounts to.
pub open spec fn outcome_of(results: Seq<Result<(), DownloadError>>) -> DownloadOutcome {
    match first_error(results) {
        None => DownloadOutcome::Completed,
        Some(e) => DownloadOutcome::Failed(e),
    }
}

/// A metadata response with a success status but without a usable length
/// ends the download at once with `MissingLength`: the coordinator has asked
/// for nothing but the probe, and answers no later event, so no output file
/// is ever made.
pub proof fn missing_length_fails_fast(
    c: Coordinator,
    status: u16,
    content_length: Option<Seq<u8>>,
    accept_ranges: Option<Seq<u8>>,
    later: Event,
)
    requires
        c.wf(),
        c.phase == Phase::Probing,
        is_success(status),
        content_length is None || decimal_value(content_length.unwrap()) is None,
    ensures
        ({
            let probed = metadata_of(status, content_length, accept_ranges);
            let failed = DownloadOutcome::Failed(DownloadError::MissingLength);
            &&& probed == Err::<ResourceMetadata, DownloadError>(DownloadError::MissingLength)
            &&& c.response(Event::Probed(probed)) == Action::Finish(failed)
            &&& c.next(Event::Probed(probed)).spec_outcome() == Some(failed)
            &&& c.next(Event::Probed(probed)).response(later) == Action::Ignored
        }),
{
}

/// The output file is asked for only in answer to a successful probe, and
/// with exactly the size that the probe found.
pub proof fn output_follows_metadata(c: Coordinator, event: Event)
    requires
        c.wf(),
        c.response(event) is Prepare,
    ensures
        c.phase == Phase::Probing,
        event matches Event::Probed(Ok(meta)) && c.response(event) == (Action::Prepare {
            total_size: meta.total_size,
        }),
{
}

/// The metadata request is asked for once: in answer to `Start` on an idle
/// coordinator, which no event brings back.
pub proof fn probes_once(c: Coordinator, event: Event)
    requires
        c.wf(),
    ensures
        c.response(event) is Probe <==> c.phase == Phase::Idle && event is Start,
        c.next(event).phase == Phase::Idle ==> c.phase == Phase::Idle && !(event is Start),
{
}

/// The single-stream fetcher runs only in fallback mode, and ranged fetchers
/// are started only in range mode, as many as the plan holds.
pub proof fn mode_decides_fetchers(c: Coordinator, event: Event)
    requires
        c.wf(),
    ensures
        c.response(event) is Stream ==> c.metadata is Some && uses_fallback(
            c.metadata.unwrap(),
            c.jobs,
        ),
        c.response(event) matches Action::Dispatch { tasks } ==> c.metadata is Some
            && !uses_fallback(c.metadata.unwrap(), c.jobs) && tasks == planned_count(
            c.metadata.unwrap(),
            c.jobs,
        ),
{
}

/// The number of jobs never changes, and the metadata, once the probe has
/// produced it, stays as it is.
pub proof fn request_and_metadata_are_fixed(c: Coordinator, event: Event)
    requires
        c.wf(),
    ensures
        c.next(event).jobs == c.jobs,
        c.metadata is Some ==> c.next(event).metadata == c.metadata,
{
}

/// Where the metadata response does not carry the token `bytes`, or one job
/// is asked for, the download takes the single-stream path: its one fetcher
/// has no range, so no range header is sent.
pub proof fn without_ranges_streams(
    c: Coordinator,
    status: u16,
    content_length: Option<Seq<u8>>,
    accept_ranges: Option<Seq<u8>>,
)
    requires
        c.wf(),
        c.phase == Phase::Probing,
        accept_ranges != Some(bytes_token()) || c.jobs == 1,
        metadata_of(status, content_length, accept_ranges) is Ok,
    ensures
        ({
            let meta = metadata_of(status, content_length, accept_ranges)->Ok_0;
            let chosen = c.next(Event::Probed(Ok(meta)));
            &&& chosen.phase == Phase::Fallback
            &&& chosen.response(Event::Prepared(Ok(()))) == Action::Stream
            &&& planned(meta, c.jobs) == seq![whole_fetch(meta.total_size)]
            &&& whole_fetch(meta.total_size).range is None
        }),
{
}

/// A download that is over stays as it ended, whatever is reported later.
pub proof fn ended_is_final(c: Coordinator, event: Event)
    requires
        c.wf(),
        c.phase == Phase::Completed || c.phase == Phase::Failed,
    ensures
        c.next(event) == c,
        c.response(event) == Action::Ignored,
{
}

/// From the moment all fetchers are started, the coordinator waits for every
/// one of them, whatever the earlier ones report; the download then completes
/// if all succeeded, and else fails with the error that was reported first.
pub proof fn awaits_all_and_reports_first_failure(
    c: Coordinator,
    results: Seq<Result<(), DownloadError>>,
)
    requires
        c.wf(),
        c.phase == Phase::Awaiting,
        c.first_failure is None,
        results.len() <= c.pending,
    ensures
        c.after_results(results).wf(),
        c.after_results(results).pending == c.pending - results.len(),
        c.after_results(results).first_failure == first_error(results),
        results.len() < c.pending ==> c.after_results(results).phase == Phase::Awaiting
            && c.after_results(results).spec_outcome() is None,
        results.len() == c.pending ==> c.after_results(results).spec_outcome() == Some(
            outcome_of(results),
        ),
        results.len() > 0 ==> c.after_results(results.drop_last()).response(
            Event::TaskFinished(results.last()),
        ) == if results.len() < c.pending {
            Action::Wait
        } else {
            Action::Finish(outcome_of(results))
        },
    decreases results.len(),
{
    if results.len() > 0 {
        awaits_all_and_reports_first_failure(c, results.drop_last());
    }
}

} // verus!
