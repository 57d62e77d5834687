use vstd::prelude::*;

use crate::range::ByteRange;

verus! {

/// What can end a download early.
///
/// `Transport` and `Write` name the range whose fetcher met the failure, or
/// `None` when it concerns the resource as a whole: the metadata request, the
/// single-stream transfer, or the creation and sizing of the output file.
#[derive(Clone, Copy, Debug, PartialEq, Eq)]
pub enum DownloadError {
    /// A request failed, was answered with an unusable status, or its body did
    /// not match the span that was asked for.
    Transport { range: Option<ByteRange> },
    /// The metadata response carried no usable total length.
    MissingLength,
    /// Creating, sizing, seeking in or writing the output file failed.
    Write { range: Option<ByteRange> },
    /// The request asks for something that cannot be carried out, such as zero jobs.
    Configuration,
}

impl DownloadError {
    /// The name of the kind of error, for messages.
    pub open spec fn spec_kind_name(&self) -> Seq<char> {
        match self {
            DownloadError::Transport { .. } => "transport error"@,
            DownloadError::MissingLength => "missing length"@,
            DownloadError::Write { .. } => "write error"@,
            DownloadError::Configuration => "configuration error"@,
        }
    }

    /// The name of the kind of error, for messages.
    pub fn kind_name(&self) -> (name: &'static str)
        ensures
            name@ == self.spec_kind_name(),
    {
        match self {
            DownloadError::Transport { .. } => "transport error",
            DownloadError::MissingLength => "missing length",
            DownloadError::Write { .. } => "write error",
            DownloadError::Configuration => "configuration error",
        }
    }

    /// The error of a request that failed and concerns no single range: the
    /// metadata request, or a fetcher that ended without a result.
    pub fn request_failure() -> (e: DownloadError)
        ensures
            e == (DownloadError::Transport { range: None }),
    {
        DownloadError::Transport { range: None }
    }

    /// The error of an output file that could not be created or sized.
    pub fn output_failure() -> (e: DownloadError)
        ensures
            e == (DownloadError::Write { range: None }),
    {
        DownloadError::Write { range: None }
    }

    /// The range whose fetcher failed, if the error names one.
    pub fn range(&self) -> (r: Option<ByteRange>)
        ensures
            r == match *self {
                DownloadError::Transport { range } => range,
                DownloadError::Write { range } => range,
                _ => None,
            },
    {
        match *self {
            DownloadError::Transport { range } => range,
            DownloadError::Write { range } => range,
            _ => None,
        }
    }
}

/// How a download ended.
#[derive(Clone, Copy, Debug, PartialEq, Eq)]
pub enum DownloadOutcome {
    /// Every task delivered its whole span.
    Completed,
    /// The first failure that was observed.
    Failed(DownloadError),
}

} // verus!
