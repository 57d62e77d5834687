use vstd::prelude::*;
use vstd::string::StringExecFns;

use crate::decimal::{decimal_digits, push_decimal};
use crate::error::DownloadError;
use crate::progress::Progress;
use crate::range::ByteRange;

verus! {

/// The text of the range header that asks for `range`: `bytes=`, the first
/// offset, `-`, the last offset, both in decimal and both included.
pub open spec fn range_header_text(range: ByteRange) -> Seq<char> {
    "bytes="@ + decimal_digits(range.start as nat) + "-"@ + decimal_digits(range.end as nat)
}

/// The value of the range header that asks for `range`.
pub fn range_header(range: &ByteRange) -> (text: String)
    ensures
        text@ == range_header_text(*range),
{
    let mut text = String::from_str("bytes=");
    push_decimal(&mut text, range.start);
    text.append("-");
    push_decimal(&mut text, range.end);
    text
}

/// The cursor of one fetcher: the span of the output it may write, and how
/// much of it is written.
///
/// A ranged fetcher asks for `range` and writes `[range.start, range.end]`;
/// the single-stream fetcher has no range and writes the whole resource from
/// offset 0.
#[derive(Clone, Copy, Debug, PartialEq, Eq)]
pub struct Fetch {
    /// The range asked for, or `None` for the single-stream transfer.
    pub range: Option<ByteRange>,
    /// First offset of the span.
    pub start: u64,
    /// Number of bytes in the span.
    pub len: u64,
    /// Number of bytes of the span written so far.
    pub written: u64,
}

impl Fetch {
    /// The span fits the range asked for, lies within `u64` offsets, and no
    /// more is written than it holds.
    pub open spec fn wf(&self) -> bool {
        &&& self.written <= self.len
        &&& self.start + self.len <= u64::MAX
        &&& match self.range {
            Some(range) => range.wf() && self.start == range.start && self.len == range.spec_len(),
            None => self.start == 0,
        }
    }

    /// Offset at which the next chunk is written.
    pub open spec fn spec_offset(&self) -> int {
        self.start + self.written
    }

    /// Whether the whole span is written.
    pub open spec fn spec_is_complete(&self) -> bool {
        self.written == self.len
    }

    /// Whether a chunk of `n` bytes still fits in the span.
    pub open spec fn fits(&self, n: usize) -> bool {
        self.written + n <= self.len
    }

    /// The error of this fetcher's request or stream.
    pub open spec fn transport_error(&self) -> DownloadError {
        DownloadError::Transport { range: self.range }
    }

    /// The error of a failed write of this fetcher to the output file.
    pub open spec fn write_error(&self) -> DownloadError {
        DownloadError::Write { range: self.range }
    }

    /// The error to report when this fetcher's request or its stream fails.
    pub fn transport_failure(&self) -> (e: DownloadError)
        ensures
            e == self.transport_error(),
    {
        DownloadError::Transport { range: self.range }
    }

    /// The error to report when this fetcher cannot open, seek in or write
    /// the output file.
    pub fn write_failure(&self) -> (e: DownloadError)
        ensures
            e == self.write_error(),
    {
        DownloadError::Write { range: self.range }
    }

    /// The cursor of the single-stream fetcher for a resource of `total_size` bytes.
    pub fn whole(total_size: u64) -> (f: Fetch)
        ensures
            f == (Fetch { range: None, start: 0, len: total_size, written: 0 }),
            f.wf(),
    {
        Fetch { range: None, start: 0, len: total_size, written: 0 }
    }

    /// The cursor of the fetcher of `range`.
    pub fn ranged(range: ByteRange) -> (f: Fetch)
        requires
            range.wf(),
        ensures
            f == (Fetch {
                range: Some(range),
                start: range.start,
                len: range.spec_len() as u64,
                written: 0,
            }),
            f.wf(),
    {
        Fetch { range: Some(range), start: range.start, len: range.len(), written: 0 }
    }

    /// Whether the cursor is well formed.
    pub fn is_valid(&self) -> (b: bool)
        ensures
            b == self.wf(),
    {
        let span_fits = self.written <= self.len && self.len <= u64::MAX - self.start;
        match self.range {
            Some(range) => span_fits && range.is_valid() && self.start == range.start && self.len
                == range.len(),
            None => span_fits && self.start == 0,
        }
    }

    /// The range header to send with the request: none for the single-stream
    /// fetcher, the header of its range for a ranged one.
    pub fn request_range(&self) -> (header: Option<String>)
        ensures
            header is Some <==> self.range is Some,
            header matches Some(text) ==> text@ == range_header_text(self.range.unwrap()),
    {
        match self.range {
            Some(range) => Some(range_header(&range)),
            None => None,
        }
    }

    /// Whether a response with `status` is the one this fetcher asked for:
    /// partial content, 206, for a range; any success, 200 to 299, for the
    /// whole resource.
    pub open spec fn accepts(&self, status: u16) -> bool {
        match self.range {
            Some(_) => status == 206,
            None => 200 <= status <= 299,
        }
    }

    /// Checks the status of the response before any of its body is written.
    pub fn check_status(&self, status: u16) -> (r: Result<(), DownloadError>)
        ensures
            r is Ok <==> self.accepts(status),
            r matches Err(e) ==> e == self.transport_error(),
    {
        let accepted = match self.range {
            Some(_) => status == 206,
            None => 200 <= status && status <= 299,
        };
        if accepted {
            Ok(())
        } else {
            Err(DownloadError::Transport { range: self.range })
        }
    }

    /// Where a received chunk of `n` bytes is written: at the running offset,
    /// as long as the chunk ends within the span. A chunk that would pass the
    /// end of the span is a transport failure, and nothing of it is written.
    pub fn write_offset(&self, n: usize) -> (r: Result<u64, DownloadError>)
        requires
            self.wf(),
        ensures
            r is Ok <==> self.fits(n),
            r matches Ok(at) ==> at == self.spec_offset() && self.start <= at && at + n
                <= self.start + self.len,
            r matches Err(e) ==> e == self.transport_error(),
    {
        if n as u64 <= self.len - self.written {
            Ok(self.start + self.written)
        } else {
            Err(DownloadError::Transport { range: self.range })
        }
    }

    /// Records that a chunk of `n` bytes was written at the running offset:
    /// the cursor moves on by `n`, and `n` is added to the shared progress. A
    /// chunk that does not fit changes nothing and is a transport failure.
    pub fn record(&mut self, n: usize, progress: &mut Progress) -> (r: Result<(), DownloadError>)
        requires
            old(self).wf(),
            old(progress).wf(),
        ensures
            r is Ok <==> old(self).fits(n),
            r is Ok ==> *final(self) == (Fetch {
                written: (old(self).written + n) as u64,
                ..*old(self)
            }) && *final(progress) == old(progress).advanced(n as u64),
            r matches Err(e) ==> e == old(self).transport_error() && *final(self) == *old(self)
                && *final(progress) == *old(progress),
            final(self).wf(),
            final(progress).wf(),
    {
        if n as u64 <= self.len - self.written {
            self.written = self.written + n as u64;
            progress.advance(n as u64);
            Ok(())
        } else {
            Err(DownloadError::Transport { range: self.range })
        }
    }

    /// Ends the transfer when the stream is exhausted: it succeeded if the
    /// whole span was written, and is a transport failure if the body fell short.
    pub fn finish(&self) -> (r: Result<(), DownloadError>)
        ensures
            r is Ok <==> self.spec_is_complete(),
            r matches Err(e) ==> e == self.transport_error(),
    {
        if self.written == self.len {
            Ok(())
        } else {
            Err(DownloadError::Transport { range: self.range })
        }
    }

    /// Offset at which the next chunk is written.
    pub fn offset(&self) -> (at: u64)
        requires
            self.wf(),
        ensures
            at == self.spec_offset(),
    {
        self.start + self.written
    }

    /// Whether the whole span is written.
    pub fn is_complete(&self) -> (b: bool)
        ensures
            b == self.spec_is_complete(),
    {
        self.written == self.len
    }
}

} // verus!
