use vstd::prelude::*;

verus! {

/// An inclusive span `[start, end]` of byte offsets within a resource.
#[derive(Clone, Copy, Debug, PartialEq, Eq, Structural)]
pub struct ByteRange {
    pub start: u64,
    pub end: u64,
}

impl ByteRange {
    /// A range holds at least one byte, and its last offset lies inside a
    /// resource whose size is a `u64`.
    pub open spec fn wf(&self) -> bool {
        self.start <= self.end && self.end < u64::MAX
    }

    /// Number of bytes in `[start, end]`.
    pub open spec fn spec_len(&self) -> nat {
        (self.end - self.start + 1) as nat
    }

    /// Whether byte offset `b` lies in the range.
    pub open spec fn contains(&self, b: int) -> bool {
        self.start <= b <= self.end
    }

    /// The range from `start` to `end`, both included, or `None` where that is
    /// no well-formed range.
    pub fn new(start: u64, end: u64) -> (r: Option<ByteRange>)
        ensures
            r == if start <= end && end < u64::MAX {
                Some(ByteRange { start, end })
            } else {
                None::<ByteRange>
            },
    {
        if start <= end && end < u64::MAX {
            Some(ByteRange { start, end })
        } else {
            None
        }
    }

    /// Whether the range is well formed.
    pub fn is_valid(&self) -> (b: bool)
        ensures
            b == self.wf(),
    {
        self.start <= self.end && self.end < u64::MAX
    }

    /// Number of bytes in the range.
    pub fn len(&self) -> (n: u64)
        requires
            self.wf(),
        ensures
            n == self.spec_len(),
    {
        self.end - self.start + 1
    }
}

/// The ranges follow one another without gap or overlap, from offset 0 up to
/// `total`, and none is empty.
pub open spec fn tiles(ranges: Seq<ByteRange>, total: nat) -> bool {
    &&& forall|i: int| 0 <= i < ranges.len() ==> (#[trigger] ranges[i]).wf()
    &&& ranges.len() == 0 ==> total == 0
    &&& ranges.len() > 0 ==> ranges[0].start == 0 && ranges.last().end + 1 == total
    &&& forall|i: int|
        0 <= i < ranges.len() - 1 ==> (#[trigger] ranges[i]).end + 1 == ranges[i + 1].start
}

/// No byte offset lies in two of the ranges.
pub open spec fn pairwise_disjoint(ranges: Seq<ByteRange>) -> bool {
    forall|i: int, j: int, b: int|
        0 <= i < j < ranges.len() && #[trigger] ranges[i].contains(b) ==> !#[trigger] ranges[j].contains(
            b,
        )
}

/// Whether byte offset `b` lies in one of the ranges.
pub open spec fn in_union(ranges: Seq<ByteRange>, b: int) -> bool {
    exists|i: int| 0 <= i < ranges.len() && (#[trigger] ranges[i]).contains(b)
}

/// The union of the ranges is exactly `[0, total)`.
pub open spec fn covers(ranges: Seq<ByteRange>, total: nat) -> bool {
    forall|b: int| (0 <= b < total) <==> #[trigger] in_union(ranges, b)
}

/// Sum of the lengths of the ranges.
pub open spec fn total_len(ranges: Seq<ByteRange>) -> nat
    decreases ranges.len(),
{
    if ranges.len() == 0 {
        0
    } else {
        total_len(ranges.drop_last()) + ranges.last().spec_len()
    }
}

} // verus!
