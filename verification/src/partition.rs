use vstd::prelude::*;

use crate::error::DownloadError;
use crate::range::{covers, in_union, pairwise_disjoint, tiles, total_len, ByteRange};

verus! {

/// How many ranges a resource of `total_size` bytes is split into when `jobs`
/// are asked for: one per job, but never more than there are bytes, so that no
/// range is empty.
pub open spec fn range_count(total_size: nat, jobs: nat) -> nat {
    if jobs <= total_size {
        jobs
    } else {
        total_size
    }
}

/// Range `i` of `count`: each spans `total_size / count` bytes, and the last
/// one runs to the end of the resource and so takes the remainder.
pub open spec fn nth_range(total_size: nat, count: nat, i: int) -> ByteRange {
    let base = total_size as int / count as int;
    ByteRange {
        start: (i * base) as u64,
        end: if i == count - 1 {
            (total_size - 1) as u64
        } else {
            (i * base + base - 1) as u64
        },
    }
}

/// The ranges that `partition` yields for `jobs >= 1`.
pub open spec fn partition_spec(total_size: nat, jobs: nat) -> Seq<ByteRange> {
    let count = range_count(total_size, jobs);
    Seq::new(count, |i: int| nth_range(total_size, count, i))
}

proof fn lemma_nth_range_bounds(total_size: nat, count: nat, i: int)
    requires
        1 <= count <= total_size,
        0 <= i < count,
    ensures
        i * (total_size as int / count as int) + (total_size as int / count as int) <= total_size,
        1 <= total_size as int / count as int,
        0 <= i * (total_size as int / count as int),
{
    let base = total_size as int / count as int;
    assert(base * count <= total_size && 1 <= base) by (nonlinear_arith)
        requires
            1 <= count <= total_size,
            base == total_size as int / count as int,
    ;
    assert(i * base + base <= base * count && 0 <= i * base) by (nonlinear_arith)
        requires
            0 <= i < count,
            1 <= base,
    ;
}

/// How `partition` ends on the given arguments: with a configuration error
/// for zero jobs, and else with the ranges of `partition_spec`.
pub open spec fn partition_post(
    total_size: u64,
    jobs: usize,
    r: Result<Vec<ByteRange>, DownloadError>,
) -> bool {
    &&& r is Err <==> jobs == 0
    &&& r matches Err(e) ==> e == DownloadError::Configuration
    &&& r matches Ok(v) ==> v@ == partition_spec(total_size as nat, jobs as nat)
}

/// Splits `[0, total_size)` into contiguous ranges, one per job.
///
/// Zero jobs is a configuration error. Where more jobs are asked for than the
/// resource has bytes, one range per byte is made instead, and none for an
/// empty resource.
pub fn partition(total_size: u64, jobs: usize) -> (r: Result<Vec<ByteRange>, DownloadError>)
    ensures
        partition_post(total_size, jobs, r),
        r matches Ok(v) ==> tiles(v@, total_size as nat) && pairwise_disjoint(v@) && covers(
            v@,
            total_size as nat,
        ) && total_len(v@) == total_size,
{
    proof {
        if jobs >= 1 {
            partition_is_exact_cover(total_size, jobs);
            partition_lengths_sum_to_total(total_size, jobs);
        }
    }
    if jobs == 0 {
        return Err(DownloadError::Configuration);
    }
    let count: usize = if jobs as u64 <= total_size {
        jobs
    } else {
        total_size as usize
    };
    let mut ranges: Vec<ByteRange> = Vec::new();
    if count == 0 {
        assert(ranges@ =~= partition_spec(total_size as nat, jobs as nat));
        return Ok(ranges);
    }
    let base: u64 = total_size / (count as u64);
    let mut i: usize = 0;
    while i < count
        invariant
            1 <= count <= total_size,
            count == range_count(total_size as nat, jobs as nat),
            base == total_size as int / count as int,
            i <= count,
            ranges@.len() == i,
            forall|k: int|
                0 <= k < i ==> ranges@[k] == nth_range(total_size as nat, count as nat, k),
        decreases count - i,
    {
        proof {
            lemma_nth_range_bounds(total_size as nat, count as nat, i as int);
        }
        let start: u64 = (i as u64) * base;
        let end: u64 = if i == count - 1 {
            total_size - 1
        } else {
            start + base - 1
        };
        ranges.push(ByteRange { start, end });
        i += 1;
    }
    assert(ranges@ =~= partition_spec(total_size as nat, jobs as nat));
    Ok(ranges)
}

/// Every range of a partition is well formed, and the ranges follow one
/// another from offset 0 to the end of the resource.
pub proof fn lemma_partition_tiles(total_size: nat, jobs: nat)
    requires
        jobs >= 1,
        total_size <= u64::MAX,
    ensures
        tiles(partition_spec(total_size, jobs), total_size),
{
    let count = range_count(total_size, jobs);
    let ranges = partition_spec(total_size, jobs);
    if count > 0 {
        assert forall|i: int| 0 <= i < ranges.len() implies (#[trigger] ranges[i]).wf() by {
            lemma_nth_range_bounds(total_size, count, i);
        }
        assert forall|i: int| 0 <= i < ranges.len() - 1 implies (#[trigger] ranges[i]).end + 1
            == ranges[i + 1].start by {
            lemma_nth_range_bounds(total_size, count, i);
            lemma_nth_range_bounds(total_size, count, i + 1);
            let base = total_size as int / count as int;
            assert((i + 1) * base == i * base + base) by (nonlinear_arith);
        }
        lemma_nth_range_bounds(total_size, count, 0);
        lemma_nth_range_bounds(total_size, count, count - 1);
    }
}

/// In a tiling, an earlier range ends before a later one starts.
pub proof fn lemma_tiles_ordered(ranges: Seq<ByteRange>, total: nat, i: int, j: int)
    requires
        tiles(ranges, total),
        0 <= i < j < ranges.len(),
    ensures
        ranges[i].end < ranges[j].start,
    decreases j - i,
{
    if i + 1 < j {
        lemma_tiles_ordered(ranges, total, i, j - 1);
        assert(ranges[j - 1].wf());
        assert(ranges[j - 1].end + 1 == ranges[j - 1 + 1].start);
    } else {
        assert(ranges[i].end + 1 == ranges[i + 1].start);
    }
}

/// A tiling of more than one range, without its last range, is a tiling of
/// the offsets below that range.
pub proof fn lemma_tiles_front(ranges: Seq<ByteRange>, total: nat)
    requires
        tiles(ranges, total),
        ranges.len() >= 2,
    ensures
        tiles(ranges.drop_last(), ranges.last().start as nat),
{
    let last = ranges.len() - 1;
    let front = ranges.drop_last();
    assert(ranges[last - 1].end + 1 == ranges[last - 1 + 1].start);
    assert forall|k: int| 0 <= k < front.len() implies (#[trigger] front[k]).wf() by {
        assert(ranges[k].wf());
    }
    assert forall|k: int| 0 <= k < front.len() - 1 implies (#[trigger] front[k]).end + 1
        == front[k + 1].start by {
        assert(ranges[k].end + 1 == ranges[k + 1].start);
    }
}

/// In a tiling of `[0, total)`, every offset below `total` lies in a range.
pub proof fn lemma_tiles_locate(ranges: Seq<ByteRange>, total: nat, b: int) -> (i: int)
    requires
        tiles(ranges, total),
        0 <= b < total,
    ensures
        0 <= i < ranges.len(),
        ranges[i].contains(b),
    decreases ranges.len(),
{
    let last = ranges.len() - 1;
    assert(ranges[last].wf());
    if b >= ranges[last].start {
        last
    } else {
        let front = ranges.drop_last();
        lemma_tiles_front(ranges, total);
        lemma_tiles_locate(front, ranges[last].start as nat, b)
    }
}

/// The ranges of a tiling of `[0, total)` are pairwise disjoint, and their
/// union is exactly `[0, total)`.
pub proof fn lemma_tiles_exact_cover(ranges: Seq<ByteRange>, total: nat)
    requires
        tiles(ranges, total),
    ensures
        pairwise_disjoint(ranges),
        covers(ranges, total),
{
    assert forall|i: int, j: int, b: int|
        0 <= i < j < ranges.len() && #[trigger] ranges[i].contains(b) implies !#[trigger] ranges[j].contains(
        b,
    ) by {
        lemma_tiles_ordered(ranges, total, i, j);
    }
    assert forall|b: int| (0 <= b < total) <==> #[trigger] in_union(ranges, b) by {
        if 0 <= b < total {
            let i = lemma_tiles_locate(ranges, total, b);
            assert(ranges[i].contains(b));
        }
        if in_union(ranges, b) {
            let i = choose|i: int| 0 <= i < ranges.len() && (#[trigger] ranges[i]).contains(b);
            let last = ranges.len() - 1;
            assert(ranges[i].wf());
            assert(ranges[0].wf());
            if i > 0 {
                lemma_tiles_ordered(ranges, total, 0, i);
            }
            if i < last {
                lemma_tiles_ordered(ranges, total, i, last);
                assert(ranges[last].wf());
            }
        }
    }
}

/// The lengths of the ranges of a tiling of `[0, total)` add up to `total`.
pub proof fn lemma_tiles_total_len(ranges: Seq<ByteRange>, total: nat)
    requires
        tiles(ranges, total),
    ensures
        total_len(ranges) == total,
    decreases ranges.len(),
{
    if ranges.len() > 0 {
        let last = ranges.len() - 1;
        let front = ranges.drop_last();
        assert(ranges[last].wf());
        if last == 0 {
            assert(total_len(front) == 0);
        } else {
            lemma_tiles_front(ranges, total);
            lemma_tiles_total_len(front, ranges[last].start as nat);
        }
    }
}

/// For every size and at least one job, the ranges of the partition are
/// pairwise disjoint, contiguous, and their union is exactly `[0, total_size)`.
pub proof fn partition_is_exact_cover(total_size: u64, jobs: usize)
    requires
        jobs >= 1,
    ensures
        tiles(partition_spec(total_size as nat, jobs as nat), total_size as nat),
        pairwise_disjoint(partition_spec(total_size as nat, jobs as nat)),
        covers(partition_spec(total_size as nat, jobs as nat), total_size as nat),
{
    lemma_partition_tiles(total_size as nat, jobs as nat);
    lemma_tiles_exact_cover(partition_spec(total_size as nat, jobs as nat), total_size as nat);
}

/// For every size and at least one job, the inclusive lengths of the ranges of
/// the partition add up to the size.
pub proof fn partition_lengths_sum_to_total(total_size: u64, jobs: usize)
    requires
        jobs >= 1,
    ensures
        total_len(partition_spec(total_size as nat, jobs as nat)) == total_size,
{
    lemma_partition_tiles(total_size as nat, jobs as nat);
    lemma_tiles_total_len(partition_spec(total_size as nat, jobs as nat), total_size as nat);
}

/// Partitioning has no hidden state: two runs on the same size and job count
/// end alike, and where they yield ranges, these are the same sequence.
pub proof fn partition_is_deterministic(
    total_size: u64,
    jobs: usize,
    first: Result<Vec<ByteRange>, DownloadError>,
    second: Result<Vec<ByteRange>, DownloadError>,
)
    requires
        partition_post(total_size, jobs, first),
        partition_post(total_size, jobs, second),
    ensures
        first is Ok <==> second is Ok,
        first is Ok ==> first->Ok_0@ == second->Ok_0@,
        first is Err ==> first->Err_0 == second->Err_0,
{
}

} // verus!
