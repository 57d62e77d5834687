use vstd::prelude::*;

use crate::error::DownloadError;
use crate::fetch::Fetch;
use crate::metadata::ResourceMetadata;
use crate::partition::{
    lemma_partition_tiles, lemma_tiles_ordered, partition, partition_spec, range_count,
};
use crate::range::{tiles, ByteRange};

verus! {

/// The jobs that can each be given at least one byte: as many as were asked
/// for, but no more than the resource has bytes, and one for an empty resource.
pub open spec fn effective_jobs(total_size: u64, jobs: usize) -> nat {
    let most: nat = if total_size >= 1 {
        total_size as nat
    } else {
        1
    };
    if jobs <= most {
        jobs as nat
    } else {
        most
    }
}

/// Whether the resource is fetched as one stream: the server does not
/// support ranges, or no more than one job can be given work.
pub open spec fn uses_fallback(meta: ResourceMetadata, jobs: usize) -> bool {
    !meta.supports_ranges || effective_jobs(meta.total_size, jobs) <= 1
}

/// The cursor that `Fetch::ranged` makes for a well-formed range.
pub open spec fn ranged_fetch(range: ByteRange) -> Fetch {
    Fetch { range: Some(range), start: range.start, len: range.spec_len() as u64, written: 0 }
}

/// The cursor that `Fetch::whole` makes.
pub open spec fn whole_fetch(total_size: u64) -> Fetch {
    Fetch { range: None, start: 0, len: total_size, written: 0 }
}

/// The fetchers of a download: the single-stream fetcher alone in fallback
/// mode, else one ranged fetcher for each range of the partition, in order.
pub open spec fn planned(meta: ResourceMetadata, jobs: usize) -> Seq<Fetch> {
    if uses_fallback(meta, jobs) {
        seq![whole_fetch(meta.total_size)]
    } else {
        let ranges = partition_spec(meta.total_size as nat, jobs as nat);
        Seq::new(ranges.len(), |i: int| ranged_fetch(ranges[i]))
    }
}

/// Number of fetchers of a download.
pub open spec fn planned_count(meta: ResourceMetadata, jobs: usize) -> nat {
    if uses_fallback(meta, jobs) {
        1
    } else {
        range_count(meta.total_size as nat, jobs as nat)
    }
}

/// Decides how a resource is fetched, and makes the cursor of each fetcher.
///
/// Zero jobs is a configuration error.
pub fn plan(meta: ResourceMetadata, jobs: usize) -> (r: Result<Vec<Fetch>, DownloadError>)
    ensures
        r is Err <==> jobs == 0,
        r matches Err(e) ==> e == DownloadError::Configuration,
        r matches Ok(tasks) ==> tasks@ == planned(meta, jobs) && tasks@.len() == planned_count(
            meta,
            jobs,
        ),
        r matches Ok(tasks) ==> forall|i: int| 0 <= i < tasks@.len() ==> (#[trigger] tasks@[i]).wf(),
{
    if jobs == 0 {
        return Err(DownloadError::Configuration);
    }
    let mut tasks: Vec<Fetch> = Vec::new();
    if !meta.supports_ranges || jobs <= 1 || meta.total_size <= 1 {
        tasks.push(Fetch::whole(meta.total_size));
        assert(tasks@ =~= planned(meta, jobs));
        return Ok(tasks);
    }
    let ranges = match partition(meta.total_size, jobs) {
        Ok(ranges) => ranges,
        Err(e) => {
            return Err(e);
        },
    };
    let mut i: usize = 0;
    while i < ranges.len()
        invariant
            i <= ranges@.len(),
            tiles(ranges@, meta.total_size as nat),
            tasks@.len() == i,
            forall|k: int| 0 <= k < i ==> tasks@[k] == ranged_fetch(#[trigger] ranges@[k]),
            forall|k: int| 0 <= k < i ==> (#[trigger] tasks@[k]).wf(),
        decreases ranges@.len() - i,
    {
        assert(ranges@[i as int].wf());
        tasks.push(Fetch::ranged(ranges[i]));
        i += 1;
    }
    assert(tasks@ =~= planned(meta, jobs));
    Ok(tasks)
}

/// In fallback mode there is one fetcher, it has no range and so sends no
/// range header, and it spans the whole resource.
pub proof fn fallback_sends_no_range(meta: ResourceMetadata, jobs: usize)
    requires
        !meta.supports_ranges || jobs <= 1,
    ensures
        uses_fallback(meta, jobs),
        planned(meta, jobs).len() == 1,
        planned(meta, jobs)[0].range is None,
        planned(meta, jobs)[0] == whole_fetch(meta.total_size),
{
}

/// In range mode every fetcher has a range of its own, and these ranges are
/// the partition of the resource.
pub proof fn ranged_plan_follows_partition(meta: ResourceMetadata, jobs: usize)
    requires
        !uses_fallback(meta, jobs),
    ensures
        planned(meta, jobs).len() == partition_spec(meta.total_size as nat, jobs as nat).len(),
        planned(meta, jobs).len() >= 2,
        forall|i: int|
            0 <= i < planned(meta, jobs).len() ==> (#[trigger] planned(meta, jobs)[i]).range
                == Some(partition_spec(meta.total_size as nat, jobs as nat)[i]) && planned(
                meta,
                jobs,
            )[i].wf(),
{
    lemma_partition_tiles(meta.total_size as nat, jobs as nat);
    let ranges = partition_spec(meta.total_size as nat, jobs as nat);
    assert forall|i: int| 0 <= i < planned(meta, jobs).len() implies (#[trigger] planned(
        meta,
        jobs,
    )[i]).range == Some(ranges[i]) && planned(meta, jobs)[i].wf() by {
        assert(ranges[i].wf());
    }
}

/// Every planned fetcher's span lies within the resource, so no write it is
/// given an offset for reaches past the size the output file was made with.
pub proof fn planned_spans_lie_within_resource(meta: ResourceMetadata, jobs: usize, i: int)
    requires
        jobs >= 1,
        0 <= i < planned(meta, jobs).len(),
    ensures
        planned(meta, jobs)[i].wf(),
        planned(meta, jobs)[i].start + planned(meta, jobs)[i].len <= meta.total_size,
{
    if !uses_fallback(meta, jobs) {
        let ranges = partition_spec(meta.total_size as nat, jobs as nat);
        lemma_partition_tiles(meta.total_size as nat, jobs as nat);
        assert(ranges[i].wf());
        let last = ranges.len() - 1;
        assert(ranges[last].wf());
        if i < last {
            lemma_tiles_ordered(ranges, meta.total_size as nat, i, last);
        }
    }
}

/// The spans of two planned fetchers share no byte offset: the earlier one
/// ends before the later one starts.
pub proof fn planned_spans_are_disjoint(meta: ResourceMetadata, jobs: usize, i: int, j: int)
    requires
        jobs >= 1,
        0 <= i < j < planned(meta, jobs).len(),
    ensures
        planned(meta, jobs)[i].start + planned(meta, jobs)[i].len <= planned(meta, jobs)[j].start,
{
    let ranges = partition_spec(meta.total_size as nat, jobs as nat);
    lemma_partition_tiles(meta.total_size as nat, jobs as nat);
    assert(ranges[i].wf());
    lemma_tiles_ordered(ranges, meta.total_size as nat, i, j);
}

} // verus!
