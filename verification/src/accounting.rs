use vstd::prelude::*;

use crate::fetch::Fetch;
use crate::metadata::ResourceMetadata;
use crate::partition::{lemma_partition_tiles, lemma_tiles_total_len, partition_spec};
use crate::plan::{planned, ranged_fetch, uses_fallback};
use crate::progress::Progress;
use crate::range::{total_len, ByteRange};

verus! {

/// Sum of the lengths of the fetchers' spans.
pub open spec fn sum_len(fetches: Seq<Fetch>) -> nat
    decreases fetches.len(),
{
    if fetches.len() == 0 {
        0
    } else {
        sum_len(fetches.drop_last()) + fetches.last().len as nat
    }
}

/// Sum of the bytes that the fetchers have written.
pub open spec fn sum_written(fetches: Seq<Fetch>) -> nat
    decreases fetches.len(),
{
    if fetches.len() == 0 {
        0
    } else {
        sum_written(fetches.drop_last()) + fetches.last().written as nat
    }
}

/// The books of a download balance: the spans of its fetchers add up to the
/// size of the resource, and the shared progress is the sum of what the
/// fetchers have written.
pub open spec fn accounted(fetches: Seq<Fetch>, progress: Progress) -> bool {
    &&& forall|i: int| 0 <= i < fetches.len() ==> (#[trigger] fetches[i]).wf()
    &&& sum_len(fetches) == progress.total
    &&& sum_written(fetches) == progress.completed
}

/// The cursor after `record` has accepted a chunk of `n` bytes.
pub open spec fn recorded(fetch: Fetch, n: usize) -> Fetch {
    Fetch { written: (fetch.written + n) as u64, ..fetch }
}

proof fn lemma_sums_after_update(fetches: Seq<Fetch>, i: int, fetch: Fetch)
    requires
        0 <= i < fetches.len(),
    ensures
        sum_len(fetches.update(i, fetch)) == sum_len(fetches) - fetches[i].len + fetch.len,
        sum_written(fetches.update(i, fetch)) == sum_written(fetches) - fetches[i].written
            + fetch.written,
    decreases fetches.len(),
{
    let after = fetches.update(i, fetch);
    if i == fetches.len() - 1 {
        assert(after.drop_last() =~= fetches.drop_last());
    } else {
        assert(after.drop_last() =~= fetches.drop_last().update(i, fetch));
        lemma_sums_after_update(fetches.drop_last(), i, fetch);
    }
}

proof fn lemma_written_within_len(fetches: Seq<Fetch>)
    requires
        forall|i: int| 0 <= i < fetches.len() ==> (#[trigger] fetches[i]).wf(),
    ensures
        sum_written(fetches) <= sum_len(fetches),
        (forall|i: int| 0 <= i < fetches.len() ==> (#[trigger] fetches[i]).spec_is_complete())
            ==> sum_written(fetches) == sum_len(fetches),
    decreases fetches.len(),
{
    if fetches.len() > 0 {
        let front = fetches.drop_last();
        assert forall|i: int| 0 <= i < front.len() implies (#[trigger] front[i]).wf() by {
            assert(fetches[i].wf());
        }
        lemma_written_within_len(front);
        assert(fetches[fetches.len() - 1].wf());
        if forall|i: int| 0 <= i < fetches.len() ==> (#[trigger] fetches[i]).spec_is_complete() {
            assert forall|i: int| 0 <= i < front.len() implies (
            #[trigger] front[i]).spec_is_complete() by {
                assert(fetches[i].spec_is_complete());
            }
            assert(fetches[fetches.len() - 1].spec_is_complete());
        }
    }
}

proof fn lemma_ranged_spans(ranges: Seq<ByteRange>, fetches: Seq<Fetch>)
    requires
        fetches.len() == ranges.len(),
        forall|i: int| 0 <= i < ranges.len() ==> (#[trigger] ranges[i]).wf(),
        forall|i: int| 0 <= i < ranges.len() ==> #[trigger] fetches[i] == ranged_fetch(ranges[i]),
    ensures
        sum_len(fetches) == total_len(ranges),
        sum_written(fetches) == 0,
    decreases ranges.len(),
{
    if ranges.len() > 0 {
        let last = ranges.len() - 1;
        assert(ranges[last].wf());
        assert(fetches[last] == ranged_fetch(ranges[last]));
        assert forall|i: int| 0 <= i < last implies (#[trigger] ranges.drop_last()[i]).wf() by {
            assert(ranges[i].wf());
        }
        assert forall|i: int| 0 <= i < last implies #[trigger] fetches.drop_last()[i]
            == ranged_fetch(ranges.drop_last()[i]) by {
            assert(fetches[i] == ranged_fetch(ranges[i]));
        }
        lemma_ranged_spans(ranges.drop_last(), fetches.drop_last());
    }
}

/// At the start the books balance: the spans of the planned fetchers add up
/// to the size of the resource, and nothing is written.
pub proof fn plan_starts_accounted(meta: ResourceMetadata, jobs: usize)
    requires
        jobs >= 1,
    ensures
        accounted(planned(meta, jobs), Progress { completed: 0, total: meta.total_size }),
{
    let fetches = planned(meta, jobs);
    if uses_fallback(meta, jobs) {
        assert(fetches.drop_last() =~= Seq::<Fetch>::empty());
        assert(sum_len(fetches.drop_last()) == 0);
        assert(sum_written(fetches.drop_last()) == 0);
    } else {
        let ranges = partition_spec(meta.total_size as nat, jobs as nat);
        lemma_partition_tiles(meta.total_size as nat, jobs as nat);
        lemma_tiles_total_len(ranges, meta.total_size as nat);
        lemma_ranged_spans(ranges, fetches);
        assert forall|i: int| 0 <= i < fetches.len() implies (#[trigger] fetches[i]).wf() by {
            assert(ranges[i].wf());
        }
    }
}

/// Recording a chunk that fits keeps the books balanced, and adds exactly the
/// chunk's length to the progress: the total is not reached before the last
/// byte is written.
pub proof fn record_keeps_account(fetches: Seq<Fetch>, progress: Progress, i: int, n: usize)
    requires
        accounted(fetches, progress),
        0 <= i < fetches.len(),
        fetches[i].fits(n),
    ensures
        progress.advanced(n as u64).completed == progress.completed + n,
        accounted(fetches.update(i, recorded(fetches[i], n)), progress.advanced(n as u64)),
{
    let after = fetches.update(i, recorded(fetches[i], n));
    assert(fetches[i].wf());
    lemma_sums_after_update(fetches, i, recorded(fetches[i], n));
    assert forall|k: int| 0 <= k < after.len() implies (#[trigger] after[k]).wf() by {
        assert(fetches[k].wf());
    }
    lemma_written_within_len(after);
}

/// Once every fetcher has written its whole span, the progress reads exactly
/// the size of the resource.
pub proof fn full_success_reaches_total(fetches: Seq<Fetch>, progress: Progress)
    requires
        accounted(fetches, progress),
        forall|i: int| 0 <= i < fetches.len() ==> (#[trigger] fetches[i]).spec_is_complete(),
    ensures
        progress.completed == progress.total,
{
    lemma_written_within_len(fetches);
}

/// While the books balance, the progress never exceeds the size of the resource.
pub proof fn progress_stays_within_total(fetches: Seq<Fetch>, progress: Progress)
    requires
        accounted(fetches, progress),
    ensures
        progress.wf(),
{
    lemma_written_within_len(fetches);
}

/// The fetchers and the progress after the chunks `(fetcher, length)` have
/// arrived in this order, each recorded by its fetcher: one that fits moves
/// the fetcher's cursor and the progress on, one that does not changes nothing.
pub open spec fn after_chunks(
    fetches: Seq<Fetch>,
    progress: Progress,
    chunks: Seq<(int, usize)>,
) -> (Seq<Fetch>, Progress)
    decreases chunks.len(),
{
    if chunks.len() == 0 {
        (fetches, progress)
    } else {
        let (before, counted) = after_chunks(fetches, progress, chunks.drop_last());
        let (i, n) = chunks.last();
        if 0 <= i < before.len() && before[i].fits(n) {
            (before.update(i, recorded(before[i], n)), counted.advanced(n as u64))
        } else {
            (before, counted)
        }
    }
}

/// Whatever chunks arrive for the fetchers of a download, and in whatever
/// order, the progress is the sum of what the fetchers have written and never
/// exceeds the size of the resource; once every fetcher has written its
/// whole span, it is exactly that size.
pub proof fn progress_matches_written(
    meta: ResourceMetadata,
    jobs: usize,
    chunks: Seq<(int, usize)>,
)
    requires
        jobs >= 1,
    ensures
        ({
            let start = Progress { completed: 0, total: meta.total_size };
            let (fetches, progress) = after_chunks(planned(meta, jobs), start, chunks);
            &&& fetches.len() == planned(meta, jobs).len()
            &&& accounted(fetches, progress)
            &&& progress.total == meta.total_size
            &&& progress.completed <= meta.total_size
            &&& (forall|i: int| 0 <= i < fetches.len() ==> (#[trigger] fetches[i]).spec_is_complete())
                ==> progress.completed == meta.total_size
        }),
    decreases chunks.len(),
{
    let start = Progress { completed: 0, total: meta.total_size };
    if chunks.len() == 0 {
        plan_starts_accounted(meta, jobs);
    } else {
        progress_matches_written(meta, jobs, chunks.drop_last());
        let (before, counted) = after_chunks(planned(meta, jobs), start, chunks.drop_last());
        let (i, n) = chunks.last();
        if 0 <= i < before.len() && before[i].fits(n) {
            record_keeps_account(before, counted, i, n);
        }
    }
    let (fetches, progress) = after_chunks(planned(meta, jobs), start, chunks);
    lemma_written_within_len(fetches);
}

} // verus!
