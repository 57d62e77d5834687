use vstd::prelude::*;

verus! {

/// Running total of the bytes that all fetchers of one download have written.
///
/// The caller shares one value between its fetchers behind a lock; every
/// change goes through `advance`, so the total only grows and never passes
/// the size of the resource.
#[derive(Clone, Copy, Debug, PartialEq, Eq, Structural)]
pub struct Progress {
    pub completed: u64,
    pub total: u64,
}

impl Progress {
    /// The bytes completed never exceed the size of the resource.
    pub open spec fn wf(&self) -> bool {
        self.completed <= self.total
    }

    /// The value after `n` more bytes: the sum, held at the total.
    pub open spec fn advanced(&self, n: u64) -> Progress {
        Progress {
            completed: if self.completed + n <= self.total {
                (self.completed + n) as u64
            } else {
                self.total
            },
            total: self.total,
        }
    }

    /// Progress of a download of `total` bytes of which none is written yet.
    pub fn new(total: u64) -> (p: Progress)
        ensures
            p == (Progress { completed: 0, total }),
            p.wf(),
    {
        Progress { completed: 0, total }
    }

    /// Whether the value is well formed.
    pub fn is_valid(&self) -> (b: bool)
        ensures
            b == self.wf(),
    {
        self.completed <= self.total
    }

    /// Adds `n` to the bytes completed. The total is never passed.
    pub fn advance(&mut self, n: u64)
        requires
            old(self).wf(),
        ensures
            *final(self) == old(self).advanced(n),
            final(self).wf(),
            final(self).completed >= old(self).completed,
    {
        if n <= self.total - self.completed {
            self.completed = self.completed + n;
        } else {
            self.completed = self.total;
        }
    }

    /// Bytes completed so far.
    pub fn completed(&self) -> (n: u64)
        ensures
            n == self.completed,
    {
        self.completed
    }

    /// Size of the resource.
    pub fn total(&self) -> (n: u64)
        ensures
            n == self.total,
    {
        self.total
    }

    /// Whether every byte of the resource is accounted for.
    pub fn is_complete(&self) -> (b: bool)
        ensures
            b == (self.completed == self.total),
    {
        self.completed == self.total
    }
}

} // verus!
