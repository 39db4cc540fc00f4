use vstd::prelude::*;

verus! {

/// Model of the persistent-state cache collaborator.
///
/// The dispatch layer never reads or writes cached entries itself; the only
/// interface it is entitled to is `flush` and `clear`. This model tracks the
/// two facts those operations change: whether unflushed local writes exist
/// that a callee's view of durable state would miss, and whether cached reads
/// are still held. A configuration without a cache collaborator is modelled
/// by `present == false`, in which case both flags are vacuously false.
#[derive(Clone, Copy, Debug, PartialEq, Eq, Structural)]
pub struct CacheModel {
    /// Whether a cache collaborator is configured at all.
    pub present: bool,
    /// Unflushed local writes exist.
    pub pending_writes: bool,
    /// Cached reads (mirrored entries) are currently held.
    pub cached_reads: bool,
}

impl CacheModel {
    /// An absent collaborator holds nothing.
    pub open spec fn wf(self) -> bool {
        !self.present ==> (!self.pending_writes && !self.cached_reads)
    }

    /// Every pending write has been durably persisted.
    pub open spec fn flushed(self) -> bool {
        !self.pending_writes
    }

    /// Every cached entry has been discarded, and — invalidation being at
    /// least as strong as a flush — every pending write persisted first.
    pub open spec fn invalidated(self) -> bool {
        !self.pending_writes && !self.cached_reads
    }

    /// The configuration without a cache collaborator.
    pub fn absent() -> (cache: CacheModel)
        ensures
            cache.wf(),
            !cache.present,
            cache.invalidated(),
    {
        CacheModel { present: false, pending_writes: false, cached_reads: false }
    }

    /// A cache collaborator in the given state.
    pub fn present_with(pending_writes: bool, cached_reads: bool) -> (cache: CacheModel)
        ensures
            cache.wf(),
            cache.present,
            cache.pending_writes == pending_writes,
            cache.cached_reads == cached_reads,
    {
        CacheModel { present: true, pending_writes, cached_reads }
    }

    /// Durably persist pending writes. Cached reads are retained: the
    /// process's in-memory view stays authoritative for its own writes.
    pub fn flush(&mut self)
        ensures
            final(self).present == old(self).present,
            final(self).flushed(),
            final(self).cached_reads == old(self).cached_reads,
            old(self).wf() ==> final(self).wf(),
    {
        self.pending_writes = false;
    }

    /// Discard every cached entry, forcing the next read to refetch from
    /// durable state. Pending writes are persisted first, so invalidation is
    /// at least as strong as a flush.
    pub fn clear(&mut self)
        ensures
            final(self).present == old(self).present,
            final(self).invalidated(),
            final(self).wf(),
    {
        self.pending_writes = false;
        self.cached_reads = false;
    }
}

} // verus!
