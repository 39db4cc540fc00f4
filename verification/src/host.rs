use vstd::prelude::*;

use crate::cache::CacheModel;
use crate::kind::{cache_action_for, required_cache_action, CacheAction, CallKind};

verus! {

/// Relies on `alloy_primitives::Address` only as an opaque, fixed-width,
/// `Copy` identifier of a callable program instance. The dispatch layer never
/// inspects its bytes; the declaration lets values of it be carried through
/// signatures and records.
#[verifier::external_type_specification]
#[verifier::external_body]
pub struct ExAddress(alloy_primitives::Address);

/// What the host reports back for one dispatched call.
#[derive(Debug)]
pub enum HostOutcome {
    /// The callee ran to completion; its raw output bytes.
    Success(Vec<u8>),
    /// The callee signalled a revert; its raw diagnostic payload, which may
    /// be empty and carries no structure this layer interprets.
    Revert(Vec<u8>),
    /// The call could not be dispatched at all: no executable code at the
    /// target, resource exhaustion, or another host-level fault.
    Fault,
}

/// Everything handed to the host's call operation — and what the callee (or
/// anything it transitively calls, including a reentrant call back into the
/// caller) would observe of the cache — at the moment control transfers.
#[derive(Debug)]
pub struct CallRecord {
    pub kind: CallKind,
    pub to: alloy_primitives::Address,
    pub data: Vec<u8>,
    pub value: u128,
    /// The forwarded resource limit; `None` forwards all remaining budget.
    pub gas: Option<u64>,
    /// Whether unflushed local writes still existed when control transferred.
    pub pending_at_dispatch: bool,
    /// Whether cached reads were still held when control transferred.
    pub cached_at_dispatch: bool,
}

/// One interaction with a collaborator, in program order.
#[derive(Debug)]
pub enum Event {
    /// The cache collaborator was asked to persist pending writes.
    CacheFlushed,
    /// The cache collaborator was asked to discard every cached entry.
    CacheCleared,
    /// Control transferred to the host's call operation.
    Dispatched(CallRecord),
}

/// Holds when `event` records a dispatch with exactly these parameters and
/// this observable cache state.
pub open spec fn dispatched_to(
    event: Event,
    kind: CallKind,
    to: alloy_primitives::Address,
    data: Seq<u8>,
    value: u128,
    gas: Option<u64>,
    pending_at_dispatch: bool,
    cached_at_dispatch: bool,
) -> bool {
    &&& event matches Event::Dispatched(rec)
    &&& rec.kind == kind
    &&& rec.to == to
    &&& rec.data@ == data
    &&& rec.value == value
    &&& rec.gas == gas
    &&& rec.pending_at_dispatch == pending_at_dispatch
    &&& rec.cached_at_dispatch == cached_at_dispatch
}

/// The collaborators of one call site, as an explicitly passed handle: the
/// persistent-state cache mirror, the outcomes the host will serve next
/// (front first), and an ordered trace of every collaborator interaction.
#[derive(Debug)]
pub struct Env {
    pub cache: CacheModel,
    /// The host outcome for each upcoming dispatch, front first. A dispatch
    /// beyond the script is a host-level fault.
    pub script: Vec<HostOutcome>,
    /// Ordered record of every cache request and every dispatch.
    pub trace: Vec<Event>,
}

impl Env {
    pub open spec fn wf(self) -> bool {
        self.cache.wf()
    }

    pub fn new(cache: CacheModel, script: Vec<HostOutcome>) -> (env: Env)
        ensures
            env.cache == cache,
            env.script@ == script@,
            env.trace@ == Seq::<Event>::empty(),
    {
        Env { cache, script, trace: Vec::new() }
    }

    /// Ask the cache collaborator to flush, recording the interaction.
    pub fn flush_cache(&mut self)
        ensures
            final(self).cache.present == old(self).cache.present,
            final(self).cache.flushed(),
            final(self).cache.cached_reads == old(self).cache.cached_reads,
            old(self).wf() ==> final(self).wf(),
            final(self).script@ == old(self).script@,
            final(self).trace@ == old(self).trace@.push(Event::CacheFlushed),
    {
        self.cache.flush();
        self.trace.push(Event::CacheFlushed);
    }

    /// Ask the cache collaborator to discard every cached entry, recording
    /// the interaction.
    pub fn clear_cache(&mut self)
        ensures
            final(self).cache.present == old(self).cache.present,
            final(self).cache.invalidated(),
            final(self).wf(),
            final(self).script@ == old(self).script@,
            final(self).trace@ == old(self).trace@.push(Event::CacheCleared),
    {
        self.cache.clear();
        self.trace.push(Event::CacheCleared);
    }

    /// Apply the coherency action owed for a call of `kind`: nothing when no
    /// collaborator is configured, a flush before a static call, a clear
    /// before a mutating or delegate call.
    pub fn apply_cache_policy(&mut self, kind: CallKind)
        ensures
            final(self).cache.present == old(self).cache.present,
            final(self).cache.flushed() || required_cache_action(old(self).cache.present, kind) is NoOp,
            old(self).wf() ==> final(self).wf(),
            final(self).script@ == old(self).script@,
            match required_cache_action(old(self).cache.present, kind) {
                CacheAction::NoOp => {
                    &&& final(self).cache == old(self).cache
                    &&& final(self).trace@ == old(self).trace@
                },
                CacheAction::Flush => {
                    &&& final(self).cache.flushed()
                    &&& final(self).cache.cached_reads == old(self).cache.cached_reads
                    &&& final(self).trace@ == old(self).trace@.push(Event::CacheFlushed)
                },
                CacheAction::Clear => {
                    &&& final(self).cache.invalidated()
                    &&& final(self).trace@ == old(self).trace@.push(Event::CacheCleared)
                },
            },
    {
        match cache_action_for(self.cache.present, kind) {
            CacheAction::NoOp => {}
            CacheAction::Flush => self.flush_cache(),
            CacheAction::Clear => self.clear_cache(),
        }
    }
}

} // verus!
