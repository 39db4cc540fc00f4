use vstd::prelude::*;

use crate::cache::CacheModel;
use crate::host::{Env, Event};
use crate::kind::{required_cache_action, CallKind};
use crate::policy_then_dispatch;

verus! {

/// Law: a static call never invalidates the cache. Whatever the
/// configuration, the action the policy requires for a static call is never
/// a clear — at most a flush, which keeps every cached read.
pub proof fn lemma_static_never_clears(cache_present: bool)
    ensures
        !(required_cache_action(cache_present, CallKind::Static) is Clear),
{
}

/// Law: with a cache collaborator present, every mutating or delegate call
/// requires the cache to be invalidated before the primitive executes.
pub proof fn lemma_mutating_clears(cache_present: bool, kind: CallKind)
    requires
        cache_present,
        kind is Mutating || kind is Delegate,
    ensures
        required_cache_action(cache_present, kind) is Clear,
{
}

/// Law: invalidation is at least as strong as a flush. A cache that has been
/// invalidated holds no unflushed write either, so nothing a flush
/// guarantees is lost by clearing instead.
pub proof fn lemma_invalidated_implies_flushed(cache: CacheModel)
    requires
        cache.invalidated(),
    ensures
        cache.flushed(),
{
}

/// Law: whatever trace an entry point leaves, no call proceeded while
/// unflushed local writes existed — the dispatched record always shows a
/// flushed view — and a static call never put a clear anywhere around its
/// dispatch.
pub proof fn lemma_entry_trace_sound(
    pre: Env,
    post: Env,
    kind: CallKind,
    to: alloy_primitives::Address,
    data: Seq<u8>,
    value: u128,
    gas: Option<u64>,
)
    requires
        policy_then_dispatch(pre, post, kind, to, data, value, gas),
    ensures
        post.trace@.last() matches Event::Dispatched(rec) && !rec.pending_at_dispatch,
        kind is Static ==> forall|i: int|
            pre.trace@.len() <= i < post.trace@.len() ==> !(post.trace@[i] is CacheCleared),
{
}

} // verus!
