//! Safe dispatch of calls to other programs hosted in the same deterministic
//! execution sandbox.
//!
//! The host exposes a single raw call primitive in three flavours (mutating,
//! static, delegate). Everything interesting here is the policy layer around
//! it: which coherency action the persistent-state cache collaborator owes
//! before control transfers, which contexts may carry value into which call
//! kinds, and how host failures surface as typed results.

use vstd::prelude::*;

pub mod cache;
pub mod context;
pub mod error;
pub mod host;
pub mod kind;
pub mod laws;
pub mod raw;

use crate::context::{ElevatedTrust, MutatingCallContext, StaticCallContext};
use crate::error::{interpret_outcome, surfaced_as, Error};
use crate::host::{dispatched_to, Env, Event};
use crate::kind::{required_cache_action, CacheAction, CallKind};
use crate::raw::RawCall;

verus! {

/// Holds when an entry point, run from `pre` and leaving `post`, interacted
/// with its collaborators exactly as owed for a call of `kind`: first the
/// coherency action the policy requires (none when no cache collaborator is
/// configured), then exactly one dispatch with these parameters — issued only
/// once no unflushed local write could escape the callee's view of durable
/// state.
pub open spec fn policy_then_dispatch(
    pre: Env,
    post: Env,
    kind: CallKind,
    to: alloy_primitives::Address,
    data: Seq<u8>,
    value: u128,
    gas: Option<u64>,
) -> bool {
    let action = required_cache_action(pre.cache.present, kind);
    let observed_cached = (if action is Flush {
        pre.cache.cached_reads
    } else {
        false
    });
    &&& match action {
        CacheAction::NoOp => post.trace@ == pre.trace@.push(post.trace@.last()),
        CacheAction::Flush => post.trace@ == pre.trace@.push(Event::CacheFlushed).push(
            post.trace@.last(),
        ),
        CacheAction::Clear => post.trace@ == pre.trace@.push(Event::CacheCleared).push(
            post.trace@.last(),
        ),
    }
    &&& dispatched_to(post.trace@.last(), kind, to, data, value, gas, false, observed_cached)
}

/// Holds when `result` is what the caller is owed given the outcomes the
/// host had left to serve: the front outcome, normalized through the error
/// surface, and a dispatch fault when the host had nothing left.
pub open spec fn scripted_result(pre: Env, post: Env, result: Result<Vec<u8>, Error>) -> bool {
    if pre.script@.len() > 0 {
        &&& post.script@ == pre.script@.drop_first()
        &&& surfaced_as(pre.script@[0], result)
    } else {
        &&& post.script@ == pre.script@
        &&& result matches Err(e)
        &&& e is DispatchFailed
    }
}

/// Calls the program at the given address.
///
/// Requires a mutating-capable context; invalidates the cache before
/// dispatch — a reentrant callee must never observe correct-looking-but-stale
/// cached state — and carries the context's value amount.
pub fn call<C: MutatingCallContext>(
    env: &mut Env,
    context: C,
    to: alloy_primitives::Address,
    data: &[u8],
) -> (result: Result<Vec<u8>, Error>)
    requires
        old(env).wf(),
    ensures
        final(env).wf(),
        final(env).cache.present == old(env).cache.present,
        final(env).cache.flushed(),
        old(env).cache.present ==> final(env).cache.invalidated(),
        !old(env).cache.present ==> final(env).cache == old(env).cache,
        policy_then_dispatch(
            *old(env),
            *final(env),
            CallKind::Mutating,
            to,
            data@,
            context.spec_value(),
            context.spec_gas(),
        ),
        scripted_result(*old(env), *final(env), result),
{
    env.apply_cache_policy(CallKind::Mutating);
    let outcome = RawCall::new_with_value(context.value()).gas_within(context.gas()).call(
        env,
        to,
        data,
    );
    interpret_outcome(outcome)
}

/// Static calls the program at the given address.
///
/// Requires a read-capable context and never carries value. The cache is
/// flushed — so the callee's reads of durable state reflect this process's
/// own pending writes — but never invalidated: cached reads stay valid and
/// are preserved for reuse after the call returns.
pub fn static_call<C: StaticCallContext>(
    env: &mut Env,
    context: C,
    to: alloy_primitives::Address,
    data: &[u8],
) -> (result: Result<Vec<u8>, Error>)
    requires
        old(env).wf(),
    ensures
        final(env).wf(),
        final(env).cache.present == old(env).cache.present,
        final(env).cache.flushed(),
        final(env).cache.cached_reads == old(env).cache.cached_reads,
        policy_then_dispatch(
            *old(env),
            *final(env),
            CallKind::Static,
            to,
            data@,
            0,
            context.spec_gas(),
        ),
        scripted_result(*old(env), *final(env), result),
{
    env.apply_cache_policy(CallKind::Static);
    let outcome = RawCall::new_static().gas_within(context.gas()).call(env, to, data);
    interpret_outcome(outcome)
}

/// Delegate calls the program at the given address.
///
/// The callee's code runs directly against this program's own storage
/// context: it may arbitrarily change storage and move value,
/// indistinguishably from the caller's own actions. The entry point
/// therefore demands, besides a mutating-capable context, an explicit
/// [`ElevatedTrust`] acknowledgment at the call site; without one a delegate
/// call cannot be assembled. The cache is invalidated before dispatch, and
/// no separate value amount is carried: value semantics are inherited from
/// the original call.
pub fn delegate_call<C: MutatingCallContext>(
    env: &mut Env,
    context: C,
    _trust: ElevatedTrust,
    to: alloy_primitives::Address,
    data: &[u8],
) -> (result: Result<Vec<u8>, Error>)
    requires
        old(env).wf(),
    ensures
        final(env).wf(),
        final(env).cache.present == old(env).cache.present,
        final(env).cache.flushed(),
        old(env).cache.present ==> final(env).cache.invalidated(),
        !old(env).cache.present ==> final(env).cache == old(env).cache,
        policy_then_dispatch(
            *old(env),
            *final(env),
            CallKind::Delegate,
            to,
            data@,
            0,
            context.spec_gas(),
        ),
        scripted_result(*old(env), *final(env), result),
{
    env.apply_cache_policy(CallKind::Delegate);
    let outcome = RawCall::new_delegate().gas_within(context.gas()).call(env, to, data);
    interpret_outcome(outcome)
}

} // verus!
