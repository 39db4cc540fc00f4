use vstd::prelude::*;
use vstd::slice::slice_to_vec;

use crate::host::{dispatched_to, CallRecord, Env, Event, HostOutcome};
use crate::kind::CallKind;

verus! {

/// The raw call primitive: a minimal builder around the host's three call
/// operations. It applies no cache policy and surfaces no typed errors —
/// that is the entry points' job — it only hands a target, a payload, a
/// value and a resource limit to the host and reports the raw outcome.
#[derive(Clone, Copy, Debug)]
pub struct RawCall {
    pub kind: CallKind,
    pub value: u128,
    /// `None` forwards all remaining budget.
    pub gas_limit: Option<u64>,
}

impl RawCall {
    /// A value amount must be absent when the kind is static or delegate.
    /// Violating this is a programming contract the typed layer prevents
    /// before the primitive is ever reached, not a runtime check here: the
    /// constructors below only pair a value with a mutating kind.
    pub open spec fn value_ok(self) -> bool {
        (self.kind is Static || self.kind is Delegate) ==> self.value == 0
    }

    /// A mutating call carrying no value.
    pub fn new() -> (raw: RawCall)
        ensures
            raw.kind is Mutating,
            raw.value == 0,
            raw.gas_limit is None,
            raw.value_ok(),
    {
        RawCall { kind: CallKind::Mutating, value: 0, gas_limit: None }
    }

    /// A mutating call carrying `value`.
    pub fn new_with_value(value: u128) -> (raw: RawCall)
        ensures
            raw.kind is Mutating,
            raw.value == value,
            raw.gas_limit is None,
            raw.value_ok(),
    {
        RawCall { kind: CallKind::Mutating, value, gas_limit: None }
    }

    /// A static (read-only) call; it can never be given a value.
    pub fn new_static() -> (raw: RawCall)
        ensures
            raw.kind is Static,
            raw.value == 0,
            raw.gas_limit is None,
            raw.value_ok(),
    {
        RawCall { kind: CallKind::Static, value: 0, gas_limit: None }
    }

    /// A delegate call; value semantics are inherited from the original
    /// call, so it can never be given a separate amount.
    pub fn new_delegate() -> (raw: RawCall)
        ensures
            raw.kind is Delegate,
            raw.value == 0,
            raw.gas_limit is None,
            raw.value_ok(),
    {
        RawCall { kind: CallKind::Delegate, value: 0, gas_limit: None }
    }

    /// Forward at most `limit` budget.
    pub fn gas(self, limit: u64) -> (raw: RawCall)
        ensures
            raw.kind == self.kind,
            raw.value == self.value,
            raw.gas_limit == Some(limit),
            self.value_ok() ==> raw.value_ok(),
    {
        RawCall { kind: self.kind, value: self.value, gas_limit: Some(limit) }
    }

    /// Forward at most the given budget, or all remaining when `None`.
    pub fn gas_within(self, limit: Option<u64>) -> (raw: RawCall)
        ensures
            raw.kind == self.kind,
            raw.value == self.value,
            raw.gas_limit == limit,
            self.value_ok() ==> raw.value_ok(),
    {
        RawCall { kind: self.kind, value: self.value, gas_limit: limit }
    }

    /// Issue the call: transfer control to the host's call operation for
    /// `kind`, handing over the payload unaltered, and report the raw
    /// outcome. Exactly one dispatch is recorded; the cache is not touched.
    /// The outcome served is the front of the script, and a dispatch beyond
    /// the script is a host-level fault.
    pub fn call(self, env: &mut Env, to: alloy_primitives::Address, data: &[u8]) -> (outcome: HostOutcome)
        requires
            self.value_ok(),
        ensures
            final(env).cache == old(env).cache,
            final(env).trace@ == old(env).trace@.push(final(env).trace@.last()),
            dispatched_to(
                final(env).trace@.last(),
                self.kind,
                to,
                data@,
                self.value,
                self.gas_limit,
                old(env).cache.pending_writes,
                old(env).cache.cached_reads,
            ),
            if old(env).script@.len() > 0 {
                &&& outcome == old(env).script@[0]
                &&& final(env).script@ == old(env).script@.drop_first()
            } else {
                &&& outcome is Fault
                &&& final(env).script@ == old(env).script@
            },
    {
        let record = CallRecord {
            kind: self.kind,
            to,
            data: slice_to_vec(data),
            value: self.value,
            gas: self.gas_limit,
            pending_at_dispatch: env.cache.pending_writes,
            cached_at_dispatch: env.cache.cached_reads,
        };
        env.trace.push(Event::Dispatched(record));
        if env.script.len() > 0 {
            let outcome = env.script.remove(0);
            proof {
                assert(env.script@ =~= old(env).script@.drop_first());
            }
            outcome
        } else {
            HostOutcome::Fault
        }
    }
}

} // verus!
