use alloy_primitives::Address;
use crosscall::cache::CacheModel;
use crosscall::context::ElevatedTrust;
use crosscall::error::{interpret_outcome, Error};
use crosscall::host::{Env, Event, HostOutcome};
use crosscall::kind::{cache_action_for, CacheAction, CallKind};
use crosscall::raw::RawCall;

#[test]
fn policy_table_is_exact() {
    assert_eq!(cache_action_for(false, CallKind::Static), CacheAction::NoOp);
    assert_eq!(cache_action_for(false, CallKind::Mutating), CacheAction::NoOp);
    assert_eq!(cache_action_for(false, CallKind::Delegate), CacheAction::NoOp);
    assert_eq!(cache_action_for(true, CallKind::Static), CacheAction::Flush);
    assert_eq!(cache_action_for(true, CallKind::Mutating), CacheAction::Clear);
    assert_eq!(cache_action_for(true, CallKind::Delegate), CacheAction::Clear);
}

#[test]
fn flush_persists_writes_and_keeps_reads() {
    let mut cache = CacheModel::present_with(true, true);
    cache.flush();
    assert!(!cache.pending_writes);
    assert!(cache.cached_reads);
}

#[test]
fn clear_is_at_least_as_strong_as_flush() {
    let mut cache = CacheModel::present_with(true, true);
    cache.clear();
    assert!(!cache.pending_writes, "invalidation implies prior durability");
    assert!(!cache.cached_reads);
}

#[test]
fn outcomes_surface_as_typed_results() {
    match interpret_outcome(HostOutcome::Success(vec![0x01, 0x02])) {
        Ok(out) => assert_eq!(out, vec![0x01, 0x02]),
        Err(_) => panic!("a successful outcome surfaces as Ok"),
    }
    match interpret_outcome(HostOutcome::Revert(vec![0xFF])) {
        Err(Error::CalleeReverted(payload)) => assert_eq!(payload, vec![0xFF]),
        _ => panic!("a revert surfaces with its payload"),
    }
    match interpret_outcome(HostOutcome::Fault) {
        Err(Error::DispatchFailed) => {}
        _ => panic!("a fault surfaces as a dispatch failure"),
    }
}

#[test]
fn empty_revert_payload_stays_empty() {
    match interpret_outcome(HostOutcome::Revert(vec![])) {
        Err(Error::CalleeReverted(payload)) => assert!(payload.is_empty()),
        _ => panic!("expected a revert"),
    }
}

#[test]
fn raw_builders_pair_value_only_with_mutating_kind() {
    let raw = RawCall::new();
    assert_eq!(raw.kind, CallKind::Mutating);
    assert_eq!(raw.value, 0);
    assert_eq!(raw.gas_limit, None);

    let raw = RawCall::new_with_value(3).gas(9);
    assert_eq!(raw.kind, CallKind::Mutating);
    assert_eq!(raw.value, 3);
    assert_eq!(raw.gas_limit, Some(9));

    let raw = RawCall::new_static();
    assert_eq!(raw.kind, CallKind::Static);
    assert_eq!(raw.value, 0);

    let raw = RawCall::new_delegate();
    assert_eq!(raw.kind, CallKind::Delegate);
    assert_eq!(raw.value, 0);
}

#[test]
fn raw_call_records_one_exact_dispatch() {
    let to = Address::new([0xCCu8; 20]);
    let mut env = Env::new(CacheModel::absent(), vec![HostOutcome::Success(vec![0x0C])]);

    let outcome = RawCall::new_with_value(2).call(&mut env, to, &[0x05, 0x06]);

    assert!(matches!(outcome, HostOutcome::Success(out) if out == vec![0x0C]));
    assert!(env.script.is_empty());
    assert_eq!(env.trace.len(), 1);
    match &env.trace[0] {
        Event::Dispatched(rec) => {
            assert_eq!(rec.to, to);
            assert_eq!(rec.data, vec![0x05, 0x06]);
            assert_eq!(rec.value, 2);
            assert_eq!(rec.gas, None);
        }
        _ => panic!("expected the one dispatch event"),
    }
}

#[test]
fn elevated_trust_token_is_an_acknowledgment() {
    let token = ElevatedTrust::acknowledge();
    assert!(token.is_acknowledged());
}
