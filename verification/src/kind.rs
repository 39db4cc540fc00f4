use vstd::prelude::*;

verus! {

/// The three call operations the host exposes.
///
/// A `Static` call must reject any state mutation at the host level and never
/// carries a value. A `Delegate` call executes the callee's code directly
/// against the caller's own persistent-state context, so value semantics are
/// inherited from the original call and no separate amount is carried.
#[derive(Clone, Copy, Debug, PartialEq, Eq, Structural)]
pub enum CallKind {
    Mutating,
    Static,
    Delegate,
}

/// What the cache collaborator must be asked to do before a call is
/// dispatched.
#[derive(Clone, Copy, Debug, PartialEq, Eq, Structural)]
pub enum CacheAction {
    /// No collaborator is configured; the policy step does nothing.
    NoOp,
    /// Durably persist pending writes, keeping cached reads.
    Flush,
    /// Discard every cached entry (persisting pending writes first).
    Clear,
}

/// The coherency action owed before dispatching a call of `kind`, given
/// whether a persistent-state cache collaborator is present at all.
///
/// A static callee cannot mutate state the caller observes, so cached reads
/// stay valid and a flush suffices to make the caller's own pending writes
/// visible. A mutating or delegate callee (or anything it transitively calls,
/// including a reentrant call back into the caller) may alter state the
/// caller has mirrored, so the conservative choice is to invalidate. A host
/// that forbade reentrant calls could justify the cheaper flush-only path for
/// mutating calls; no such host guarantee is assumed here, so the
/// conservative invalidation stands for mutating and delegate calls alike.
pub open spec fn required_cache_action(cache_present: bool, kind: CallKind) -> CacheAction {
    if !cache_present {
        CacheAction::NoOp
    } else {
        match kind {
            CallKind::Static => CacheAction::Flush,
            CallKind::Mutating => CacheAction::Clear,
            CallKind::Delegate => CacheAction::Clear,
        }
    }
}

/// Executable form of the policy table.
pub fn cache_action_for(cache_present: bool, kind: CallKind) -> (action: CacheAction)
    ensures
        action == required_cache_action(cache_present, kind),
{
    if !cache_present {
        CacheAction::NoOp
    } else {
        match kind {
            CallKind::Static => CacheAction::Flush,
            CallKind::Mutating => CacheAction::Clear,
            CallKind::Delegate => CacheAction::Clear,
        }
    }
}

} // verus!
