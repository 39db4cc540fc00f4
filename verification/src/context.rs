use vstd::prelude::*;

verus! {

/// Capability required by every call kind: the context may read the resource
/// budget it forwards to the callee.
pub trait CallContext {
    /// The resource limit this context forwards; `None` forwards all
    /// remaining budget.
    spec fn spec_gas(&self) -> Option<u64>;

    fn gas(&self) -> (limit: Option<u64>)
        ensures
            limit == self.spec_gas(),
    ;
}

/// Marker capability of contexts the static entry point accepts. A static
/// context has no value capability at all — which is a different thing from
/// a mutating context whose value happens to be zero.
pub trait StaticCallContext: CallContext {}

/// Capability of contexts eligible for the mutating entry points: the
/// context may supply a value amount to transfer atomically with the call.
pub trait MutatingCallContext: CallContext {
    /// The value amount to carry; zero is legal and means a call without
    /// transfer.
    spec fn spec_value(&self) -> u128;

    fn value(&self) -> (amount: u128)
        ensures
            amount == self.spec_value(),
    ;
}

/// A read-only call configuration: carries a resource limit and nothing
/// else, so it can never be handed to a value-carrying entry point.
#[derive(Clone, Copy, Debug)]
pub struct StaticCallConfig {
    pub gas_limit: Option<u64>,
}

impl StaticCallConfig {
    /// Forward all remaining budget.
    pub fn new() -> (config: StaticCallConfig)
        ensures
            config.gas_limit is None,
    {
        StaticCallConfig { gas_limit: None }
    }

    /// Forward at most `limit` budget.
    pub fn with_gas(self, limit: u64) -> (config: StaticCallConfig)
        ensures
            config.gas_limit == Some(limit),
    {
        StaticCallConfig { gas_limit: Some(limit) }
    }
}

impl CallContext for StaticCallConfig {
    open spec fn spec_gas(&self) -> Option<u64> {
        self.gas_limit
    }

    fn gas(&self) -> Option<u64> {
        self.gas_limit
    }
}

impl StaticCallContext for StaticCallConfig {}

/// A mutating call configuration: carries a resource limit and the value
/// amount to transfer.
#[derive(Clone, Copy, Debug)]
pub struct MutatingCallConfig {
    pub gas_limit: Option<u64>,
    pub value: u128,
}

impl MutatingCallConfig {
    /// No transfer, all remaining budget forwarded.
    pub fn new() -> (config: MutatingCallConfig)
        ensures
            config.gas_limit is None,
            config.value == 0,
    {
        MutatingCallConfig { gas_limit: None, value: 0 }
    }

    /// Transfer `amount` atomically with the call.
    pub fn with_value(self, amount: u128) -> (config: MutatingCallConfig)
        ensures
            config.gas_limit == self.gas_limit,
            config.value == amount,
    {
        MutatingCallConfig { gas_limit: self.gas_limit, value: amount }
    }

    /// Forward at most `limit` budget.
    pub fn with_gas(self, limit: u64) -> (config: MutatingCallConfig)
        ensures
            config.gas_limit == Some(limit),
            config.value == self.value,
    {
        MutatingCallConfig { gas_limit: Some(limit), value: self.value }
    }
}

impl CallContext for MutatingCallConfig {
    open spec fn spec_gas(&self) -> Option<u64> {
        self.gas_limit
    }

    fn gas(&self) -> Option<u64> {
        self.gas_limit
    }
}

impl MutatingCallContext for MutatingCallConfig {
    open spec fn spec_value(&self) -> u128 {
        self.value
    }

    fn value(&self) -> u128 {
        self.value
    }
}

/// The affirmative elevated-trust acknowledgment the delegate entry point
/// demands. Delegated code executes with full write access to the caller's
/// own persistent state and can mutate storage and move value
/// indistinguishably from the caller's own actions, so assembling a delegate
/// call without this token does not construct: the friction is the point.
pub struct ElevatedTrust {
    accepted: bool,
}

impl ElevatedTrust {
    /// A token can only ever stand for an explicit acknowledgment.
    #[verifier::type_invariant]
    spec fn inv(self) -> bool {
        self.accepted
    }

    /// Affirmatively accept that the callee is trusted with the caller's own
    /// storage context.
    pub fn acknowledge() -> (token: ElevatedTrust) {
        ElevatedTrust { accepted: true }
    }

    /// The token always stands for an explicit acknowledgment.
    pub fn is_acknowledged(&self) -> (acknowledged: bool)
        ensures
            acknowledged,
    {
        proof {
            use_type_invariant(self);
        }
        self.accepted
    }
}

} // verus!
