#![allow(non_camel_case_types)]

use vstd::prelude::*;

verus! {

/// Whether a service communicates across process boundaries or within one
/// process.
#[derive(Debug, Clone, Copy, PartialEq, Eq, Structural)]
pub enum iox2_service_type_e {
    LOCAL,
    IPC,
}

/// How the server grows its response-loan pool once the initial maximum
/// slice length is exhausted.
#[derive(Debug, Clone, Copy, PartialEq, Eq, Structural)]
pub enum iox2_allocation_strategy_e {
    BEST_FIT,
    POWER_OF_TWO,
    STATIC,
}

/// What the server does with a response that its destination cannot accept.
#[derive(Debug, Clone, Copy, PartialEq, Eq, Structural)]
pub enum iox2_unable_to_deliver_strategy_e {
    BLOCK,
    DISCARD_SAMPLE,
}

/// The settings that a server builder accumulates.
#[derive(Debug, Clone, Copy, PartialEq, Eq, Structural)]
pub struct ServerConfig {
    pub allocation_strategy: iox2_allocation_strategy_e,
    pub initial_max_slice_len: usize,
    pub max_loaned_responses_per_request: usize,
    pub unable_to_deliver_strategy: iox2_unable_to_deliver_strategy_e,
}

/// One configuration call together with its argument.
pub enum ConfigOp {
    AllocationStrategy(iox2_allocation_strategy_e),
    InitialMaxSliceLen(usize),
    MaxLoanedResponsesPerRequest(usize),
    UnableToDeliverStrategy(iox2_unable_to_deliver_strategy_e),
}

/// The number of responses that may be loaned per request when `n` is asked
/// for: at least one loan is always allowed, so zero stands for one.
pub open spec fn loan_limit(n: usize) -> usize {
    if n == 0 {
        1
    } else {
        n
    }
}

/// The settings after one configuration call: the field that the call names
/// takes its argument, every other field is kept.
pub open spec fn apply_config_op(c: ServerConfig, op: ConfigOp) -> ServerConfig {
    match op {
        ConfigOp::AllocationStrategy(a) => ServerConfig { allocation_strategy: a, ..c },
        ConfigOp::InitialMaxSliceLen(n) => ServerConfig { initial_max_slice_len: n, ..c },
        ConfigOp::MaxLoanedResponsesPerRequest(n) => {
            ServerConfig { max_loaned_responses_per_request: loan_limit(n), ..c }
        },
        ConfigOp::UnableToDeliverStrategy(s) => ServerConfig { unable_to_deliver_strategy: s, ..c },
    }
}

/// Whether the field that `op` names holds the value that `op` gives it.
pub open spec fn config_reflects(c: ServerConfig, op: ConfigOp) -> bool {
    match op {
        ConfigOp::AllocationStrategy(a) => c.allocation_strategy == a,
        ConfigOp::InitialMaxSliceLen(n) => c.initial_max_slice_len == n,
        ConfigOp::MaxLoanedResponsesPerRequest(n) => c.max_loaned_responses_per_request == loan_limit(n),
        ConfigOp::UnableToDeliverStrategy(s) => c.unable_to_deliver_strategy == s,
    }
}

/// Whether two configuration calls name the same field.
pub open spec fn same_setting(a: ConfigOp, b: ConfigOp) -> bool {
    match (a, b) {
        (ConfigOp::AllocationStrategy(_), ConfigOp::AllocationStrategy(_)) => true,
        (ConfigOp::InitialMaxSliceLen(_), ConfigOp::InitialMaxSliceLen(_)) => true,
        (ConfigOp::MaxLoanedResponsesPerRequest(_), ConfigOp::MaxLoanedResponsesPerRequest(_)) => true,
        (ConfigOp::UnableToDeliverStrategy(_), ConfigOp::UnableToDeliverStrategy(_)) => true,
        _ => false,
    }
}

/// A server builder of either locality; exactly one variant is live.
#[derive(Debug, Clone, Copy, PartialEq, Eq, Structural)]
pub enum PortFactoryServerBuilderUnion {
    Ipc(ServerConfig),
    Local(ServerConfig),
}

impl PortFactoryServerBuilderUnion {
    /// The locality of this builder.
    pub open spec fn locality(self) -> iox2_service_type_e {
        match self {
            PortFactoryServerBuilderUnion::Ipc(_) => iox2_service_type_e::IPC,
            PortFactoryServerBuilderUnion::Local(_) => iox2_service_type_e::LOCAL,
        }
    }

    /// The settings of this builder.
    pub open spec fn settings(self) -> ServerConfig {
        match self {
            PortFactoryServerBuilderUnion::Ipc(c) => c,
            PortFactoryServerBuilderUnion::Local(c) => c,
        }
    }

    /// The builder of the same locality with `c` as its settings.
    pub open spec fn with_settings(self, c: ServerConfig) -> Self {
        match self {
            PortFactoryServerBuilderUnion::Ipc(_) => PortFactoryServerBuilderUnion::Ipc(c),
            PortFactoryServerBuilderUnion::Local(_) => PortFactoryServerBuilderUnion::Local(c),
        }
    }

    /// The builder after one configuration call.
    pub open spec fn apply(self, op: ConfigOp) -> Self {
        self.with_settings(apply_config_op(self.settings(), op))
    }

    /// The builder after a sequence of configuration calls, in order.
    pub open spec fn apply_all(self, ops: Seq<ConfigOp>) -> Self
        decreases ops.len(),
    {
        if ops.len() == 0 {
            self
        } else {
            self.apply_all(ops.drop_last()).apply(ops.last())
        }
    }

    /// An inter-process builder with the given settings.
    pub fn new_ipc(config: ServerConfig) -> (r: Self)
        ensures
            r.locality() == iox2_service_type_e::IPC,
            r.settings() == config,
    {
        PortFactoryServerBuilderUnion::Ipc(config)
    }

    /// An intra-process builder with the given settings.
    pub fn new_local(config: ServerConfig) -> (r: Self)
        ensures
            r.locality() == iox2_service_type_e::LOCAL,
            r.settings() == config,
    {
        PortFactoryServerBuilderUnion::Local(config)
    }

    /// The locality of this builder.
    pub fn service_type(&self) -> (r: iox2_service_type_e)
        ensures
            r == self.locality(),
    {
        match self {
            PortFactoryServerBuilderUnion::Ipc(_) => iox2_service_type_e::IPC,
            PortFactoryServerBuilderUnion::Local(_) => iox2_service_type_e::LOCAL,
        }
    }

    /// The settings of this builder.
    pub fn config(&self) -> (r: ServerConfig)
        ensures
            r == self.settings(),
    {
        match self {
            PortFactoryServerBuilderUnion::Ipc(c) => *c,
            PortFactoryServerBuilderUnion::Local(c) => *c,
        }
    }

    /// Sets the allocation strategy, keeping the locality.
    pub fn allocation_strategy(self, value: iox2_allocation_strategy_e) -> (r: Self)
        ensures
            r == self.apply(ConfigOp::AllocationStrategy(value)),
    {
        match self {
            PortFactoryServerBuilderUnion::Ipc(c) => {
                PortFactoryServerBuilderUnion::Ipc(ServerConfig { allocation_strategy: value, ..c })
            },
            PortFactoryServerBuilderUnion::Local(c) => {
                PortFactoryServerBuilderUnion::Local(ServerConfig { allocation_strategy: value, ..c })
            },
        }
    }

    /// Sets the initial maximum slice length, keeping the locality.
    pub fn initial_max_slice_len(self, value: usize) -> (r: Self)
        ensures
            r == self.apply(ConfigOp::InitialMaxSliceLen(value)),
    {
        match self {
            PortFactoryServerBuilderUnion::Ipc(c) => {
                PortFactoryServerBuilderUnion::Ipc(ServerConfig { initial_max_slice_len: value, ..c })
            },
            PortFactoryServerBuilderUnion::Local(c) => {
                PortFactoryServerBuilderUnion::Local(ServerConfig { initial_max_slice_len: value, ..c })
            },
        }
    }

    /// Sets the number of responses that may be loaned per request, keeping
    /// the locality; zero is raised to one.
    pub fn max_loaned_responses_per_request(self, value: usize) -> (r: Self)
        ensures
            r == self.apply(ConfigOp::MaxLoanedResponsesPerRequest(value)),
    {
        let limit: usize = if value == 0 {
            1
        } else {
            value
        };
        match self {
            PortFactoryServerBuilderUnion::Ipc(c) => {
                PortFactoryServerBuilderUnion::Ipc(
                    ServerConfig { max_loaned_responses_per_request: limit, ..c },
                )
            },
            PortFactoryServerBuilderUnion::Local(c) => {
                PortFactoryServerBuilderUnion::Local(
                    ServerConfig { max_loaned_responses_per_request: limit, ..c },
                )
            },
        }
    }

    /// Sets the strategy for undeliverable responses, keeping the locality.
    pub fn unable_to_deliver_strategy(self, value: iox2_unable_to_deliver_strategy_e) -> (r: Self)
        ensures
            r == self.apply(ConfigOp::UnableToDeliverStrategy(value)),
    {
        match self {
            PortFactoryServerBuilderUnion::Ipc(c) => {
                PortFactoryServerBuilderUnion::Ipc(
                    ServerConfig { unable_to_deliver_strategy: value, ..c },
                )
            },
            PortFactoryServerBuilderUnion::Local(c) => {
                PortFactoryServerBuilderUnion::Local(
                    ServerConfig { unable_to_deliver_strategy: value, ..c },
                )
            },
        }
    }
}

/// Configuration never changes the locality of a builder, whatever calls are
/// made and in whatever order.
pub proof fn lemma_locality_invariant(u: PortFactoryServerBuilderUnion, ops: Seq<ConfigOp>)
    ensures
        u.apply_all(ops).locality() == u.locality(),
    decreases ops.len(),
{
    if ops.len() > 0 {
        lemma_locality_invariant(u, ops.drop_last());
    }
}

/// Two configuration calls in a row lose no setting: the later call's value
/// is in place, and so is the earlier call's value unless the later call sets
/// the same field. Every field that neither call names is kept.
pub proof fn lemma_two_settings_kept(u: PortFactoryServerBuilderUnion, a: ConfigOp, b: ConfigOp)
    ensures
        u.apply(a).apply(b) == u.apply_all(seq![a, b]),
        config_reflects(u.apply(a).apply(b).settings(), b),
        !same_setting(a, b) ==> config_reflects(u.apply(a).apply(b).settings(), a),
        forall|o: ConfigOp|
            !same_setting(o, a) && !same_setting(o, b) && config_reflects(u.settings(), o)
                ==> config_reflects(u.apply(a).apply(b).settings(), o),
        u.apply(a).apply(b).locality() == u.locality(),
{
    let ops = seq![a, b];
    assert(ops.drop_last() =~= seq![a]);
    assert(seq![a].drop_last() =~= Seq::<ConfigOp>::empty());
    assert(u.apply_all(Seq::<ConfigOp>::empty()) == u);
    assert(u.apply_all(seq![a]) == u.apply(a));
    assert(u.apply_all(ops) == u.apply_all(seq![a]).apply(b));
}

} // verus!
