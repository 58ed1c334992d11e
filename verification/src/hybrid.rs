//! Hybrid limiter: composes a synchronous local limiter with an
//! asynchronous distributed one. The caller starts the distributed check,
//! runs the local check, and hands each outcome to the decision steps here.

use std::hash::Hash;
use std::marker::PhantomData;
use std::sync::Arc;

use vstd::prelude::*;

use crate::distributed::{backend_error_retry_after, spec_backend_error_retry_after, DistributedCheckOutcome};
use crate::event_sink::{emit_all, EventSink};
use crate::hierarchical_limiter::{spec_hierarchical, HierarchicalLimiter};
use crate::models::{completion_event_list, spec_max_nanos, Decision, Duration, InstrumentationLevel};

verus! {

/// How a distributed backend failure is treated.
#[derive(Clone, Copy, Debug, PartialEq, Eq, Structural)]
pub enum DistributedFailurePolicy {
    /// Treat the request as allowed by the distributed limit.
    FailOpen,
    /// Deny the request with the failure's retry hint.
    FailClosed,
}

impl Default for DistributedFailurePolicy {
    fn default() -> (p: Self)
        ensures
            p == DistributedFailurePolicy::FailOpen,
    {
        DistributedFailurePolicy::FailOpen
    }
}

/// Synchronous local limiter used by the hybrid orchestrator.
pub trait LocalLimiter<K>: Send + Sync {
    fn check(&self, key: &K) -> Decision;
}

impl<K: Eq + Hash + Clone + Send + Sync, S: EventSink> LocalLimiter<K> for HierarchicalLimiter<K, S> {
    fn check(&self, key: &K) -> Decision {
        HierarchicalLimiter::check(self, key)
    }
}

/// Both decisions must allow; two denials keep the longer retry hint, a
/// single denial keeps its own.
pub open spec fn spec_combine(first: Decision, second: Decision) -> Decision {
    match (first, second) {
        (Decision::Allow, Decision::Allow) => Decision::Allow,
        (Decision::Deny { retry_after: r1 }, Decision::Deny { retry_after: r2 }) => Decision::Deny {
            retry_after: Duration { nanos: spec_max_nanos(r1.nanos, r2.nanos) },
        },
        (Decision::Deny { retry_after }, Decision::Allow) => Decision::Deny { retry_after },
        (Decision::Allow, Decision::Deny { retry_after }) => Decision::Deny { retry_after },
    }
}

pub fn combine_decisions(first: Decision, second: Decision) -> (d: Decision)
    ensures
        d == spec_combine(first, second),
{
    match (first, second) {
        (Decision::Allow, Decision::Allow) => Decision::Allow,
        (Decision::Deny { retry_after: r1 }, Decision::Deny { retry_after: r2 }) => Decision::Deny {
            retry_after: r1.max(r2),
        },
        (Decision::Deny { retry_after }, Decision::Allow) => Decision::Deny { retry_after },
        (Decision::Allow, Decision::Deny { retry_after }) => Decision::Deny { retry_after },
    }
}

/// The decision a distributed outcome contributes under `policy`.
pub open spec fn spec_map_outcome(outcome: DistributedCheckOutcome, policy: DistributedFailurePolicy) -> Decision {
    match outcome {
        DistributedCheckOutcome::Allow => Decision::Allow,
        DistributedCheckOutcome::Deny { retry_after } => Decision::Deny { retry_after },
        DistributedCheckOutcome::BackendError { retry_after } => match policy {
            DistributedFailurePolicy::FailOpen => Decision::Allow,
            DistributedFailurePolicy::FailClosed => Decision::Deny { retry_after },
        },
    }
}

pub fn map_distributed_outcome_to_decision(
    outcome: DistributedCheckOutcome,
    policy: DistributedFailurePolicy,
) -> (d: Decision)
    ensures
        d == spec_map_outcome(outcome, policy),
{
    match outcome {
        DistributedCheckOutcome::Allow => Decision::Allow,
        DistributedCheckOutcome::Deny { retry_after } => Decision::Deny { retry_after },
        DistributedCheckOutcome::BackendError { retry_after } => match policy {
            DistributedFailurePolicy::FailOpen => Decision::Allow,
            DistributedFailurePolicy::FailClosed => Decision::Deny { retry_after },
        },
    }
}

/// Combining with an allow changes nothing.
pub proof fn combine_allow_is_identity(d: Decision)
    ensures
        spec_combine(Decision::Allow, d) == d,
        spec_combine(d, Decision::Allow) == d,
{
}

/// The order of the two decisions does not matter.
pub proof fn combine_is_commutative(a: Decision, b: Decision)
    ensures
        spec_combine(a, b) == spec_combine(b, a),
{
}

/// Combining three decisions does not depend on grouping.
pub proof fn combine_is_associative(a: Decision, b: Decision, c: Decision)
    ensures
        spec_combine(spec_combine(a, b), c) == spec_combine(a, spec_combine(b, c)),
{
}

/// The hybrid combination and the hierarchical combination are the same rule.
pub proof fn combine_matches_hierarchical(a: Decision, b: Decision)
    ensures
        spec_combine(a, b) == spec_hierarchical(a, b),
{
}

/// A backend failure never denies under fail-open, and denies with the
/// failure's own hint under fail-closed; verdicts are independent of policy.
pub proof fn failure_policy_only_affects_backend_errors(
    outcome: DistributedCheckOutcome,
    p: DistributedFailurePolicy,
    q: DistributedFailurePolicy,
)
    ensures
        outcome is BackendError ==> spec_map_outcome(outcome, DistributedFailurePolicy::FailOpen) is Allow,
        outcome matches DistributedCheckOutcome::BackendError { retry_after } ==> spec_map_outcome(
            outcome,
            DistributedFailurePolicy::FailClosed,
        ) == (Decision::Deny { retry_after }),
        !(outcome is BackendError) ==> spec_map_outcome(outcome, p) == spec_map_outcome(outcome, q),
{
}

/// Configuration for constructing a hybrid limiter.
pub struct HybridLimiterConfig<L, D, S> {
    /// Local limiter implementation (sync).
    pub local: L,
    /// Distributed limiter implementation (async).
    pub distributed: D,
    /// Event sink used by the hybrid limiter for instrumentation.
    pub sink: S,
    /// Instrumentation level for the hybrid limiter.
    pub instrumentation: InstrumentationLevel,
    /// Failure policy applied when the distributed backend errors.
    pub failure_policy: DistributedFailurePolicy,
}

impl<L, D, S> HybridLimiterConfig<L, D, S> {
    /// A configuration with instrumentation off and the fail-open policy.
    pub fn new(local: L, distributed: D, sink: S) -> (c: Self)
        ensures
            c.local == local,
            c.distributed == distributed,
            c.sink == sink,
            c.instrumentation == InstrumentationLevel::Off,
            c.failure_policy == DistributedFailurePolicy::FailOpen,
    {
        HybridLimiterConfig {
            local,
            distributed,
            sink,
            instrumentation: InstrumentationLevel::Off,
            failure_policy: DistributedFailurePolicy::default(),
        }
    }

    /// Overrides the instrumentation level.
    pub fn with_instrumentation(self, level: InstrumentationLevel) -> (c: Self)
        ensures
            c == (HybridLimiterConfig { instrumentation: level, ..self }),
    {
        let mut c = self;
        c.instrumentation = level;
        c
    }

    /// Overrides the distributed failure policy.
    pub fn with_failure_policy(self, policy: DistributedFailurePolicy) -> (c: Self)
        ensures
            c == (HybridLimiterConfig { failure_policy: policy, ..self }),
    {
        let mut c = self;
        c.failure_policy = policy;
        c
    }
}

/// What the orchestrator does once the local decision is known.
#[derive(Clone, Copy, Debug, PartialEq, Eq, Structural)]
pub enum HybridStep {
    /// The check is over with this decision.
    Done(Decision),
    /// The local limit allows; wait for the distributed outcome.
    AwaitDistributed,
}

/// Orchestrates local and distributed checks.
pub struct HybridLimiter<L, D, K, S> {
    local: Arc<L>,
    distributed: Arc<D>,
    sink: S,
    instrumentation: InstrumentationLevel,
    failure_policy: DistributedFailurePolicy,
    _marker: PhantomData<K>,
}

impl<L, D, K, S> HybridLimiter<L, D, K, S> {
    pub closed spec fn level(&self) -> InstrumentationLevel {
        self.instrumentation
    }

    pub closed spec fn policy(&self) -> DistributedFailurePolicy {
        self.failure_policy
    }

    pub closed spec fn spec_local(&self) -> L {
        *self.local
    }

    pub closed spec fn spec_distributed(&self) -> D {
        *self.distributed
    }

    /// A limiter with the configuration's limiters, sink, instrumentation
    /// level and failure policy.
    pub fn new(config: HybridLimiterConfig<L, D, S>) -> (h: Self)
        ensures
            h.level() == config.instrumentation,
            h.policy() == config.failure_policy,
            h.spec_local() == config.local,
            h.spec_distributed() == config.distributed,
    {
        HybridLimiter {
            local: Arc::new(config.local),
            distributed: Arc::new(config.distributed),
            sink: config.sink,
            instrumentation: config.instrumentation,
            failure_policy: config.failure_policy,
            _marker: PhantomData,
        }
    }

    /// Returns the configured instrumentation level.
    pub fn instrumentation(&self) -> (l: InstrumentationLevel)
        ensures
            l == self.level(),
    {
        self.instrumentation
    }

    /// Returns the configured failure policy.
    pub fn failure_policy(&self) -> (p: DistributedFailurePolicy)
        ensures
            p == self.policy(),
    {
        self.failure_policy
    }

    /// The local limiter, shared with the orchestrator.
    pub fn local(&self) -> (l: &Arc<L>)
        ensures
            **l == self.spec_local(),
    {
        &self.local
    }

    /// The distributed limiter, shared with the task that runs its check.
    pub fn distributed(&self) -> (d: &Arc<D>)
        ensures
            **d == self.spec_distributed(),
    {
        &self.distributed
    }
}

/// The decision once the local check is done: a local allow waits for the
/// distributed outcome; a local denial ends the check, combined with the
/// distributed outcome when that is already available.
pub open spec fn spec_after_local(
    local: Decision,
    ready: Option<DistributedCheckOutcome>,
    policy: DistributedFailurePolicy,
) -> HybridStep {
    if local is Allow {
        HybridStep::AwaitDistributed
    } else {
        match ready {
            Some(o) => HybridStep::Done(spec_combine(local, spec_map_outcome(o, policy))),
            None => HybridStep::Done(local),
        }
    }
}

/// The decision once the distributed task has finished; `None` means the
/// task itself failed, which counts as a backend error.
pub open spec fn spec_after_distributed(
    local: Decision,
    finished: Option<DistributedCheckOutcome>,
    policy: DistributedFailurePolicy,
) -> Decision {
    let outcome = match finished {
        Some(o) => o,
        None => DistributedCheckOutcome::BackendError { retry_after: spec_backend_error_retry_after() },
    };
    spec_combine(local, spec_map_outcome(outcome, policy))
}

impl<L, D, K, S: EventSink> HybridLimiter<L, D, K, S> {
    /// Hands the sink the events of `completion_event_list` for a finished
    /// check; no clause speaks of the sink.
    pub fn emit_operation_completed(&self, decision: &Decision) {
        emit_all(&self.sink, completion_event_list(self.instrumentation, *decision));
    }

    /// Runs the local limiter on `key`.
    pub fn check_local(&self, key: &K) -> Decision
        where L: LocalLimiter<K>,
    {
        self.local.check(key)
    }

    /// Step after the local decision; `ready` is the distributed outcome if
    /// it already finished. A finished check is handed to the sink.
    pub fn after_local(&self, local: Decision, ready: Option<DistributedCheckOutcome>) -> (s: HybridStep)
        ensures
            s == spec_after_local(local, ready, self.policy()),
    {
        if let Decision::Deny { .. } = local {
            let decision = match ready {
                Some(outcome) => combine_decisions(
                    local,
                    map_distributed_outcome_to_decision(outcome, self.failure_policy),
                ),
                None => local,
            };
            self.emit_operation_completed(&decision);
            HybridStep::Done(decision)
        } else {
            HybridStep::AwaitDistributed
        }
    }

    /// Step after the distributed outcome; the decision is handed to the sink.
    pub fn after_distributed(&self, local: Decision, finished: Option<DistributedCheckOutcome>) -> (d: Decision)
        ensures
            d == spec_after_distributed(local, finished, self.policy()),
    {
        let outcome = match finished {
            Some(o) => o,
            None => DistributedCheckOutcome::BackendError { retry_after: backend_error_retry_after() },
        };
        let decision = combine_decisions(local, map_distributed_outcome_to_decision(outcome, self.failure_policy));
        self.emit_operation_completed(&decision);
        decision
    }
}

} // verus!
