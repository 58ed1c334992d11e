//! Distributed keyed limiter: per-key limits enforced by a shared state
//! backend. The backend round trip is performed by the caller; this module
//! holds the limiter's configuration and turns backend replies into
//! decisions.

use std::marker::PhantomData;
use std::sync::Arc;

use vstd::prelude::*;

use crate::event_sink::{emit_all, EventSink};
use crate::models::{completion_event_list, nanos_per_milli, Decision, Duration, InstrumentationLevel};
use crate::state_backend::{BackendDecision, BackendError, LimitSpec};

verus! {

/// The retry hint used when the backend fails: 50 milliseconds.
pub open spec fn spec_backend_error_retry_after() -> Duration {
    Duration { nanos: (50 * nanos_per_milli()) as u128 }
}

pub fn backend_error_retry_after() -> (d: Duration)
    ensures
        d == spec_backend_error_retry_after(),
{
    Duration::from_millis(50)
}

/// What a distributed check observed, before any failure policy applies.
#[derive(Clone, Copy, Debug, PartialEq, Eq, Structural)]
pub enum DistributedCheckOutcome {
    Allow,
    Deny { retry_after: Duration },
    BackendError { retry_after: Duration },
}

pub open spec fn spec_outcome_from_backend(
    result: Result<BackendDecision, BackendError>,
) -> DistributedCheckOutcome {
    match result {
        Ok(BackendDecision::Allow) => DistributedCheckOutcome::Allow,
        Ok(BackendDecision::Deny { retry_after }) => DistributedCheckOutcome::Deny { retry_after },
        Err(_) => DistributedCheckOutcome::BackendError {
            retry_after: spec_backend_error_retry_after(),
        },
    }
}

/// Classifies a backend reply; failures carry the backend-error retry hint.
pub fn outcome_from_backend(result: Result<BackendDecision, BackendError>) -> (o: DistributedCheckOutcome)
    ensures
        o == spec_outcome_from_backend(result),
{
    match result {
        Ok(BackendDecision::Allow) => DistributedCheckOutcome::Allow,
        Ok(BackendDecision::Deny { retry_after }) => DistributedCheckOutcome::Deny { retry_after },
        Err(_) => DistributedCheckOutcome::BackendError { retry_after: backend_error_retry_after() },
    }
}

/// The distributed limiter's own decision: backend verdicts pass through,
/// and a backend failure denies with the backend-error retry hint.
pub open spec fn spec_decision_from_backend(result: Result<BackendDecision, BackendError>) -> Decision {
    match result {
        Ok(BackendDecision::Allow) => Decision::Allow,
        Ok(BackendDecision::Deny { retry_after }) => Decision::Deny { retry_after },
        Err(_) => Decision::Deny { retry_after: spec_backend_error_retry_after() },
    }
}

/// The distributed limiter's decision for a backend reply.
pub fn decision_from_backend(result: Result<BackendDecision, BackendError>) -> (d: Decision)
    ensures
        d == spec_decision_from_backend(result),
{
    match result {
        Ok(BackendDecision::Allow) => Decision::Allow,
        Ok(BackendDecision::Deny { retry_after }) => Decision::Deny { retry_after },
        Err(_) => Decision::Deny { retry_after: backend_error_retry_after() },
    }
}

#[verifier::reject_recursive_types(K)]
pub struct DistributedKeyedLimiter<K, B, S: EventSink> {
    backend: Arc<B>,
    namespace: String,
    limit: LimitSpec,
    sink: S,
    instrumentation: InstrumentationLevel,
    _marker: PhantomData<K>,
}

impl<K, B, S: EventSink> DistributedKeyedLimiter<K, B, S> {
    pub closed spec fn spec_namespace(&self) -> Seq<char> {
        self.namespace@
    }

    pub closed spec fn spec_limit(&self) -> LimitSpec {
        self.limit
    }

    pub closed spec fn spec_backend(&self) -> B {
        *self.backend
    }

    pub closed spec fn level(&self) -> InstrumentationLevel {
        self.instrumentation
    }

    pub fn new(
        backend: Arc<B>,
        namespace: String,
        limit: LimitSpec,
        sink: S,
        instrumentation: InstrumentationLevel,
    ) -> (l: Self)
        ensures
            l.spec_namespace() == namespace@,
            l.spec_limit() == limit,
            l.level() == instrumentation,
            l.spec_backend() == *backend,
    {
        DistributedKeyedLimiter { backend, namespace, limit, sink, instrumentation, _marker: PhantomData }
    }

    /// The backend the limiter consults.
    pub fn backend(&self) -> (b: &Arc<B>)
        ensures
            **b == self.spec_backend(),
    {
        &self.backend
    }

    /// The namespace isolating this limiter's keys in the backend.
    pub fn namespace(&self) -> (s: &str)
        ensures
            s@ == self.spec_namespace(),
    {
        self.namespace.as_str()
    }

    /// The fixed-window limit enforced per key.
    pub fn limit(&self) -> (l: LimitSpec)
        ensures
            l == self.spec_limit(),
    {
        self.limit
    }

    /// Finishes a check from the backend's reply: returns
    /// `spec_decision_from_backend(result)` and hands the sink the events of
    /// `completion_event_list` for it; no clause speaks of the sink.
    pub fn complete_check(&self, result: Result<BackendDecision, BackendError>) -> (d: Decision)
        ensures
            d == spec_decision_from_backend(result),
    {
        let decision = decision_from_backend(result);
        emit_all(&self.sink, completion_event_list(self.instrumentation, decision));
        decision
    }

    /// Classifies the backend's reply for an orchestrator that applies its
    /// own failure policy; nothing is reported to the sink.
    pub fn complete_check_outcome(&self, result: Result<BackendDecision, BackendError>) -> (o: DistributedCheckOutcome)
        ensures
            o == spec_outcome_from_backend(result),
    {
        outcome_from_backend(result)
    }
}

} // verus!
