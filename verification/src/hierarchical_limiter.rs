//! Multi-level limiter: a global limit and a per-key limit, both of which
//! must allow a request.

use std::hash::Hash;
use std::sync::Arc;

use governor::Quota;
use vstd::prelude::*;

use crate::direct_limiter::DirectLimiter;
use crate::event_sink::{emit_all, EventSink};
use crate::keyed_limiter::KeyedLimiter;
use crate::models::{completion_event_list, spec_max_nanos, Decision, Duration, InstrumentationLevel};

verus! {

/// The combined decision of the global and the per-key limit: allowed only
/// when both allow; otherwise denied with the largest retry hint among the
/// denying limits.
pub open spec fn spec_hierarchical(global: Decision, key: Decision) -> Decision {
    match (global, key) {
        (Decision::Allow, Decision::Allow) => Decision::Allow,
        (Decision::Deny { retry_after: g }, Decision::Deny { retry_after: k }) => Decision::Deny {
            retry_after: Duration { nanos: spec_max_nanos(g.nanos, k.nanos) },
        },
        (Decision::Deny { retry_after: g }, Decision::Allow) => Decision::Deny { retry_after: g },
        (Decision::Allow, Decision::Deny { retry_after: k }) => Decision::Deny { retry_after: k },
    }
}

/// Combines the global and the per-key decision.
pub fn hierarchical_decision(global: Decision, key: Decision) -> (d: Decision)
    ensures
        d == spec_hierarchical(global, key),
{
    match (global, key) {
        (Decision::Allow, Decision::Allow) => Decision::Allow,
        (Decision::Deny { retry_after: g }, Decision::Deny { retry_after: k }) => Decision::Deny {
            retry_after: g.max(k),
        },
        (Decision::Deny { retry_after: g }, Decision::Allow) => Decision::Deny { retry_after: g },
        (Decision::Allow, Decision::Deny { retry_after: k }) => Decision::Deny { retry_after: k },
    }
}

/// A request passes the hierarchical limiter exactly when it passes both
/// the global and the per-key limit.
pub proof fn hierarchical_allows_iff_both_allow(global: Decision, key: Decision)
    ensures
        spec_hierarchical(global, key) is Allow <==> (global is Allow && key is Allow),
{
}

/// A denial carries the maximum retry hint of the denying limits: it is at
/// least every denying limit's hint and equal to one of them.
pub proof fn hierarchical_retry_after_is_max(global: Decision, key: Decision)
    requires
        global is Deny || key is Deny,
    ensures
        spec_hierarchical(global, key) matches Decision::Deny { retry_after: r } && {
            &&& (global matches Decision::Deny { retry_after: g } ==> g.nanos <= r.nanos)
            &&& (key matches Decision::Deny { retry_after: k } ==> k.nanos <= r.nanos)
            &&& ((global matches Decision::Deny { retry_after: g } && g == r)
                || (key matches Decision::Deny { retry_after: k } && k == r))
        },
{
}

#[verifier::reject_recursive_types(K)]
pub struct HierarchicalLimiter<K: Eq + Hash + Clone, S: EventSink> {
    global: DirectLimiter<Arc<S>>,
    per_key: KeyedLimiter<K, Arc<S>>,
    sink: Arc<S>,
    instrumentation: InstrumentationLevel,
}

impl<K: Eq + Hash + Clone, S: EventSink> HierarchicalLimiter<K, S> {
    pub closed spec fn level(&self) -> InstrumentationLevel {
        self.instrumentation
    }

    /// The quota of the global limit.
    pub closed spec fn global_quota(&self) -> Quota {
        self.global.spec_quota()
    }

    /// The quota of each key's limit.
    pub closed spec fn key_quota(&self) -> Quota {
        self.per_key.spec_quota()
    }

    /// Both sub-limiters and the limiter itself report to the same sink,
    /// at the same instrumentation level.
    pub fn new(global_quota: Quota, key_quota: Quota, sink: S, instrumentation: InstrumentationLevel) -> (l: Self)
        ensures
            l.level() == instrumentation,
            l.global_quota() == global_quota,
            l.key_quota() == key_quota,
    {
        let sink = Arc::new(sink);
        HierarchicalLimiter {
            global: DirectLimiter::new(global_quota, sink.clone(), instrumentation),
            per_key: KeyedLimiter::new(key_quota, sink.clone(), instrumentation),
            sink,
            instrumentation,
        }
    }

    /// Checks the global limit, then the limit of `key`, and combines the
    /// two decisions with `hierarchical_decision`; both sub-checks always
    /// run. The sub-decisions depend on the limiter state and the clock, so
    /// the result is not stated. The combined decision is handed to the
    /// sink as the events of `completion_event_list`.
    pub fn check(&self, key: &K) -> (d: Decision) {
        let global_decision = self.global.check();
        let key_decision = self.per_key.check(key);
        let decision = hierarchical_decision(global_decision, key_decision);
        emit_all(&self.sink, completion_event_list(self.instrumentation, decision));
        decision
    }
}

} // verus!
