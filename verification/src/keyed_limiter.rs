//! Keyed limiter: an independent GCRA state per key.

use std::hash::Hash;

use governor::Quota;
use vstd::prelude::*;

use crate::direct_limiter::decision_from_gcra;
use crate::event_sink::{emit_all, EventSink};
use crate::gcra::KeyedRateLimiter;
use crate::models::{instrumentation_events, Decision, InstrumentationLevel};

verus! {

#[verifier::reject_recursive_types(K)]
pub struct KeyedLimiter<K: Eq + Hash + Clone, S: EventSink> {
    limiter: KeyedRateLimiter<K>,
    sink: S,
    instrumentation: InstrumentationLevel,
}

impl<K: Eq + Hash + Clone, S: EventSink> KeyedLimiter<K, S> {
    pub closed spec fn level(&self) -> InstrumentationLevel {
        self.instrumentation
    }

    /// The quota this limiter enforces for every key.
    pub closed spec fn spec_quota(&self) -> Quota {
        self.limiter.spec_quota()
    }

    pub fn new(quota: Quota, sink: S, instrumentation: InstrumentationLevel) -> (l: Self)
        ensures
            l.level() == instrumentation,
            l.spec_quota() == quota,
    {
        KeyedLimiter { limiter: KeyedRateLimiter::new(quota), sink, instrumentation }
    }

    /// Checks one request under `key` against that key's limit and hands
    /// the sink the events of `instrumentation_events` for the decision.
    /// The decision depends on the limiter state and the clock, so it is not
    /// stated; `decision_from_gcra` states how it is derived.
    pub fn check(&self, key: &K) -> (d: Decision) {
        let outcome = self.limiter.check_key(key);
        let decision = decision_from_gcra(outcome);
        emit_all(&self.sink, instrumentation_events(self.instrumentation, decision));
        decision
    }
}

} // verus!
