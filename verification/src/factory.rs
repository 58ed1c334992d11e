//! Constructors for limiters from domain-level limits.

use std::hash::Hash;

use governor::Quota;
use vstd::prelude::*;

use crate::event_sink::EventSink;
use crate::gcra::{DirectRateLimiter, KeyedRateLimiter};
use crate::hierarchical_limiter::HierarchicalLimiter;
use crate::models::{InstrumentationLevel, RateLimit};

verus! {

/// A direct (un-keyed) GCRA limiter for `limit`.
pub fn direct_limiter(limit: RateLimit) -> (l: DirectRateLimiter)
    requires
        limit.wf(),
    ensures
        l.spec_quota() == limit.spec_quota(),
{
    DirectRateLimiter::new(limit.to_quota())
}

/// A keyed GCRA limiter for `limit`, one state per key.
pub fn keyed_limiter<K: Eq + Hash + Clone>(limit: RateLimit) -> (l: KeyedRateLimiter<K>)
    requires
        limit.wf(),
    ensures
        l.spec_quota() == limit.spec_quota(),
{
    KeyedRateLimiter::new(limit.to_quota())
}

/// A hierarchical limiter with the given global and per-key quotas.
pub fn hierarchical_limiter<K: Eq + Hash + Clone, S: EventSink>(
    global_quota: Quota,
    key_quota: Quota,
    sink: S,
    instrumentation: InstrumentationLevel,
) -> (l: HierarchicalLimiter<K, S>)
    ensures
        l.level() == instrumentation,
        l.global_quota() == global_quota,
        l.key_quota() == key_quota,
{
    HierarchicalLimiter::new(global_quota, key_quota, sink, instrumentation)
}

} // verus!
