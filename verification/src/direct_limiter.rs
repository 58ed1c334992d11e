//! Un-keyed limiter: one GCRA state shared by every caller.

use governor::Quota;
use vstd::prelude::*;

use crate::event_sink::{emit_all, EventSink};
use crate::gcra::DirectRateLimiter;
use crate::models::{instrumentation_events, Decision, Duration, InstrumentationLevel};

verus! {

/// The decision for a GCRA outcome: a conforming cell is allowed, a
/// non-conforming one is denied with the reported wait as retry hint.
pub open spec fn spec_decision_from_gcra(outcome: Result<(), Duration>) -> Decision {
    match outcome {
        Ok(()) => Decision::Allow,
        Err(wait) => Decision::Deny { retry_after: wait },
    }
}

/// Maps a GCRA outcome to a decision.
pub fn decision_from_gcra(outcome: Result<(), Duration>) -> (d: Decision)
    ensures
        d == spec_decision_from_gcra(outcome),
{
    match outcome {
        Ok(()) => Decision::Allow,
        Err(wait) => Decision::Deny { retry_after: wait },
    }
}

pub struct DirectLimiter<S: EventSink> {
    limiter: DirectRateLimiter,
    sink: S,
    instrumentation: InstrumentationLevel,
}

impl<S: EventSink> DirectLimiter<S> {
    pub closed spec fn level(&self) -> InstrumentationLevel {
        self.instrumentation
    }

    /// The quota this limiter enforces.
    pub closed spec fn spec_quota(&self) -> Quota {
        self.limiter.spec_quota()
    }

    pub fn new(quota: Quota, sink: S, instrumentation: InstrumentationLevel) -> (l: Self)
        ensures
            l.level() == instrumentation,
            l.spec_quota() == quota,
    {
        DirectLimiter { limiter: DirectRateLimiter::new(quota), sink, instrumentation }
    }

    /// Checks one request against the limit and hands the sink the events
    /// of `instrumentation_events` for the decision. Whether the request
    /// conforms depends on the limiter state and the clock, so the decision
    /// is not stated; `decision_from_gcra` states how it is derived.
    pub fn check(&self) -> (d: Decision) {
        let outcome = self.limiter.check();
        let decision = decision_from_gcra(outcome);
        emit_all(&self.sink, instrumentation_events(self.instrumentation, decision));
        decision
    }
}

} // verus!
