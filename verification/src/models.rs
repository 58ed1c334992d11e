//! Domain model: rate limits, keys, decisions and instrumentation events.

use governor::Quota;
use vstd::prelude::*;

use crate::gcra::{per_minute_quota, per_second_quota, quota_per_minute, quota_per_second};

verus! {

/// A span of time with nanosecond resolution, used for retry-after hints
/// and backend windows.
#[derive(Clone, Copy, Debug, PartialEq, Eq, PartialOrd, Ord, Hash, Structural)]
pub struct Duration {
    pub nanos: u128,
}

pub open spec fn nanos_per_milli() -> int {
    1_000_000
}

pub open spec fn nanos_per_sec() -> int {
    1_000_000_000
}

impl Duration {
    /// The empty span.
    pub fn zero() -> (d: Duration)
        ensures
            d.nanos == 0,
    {
        Duration { nanos: 0 }
    }

    pub fn from_nanos(nanos: u128) -> (d: Duration)
        ensures
            d.nanos == nanos,
    {
        Duration { nanos }
    }

    pub fn from_millis(millis: u64) -> (d: Duration)
        ensures
            d.nanos == millis * nanos_per_milli(),
    {
        assert(millis * 1_000_000 <= u64::MAX * 1_000_000) by (nonlinear_arith);
        Duration { nanos: (millis as u128) * 1_000_000 }
    }

    pub fn from_secs(secs: u64) -> (d: Duration)
        ensures
            d.nanos == secs * nanos_per_sec(),
    {
        assert(secs * 1_000_000_000 <= u64::MAX * 1_000_000_000) by (nonlinear_arith);
        Duration { nanos: (secs as u128) * 1_000_000_000 }
    }

    pub fn as_nanos(&self) -> (n: u128)
        ensures
            n == self.nanos,
    {
        self.nanos
    }

    /// Whole milliseconds, rounded down.
    pub fn as_millis(&self) -> (n: u128)
        ensures
            n == self.nanos / (nanos_per_milli() as u128),
    {
        self.nanos / 1_000_000
    }

    /// Whole seconds, rounded down.
    pub fn as_secs(&self) -> (n: u128)
        ensures
            n == self.nanos / (nanos_per_sec() as u128),
    {
        self.nanos / 1_000_000_000
    }

    pub fn is_zero(&self) -> (b: bool)
        ensures
            b == (self.nanos == 0),
    {
        self.nanos == 0
    }

    /// The longer of two spans.
    pub fn max(self, other: Duration) -> (d: Duration)
        ensures
            d.nanos == spec_max_nanos(self.nanos, other.nanos),
    {
        if self.nanos >= other.nanos {
            self
        } else {
            other
        }
    }
}

pub open spec fn spec_max_nanos(a: u128, b: u128) -> u128 {
    if a >= b {
        a
    } else {
        b
    }
}

/// Domain-level rate limit definition: a non-zero number of cells per
/// second or per minute.
#[derive(Clone, Copy, Debug, PartialEq, Eq, Structural)]
pub enum RateLimit {
    PerSecond(u32),
    PerMinute(u32),
}

impl RateLimit {
    /// The number of cells allowed per period.
    pub open spec fn cells(self) -> u32 {
        match self {
            RateLimit::PerSecond(n) => n,
            RateLimit::PerMinute(n) => n,
        }
    }

    /// A limit is usable only with a non-zero cell count.
    pub open spec fn wf(self) -> bool {
        self.cells() != 0
    }

    /// The quota of this limit, as `governor` builds it.
    pub open spec fn spec_quota(self) -> Quota {
        match self {
            RateLimit::PerSecond(n) => per_second_quota(n),
            RateLimit::PerMinute(n) => per_minute_quota(n),
        }
    }

    /// `n` cells per second; `None` when `n` is zero.
    pub fn per_second(n: u32) -> (r: Option<Self>)
        ensures
            r is None <==> n == 0,
            r matches Some(l) ==> l == RateLimit::PerSecond(n) && l.wf(),
    {
        if n == 0 {
            None
        } else {
            Some(RateLimit::PerSecond(n))
        }
    }

    /// `n` cells per minute; `None` when `n` is zero.
    pub fn per_minute(n: u32) -> (r: Option<Self>)
        ensures
            r is None <==> n == 0,
            r matches Some(l) ==> l == RateLimit::PerMinute(n) && l.wf(),
    {
        if n == 0 {
            None
        } else {
            Some(RateLimit::PerMinute(n))
        }
    }

    /// The GCRA quota of this limit: `cells` per second or per minute,
    /// with a burst size of `cells`.
    pub fn to_quota(self) -> (q: Quota)
        requires
            self.wf(),
        ensures
            q == self.spec_quota(),
    {
        match self {
            RateLimit::PerSecond(n) => quota_per_second(n),
            RateLimit::PerMinute(n) => quota_per_minute(n),
        }
    }
}

/// The key under which per-key limits are tracked.
#[derive(Clone, Debug, PartialEq, Eq, Hash)]
pub struct RateLimitKey(pub String);

impl RateLimitKey {
    pub fn as_str(&self) -> (s: &str)
        ensures
            s@ == self.0@,
    {
        self.0.as_str()
    }
}

impl AsRef<str> for RateLimitKey {
    fn as_ref(&self) -> (s: &str)
        ensures
            s@ == self.0@,
    {
        self.0.as_str()
    }
}

/// What operation is being evaluated.
#[derive(Clone, Copy, Debug, PartialEq, Eq, Structural)]
pub enum Operation {
    RateLimitCheck,
}

/// The outcome of executing an operation.
#[derive(Clone, Copy, Debug, PartialEq, Eq, Structural)]
pub enum Decision {
    Allow,
    Deny { retry_after: Duration },
}

/// Events emitted by the core during execution.
/// These are structural signals, not metrics.
#[derive(Clone, Copy, Debug, PartialEq, Eq, Structural)]
pub enum Event {
    OperationStarted { operation: Operation },
    OperationCompleted { operation: Operation, decision: Decision },
}

/// Instrumentation levels toggle the granularity of emitted events.
#[derive(Clone, Copy, Debug, PartialEq, Eq, Structural)]
pub enum InstrumentationLevel {
    Off,
    Basic,
    Full,
}

/// The events a limiter hands its sink for one check that produced
/// `decision`: nothing when instrumentation is off, the completion event
/// at `Basic`, and a start event followed by the completion event at `Full`.
pub open spec fn check_events(level: InstrumentationLevel, decision: Decision) -> Seq<Event> {
    let completed = Event::OperationCompleted { operation: Operation::RateLimitCheck, decision };
    match level {
        InstrumentationLevel::Off => Seq::empty(),
        InstrumentationLevel::Basic => seq![completed],
        InstrumentationLevel::Full => seq![
            Event::OperationStarted { operation: Operation::RateLimitCheck },
            completed,
        ],
    }
}

/// The events emitted after an orchestrated check: only the completion
/// event, unless instrumentation is off.
pub open spec fn completion_events(level: InstrumentationLevel, decision: Decision) -> Seq<Event> {
    if level == InstrumentationLevel::Off {
        Seq::empty()
    } else {
        seq![Event::OperationCompleted { operation: Operation::RateLimitCheck, decision }]
    }
}

/// Builds the events of `check_events` in emission order.
pub fn instrumentation_events(level: InstrumentationLevel, decision: Decision) -> (v: Vec<Event>)
    ensures
        v@ == check_events(level, decision),
{
    let mut v: Vec<Event> = Vec::new();
    if level == InstrumentationLevel::Full {
        v.push(Event::OperationStarted { operation: Operation::RateLimitCheck });
    }
    if level != InstrumentationLevel::Off {
        v.push(Event::OperationCompleted { operation: Operation::RateLimitCheck, decision });
    }
    v
}

/// Builds the events of `completion_events`.
pub fn completion_event_list(level: InstrumentationLevel, decision: Decision) -> (v: Vec<Event>)
    ensures
        v@ == completion_events(level, decision),
{
    let mut v: Vec<Event> = Vec::new();
    if level != InstrumentationLevel::Off {
        v.push(Event::OperationCompleted { operation: Operation::RateLimitCheck, decision });
    }
    v
}

} // verus!
