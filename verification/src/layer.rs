//! Rate-limiting layer and middleware of the REST adapter: the shared
//! limiter, the key taken from a request, and what a decision turns into.

use std::sync::Arc;

use vstd::prelude::*;

use crate::models::{nanos_per_sec, Decision, RateLimitKey};

verus! {

/// Holds the limiter shared by every middleware instance it produces.
pub struct RateLimitLayer<L> {
    limiter: Arc<L>,
}

impl<L> RateLimitLayer<L> {
    pub closed spec fn spec_limiter(&self) -> L {
        *self.limiter
    }

    /// Takes an `Arc<L>` so the caller controls sharing explicitly.
    pub fn new(limiter: Arc<L>) -> (l: Self)
        ensures
            l.spec_limiter() == *limiter,
    {
        RateLimitLayer { limiter }
    }

    /// The shared limiter.
    pub fn limiter(&self) -> (l: &Arc<L>)
        ensures
            **l == self.spec_limiter(),
    {
        &self.limiter
    }

    /// Wraps `inner` in a middleware that consults this layer's limiter.
    pub fn layer<Svc>(&self, inner: Svc) -> (m: RateLimitMiddleware<Svc, L>)
        ensures
            m.inner == inner,
            *m.limiter == self.spec_limiter(),
    {
        RateLimitMiddleware { inner, limiter: shared(&self.limiter) }
    }
}

/// `Arc::clone`: another handle to the same value.
#[verifier::external_body]
fn shared<L>(a: &Arc<L>) -> (b: Arc<L>)
    ensures
        *b == **a,
{
    Arc::clone(a)
}

impl<L> Clone for RateLimitLayer<L> {
    fn clone(&self) -> Self {
        RateLimitLayer { limiter: shared(&self.limiter) }
    }
}

/// A service wrapped by the rate limiter.
pub struct RateLimitMiddleware<Svc, L> {
    pub inner: Svc,
    pub limiter: Arc<L>,
}

/// What the middleware does with a request after the limiter decided.
#[derive(Clone, Copy, Debug, PartialEq, Eq, Structural)]
pub enum MiddlewareAction {
    /// Pass the request on to the inner service.
    Forward,
    /// Answer 429 with a `retry-after` header of this many seconds.
    TooManyRequests { retry_after_secs: u128 },
}

/// An allowed request is forwarded; a denied one is answered with 429 and a
/// retry hint in whole seconds, rounded down but at least one.
pub open spec fn spec_middleware_action(decision: Decision) -> MiddlewareAction {
    match decision {
        Decision::Allow => MiddlewareAction::Forward,
        Decision::Deny { retry_after } => {
            let secs = retry_after.nanos / (nanos_per_sec() as u128);
            MiddlewareAction::TooManyRequests { retry_after_secs: if secs < 1 { 1 } else { secs } }
        },
    }
}

pub fn middleware_action(decision: Decision) -> (a: MiddlewareAction)
    ensures
        a == spec_middleware_action(decision),
{
    match decision {
        Decision::Allow => MiddlewareAction::Forward,
        Decision::Deny { retry_after } => {
            let secs = retry_after.as_secs();
            MiddlewareAction::TooManyRequests { retry_after_secs: if secs < 1 { 1 } else { secs } }
        },
    }
}

/// The key of a request: the `x-api-key` header when it is present and
/// readable as text, otherwise "anonymous".
pub fn extract_key(api_key_header: Option<&str>) -> (k: RateLimitKey)
    ensures
        match api_key_header {
            Some(v) => k.0@ == v@,
            None => k.0@ == "anonymous"@,
        },
{
    match api_key_header {
        Some(v) => RateLimitKey(String::from_str(v)),
        None => RateLimitKey(String::from_str("anonymous")),
    }
}

} // verus!
