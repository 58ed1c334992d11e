//! GCRA rate-limiter state kept by the `governor` crate.
//!
//! Whether a cell conforms depends on the state and on the time at which
//! it is checked, so nothing is promised about individual outcomes here:
//! callers are verified for every outcome the state reports.

use std::hash::Hash;
use std::num::NonZeroU32;

use governor::clock::{Clock, DefaultClock};
use governor::middleware::NoOpMiddleware;
use governor::state::keyed::DashMapStateStore;
use governor::state::{InMemoryState, NotKeyed};
use governor::{Quota, RateLimiter};
use vstd::prelude::*;

use crate::models::Duration;

verus! {

/// `governor::Quota`: a burst size and a replenishment interval.
#[verifier::external_type_specification]
#[verifier::external_body]
pub struct ExQuota(Quota);

/// The in-memory GCRA state of one un-keyed limit, read and updated
/// atomically by `governor`.
#[verifier::external_body]
pub struct DirectGcraState {
    limiter: RateLimiter<NotKeyed, InMemoryState, DefaultClock, NoOpMiddleware>,
}

/// The in-memory GCRA states of a keyed limit, one per key, held in a
/// concurrent map by `governor`.
#[verifier::external_body]
#[verifier::reject_recursive_types(K)]
pub struct KeyedGcraState<K: Eq + Hash + Clone> {
    limiter: RateLimiter<K, DashMapStateStore<K>, DefaultClock, NoOpMiddleware>,
}

/// An un-keyed GCRA limiter, with the quota it enforces.
pub struct DirectRateLimiter {
    state: DirectGcraState,
    quota: Ghost<Quota>,
}

/// A keyed GCRA limiter, with the quota it enforces for every key.
#[verifier::reject_recursive_types(K)]
pub struct KeyedRateLimiter<K: Eq + Hash + Clone> {
    state: KeyedGcraState<K>,
    quota: Ghost<Quota>,
}

/// The quota `governor::Quota::per_second` builds for `cells`.
pub uninterp spec fn per_second_quota(cells: u32) -> Quota;

/// The quota `governor::Quota::per_minute` builds for `cells`.
pub uninterp spec fn per_minute_quota(cells: u32) -> Quota;

/// `governor::Quota::per_second`: a quota of `cells` per second, which is
/// also its burst size. The result is named, a function of `cells` alone;
/// nothing else is claimed of it.
#[verifier::external_body]
pub(crate) fn quota_per_second(cells: u32) -> (q: Quota)
    requires
        cells != 0,
    ensures
        q == per_second_quota(cells),
{
    Quota::per_second(NonZeroU32::new(cells).unwrap())
}

/// `governor::Quota::per_minute`: a quota of `cells` per minute, which is
/// also its burst size. The result is named, a function of `cells` alone;
/// nothing else is claimed of it.
#[verifier::external_body]
pub(crate) fn quota_per_minute(cells: u32) -> (q: Quota)
    requires
        cells != 0,
    ensures
        q == per_minute_quota(cells),
{
    Quota::per_minute(NonZeroU32::new(cells).unwrap())
}

impl DirectGcraState {
    /// `governor::RateLimiter::direct`: fresh state for `quota` on the
    /// default clock.
    #[verifier::external_body]
    pub(crate) fn new(quota: Quota) -> Self {
        DirectGcraState { limiter: RateLimiter::direct(quota) }
    }

    /// `governor::RateLimiter::check`: tests one cell and updates the state.
    /// `Ok` when the cell conforms; otherwise the wait until it could,
    /// measured from the current time by `NotUntil::wait_time_from`.
    /// The outcome depends on the clock, so no clause is given.
    #[verifier::external_body]
    fn gcra_check(&self) -> Result<(), Duration> {
        match self.limiter.check() {
            Ok(()) => Ok(()),
            Err(not_until) => Err(Duration {
                nanos: not_until.wait_time_from(DefaultClock::default().now()).as_nanos(),
            }),
        }
    }
}

impl DirectRateLimiter {
    /// The quota this limiter enforces.
    pub closed spec fn spec_quota(&self) -> Quota {
        self.quota@
    }

    /// A limiter with fresh state that enforces `quota`.
    pub(crate) fn new(quota: Quota) -> (l: Self)
        ensures
            l.spec_quota() == quota,
    {
        DirectRateLimiter { state: DirectGcraState::new(quota), quota: Ghost(quota) }
    }

    /// Tests one cell against the limit: `Ok` when it conforms, otherwise
    /// the wait before a cell could conform.
    pub fn check(&self) -> Result<(), Duration> {
        self.state.gcra_check()
    }
}

impl<K: Eq + Hash + Clone> KeyedRateLimiter<K> {
    /// The quota this limiter enforces for every key.
    pub closed spec fn spec_quota(&self) -> Quota {
        self.quota@
    }

    /// A limiter with fresh state for every key that enforces `quota`.
    pub(crate) fn new(quota: Quota) -> (l: Self)
        ensures
            l.spec_quota() == quota,
    {
        KeyedRateLimiter { state: KeyedGcraState::new(quota), quota: Ghost(quota) }
    }

    /// Tests one cell under `key`: `Ok` when it conforms, otherwise the
    /// wait before a cell under that key could conform.
    pub fn check_key(&self, key: &K) -> Result<(), Duration> {
        self.state.gcra_check_key(key)
    }
}

impl<K: Eq + Hash + Clone> KeyedGcraState<K> {
    /// `governor::RateLimiter::keyed`: fresh per-key state for `quota` on
    /// the default clock, backed by a concurrent map.
    #[verifier::external_body]
    pub(crate) fn new(quota: Quota) -> Self {
        KeyedGcraState { limiter: RateLimiter::keyed(quota) }
    }

    /// `governor::RateLimiter::check_key`: tests one cell under `key` and
    /// updates that key's state only. `Ok` when the cell conforms; otherwise
    /// the wait until it could, measured from the current time.
    /// The outcome depends on the clock, so no clause is given.
    #[verifier::external_body]
    fn gcra_check_key(&self, key: &K) -> Result<(), Duration> {
        match self.limiter.check_key(key) {
            Ok(()) => Ok(()),
            Err(not_until) => Err(Duration {
                nanos: not_until.wait_time_from(DefaultClock::default().now()).as_nanos(),
            }),
        }
    }
}

} // verus!
