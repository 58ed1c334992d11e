use std::num::NonZeroU32;
use std::sync::{Arc, Mutex};

use governor::Quota;

use rate_limit_lab::direct_limiter::{decision_from_gcra, DirectLimiter};
use rate_limit_lab::event_sink::{EventSink, NoopEventSink};
use rate_limit_lab::factory::{hierarchical_limiter, keyed_limiter};
use rate_limit_lab::hierarchical_limiter::hierarchical_decision;
use rate_limit_lab::keyed_limiter::KeyedLimiter;
use rate_limit_lab::models::{
    instrumentation_events, Decision, Duration, Event, InstrumentationLevel, Operation, RateLimit,
    RateLimitKey,
};

#[derive(Clone, Default)]
struct RecordingEventSink {
    events: Arc<Mutex<Vec<Event>>>,
}

impl RecordingEventSink {
    fn events(&self) -> Vec<Event> {
        self.events.lock().unwrap().clone()
    }
}

impl EventSink for RecordingEventSink {
    fn emit(&self, event: Event) {
        self.events.lock().unwrap().push(event);
    }
}

#[test]
fn zero_rate_is_rejected() {
    assert!(RateLimit::per_second(0).is_none());
    assert!(RateLimit::per_minute(0).is_none());
}

#[test]
fn non_zero_rates_are_accepted() {
    assert_eq!(RateLimit::per_second(3), Some(RateLimit::PerSecond(3)));
    assert_eq!(RateLimit::per_minute(7), Some(RateLimit::PerMinute(7)));
}

#[test]
fn allows_within_limit() {
    let quota = Quota::per_second(NonZeroU32::new(2).unwrap());
    let limiter = DirectLimiter::new(quota, NoopEventSink, InstrumentationLevel::Off);

    assert_eq!(limiter.check(), Decision::Allow);
    assert_eq!(limiter.check(), Decision::Allow);
}

#[test]
fn denies_when_exceeded() {
    let quota = Quota::per_second(NonZeroU32::new(1).unwrap());
    let limiter = DirectLimiter::new(quota, NoopEventSink, InstrumentationLevel::Off);

    assert_eq!(limiter.check(), Decision::Allow);

    match limiter.check() {
        Decision::Deny { retry_after } => {
            assert!(retry_after > Duration::zero());
        }
        Decision::Allow => panic!("expected denial"),
    }
}

#[test]
fn keyed_limiter_isolation_keyed_limit_isolated_per_key() {
    let limit = RateLimit::per_second(1).unwrap();
    let limiter = keyed_limiter::<RateLimitKey>(limit);

    let a = RateLimitKey("a".into());
    let b = RateLimitKey("b".into());

    assert!(limiter.check_key(&a).is_ok());
    assert!(limiter.check_key(&a).is_err());

    assert!(limiter.check_key(&b).is_ok());
}

#[test]
fn keyed_limiter_decisions_isolated_per_key() {
    let limit = RateLimit::per_second(1).unwrap();
    let limiter: KeyedLimiter<RateLimitKey, NoopEventSink> =
        KeyedLimiter::new(limit.to_quota(), NoopEventSink, InstrumentationLevel::Off);

    let a = RateLimitKey("a".into());
    let b = RateLimitKey("b".into());

    assert_eq!(limiter.check(&a), Decision::Allow);
    assert!(matches!(limiter.check(&a), Decision::Deny { .. }));

    assert_eq!(limiter.check(&b), Decision::Allow);
}

#[test]
fn hierarchical_allows_if_both_pass() {
    let sink = RecordingEventSink::default();
    let global_limit = RateLimit::per_second(2).unwrap();
    let key_limit = RateLimit::per_second(1).unwrap();

    let limiter = hierarchical_limiter(
        global_limit.to_quota(),
        key_limit.to_quota(),
        sink.clone(),
        InstrumentationLevel::Off,
    );

    let key = RateLimitKey("user1".into());

    // First request: allowed by both.
    assert_eq!(limiter.check(&key), Decision::Allow);

    // Second request: denied by per-key limiter.
    match limiter.check(&key) {
        Decision::Deny { retry_after } => {
            assert!(retry_after > Duration::zero());
            assert!(retry_after <= Duration::from_secs(1));
        }
        Decision::Allow => panic!("expected deny due to per-key rate limit"),
    }
}

#[test]
fn hierarchical_denies_if_global_exceeded() {
    let sink = RecordingEventSink::default();
    let global_limit = RateLimit::per_second(1).unwrap();
    let key_limit = RateLimit::per_second(5).unwrap();

    let limiter = hierarchical_limiter(
        global_limit.to_quota(),
        key_limit.to_quota(),
        sink.clone(),
        InstrumentationLevel::Off,
    );

    let key1 = RateLimitKey("user1".into());
    let key2 = RateLimitKey("user2".into());

    assert_eq!(limiter.check(&key1), Decision::Allow);

    match limiter.check(&key2) {
        Decision::Deny { retry_after } => assert!(retry_after > Duration::zero()),
        Decision::Allow => panic!("expected global denial"),
    }
}

#[test]
fn hierarchical_denies_if_key_exceeded() {
    let sink = RecordingEventSink::default();
    let global_limit = RateLimit::per_second(5).unwrap();
    let key_limit = RateLimit::per_second(1).unwrap();

    let limiter = hierarchical_limiter(
        global_limit.to_quota(),
        key_limit.to_quota(),
        sink.clone(),
        InstrumentationLevel::Off,
    );

    let key = RateLimitKey("user1".into());

    assert_eq!(limiter.check(&key), Decision::Allow);

    match limiter.check(&key) {
        Decision::Deny { retry_after } => assert!(retry_after > Duration::zero()),
        Decision::Allow => panic!("expected key-level denial"),
    }
}

#[test]
fn hierarchical_full_instrumentation_reports_every_level() {
    let sink = RecordingEventSink::default();
    let limiter = hierarchical_limiter(
        RateLimit::per_second(5).unwrap().to_quota(),
        RateLimit::per_second(5).unwrap().to_quota(),
        sink.clone(),
        InstrumentationLevel::Full,
    );
    assert_eq!(limiter.check(&RateLimitKey("k".into())), Decision::Allow);
    let started = Event::OperationStarted { operation: Operation::RateLimitCheck };
    let completed = Event::OperationCompleted {
        operation: Operation::RateLimitCheck,
        decision: Decision::Allow,
    };
    assert_eq!(
        sink.events(),
        vec![started, completed, started, completed, completed]
    );
}

#[test]
fn records_allow_events() {
    let quota = Quota::per_second(NonZeroU32::new(2).unwrap());
    let sink = RecordingEventSink::default();
    let limiter = DirectLimiter::new(quota, sink.clone(), InstrumentationLevel::Full);

    assert_eq!(limiter.check(), Decision::Allow);
    assert_eq!(limiter.check(), Decision::Allow);

    let events = sink.events();
    assert_eq!(
        events,
        vec![
            Event::OperationStarted {
                operation: Operation::RateLimitCheck
            },
            Event::OperationCompleted {
                operation: Operation::RateLimitCheck,
                decision: Decision::Allow
            },
            Event::OperationStarted {
                operation: Operation::RateLimitCheck
            },
            Event::OperationCompleted {
                operation: Operation::RateLimitCheck,
                decision: Decision::Allow
            }
        ]
    );
}

#[test]
fn records_deny_event_with_retry_after() {
    let quota = Quota::per_second(NonZeroU32::new(1).unwrap());
    let sink = RecordingEventSink::default();
    let limiter = DirectLimiter::new(quota, sink.clone(), InstrumentationLevel::Full);

    assert_eq!(limiter.check(), Decision::Allow);

    match limiter.check() {
        Decision::Deny { retry_after } => {
            assert!(retry_after > Duration::zero());
        }
        Decision::Allow => panic!("expected denial"),
    }

    let events = sink.events();
    assert_eq!(events.len(), 4);

    match &events[3] {
        Event::OperationCompleted {
            operation: Operation::RateLimitCheck,
            decision: Decision::Deny { retry_after },
        } => {
            assert!(*retry_after > Duration::zero());
        }
        other => panic!("unexpected event: {:?}", other),
    }
}

#[test]
fn instrumentation_off_emits_no_events() {
    let sink = RecordingEventSink::default();
    let limiter = DirectLimiter::new(
        Quota::per_second(NonZeroU32::new(1).unwrap()),
        sink.clone(),
        InstrumentationLevel::Off,
    );

    limiter.check();
    assert!(sink.events().is_empty());
}

#[test]
fn instrumentation_basic_emits_completed_only() {
    let sink = RecordingEventSink::default();
    let limiter = DirectLimiter::new(
        Quota::per_second(NonZeroU32::new(1).unwrap()),
        sink.clone(),
        InstrumentationLevel::Basic,
    );

    limiter.check();

    let events = sink.events();
    assert_eq!(events.len(), 1);
    assert!(matches!(events[0], Event::OperationCompleted { .. }));
}

#[test]
fn instrumentation_full_emits_start_and_complete() {
    let sink = RecordingEventSink::default();

    let limiter = DirectLimiter::new(
        Quota::per_second(NonZeroU32::new(1).unwrap()),
        sink.clone(),
        InstrumentationLevel::Full,
    );

    limiter.check();

    let events = sink.events();
    assert_eq!(events.len(), 2);
    assert!(matches!(events[0], Event::OperationStarted { .. }));
    assert!(matches!(events[1], Event::OperationCompleted { .. }));
}

#[test]
fn instrumentation_events_by_level() {
    let deny = Decision::Deny { retry_after: Duration::from_millis(5) };
    assert!(instrumentation_events(InstrumentationLevel::Off, deny).is_empty());
    assert_eq!(
        instrumentation_events(InstrumentationLevel::Basic, deny),
        vec![Event::OperationCompleted { operation: Operation::RateLimitCheck, decision: deny }]
    );
    assert_eq!(instrumentation_events(InstrumentationLevel::Full, deny).len(), 2);
}

#[test]
fn gcra_outcomes_map_to_decisions() {
    assert_eq!(decision_from_gcra(Ok(())), Decision::Allow);
    assert_eq!(
        decision_from_gcra(Err(Duration::from_millis(250))),
        Decision::Deny { retry_after: Duration::from_nanos(250_000_000) }
    );
}

#[test]
fn hierarchical_decision_keeps_largest_retry_after() {
    let d10 = Decision::Deny { retry_after: Duration::from_millis(10) };
    let d20 = Decision::Deny { retry_after: Duration::from_millis(20) };
    assert_eq!(hierarchical_decision(Decision::Allow, Decision::Allow), Decision::Allow);
    assert_eq!(hierarchical_decision(d10, Decision::Allow), d10);
    assert_eq!(hierarchical_decision(Decision::Allow, d20), d20);
    assert_eq!(hierarchical_decision(d10, d20), d20);
    assert_eq!(hierarchical_decision(d20, d10), d20);
}

#[test]
fn duration_conversions() {
    let d = Duration::from_millis(1500);
    assert_eq!(d.as_nanos(), 1_500_000_000);
    assert_eq!(d.as_millis(), 1500);
    assert_eq!(d.as_secs(), 1);
    assert_eq!(Duration::from_secs(2).max(d), Duration::from_secs(2));
    assert!(Duration::zero().is_zero());
}

#[test]
fn limits_become_governor_quotas() {
    let q = RateLimit::per_second(5).expect("non-zero").to_quota();
    assert_eq!(q.burst_size().get(), 5);
    assert_eq!(q.replenish_interval(), std::time::Duration::from_millis(200));
    let m = RateLimit::per_minute(3).expect("non-zero").to_quota();
    assert_eq!(m.burst_size().get(), 3);
    assert_eq!(m.replenish_interval(), std::time::Duration::from_secs(20));
}
