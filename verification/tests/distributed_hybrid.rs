use std::sync::{Arc, Mutex};

use rate_limit_lab::distributed::{backend_error_retry_after, outcome_from_backend, DistributedCheckOutcome, DistributedKeyedLimiter};
use rate_limit_lab::event_sink::{EventSink, NoopEventSink};
use rate_limit_lab::hybrid::{
    combine_decisions, map_distributed_outcome_to_decision, DistributedFailurePolicy, HybridLimiter,
    HybridLimiterConfig, HybridStep,
};
use rate_limit_lab::models::{Decision, Duration, Event, InstrumentationLevel, Operation};
use rate_limit_lab::state_backend::{
    fixed_window_result,
    decode_fixed_window_response, redis_key, window_millis, BackendDecision, BackendError, LimitSpec,
};

#[derive(Clone, Default)]
struct RecordingEventSink {
    events: Arc<Mutex<Vec<Event>>>,
}

impl RecordingEventSink {
    fn events(&self) -> Vec<Event> {
        self.events.lock().unwrap().clone()
    }
}

impl EventSink for RecordingEventSink {
    fn emit(&self, event: Event) {
        self.events.lock().unwrap().push(event);
    }
}

fn limit() -> LimitSpec {
    LimitSpec { window: Duration::from_secs(1), max: 1 }
}

fn limiter<S: EventSink>(sink: S, level: InstrumentationLevel) -> DistributedKeyedLimiter<String, (), S> {
    DistributedKeyedLimiter::new(Arc::new(()), "test".to_string(), limit(), sink, level)
}

#[test]
fn allows_when_backend_allows() {
    let limiter = limiter(NoopEventSink, InstrumentationLevel::Off);
    let decision = limiter.complete_check(Ok(BackendDecision::Allow));
    assert_eq!(decision, Decision::Allow);
}

#[test]
fn denies_when_backend_denies() {
    let limiter = limiter(NoopEventSink, InstrumentationLevel::Off);
    let decision = limiter.complete_check(Ok(BackendDecision::Deny {
        retry_after: Duration::from_millis(123),
    }));
    assert_eq!(decision, Decision::Deny { retry_after: Duration::from_millis(123) });
}

#[test]
fn denies_with_backend_error_retry_after() {
    let limiter = limiter(NoopEventSink, InstrumentationLevel::Off);
    let decision = limiter.complete_check(Err(BackendError::InvalidResponse));
    assert_eq!(decision, Decision::Deny { retry_after: Duration::from_millis(50) });
}

#[test]
fn instrumentation_emits_completed_event() {
    let sink = RecordingEventSink::default();
    let limiter = limiter(sink.clone(), InstrumentationLevel::Basic);
    let decision = limiter.complete_check(Ok(BackendDecision::Allow));
    assert_eq!(decision, Decision::Allow);

    let events = sink.events();
    assert_eq!(events.len(), 1);
    assert_eq!(
        events[0],
        Event::OperationCompleted { operation: Operation::RateLimitCheck, decision: Decision::Allow }
    );
}

#[test]
fn distributed_limiter_keeps_configuration() {
    let l = limiter(NoopEventSink, InstrumentationLevel::Off);
    assert_eq!(l.namespace(), "test");
    assert_eq!(l.limit(), limit());
}

#[test]
fn backend_outcomes_are_classified() {
    assert_eq!(outcome_from_backend(Ok(BackendDecision::Allow)), DistributedCheckOutcome::Allow);
    assert_eq!(
        outcome_from_backend(Err(BackendError::Redis("down".into()))),
        DistributedCheckOutcome::BackendError { retry_after: backend_error_retry_after() }
    );
}

#[test]
fn fixed_window_replies_decode() {
    assert_eq!(decode_fixed_window_response(&vec![1, 0]), Ok(BackendDecision::Allow));
    assert_eq!(
        decode_fixed_window_response(&vec![0, 750]),
        Ok(BackendDecision::Deny { retry_after: Duration::from_millis(750) })
    );
    assert_eq!(
        decode_fixed_window_response(&vec![0, -2]),
        Ok(BackendDecision::Deny { retry_after: Duration::zero() })
    );
    assert_eq!(decode_fixed_window_response(&vec![1]), Err(BackendError::InvalidResponse));
}

#[test]
fn store_keys_and_windows() {
    assert_eq!(redis_key("rl", "test", "user1"), "rl:test:user1");
    assert_eq!(window_millis(limit()), 1000);
    let huge = LimitSpec { window: Duration::from_nanos(u128::MAX), max: 1 };
    assert_eq!(window_millis(huge), i64::MAX);
}

fn d(ms: u64) -> Decision {
    Decision::Deny { retry_after: Duration::from_millis(ms) }
}

fn hybrid(
    sink: RecordingEventSink,
    level: InstrumentationLevel,
    policy: DistributedFailurePolicy,
) -> HybridLimiter<(), (), String, RecordingEventSink> {
    let config = HybridLimiterConfig::new((), (), sink)
        .with_instrumentation(level)
        .with_failure_policy(policy);
    HybridLimiter::new(config)
}

fn run(h: &HybridLimiter<(), (), String, RecordingEventSink>, local: Decision, outcome: DistributedCheckOutcome) -> Decision {
    match h.after_local(local, None) {
        HybridStep::Done(decision) => decision,
        HybridStep::AwaitDistributed => h.after_distributed(local, Some(outcome)),
    }
}

#[test]
fn local_and_distributed_allow() {
    let h = hybrid(RecordingEventSink::default(), InstrumentationLevel::Off, DistributedFailurePolicy::FailOpen);
    assert_eq!(Decision::Allow, run(&h, Decision::Allow, DistributedCheckOutcome::Allow));
}

#[test]
fn local_denies_immediately() {
    let h = hybrid(RecordingEventSink::default(), InstrumentationLevel::Off, DistributedFailurePolicy::FailOpen);
    assert_eq!(d(10), run(&h, d(10), DistributedCheckOutcome::Allow));
}

#[test]
fn distributed_denies_when_local_allows() {
    let h = hybrid(RecordingEventSink::default(), InstrumentationLevel::Off, DistributedFailurePolicy::FailOpen);
    assert_eq!(
        d(20),
        run(&h, Decision::Allow, DistributedCheckOutcome::Deny { retry_after: Duration::from_millis(20) })
    );
}

#[test]
fn max_retry_after_when_both_deny() {
    let h = hybrid(RecordingEventSink::default(), InstrumentationLevel::Off, DistributedFailurePolicy::FailOpen);
    let outcome = DistributedCheckOutcome::Deny { retry_after: Duration::from_millis(20) };
    assert_eq!(h.after_local(d(10), Some(outcome)), HybridStep::Done(d(20)));
}

#[test]
fn distributed_backend_error_obeys_fail_open() {
    let h = hybrid(RecordingEventSink::default(), InstrumentationLevel::Off, DistributedFailurePolicy::FailOpen);
    assert_eq!(
        Decision::Allow,
        run(&h, Decision::Allow, DistributedCheckOutcome::BackendError { retry_after: Duration::from_millis(50) })
    );
}

#[test]
fn distributed_backend_error_obeys_fail_closed() {
    let h = hybrid(RecordingEventSink::default(), InstrumentationLevel::Off, DistributedFailurePolicy::FailClosed);
    assert_eq!(
        d(50),
        run(&h, Decision::Allow, DistributedCheckOutcome::BackendError { retry_after: Duration::from_millis(50) })
    );
}

#[test]
fn failed_distributed_task_counts_as_backend_error() {
    let closed = hybrid(RecordingEventSink::default(), InstrumentationLevel::Off, DistributedFailurePolicy::FailClosed);
    assert_eq!(closed.after_distributed(Decision::Allow, None), d(50));
    let open = hybrid(RecordingEventSink::default(), InstrumentationLevel::Off, DistributedFailurePolicy::FailOpen);
    assert_eq!(open.after_distributed(Decision::Allow, None), Decision::Allow);
}

#[test]
fn instrumentation_emits_operation_completed() {
    let sink = RecordingEventSink::default();
    let h = hybrid(sink.clone(), InstrumentationLevel::Basic, DistributedFailurePolicy::FailOpen);
    assert_eq!(Decision::Allow, run(&h, Decision::Allow, DistributedCheckOutcome::Allow));
    let events = sink.events();
    assert_eq!(1, events.len());
    assert!(matches!(events[0], Event::OperationCompleted { .. }));
}

#[test]
fn hybrid_configuration_defaults_and_overrides() {
    let config = HybridLimiterConfig::new(1u8, 2u8, NoopEventSink);
    assert_eq!(config.instrumentation, InstrumentationLevel::Off);
    assert_eq!(config.failure_policy, DistributedFailurePolicy::FailOpen);
    let h: HybridLimiter<u8, u8, String, NoopEventSink> = HybridLimiter::new(
        config.with_instrumentation(InstrumentationLevel::Full).with_failure_policy(DistributedFailurePolicy::FailClosed),
    );
    assert_eq!(h.instrumentation(), InstrumentationLevel::Full);
    assert_eq!(h.failure_policy(), DistributedFailurePolicy::FailClosed);
    assert_eq!(**h.local(), 1);
    assert_eq!(**h.distributed(), 2);
    assert_eq!(DistributedFailurePolicy::default(), DistributedFailurePolicy::FailOpen);
}

#[test]
fn combining_laws_on_values() {
    let all = [Decision::Allow, d(5), d(30)];
    for a in all {
        assert_eq!(combine_decisions(Decision::Allow, a), a);
        for b in all {
            assert_eq!(combine_decisions(a, b), combine_decisions(b, a));
            for c in all {
                assert_eq!(
                    combine_decisions(combine_decisions(a, b), c),
                    combine_decisions(a, combine_decisions(b, c))
                );
            }
        }
    }
    let err = DistributedCheckOutcome::BackendError { retry_after: Duration::from_millis(7) };
    assert_eq!(map_distributed_outcome_to_decision(err, DistributedFailurePolicy::FailOpen), Decision::Allow);
    assert_eq!(map_distributed_outcome_to_decision(err, DistributedFailurePolicy::FailClosed), d(7));
}

#[test]
fn store_client_outcomes_become_results() {
    assert_eq!(
        fixed_window_result(Err("connection refused".to_string())),
        Err(BackendError::Redis("connection refused".to_string()))
    );
    assert_eq!(fixed_window_result(Ok(vec![1, 0])), Ok(BackendDecision::Allow));
    assert_eq!(
        fixed_window_result(Ok(vec![0, 250])),
        Ok(BackendDecision::Deny { retry_after: Duration::from_millis(250) })
    );
    assert_eq!(fixed_window_result(Ok(vec![1])), Err(BackendError::InvalidResponse));
}
