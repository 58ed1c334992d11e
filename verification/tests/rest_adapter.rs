use std::sync::Arc;

use rate_limit_lab::config::{
    ConfigError, DistributedConfig, HybridConfig, HybridFailurePolicyMode, InstrumentationMode,
    LimiterVariant, LimitsConfig, ObservabilityConfig, RestServerConfig,
};
use rate_limit_lab::hybrid::DistributedFailurePolicy;
use rate_limit_lab::layer::{extract_key, middleware_action, MiddlewareAction, RateLimitLayer};
use rate_limit_lab::models::{Decision, Duration, InstrumentationLevel};
use rate_limit_lab::observability::{metrics_payload, record_request, RequestMetrics};

#[test]
fn observability_defaults_to_disabled() {
    let cfg = RestServerConfig::default();
    assert!(!cfg.observability_enabled());
}

#[test]
fn observability_enabled_when_configured() {
    let mut cfg = RestServerConfig::default();
    cfg.observability = Some(ObservabilityConfig { enabled: true });
    assert!(cfg.observability_enabled());
    cfg.observability = Some(ObservabilityConfig { enabled: false });
    assert!(!cfg.observability_enabled());
}

#[test]
fn metrics_payload_reflects_recorded_values() {
    let mut metrics = RequestMetrics::new();
    record_request(&mut metrics, false, 2500);
    record_request(&mut metrics, true, 1500);

    let text = metrics_payload(&metrics);
    assert!(text.contains("rl_requests_total 2"));
    assert!(text.contains("rl_denies_total 1"));
    assert!(text.contains("rl_request_latency_ms 1.500"));
}

#[test]
fn metrics_payload_contains_required_metric_families() {
    let text = metrics_payload(&RequestMetrics::new());
    assert!(text.contains("# HELP rl_requests_total"));
    assert!(text.contains("# HELP rl_denies_total"));
    assert!(text.contains("# HELP rl_request_latency_ms"));
}

#[test]
fn metrics_payload_exact_text() {
    let metrics = RequestMetrics { requests_total: 12, denies_total: 3, latency_micros: 7 };
    assert_eq!(
        metrics_payload(&metrics),
        "# HELP rl_requests_total Total requests observed by REST adapter.\n\
         # TYPE rl_requests_total counter\n\
         rl_requests_total 12\n\
         # HELP rl_denies_total Total denied requests by REST adapter.\n\
         # TYPE rl_denies_total counter\n\
         rl_denies_total 3\n\
         # HELP rl_request_latency_ms Request latency in milliseconds.\n\
         # TYPE rl_request_latency_ms gauge\n\
         rl_request_latency_ms 0.007\n"
    );
}

#[test]
fn record_request_wraps_counters() {
    let mut metrics = RequestMetrics { requests_total: u64::MAX, denies_total: 4, latency_micros: 9 };
    record_request(&mut metrics, false, 123_456);
    assert_eq!(metrics, RequestMetrics { requests_total: 0, denies_total: 4, latency_micros: 123_456 });
}

fn config_with(limits: Option<LimitsConfig>, distributed: Option<DistributedConfig>) -> RestServerConfig {
    let mut cfg = RestServerConfig::default();
    cfg.limits = limits;
    cfg.distributed = distributed;
    cfg
}

#[test]
fn validation_reports_each_error() {
    let ok_limits = Some(LimitsConfig { global_per_second: 10, per_key_per_second: 5 });
    let ok_dist = Some(DistributedConfig { namespace: "rest".into(), window_ms: 1000, max: 5 });

    assert_eq!(
        config_with(None, None).validate_for_enabled_feature(LimiterVariant::InMemory),
        Err(ConfigError::MissingInMemoryLimits)
    );
    assert_eq!(
        config_with(Some(LimitsConfig { global_per_second: 0, per_key_per_second: 5 }), None)
            .validate_for_enabled_feature(LimiterVariant::InMemory),
        Err(ConfigError::InvalidLimitValue { name: "global_per_second", value: 0 })
    );
    assert_eq!(
        config_with(Some(LimitsConfig { global_per_second: 3, per_key_per_second: 0 }), None)
            .validate_for_enabled_feature(LimiterVariant::InMemory),
        Err(ConfigError::InvalidLimitValue { name: "per_key_per_second", value: 0 })
    );
    assert_eq!(
        config_with(ok_limits, None).validate_for_enabled_feature(LimiterVariant::Distributed),
        Err(ConfigError::MissingDistributedConfig)
    );
    assert_eq!(
        config_with(None, Some(DistributedConfig { namespace: "n".into(), window_ms: 0, max: 5 }))
            .validate_for_enabled_feature(LimiterVariant::Distributed),
        Err(ConfigError::InvalidLimitValue { name: "distributed.window_ms", value: 0 })
    );
    assert_eq!(
        config_with(None, Some(DistributedConfig { namespace: "n".into(), window_ms: 5, max: 0 }))
            .validate_for_enabled_feature(LimiterVariant::Distributed),
        Err(ConfigError::InvalidLimitValue { name: "distributed.max", value: 0 })
    );
    assert_eq!(
        config_with(None, ok_dist.clone()).validate_for_enabled_feature(LimiterVariant::Hybrid),
        Err(ConfigError::MissingInMemoryLimits)
    );
    assert_eq!(
        config_with(ok_limits, ok_dist).validate_for_enabled_feature(LimiterVariant::Hybrid),
        Ok(())
    );
}

#[test]
fn config_error_messages() {
    assert_eq!(
        ConfigError::MissingInMemoryLimits.message(),
        "missing [limits] configuration for in_memory_limiter"
    );
    assert_eq!(
        ConfigError::MissingDistributedConfig.message(),
        "missing [distributed] configuration for this limiter"
    );
    assert_eq!(
        ConfigError::InvalidLimitValue { name: "distributed.max", value: 0 }.message(),
        "limit `distributed.max` must be non-zero (found 0)"
    );
}

#[test]
fn config_accessors() {
    let mut cfg = RestServerConfig::default();
    assert_eq!(cfg.bind_address, "127.0.0.1:3000");
    assert_eq!(cfg.instrumentation_level(), InstrumentationLevel::Off);
    cfg.instrumentation = InstrumentationMode::Full;
    assert_eq!(cfg.instrumentation_level(), InstrumentationLevel::Full);
    assert_eq!(cfg.distributed_window(), None);
    assert!(cfg.require_distributed().is_err());
    assert_eq!(cfg.require_limits().unwrap().global_per_second, 1_000);
    cfg.distributed = Some(DistributedConfig { namespace: "ns".into(), window_ms: 250, max: 9 });
    assert_eq!(cfg.distributed_window(), Some(Duration::from_millis(250)));
    assert_eq!(cfg.require_distributed().unwrap().max, 9);
    assert_eq!(cfg.hybrid_failure_policy(), DistributedFailurePolicy::FailOpen);
    cfg.hybrid = Some(HybridConfig { failure_policy: Some(HybridFailurePolicyMode::FailClosed) });
    assert_eq!(cfg.hybrid_failure_policy(), DistributedFailurePolicy::FailClosed);
}

#[test]
fn middleware_maps_decisions() {
    assert_eq!(middleware_action(Decision::Allow), MiddlewareAction::Forward);
    assert_eq!(
        middleware_action(Decision::Deny { retry_after: Duration::from_millis(10) }),
        MiddlewareAction::TooManyRequests { retry_after_secs: 1 }
    );
    assert_eq!(
        middleware_action(Decision::Deny { retry_after: Duration::from_millis(2500) }),
        MiddlewareAction::TooManyRequests { retry_after_secs: 2 }
    );
}

#[test]
fn key_extraction_falls_back_to_anonymous() {
    assert_eq!(extract_key(Some("user_allow")).0, "user_allow");
    assert_eq!(extract_key(None).0, "anonymous");
}

#[test]
fn layer_shares_limiter() {
    let layer = RateLimitLayer::new(Arc::new(41u32));
    let copy = layer.clone();
    let middleware = copy.layer("svc");
    assert_eq!(*middleware.limiter, 41);
    assert_eq!(middleware.inner, "svc");
    assert!(Arc::ptr_eq(layer.limiter(), copy.limiter()));
}
