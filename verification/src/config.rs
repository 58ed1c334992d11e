//! REST server configuration and its validation.

use vstd::prelude::*;

use crate::hybrid::DistributedFailurePolicy;
use crate::models::{nanos_per_milli, Duration, InstrumentationLevel};
use crate::text::{append_decimal, append_str, decimal};

verus! {

/// REST server configuration. Defaults apply when no file is given.
#[derive(Clone, Debug)]
pub struct RestServerConfig {
    /// Address to bind the server to, e.g. "127.0.0.1:3000".
    pub bind_address: String,
    /// Key extraction policy.
    pub key_mode: KeyMode,
    /// Header used for key extraction, e.g. "x-api-key".
    pub key_header: String,
    /// Fallback key used when the header is missing.
    pub anonymous_key: String,
    /// Instrumentation level of the limiters.
    pub instrumentation: InstrumentationMode,
    /// Limits used by the in-memory limiter variant.
    pub limits: Option<LimitsConfig>,
    /// Limits used by the distributed limiter variant.
    pub distributed: Option<DistributedConfig>,
    /// Hybrid limiter options.
    pub hybrid: Option<HybridConfig>,
    /// Optional observability options.
    pub observability: Option<ObservabilityConfig>,
}

#[derive(Clone, Copy, Debug, PartialEq, Eq, Structural)]
pub struct LimitsConfig {
    pub global_per_second: u32,
    pub per_key_per_second: u32,
}

#[derive(Clone, Copy, Debug, PartialEq, Eq, Structural)]
pub enum KeyMode {
    /// Prefer `key_header`, fall back to `anonymous_key`.
    HeaderOrAnonymous,
    /// Require `key_header`; if missing, treat as `anonymous_key`.
    HeaderOnly,
    /// Ignore the header and always use `anonymous_key`.
    AnonymousOnly,
}

#[derive(Clone, Copy, Debug, PartialEq, Eq, Structural)]
pub enum InstrumentationMode {
    Off,
    Basic,
    Full,
}

#[derive(Clone, Debug)]
pub struct DistributedConfig {
    pub namespace: String,
    pub window_ms: u64,
    pub max: u32,
}

#[derive(Clone, Copy, Debug, PartialEq, Eq, Structural)]
pub struct HybridConfig {
    pub failure_policy: Option<HybridFailurePolicyMode>,
}

#[derive(Clone, Copy, Debug, PartialEq, Eq, Structural)]
pub struct ObservabilityConfig {
    pub enabled: bool,
}

#[derive(Clone, Copy, Debug, PartialEq, Eq, Structural)]
pub enum HybridFailurePolicyMode {
    FailOpen,
    FailClosed,
}

/// Which limiter the server is built with.
#[derive(Clone, Copy, Debug, PartialEq, Eq, Structural)]
pub enum LimiterVariant {
    InMemory,
    Distributed,
    Hybrid,
}

#[derive(Clone, Copy, Debug, PartialEq, Eq)]
pub enum ConfigError {
    MissingInMemoryLimits,
    MissingDistributedConfig,
    InvalidLimitValue { name: &'static str, value: u32 },
}

/// The human-readable text of a configuration error.
pub open spec fn spec_error_message(e: ConfigError) -> Seq<char> {
    match e {
        ConfigError::MissingInMemoryLimits => "missing [limits] configuration for in_memory_limiter"@,
        ConfigError::MissingDistributedConfig => "missing [distributed] configuration for this limiter"@,
        ConfigError::InvalidLimitValue { name, value } => "limit `"@ + name@ + "` must be non-zero (found "@
            + decimal(value as nat) + ")"@,
    }
}

impl ConfigError {
    /// The text shown for this error.
    pub fn message(&self) -> (s: String)
        ensures
            s@ == spec_error_message(*self),
    {
        match self {
            ConfigError::MissingInMemoryLimits => String::from_str(
                "missing [limits] configuration for in_memory_limiter",
            ),
            ConfigError::MissingDistributedConfig => String::from_str(
                "missing [distributed] configuration for this limiter",
            ),
            ConfigError::InvalidLimitValue { name, value } => {
                let mut s = String::from_str("limit `");
                append_str(&mut s, name);
                append_str(&mut s, "` must be non-zero (found ");
                append_decimal(&mut s, *value as u64);
                append_str(&mut s, ")");
                s
            },
        }
    }
}

/// The in-memory limits are present and non-zero.
pub open spec fn spec_validate_inmemory(limits: Option<LimitsConfig>) -> Result<(), ConfigError> {
    match limits {
        None => Err(ConfigError::MissingInMemoryLimits),
        Some(l) => if l.global_per_second == 0 {
            Err(ConfigError::InvalidLimitValue { name: "global_per_second", value: 0 })
        } else if l.per_key_per_second == 0 {
            Err(ConfigError::InvalidLimitValue { name: "per_key_per_second", value: 0 })
        } else {
            Ok(())
        },
    }
}

/// The distributed settings are present, with a non-zero window and maximum.
pub open spec fn spec_validate_distributed(window_ms: Option<(u64, u32)>) -> Result<(), ConfigError> {
    match window_ms {
        None => Err(ConfigError::MissingDistributedConfig),
        Some((w, m)) => if w == 0 {
            Err(ConfigError::InvalidLimitValue { name: "distributed.window_ms", value: 0 })
        } else if m == 0 {
            Err(ConfigError::InvalidLimitValue { name: "distributed.max", value: 0 })
        } else {
            Ok(())
        },
    }
}

impl RestServerConfig {
    /// The window and maximum of the distributed settings, if present.
    pub open spec fn spec_distributed_limits(&self) -> Option<(u64, u32)> {
        match self.distributed {
            None => None,
            Some(d) => Some((d.window_ms, d.max)),
        }
    }

    /// What validation for `variant` returns: the in-memory limiter needs
    /// valid limits, the distributed one valid distributed settings, and
    /// the hybrid one both, limits first.
    pub open spec fn spec_validate(&self, variant: LimiterVariant) -> Result<(), ConfigError> {
        match variant {
            LimiterVariant::InMemory => spec_validate_inmemory(self.limits),
            LimiterVariant::Distributed => spec_validate_distributed(self.spec_distributed_limits()),
            LimiterVariant::Hybrid => match spec_validate_inmemory(self.limits) {
                Err(e) => Err(e),
                Ok(()) => spec_validate_distributed(self.spec_distributed_limits()),
            },
        }
    }

    /// The level of `rate_limit` instrumentation matching the configured mode.
    pub fn instrumentation_level(&self) -> (l: InstrumentationLevel)
        ensures
            l == match self.instrumentation {
                InstrumentationMode::Off => InstrumentationLevel::Off,
                InstrumentationMode::Basic => InstrumentationLevel::Basic,
                InstrumentationMode::Full => InstrumentationLevel::Full,
            },
    {
        match self.instrumentation {
            InstrumentationMode::Off => InstrumentationLevel::Off,
            InstrumentationMode::Basic => InstrumentationLevel::Basic,
            InstrumentationMode::Full => InstrumentationLevel::Full,
        }
    }

    /// The distributed window as a duration, if distributed settings are present.
    pub fn distributed_window(&self) -> (w: Option<Duration>)
        ensures
            match self.distributed {
                None => w is None,
                Some(d) => w == Some(Duration { nanos: (d.window_ms * nanos_per_milli()) as u128 }),
            },
    {
        match &self.distributed {
            None => None,
            Some(d) => Some(Duration::from_millis(d.window_ms)),
        }
    }

    pub fn require_limits(&self) -> (r: Result<&LimitsConfig, ConfigError>)
        ensures
            match self.limits {
                None => r == Err::<&LimitsConfig, ConfigError>(ConfigError::MissingInMemoryLimits),
                Some(l) => r matches Ok(v) && *v == l,
            },
    {
        match &self.limits {
            None => Err(ConfigError::MissingInMemoryLimits),
            Some(l) => Ok(l),
        }
    }

    pub fn require_distributed(&self) -> (r: Result<&DistributedConfig, ConfigError>)
        ensures
            match self.distributed {
                None => r == Err::<&DistributedConfig, ConfigError>(ConfigError::MissingDistributedConfig),
                Some(d) => r matches Ok(v) && *v == d,
            },
    {
        match &self.distributed {
            None => Err(ConfigError::MissingDistributedConfig),
            Some(d) => Ok(d),
        }
    }

    /// Validates the settings the limiter `variant` needs.
    pub fn validate_for_enabled_feature(&self, variant: LimiterVariant) -> (r: Result<(), ConfigError>)
        ensures
            r == self.spec_validate(variant),
    {
        match variant {
            LimiterVariant::InMemory => self.validate_inmemory_limits(),
            LimiterVariant::Distributed => self.validate_distributed_limits(),
            LimiterVariant::Hybrid => {
                match self.validate_inmemory_limits() {
                    Err(e) => Err(e),
                    Ok(()) => self.validate_distributed_limits(),
                }
            },
        }
    }

    /// Whether the observability endpoint is enabled (off when unset).
    pub fn observability_enabled(&self) -> (b: bool)
        ensures
            b == match self.observability {
                None => false,
                Some(o) => o.enabled,
            },
    {
        match &self.observability {
            None => false,
            Some(o) => o.enabled,
        }
    }

    /// The hybrid failure policy: fail-closed only when configured so.
    pub fn hybrid_failure_policy(&self) -> (p: DistributedFailurePolicy)
        ensures
            p == (if self.hybrid matches Some(h) && h.failure_policy == Some(HybridFailurePolicyMode::FailClosed) {
                DistributedFailurePolicy::FailClosed
            } else {
                DistributedFailurePolicy::FailOpen
            }),
    {
        match &self.hybrid {
            Some(h) => match h.failure_policy {
                Some(HybridFailurePolicyMode::FailClosed) => DistributedFailurePolicy::FailClosed,
                _ => DistributedFailurePolicy::FailOpen,
            },
            None => DistributedFailurePolicy::FailOpen,
        }
    }

    fn validate_inmemory_limits(&self) -> (r: Result<(), ConfigError>)
        ensures
            r == spec_validate_inmemory(self.limits),
    {
        let limits = match self.require_limits() {
            Err(e) => return Err(e),
            Ok(l) => l,
        };
        if limits.global_per_second == 0 {
            return Err(ConfigError::InvalidLimitValue { name: "global_per_second", value: limits.global_per_second });
        }
        if limits.per_key_per_second == 0 {
            return Err(ConfigError::InvalidLimitValue { name: "per_key_per_second", value: limits.per_key_per_second });
        }
        Ok(())
    }

    fn validate_distributed_limits(&self) -> (r: Result<(), ConfigError>)
        ensures
            r == spec_validate_distributed(self.spec_distributed_limits()),
    {
        let distributed = match self.require_distributed() {
            Err(e) => return Err(e),
            Ok(d) => d,
        };
        if distributed.window_ms == 0 {
            return Err(ConfigError::InvalidLimitValue { name: "distributed.window_ms", value: 0 });
        }
        if distributed.max == 0 {
            return Err(ConfigError::InvalidLimitValue { name: "distributed.max", value: distributed.max });
        }
        Ok(())
    }
}

impl Default for RestServerConfig {
    fn default() -> (c: Self)
        ensures
            c.bind_address@ == "127.0.0.1:3000"@,
            c.key_mode == KeyMode::HeaderOrAnonymous,
            c.key_header@ == "x-api-key"@,
            c.anonymous_key@ == "anonymous"@,
            c.instrumentation == InstrumentationMode::Off,
            c.limits == Some(LimitsConfig { global_per_second: 1_000, per_key_per_second: 1_000 }),
            c.distributed is None,
            c.hybrid is None,
            c.observability is None,
    {
        RestServerConfig {
            bind_address: String::from_str("127.0.0.1:3000"),
            key_mode: KeyMode::HeaderOrAnonymous,
            key_header: String::from_str("x-api-key"),
            anonymous_key: String::from_str("anonymous"),
            instrumentation: InstrumentationMode::Off,
            limits: Some(LimitsConfig { global_per_second: 1_000, per_key_per_second: 1_000 }),
            distributed: None,
            hybrid: None,
            observability: None,
        }
    }
}

/// The in-memory limits are usable: present, with non-zero rates.
pub open spec fn limits_usable(cfg: RestServerConfig) -> bool {
    cfg.limits matches Some(l) && l.global_per_second != 0 && l.per_key_per_second != 0
}

/// The distributed settings are usable: present, with a non-zero window
/// and maximum.
pub open spec fn distributed_usable(cfg: RestServerConfig) -> bool {
    cfg.distributed matches Some(d) && d.window_ms != 0 && d.max != 0
}

/// Validation accepts a configuration exactly when the settings the variant
/// needs are usable: limits for the in-memory limiter, distributed settings
/// for the distributed one, and both for the hybrid one. A hybrid
/// configuration with usable limits and no distributed settings is refused
/// for the missing distributed settings, and one without limits for the
/// missing limits.
pub proof fn validation_law(cfg: RestServerConfig)
    ensures
        cfg.spec_validate(LimiterVariant::InMemory) is Ok <==> limits_usable(cfg),
        cfg.spec_validate(LimiterVariant::Distributed) is Ok <==> distributed_usable(cfg),
        cfg.spec_validate(LimiterVariant::Hybrid) is Ok <==> limits_usable(cfg) && distributed_usable(cfg),
        limits_usable(cfg) && cfg.distributed is None ==> cfg.spec_validate(LimiterVariant::Hybrid) == Err::<
            (),
            ConfigError,
        >(ConfigError::MissingDistributedConfig),
        cfg.limits is None ==> cfg.spec_validate(LimiterVariant::Hybrid) == Err::<(), ConfigError>(
            ConfigError::MissingInMemoryLimits,
        ),
{
}

} // verus!
