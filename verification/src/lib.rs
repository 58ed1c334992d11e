//! Rate limiting library: decision model, limiters over GCRA state,
//! hybrid local/distributed orchestration, server configuration and
//! the acceptance-evaluation rules.

pub mod models;
pub mod event_sink;
pub mod gcra;
pub mod direct_limiter;
pub mod keyed_limiter;
pub mod hierarchical_limiter;
pub mod factory;
pub mod state_backend;
pub mod distributed;
pub mod hybrid;
pub mod text;
pub mod config;
pub mod observability;
pub mod layer;
pub mod at_registry;
pub mod profiles;
pub mod harness_model;
pub mod at_engine;
pub mod run_checks;
pub mod post_run;
pub mod preflight;
pub mod traces;
pub mod run_rules;
pub mod observability_checks;
