[package]
name = "rate_limit_lab"
version = "0.1.0"
edition = "2021"
publish = false

[dependencies]
governor = "=0.10.4"
serde = { version = "=1.0.229", features = ["derive"] }
serde_json = "=1.0.154"
toml = "=1.1.8"
clap = { version = "=4.6.7", features = ["derive"] }
chrono = "=0.4.45"
tokio = { version = "=1.54.1", features = ["rt-multi-thread", "macros", "time", "net", "signal", "sync"] }
axum = "=0.8.9"
tower = "=0.5.3"
futures = "=0.3.34"
fred = { version = "=10.1.0", features = ["i-scripts"] }
async-trait = "=0.1.92"
log = "=0.4.35"
env_logger = "=0.11.11"
thiserror = "=2.0.21"
