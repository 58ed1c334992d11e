//! Request metrics of the REST adapter and their Prometheus text rendering.

use vstd::prelude::*;

use crate::text::{append_decimal, append_str, append_three_digits, decimal, three_digits};

verus! {

/// Counters observed by the REST adapter: requests, denials, and the
/// latency of the latest request in microseconds.
#[derive(Clone, Copy, Debug, PartialEq, Eq, Structural)]
pub struct RequestMetrics {
    pub requests_total: u64,
    pub denies_total: u64,
    pub latency_micros: u64,
}

impl RequestMetrics {
    /// All counters at zero.
    pub fn new() -> (m: RequestMetrics)
        ensures
            m == (RequestMetrics { requests_total: 0, denies_total: 0, latency_micros: 0 }),
    {
        RequestMetrics { requests_total: 0, denies_total: 0, latency_micros: 0 }
    }
}

/// Counting wraps around at `u64::MAX`, as the adapter's atomic counters do.
pub open spec fn wrapping_inc(n: u64) -> u64 {
    if n == u64::MAX {
        0
    } else {
        (n + 1) as u64
    }
}

/// Records one request: the request counter goes up, the denial counter
/// goes up when it was denied, and the latency gauge is replaced.
pub fn record_request(metrics: &mut RequestMetrics, is_denied: bool, latency_micros: u64)
    ensures
        final(metrics).requests_total == wrapping_inc(old(metrics).requests_total),
        final(metrics).denies_total == (if is_denied {
            wrapping_inc(old(metrics).denies_total)
        } else {
            old(metrics).denies_total
        }),
        final(metrics).latency_micros == latency_micros,
{
    metrics.requests_total = metrics.requests_total.wrapping_add(1);
    if is_denied {
        metrics.denies_total = metrics.denies_total.wrapping_add(1);
    }
    metrics.latency_micros = latency_micros;
}

/// The latency in milliseconds with exactly three decimals.
pub open spec fn millis_text(micros: u64) -> Seq<char> {
    decimal((micros / 1000) as nat) + seq!['.'] + three_digits((micros % 1000) as nat)
}

/// The Prometheus exposition text of `m`.
pub open spec fn spec_metrics_payload(m: RequestMetrics) -> Seq<char> {
    "# HELP rl_requests_total Total requests observed by REST adapter.\n"@
        + "# TYPE rl_requests_total counter\n"@
        + "rl_requests_total "@ + decimal(m.requests_total as nat) + "\n"@
        + "# HELP rl_denies_total Total denied requests by REST adapter.\n"@
        + "# TYPE rl_denies_total counter\n"@
        + "rl_denies_total "@ + decimal(m.denies_total as nat) + "\n"@
        + "# HELP rl_request_latency_ms Request latency in milliseconds.\n"@
        + "# TYPE rl_request_latency_ms gauge\n"@
        + "rl_request_latency_ms "@ + millis_text(m.latency_micros) + "\n"@
}

/// Renders the metric families of `metrics` in Prometheus text format.
pub fn metrics_payload(metrics: &RequestMetrics) -> (s: String)
    ensures
        s@ == spec_metrics_payload(*metrics),
{
    let mut s = String::from_str("# HELP rl_requests_total Total requests observed by REST adapter.\n");
    append_str(&mut s, "# TYPE rl_requests_total counter\n");
    append_str(&mut s, "rl_requests_total ");
    append_decimal(&mut s, metrics.requests_total);
    append_str(&mut s, "\n");
    append_str(&mut s, "# HELP rl_denies_total Total denied requests by REST adapter.\n");
    append_str(&mut s, "# TYPE rl_denies_total counter\n");
    append_str(&mut s, "rl_denies_total ");
    append_decimal(&mut s, metrics.denies_total);
    append_str(&mut s, "\n");
    append_str(&mut s, "# HELP rl_request_latency_ms Request latency in milliseconds.\n");
    append_str(&mut s, "# TYPE rl_request_latency_ms gauge\n");
    append_str(&mut s, "rl_request_latency_ms ");
    append_decimal(&mut s, metrics.latency_micros / 1000);
    proof {
        reveal_strlit(".");
    }
    append_str(&mut s, ".");
    append_three_digits(&mut s, metrics.latency_micros % 1000);
    append_str(&mut s, "\n");
    assert(s@ =~= spec_metrics_payload(*metrics));
    s
}

} // verus!
