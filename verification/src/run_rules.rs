//! Rules of an evaluation run: argument validation, evidence summaries,
//! trace tallies and per-test totals across runs.

use vstd::prelude::*;

use crate::at_registry::{at_label, views};
use crate::harness_model::{opt_view, results_view, AtResult, AtResultView, TraceRecord};
use crate::run_checks::{has_result, is_at, is_first};
use crate::text::{append_decimal, append_str, decimal, str_eq};

verus! {

/// A run needs a positive repeat count and exactly one selector.
pub open spec fn spec_validate_run_args(has_profile: bool, has_at: bool, repeat: u32) -> Result<(), Seq<char>> {
    if repeat == 0 {
        Err("repeat must be >= 1"@)
    } else if has_profile && has_at {
        Err("use exactly one of --profile or --at"@)
    } else if !has_profile && !has_at {
        Err("missing selector: use --profile or --at"@)
    } else {
        Ok(())
    }
}

pub fn validate_run_args(profile: &Option<String>, at: &Option<String>, repeat: u32) -> (r: Result<(), String>)
    ensures
        match (r, spec_validate_run_args(profile is Some, at is Some, repeat)) {
            (Ok(()), Ok(())) => true,
            (Err(m), Err(sm)) => m@ == sm,
            _ => false,
        },
{
    if repeat == 0 {
        return Err(String::from_str("repeat must be >= 1"));
    }
    match (profile, at) {
        (Some(_), Some(_)) => Err(String::from_str("use exactly one of --profile or --at")),
        (None, None) => Err(String::from_str("missing selector: use --profile or --at")),
        _ => Ok(()),
    }
}

/// The selector text of a run: the profile, else the single test, else empty.
pub fn run_selector(profile: &Option<String>, at: &Option<String>) -> (s: String)
    ensures
        s@ == match (profile, at) {
            (Some(p), _) => p@,
            (None, Some(a)) => a@,
            (None, None) => Seq::empty(),
        },
{
    match (profile, at) {
        (Some(p), _) => p.clone(),
        (None, Some(a)) => a.clone(),
        (None, None) => String::new(),
    }
}

/// "single_at" for a single-test run, "profile" otherwise.
pub fn run_mode(single_at: bool) -> (m: &'static str)
    ensures
        m@ == (if single_at { "single_at"@ } else { "profile"@ }),
{
    if single_at { "single_at" } else { "profile" }
}

/// The status of the first result for acceptance test `n`, or
/// "not_selected" when there is none.
pub open spec fn spec_status_of(rs: Seq<AtResultView>, id: Seq<char>) -> Seq<char> {
    if has_result(rs, id) {
        rs[choose|i: int| is_first(rs, id, i)].status
    } else {
        "not_selected"@
    }
}

pub fn status_or_not_selected(at_results: &Vec<AtResult>, n: u32) -> (s: String)
    requires
        n < 1000,
    ensures
        s@ == spec_status_of(results_view(at_results@), at_label(n as nat)),
{
    let ghost rs = results_view(at_results@);
    let ghost id = at_label(n as nat);
    let len = at_results.len();
    let mut i: usize = 0;
    while i < len
        invariant
            n < 1000,
            id == at_label(n as nat),
            len == at_results.len(),
            rs == results_view(at_results@),
            i <= len,
            forall|j: int| 0 <= j < i ==> rs[j].at_id != id,
        decreases len - i,
    {
        proof {
            assert(rs[i as int] == at_results@[i as int]@);
        }
        if is_at(at_results[i].at_id.as_str(), n) {
            proof {
                assert(is_first(rs, id, i as int));
                let c = choose|k: int| is_first(rs, id, k);
                assert(c == i);
            }
            return at_results[i].status.clone();
        }
        i = i + 1;
    }
    String::from_str("not_selected")
}

/// Whether any selected test is one of the two given ones.
pub open spec fn selects_either(selected: Seq<Seq<char>>, a: nat, b: nat) -> bool {
    exists|i: int| 0 <= i < selected.len() && (selected[i] == at_label(a) || selected[i] == at_label(b))
}

pub fn selects_either_of(selected_ats: &Vec<String>, a: u32, b: u32) -> (r: bool)
    requires
        a < 1000,
        b < 1000,
    ensures
        r == selects_either(views(selected_ats@), a as nat, b as nat),
{
    let ghost sel = views(selected_ats@);
    let n = selected_ats.len();
    let mut i: usize = 0;
    while i < n
        invariant
            a < 1000,
            b < 1000,
            n == selected_ats.len(),
            sel == views(selected_ats@),
            i <= n,
            forall|k: int| 0 <= k < i ==> !(sel[k] == at_label(a as nat) || sel[k] == at_label(b as nat)),
        decreases n - i,
    {
        proof {
            assert(sel[i as int] == selected_ats@[i as int]@);
        }
        let id = selected_ats[i].as_str();
        if is_at(id, a) || is_at(id, b) {
            return true;
        }
        i = i + 1;
    }
    false
}

/// Per-outcome counts of one acceptance test across runs.
#[derive(Clone, Copy, Debug, PartialEq, Eq, Structural)]
pub struct AtTotals {
    pub pass: u64,
    pub fail: u64,
    pub skipped: u64,
    pub not_implemented: u64,
}

impl AtTotals {
    pub fn new() -> (t: AtTotals)
        ensures
            t == (AtTotals { pass: 0, fail: 0, skipped: 0, not_implemented: 0 }),
    {
        AtTotals { pass: 0, fail: 0, skipped: 0, not_implemented: 0 }
    }

    /// Counts one result with `status`; any status other than "pass",
    /// "skipped" and "not_implemented" counts as a failure.
    pub fn record(&mut self, status: &str)
        requires
            old(self).pass < u64::MAX,
            old(self).fail < u64::MAX,
            old(self).skipped < u64::MAX,
            old(self).not_implemented < u64::MAX,
        ensures
            *final(self) == (if status@ == "pass"@ {
                AtTotals { pass: (old(self).pass + 1) as u64, ..*old(self) }
            } else if status@ == "skipped"@ {
                AtTotals { skipped: (old(self).skipped + 1) as u64, ..*old(self) }
            } else if status@ == "not_implemented"@ {
                AtTotals { not_implemented: (old(self).not_implemented + 1) as u64, ..*old(self) }
            } else {
                AtTotals { fail: (old(self).fail + 1) as u64, ..*old(self) }
            }),
    {
        if str_eq(status, "pass") {
            self.pass = self.pass + 1;
        } else if str_eq(status, "skipped") {
            self.skipped = self.skipped + 1;
        } else if str_eq(status, "not_implemented") {
            self.not_implemented = self.not_implemented + 1;
        } else {
            self.fail = self.fail + 1;
        }
    }
}

/// Integer tallies of a run's traces, from which the scored metrics are
/// derived.
#[derive(Clone, Copy, Debug, PartialEq, Eq, Structural)]
pub struct TraceTally {
    pub total: u64,
    /// Traces that were denied.
    pub denies: u64,
    /// Denied traces that carry a positive retry hint.
    pub denies_with_retry_after: u64,
    /// Traces without error whose decision is "allow" or "deny".
    pub decisions_ok: u64,
    /// Traces without error whose HTTP status matches the decision:
    /// 2xx for an allow, 429 otherwise.
    pub http_mapping_ok: u64,
    pub min_start: i64,
    pub max_end: i64,
}

pub open spec fn is_deny(t: TraceRecord) -> bool {
    t.decision@ == "deny"@
}

pub open spec fn retry_positive(t: TraceRecord) -> bool {
    match t.retry_after_ms {
        Some(ms) => ms > 0,
        None => false,
    }
}

pub open spec fn decision_ok(t: TraceRecord) -> bool {
    t.error_code is None && (t.decision@ == "allow"@ || t.decision@ == "deny"@)
}

pub open spec fn http_ok(t: TraceRecord) -> bool {
    t.error_code is None && (if t.decision@ == "allow"@ {
        200 <= t.http_status < 300
    } else {
        t.http_status == 429
    })
}

/// The properties of a trace that are tallied.
pub enum TraceProperty {
    Denied,
    DeniedWithRetryAfter,
    DecisionOk,
    HttpMappingOk,
}

pub open spec fn holds(p: TraceProperty, t: TraceRecord) -> bool {
    match p {
        TraceProperty::Denied => is_deny(t),
        TraceProperty::DeniedWithRetryAfter => is_deny(t) && retry_positive(t),
        TraceProperty::DecisionOk => decision_ok(t),
        TraceProperty::HttpMappingOk => http_ok(t),
    }
}

/// The number of traces among the first `n` that have property `p`.
pub open spec fn count(ts: Seq<TraceRecord>, n: int, p: TraceProperty) -> nat
    decreases n,
{
    if n <= 0 {
        0
    } else {
        count(ts, n - 1, p) + if holds(p, ts[n - 1]) { 1nat } else { 0nat }
    }
}

pub open spec fn min_start(ts: Seq<TraceRecord>, n: int) -> int
    decreases n,
{
    if n <= 0 {
        i64::MAX as int
    } else {
        let m = min_start(ts, n - 1);
        if ts[n - 1].request_started_at < m { ts[n - 1].request_started_at as int } else { m }
    }
}

pub open spec fn max_end(ts: Seq<TraceRecord>, n: int) -> int
    decreases n,
{
    if n <= 0 {
        i64::MIN as int
    } else {
        let m = max_end(ts, n - 1);
        if ts[n - 1].request_completed_at > m { ts[n - 1].request_completed_at as int } else { m }
    }
}

proof fn lemma_count_le(ts: Seq<TraceRecord>, n: int, p: TraceProperty)
    requires
        0 <= n,
    ensures
        count(ts, n, p) <= n,
    decreases n,
{
    if n > 0 {
        lemma_count_le(ts, n - 1, p);
    }
}

proof fn lemma_min_max_bounds(ts: Seq<TraceRecord>, n: int)
    ensures
        i64::MIN <= min_start(ts, n) <= i64::MAX,
        i64::MIN <= max_end(ts, n) <= i64::MAX,
    decreases n,
{
    if n > 0 {
        lemma_min_max_bounds(ts, n - 1);
    }
}

/// Tallies the traces of a run.
pub fn tally_traces(traces: &Vec<TraceRecord>) -> (t: TraceTally)
    ensures
        t.total == traces.len(),
        t.denies == count(traces@, traces.len() as int, TraceProperty::Denied),
        t.denies_with_retry_after == count(traces@, traces.len() as int, TraceProperty::DeniedWithRetryAfter),
        t.decisions_ok == count(traces@, traces.len() as int, TraceProperty::DecisionOk),
        t.http_mapping_ok == count(traces@, traces.len() as int, TraceProperty::HttpMappingOk),
        t.min_start == min_start(traces@, traces.len() as int),
        t.max_end == max_end(traces@, traces.len() as int),
{
    let ghost p_deny = TraceProperty::Denied;
    let ghost p_retry = TraceProperty::DeniedWithRetryAfter;
    let ghost p_dec = TraceProperty::DecisionOk;
    let ghost p_http = TraceProperty::HttpMappingOk;
    let n = traces.len();
    let mut denies: u64 = 0;
    let mut retry: u64 = 0;
    let mut dec: u64 = 0;
    let mut http: u64 = 0;
    let mut lo: i64 = i64::MAX;
    let mut hi: i64 = i64::MIN;
    let mut i: usize = 0;
    while i < n
        invariant
            n == traces.len(),
            i <= n,
            p_deny == TraceProperty::Denied,
            p_retry == TraceProperty::DeniedWithRetryAfter,
            p_dec == TraceProperty::DecisionOk,
            p_http == TraceProperty::HttpMappingOk,
            denies == count(traces@, i as int, p_deny),
            retry == count(traces@, i as int, p_retry),
            dec == count(traces@, i as int, p_dec),
            http == count(traces@, i as int, p_http),
            lo == min_start(traces@, i as int),
            hi == max_end(traces@, i as int),
        decreases n - i,
    {
        proof {
            lemma_count_le(traces@, i as int, p_deny);
            lemma_count_le(traces@, i as int, p_retry);
            lemma_count_le(traces@, i as int, p_dec);
            lemma_count_le(traces@, i as int, p_http);
        }
        let t = &traces[i];
        let dstr = t.decision.as_str();
        let denied = str_eq(dstr, "deny");
        let allowed = str_eq(dstr, "allow");
        if denied {
            denies = denies + 1;
            let positive = match t.retry_after_ms {
                Some(ms) => ms > 0,
                None => false,
            };
            if positive {
                retry = retry + 1;
            }
        }
        let no_error = t.error_code.is_none();
        if no_error && (allowed || denied) {
            dec = dec + 1;
        }
        let status_ok = if allowed { 200 <= t.http_status && t.http_status < 300 } else { t.http_status == 429 };
        if status_ok && no_error {
            http = http + 1;
        }
        if t.request_started_at < lo {
            lo = t.request_started_at;
        }
        if t.request_completed_at > hi {
            hi = t.request_completed_at;
        }
        proof {
            assert(traces@[i as int] == *t);
            assert(is_deny(*t) == denied);

        }
        i = i + 1;
    }
    TraceTally {
        total: n as u64,
        denies,
        denies_with_retry_after: retry,
        decisions_ok: dec,
        http_mapping_ok: http,
        min_start: lo,
        max_end: hi,
    }
}

} // verus!
