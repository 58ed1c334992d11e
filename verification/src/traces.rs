//! The request traces recorded for the acceptance results of a run.

use vstd::prelude::*;

use crate::at_registry::{at_label, is_failure_at, spec_is_failure_at};
use crate::harness_model::{opt_view, results_view, AtResult, AtResultView, TraceRecord};
use crate::run_checks::is_at;
use crate::text::{append_decimal, append_i64, append_str, decimal, int_decimal, str_eq};

verus! {

/// How a test's status appears in its trace: decision, HTTP status and
/// error code.
pub open spec fn status_trace_fields(status: Seq<char>) -> (Seq<char>, u16, Option<Seq<char>>) {
    if status == "pass"@ {
        ("allow"@, 200, None)
    } else if status == "skipped"@ {
        ("allow"@, 200, Some("skipped"@))
    } else if status == "fail"@ {
        ("deny"@, 429, Some("execution_failed"@))
    } else if status == "not_implemented"@ {
        ("deny"@, 429, Some("not_implemented"@))
    } else {
        ("deny"@, 429, Some("unknown_status"@))
    }
}

/// The backend outcome recorded for a test: only AT-016 and AT-017 touch
/// the backend, allowing when they passed and erring when they failed.
pub open spec fn spec_backend_outcome(r: AtResultView) -> Seq<char> {
    if r.at_id == at_label(16) || r.at_id == at_label(17) {
        if r.status == "pass"@ {
            "allow"@
        } else if r.status == "fail"@ {
            "error"@
        } else {
            "none"@
        }
    } else {
        "none"@
    }
}

/// The error code of a test's trace: failure-injection tests name their
/// failure mode, other tests carry their status's code.
pub open spec fn spec_error_code(r: AtResultView) -> Option<Seq<char>> {
    if r.at_id == at_label(25) {
        Some("outage_short"@)
    } else if r.at_id == at_label(26) {
        Some("outage_long"@)
    } else if r.at_id == at_label(27) {
        Some("latency_spike"@)
    } else if r.at_id == at_label(28) {
        Some("flapping"@)
    } else {
        status_trace_fields(r.status).2
    }
}

/// The trace of result `r` at position `idx` in attempt `attempt` of a run
/// started at `start` for `selector`.
pub open spec fn trace_matches(t: TraceRecord, selector: Seq<char>, r: AtResultView, attempt: int, idx: int, start: int) -> bool {
    let (decision, http_status, _) = status_trace_fields(r.status);
    &&& opt_view(t.at_id) == Some(r.at_id)
    &&& t.trace_id@ == "trace-"@ + int_decimal(start) + seq!['-'] + decimal(attempt as nat) + seq!['-'] + decimal(idx as nat)
    &&& t.scenario_id@ == selector
    &&& t.request_started_at == start + attempt
    &&& t.request_completed_at == start + attempt + 1
    &&& t.key@ == "harness-key"@
    &&& t.http_status == http_status
    &&& t.decision@ == decision
    &&& t.retry_after_ms is None
    &&& t.latency_ms == 1
    &&& t.backend_outcome@ == spec_backend_outcome(r)
    &&& opt_view(t.failure_policy) == (if spec_is_failure_at(r.at_id) { Some("fail_closed"@) } else { None })
    &&& opt_view(t.error_code) == spec_error_code(r)
}

fn trace_for(selector: &str, r: &AtResult, attempt: u32, idx: usize, start_ts: i64) -> (t: TraceRecord)
    requires
        start_ts + attempt + 1 <= i64::MAX,
    ensures
        trace_matches(t, selector@, r@, attempt as int, idx as int, start_ts as int),
{
    let id = r.at_id.as_str();
    let st = r.status.as_str();
    let backend_outcome = if is_at(id, 16) || is_at(id, 17) {
        if str_eq(st, "pass") {
            "allow"
        } else if str_eq(st, "fail") {
            "error"
        } else {
            "none"
        }
    } else {
        "none"
    };
    let (decision, http_status, status_code): (&str, u16, Option<&str>) = if str_eq(st, "pass") {
        ("allow", 200, None)
    } else if str_eq(st, "skipped") {
        ("allow", 200, Some("skipped"))
    } else if str_eq(st, "fail") {
        ("deny", 429, Some("execution_failed"))
    } else if str_eq(st, "not_implemented") {
        ("deny", 429, Some("not_implemented"))
    } else {
        ("deny", 429, Some("unknown_status"))
    };
    let error_code: Option<String> = if is_at(id, 25) {
        Some(String::from_str("outage_short"))
    } else if is_at(id, 26) {
        Some(String::from_str("outage_long"))
    } else if is_at(id, 27) {
        Some(String::from_str("latency_spike"))
    } else if is_at(id, 28) {
        Some(String::from_str("flapping"))
    } else {
        match status_code {
            Some(c) => Some(String::from_str(c)),
            None => None,
        }
    };
    let failure_policy: Option<String> = if is_failure_at(id) {
        Some(String::from_str("fail_closed"))
    } else {
        None
    };
    let mut trace_id = String::from_str("trace-");
    append_i64(&mut trace_id, start_ts);
    proof {
        reveal_strlit("-");
    }
    append_str(&mut trace_id, "-");
    append_decimal(&mut trace_id, attempt as u64);
    append_str(&mut trace_id, "-");
    append_decimal(&mut trace_id, idx as u64);
    let t = TraceRecord {
        at_id: Some(r.at_id.clone()),
        trace_id,
        scenario_id: String::from_str(selector),
        request_started_at: start_ts + attempt as i64,
        request_completed_at: start_ts + attempt as i64 + 1,
        key: String::from_str("harness-key"),
        http_status,
        decision: String::from_str(decision),
        retry_after_ms: None,
        latency_ms: 1,
        backend_outcome: String::from_str(backend_outcome),
        failure_policy,
        error_code,
    };
    let ghost rv = r@;
    assert(opt_view(t.at_id) == Some(rv.at_id));
    assert(t.trace_id@ == "trace-"@ + int_decimal(start_ts as int) + seq!['-'] + decimal(attempt as nat) + seq!['-'] + decimal(idx as nat));
    assert(t.decision@ == status_trace_fields(rv.status).0);
    assert(t.http_status == status_trace_fields(rv.status).1);
    assert(t.backend_outcome@ == spec_backend_outcome(rv));
    assert(opt_view(t.error_code) == spec_error_code(rv));
    assert(opt_view(t.failure_policy) == (if spec_is_failure_at(rv.at_id) { Some("fail_closed"@) } else { None }));
    t
}

/// The traces of a run: for each attempt, one trace per acceptance result,
/// in order.
pub fn build_traces(selector: &str, at_results: &Vec<AtResult>, repeat: u32, start_ts: i64) -> (v: Vec<TraceRecord>)
    requires
        start_ts + repeat <= i64::MAX,
        repeat * at_results.len() <= usize::MAX,
    ensures
        v.len() == repeat * at_results.len(),
        forall|a: int, i: int| 0 <= a < repeat && 0 <= i < at_results.len() ==> trace_matches(
            #[trigger] v@[a * at_results.len() + i],
            selector@,
            at_results@[i]@,
            a,
            i,
            start_ts as int,
        ),
{
    let n = at_results.len();
    let mut out: Vec<TraceRecord> = Vec::new();
    let mut attempt: u32 = 0;
    while attempt < repeat
        invariant
            n == at_results.len(),
            start_ts + repeat <= i64::MAX,
            repeat * n <= usize::MAX,
            attempt <= repeat,
            out.len() == attempt * n,
            forall|a: int, i: int| 0 <= a < attempt && 0 <= i < n ==> trace_matches(
                #[trigger] out@[a * n + i],
                selector@,
                at_results@[i]@,
                a,
                i,
                start_ts as int,
            ),
        decreases repeat - attempt,
    {
        let mut idx: usize = 0;
        while idx < n
            invariant
                n == at_results.len(),
                start_ts + repeat <= i64::MAX,
                repeat * n <= usize::MAX,
                attempt < repeat,
                idx <= n,
                out.len() == attempt * n + idx,
                forall|a: int, i: int| 0 <= a < attempt && 0 <= i < n ==> trace_matches(
                    #[trigger] out@[a * n + i],
                    selector@,
                    at_results@[i]@,
                    a,
                    i,
                    start_ts as int,
                ),
                forall|i: int| 0 <= i < idx ==> trace_matches(
                    #[trigger] out@[attempt * n + i],
                    selector@,
                    at_results@[i]@,
                    attempt as int,
                    i,
                    start_ts as int,
                ),
            decreases n - idx,
        {
            proof {
                assert(attempt * n + idx < repeat * n) by (nonlinear_arith)
                    requires attempt < repeat, idx < n;
            }
            let t = trace_for(selector, &at_results[idx], attempt, idx, start_ts);
            let ghost before = out@;
            out.push(t);
            proof {
                assert forall|a: int, i: int| 0 <= a < attempt && 0 <= i < n implies trace_matches(
                    #[trigger] out@[a * n + i],
                    selector@,
                    at_results@[i]@,
                    a,
                    i,
                    start_ts as int,
                ) by {
                    assert(a * n + i < attempt * n) by (nonlinear_arith)
                        requires a < attempt, i < n, 0 <= a, 0 <= i;
                    assert(out@[a * n + i] == before[a * n + i]);
                }
                assert forall|i: int| 0 <= i < idx + 1 implies trace_matches(
                    #[trigger] out@[attempt * n + i],
                    selector@,
                    at_results@[i]@,
                    attempt as int,
                    i,
                    start_ts as int,
                ) by {
                    if i < idx {
                        assert(out@[attempt * n + i] == before[attempt * n + i]);
                    }
                }
            }
            idx = idx + 1;
        }
        proof {
            assert forall|a: int, i: int| 0 <= a < attempt + 1 && 0 <= i < n implies trace_matches(
                #[trigger] out@[a * n + i],
                selector@,
                at_results@[i]@,
                a,
                i,
                start_ts as int,
            ) by {
                if a == attempt {
                    assert(out@[attempt * n + i] == out@[a * n + i]);
                }
            }
            assert((attempt + 1) * n == attempt * n + n) by (nonlinear_arith);
        }
        attempt = attempt + 1;
    }
    out
}

} // verus!
