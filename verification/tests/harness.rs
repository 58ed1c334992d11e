use rate_limit_lab::at_engine::{cargo_test_args, cargo_test_result, execute_at, missing_artifact_probe_result, AtStep};
use rate_limit_lab::at_registry::{at_lifecycle_label, at_registry_entry, at_registry_validate_selected, is_failure_at, parse_at_id, AtExecutor, AtLifecycleStatus};
use rate_limit_lab::harness_model::{AtResult, BackendPreparation, ProcessResult, TraceRecord};
use rate_limit_lab::observability_checks::{
    finalize_observability_contract_checks, finalize_observability_report_link_check, grafana_contract_ok,
    prometheus_contract_ok, ObservabilityInputs,
};
use rate_limit_lab::post_run::{finalize_post_run_contract_checks, run_verdict, validate_required_artifacts};
use rate_limit_lab::preflight::{after_backend_probe, after_redis_up, build_preflight, prepare_distributed_backend, BackendPrepStep};
use rate_limit_lab::profiles::{at_id_string, select_ats};
use rate_limit_lab::run_checks::{build_failure_timeline, finalize_distributed_trace_checks, link_failure_timeline};
use rate_limit_lab::run_rules::{status_or_not_selected, tally_traces, validate_run_args, AtTotals};
use rate_limit_lab::text::{str_contains, u64_to_decimal};
use rate_limit_lab::traces::build_traces;

fn result(id: &str, status: &str, evidence: &str) -> AtResult {
    AtResult { at_id: id.to_string(), status: status.to_string(), evidence: evidence.to_string() }
}

fn finished(step: AtStep) -> AtResult {
    match step {
        AtStep::Finished(r) => r,
        other => panic!("unexpected step: {:?}", other),
    }
}

#[test]
fn registry_identifiers_parse() {
    assert_eq!(parse_at_id("AT-004"), Some(4));
    assert_eq!(parse_at_id("AT-056"), Some(56));
    assert_eq!(parse_at_id("AT-4"), None);
    assert_eq!(parse_at_id("at-004"), None);
    assert_eq!(at_id_string(7), "AT-007");
}

#[test]
fn registry_entries() {
    let e = at_registry_entry("AT-004");
    assert_eq!(e.lifecycle, AtLifecycleStatus::Ready);
    assert_eq!(
        e.executor,
        AtExecutor::CargoTest { package: "rate_limit", test_name: "hierarchical_allows_if_both_pass", features: None }
    );
    let planned = at_registry_entry("AT-040");
    assert_eq!(planned.lifecycle, AtLifecycleStatus::Planned);
    assert_eq!(planned.non_ready_reason, Some("AT is planned and not yet executable in harness"));
    let unknown = at_registry_entry("AT-999");
    assert_eq!(unknown.non_ready_reason, Some("AT is unknown to registry"));
    assert_eq!(at_lifecycle_label(AtLifecycleStatus::Blocked), "blocked");
    assert!(is_failure_at("AT-027"));
    assert!(!is_failure_at("AT-030"));
}

#[test]
fn selection_validation() {
    assert_eq!(at_registry_validate_selected(&vec!["AT-001".to_string(), "AT-056".to_string()]), Ok(()));
    assert_eq!(
        at_registry_validate_selected(&vec!["AT-004".to_string(), "AT-057".to_string(), "bogus".to_string()]),
        Err("AT `AT-057` is not present in registry".to_string())
    );
}

#[test]
fn profiles_select_tests() {
    assert_eq!(select_ats(Some("rr_profile".to_string()), None), vec!["AT-030", "AT-032", "AT-034"]);
    assert_eq!(select_ats(Some("smoke_ready".to_string()), None).len(), 20);
    assert_eq!(select_ats(Some("full_matrix".to_string()), None).len(), 32);
    assert_eq!(select_ats(Some("nope".to_string()), None), vec!["AT-004"]);
    assert_eq!(select_ats(None, Some("AT-012".to_string())), vec!["AT-012"]);
    assert!(select_ats(None, None).is_empty());
    assert!(select_ats(Some("a".to_string()), Some("b".to_string())).is_empty());
}

#[test]
fn execute_at_decides_without_running() {
    let r = finished(execute_at("AT-040", false, None));
    assert_eq!(r.status, "fail");
    assert_eq!(r.evidence, "AT lifecycle=planned blocked: AT is planned and not yet executable in harness");

    let r = finished(execute_at("AT-016", false, None));
    assert_eq!((r.status.as_str(), r.evidence.as_str()), ("fail", "REDIS_URL not set"));

    let prep = BackendPreparation { ready: false, details: "probe".to_string() };
    let r = finished(execute_at("AT-017", true, Some(&prep)));
    assert_eq!(r.evidence, "distributed backend not ready: probe");

    let ready = BackendPreparation { ready: true, details: "ok".to_string() };
    let r = finished(execute_at("AT-016", true, Some(&ready)));
    assert_eq!((r.status.as_str(), r.evidence.as_str()), ("pass", "redis fixed-window backend probe passed"));

    let r = finished(execute_at("AT-025", false, None));
    assert_eq!(r.evidence, "short outage policy scenario executed deterministically");

    assert!(matches!(execute_at("AT-050", false, None), AtStep::RunMissingArtifactProbe));
    match execute_at("AT-053", false, None) {
        AtStep::RunCargoTest { package, features, .. } => {
            assert_eq!(package, "rest");
            assert_eq!(features, Some("observability_ui"));
        }
        other => panic!("unexpected step: {:?}", other),
    }
}

#[test]
fn cargo_test_outcomes() {
    assert_eq!(
        cargo_test_args("rest", "t", Some("f")),
        vec!["test", "-p", "rest", "t", "--features", "f", "--", "--exact"]
    );
    let ok = ProcessResult { success: true, details: "ok".to_string() };
    let r = cargo_test_result("AT-008", "rest", "t", None, &ok);
    assert_eq!(r.evidence, "cargo test -p rest t -- --exact passed");
    let bad = ProcessResult { success: false, details: "boom".to_string() };
    let r = cargo_test_result("AT-053", "rest", "t", Some("f"), &bad);
    assert_eq!(r.status, "fail");
    assert_eq!(r.evidence, "cargo test -p rest t --features f -- --exact failed: boom");
}

#[test]
fn missing_artifact_probe_verdicts() {
    let detected = Ok(Err("missing required artifact: /tmp/x/preflight.json".to_string()));
    let r = missing_artifact_probe_result("AT-050", &detected);
    assert_eq!(r.status, "pass");
    assert_eq!(
        r.evidence,
        "AT-050 synthetic missing-artifact probe detected: missing required artifact: /tmp/x/preflight.json"
    );
    let r = missing_artifact_probe_result("AT-050", &Ok(Ok(())));
    assert_eq!(r.evidence, "AT-050 probe failed: expected missing-artifact validation failure but validation passed");
    let r = missing_artifact_probe_result("AT-050", &Ok(Err("other".to_string())));
    assert_eq!(r.evidence, "AT-050 probe failed: unexpected validation error for AT-050 probe: other");
}

fn trace(at_id: &str, backend_outcome: &str) -> TraceRecord {
    TraceRecord {
        at_id: Some(at_id.to_string()),
        trace_id: "t".to_string(),
        scenario_id: "s".to_string(),
        request_started_at: 1,
        request_completed_at: 2,
        key: "k".to_string(),
        http_status: 200,
        decision: "allow".to_string(),
        retry_after_ms: None,
        latency_ms: 1,
        backend_outcome: backend_outcome.to_string(),
        failure_policy: None,
        error_code: None,
    }
}

#[test]
fn distributed_trace_checks() {
    let mut rs = vec![result("AT-016", "pass", "x"), result("AT-017", "pass", "y")];
    finalize_distributed_trace_checks(&mut rs, &vec![trace("AT-016", "allow"), trace("AT-017", "none")]);
    assert_eq!(rs[1].status, "fail");
    assert_eq!(rs[1].evidence, "distributed traces missing backend_outcome evidence");

    finalize_distributed_trace_checks(&mut rs, &vec![trace("AT-004", "none")]);
    assert_eq!(rs[1].evidence, "no distributed trace rows found for AT-016/AT-017");

    finalize_distributed_trace_checks(&mut rs, &vec![trace("AT-017", "allow")]);
    assert_eq!(rs[1].status, "pass");

    let mut without = vec![result("AT-016", "pass", "x")];
    finalize_distributed_trace_checks(&mut without, &vec![]);
    assert_eq!(without[0].evidence, "x");
}

#[test]
fn failure_timeline() {
    let rs = vec![result("AT-004", "pass", ""), result("AT-025", "pass", ""), result("AT-029", "fail", "")];
    let t = build_failure_timeline(&rs, 1000);
    assert_eq!(t.len(), 4);
    assert_eq!((t[0].mode.as_str(), t[0].event.as_str(), t[0].ts_ms), ("outage_short", "injection_started", 1010));
    assert_eq!((t[1].event.as_str(), t[1].ts_ms, t[1].conformant), ("injection_completed", 1015, true));
    assert_eq!((t[2].mode.as_str(), t[2].ts_ms, t[2].conformant), ("timeline_report", 1020, false));
    assert_eq!(t[3].policy, "fail_closed");
}

#[test]
fn post_run_checks() {
    let mut rs = vec![result("AT-012", "pass", ""), result("AT-029", "pass", ""), result("AT-030", "pass", "")];
    finalize_post_run_contract_checks(&mut rs, 1, true, "d", false, "/t", false, "/c");
    assert_eq!(rs[0].status, "skipped");
    assert_eq!(rs[0].evidence, "repeatability contract requires --repeat >= 2; observed repeat=1, marking skipped");
    assert_eq!(rs[1].evidence, "missing failure timeline artifact");
    assert_eq!(rs[2].status, "skipped");

    let mut rs = vec![result("AT-012", "pass", ""), result("AT-030", "pass", ""), result("AT-031", "pass", "")];
    finalize_post_run_contract_checks(&mut rs, 2, false, "d=1", true, "/t", false, "/c");
    assert_eq!(rs[0].evidence, "repeatability gate failed: d=1");
    assert_eq!(rs[1].status, "fail");
    assert_eq!(rs[2].evidence, "missing rr_sa_comparison evidence for topology/fairness ATs");

    finalize_post_run_contract_checks(&mut rs, 2, true, "d=0", true, "/t", true, "/c");
    assert_eq!(rs[0].status, "pass");
    assert_eq!(rs[1].evidence, "RR/SA comparison artifact produced: /c");
}

#[test]
fn artifacts_and_verdicts() {
    let paths: Vec<String> = vec!["/r/a".to_string(), "/r/b".to_string()];
    assert_eq!(validate_required_artifacts(&paths, &vec![true, true]), Ok(()));
    assert_eq!(
        validate_required_artifacts(&paths, &vec![true, false]),
        Err("missing required artifact: /r/b".to_string())
    );

    let v = run_verdict(&vec![result("AT-004", "pass", ""), result("AT-050", "pass", "")], true);
    assert_eq!(v.status, "pass");
    assert_eq!(v.triage_labels, vec!["MISSING_REQUIRED_EVIDENCE"]);
    let v = run_verdict(&vec![result("AT-004", "fail", "")], false);
    assert_eq!(v.status, "fail");
    assert_eq!(v.triage_labels, vec!["EXECUTION_FAILURE", "NON_REPRODUCIBLE_RUN"]);
}

#[test]
fn preflight_and_backend_preparation() {
    let selected = vec!["AT-004".to_string(), "AT-016".to_string()];
    let p = build_preflight("full_matrix", true, true, &selected, false, None);
    assert!(!p.passed);
    assert_eq!(p.checks.len(), 5);
    assert_eq!(p.checks[4].details, "distributed backend preflight missing; this is a harness bug");

    let ready = BackendPreparation { ready: true, details: "up".to_string() };
    let p = build_preflight("full_matrix", true, true, &selected, true, Some(&ready));
    assert!(p.passed);

    let p = build_preflight("", true, true, &vec!["AT-004".to_string()], false, None);
    assert!(!p.passed);
    assert_eq!(p.checks.len(), 4);
    assert_eq!(p.checks[3].details, "distributed ATs not selected");

    match prepare_distributed_backend(false) {
        BackendPrepStep::Done(prep) => assert_eq!(prep.details, "REDIS_URL not set"),
        other => panic!("unexpected step: {:?}", other),
    }
    assert!(matches!(prepare_distributed_backend(true), BackendPrepStep::RunRedisUp));
    let bad = ProcessResult { success: false, details: "no make".to_string() };
    match after_redis_up(&bad) {
        BackendPrepStep::Done(prep) => assert_eq!(prep.details, "`make redis-up` failed: no make"),
        other => panic!("unexpected step: {:?}", other),
    }
    let ok = ProcessResult { success: true, details: "ok".to_string() };
    assert!(after_backend_probe(&ok).ready);
}

#[test]
fn traces_for_results() {
    let rs = vec![result("AT-016", "fail", ""), result("AT-025", "pass", ""), result("AT-004", "skipped", "")];
    let ts = build_traces("full_matrix", &rs, 2, 100);
    assert_eq!(ts.len(), 6);
    assert_eq!(ts[0].trace_id, "trace-100-0-0");
    assert_eq!(ts[0].backend_outcome, "error");
    assert_eq!(ts[0].http_status, 429);
    assert_eq!(ts[0].error_code.as_deref(), Some("execution_failed"));
    assert_eq!(ts[1].error_code.as_deref(), Some("outage_short"));
    assert_eq!(ts[1].failure_policy.as_deref(), Some("fail_closed"));
    assert_eq!(ts[2].decision, "allow");
    assert_eq!(ts[2].error_code.as_deref(), Some("skipped"));
    assert_eq!(ts[5].trace_id, "trace-100-1-2");
    assert_eq!((ts[5].request_started_at, ts[5].request_completed_at), (101, 102));

    let neg = build_traces("s", &vec![result("AT-004", "pass", "")], 1, -5);
    assert_eq!(neg[0].trace_id, "trace--5-0-0");

    let tally = tally_traces(&ts);
    assert_eq!(tally.total, 6);
    assert_eq!(tally.denies, 2);
    assert_eq!(tally.decisions_ok, 0);
    assert_eq!((tally.min_start, tally.max_end), (100, 102));
}

#[test]
fn run_rules() {
    assert_eq!(validate_run_args(&None, &None, 0), Err("repeat must be >= 1".to_string()));
    assert_eq!(
        validate_run_args(&Some("p".to_string()), &Some("a".to_string()), 1),
        Err("use exactly one of --profile or --at".to_string())
    );
    assert_eq!(validate_run_args(&None, &None, 1), Err("missing selector: use --profile or --at".to_string()));
    assert_eq!(validate_run_args(&None, &Some("AT-004".to_string()), 1), Ok(()));

    let rs = vec![result("AT-016", "pass", ""), result("AT-016", "fail", "")];
    assert_eq!(status_or_not_selected(&rs, 16), "pass");
    assert_eq!(status_or_not_selected(&rs, 17), "not_selected");

    let mut totals = AtTotals::new();
    totals.record("pass");
    totals.record("weird");
    totals.record("skipped");
    assert_eq!((totals.pass, totals.fail, totals.skipped, totals.not_implemented), (1, 1, 1, 0));
}

fn obs_inputs(prometheus_ok: bool, grafana_ok: bool, written: bool) -> ObservabilityInputs {
    ObservabilityInputs {
        prometheus_ok,
        grafana_ok,
        live_mode: false,
        live_targets_ok: false,
        live_dashboard_ok: false,
        live_details: String::new(),
        evidence_written: written,
        prometheus_cfg: "prom.yml".to_string(),
        grafana_ds: "ds.yml".to_string(),
        grafana_dashboards: "dash.yml".to_string(),
        grafana_dashboard_json: "dash.json".to_string(),
        live_targets_path: "targets.json".to_string(),
        live_dashboards_path: "dashboards.json".to_string(),
        evidence_path: "evidence.json".to_string(),
    }
}

#[test]
fn observability_verdicts() {
    assert!(prometheus_contract_ok(Some(
        "job_name: \"rate_limit_rest\"\nmetrics_path: /metrics\ntargets: [rest_observability:3000]"
    )));
    assert!(!prometheus_contract_ok(Some("job_name: other")));
    assert!(!prometheus_contract_ok(None));
    let titles = vec![
        "Request Throughput".to_string(),
        "Deny Rate".to_string(),
        "Observed Request Latency (ms)".to_string(),
    ];
    assert!(grafana_contract_ok(true, true, Some(&titles)));
    assert!(!grafana_contract_ok(true, false, Some(&titles)));

    let mut rs = vec![result("AT-054", "pass", ""), result("AT-055", "pass", ""), result("AT-056", "pass", "")];
    finalize_observability_contract_checks(&mut rs, &obs_inputs(true, false, true));
    assert_eq!(rs[0].evidence, "prometheus scrape contract validated in prom.yml");
    assert_eq!(rs[1].status, "fail");
    assert_eq!(
        rs[2].evidence,
        "observability evidence linkage prerequisites failed (at_054_ok=true, at_055_ok=false, artifact_written=true)"
    );

    let mut others = vec![result("AT-004", "pass", "keep")];
    finalize_observability_contract_checks(&mut others, &obs_inputs(false, false, false));
    assert_eq!(others[0].evidence, "keep");

    let mut rs = vec![result("AT-056", "fail", "")];
    finalize_observability_report_link_check(&mut rs, "## Observability Evidence\n- Artifact: e.json\n", "e.json", "run.md");
    assert_eq!(rs[0].evidence, "run report links observability evidence artifact: e.json");
}

#[test]
fn text_helpers() {
    assert_eq!(u64_to_decimal(0), "0");
    assert_eq!(u64_to_decimal(18_446_744_073_709_551_615), "18446744073709551615");
    assert!(str_contains("abcabd", "abd"));
    assert!(!str_contains("ab", "abc"));
    assert!(str_contains("x", ""));
}

#[test]
fn passed_failure_tests_link_the_timeline() {
    let mut rs = vec![
        result("AT-025", "pass", "ok"),
        result("AT-026", "fail", "bad"),
        result("AT-004", "pass", "ok"),
        result("AT-029", "pass", "done"),
    ];
    link_failure_timeline(&mut rs, "runs/x/failure_timeline.json");
    assert_eq!(rs[0].evidence, "ok; timeline: runs/x/failure_timeline.json");
    assert_eq!(rs[1].evidence, "bad");
    assert_eq!(rs[2].evidence, "ok");
    assert_eq!(rs[3].evidence, "done; timeline: runs/x/failure_timeline.json");
    assert_eq!(rs[3].status, "pass");
}

#[test]
fn traces_and_timeline_reach_the_largest_timestamp() {
    let rs = vec![result("AT-004", "pass", ""), result("AT-025", "fail", "")];
    let v = build_traces("smoke", &rs, 2, i64::MAX - 2);
    assert_eq!(v.len(), 4);
    assert_eq!(v[3].request_completed_at, i64::MAX);
    let t = build_failure_timeline(&rs, i64::MAX - 15);
    assert_eq!(t.len(), 2);
    assert_eq!(t[1].ts_ms, i64::MAX);
}
