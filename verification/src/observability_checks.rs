//! Contract checks of the observability acceptance tests (AT-054 through
//! AT-056). The files, live probes and artifacts are read and written by
//! the caller; the verdicts are decided here.

use vstd::prelude::*;

use crate::at_registry::at_label;
use crate::harness_model::{results_view, AtResult, AtResultView};
use crate::run_checks::{has_result, is_at, set_first, set_first_result};
use crate::text::{append_str, contains, str_contains, str_eq};

verus! {

/// The Prometheus configuration scrapes the REST adapter's metrics.
pub open spec fn spec_prometheus_ok(text: Option<Seq<char>>) -> bool {
    match text {
        Some(t) => contains(t, "job_name: \"rate_limit_rest\""@) && contains(t, "metrics_path: /metrics"@)
            && contains(t, "rest_observability:3000"@),
        None => false,
    }
}

pub fn prometheus_contract_ok(text: Option<&str>) -> (b: bool)
    ensures
        b == spec_prometheus_ok(match text {
            Some(t) => Some(t@),
            None => None,
        }),
{
    match text {
        Some(t) => str_contains(t, "job_name: \"rate_limit_rest\"") && str_contains(t, "metrics_path: /metrics")
            && str_contains(t, "rest_observability:3000"),
        None => false,
    }
}

pub open spec fn has_title(titles: Seq<Seq<char>>, t: Seq<char>) -> bool {
    exists|i: int| 0 <= i < titles.len() && titles[i] == t
}

/// Grafana provisioning is complete: datasource and dashboard provider
/// configurations exist, and the dashboard has the three required panels.
pub open spec fn spec_grafana_ok(ds_exists: bool, provider_exists: bool, titles: Option<Seq<Seq<char>>>) -> bool {
    ds_exists && provider_exists && match titles {
        Some(ts) => has_title(ts, "Request Throughput"@) && has_title(ts, "Deny Rate"@) && has_title(
            ts,
            "Observed Request Latency (ms)"@,
        ),
        None => false,
    }
}

fn has_title_in(titles: &Vec<String>, t: &str) -> (b: bool)
    ensures
        b == has_title(titles@.map_values(|s: String| s@), t@),
{
    let ghost ts = titles@.map_values(|s: String| s@);
    let n = titles.len();
    let mut i: usize = 0;
    while i < n
        invariant
            n == titles.len(),
            ts == titles@.map_values(|s: String| s@),
            i <= n,
            forall|k: int| 0 <= k < i ==> ts[k] != t@,
        decreases n - i,
    {
        proof {
            assert(ts[i as int] == titles@[i as int]@);
        }
        if str_eq(titles[i].as_str(), t) {
            return true;
        }
        i = i + 1;
    }
    false
}

/// `titles` holds the panel titles of the dashboard, or `None` when the
/// dashboard could not be read or has no panel list.
pub fn grafana_contract_ok(ds_exists: bool, provider_exists: bool, titles: Option<&Vec<String>>) -> (b: bool)
    ensures
        b == spec_grafana_ok(ds_exists, provider_exists, match titles {
            Some(ts) => Some(ts@.map_values(|s: String| s@)),
            None => None,
        }),
{
    let panels_ok = match titles {
        Some(ts) => has_title_in(ts, "Request Throughput") && has_title_in(ts, "Deny Rate") && has_title_in(
            ts,
            "Observed Request Latency (ms)",
        ),
        None => false,
    };
    ds_exists && provider_exists && panels_ok
}

/// Whether the run includes AT-054, AT-055 or AT-056.
pub open spec fn has_observability_ats(rs: Seq<AtResultView>) -> bool {
    has_result(rs, at_label(54)) || has_result(rs, at_label(55)) || has_result(rs, at_label(56))
}

pub fn observability_ats_selected(at_results: &Vec<AtResult>) -> (b: bool)
    ensures
        b == has_observability_ats(results_view(at_results@)),
{
    let ghost rs = results_view(at_results@);
    let n = at_results.len();
    let mut i: usize = 0;
    while i < n
        invariant
            n == at_results.len(),
            rs == results_view(at_results@),
            i <= n,
            forall|k: int| 0 <= k < i ==> rs[k].at_id != at_label(54) && rs[k].at_id != at_label(55) && rs[k].at_id
                != at_label(56),
        decreases n - i,
    {
        proof {
            assert(rs[i as int] == at_results@[i as int]@);
        }
        let id = at_results[i].at_id.as_str();
        if is_at(id, 54) || is_at(id, 55) || is_at(id, 56) {
            return true;
        }
        i = i + 1;
    }
    false
}

/// What the observability checks observed.
pub struct ObservabilityInputs {
    pub prometheus_ok: bool,
    pub grafana_ok: bool,
    pub live_mode: bool,
    pub live_targets_ok: bool,
    pub live_dashboard_ok: bool,
    pub live_details: String,
    pub evidence_written: bool,
    pub prometheus_cfg: String,
    pub grafana_ds: String,
    pub grafana_dashboards: String,
    pub grafana_dashboard_json: String,
    pub live_targets_path: String,
    pub live_dashboards_path: String,
    pub evidence_path: String,
}

pub open spec fn bool_text(b: bool) -> Seq<char> {
    if b { "true"@ } else { "false"@ }
}

/// The verdict on AT-054: the scrape contract must hold and, in live mode,
/// the live target must be healthy.
pub open spec fn spec_verdict_054(i: ObservabilityInputs) -> (Seq<char>, Seq<char>) {
    if i.prometheus_ok && (!i.live_mode || i.live_targets_ok) {
        (
            "pass"@,
            "prometheus scrape contract validated in "@ + i.prometheus_cfg@ + if i.live_mode {
                "; live target health validated: "@ + i.live_targets_path@
            } else {
                Seq::empty()
            },
        )
    } else {
        let base = if i.prometheus_ok {
            "prometheus scrape contract validated in "@ + i.prometheus_cfg@
        } else {
            "prometheus scrape contract invalid or missing: "@ + i.prometheus_cfg@
        };
        if i.live_mode && !i.live_targets_ok {
            ("fail"@, base + "; live probe failed: "@ + i.live_details@)
        } else {
            ("fail"@, base)
        }
    }
}

/// The verdict on AT-055: provisioning must be complete and, in live mode,
/// the live dashboard must be found.
pub open spec fn spec_verdict_055(i: ObservabilityInputs) -> (Seq<char>, Seq<char>) {
    if i.grafana_ok && (!i.live_mode || i.live_dashboard_ok) {
        (
            "pass"@,
            "grafana provisioning contract validated: "@ + i.grafana_ds@ + ", "@ + i.grafana_dashboards@ + ", "@
                + i.grafana_dashboard_json@ + if i.live_mode {
                "; live dashboards API validated: "@ + i.live_dashboards_path@
            } else {
                Seq::empty()
            },
        )
    } else {
        ("fail"@, "grafana provisioning contract invalid or missing required dashboard panels"@)
    }
}

/// The verdict on AT-056: both contracts, the live probes in live mode, and
/// the evidence artifact.
pub open spec fn spec_verdict_056(i: ObservabilityInputs) -> (Seq<char>, Seq<char>) {
    if i.prometheus_ok && i.grafana_ok && (!i.live_mode || i.live_targets_ok) && (!i.live_mode || i.live_dashboard_ok)
        && i.evidence_written {
        ("pass"@, "observability evidence artifact produced: "@ + i.evidence_path@)
    } else {
        (
            "fail"@,
            "observability evidence linkage prerequisites failed (at_054_ok="@ + bool_text(i.prometheus_ok)
                + ", at_055_ok="@ + bool_text(i.grafana_ok) + ", artifact_written="@ + bool_text(
                i.evidence_written,
            ) + ")"@,
        )
    }
}

pub open spec fn spec_observability_checks(rs: Seq<AtResultView>, i: ObservabilityInputs) -> Seq<AtResultView> {
    if !has_observability_ats(rs) {
        rs
    } else {
        let (s54, e54) = spec_verdict_054(i);
        let (s55, e55) = spec_verdict_055(i);
        let (s56, e56) = spec_verdict_056(i);
        set_first(set_first(set_first(rs, at_label(54), s54, e54), at_label(55), s55, e55), at_label(56), s56, e56)
    }
}

fn bool_str(b: bool) -> (s: &'static str)
    ensures
        s@ == bool_text(b),
{
    if b { "true" } else { "false" }
}

/// Applies the observability verdicts; without observability tests in the
/// run nothing changes.
pub fn finalize_observability_contract_checks(at_results: &mut Vec<AtResult>, inputs: &ObservabilityInputs)
    ensures
        results_view(final(at_results)@) == spec_observability_checks(results_view(old(at_results)@), *inputs),
{
    if !observability_ats_selected(at_results) {
        return;
    }
    let i = inputs;
    let (s54, e54): (&str, String) = if i.prometheus_ok && (!i.live_mode || i.live_targets_ok) {
        let mut e = String::from_str("prometheus scrape contract validated in ");
        append_str(&mut e, i.prometheus_cfg.as_str());
        if i.live_mode {
            append_str(&mut e, "; live target health validated: ");
            append_str(&mut e, i.live_targets_path.as_str());
        }
        ("pass", e)
    } else {
        let mut e = if i.prometheus_ok {
            String::from_str("prometheus scrape contract validated in ")
        } else {
            String::from_str("prometheus scrape contract invalid or missing: ")
        };
        append_str(&mut e, i.prometheus_cfg.as_str());
        if i.live_mode && !i.live_targets_ok {
            append_str(&mut e, "; live probe failed: ");
            append_str(&mut e, i.live_details.as_str());
        }
        ("fail", e)
    };
    let ghost v54 = spec_verdict_054(*inputs);
    assert(s54@ == v54.0 && e54@ =~= v54.1);
    let (s55, e55): (&str, String) = if i.grafana_ok && (!i.live_mode || i.live_dashboard_ok) {
        let mut e = String::from_str("grafana provisioning contract validated: ");
        append_str(&mut e, i.grafana_ds.as_str());
        append_str(&mut e, ", ");
        append_str(&mut e, i.grafana_dashboards.as_str());
        append_str(&mut e, ", ");
        append_str(&mut e, i.grafana_dashboard_json.as_str());
        if i.live_mode {
            append_str(&mut e, "; live dashboards API validated: ");
            append_str(&mut e, i.live_dashboards_path.as_str());
        }
        ("pass", e)
    } else {
        ("fail", String::from_str("grafana provisioning contract invalid or missing required dashboard panels"))
    };
    let ghost v55 = spec_verdict_055(*inputs);
    assert(s55@ == v55.0 && e55@ =~= v55.1);
    let (s56, e56): (&str, String) = if i.prometheus_ok && i.grafana_ok && (!i.live_mode || i.live_targets_ok) && (
    !i.live_mode || i.live_dashboard_ok) && i.evidence_written {
        let mut e = String::from_str("observability evidence artifact produced: ");
        append_str(&mut e, i.evidence_path.as_str());
        ("pass", e)
    } else {
        let mut e = String::from_str("observability evidence linkage prerequisites failed (at_054_ok=");
        append_str(&mut e, bool_str(i.prometheus_ok));
        append_str(&mut e, ", at_055_ok=");
        append_str(&mut e, bool_str(i.grafana_ok));
        append_str(&mut e, ", artifact_written=");
        append_str(&mut e, bool_str(i.evidence_written));
        append_str(&mut e, ")");
        ("fail", e)
    };
    let ghost v56 = spec_verdict_056(*inputs);
    assert(s56@ == v56.0 && e56@ =~= v56.1);
    set_first_result(at_results, 54, s54, e54);
    set_first_result(at_results, 55, s55, e55);
    set_first_result(at_results, 56, s56, e56);
}

/// The verdict on AT-056 from the run report: the report must have the
/// observability section and link the evidence artifact.
pub open spec fn spec_report_link(rs: Seq<AtResultView>, report_md: Seq<char>, evidence_path: Seq<char>, report_md_path: Seq<char>) -> Seq<AtResultView> {
    if contains(report_md, "## Observability Evidence"@) && contains(report_md, evidence_path) {
        set_first(rs, at_label(56), "pass"@, "run report links observability evidence artifact: "@ + evidence_path)
    } else {
        set_first(rs, at_label(56), "fail"@, "run report missing observability evidence section/link: "@ + report_md_path)
    }
}

/// Checks that the run report links the observability evidence; without
/// an AT-056 result nothing changes.
pub fn finalize_observability_report_link_check(
    at_results: &mut Vec<AtResult>,
    report_md: &str,
    evidence_path: &str,
    report_md_path: &str,
)
    ensures
        results_view(final(at_results)@) == spec_report_link(results_view(old(at_results)@), report_md@, evidence_path@, report_md_path@),
{
    if str_contains(report_md, "## Observability Evidence") && str_contains(report_md, evidence_path) {
        let mut e = String::from_str("run report links observability evidence artifact: ");
        append_str(&mut e, evidence_path);
        set_first_result(at_results, 56, "pass", e);
    } else {
        let mut e = String::from_str("run report missing observability evidence section/link: ");
        append_str(&mut e, report_md_path);
        set_first_result(at_results, 56, "fail", e);
    }
}

} // verus!

verus! {

/// The live Prometheus target listing shows the REST adapter job up.
pub open spec fn spec_live_targets_ok(body: Seq<char>) -> bool {
    contains(body, "\"job\":\"rate_limit_rest\""@) && (contains(body, "\"health\":\"up\""@) || contains(
        body,
        "\"health\":\"UP\""@,
    ))
}

pub fn live_targets_ok(body: &str) -> (b: bool)
    ensures
        b == spec_live_targets_ok(body@),
{
    str_contains(body, "\"job\":\"rate_limit_rest\"") && (str_contains(body, "\"health\":\"up\"") || str_contains(
        body,
        "\"health\":\"UP\"",
    ))
}

/// The live Grafana search finds the overview dashboard by title and id.
pub open spec fn spec_live_dashboard_ok(body: Seq<char>) -> bool {
    contains(body, "Rate Limit Lab Overview"@) && contains(body, "rate-limit-lab-overview"@)
}

pub fn live_dashboard_ok(body: &str) -> (b: bool)
    ensures
        b == spec_live_dashboard_ok(body@),
{
    str_contains(body, "Rate Limit Lab Overview") && str_contains(body, "rate-limit-lab-overview")
}

} // verus!
