//! Contract checks applied after the acceptance tests ran, artifact
//! validation, and the run's overall verdict.

use vstd::prelude::*;

use crate::at_engine::result_view;
use crate::at_registry::{at_label, at_label_round_trip, at_number, parse_at_id};
use crate::harness_model::{results_view, AtResult, AtResultView};
use crate::run_checks::{is_at, set_first, set_first_result};
use crate::text::{append_decimal, append_str, decimal, str_eq};

verus! {

/// The verdict on AT-012 (reproducibility): it needs at least two runs;
/// `deltas` is the rendered pair of measured deltas.
pub open spec fn spec_repro_verdict(repeat_runs: u32, gate_passed: bool, deltas: Seq<char>) -> (Seq<char>, Seq<char>) {
    if repeat_runs < 2 {
        (
            "skipped"@,
            "repeatability contract requires --repeat >= 2; observed repeat="@ + decimal(repeat_runs as nat)
                + ", marking skipped"@,
        )
    } else if gate_passed {
        ("pass"@, "repeatability gate passed: "@ + deltas)
    } else {
        ("fail"@, "repeatability gate failed: "@ + deltas)
    }
}

/// The verdict on AT-029 (failure timeline): the timeline artifact must exist.
pub open spec fn spec_timeline_verdict(timeline_exists: bool, timeline_path: Seq<char>) -> (Seq<char>, Seq<char>) {
    if timeline_exists {
        ("pass"@, "failure timeline artifact produced: "@ + timeline_path)
    } else {
        ("fail"@, "missing failure timeline artifact"@)
    }
}

/// AT-030 through AT-034 compare round-robin and single-address topologies.
pub open spec fn is_topology_at(id: Seq<char>) -> bool {
    at_number(id) matches Some(n) && 30 <= n <= 34
}

pub open spec fn is_rr_at(id: Seq<char>) -> bool {
    id == at_label(30) || id == at_label(32)
}

pub open spec fn is_sa_at(id: Seq<char>) -> bool {
    id == at_label(31) || id == at_label(33)
}

/// The verdict on every topology test: with the comparison artifact they
/// pass; without it they fail when both topologies were run, and are
/// skipped otherwise.
pub open spec fn spec_topology_verdict(rs: Seq<AtResultView>, comparison_available: bool, comparison_path: Seq<char>) -> (Seq<char>, Seq<char>) {
    let full = (exists|i: int| 0 <= i < rs.len() && is_rr_at(rs[i].at_id)) && (exists|i: int|
        0 <= i < rs.len() && is_sa_at(rs[i].at_id));
    if !comparison_available {
        if full {
            ("fail"@, "missing rr_sa_comparison evidence for topology/fairness ATs"@)
        } else {
            ("skipped"@, "single-AT topology run skipped: RR/SA comparison requires combined RR+SA context"@)
        }
    } else {
        ("pass"@, "RR/SA comparison artifact produced: "@ + comparison_path)
    }
}

pub open spec fn spec_topology_phase(rs: Seq<AtResultView>, comparison_available: bool, comparison_path: Seq<char>) -> Seq<AtResultView> {
    let (status, evidence) = spec_topology_verdict(rs, comparison_available, comparison_path);
    Seq::new(
        rs.len(),
        |i: int| if is_topology_at(rs[i].at_id) {
            result_view(rs[i].at_id, status, evidence)
        } else {
            rs[i]
        },
    )
}

/// All post-run checks: reproducibility, then the failure timeline, then
/// the topology comparison.
pub open spec fn spec_post_run(
    rs: Seq<AtResultView>,
    repeat_runs: u32,
    gate_passed: bool,
    deltas: Seq<char>,
    timeline_exists: bool,
    timeline_path: Seq<char>,
    comparison_available: bool,
    comparison_path: Seq<char>,
) -> Seq<AtResultView> {
    let (s12, e12) = spec_repro_verdict(repeat_runs, gate_passed, deltas);
    let r1 = set_first(rs, at_label(12), s12, e12);
    let (s29, e29) = spec_timeline_verdict(timeline_exists, timeline_path);
    let r2 = set_first(r1, at_label(29), s29, e29);
    spec_topology_phase(r2, comparison_available, comparison_path)
}

fn topology_at(id: &str) -> (b: bool)
    ensures
        b == is_topology_at(id@),
{
    match parse_at_id(id) {
        Some(n) => 30 <= n && n <= 34,
        None => false,
    }
}

/// Applies the post-run contract checks. `deltas` is the rendered pair of
/// reproducibility deltas; `comparison_available` says whether the RR/SA
/// comparison was computed and its artifact exists.
pub fn finalize_post_run_contract_checks(
    at_results: &mut Vec<AtResult>,
    repeat_runs: u32,
    gate_passed: bool,
    deltas: &str,
    timeline_exists: bool,
    timeline_path: &str,
    comparison_available: bool,
    comparison_path: &str,
)
    ensures
        results_view(final(at_results)@) == spec_post_run(
            results_view(old(at_results)@),
            repeat_runs,
            gate_passed,
            deltas@,
            timeline_exists,
            timeline_path@,
            comparison_available,
            comparison_path@,
        ),
{
    if repeat_runs < 2 {
        let mut e = String::from_str("repeatability contract requires --repeat >= 2; observed repeat=");
        append_decimal(&mut e, repeat_runs as u64);
        append_str(&mut e, ", marking skipped");
        set_first_result(at_results, 12, "skipped", e);
    } else if gate_passed {
        let mut e = String::from_str("repeatability gate passed: ");
        append_str(&mut e, deltas);
        set_first_result(at_results, 12, "pass", e);
    } else {
        let mut e = String::from_str("repeatability gate failed: ");
        append_str(&mut e, deltas);
        set_first_result(at_results, 12, "fail", e);
    }
    if timeline_exists {
        let mut e = String::from_str("failure timeline artifact produced: ");
        append_str(&mut e, timeline_path);
        set_first_result(at_results, 29, "pass", e);
    } else {
        set_first_result(at_results, 29, "fail", String::from_str("missing failure timeline artifact"));
    }

    let ghost rs = results_view(at_results@);
    let n = at_results.len();
    let mut has_rr = false;
    let mut has_sa = false;
    let mut i: usize = 0;
    while i < n
        invariant
            n == at_results.len(),
            rs == results_view(at_results@),
            i <= n,
            has_rr == exists|k: int| 0 <= k < i && is_rr_at(rs[k].at_id),
            has_sa == exists|k: int| 0 <= k < i && is_sa_at(rs[k].at_id),
        decreases n - i,
    {
        proof {
            assert(rs[i as int] == at_results@[i as int]@);
        }
        let id = at_results[i].at_id.as_str();
        if is_at(id, 30) || is_at(id, 32) {
            has_rr = true;
        }
        if is_at(id, 31) || is_at(id, 33) {
            has_sa = true;
        }
        i = i + 1;
    }
    let (status, evidence): (&str, String) = if !comparison_available {
        if has_rr && has_sa {
            ("fail", String::from_str("missing rr_sa_comparison evidence for topology/fairness ATs"))
        } else {
            ("skipped", String::from_str("single-AT topology run skipped: RR/SA comparison requires combined RR+SA context"))
        }
    } else {
        let mut e = String::from_str("RR/SA comparison artifact produced: ");
        append_str(&mut e, comparison_path);
        ("pass", e)
    };
    let ghost verdict = spec_topology_verdict(rs, comparison_available, comparison_path@);
    assert(status@ == verdict.0 && evidence@ == verdict.1);
    let mut j: usize = 0;
    while j < n
        invariant
            n == at_results.len(),
            j <= n,
            rs.len() == n,
            status@ == verdict.0,
            evidence@ == verdict.1,
            forall|k: int| 0 <= k < j ==> #[trigger] results_view(at_results@)[k] == (if is_topology_at(rs[k].at_id) {
                result_view(rs[k].at_id, verdict.0, verdict.1)
            } else {
                rs[k]
            }),
            forall|k: int| j <= k < n ==> #[trigger] results_view(at_results@)[k] == rs[k],
        decreases n - j,
    {
        proof {
            assert(results_view(at_results@)[j as int] == at_results@[j as int]@);
        }
        if topology_at(at_results[j].at_id.as_str()) {
            let r = AtResult {
                at_id: at_results[j].at_id.clone(),
                status: String::from_str(status),
                evidence: evidence.clone(),
            };
            let ghost before = at_results@;
            at_results.set(j, r);
            proof {
                assert forall|k: int| 0 <= k < n && k != j implies #[trigger] results_view(at_results@)[k]
                    == results_view(before)[k] by {
                    assert(at_results@[k] == before[k]);
                }
            }
        }
        j = j + 1;
    }
    assert(results_view(at_results@) =~= spec_topology_phase(rs, comparison_available, comparison_path@));
}

/// `Ok` when every artifact exists; otherwise the error names the path of
/// the first missing one.
pub open spec fn spec_validate_artifacts(paths: Seq<Seq<char>>, exists: Seq<bool>) -> Result<(), Seq<char>>
    decreases paths.len(),
{
    if paths.len() == 0 || exists.len() == 0 {
        Ok(())
    } else if !exists[0] {
        Err("missing required artifact: "@ + paths[0])
    } else {
        spec_validate_artifacts(paths.drop_first(), exists.drop_first())
    }
}

proof fn lemma_validate_artifacts_skip(paths: Seq<Seq<char>>, exists: Seq<bool>, i: int)
    requires
        0 <= i <= paths.len(),
        paths.len() == exists.len(),
        forall|k: int| 0 <= k < i ==> exists[k],
    ensures
        spec_validate_artifacts(paths, exists) == spec_validate_artifacts(
            paths.subrange(i, paths.len() as int),
            exists.subrange(i, exists.len() as int),
        ),
    decreases i,
{
    if i == 0 {
        assert(paths.subrange(0, paths.len() as int) =~= paths);
        assert(exists.subrange(0, exists.len() as int) =~= exists);
    } else {
        assert(exists[0]);
        assert(paths.drop_first().subrange(i - 1, paths.drop_first().len() as int) =~= paths.subrange(i, paths.len() as int));
        assert(exists.drop_first().subrange(i - 1, exists.drop_first().len() as int) =~= exists.subrange(i, exists.len() as int));
        assert forall|k: int| 0 <= k < i - 1 implies exists.drop_first()[k] by {
            assert(exists.drop_first()[k] == exists[k + 1]);
        }
        lemma_validate_artifacts_skip(paths.drop_first(), exists.drop_first(), i - 1);
    }
}

/// Checks that every required artifact exists; `paths[i]` is the path of
/// the `i`-th artifact and `exists[i]` whether it is present.
pub fn validate_required_artifacts(paths: &Vec<String>, exists: &Vec<bool>) -> (r: Result<(), String>)
    requires
        paths.len() == exists.len(),
    ensures
        match (r, spec_validate_artifacts(paths@.map_values(|p: String| p@), exists@)) {
            (Ok(()), Ok(())) => true,
            (Err(m), Err(sm)) => m@ == sm,
            _ => false,
        },
{
    let ghost ps = paths@.map_values(|p: String| p@);
    let n = paths.len();
    let mut i: usize = 0;
    while i < n
        invariant
            n == paths.len(),
            n == exists.len(),
            ps == paths@.map_values(|p: String| p@),
            i <= n,
            forall|k: int| 0 <= k < i ==> exists@[k],
        decreases n - i,
    {
        if !exists[i] {
            proof {
                lemma_validate_artifacts_skip(ps, exists@, i as int);
                assert(ps.subrange(i as int, ps.len() as int)[0] == paths@[i as int]@);
                assert(exists@.subrange(i as int, exists@.len() as int)[0] == exists@[i as int]);
            }
            let mut m = String::from_str("missing required artifact: ");
            append_str(&mut m, paths[i].as_str());
            return Err(m);
        }
        i = i + 1;
    }
    proof {
        lemma_validate_artifacts_skip(ps, exists@, n as int);
    }
    Ok(())
}

/// Whether any result has the given status.
pub open spec fn any_status(rs: Seq<AtResultView>, status: Seq<char>) -> bool {
    exists|i: int| 0 <= i < rs.len() && rs[i].status == status
}

/// The AT-050 missing-artifact probe passed.
pub open spec fn probe_passed(rs: Seq<AtResultView>) -> bool {
    exists|i: int| 0 <= i < rs.len() && rs[i].at_id == at_label(50) && rs[i].status == "pass"@
}

/// The run fails when a test failed, a test is not implemented, or the
/// reproducibility gate failed.
pub open spec fn spec_run_status(rs: Seq<AtResultView>, gate_passed: bool) -> Seq<char> {
    if any_status(rs, "fail"@) || any_status(rs, "not_implemented"@) || !gate_passed {
        "fail"@
    } else {
        "pass"@
    }
}

/// The triage labels of a run, in order.
pub open spec fn spec_triage_labels(rs: Seq<AtResultView>, gate_passed: bool) -> Seq<Seq<char>> {
    let missing = if any_status(rs, "not_implemented"@) || probe_passed(rs) {
        seq!["MISSING_REQUIRED_EVIDENCE"@]
    } else {
        Seq::empty()
    };
    let failure = if any_status(rs, "fail"@) { seq!["EXECUTION_FAILURE"@] } else { Seq::empty() };
    let repro = if !gate_passed { seq!["NON_REPRODUCIBLE_RUN"@] } else { Seq::empty() };
    missing + failure + repro
}

/// The overall verdict of a run, with its triage labels.
pub struct RunVerdict {
    pub status: &'static str,
    pub triage_labels: Vec<&'static str>,
}

pub fn run_verdict(at_results: &Vec<AtResult>, gate_passed: bool) -> (v: RunVerdict)
    ensures
        v.status@ == spec_run_status(results_view(at_results@), gate_passed),
        v.triage_labels@.map_values(|l: &'static str| l@) == spec_triage_labels(results_view(at_results@), gate_passed),
{
    let ghost rs = results_view(at_results@);
    let n = at_results.len();
    let mut has_fail = false;
    let mut has_ni = false;
    let mut has_probe = false;
    let mut i: usize = 0;
    while i < n
        invariant
            n == at_results.len(),
            rs == results_view(at_results@),
            i <= n,
            has_fail == exists|k: int| 0 <= k < i && rs[k].status == "fail"@,
            has_ni == exists|k: int| 0 <= k < i && rs[k].status == "not_implemented"@,
            has_probe == exists|k: int| 0 <= k < i && rs[k].at_id == at_label(50) && rs[k].status == "pass"@,
        decreases n - i,
    {
        proof {
            assert(rs[i as int] == at_results@[i as int]@);
        }
        let st = at_results[i].status.as_str();
        if str_eq(st, "fail") {
            has_fail = true;
        }
        if str_eq(st, "not_implemented") {
            has_ni = true;
        }
        if is_at(at_results[i].at_id.as_str(), 50) && str_eq(st, "pass") {
            has_probe = true;
        }
        i = i + 1;
    }
    let status = if has_fail || has_ni || !gate_passed { "fail" } else { "pass" };
    let mut labels: Vec<&'static str> = Vec::new();
    if has_ni || has_probe {
        labels.push("MISSING_REQUIRED_EVIDENCE");
    }
    if has_fail {
        labels.push("EXECUTION_FAILURE");
    }
    if !gate_passed {
        labels.push("NON_REPRODUCIBLE_RUN");
    }
    assert(labels@.map_values(|l: &'static str| l@) =~= spec_triage_labels(rs, gate_passed));
    RunVerdict { status, triage_labels: labels }
}

/// A run passes exactly when the reproducibility gate passed and no test
/// failed or is unimplemented; otherwise it fails. Unimplemented tests and
/// a passed missing-artifact probe are flagged as missing evidence, failed
/// tests as an execution failure, and a failed gate as non-reproducible.
pub proof fn run_verdict_law(rs: Seq<AtResultView>, gate_passed: bool)
    ensures
        spec_run_status(rs, gate_passed) == "pass"@ <==> (gate_passed && forall|i: int|
            0 <= i < rs.len() ==> rs[i].status != "fail"@ && rs[i].status != "not_implemented"@),
        spec_run_status(rs, gate_passed) == "pass"@ || spec_run_status(rs, gate_passed) == "fail"@,
        spec_triage_labels(rs, gate_passed).contains("MISSING_REQUIRED_EVIDENCE"@) <==> exists|i: int|
            0 <= i < rs.len() && (rs[i].status == "not_implemented"@ || (rs[i].at_id == at_label(50)
                && rs[i].status == "pass"@)),
        spec_triage_labels(rs, gate_passed).contains("EXECUTION_FAILURE"@) <==> exists|i: int|
            0 <= i < rs.len() && rs[i].status == "fail"@,
        spec_triage_labels(rs, gate_passed).contains("NON_REPRODUCIBLE_RUN"@) <==> !gate_passed,
{
    reveal_strlit("pass");
    reveal_strlit("fail");
    reveal_strlit("not_implemented");
    reveal_strlit("MISSING_REQUIRED_EVIDENCE");
    reveal_strlit("EXECUTION_FAILURE");
    reveal_strlit("NON_REPRODUCIBLE_RUN");
    let labels = spec_triage_labels(rs, gate_passed);
    let m = "MISSING_REQUIRED_EVIDENCE"@;
    let e = "EXECUTION_FAILURE"@;
    let n = "NON_REPRODUCIBLE_RUN"@;
    assert(m != e && m != n && e != n) by {
        assert(m[0] != e[0] && m[0] != n[0] && e[0] != n[0]);
    }
    if labels.contains(m) {
        let k = choose|k: int| 0 <= k < labels.len() && labels[k] == m;
        if !(any_status(rs, "not_implemented"@) || probe_passed(rs)) {
            assert(labels[k] == e || labels[k] == n);
        }
    }
    if any_status(rs, "not_implemented"@) || probe_passed(rs) {
        assert(labels[0] == m);
    }
    if labels.contains(e) {
        let k = choose|k: int| 0 <= k < labels.len() && labels[k] == e;
        if !any_status(rs, "fail"@) {
            assert(labels[k] == m || labels[k] == n);
        }
    }
    if any_status(rs, "fail"@) {
        let off = if any_status(rs, "not_implemented"@) || probe_passed(rs) { 1int } else { 0int };
        assert(labels[off] == e);
    }
    if labels.contains(n) {
        let k = choose|k: int| 0 <= k < labels.len() && labels[k] == n;
        if gate_passed {
            assert(labels[k] == m || labels[k] == e);
        }
    }
    if !gate_passed {
        assert(labels[labels.len() - 1] == n);
    }
    assert("pass"@ != "fail"@) by {
        assert("pass"@[0] != "fail"@[0]);
    }
}

} // verus!
