//! Preflight checks of an evaluation run and the preparation of the
//! distributed backend.

use vstd::prelude::*;

use crate::at_registry::{at_label, views};
use crate::harness_model::{BackendPreparation, Preflight, PreflightCheck, ProcessResult};
use crate::run_checks::is_at;
use crate::text::append_str;

verus! {

pub struct PreflightCheckView {
    pub name: Seq<char>,
    pub required: bool,
    pub passed: bool,
    pub details: Seq<char>,
}

impl View for PreflightCheck {
    type V = PreflightCheckView;

    open spec fn view(&self) -> PreflightCheckView {
        PreflightCheckView { name: self.name@, required: self.required, passed: self.passed, details: self.details@ }
    }
}

pub open spec fn checks_view(v: Seq<PreflightCheck>) -> Seq<PreflightCheckView> {
    v.map_values(|c: PreflightCheck| c@)
}

/// The run selected AT-016 or AT-017.
pub open spec fn distributed_requested(selected: Seq<Seq<char>>) -> bool {
    exists|i: int| 0 <= i < selected.len() && (selected[i] == at_label(16) || selected[i] == at_label(17))
}

pub open spec fn check_view(name: Seq<char>, required: bool, passed: bool, details: Seq<char>) -> PreflightCheckView {
    PreflightCheckView { name, required, passed, details }
}

/// The preflight checks of a run, in order.
pub open spec fn spec_preflight_checks(
    selector: Seq<char>,
    run_id_unique: bool,
    run_dir_exists: bool,
    selected: Seq<Seq<char>>,
    redis_url_present: bool,
    prep: Option<(bool, Seq<char>)>,
) -> Seq<PreflightCheckView> {
    let dr = distributed_requested(selected);
    let base = seq![
        check_view("selector_valid"@, true, selector.len() > 0, "selector must be non-empty"@),
        check_view("run_id_unique"@, true, run_id_unique, "run directory must not already exist"@),
        check_view("artifact_paths_writable"@, true, run_dir_exists, "run directory created successfully"@),
        check_view(
            "redis_url_present_for_distributed"@,
            dr,
            !dr || redis_url_present,
            if dr {
                "AT-016/AT-017 selected; REDIS_URL required for full distributed execution"@
            } else {
                "distributed ATs not selected"@
            },
        ),
    ];
    if dr {
        base.push(match prep {
            Some((ready, details)) => check_view("distributed_backend_ready"@, true, ready, details),
            None => check_view(
                "distributed_backend_ready"@,
                true,
                false,
                "distributed backend preflight missing; this is a harness bug"@,
            ),
        })
    } else {
        base
    }
}

/// A preflight passes when every required check passed.
pub open spec fn all_required_passed(checks: Seq<PreflightCheckView>) -> bool {
    forall|i: int| 0 <= i < checks.len() && checks[i].required ==> checks[i].passed
}

pub open spec fn prep_opt_view(prep: Option<&BackendPreparation>) -> Option<(bool, Seq<char>)> {
    match prep {
        Some(p) => Some((p.ready, p.details@)),
        None => None,
    }
}

fn check(name: &str, required: bool, passed: bool, details: String) -> (c: PreflightCheck)
    ensures
        c@ == check_view(name@, required, passed, details@),
{
    PreflightCheck { name: String::from_str(name), required, passed, details }
}

/// Runs the preflight checks of a run.
pub fn build_preflight(
    selector: &str,
    run_id_unique: bool,
    run_dir_exists: bool,
    selected_ats: &Vec<String>,
    redis_url_present: bool,
    distributed_backend_ready: Option<&BackendPreparation>,
) -> (p: Preflight)
    ensures
        checks_view(p.checks@) == spec_preflight_checks(
            selector@,
            run_id_unique,
            run_dir_exists,
            views(selected_ats@),
            redis_url_present,
            prep_opt_view(distributed_backend_ready),
        ),
        p.passed == all_required_passed(checks_view(p.checks@)),
{
    let ghost sel = views(selected_ats@);
    let n = selected_ats.len();
    let mut dr = false;
    let mut i: usize = 0;
    while i < n
        invariant
            n == selected_ats.len(),
            sel == views(selected_ats@),
            i <= n,
            dr == exists|k: int| 0 <= k < i && (sel[k] == at_label(16) || sel[k] == at_label(17)),
        decreases n - i,
    {
        proof {
            assert(sel[i as int] == selected_ats@[i as int]@);
        }
        let id = selected_ats[i].as_str();
        if is_at(id, 16) || is_at(id, 17) {
            dr = true;
        }
        i = i + 1;
    }
    let mut checks: Vec<PreflightCheck> = Vec::new();
    checks.push(check("selector_valid", true, selector.unicode_len() > 0, String::from_str("selector must be non-empty")));
    checks.push(check("run_id_unique", true, run_id_unique, String::from_str("run directory must not already exist")));
    checks.push(check("artifact_paths_writable", true, run_dir_exists, String::from_str("run directory created successfully")));
    let details = if dr {
        String::from_str("AT-016/AT-017 selected; REDIS_URL required for full distributed execution")
    } else {
        String::from_str("distributed ATs not selected")
    };
    checks.push(check("redis_url_present_for_distributed", dr, !dr || redis_url_present, details));
    if dr {
        let c = match distributed_backend_ready {
            Some(prep) => check("distributed_backend_ready", true, prep.ready, prep.details.clone()),
            None => check(
                "distributed_backend_ready",
                true,
                false,
                String::from_str("distributed backend preflight missing; this is a harness bug"),
            ),
        };
        checks.push(c);
    }
    let ghost expected = spec_preflight_checks(
        selector@,
        run_id_unique,
        run_dir_exists,
        sel,
        redis_url_present,
        prep_opt_view(distributed_backend_ready),
    );
    assert(checks_view(checks@) =~= expected);
    let m = checks.len();
    let mut passed = true;
    let mut j: usize = 0;
    while j < m
        invariant
            m == checks.len(),
            j <= m,
            passed == forall|k: int| 0 <= k < j && checks@[k].required ==> checks@[k].passed,
        decreases m - j,
    {
        if checks[j].required && !checks[j].passed {
            passed = false;
        }
        j = j + 1;
    }
    proof {
        let cv = checks_view(checks@);
        assert(cv.len() == m);
        assert forall|k: int| 0 <= k < m implies #[trigger] cv[k] == checks@[k]@ by {}
        if passed {
            assert forall|k: int| 0 <= k < cv.len() && cv[k].required implies cv[k].passed by {
                assert(cv[k] == checks@[k]@);
            }
        } else {
            let k = choose|k: int| !(0 <= k < m && checks@[k].required ==> checks@[k].passed);
            assert(cv[k] == checks@[k]@);
        }
    }
    Preflight { passed, checks }
}

/// A preflight passes exactly when the selector is non-empty, the run
/// directory is new and was created, and, when AT-016 or AT-017 is
/// selected, the store URL is set and the backend is ready.
pub proof fn preflight_passes_iff(
    selector: Seq<char>,
    run_id_unique: bool,
    run_dir_exists: bool,
    selected: Seq<Seq<char>>,
    redis_url_present: bool,
    prep: Option<(bool, Seq<char>)>,
)
    ensures
        all_required_passed(spec_preflight_checks(selector, run_id_unique, run_dir_exists, selected, redis_url_present, prep))
            <==> {
            &&& selector.len() > 0
            &&& run_id_unique
            &&& run_dir_exists
            &&& distributed_requested(selected) ==> (redis_url_present && prep matches Some((true, _)))
        },
{
    let checks = spec_preflight_checks(selector, run_id_unique, run_dir_exists, selected, redis_url_present, prep);
    if all_required_passed(checks) {
        assert(checks[0].required && checks[1].required && checks[2].required);
        if distributed_requested(selected) {
            assert(checks[3].required);
            assert(checks[4].required);
        }
    }
}

/// What the backend preparation does next.
#[derive(Clone, Debug)]
pub enum BackendPrepStep {
    /// The preparation is over.
    Done(BackendPreparation),
    /// Run `make redis-up`.
    RunRedisUp,
    /// Run the fixed-window backend probe test.
    RunProbe,
}

pub open spec fn prep_result(ready: bool, details: Seq<char>, p: BackendPreparation) -> bool {
    p.ready == ready && p.details@ == details
}

/// Starts preparing the distributed backend: it needs the store URL.
pub fn prepare_distributed_backend(redis_url_present: bool) -> (s: BackendPrepStep)
    ensures
        redis_url_present ==> s is RunRedisUp,
        !redis_url_present ==> (s matches BackendPrepStep::Done(p) && prep_result(false, "REDIS_URL not set"@, p)),
{
    if !redis_url_present {
        BackendPrepStep::Done(BackendPreparation { ready: false, details: String::from_str("REDIS_URL not set") })
    } else {
        BackendPrepStep::RunRedisUp
    }
}

/// After `make redis-up`: on failure the backend is not ready.
pub fn after_redis_up(result: &ProcessResult) -> (s: BackendPrepStep)
    ensures
        result.success ==> s is RunProbe,
        !result.success ==> (s matches BackendPrepStep::Done(p) && prep_result(
            false,
            "`make redis-up` failed: "@ + result.details@,
            p,
        )),
{
    if !result.success {
        let mut d = String::from_str("`make redis-up` failed: ");
        append_str(&mut d, result.details.as_str());
        BackendPrepStep::Done(BackendPreparation { ready: false, details: d })
    } else {
        BackendPrepStep::RunProbe
    }
}

/// After the backend probe: the backend is ready exactly when the probe passed.
pub fn after_backend_probe(result: &ProcessResult) -> (p: BackendPreparation)
    ensures
        result.success ==> prep_result(true, "redis backend ready via `make redis-up` and fixed-window probe"@, p),
        !result.success ==> prep_result(false, "redis backend probe failed: "@ + result.details@, p),
{
    if !result.success {
        let mut d = String::from_str("redis backend probe failed: ");
        append_str(&mut d, result.details.as_str());
        BackendPreparation { ready: false, details: d }
    } else {
        BackendPreparation {
            ready: true,
            details: String::from_str("redis backend ready via `make redis-up` and fixed-window probe"),
        }
    }
}

/// The arguments of the backend probe: the fixed-window store test.
pub fn backend_probe_args() -> (v: Vec<&'static str>)
    ensures
        v@ == seq![
            "test",
            "-p",
            "state_backend",
            "--features",
            "redis-tests",
            "redis_backend_fixed_window_allows_then_denies",
            "--",
            "--exact",
        ],
{
    let v = vec![
        "test",
        "-p",
        "state_backend",
        "--features",
        "redis-tests",
        "redis_backend_fixed_window_allows_then_denies",
        "--",
        "--exact",
    ];
    assert(v@ =~= seq![
        "test",
        "-p",
        "state_backend",
        "--features",
        "redis-tests",
        "redis_backend_fixed_window_allows_then_denies",
        "--",
        "--exact",
    ]);
    v
}

} // verus!
