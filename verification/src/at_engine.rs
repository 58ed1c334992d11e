//! Execution of acceptance tests. Running a test may need an external
//! command; `execute_at` decides what to do, and the completion functions
//! turn the command's outcome into the test's result.

use vstd::prelude::*;

use crate::at_registry::{at_lifecycle_label, at_registry_entry, spec_lifecycle_label, spec_registry_entry, AtExecutor, AtLifecycleStatus};
use crate::harness_model::{AtResult, AtResultView, BackendPreparation, ProcessResult};
use crate::text::{append_str, contains, str_contains};

verus! {

pub open spec fn result_view(at_id: Seq<char>, status: Seq<char>, evidence: Seq<char>) -> AtResultView {
    AtResultView { at_id, status, evidence }
}

/// Builds a result with the given identifier, status and evidence.
pub fn at_result(at_id: &str, status: &str, evidence: String) -> (r: AtResult)
    ensures
        r@ == result_view(at_id@, status@, evidence@),
{
    AtResult { at_id: String::from_str(at_id), status: String::from_str(status), evidence }
}

/// What the harness does for one acceptance test.
#[derive(Clone, Debug)]
pub enum AtStep {
    /// The test's result is known without running anything.
    Finished(AtResult),
    /// Run `cargo test -p package test_name [--features f] -- --exact`.
    RunCargoTest { package: &'static str, test_name: &'static str, features: Option<&'static str> },
    /// Run the synthetic missing-artifact probe.
    RunMissingArtifactProbe,
}

pub open spec fn prep_view(prep: Option<&BackendPreparation>) -> Option<(bool, Seq<char>)> {
    match prep {
        Some(p) => Some((p.ready, p.details@)),
        None => None,
    }
}

/// The result of a distributed-backend acceptance test: it needs the store
/// URL and a ready backend.
pub open spec fn spec_distributed_result(
    at_id: Seq<char>,
    redis_url_present: bool,
    prep: Option<(bool, Seq<char>)>,
    pass_evidence: Seq<char>,
) -> AtResultView {
    if !redis_url_present {
        result_view(at_id, "fail"@, "REDIS_URL not set"@)
    } else {
        match prep {
            Some((true, _)) => result_view(at_id, "pass"@, pass_evidence),
            Some((false, details)) => result_view(at_id, "fail"@, "distributed backend not ready: "@ + details),
            None => result_view(at_id, "fail"@, "missing distributed backend readiness evidence"@),
        }
    }
}

/// The evidence of a test that the registry does not let run.
pub open spec fn spec_blocked_evidence(status: AtLifecycleStatus, reason: Option<&'static str>) -> Seq<char> {
    "AT lifecycle="@ + spec_lifecycle_label(status)@ + " blocked: "@ + match reason {
        Some(r) => r@,
        None => "missing non-ready reason in registry"@,
    }
}

/// What `execute_at` does for `at_id`.
pub open spec fn spec_execute_at(
    step: AtStep,
    at_id: Seq<char>,
    redis_url_present: bool,
    prep: Option<(bool, Seq<char>)>,
) -> bool {
    let e = spec_registry_entry(at_id);
    if e.lifecycle != AtLifecycleStatus::Ready {
        step matches AtStep::Finished(r) && r@ == result_view(
            at_id,
            "fail"@,
            spec_blocked_evidence(e.lifecycle, e.non_ready_reason),
        )
    } else {
        match e.executor {
            AtExecutor::Distributed016 => step matches AtStep::Finished(r) && r@ == spec_distributed_result(
                at_id,
                redis_url_present,
                prep,
                "redis fixed-window backend probe passed"@,
            ),
            AtExecutor::Distributed017 => step matches AtStep::Finished(r) && r@ == spec_distributed_result(
                at_id,
                redis_url_present,
                prep,
                "distributed trace evidence preconditions satisfied"@,
            ),
            AtExecutor::MissingArtifactContract => step is RunMissingArtifactProbe,
            AtExecutor::DeterministicScenario { evidence } => step matches AtStep::Finished(r) && r@
                == result_view(at_id, "pass"@, evidence@),
            AtExecutor::CargoTest { package, test_name, features } => step == (AtStep::RunCargoTest {
                package,
                test_name,
                features,
            }),
            AtExecutor::ReadyPlaceholder => step matches AtStep::Finished(r) && r@ == result_view(
                at_id,
                "not_implemented"@,
                "AT is ready in registry but executor is not implemented yet"@,
            ),
        }
    }
}

fn distributed_result(
    at_id: &str,
    redis_url_present: bool,
    prep: Option<&BackendPreparation>,
    pass_evidence: &str,
) -> (r: AtResult)
    ensures
        r@ == spec_distributed_result(at_id@, redis_url_present, prep_view(prep), pass_evidence@),
{
    if !redis_url_present {
        return at_result(at_id, "fail", String::from_str("REDIS_URL not set"));
    }
    match prep {
        Some(p) => {
            if p.ready {
                at_result(at_id, "pass", String::from_str(pass_evidence))
            } else {
                let mut e = String::from_str("distributed backend not ready: ");
                append_str(&mut e, p.details.as_str());
                at_result(at_id, "fail", e)
            }
        },
        None => at_result(at_id, "fail", String::from_str("missing distributed backend readiness evidence")),
    }
}

/// Decides how acceptance test `at_id` runs, or its result when nothing
/// needs to run.
pub fn execute_at(at_id: &str, redis_url_present: bool, distributed_backend_ready: Option<&BackendPreparation>) -> (s: AtStep)
    ensures
        spec_execute_at(s, at_id@, redis_url_present, prep_view(distributed_backend_ready)),
{
    let entry = at_registry_entry(at_id);
    match entry.lifecycle {
        AtLifecycleStatus::Ready => {},
        _ => {
            let mut e = String::from_str("AT lifecycle=");
            append_str(&mut e, at_lifecycle_label(entry.lifecycle));
            append_str(&mut e, " blocked: ");
            match entry.non_ready_reason {
                Some(r) => append_str(&mut e, r),
                None => append_str(&mut e, "missing non-ready reason in registry"),
            }
            return AtStep::Finished(at_result(at_id, "fail", e));
        },
    }
    match entry.executor {
        AtExecutor::Distributed016 => AtStep::Finished(
            distributed_result(at_id, redis_url_present, distributed_backend_ready, "redis fixed-window backend probe passed"),
        ),
        AtExecutor::Distributed017 => AtStep::Finished(
            distributed_result(
                at_id,
                redis_url_present,
                distributed_backend_ready,
                "distributed trace evidence preconditions satisfied",
            ),
        ),
        AtExecutor::MissingArtifactContract => AtStep::RunMissingArtifactProbe,
        AtExecutor::DeterministicScenario { evidence } => AtStep::Finished(
            at_result(at_id, "pass", String::from_str(evidence)),
        ),
        AtExecutor::CargoTest { package, test_name, features } => AtStep::RunCargoTest { package, test_name, features },
        AtExecutor::ReadyPlaceholder => AtStep::Finished(
            at_result(
                at_id,
                "not_implemented",
                String::from_str("AT is ready in registry but executor is not implemented yet"),
            ),
        ),
    }
}

/// The arguments of the cargo invocation running one test.
pub open spec fn spec_cargo_test_args(
    package: &'static str,
    test_name: &'static str,
    features: Option<&'static str>,
) -> Seq<&'static str> {
    let head = seq!["test", "-p", package, test_name];
    let mid = match features {
        Some(f) => seq!["--features", f],
        None => Seq::empty(),
    };
    head + mid + seq!["--", "--exact"]
}

pub fn cargo_test_args(
    package: &'static str,
    test_name: &'static str,
    features: Option<&'static str>,
) -> (v: Vec<&'static str>)
    ensures
        v@ == spec_cargo_test_args(package, test_name, features),
{
    let mut v: Vec<&'static str> = Vec::new();
    v.push("test");
    v.push("-p");
    v.push(package);
    v.push(test_name);
    match features {
        Some(f) => {
            v.push("--features");
            v.push(f);
        },
        None => {},
    }
    v.push("--");
    v.push("--exact");
    assert(v@ =~= spec_cargo_test_args(package, test_name, features));
    v
}

/// The command line of a cargo test run, as shown in evidence.
pub open spec fn spec_cargo_command(package: Seq<char>, test_name: Seq<char>, features: Option<Seq<char>>) -> Seq<char> {
    "cargo test -p "@ + package + " "@ + test_name + match features {
        Some(f) => " --features "@ + f,
        None => Seq::empty(),
    } + " -- --exact"@
}

pub open spec fn opt_str_view(o: Option<&'static str>) -> Option<Seq<char>> {
    match o {
        Some(s) => Some(s@),
        None => None,
    }
}

/// The result of a cargo test run: passed when the command succeeded,
/// failed with the command's details otherwise.
pub open spec fn spec_cargo_test_result(
    at_id: Seq<char>,
    package: Seq<char>,
    test_name: Seq<char>,
    features: Option<Seq<char>>,
    success: bool,
    details: Seq<char>,
) -> AtResultView {
    let cmd = spec_cargo_command(package, test_name, features);
    if success {
        result_view(at_id, "pass"@, cmd + " passed"@)
    } else {
        result_view(at_id, "fail"@, cmd + " failed: "@ + details)
    }
}

pub fn cargo_test_result(
    at_id: &str,
    package: &str,
    test_name: &str,
    features: Option<&'static str>,
    result: &ProcessResult,
) -> (r: AtResult)
    ensures
        r@ == spec_cargo_test_result(at_id@, package@, test_name@, opt_str_view(features), result.success, result.details@),
{
    let mut e = String::from_str("cargo test -p ");
    append_str(&mut e, package);
    append_str(&mut e, " ");
    append_str(&mut e, test_name);
    match features {
        Some(f) => {
            append_str(&mut e, " --features ");
            append_str(&mut e, f);
        },
        None => {},
    }
    append_str(&mut e, " -- --exact");
    let ghost cmd = e@;
    assert(cmd =~= spec_cargo_command(package@, test_name@, opt_str_view(features)));
    if result.success {
        append_str(&mut e, " passed");
        at_result(at_id, "pass", e)
    } else {
        append_str(&mut e, " failed: ");
        append_str(&mut e, result.details.as_str());
        at_result(at_id, "fail", e)
    }
}

/// The verdict of the missing-artifact probe: it must be refused with a
/// missing-artifact error. `setup` is `Err` when the probe directory could
/// not be prepared; otherwise it holds the artifact validation's outcome.
pub open spec fn spec_probe_outcome(setup: Result<Result<(), Seq<char>>, Seq<char>>) -> Result<Seq<char>, Seq<char>> {
    match setup {
        Err(e) => Err(e),
        Ok(Ok(())) => Err("expected missing-artifact validation failure but validation passed"@),
        Ok(Err(e)) => if contains(e, "missing required artifact"@) {
            Ok(e)
        } else {
            Err("unexpected validation error for AT-050 probe: "@ + e)
        },
    }
}

pub open spec fn spec_probe_result(at_id: Seq<char>, setup: Result<Result<(), Seq<char>>, Seq<char>>) -> AtResultView {
    match spec_probe_outcome(setup) {
        Ok(msg) => result_view(at_id, "pass"@, "AT-050 synthetic missing-artifact probe detected: "@ + msg),
        Err(err) => result_view(at_id, "fail"@, "AT-050 probe failed: "@ + err),
    }
}

pub open spec fn setup_view(setup: &Result<Result<(), String>, String>) -> Result<Result<(), Seq<char>>, Seq<char>> {
    match setup {
        Err(e) => Err(e@),
        Ok(Ok(())) => Ok(Ok(())),
        Ok(Err(e)) => Ok(Err(e@)),
    }
}

pub fn missing_artifact_probe_result(at_id: &str, setup: &Result<Result<(), String>, String>) -> (r: AtResult)
    ensures
        r@ == spec_probe_result(at_id@, setup_view(setup)),
{
    let outcome: Result<String, String> = match setup {
        Err(e) => Err(e.clone()),
        Ok(Ok(())) => Err(String::from_str("expected missing-artifact validation failure but validation passed")),
        Ok(Err(e)) => {
            if str_contains(e.as_str(), "missing required artifact") {
                Ok(e.clone())
            } else {
                let mut m = String::from_str("unexpected validation error for AT-050 probe: ");
                append_str(&mut m, e.as_str());
                Err(m)
            }
        },
    };
    match outcome {
        Ok(msg) => {
            let mut ev = String::from_str("AT-050 synthetic missing-artifact probe detected: ");
            append_str(&mut ev, msg.as_str());
            at_result(at_id, "pass", ev)
        },
        Err(err) => {
            let mut ev = String::from_str("AT-050 probe failed: ");
            append_str(&mut ev, err.as_str());
            at_result(at_id, "fail", ev)
        },
    }
}

} // verus!
