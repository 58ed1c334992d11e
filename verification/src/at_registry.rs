//! The acceptance-test registry: identifiers, lifecycle, executors, and the
//! profiles that select acceptance tests.

use vstd::prelude::*;

use crate::text::{append_str, char_digit, digit_char, digit_of, three_digits};

verus! {

/// The identifier of acceptance test `n`: "AT-" and three digits.
pub open spec fn at_label(n: nat) -> Seq<char> {
    seq!['A', 'T', '-'] + three_digits(n)
}

/// The number of an identifier of the form "AT-ddd"; `None` for any other text.
pub open spec fn at_number(s: Seq<char>) -> Option<nat> {
    if s.len() == 6 && s[0] == 'A' && s[1] == 'T' && s[2] == '-' && char_digit(s[3]) is Some
        && char_digit(s[4]) is Some && char_digit(s[5]) is Some {
        Some(
            100 * char_digit(s[3])->0 + 10 * char_digit(s[4])->0 + char_digit(s[5])->0,
        )
    } else {
        None
    }
}

/// Identifiers and numbers correspond one to one: each number below 1000
/// has exactly one identifier, and every identifier reads back as its number.
pub proof fn at_label_round_trip(n: nat, s: Seq<char>)
    ensures
        n < 1000 ==> at_number(at_label(n)) == Some(n),
        at_number(s) matches Some(m) ==> m < 1000 && s == at_label(m),
{
    if n < 1000 {
        let l = at_label(n);
        assert(l[3] == digit_char((n / 100) % 10));
        assert(l[4] == digit_char((n / 10) % 10));
        assert(l[5] == digit_char(n % 10));
        assert(char_digit(l[3]) == Some((n / 100) % 10));
        assert(char_digit(l[4]) == Some((n / 10) % 10));
        assert(char_digit(l[5]) == Some(n % 10));
        assert(100 * ((n / 100) % 10) + 10 * ((n / 10) % 10) + n % 10 == n) by (nonlinear_arith)
            requires n < 1000;
    }
    if let Some(m) = at_number(s) {
        let a = char_digit(s[3])->0;
        let b = char_digit(s[4])->0;
        let c = char_digit(s[5])->0;
        assert(a < 10 && b < 10 && c < 10);
        assert(m == 100 * a + 10 * b + c);
        assert((m / 100) % 10 == a && (m / 10) % 10 == b && m % 10 == c) by (nonlinear_arith)
            requires m == 100 * a + 10 * b + c, a < 10, b < 10, c < 10;
        assert(digit_char(a) == s[3] && digit_char(b) == s[4] && digit_char(c) == s[5]);
        assert(s =~= at_label(m));
    }
}

/// Reads the number of an identifier of the form "AT-ddd".
pub fn parse_at_id(at_id: &str) -> (r: Option<u32>)
    ensures
        match at_number(at_id@) {
            Some(n) => r == Some(n as u32),
            None => r is None,
        },
{
    if at_id.unicode_len() != 6 {
        return None;
    }
    if at_id.get_char(0) != 'A' || at_id.get_char(1) != 'T' || at_id.get_char(2) != '-' {
        return None;
    }
    let a = match digit_of(at_id.get_char(3)) {
        Some(v) => v,
        None => return None,
    };
    let b = match digit_of(at_id.get_char(4)) {
        Some(v) => v,
        None => return None,
    };
    let c = match digit_of(at_id.get_char(5)) {
        Some(v) => v,
        None => return None,
    };
    Some(100 * a + 10 * b + c)
}

/// Lifecycle of an acceptance test in the registry.
#[derive(Clone, Copy, Debug, PartialEq, Eq, Structural)]
pub enum AtLifecycleStatus {
    Ready,
    Planned,
    Blocked,
}

/// How an acceptance test is executed.
#[derive(Clone, Copy, Debug, PartialEq, Eq)]
pub enum AtExecutor {
    ReadyPlaceholder,
    Distributed016,
    Distributed017,
    MissingArtifactContract,
    DeterministicScenario { evidence: &'static str },
    CargoTest { package: &'static str, test_name: &'static str, features: Option<&'static str> },
}

/// A registry entry: lifecycle, executor, and why a non-ready test cannot run.
#[derive(Clone, Copy, Debug, PartialEq, Eq)]
pub struct AtRegistryEntry {
    pub lifecycle: AtLifecycleStatus,
    pub executor: AtExecutor,
    pub non_ready_reason: Option<&'static str>,
}

pub open spec fn spec_lifecycle_label(status: AtLifecycleStatus) -> &'static str {
    match status {
        AtLifecycleStatus::Ready => "ready",
        AtLifecycleStatus::Planned => "planned",
        AtLifecycleStatus::Blocked => "blocked",
    }
}

pub fn at_lifecycle_label(status: AtLifecycleStatus) -> (s: &'static str)
    ensures
        s == spec_lifecycle_label(status),
{
    match status {
        AtLifecycleStatus::Ready => "ready",
        AtLifecycleStatus::Planned => "planned",
        AtLifecycleStatus::Blocked => "blocked",
    }
}

pub open spec fn ready(executor: AtExecutor) -> AtRegistryEntry {
    AtRegistryEntry { lifecycle: AtLifecycleStatus::Ready, executor, non_ready_reason: None }
}

pub open spec fn cargo(package: &'static str, test_name: &'static str) -> AtExecutor {
    AtExecutor::CargoTest { package, test_name, features: None }
}

pub open spec fn scenario(evidence: &'static str) -> AtExecutor {
    AtExecutor::DeterministicScenario { evidence }
}

/// The registry entry of acceptance test `n`.
pub open spec fn spec_entry_for(n: nat) -> AtRegistryEntry {
    if n == 4 { ready(cargo("rate_limit", "hierarchical_allows_if_both_pass")) }
    else if n == 5 { ready(cargo("rate_limit", "hierarchical_denies_if_global_exceeded")) }
    else if n == 6 { ready(cargo("rate_limit", "hierarchical_denies_if_key_exceeded")) }
    else if n == 7 { ready(cargo("rate_limit", "hierarchical_allows_if_both_pass")) }
    else if n == 8 { ready(cargo("rest", "rest_middleware_allows_request")) }
    else if n == 9 { ready(cargo("rest", "rest_middleware_denies_request")) }
    else if n == 10 { ready(cargo("traffic_rest", "config::tests::single_key_requires_key_value")) }
    else if n == 11 { ready(cargo("traffic_rest", "config::tests::round_robin_requires_keys")) }
    else if n == 12 { ready(cargo("eval_harness", "metrics::tests::reproducibility_gate_passes_for_stable_traces")) }
    else if n == 13 { ready(cargo("rate_limit_distributed", "allows_when_backend_allows")) }
    else if n == 14 { ready(cargo("rate_limit_distributed", "denies_when_backend_denies")) }
    else if n == 15 { ready(cargo("rate_limit_distributed", "denies_with_backend_error_retry_after")) }
    else if n == 16 { ready(AtExecutor::Distributed016) }
    else if n == 17 { ready(AtExecutor::Distributed017) }
    else if n == 18 { ready(cargo("rate_limit_hybrid", "local_and_distributed_allow")) }
    else if n == 19 { ready(cargo("rate_limit_hybrid", "short_circuits_when_local_denies_before_distributed_completes")) }
    else if n == 20 { ready(cargo("rate_limit_hybrid", "distributed_denies_when_local_allows")) }
    else if n == 21 { ready(cargo("rate_limit_hybrid", "max_retry_after_when_both_deny")) }
    else if n == 22 { ready(cargo("rate_limit_hybrid", "distributed_backend_error_obeys_fail_open")) }
    else if n == 23 { ready(cargo("rate_limit_hybrid", "distributed_backend_error_obeys_fail_closed")) }
    else if n == 24 { ready(cargo("rate_limit_hybrid", "option_a2_head_start_reduces_total_wait")) }
    else if n == 25 { ready(scenario("short outage policy scenario executed deterministically")) }
    else if n == 26 { ready(scenario("long outage policy scenario executed deterministically")) }
    else if n == 27 { ready(scenario("latency spike policy scenario executed deterministically")) }
    else if n == 28 { ready(scenario("flapping policy scenario executed deterministically")) }
    else if n == 29 { ready(scenario("failure timeline contract scenario executed")) }
    else if n == 30 { ready(scenario("RR fairness scenario executed")) }
    else if n == 31 { ready(scenario("SA fairness scenario executed")) }
    else if n == 32 { ready(scenario("RR drift scenario executed")) }
    else if n == 33 { ready(scenario("SA drift scenario executed")) }
    else if n == 34 { ready(scenario("distributed comparative reporting scenario executed")) }
    else if (35 <= n <= 44) || (47 <= n <= 49) {
        AtRegistryEntry {
            lifecycle: AtLifecycleStatus::Planned,
            executor: AtExecutor::ReadyPlaceholder,
            non_ready_reason: Some("AT is planned and not yet executable in harness"),
        }
    }
    else if n == 45 || n == 46 || n == 51 {
        AtRegistryEntry {
            lifecycle: AtLifecycleStatus::Blocked,
            executor: AtExecutor::ReadyPlaceholder,
            non_ready_reason: Some("AT is blocked by pending harness productization"),
        }
    }
    else if n == 50 { ready(AtExecutor::MissingArtifactContract) }
    else if n == 52 { ready(cargo("rest", "config::tests::observability_defaults_to_disabled")) }
    else if n == 53 {
        ready(AtExecutor::CargoTest {
            package: "rest",
            test_name: "metrics_endpoint_returns_prometheus_metric_families_when_enabled",
            features: Some("observability_ui"),
        })
    }
    else if n == 54 { ready(scenario("prometheus scrape contract validation scheduled")) }
    else if n == 55 { ready(scenario("grafana dashboard provisioning validation scheduled")) }
    else if n == 56 { ready(scenario("observability report evidence linkage validation scheduled")) }
    else { spec_unknown_entry() }
}

pub open spec fn spec_unknown_entry() -> AtRegistryEntry {
    AtRegistryEntry {
        lifecycle: AtLifecycleStatus::Blocked,
        executor: AtExecutor::ReadyPlaceholder,
        non_ready_reason: Some("AT is unknown to registry"),
    }
}

/// The registry entry of an identifier; identifiers not of the form
/// "AT-ddd" are unknown.
pub open spec fn spec_registry_entry(at_id: Seq<char>) -> AtRegistryEntry {
    match at_number(at_id) {
        Some(n) => spec_entry_for(n),
        None => spec_unknown_entry(),
    }
}

fn entry_ready(executor: AtExecutor) -> (e: AtRegistryEntry)
    ensures
        e == ready(executor),
{
    AtRegistryEntry { lifecycle: AtLifecycleStatus::Ready, executor, non_ready_reason: None }
}

fn entry_cargo(package: &'static str, test_name: &'static str) -> (e: AtRegistryEntry)
    ensures
        e == ready(cargo(package, test_name)),
{
    entry_ready(AtExecutor::CargoTest { package, test_name, features: None })
}

fn entry_scenario(evidence: &'static str) -> (e: AtRegistryEntry)
    ensures
        e == ready(scenario(evidence)),
{
    entry_ready(AtExecutor::DeterministicScenario { evidence })
}

fn entry_for(n: u32) -> (e: AtRegistryEntry)
    ensures
        e == spec_entry_for(n as nat),
{
    if n == 4 { entry_cargo("rate_limit", "hierarchical_allows_if_both_pass") }
    else if n == 5 { entry_cargo("rate_limit", "hierarchical_denies_if_global_exceeded") }
    else if n == 6 { entry_cargo("rate_limit", "hierarchical_denies_if_key_exceeded") }
    else if n == 7 { entry_cargo("rate_limit", "hierarchical_allows_if_both_pass") }
    else if n == 8 { entry_cargo("rest", "rest_middleware_allows_request") }
    else if n == 9 { entry_cargo("rest", "rest_middleware_denies_request") }
    else if n == 10 { entry_cargo("traffic_rest", "config::tests::single_key_requires_key_value") }
    else if n == 11 { entry_cargo("traffic_rest", "config::tests::round_robin_requires_keys") }
    else if n == 12 { entry_cargo("eval_harness", "metrics::tests::reproducibility_gate_passes_for_stable_traces") }
    else if n == 13 { entry_cargo("rate_limit_distributed", "allows_when_backend_allows") }
    else if n == 14 { entry_cargo("rate_limit_distributed", "denies_when_backend_denies") }
    else if n == 15 { entry_cargo("rate_limit_distributed", "denies_with_backend_error_retry_after") }
    else if n == 16 { entry_ready(AtExecutor::Distributed016) }
    else if n == 17 { entry_ready(AtExecutor::Distributed017) }
    else if n == 18 { entry_cargo("rate_limit_hybrid", "local_and_distributed_allow") }
    else if n == 19 { entry_cargo("rate_limit_hybrid", "short_circuits_when_local_denies_before_distributed_completes") }
    else if n == 20 { entry_cargo("rate_limit_hybrid", "distributed_denies_when_local_allows") }
    else if n == 21 { entry_cargo("rate_limit_hybrid", "max_retry_after_when_both_deny") }
    else if n == 22 { entry_cargo("rate_limit_hybrid", "distributed_backend_error_obeys_fail_open") }
    else if n == 23 { entry_cargo("rate_limit_hybrid", "distributed_backend_error_obeys_fail_closed") }
    else if n == 24 { entry_cargo("rate_limit_hybrid", "option_a2_head_start_reduces_total_wait") }
    else if n == 25 { entry_scenario("short outage policy scenario executed deterministically") }
    else if n == 26 { entry_scenario("long outage policy scenario executed deterministically") }
    else if n == 27 { entry_scenario("latency spike policy scenario executed deterministically") }
    else if n == 28 { entry_scenario("flapping policy scenario executed deterministically") }
    else if n == 29 { entry_scenario("failure timeline contract scenario executed") }
    else if n == 30 { entry_scenario("RR fairness scenario executed") }
    else if n == 31 { entry_scenario("SA fairness scenario executed") }
    else if n == 32 { entry_scenario("RR drift scenario executed") }
    else if n == 33 { entry_scenario("SA drift scenario executed") }
    else if n == 34 { entry_scenario("distributed comparative reporting scenario executed") }
    else if (35 <= n && n <= 44) || (47 <= n && n <= 49) {
        AtRegistryEntry {
            lifecycle: AtLifecycleStatus::Planned,
            executor: AtExecutor::ReadyPlaceholder,
            non_ready_reason: Some("AT is planned and not yet executable in harness"),
        }
    }
    else if n == 45 || n == 46 || n == 51 {
        AtRegistryEntry {
            lifecycle: AtLifecycleStatus::Blocked,
            executor: AtExecutor::ReadyPlaceholder,
            non_ready_reason: Some("AT is blocked by pending harness productization"),
        }
    }
    else if n == 50 { entry_ready(AtExecutor::MissingArtifactContract) }
    else if n == 52 { entry_cargo("rest", "config::tests::observability_defaults_to_disabled") }
    else if n == 53 {
        entry_ready(AtExecutor::CargoTest {
            package: "rest",
            test_name: "metrics_endpoint_returns_prometheus_metric_families_when_enabled",
            features: Some("observability_ui"),
        })
    }
    else if n == 54 { entry_scenario("prometheus scrape contract validation scheduled") }
    else if n == 55 { entry_scenario("grafana dashboard provisioning validation scheduled") }
    else if n == 56 { entry_scenario("observability report evidence linkage validation scheduled") }
    else { unknown_entry() }
}

fn unknown_entry() -> (e: AtRegistryEntry)
    ensures
        e == spec_unknown_entry(),
{
    AtRegistryEntry {
        lifecycle: AtLifecycleStatus::Blocked,
        executor: AtExecutor::ReadyPlaceholder,
        non_ready_reason: Some("AT is unknown to registry"),
    }
}

/// Looks up an acceptance test in the registry.
pub fn at_registry_entry(at_id: &str) -> (e: AtRegistryEntry)
    ensures
        e == spec_registry_entry(at_id@),
{
    match parse_at_id(at_id) {
        Some(n) => entry_for(n),
        None => unknown_entry(),
    }
}

/// Acceptance tests AT-001 through AT-056 may be selected.
pub open spec fn is_registered(at_id: Seq<char>) -> bool {
    at_number(at_id) matches Some(n) && 1 <= n <= 56
}

/// The error for an identifier that is not registered.
pub open spec fn unregistered_message(at_id: Seq<char>) -> Seq<char> {
    "AT `"@ + at_id + "` is not present in registry"@
}

/// `Ok` when every selected identifier is registered; otherwise the error
/// names the first one that is not.
pub open spec fn spec_validate_selected(selected: Seq<Seq<char>>) -> Result<(), Seq<char>>
    decreases selected.len(),
{
    if selected.len() == 0 {
        Ok(())
    } else if !is_registered(selected[0]) {
        Err(unregistered_message(selected[0]))
    } else {
        spec_validate_selected(selected.drop_first())
    }
}

pub open spec fn views(v: Seq<String>) -> Seq<Seq<char>> {
    v.map_values(|s: String| s@)
}

proof fn lemma_validate_step(s: Seq<Seq<char>>, i: int)
    requires
        0 <= i < s.len(),
        forall|j: int| 0 <= j < i ==> is_registered(s[j]),
    ensures
        spec_validate_selected(s) == spec_validate_selected(s.subrange(i, s.len() as int)),
    decreases i,
{
    if i > 0 {
        assert(is_registered(s[0]));
        assert(s.drop_first().subrange(i - 1, s.drop_first().len() as int) =~= s.subrange(i, s.len() as int));
        assert forall|j: int| 0 <= j < i - 1 implies is_registered(s.drop_first()[j]) by {
            assert(s.drop_first()[j] == s[j + 1]);
        }
        lemma_validate_step(s.drop_first(), i - 1);
    } else {
        assert(s.subrange(0, s.len() as int) =~= s);
    }
}

/// Checks that every selected acceptance test is registered.
pub fn at_registry_validate_selected(selected_ats: &Vec<String>) -> (r: Result<(), String>)
    ensures
        match (r, spec_validate_selected(views(selected_ats@))) {
            (Ok(()), Ok(())) => true,
            (Err(m), Err(sm)) => m@ == sm,
            _ => false,
        },
{
    let ghost s = views(selected_ats@);
    let n = selected_ats.len();
    let mut i: usize = 0;
    while i < n
        invariant
            n == selected_ats@.len(),
            s == views(selected_ats@),
            i <= n,
            forall|j: int| 0 <= j < i ==> is_registered(s[j]),
        decreases n - i,
    {
        let id = selected_ats[i].as_str();
        let known = match parse_at_id(id) {
            Some(k) => 1 <= k && k <= 56,
            None => false,
        };
        if !known {
            proof {
                lemma_validate_step(s, i as int);
                assert(s.subrange(i as int, s.len() as int)[0] == s[i as int]);
            }
            let mut m = String::from_str("AT `");
            append_str(&mut m, id);
            append_str(&mut m, "` is not present in registry");
            return Err(m);
        }
        i = i + 1;
    }
    proof {
        assert forall|k: int| 0 <= k <= s.len() implies #[trigger] spec_validate_selected(s.subrange(k, s.len() as int)) == Ok::<(), Seq<char>>(()) by {
            lemma_validate_tail(s, k);
        }
        assert(s.subrange(0, s.len() as int) =~= s);
    }
    Ok(())
}

proof fn lemma_validate_tail(s: Seq<Seq<char>>, k: int)
    requires
        0 <= k <= s.len(),
        forall|j: int| 0 <= j < s.len() ==> is_registered(s[j]),
    ensures
        spec_validate_selected(s.subrange(k, s.len() as int)) == Ok::<(), Seq<char>>(()),
    decreases s.len() - k,
{
    let t = s.subrange(k, s.len() as int);
    if k < s.len() {
        assert(t[0] == s[k]);
        assert(t.drop_first() =~= s.subrange(k + 1, s.len() as int));
        lemma_validate_tail(s, k + 1);
    }
}

/// Acceptance tests AT-025 through AT-029 inject failures.
pub open spec fn spec_is_failure_at(at_id: Seq<char>) -> bool {
    at_number(at_id) matches Some(n) && 25 <= n <= 29
}

pub fn is_failure_at(at_id: &str) -> (b: bool)
    ensures
        b == spec_is_failure_at(at_id@),
{
    match parse_at_id(at_id) {
        Some(n) => 25 <= n && n <= 29,
        None => false,
    }
}

} // verus!
