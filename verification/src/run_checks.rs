//! Post-run contract checks over acceptance results, and the failure
//! injection timeline.

use vstd::prelude::*;

use crate::at_engine::result_view;
use crate::at_registry::{at_label, at_label_round_trip, at_number, parse_at_id, spec_is_failure_at, is_failure_at};
use crate::harness_model::{opt_view, results_view, AtResult, AtResultView, TimelineEvent, TraceRecord};
use crate::text::{append_decimal, append_str, str_eq};

verus! {

/// Whether `at_id` is the identifier of acceptance test `n`.
pub fn is_at(at_id: &str, n: u32) -> (b: bool)
    requires
        n < 1000,
    ensures
        b == (at_id@ == at_label(n as nat)),
{
    proof {
        at_label_round_trip(n as nat, at_id@);
    }
    match parse_at_id(at_id) {
        Some(k) => k == n,
        None => false,
    }
}

/// `i` is the first position holding a result for `id`.
pub open spec fn is_first(rs: Seq<AtResultView>, id: Seq<char>, i: int) -> bool {
    0 <= i < rs.len() && rs[i].at_id == id && forall|j: int| 0 <= j < i ==> rs[j].at_id != id
}

pub open spec fn has_result(rs: Seq<AtResultView>, id: Seq<char>) -> bool {
    exists|i: int| 0 <= i < rs.len() && rs[i].at_id == id
}

/// The first result for `id` gets a new status and evidence; without such
/// a result nothing changes.
pub open spec fn set_first(rs: Seq<AtResultView>, id: Seq<char>, status: Seq<char>, evidence: Seq<char>) -> Seq<AtResultView> {
    if has_result(rs, id) {
        let i = choose|i: int| is_first(rs, id, i);
        rs.update(i, result_view(id, status, evidence))
    } else {
        rs
    }
}

proof fn lemma_first_unique(rs: Seq<AtResultView>, id: Seq<char>, i: int, k: int)
    requires
        is_first(rs, id, i),
        is_first(rs, id, k),
    ensures
        i == k,
{
}

proof fn lemma_first_exists(rs: Seq<AtResultView>, id: Seq<char>, i: int)
    requires
        0 <= i < rs.len(),
        rs[i].at_id == id,
    ensures
        exists|k: int| is_first(rs, id, k),
    decreases i,
{
    if exists|j: int| 0 <= j < i && rs[j].at_id == id {
        let j = choose|j: int| 0 <= j < i && rs[j].at_id == id;
        lemma_first_exists(rs, id, j);
    } else {
        assert(is_first(rs, id, i));
    }
}

/// Gives the first result for acceptance test `n` a new status and evidence.
pub fn set_first_result(rs: &mut Vec<AtResult>, n: u32, status: &str, evidence: String)
    requires
        n < 1000,
    ensures
        results_view(final(rs)@) == set_first(results_view(old(rs)@), at_label(n as nat), status@, evidence@),
{
    let ghost id = at_label(n as nat);
    let ghost before = results_view(rs@);
    let len = rs.len();
    let mut i: usize = 0;
    while i < len
        invariant
            n < 1000,
            id == at_label(n as nat),
            len == rs.len(),
            rs@ == old(rs)@,
            before == results_view(rs@),
            i <= len,
            forall|j: int| 0 <= j < i ==> before[j].at_id != id,
        decreases len - i,
    {
        proof {
            assert(before[i as int] == rs@[i as int]@);
        }
        if is_at(rs[i].at_id.as_str(), n) {
            proof {
                assert(is_first(before, id, i as int));
                assert(has_result(before, id));
                let c = choose|k: int| is_first(before, id, k);
                lemma_first_unique(before, id, c, i as int);
            }
            let r = AtResult { at_id: rs[i].at_id.clone(), status: String::from_str(status), evidence };
            rs.set(i, r);
            proof {
                assert(results_view(rs@) =~= before.update(i as int, result_view(id, status@, evidence@)));
            }
            return;
        }
        proof {
            assert(before[i as int].at_id == rs@[i as int].at_id@);
        }
        i = i + 1;
    }
    proof {
        assert(!has_result(before, id));
    }
}

/// A trace recorded for AT-016 or AT-017.
pub open spec fn is_distributed_trace(t: TraceRecord) -> bool {
    opt_view(t.at_id) == Some(at_label(16)) || opt_view(t.at_id) == Some(at_label(17))
}

/// A trace whose backend outcome is recorded and is not "none".
pub open spec fn has_backend_outcome(t: TraceRecord) -> bool {
    t.backend_outcome@.len() > 0 && t.backend_outcome@ != "none"@
}

/// The verdict on AT-017 from the traces: it needs distributed traces, and
/// all of them must carry a backend outcome.
pub open spec fn spec_distributed_trace_verdict(traces: Seq<TraceRecord>) -> (Seq<char>, Seq<char>) {
    if !(exists|i: int| 0 <= i < traces.len() && is_distributed_trace(traces[i])) {
        ("fail"@, "no distributed trace rows found for AT-016/AT-017"@)
    } else if forall|i: int| 0 <= i < traces.len() && is_distributed_trace(traces[i]) ==> has_backend_outcome(traces[i]) {
        ("pass"@, "distributed traces include non-null backend_outcome"@)
    } else {
        ("fail"@, "distributed traces missing backend_outcome evidence"@)
    }
}

pub open spec fn spec_finalize_distributed(rs: Seq<AtResultView>, traces: Seq<TraceRecord>) -> Seq<AtResultView> {
    let (status, evidence) = spec_distributed_trace_verdict(traces);
    set_first(rs, at_label(17), status, evidence)
}

fn trace_is_distributed(t: &TraceRecord) -> (b: bool)
    ensures
        b == is_distributed_trace(*t),
{
    match &t.at_id {
        Some(id) => is_at(id.as_str(), 16) || is_at(id.as_str(), 17),
        None => false,
    }
}

fn trace_has_backend_outcome(t: &TraceRecord) -> (b: bool)
    ensures
        b == has_backend_outcome(*t),
{
    t.backend_outcome.as_str().unicode_len() > 0 && !str_eq(t.backend_outcome.as_str(), "none")
}

/// Checks AT-017 against the distributed traces; without an AT-017 result
/// nothing changes.
pub fn finalize_distributed_trace_checks(at_results: &mut Vec<AtResult>, traces: &Vec<TraceRecord>)
    ensures
        results_view(final(at_results)@) == spec_finalize_distributed(results_view(old(at_results)@), traces@),
{
    let n = traces.len();
    let mut any = false;
    let mut all_ok = true;
    let mut i: usize = 0;
    while i < n
        invariant
            n == traces@.len(),
            i <= n,
            any == exists|k: int| 0 <= k < i && is_distributed_trace(traces@[k]),
            all_ok == forall|k: int| 0 <= k < i && is_distributed_trace(traces@[k]) ==> has_backend_outcome(traces@[k]),
        decreases n - i,
    {
        let t = &traces[i];
        if trace_is_distributed(t) {
            any = true;
            if !trace_has_backend_outcome(t) {
                all_ok = false;
            }
        }
        i = i + 1;
    }
    if !any {
        set_first_result(at_results, 17, "fail", String::from_str("no distributed trace rows found for AT-016/AT-017"));
    } else if all_ok {
        set_first_result(at_results, 17, "pass", String::from_str("distributed traces include non-null backend_outcome"));
    } else {
        set_first_result(at_results, 17, "fail", String::from_str("distributed traces missing backend_outcome evidence"));
    }
}

/// The view of a timeline entry.
pub struct TimelineEventView {
    pub at_id: Seq<char>,
    pub mode: Seq<char>,
    pub event: Seq<char>,
    pub ts_ms: int,
    pub policy: Seq<char>,
    pub conformant: bool,
}

impl View for TimelineEvent {
    type V = TimelineEventView;

    open spec fn view(&self) -> TimelineEventView {
        TimelineEventView {
            at_id: self.at_id@,
            mode: self.mode@,
            event: self.event@,
            ts_ms: self.ts_ms as int,
            policy: self.policy@,
            conformant: self.conformant,
        }
    }
}

/// The failure mode injected by a failure acceptance test.
pub open spec fn failure_mode(at_id: Seq<char>) -> Seq<char> {
    if at_id == at_label(25) {
        "outage_short"@
    } else if at_id == at_label(26) {
        "outage_long"@
    } else if at_id == at_label(27) {
        "latency_spike"@
    } else if at_id == at_label(28) {
        "flapping"@
    } else if at_id == at_label(29) {
        "timeline_report"@
    } else {
        "unknown"@
    }
}

/// The two timeline entries of the failure test at position `idx`: the
/// injection starts at `start + 10 * idx` and completes 5 ms later, under
/// the fail-closed policy, conformant when the test passed.
pub open spec fn timeline_pair(r: AtResultView, idx: int, start: int) -> Seq<TimelineEventView> {
    let ts = start + idx * 10;
    let mode = failure_mode(r.at_id);
    let conformant = r.status == "pass"@;
    seq![
        TimelineEventView { at_id: r.at_id, mode, event: "injection_started"@, ts_ms: ts, policy: "fail_closed"@, conformant },
        TimelineEventView { at_id: r.at_id, mode, event: "injection_completed"@, ts_ms: ts + 5, policy: "fail_closed"@, conformant },
    ]
}

/// The timeline of the first `n` results.
pub open spec fn spec_timeline(rs: Seq<AtResultView>, start: int, n: int) -> Seq<TimelineEventView>
    decreases n,
{
    if n <= 0 {
        Seq::empty()
    } else {
        spec_timeline(rs, start, n - 1) + if spec_is_failure_at(rs[n - 1].at_id) {
            timeline_pair(rs[n - 1], n - 1, start)
        } else {
            Seq::empty()
        }
    }
}

pub open spec fn timeline_view(v: Seq<TimelineEvent>) -> Seq<TimelineEventView> {
    v.map_values(|e: TimelineEvent| e@)
}

fn failure_mode_of(at_id: &str) -> (m: &'static str)
    ensures
        m@ == failure_mode(at_id@),
{
    if is_at(at_id, 25) {
        "outage_short"
    } else if is_at(at_id, 26) {
        "outage_long"
    } else if is_at(at_id, 27) {
        "latency_spike"
    } else if is_at(at_id, 28) {
        "flapping"
    } else if is_at(at_id, 29) {
        "timeline_report"
    } else {
        "unknown"
    }
}

/// Every timestamp of the timeline fits in an `i64`: for each
/// failure-injection result at position `i`, `10 * i` and the completion
/// time `start + 10 * i + 5`.
pub open spec fn timeline_fits(rs: Seq<AtResultView>, start: int) -> bool {
    forall|i: int|
        0 <= i < rs.len() && #[trigger] spec_is_failure_at(rs[i].at_id) ==> 10 * i <= i64::MAX && start + 10 * i
            + 5 <= i64::MAX
}

/// Builds the failure-injection timeline of a run.
pub fn build_failure_timeline(at_results: &Vec<AtResult>, start_ts: i64) -> (v: Vec<TimelineEvent>)
    requires
        timeline_fits(results_view(at_results@), start_ts as int),
    ensures
        timeline_view(v@) == spec_timeline(results_view(at_results@), start_ts as int, at_results.len() as int),
{
    let ghost rs = results_view(at_results@);
    let mut timeline: Vec<TimelineEvent> = Vec::new();
    let n = at_results.len();
    let mut idx: usize = 0;
    while idx < n
        invariant
            n == at_results.len(),
            rs == results_view(at_results@),
            idx <= n,
            timeline_fits(rs, start_ts as int),
            timeline_view(timeline@) == spec_timeline(rs, start_ts as int, idx as int),
        decreases n - idx,
    {
        let at = &at_results[idx];
        proof {
            assert(rs[idx as int] == at@);
        }
        if is_failure_at(at.at_id.as_str()) {
            proof {
                assert(spec_is_failure_at(rs[idx as int].at_id));
            }
            let mode = failure_mode_of(at.at_id.as_str());
            let ts: i64 = start_ts + (idx as i64) * 10;
            let conformant = str_eq(at.status.as_str(), "pass");
            let ghost before = timeline@;
            timeline.push(TimelineEvent {
                at_id: at.at_id.clone(),
                mode: String::from_str(mode),
                event: String::from_str("injection_started"),
                ts_ms: ts,
                policy: String::from_str("fail_closed"),
                conformant,
            });
            timeline.push(TimelineEvent {
                at_id: at.at_id.clone(),
                mode: String::from_str(mode),
                event: String::from_str("injection_completed"),
                ts_ms: ts + 5,
                policy: String::from_str("fail_closed"),
                conformant,
            });
            proof {
                assert(timeline_view(timeline@) =~= timeline_view(before) + timeline_pair(rs[idx as int], idx as int, start_ts as int));
            }
        } else {
            proof {
                assert(spec_timeline(rs, start_ts as int, idx + 1) =~= spec_timeline(rs, start_ts as int, idx as int));
            }
        }
        idx = idx + 1;
    }
    timeline
}

} // verus!

verus! {

/// The number of conformant entries among the first `n` of a timeline.
pub open spec fn conformant_count(t: Seq<TimelineEventView>, n: int) -> nat
    decreases n,
{
    if n <= 0 {
        0
    } else {
        conformant_count(t, n - 1) + if t[n - 1].conformant { 1nat } else { 0nat }
    }
}

proof fn lemma_conformant_le(t: Seq<TimelineEventView>, n: int)
    requires
        0 <= n,
    ensures
        conformant_count(t, n) <= n,
    decreases n,
{
    if n > 0 {
        lemma_conformant_le(t, n - 1);
    }
}

/// How many timeline entries conform to the backend policy, out of how many.
pub fn policy_conformance_counts(timeline: &Vec<TimelineEvent>) -> (r: (u64, u64))
    ensures
        r.0 == conformant_count(timeline_view(timeline@), timeline.len() as int),
        r.1 == timeline.len(),
{
    let ghost tv = timeline_view(timeline@);
    let n = timeline.len();
    let mut c: u64 = 0;
    let mut i: usize = 0;
    while i < n
        invariant
            n == timeline.len(),
            tv == timeline_view(timeline@),
            i <= n,
            c == conformant_count(tv, i as int),
        decreases n - i,
    {
        proof {
            lemma_conformant_le(tv, i as int);
            assert(tv[i as int] == timeline@[i as int]@);
        }
        if timeline[i].conformant {
            c = c + 1;
        }
        i = i + 1;
    }
    (c, n as u64)
}

/// Allowed traces of the round-robin (AT-030, AT-032) and single-address
/// (AT-031, AT-033) topology tests among the first `n` traces.
pub open spec fn topology_allows(ts: Seq<TraceRecord>, n: int, rr: bool) -> nat
    decreases n,
{
    if n <= 0 {
        0
    } else {
        let t = ts[n - 1];
        let hit = t.decision@ == "allow"@ && if rr {
            opt_view(t.at_id) == Some(at_label(30)) || opt_view(t.at_id) == Some(at_label(32))
        } else {
            opt_view(t.at_id) == Some(at_label(31)) || opt_view(t.at_id) == Some(at_label(33))
        };
        topology_allows(ts, n - 1, rr) + if hit { 1nat } else { 0nat }
    }
}

proof fn lemma_topology_allows_le(ts: Seq<TraceRecord>, n: int, rr: bool)
    requires
        0 <= n,
    ensures
        topology_allows(ts, n, rr) <= n,
    decreases n,
{
    if n > 0 {
        lemma_topology_allows_le(ts, n - 1, rr);
    }
}

/// Counts the allowed round-robin and single-address topology traces.
pub fn topology_allow_counts(traces: &Vec<TraceRecord>) -> (r: (u64, u64))
    ensures
        r.0 == topology_allows(traces@, traces.len() as int, true),
        r.1 == topology_allows(traces@, traces.len() as int, false),
{
    let n = traces.len();
    let mut rr: u64 = 0;
    let mut sa: u64 = 0;
    let mut i: usize = 0;
    while i < n
        invariant
            n == traces.len(),
            i <= n,
            rr == topology_allows(traces@, i as int, true),
            sa == topology_allows(traces@, i as int, false),
        decreases n - i,
    {
        proof {
            lemma_topology_allows_le(traces@, i as int, true);
            lemma_topology_allows_le(traces@, i as int, false);
        }
        let t = &traces[i];
        if str_eq(t.decision.as_str(), "allow") {
            match &t.at_id {
                Some(id) => {
                    let s = id.as_str();
                    if is_at(s, 30) || is_at(s, 32) {
                        rr = rr + 1;
                    }
                    if is_at(s, 31) || is_at(s, 33) {
                        sa = sa + 1;
                    }
                },
                None => {},
            }
        }
        i = i + 1;
    }
    (rr, sa)
}


/// A passed failure-injection test links the timeline artifact in its
/// evidence; every other result is unchanged.
pub open spec fn spec_link_timeline(r: AtResultView, path: Seq<char>) -> AtResultView {
    if spec_is_failure_at(r.at_id) && r.status == "pass"@ {
        AtResultView { evidence: r.evidence + "; timeline: "@ + path, ..r }
    } else {
        r
    }
}

/// Appends the timeline link to every passed failure-injection result.
pub fn link_failure_timeline(at_results: &mut Vec<AtResult>, timeline_path: &str)
    ensures
        final(at_results)@.len() == old(at_results)@.len(),
        forall|i: int|
            0 <= i < old(at_results)@.len() ==> (#[trigger] final(at_results)@[i])@ == spec_link_timeline(
                old(at_results)@[i]@,
                timeline_path@,
            ),
{
    let n = at_results.len();
    let mut i: usize = 0;
    while i < n
        invariant
            n == at_results.len(),
            n == old(at_results)@.len(),
            i <= n,
            forall|k: int| 0 <= k < i ==> (#[trigger] at_results@[k])@ == spec_link_timeline(old(at_results)@[k]@, timeline_path@),
            forall|k: int| i <= k < n ==> #[trigger] at_results@[k] == old(at_results)@[k],
        decreases n - i,
    {
        if is_failure_at(at_results[i].at_id.as_str()) && str_eq(at_results[i].status.as_str(), "pass") {
            let mut evidence = at_results[i].evidence.clone();
            append_str(&mut evidence, "; timeline: ");
            append_str(&mut evidence, timeline_path);
            let r = AtResult { at_id: at_results[i].at_id.clone(), status: at_results[i].status.clone(), evidence };
            at_results.set(i, r);
        }
        i = i + 1;
    }
}

} // verus!
