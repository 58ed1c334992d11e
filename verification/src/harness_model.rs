//! Records of an acceptance-evaluation run, as plain values.

use vstd::prelude::*;

verus! {

/// The outcome of one acceptance test: its identifier, a status
/// ("pass", "fail", "skipped" or "not_implemented") and the evidence text.
#[derive(Clone, Debug)]
pub struct AtResult {
    pub at_id: String,
    pub status: String,
    pub evidence: String,
}

pub struct AtResultView {
    pub at_id: Seq<char>,
    pub status: Seq<char>,
    pub evidence: Seq<char>,
}

impl View for AtResult {
    type V = AtResultView;

    open spec fn view(&self) -> AtResultView {
        AtResultView { at_id: self.at_id@, status: self.status@, evidence: self.evidence@ }
    }
}

pub open spec fn results_view(rs: Seq<AtResult>) -> Seq<AtResultView> {
    rs.map_values(|r: AtResult| r@)
}

/// Whether the distributed backend was brought up, with details.
#[derive(Clone, Debug)]
pub struct BackendPreparation {
    pub ready: bool,
    pub details: String,
}

/// The outcome of an external command: success, and "ok" or the reason.
#[derive(Clone, Debug)]
pub struct ProcessResult {
    pub success: bool,
    pub details: String,
}

/// One request trace of a run.
#[derive(Clone, Debug)]
pub struct TraceRecord {
    pub at_id: Option<String>,
    pub trace_id: String,
    pub scenario_id: String,
    pub request_started_at: i64,
    pub request_completed_at: i64,
    pub key: String,
    pub http_status: u16,
    pub decision: String,
    pub retry_after_ms: Option<u64>,
    pub latency_ms: u64,
    pub backend_outcome: String,
    pub failure_policy: Option<String>,
    pub error_code: Option<String>,
}

/// The text of an optional field.
pub open spec fn opt_view(o: Option<String>) -> Option<Seq<char>> {
    match o {
        Some(s) => Some(s@),
        None => None,
    }
}

/// One entry of the failure-injection timeline.
#[derive(Clone, Debug)]
pub struct TimelineEvent {
    pub at_id: String,
    pub mode: String,
    pub event: String,
    pub ts_ms: i64,
    pub policy: String,
    pub conformant: bool,
}

/// One preflight check.
#[derive(Clone, Debug)]
pub struct PreflightCheck {
    pub name: String,
    pub required: bool,
    pub passed: bool,
    pub details: String,
}

/// All preflight checks, and whether every required one passed.
#[derive(Clone, Debug)]
pub struct Preflight {
    pub passed: bool,
    pub checks: Vec<PreflightCheck>,
}

} // verus!
