//! Backend-agnostic fixed-window limit specification and the decoding of
//! the shared-store replies.

use vstd::prelude::*;

use crate::models::{nanos_per_milli, Duration};

verus! {

/// Backend-agnostic rate limit spec: a fixed window and the number of
/// requests allowed in it.
#[derive(Clone, Copy, Debug, PartialEq, Eq, Structural)]
pub struct LimitSpec {
    pub window: Duration,
    pub max: u32,
}

/// A backend's verdict on one request.
#[derive(Clone, Copy, Debug, PartialEq, Eq, Structural)]
pub enum BackendDecision {
    Allow,
    Deny { retry_after: Duration },
}

/// Failures of a state backend.
#[derive(Clone, Debug, PartialEq, Eq)]
pub enum BackendError {
    /// The store could not be reached or rejected the command; the text is
    /// the store client's message.
    Redis(String),
    /// The store answered with something other than `[allowed, retry_after_ms]`.
    InvalidResponse,
}

/// The window length in whole milliseconds, saturated at `i64::MAX`.
pub open spec fn spec_window_millis(limit: LimitSpec) -> i64 {
    let ms = limit.window.nanos / (nanos_per_milli() as u128);
    if ms <= i64::MAX as u128 {
        ms as i64
    } else {
        i64::MAX
    }
}

/// The window argument handed to the fixed-window script.
pub fn window_millis(limit: LimitSpec) -> (ms: i64)
    ensures
        ms == spec_window_millis(limit),
{
    let ms = limit.window.as_millis();
    if ms <= i64::MAX as u128 {
        ms as i64
    } else {
        i64::MAX
    }
}

/// The store key of `key` in `namespace`: `prefix:namespace:key`.
pub fn redis_key(prefix: &str, namespace: &str, key: &str) -> (k: String)
    ensures
        k@ == prefix@ + seq![':'] + namespace@ + seq![':'] + key@,
{
    let mut k = String::from_str(prefix);
    proof {
        reveal_strlit(":");
    }
    k.append(":");
    k.append(namespace);
    k.append(":");
    k.append(key);
    k
}

/// The meaning of a fixed-window reply `[allowed, retry_after_ms]`: a reply
/// of any other length is invalid; `allowed == 1` allows; anything else
/// denies, with the reported milliseconds (negative values read as zero).
pub open spec fn spec_decode_fixed_window(resp: Seq<i64>) -> Result<BackendDecision, BackendError> {
    if resp.len() != 2 {
        Err(BackendError::InvalidResponse)
    } else if resp[0] == 1 {
        Ok(BackendDecision::Allow)
    } else {
        let ms: int = if resp[1] < 0 { 0 } else { resp[1] as int };
        Ok(BackendDecision::Deny { retry_after: Duration { nanos: (ms * nanos_per_milli()) as u128 } })
    }
}

/// Decodes the fixed-window script's reply.
pub fn decode_fixed_window_response(resp: &Vec<i64>) -> (r: Result<BackendDecision, BackendError>)
    ensures
        r == spec_decode_fixed_window(resp@),
{
    if resp.len() != 2 {
        return Err(BackendError::InvalidResponse);
    }
    let allowed = resp[0];
    let retry_after_ms = resp[1];
    if allowed == 1 {
        Ok(BackendDecision::Allow)
    } else {
        let ms: u64 = if retry_after_ms < 0 { 0 } else { retry_after_ms as u64 };
        Ok(BackendDecision::Deny { retry_after: Duration::from_millis(ms) })
    }
}

/// The result of a fixed-window check from the store client's outcome:
/// a client error becomes `BackendError::Redis` with its message, a reply
/// is decoded by `decode_fixed_window_response`.
pub fn fixed_window_result(reply: Result<Vec<i64>, String>) -> (r: Result<BackendDecision, BackendError>)
    ensures
        match reply {
            Err(e) => r == Err::<BackendDecision, BackendError>(BackendError::Redis(e)),
            Ok(resp) => r == spec_decode_fixed_window(resp@),
        },
{
    match reply {
        Err(e) => Err(BackendError::Redis(e)),
        Ok(resp) => decode_fixed_window_response(&resp),
    }
}

} // verus!
