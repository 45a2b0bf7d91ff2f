//! Retry/backoff policy for provider HTTP requests, and the interpretation
//! of non-success statuses.
//!
//! Requests are retried only on HTTP 429, up to three retries, with delay
//! `6 · 2^attempt` seconds before each retry. Any other status, or a 429
//! surviving every retry, is returned to the caller for interpretation.
//! Transport-level failures surface immediately as `Network`, without retry.

use vstd::prelude::*;
use crate::errors::ModelError;
use crate::strutil::{push_chars, string_from_chars, decimal_chars, u64_decimal_chars};

verus! {

/// How many retries a rate-limited request is given.
pub const MAX_RETRIES: u32 = 3;

/// The backoff unit, in seconds.
pub const BASE_DELAY_SECS: u64 = 6;

/// Two to the power `n`.
pub open spec fn pow2(n: nat) -> nat
    decreases n,
{
    if n == 0 {
        1
    } else {
        2 * pow2((n - 1) as nat)
    }
}

/// Whether a response at this attempt is retried: only HTTP 429, and only
/// while retries are left.
pub open spec fn should_retry_spec(attempt: nat, status: u16) -> bool {
    status == 429 && attempt < MAX_RETRIES
}

/// The backoff before the retry following `attempt`, in seconds.
pub open spec fn retry_delay_spec(attempt: nat) -> nat {
    (BASE_DELAY_SECS as nat) * pow2(attempt)
}

/// Decides what follows the response of one attempt: `Some(delay)` means
/// sleep that many seconds and retry, `None` means this response is the
/// request's outcome.
pub fn retry_decision(attempt: u32, status: u16) -> (r: Option<u64>)
    requires
        attempt <= MAX_RETRIES,
    ensures
        should_retry_spec(attempt as nat, status) ==> (r matches Some(d) && d
            == retry_delay_spec(attempt as nat)),
        !should_retry_spec(attempt as nat, status) ==> r is None,
{
    proof {
        assert(pow2(0) == 1);
        assert(pow2(1) == 2);
        assert(pow2(2) == 4);
    }
    if status == 429 && attempt < MAX_RETRIES {
        let d: u64 = match attempt {
            0 => 6,
            1 => 12,
            _ => 24,
        };
        Option::Some(d)
    } else {
        Option::None
    }
}

/// Runs the whole retry schedule against the statuses the attempts would
/// see: attempt `k` observes `statuses[k]`. Returns the index of the attempt
/// whose response is the request's outcome, and the backoff delays slept, in
/// order. The outcome is the first non-429 response, or the final attempt's
/// 429 once every retry is spent.
pub fn run_retry_schedule(statuses: &Vec<u16>) -> (r: (usize, Vec<u64>))
    requires
        statuses@.len() > MAX_RETRIES,
    ensures
        r.0 <= MAX_RETRIES,
        forall|k: int| 0 <= k < r.0 ==> statuses@[k] == 429,
        r.0 < MAX_RETRIES ==> statuses@[r.0 as int] != 429,
        r.1@.len() == r.0,
        forall|k: int| 0 <= k < r.1@.len() ==> r.1@[k] == retry_delay_spec(k as nat),
{
    let mut delays: Vec<u64> = Vec::new();
    let mut attempt: u32 = 0;
    loop
        invariant_except_break
            attempt <= MAX_RETRIES,
            statuses@.len() > MAX_RETRIES,
            forall|k: int| 0 <= k < attempt ==> statuses@[k] == 429,
            delays@.len() == attempt,
            forall|k: int| 0 <= k < delays@.len() ==> delays@[k] == retry_delay_spec(k as nat),
        ensures
            attempt <= MAX_RETRIES,
            forall|k: int| 0 <= k < attempt ==> statuses@[k] == 429,
            attempt < MAX_RETRIES ==> statuses@[attempt as int] != 429,
            delays@.len() == attempt,
            forall|k: int| 0 <= k < delays@.len() ==> delays@[k] == retry_delay_spec(k as nat),
        decreases MAX_RETRIES - attempt,
    {
        let status = statuses[attempt as usize];
        match retry_decision(attempt, status) {
            Option::Some(delay) => {
                delays.push(delay);
                attempt = attempt + 1;
            },
            Option::None => {
                break;
            },
        }
    }
    (attempt as usize, delays)
}

/// The typed error for a transport-level failure: immediate, never retried.
pub fn transport_error(provider: &str, detail: &str) -> (e: ModelError)
    ensures
        e matches ModelError::Network { reason } && reason@ == provider@ + ": "@ + detail@,
{
    let mut v: Vec<char> = Vec::new();
    push_chars(&mut v, provider);
    push_chars(&mut v, ": ");
    push_chars(&mut v, detail);
    ModelError::Network { reason: string_from_chars(&v) }
}

/// Interprets a non-success status once the retry schedule has run out:
/// 401 means the credentials were rejected, 429 means the rate limit
/// survived every retry, and anything else is a request failure carrying the
/// vendor's parsed error message — or a fixed text where the error body
/// could not be parsed.
pub fn interpret_error_status(provider: &str, status: u16, body_message: &Option<String>) -> (e:
    ModelError)
    ensures
        status == 401 ==> (e matches ModelError::Authentication { reason } && reason@
            == "provider: "@ + provider@),
        status == 429 ==> (e matches ModelError::RateLimit { reason, retry_after_seconds }
            && reason@ == "provider: "@ + provider@ && retry_after_seconds is None),
        status != 401 && status != 429 ==> match *body_message {
            Option::Some(msg) => (e matches ModelError::Request { reason } && reason@
                == "provider: "@ + provider@ + ", status: "@ + decimal_chars(status as nat)
                + ", message: "@ + msg@),
            Option::None => (e matches ModelError::Request { reason } && reason@
                == "invalid response from "@ + provider@ + ": Failed to parse error response"@),
        },
{
    if status == 401 {
        let mut v: Vec<char> = Vec::new();
        push_chars(&mut v, "provider: ");
        push_chars(&mut v, provider);
        ModelError::Authentication { reason: string_from_chars(&v) }
    } else if status == 429 {
        let mut v: Vec<char> = Vec::new();
        push_chars(&mut v, "provider: ");
        push_chars(&mut v, provider);
        ModelError::RateLimit {
            reason: string_from_chars(&v),
            retry_after_seconds: Option::None,
        }
    } else {
        match body_message {
            Option::Some(msg) => {
                let mut v: Vec<char> = Vec::new();
                push_chars(&mut v, "provider: ");
                push_chars(&mut v, provider);
                push_chars(&mut v, ", status: ");
                let digits = u64_decimal_chars(status as u64);
                let digit_str = string_from_chars(&digits);
                push_chars(&mut v, digit_str.as_str());
                push_chars(&mut v, ", message: ");
                push_chars(&mut v, msg.as_str());
                ModelError::Request { reason: string_from_chars(&v) }
            },
            Option::None => {
                let mut v: Vec<char> = Vec::new();
                push_chars(&mut v, "invalid response from ");
                push_chars(&mut v, provider);
                push_chars(&mut v, ": Failed to parse error response");
                ModelError::Request { reason: string_from_chars(&v) }
            },
        }
    }
}

} // verus!
