//! Check outcomes: the status vocabulary, the result of one probe, and the
//! rule that turns what a probe observed into that result.

use vstd::prelude::*;
use crate::text::{decimal, push_decimal};

verus! {

/// The kind of service being monitored.
#[derive(Clone, Copy, Debug, PartialEq, Eq, Structural)]
pub enum ServiceType {
    Http,
    Db,
}

impl ServiceType {
    pub open spec fn label(self) -> Seq<char> {
        match self {
            ServiceType::Http => "http"@,
            ServiceType::Db => "db"@,
        }
    }

    /// The lower-case name of the service type.
    pub fn to_string(&self) -> (r: String)
        ensures
            r@ == self.label(),
    {
        match self {
            ServiceType::Http => {
                proof { reveal_strlit("http"); }
                String::from_str("http")
            },
            ServiceType::Db => {
                proof { reveal_strlit("db"); }
                String::from_str("db")
            },
        }
    }
}

/// Health of a service as judged by one check.
#[derive(Clone, Copy, Debug, PartialEq, Eq, Structural)]
pub enum CheckStatus {
    Healthy,
    /// Reachable but not performing as it should; no HTTP rule yields it.
    Degraded,
    Unhealthy,
}

impl CheckStatus {
    pub open spec fn label(self) -> Seq<char> {
        match self {
            CheckStatus::Healthy => "Healthy"@,
            CheckStatus::Degraded => "Degraded"@,
            CheckStatus::Unhealthy => "Unhealthy"@,
        }
    }

    /// The capitalised name of the status.
    pub fn to_string(&self) -> (r: String)
        ensures
            r@ == self.label(),
    {
        match self {
            CheckStatus::Healthy => {
                proof { reveal_strlit("Healthy"); }
                String::from_str("Healthy")
            },
            CheckStatus::Degraded => {
                proof { reveal_strlit("Degraded"); }
                String::from_str("Degraded")
            },
            CheckStatus::Unhealthy => {
                proof { reveal_strlit("Unhealthy"); }
                String::from_str("Unhealthy")
            },
        }
    }

    /// Status for an HTTP response code: healthy exactly on 2xx.
    pub fn from_status_code(code: u16) -> (r: CheckStatus)
        ensures
            r == (if is_success(code) { CheckStatus::Healthy } else { CheckStatus::Unhealthy }),
    {
        if 200 <= code && code < 300 {
            CheckStatus::Healthy
        } else {
            CheckStatus::Unhealthy
        }
    }
}

/// A 2xx response code.
pub open spec fn is_success(code: u16) -> bool {
    200 <= code < 300
}

/// The result of one executed probe.
#[derive(Clone, Debug)]
pub struct HealthCheckStatus {
    pub status: CheckStatus,
    /// Human-readable outcome: reason phrase, error text or timeout note.
    pub status_message: String,
    /// Milliseconds from just before the request to its completion or failure.
    pub response_time: u128,
    /// When the result was observed, in milliseconds since the Unix epoch (UTC).
    pub timestamp: i64,
}

impl HealthCheckStatus {
    /// A field-by-field copy.
    pub fn duplicate(&self) -> (r: Self)
        ensures
            r == *self,
    {
        HealthCheckStatus {
            status: self.status,
            status_message: self.status_message.clone(),
            response_time: self.response_time,
            timestamp: self.timestamp,
        }
    }
}

/// What a probe observed on the wire.
#[derive(Clone, Debug)]
pub enum ProbeOutcome {
    /// A response arrived with this status code.
    Response { code: u16 },
    /// No response arrived within the configured timeout.
    TimedOut,
    /// The request failed below HTTP (refused, DNS, TLS, ...).
    TransportError { description: String },
}

/// The registered reason phrase of a status code, if it has one.
pub uninterp spec fn reason_phrase_of(code: u16) -> Option<Seq<char>>;

/// Relies on `reqwest::StatusCode::from_u16` and `StatusCode::canonical_reason`:
/// the phrase is looked up from the numeric code alone.
#[verifier::external_body]
fn canonical_reason(code: u16) -> (r: Option<String>)
    ensures
        match r {
            Some(p) => reason_phrase_of(code) == Some(p@),
            None => reason_phrase_of(code) is None,
        },
{
    match reqwest::StatusCode::from_u16(code) {
        Ok(status) => status.canonical_reason().map(|p| p.to_string()),
        Err(_) => None,
    }
}

/// The phrase used for a response code: its reason phrase when that is
/// known and non-empty, otherwise `fallback`.
pub open spec fn phrase_or(reason: Option<Seq<char>>, fallback: Seq<char>) -> Seq<char> {
    match reason {
        Some(p) => if p.len() > 0 { p } else { fallback },
        None => fallback,
    }
}

/// Whether a response with `code` meets the expectation: a 2xx code, equal
/// to the expected one where one is configured.
pub open spec fn response_accepted(code: u16, expected: Option<u16>) -> bool {
    is_success(code) && match expected {
        Some(e) => code == e,
        None => true,
    }
}

pub open spec fn timeout_message(timeout_seconds: u64) -> Seq<char> {
    "request timed out after "@ + decimal(timeout_seconds as nat) + " s"@
}

/// Status and message for an outcome, given the reason phrase that the
/// response code (if any) carries.
pub open spec fn judged(
    outcome: ProbeOutcome,
    reason: Option<Seq<char>>,
    expected: Option<u16>,
    timeout_seconds: u64,
) -> (CheckStatus, Seq<char>) {
    match outcome {
        ProbeOutcome::Response { code } => if response_accepted(code, expected) {
            (CheckStatus::Healthy, phrase_or(reason, "OK"@))
        } else {
            (CheckStatus::Unhealthy, phrase_or(reason, "Unexpected status"@))
        },
        ProbeOutcome::TimedOut => (CheckStatus::Unhealthy, timeout_message(timeout_seconds)),
        ProbeOutcome::TransportError { description } => (
            CheckStatus::Unhealthy,
            if description@.len() > 0 { description@ } else { "request failed"@ },
        ),
    }
}

/// Every probe outcome is judged with a non-empty message, and every failed
/// one (a rejected response code, a timeout, a transport error) as Unhealthy.
pub proof fn lemma_outcomes_are_complete(
    outcome: ProbeOutcome,
    reason: Option<Seq<char>>,
    expected: Option<u16>,
    timeout_seconds: u64,
)
    ensures
        judged(outcome, reason, expected, timeout_seconds).1.len() > 0,
        !(outcome is Response && response_accepted(outcome->code, expected)) ==> judged(
            outcome,
            reason,
            expected,
            timeout_seconds,
        ).0 == CheckStatus::Unhealthy,
{
    reveal_strlit("OK");
    reveal_strlit("Unexpected status");
    reveal_strlit("request failed");
    reveal_strlit("request timed out after ");
}

/// The reason phrase that the outcome's response code carries.
pub open spec fn outcome_reason(outcome: ProbeOutcome) -> Option<Seq<char>> {
    match outcome {
        ProbeOutcome::Response { code } => reason_phrase_of(code),
        _ => None,
    }
}

/// Builds the result of one probe from what it observed, given the reason
/// phrase already looked up for a response code.
pub fn judge_with_reason(
    outcome: ProbeOutcome,
    reason: Option<String>,
    expected: Option<u16>,
    timeout_seconds: u64,
    response_time: u128,
    timestamp: i64,
) -> (r: HealthCheckStatus)
    ensures
        (r.status, r.status_message@) == judged(
            outcome,
            match reason { Some(p) => Some(p@), None => None },
            expected,
            timeout_seconds,
        ),
        r.status_message@.len() > 0,
        r.response_time == response_time,
        r.timestamp == timestamp,
{
    proof {
        reveal_strlit("OK");
        reveal_strlit("Unexpected status");
        reveal_strlit("request failed");
        reveal_strlit("request timed out after ");
    }
    let (status, status_message) = match outcome {
        ProbeOutcome::Response { code } => {
            let accepted = 200 <= code && code < 300 && match expected {
                Some(e) => code == e,
                None => true,
            };
            let fallback = if accepted { "OK" } else { "Unexpected status" };
            let message = match reason {
                Some(p) => if !p.as_str().is_empty() { p } else { String::from_str(fallback) },
                None => String::from_str(fallback),
            };
            (if accepted { CheckStatus::Healthy } else { CheckStatus::Unhealthy }, message)
        },
        ProbeOutcome::TimedOut => {
            let mut message = String::from_str("request timed out after ");
            push_decimal(&mut message, timeout_seconds);
            message.append(" s");
            (CheckStatus::Unhealthy, message)
        },
        ProbeOutcome::TransportError { description } => {
            let message = if !description.as_str().is_empty() {
                description
            } else {
                String::from_str("request failed")
            };
            (CheckStatus::Unhealthy, message)
        },
    };
    HealthCheckStatus { status, status_message, response_time, timestamp }
}

/// Builds the result of one probe from what it observed. Every outcome,
/// failures included, yields a complete result with a non-empty message.
pub fn judge(
    outcome: ProbeOutcome,
    expected: Option<u16>,
    timeout_seconds: u64,
    response_time: u128,
    timestamp: i64,
) -> (r: HealthCheckStatus)
    ensures
        (r.status, r.status_message@) == judged(
            outcome,
            outcome_reason(outcome),
            expected,
            timeout_seconds,
        ),
        r.status_message@.len() > 0,
        r.response_time == response_time,
        r.timestamp == timestamp,
{
    let reason = match &outcome {
        ProbeOutcome::Response { code } => canonical_reason(*code),
        _ => None,
    };
    judge_with_reason(outcome, reason, expected, timeout_seconds, response_time, timestamp)
}

} // verus!
