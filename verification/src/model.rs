//! The normalized outcome of querying one classification backend.
//!
//! Scores are held as signed fixed-point numbers in millionths (`1_000_000`
//! stands for a score of `1.0`), and elapsed time as whole milliseconds, so
//! that every comparison and rounding step is exact integer arithmetic.

use vstd::prelude::*;

use crate::text::{decimal_digits, http_error_message, parse_error_message};

verus! {

/// Largest magnitude a score may take in millionths (a score of one million).
/// Scores are expected in `[0, 1]` but are not rejected outside it; this bound
/// only keeps every difference and rounding step inside `i64`.
pub const SCORE_MICROS_BOUND: i64 = 1_000_000_000_000;

/// One classification guess returned by a backend, most confident first in a
/// result's list.
#[derive(Clone, Debug)]
pub struct Prediction {
    /// English breed name.
    pub breed_en: String,
    /// Localized breed name.
    pub breed_ko: String,
    /// Numeric class identifier.
    pub class_id: u32,
    /// Confidence score in millionths.
    pub score_micros: i64,
}

impl Prediction {
    /// The score stays inside the fixed-point range.
    pub open spec fn wf(self) -> bool {
        -SCORE_MICROS_BOUND <= self.score_micros <= SCORE_MICROS_BOUND
    }
}

/// What one attempt against a backend produced, as the surrounding plumbing
/// reports it: the transport failed, the server answered with a non-2xx
/// status, the 2xx body was not valid JSON, or a list of predictions was
/// obtained (an absent or malformed `predictions` field counts as an empty
/// list, not as a failure).
pub enum UpstreamOutcome {
    /// Transport-level failure; the payload is the transport's own description.
    TransportError(String),
    /// Non-2xx HTTP status code.
    HttpError(u16),
    /// The 2xx body could not be parsed as JSON; the payload is the parser's
    /// description of the failure.
    BodyUnparsable(String),
    /// The parsed predictions, most confident first, possibly empty.
    Predictions(Vec<Prediction>),
}

impl UpstreamOutcome {
    /// Every parsed prediction stays inside the fixed-point score range.
    pub open spec fn wf(self) -> bool {
        self matches UpstreamOutcome::Predictions(ps) ==> forall|i: int|
            0 <= i < ps@.len() ==> (#[trigger] ps@[i]).wf()
    }
}

/// The normalized outcome of querying one backend: either a ranked prediction
/// list, or a contained failure. No failure escapes as a panic or an error
/// value; everything is encoded here.
#[derive(Clone, Debug)]
pub struct ModelResult {
    /// Whether the backend produced a parseable answer.
    pub success: bool,
    /// Backend label, e.g. `"Model A"`.
    pub model: String,
    /// Ranked predictions, most confident first; empty on failure.
    pub predictions: Vec<Prediction>,
    /// Wall-clock duration of the attempt, in whole milliseconds.
    pub response_time_millis: u64,
    /// Failure description, present exactly when `success` is false.
    pub error: Option<String>,
}

impl ModelResult {
    /// A failed result always carries an error message and no predictions; a
    /// successful one carries no error message; every score is in range.
    pub open spec fn wf(self) -> bool {
        &&& self.success ==> self.error is None
        &&& !self.success ==> self.error is Some && self.predictions@.len() == 0
        &&& forall|i: int|
            0 <= i < self.predictions@.len() ==> (#[trigger] self.predictions@[i]).wf()
    }
}

/// Normalizes one backend attempt into a `ModelResult`, the decision core of
/// the per-backend client: success exactly when predictions were obtained,
/// the error message chosen by the kind of failure, the elapsed time always
/// carried over unchanged.
pub fn build_model_result(model: String, outcome: UpstreamOutcome, elapsed_millis: u64) -> (r:
    ModelResult)
    requires
        outcome.wf(),
    ensures
        r.wf(),
        r.model == model,
        r.response_time_millis == elapsed_millis,
        r.success == (outcome is Predictions),
        outcome matches UpstreamOutcome::Predictions(ps) ==> r.predictions == ps && r.error
            is None,
        outcome matches UpstreamOutcome::HttpError(status) ==> r.error matches Some(e) && e@
            == "HTTP "@ + decimal_digits(status as nat),
        outcome matches UpstreamOutcome::TransportError(msg) ==> r.error matches Some(e) && e@
            == msg@,
        outcome matches UpstreamOutcome::BodyUnparsable(detail) ==> r.error matches Some(e) && e@
            == "JSON parse error: "@ + detail@,
{
    match outcome {
        UpstreamOutcome::Predictions(ps) => ModelResult {
            success: true,
            model,
            predictions: ps,
            response_time_millis: elapsed_millis,
            error: None,
        },
        UpstreamOutcome::HttpError(status) => ModelResult {
            success: false,
            model,
            predictions: Vec::new(),
            response_time_millis: elapsed_millis,
            error: Some(http_error_message(status)),
        },
        UpstreamOutcome::TransportError(msg) => ModelResult {
            success: false,
            model,
            predictions: Vec::new(),
            response_time_millis: elapsed_millis,
            error: Some(msg),
        },
        UpstreamOutcome::BodyUnparsable(detail) => ModelResult {
            success: false,
            model,
            predictions: Vec::new(),
            response_time_millis: elapsed_millis,
            error: Some(parse_error_message(detail.as_str())),
        },
    }
}

/// The response time is present on every result — the field is not optional,
/// so a failed attempt carries its elapsed time like a successful one — and
/// it is never negative: it is an unsigned count of milliseconds, carried
/// over unchanged from the measured duration by `build_model_result`.
pub proof fn law_response_time_total(r: ModelResult)
    ensures
        r.response_time_millis >= 0,
{
}

} // verus!
