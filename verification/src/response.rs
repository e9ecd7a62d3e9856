//! Assembly of the full comparison response from the two resolved backend
//! results.

use vstd::prelude::*;

use crate::comparison::{compare_ok, compare_predictions, Comparison};
use crate::model::ModelResult;

verus! {

/// The full body answered to a comparison request: both backend results
/// verbatim, plus their head-to-head comparison — exactly two `ModelResult`s
/// and one `Comparison`, whatever each backend did.
#[derive(Clone, Debug)]
pub struct CompareResponse {
    /// Outcome of the "Model A" backend.
    pub model_a: ModelResult,
    /// Outcome of the "Model B" backend.
    pub model_b: ModelResult,
    /// Head-to-head summary of the two outcomes.
    pub comparison: Comparison,
}

/// Assembles the response once both backend calls have resolved: the two
/// results are carried over verbatim, and the comparison is computed from
/// them. A failure of one backend never blocks the response; it is reported
/// inside that side's result and the comparison is simply unavailable.
pub fn compare_response(model_a: ModelResult, model_b: ModelResult) -> (r: CompareResponse)
    requires
        model_a.wf(),
        model_b.wf(),
    ensures
        r.model_a == model_a,
        r.model_b == model_b,
        compare_ok(model_a, model_b, r.comparison),
{
    let comparison = compare_predictions(&model_a, &model_b);
    CompareResponse { model_a, model_b, comparison }
}

} // verus!
