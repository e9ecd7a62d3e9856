//! Head-to-head comparison of two normalized backend results: top-1
//! agreement, rounded score difference, top-5 breed overlap and the winner
//! label, with a single degenerate case when either side failed or returned
//! nothing.

use vstd::prelude::*;

use crate::model::{ModelResult, Prediction, SCORE_MICROS_BOUND};
use crate::text::{decimal_digits, overlap_label};

verus! {

/// Both sides succeeded and returned at least one prediction: only then are
/// the detailed comparison metrics computed.
pub open spec fn inputs_comparable(a: ModelResult, b: ModelResult) -> bool {
    a.success && b.success && a.predictions@.len() > 0 && b.predictions@.len() > 0
}

/// Absolute difference of two mathematical integers.
pub open spec fn spec_abs_diff(x: int, y: int) -> int {
    if x >= y {
        x - y
    } else {
        y - x
    }
}

/// Rounding of a count of millionths to ten-thousandths, halves away from
/// zero: the fixed-point counterpart of rounding a score to four decimal
/// places.
pub open spec fn spec_round_to_ten_thousandths(micros: int) -> int {
    if micros >= 0 {
        (micros + 50) / 100
    } else {
        -((50 - micros) / 100)
    }
}

/// Rounds a count of millionths to ten-thousandths, halves away from zero.
pub fn round_to_ten_thousandths(micros: i64) -> (r: i64)
    requires
        -2 * SCORE_MICROS_BOUND <= micros <= 2 * SCORE_MICROS_BOUND,
    ensures
        r == spec_round_to_ten_thousandths(micros as int),
{
    if micros >= 0 {
        (micros + 50) / 100
    } else {
        -((50 - micros) / 100)
    }
}

/// The English breed names of the first five predictions (fewer if the list
/// is shorter), in list order.
pub open spec fn top5_names(preds: Seq<Prediction>) -> Seq<Seq<char>> {
    preds.map_values(|p: Prediction| p.breed_en@).take(
        if preds.len() < 5 {
            preds.len() as int
        } else {
            5
        },
    )
}

/// How many distinct breed names the two top-5 lists share: the size of the
/// intersection of the two sets of names.
pub open spec fn spec_top5_overlap(a: Seq<Prediction>, b: Seq<Prediction>) -> nat {
    top5_names(a).to_set().intersect(top5_names(b).to_set()).len()
}

/// Whether `name` occurs among the first five predictions' English names.
fn name_in_top5(preds: &Vec<Prediction>, name: &String) -> (r: bool)
    ensures
        r == top5_names(preds@).contains(name@),
{
    let k: usize = if preds.len() < 5 {
        preds.len()
    } else {
        5
    };
    let mut i: usize = 0;
    let mut found = false;
    while i < k
        invariant
            0 <= i <= k,
            k == top5_names(preds@).len(),
            k <= preds@.len(),
            found == exists|j: int| 0 <= j < i && top5_names(preds@)[j] == name@,
        decreases k - i,
    {
        if preds[i].breed_en.eq(name) {
            proof {
                assert(top5_names(preds@)[i as int] == name@);
            }
            found = true;
        }
        i += 1;
    }
    found
}

/// Whether `name` occurs in `list`, compared by character content.
fn name_in_list(list: &Vec<String>, name: &String) -> (r: bool)
    ensures
        r == list@.map_values(|s: String| s@).contains(name@),
{
    let ghost names = list@.map_values(|s: String| s@);
    let mut i: usize = 0;
    let mut found = false;
    while i < list.len()
        invariant
            0 <= i <= list@.len(),
            names == list@.map_values(|s: String| s@),
            found == exists|j: int| 0 <= j < i && names[j] == name@,
        decreases list@.len() - i,
    {
        if list[i].eq(name) {
            proof {
                assert(names[i as int] == name@);
            }
            found = true;
        }
        i += 1;
    }
    found
}

/// Counts the distinct breed names shared by the two sides' first five
/// predictions.
pub fn top5_overlap_count(a: &Vec<Prediction>, b: &Vec<Prediction>) -> (n: usize)
    ensures
        n == spec_top5_overlap(a@, b@),
{
    let ghost ta = top5_names(a@);
    let ghost tb = top5_names(b@);
    let ka: usize = if a.len() < 5 {
        a.len()
    } else {
        5
    };
    let mut common: Vec<String> = Vec::new();
    let mut i: usize = 0;
    while i < ka
        invariant
            0 <= i <= ka,
            ka == ta.len(),
            ka <= a@.len(),
            ta == top5_names(a@),
            tb == top5_names(b@),
            common@.map_values(|s: String| s@).no_duplicates(),
            common@.map_values(|s: String| s@).to_set() == ta.take(i as int).to_set().intersect(
                tb.to_set(),
            ),
        decreases ka - i,
    {
        let ghost pre = common@.map_values(|s: String| s@);
        let name = &a[i].breed_en;
        proof {
            assert(ta[i as int] == name@);
            ta.lemma_take_succ_push(i as int);
        }
        if name_in_top5(b, name) && !name_in_list(&common, name) {
            common.push(name.clone());
            proof {
                broadcast use vstd::seq_lib::lemma_seq_contains_after_push;

                assert(common@.map_values(|s: String| s@) =~= pre.push(name@)) by {
                    common@.drop_last().lemma_push_map_commute(|s: String| s@, common@.last());
                    assert(common@.drop_last() =~= common@.subrange(0, common@.len() - 1));
                }
                assert(!pre.contains(name@));
                assert(forall|j: int| 0 <= j < pre.len() ==> pre[j] != name@);
                assert(pre.push(name@).no_duplicates());
                pre.lemma_push_to_set_commute(name@);
                assert(tb.to_set().contains(name@));
                assert(ta.take(i as int).push(name@).to_set() =~= ta.take(i as int).to_set().insert(
                    name@,
                )) by {
                    ta.take(i as int).lemma_push_to_set_commute(name@);
                }
                assert(ta.take(i + 1).to_set().intersect(tb.to_set()) =~= pre.push(
                    name@,
                ).to_set());
            }
        } else {
            proof {
                broadcast use vstd::seq_lib::lemma_seq_contains_after_push;

                assert(ta.take(i as int).push(name@).to_set() =~= ta.take(i as int).to_set().insert(
                    name@,
                )) by {
                    ta.take(i as int).lemma_push_to_set_commute(name@);
                }
                if tb.to_set().contains(name@) {
                    // the name is already counted: it sits in `common`
                    assert(pre.contains(name@));
                    assert(pre.to_set().contains(name@));
                    assert(ta.take(i + 1).to_set().intersect(tb.to_set()) =~= pre.to_set());
                } else {
                    assert(ta.take(i + 1).to_set().intersect(tb.to_set()) =~= pre.to_set());
                }
            }
        }
        i += 1;
    }
    proof {
        assert(ta.take(ka as int) == ta) by {
            assert(ta.take(ka as int) =~= ta);
        }
        common@.map_values(|s: String| s@).unique_seq_to_set();
        assert(common@.map_values(|s: String| s@).len() == common@.len());
    }
    common.len()
}

/// The condensed view of one side's top prediction carried inside a
/// `Comparison`: localized name, English name, and the score rounded to
/// ten-thousandths.
#[derive(Clone, Debug)]
pub struct Top1Summary {
    /// Localized breed name.
    pub breed: String,
    /// English breed name.
    pub breed_en: String,
    /// Confidence score rounded to ten-thousandths (four decimal places).
    pub score_ten_thousandths: i64,
}

/// `t` summarizes the prediction `p`.
pub open spec fn summarizes(t: Top1Summary, p: Prediction) -> bool {
    &&& t.breed@ == p.breed_ko@
    &&& t.breed_en@ == p.breed_en@
    &&& t.score_ten_thousandths == spec_round_to_ten_thousandths(p.score_micros as int)
}

/// The head-to-head summary of two `ModelResult`s. The detail fields are all
/// present when `comparison_available` is true and all absent when it is
/// false.
#[derive(Clone, Debug)]
pub struct Comparison {
    /// Whether both sides succeeded with at least one prediction each.
    pub comparison_available: bool,
    /// Whether the two top-1 English breed names are exactly equal.
    pub top1_agreement: Option<bool>,
    /// Summary of side A's top prediction.
    pub top1_model_a: Option<Top1Summary>,
    /// Summary of side B's top prediction.
    pub top1_model_b: Option<Top1Summary>,
    /// Absolute top-1 score difference, rounded to ten-thousandths.
    pub score_difference: Option<i64>,
    /// The `"<count>/5"` label for the shared top-5 breed names.
    pub top5_overlap: Option<String>,
    /// `"Model A"` if A's top-1 score is strictly greater, else `"Model B"`.
    pub winner: Option<String>,
}

impl Comparison {
    /// The detail fields are present exactly when the comparison is
    /// available.
    pub open spec fn wf(self) -> bool {
        &&& self.top1_agreement is Some == self.comparison_available
        &&& self.top1_model_a is Some == self.comparison_available
        &&& self.top1_model_b is Some == self.comparison_available
        &&& self.score_difference is Some == self.comparison_available
        &&& self.top5_overlap is Some == self.comparison_available
        &&& self.winner is Some == self.comparison_available
    }
}

/// Everything `compare_predictions` promises of its result: availability
/// mirrors `inputs_comparable`, and when available each metric is pinned to
/// the two prediction lists.
pub open spec fn compare_ok(a: ModelResult, b: ModelResult, c: Comparison) -> bool {
    &&& c.wf()
    &&& c.comparison_available == inputs_comparable(a, b)
    &&& inputs_comparable(a, b) ==> {
        let pa = a.predictions@[0];
        let pb = b.predictions@[0];
        &&& c.top1_agreement == Some(pa.breed_en@ == pb.breed_en@)
        &&& (c.top1_model_a matches Some(t) && summarizes(t, pa))
        &&& (c.top1_model_b matches Some(t) && summarizes(t, pb))
        &&& (c.score_difference matches Some(d) && d == spec_round_to_ten_thousandths(
            spec_abs_diff(pa.score_micros as int, pb.score_micros as int),
        ))
        &&& (c.top5_overlap matches Some(s) && s@ == decimal_digits(
            spec_top5_overlap(a.predictions@, b.predictions@),
        ) + "/5"@)
        &&& (c.winner matches Some(w) && w@ == (if pa.score_micros > pb.score_micros {
            "Model A"@
        } else {
            "Model B"@
        }))
    }
}

/// Compares two normalized backend results. If either side failed or
/// returned no predictions, every metric is absent; otherwise top-1
/// agreement, rounded score difference, top-5 overlap and the winner label
/// are computed exactly as `compare_ok` states.
pub fn compare_predictions(a: &ModelResult, b: &ModelResult) -> (c: Comparison)
    requires
        a.wf(),
        b.wf(),
    ensures
        compare_ok(*a, *b, c),
{
    if !a.success || !b.success || a.predictions.len() == 0 || b.predictions.len() == 0 {
        return Comparison {
            comparison_available: false,
            top1_agreement: None,
            top1_model_a: None,
            top1_model_b: None,
            score_difference: None,
            top5_overlap: None,
            winner: None,
        };
    }
    proof {
        assert(a.predictions@[0].wf());
        assert(b.predictions@[0].wf());
    }
    let pa = &a.predictions[0];
    let pb = &b.predictions[0];
    let agreement = pa.breed_en.eq(&pb.breed_en);
    let diff: i64 = if pa.score_micros >= pb.score_micros {
        pa.score_micros - pb.score_micros
    } else {
        pb.score_micros - pa.score_micros
    };
    let overlap: usize = top5_overlap_count(&a.predictions, &b.predictions);
    let winner = if pa.score_micros > pb.score_micros {
        String::from_str("Model A")
    } else {
        String::from_str("Model B")
    };
    Comparison {
        comparison_available: true,
        top1_agreement: Some(agreement),
        top1_model_a: Some(
            Top1Summary {
                breed: pa.breed_ko.clone(),
                breed_en: pa.breed_en.clone(),
                score_ten_thousandths: round_to_ten_thousandths(pa.score_micros),
            },
        ),
        top1_model_b: Some(
            Top1Summary {
                breed: pb.breed_ko.clone(),
                breed_en: pb.breed_en.clone(),
                score_ten_thousandths: round_to_ten_thousandths(pb.score_micros),
            },
        ),
        score_difference: Some(round_to_ten_thousandths(diff)),
        top5_overlap: Some(overlap_label(overlap as u64)),
        winner: Some(winner),
    }
}

/// A failed or empty side blocks the whole comparison: no detail field is
/// produced, and no error is raised.
pub proof fn law_failure_blocks_comparison(a: ModelResult, b: ModelResult, c: Comparison)
    requires
        compare_ok(a, b, c),
        !a.success || !b.success || a.predictions@.len() == 0 || b.predictions@.len() == 0,
    ensures
        !c.comparison_available,
        c.top1_agreement is None,
        c.top1_model_a is None,
        c.top1_model_b is None,
        c.score_difference is None,
        c.top5_overlap is None,
        c.winner is None,
{
}

/// Equal top-1 scores name Model B the winner: the tie-break favors B.
pub proof fn law_tie_favors_model_b(a: ModelResult, b: ModelResult, c: Comparison)
    requires
        compare_ok(a, b, c),
        inputs_comparable(a, b),
        a.predictions@[0].score_micros == b.predictions@[0].score_micros,
    ensures
        c.winner matches Some(w) && w@ == "Model B"@,
{
}

/// The winner label is `"Model A"` exactly when A's top-1 score is strictly
/// greater than B's, and `"Model B"` otherwise.
pub proof fn law_winner_by_strict_score(a: ModelResult, b: ModelResult, c: Comparison)
    requires
        compare_ok(a, b, c),
        inputs_comparable(a, b),
    ensures
        a.predictions@[0].score_micros > b.predictions@[0].score_micros ==> (c.winner matches Some(
            w,
        ) && w@ == "Model A"@),
        a.predictions@[0].score_micros <= b.predictions@[0].score_micros ==> (c.winner matches Some(
            w,
        ) && w@ == "Model B"@),
{
}

} // verus!
