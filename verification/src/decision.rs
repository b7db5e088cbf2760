//! Behavior arbitration: from a list of scorer outputs, the decision
//! engine selects the behavior with the strictly highest score above an
//! activation threshold; ties resolve to the earliest declared behavior,
//! and when nothing clears the threshold the designated idle fallback runs
//! instead.

use vstd::prelude::*;

verus! {

/// The index of the greatest score; among equal scores, the earliest.
pub open spec fn first_max_idx(scores: Seq<u32>) -> int
    decreases scores.len(),
{
    if scores.len() <= 1 {
        0
    } else {
        let prev = first_max_idx(scores.drop_last());
        if scores.last() > scores[prev] {
            scores.len() - 1
        } else {
            prev
        }
    }
}

/// `first_max_idx` denotes a real index, no score is greater, and every
/// earlier score is strictly smaller.
pub proof fn lemma_first_max_idx(scores: Seq<u32>)
    requires
        scores.len() > 0,
    ensures
        0 <= first_max_idx(scores) < scores.len(),
        forall|j: int| 0 <= j < scores.len() ==> #[trigger] scores[j]
            <= scores[first_max_idx(scores)],
        forall|j: int| 0 <= j < first_max_idx(scores) ==> #[trigger] scores[j]
            < scores[first_max_idx(scores)],
    decreases scores.len(),
{
    if scores.len() > 1 {
        lemma_first_max_idx(scores.drop_last());
        assert(forall|j: int| 0 <= j < scores.len() - 1 ==> scores.drop_last()[j]
            == #[trigger] scores[j]);
    }
}

/// The arbitration winner: the first index carrying the maximum score,
/// provided that score exceeds the threshold; otherwise no winner, and the
/// idle fallback is to run.
pub open spec fn winner(scores: Seq<u32>, threshold: u32) -> Option<int> {
    if scores.len() == 0 {
        None
    } else {
        let i = first_max_idx(scores);
        if scores[i] > threshold {
            Some(i)
        } else {
            None
        }
    }
}

/// Determinism of arbitration: the winner is exactly characterized by the
/// scores — an index wins if and only if its score clears the threshold,
/// nothing scores higher, and everything declared earlier scores strictly
/// lower. Two evaluations over equal score lists therefore always select
/// the same behavior.
pub proof fn lemma_winner_deterministic(scores: Seq<u32>, threshold: u32, k: int)
    requires
        0 <= k < scores.len(),
        scores[k] > threshold,
        forall|j: int| 0 <= j < scores.len() ==> #[trigger] scores[j] <= scores[k],
        forall|j: int| 0 <= j < k ==> #[trigger] scores[j] < scores[k],
    ensures
        winner(scores, threshold) == Some(k),
{
    lemma_first_max_idx(scores);
    let i = first_max_idx(scores);
    assert(scores[i] <= scores[k]);
    assert(scores[k] <= scores[i]);
    if i < k {
        assert(scores[i] < scores[k]);
    } else if k < i {
        assert(scores[k] < scores[i]);
    }
}

/// When no score clears the threshold there is no winner: the idle
/// fallback runs.
pub proof fn lemma_no_winner(scores: Seq<u32>, threshold: u32)
    requires
        forall|j: int| 0 <= j < scores.len() ==> #[trigger] scores[j] <= threshold,
    ensures
        winner(scores, threshold) == None::<int>,
{
    if scores.len() > 0 {
        lemma_first_max_idx(scores);
    }
}

/// Selects the winning behavior index from the scorer outputs, if any
/// score exceeds `threshold`.
#[verifier::loop_isolation(false)]
pub fn pick_highest(scores: &Vec<u32>, threshold: u32) -> (r: Option<usize>)
    ensures
        match winner(scores@, threshold) {
            Some(i) => r is Some && r->0 == i,
            None => r is None,
        },
{
    let n = scores.len();
    if n == 0 {
        return None;
    }
    let mut best: usize = 0;
    let mut i: usize = 1;
    while i < n
        invariant
            1 <= i <= n,
            best < i,
            best == first_max_idx(scores@.subrange(0, i as int)),
        decreases n - i,
    {
        proof {
            let s = scores@;
            let longer = s.subrange(0, i as int + 1);
            assert(longer.drop_last() =~= s.subrange(0, i as int));
            assert(longer.last() == s[i as int]);
            lemma_first_max_idx(s.subrange(0, i as int));
        }
        if scores[i] > scores[best] {
            best = i;
        }
        i += 1;
    }
    proof {
        assert(scores@.subrange(0, n as int) =~= scores@);
    }
    if scores[best] > threshold {
        Some(best)
    } else {
        None
    }
}

} // verus!
