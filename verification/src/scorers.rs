//! Utility scorers: pure maps from agent state to a bounded score, used by
//! the decision engine to arbitrate between behaviors.
//!
//! Scores live on a fixed integer scale; they are not probabilities and are
//! only compared with one another. The fatigue scorer carries one piece of
//! per-instance memory to freeze its report while the agent sleeps, so
//! arbitration does not drift away from a behavior whose underlying need is
//! actively being relieved.

use vstd::prelude::*;

use crate::container::{has_key, slot_of, Container, Slot};
use crate::fatigue::{Fatigue, FATIGUE_CEILING};

verus! {

/// Upper end of the score scale; the fatigue scorer reaches it when
/// fatigue sits at its ceiling.
pub const SCORE_CEILING: u32 = 1000;

/// Score points per fatigue point.
pub const FATIGUE_SCORE_PER_POINT: u32 = 10;

/// Utility reported while the food slot is not yet full.
pub const WORK_NEED_SCORE: u32 = 600;

/// Utility reported while the food slot is full and ready to sell.
pub const SELL_NEED_SCORE: u32 = 600;

/// Per-instance memory of the fatigue scorer: the score frozen when sleep
/// began, held for as long as the agent sleeps.
#[derive(Clone, Copy, PartialEq, Eq, Debug)]
pub struct FatigueScorer {
    /// The frozen score, present only while sleeping.
    pub last_score: Option<u32>,
}

impl FatigueScorer {
    /// Well-formedness: a frozen score lies on the score scale.
    pub open spec fn wf(self) -> bool {
        self.last_score is Some ==> self.last_score->0 <= SCORE_CEILING
    }

    /// A fatigue scorer with no frozen score.
    pub fn new() -> (s: FatigueScorer)
        ensures
            s == (FatigueScorer { last_score: None }),
            s.wf(),
    {
        FatigueScorer { last_score: None }
    }
}

/// One evaluation of the fatigue scorer: the score is proportional to the
/// current fatigue; while the agent sleeps the first value seen is frozen
/// and repeated, and waking discards the frozen value.
pub open spec fn fatigue_score_step(scorer: FatigueScorer, fatigue: Fatigue, is_sleeping: bool) -> (
    FatigueScorer,
    u32,
) {
    let fresh = (fatigue.current * FATIGUE_SCORE_PER_POINT) as u32;
    if is_sleeping {
        match scorer.last_score {
            Some(frozen) => (scorer, frozen),
            None => (FatigueScorer { last_score: Some(fresh) }, fresh),
        }
    } else {
        (FatigueScorer { last_score: None }, fresh)
    }
}

/// Evaluates the fatigue scorer, updating its frozen-score memory.
pub fn fatigue_scorer(scorer: &mut FatigueScorer, fatigue: &Fatigue, is_sleeping: bool) -> (score:
    u32)
    requires
        old(scorer).wf(),
        fatigue.current <= FATIGUE_CEILING,
    ensures
        (*final(scorer), score) == fatigue_score_step(*old(scorer), *fatigue, is_sleeping),
        final(scorer).wf(),
        score <= SCORE_CEILING,
{
    let fresh = fatigue.current * FATIGUE_SCORE_PER_POINT;
    if is_sleeping {
        match scorer.last_score {
            Some(frozen) => frozen,
            None => {
                scorer.last_score = Some(fresh);
                fresh
            },
        }
    } else {
        scorer.last_score = None;
        fresh
    }
}

/// Whether the slot under `key` exists and holds its full capacity.
pub open spec fn food_full(slots: Seq<Slot>, key: u64) -> bool {
    has_key(slots, key) && slot_of(slots, key).consumable.current >= slot_of(
        slots,
        key,
    ).consumable.maximum
}

/// The work-need score: the urge to farm while the food slot is not yet
/// full. A missing food slot counts as not full.
pub open spec fn work_need_score(slots: Seq<Slot>, key: u64) -> u32 {
    if food_full(slots, key) {
        0u32
    } else {
        WORK_NEED_SCORE
    }
}

/// Evaluates the work-need scorer against the agent's container.
pub fn work_need_scorer(container: &Container, food_key: u64) -> (score: u32)
    requires
        container.wf(),
    ensures
        score == work_need_score(container.slots@, food_key),
        score <= SCORE_CEILING,
{
    let full = match container.get(food_key) {
        Some(c) => c.is_full(),
        None => false,
    };
    if full {
        0
    } else {
        WORK_NEED_SCORE
    }
}

/// The sell-need score: the urge to sell once the food slot is full.
pub open spec fn sell_need_score(slots: Seq<Slot>, key: u64) -> u32 {
    if food_full(slots, key) {
        SELL_NEED_SCORE
    } else {
        0u32
    }
}

/// Evaluates the sell-need scorer against the agent's container.
pub fn sell_need_scorer(container: &Container, food_key: u64) -> (score: u32)
    requires
        container.wf(),
    ensures
        score == sell_need_score(container.slots@, food_key),
        score <= SCORE_CEILING,
{
    let full = match container.get(food_key) {
        Some(c) => c.is_full(),
        None => false,
    };
    if full {
        SELL_NEED_SCORE
    } else {
        0
    }
}

} // verus!
