//! The per-agent decision engine: a registry of scored behaviors and the
//! arbitration that keeps exactly one action chain live per agent.
//!
//! Every decision cycle the thinker evaluates all registered scorers,
//! selects the behavior with the strictly highest score above its
//! activation threshold (ties to the first declared), and — only when the
//! winner changes — cancels the running behavior, runs its cleanup to
//! completion, and starts the new one fresh. No winner means the idle
//! fallback: no active behavior at all.

use vstd::prelude::*;

use crate::action::{CharacterController, ColorMarker, Farm, Sell, Sleep};
use crate::container::Slot;
use crate::decision::winner;
use crate::fatigue::Fatigue;
use crate::finder::CachedFinder;
use crate::scorers::{fatigue_score_step, sell_need_score, work_need_score, FatigueScorer};

verus! {

/// A category of location entities a travel action can head for.
#[derive(Clone, Copy, PartialEq, Eq, Structural, Debug)]
pub enum Category {
    /// Where agents sleep.
    House,
    /// Where agents farm food.
    Field,
    /// Where agents sell food for money.
    Market,
}

/// One step of a behavior: travel to a location category, or run a task.
#[derive(Clone, Copy, PartialEq, Eq, Debug)]
pub enum StepDef {
    /// Move toward the nearest entity of `category`, arriving within
    /// `radius`.
    Travel { category: Category, radius: u32 },
    /// Lower fatigue until the target level is reached.
    Sleep(Sleep),
    /// Grow the food slot until it is full.
    Farm(Farm),
    /// Transfer the food amount into money.
    Sell(Sell),
}

/// Which scorer drives a registered behavior.
#[derive(Clone, Copy, PartialEq, Eq, Structural, Debug)]
pub enum ScorerKind {
    /// The fatigue scorer, with its freeze-while-sleeping memory.
    Fatigue,
    /// The work-need scorer: food slot not yet full.
    WorkNeed,
    /// The sell-need scorer: food slot full.
    SellNeed,
}

/// One registered behavior: its scorer and its ordered, non-empty step
/// sequence.
#[derive(Clone, Debug)]
pub struct BehaviorDef {
    /// The scorer whose output bids for this behavior.
    pub scorer: ScorerKind,
    /// The steps, run in order; the behavior succeeds only if every step
    /// succeeds.
    pub steps: Vec<StepDef>,
}

/// Mathematical image of a registered behavior.
pub ghost struct BehaviorDefView {
    pub scorer: ScorerKind,
    pub steps: Seq<StepDef>,
}

impl View for BehaviorDef {
    type V = BehaviorDefView;

    open spec fn view(&self) -> BehaviorDefView {
        BehaviorDefView { scorer: self.scorer, steps: self.steps@ }
    }
}

/// The in-progress action chain of the selected behavior: which behavior,
/// which step, and the travel step's target cache. The running action is
/// always executing between ticks; terminal states are resolved within the
/// tick that produces them.
#[derive(Clone, Copy, PartialEq, Eq, Debug)]
pub struct ActiveBehavior {
    /// Index of the behavior in the registry.
    pub behavior: usize,
    /// Index of the step currently running.
    pub step: usize,
    /// The sticky target cache, used while the current step travels.
    pub finder: CachedFinder,
}

/// The per-agent decision engine state.
#[derive(Clone, Debug)]
pub struct Thinker {
    /// The registered behaviors, in declaration order; earlier entries win
    /// score ties.
    pub behaviors: Vec<BehaviorDef>,
    /// A behavior runs only when its score strictly exceeds this.
    pub threshold: u32,
    /// Memory of the fatigue scorer.
    pub fatigue_scorer: FatigueScorer,
    /// The one live action chain, if any; `None` is the idle fallback.
    pub active: Option<ActiveBehavior>,
}

/// Mathematical image of a thinker.
pub ghost struct ThinkerView {
    pub behaviors: Seq<BehaviorDefView>,
    pub threshold: u32,
    pub fatigue_scorer: FatigueScorer,
    pub active: Option<ActiveBehavior>,
}

impl View for Thinker {
    type V = ThinkerView;

    open spec fn view(&self) -> ThinkerView {
        ThinkerView {
            behaviors: self.behaviors@.map_values(|b: BehaviorDef| b@),
            threshold: self.threshold,
            fatigue_scorer: self.fatigue_scorer,
            active: self.active,
        }
    }
}

/// Well-formedness of a thinker state over its view: every behavior has at
/// least one step, the scorer memory is on scale, and the active chain, if
/// any, points into the registry.
pub open spec fn thinker_wf(t: ThinkerView) -> bool {
    &&& t.fatigue_scorer.wf()
    &&& (forall|b: int| 0 <= b < t.behaviors.len() ==> (#[trigger] t.behaviors[b]).steps.len() > 0)
    &&& match t.active {
        Some(a) => {
            let b = a.behavior as int;
            a.behavior < t.behaviors.len() && a.step < t.behaviors[b].steps.len()
        },
        None => true,
    }
}

impl Thinker {
    /// Well-formedness of this thinker.
    pub open spec fn wf(self) -> bool {
        thinker_wf(self@)
    }
}

/// One scorer evaluation: the updated fatigue-scorer memory and the score.
pub open spec fn score_one(
    kind: ScorerKind,
    mem: FatigueScorer,
    fatigue: Fatigue,
    is_sleeping: bool,
    slots: Seq<Slot>,
    food_key: u64,
) -> (FatigueScorer, u32) {
    match kind {
        ScorerKind::Fatigue => fatigue_score_step(mem, fatigue, is_sleeping),
        ScorerKind::WorkNeed => (mem, work_need_score(slots, food_key)),
        ScorerKind::SellNeed => (mem, sell_need_score(slots, food_key)),
    }
}

/// Evaluates all registered scorers in declaration order against one
/// snapshot of agent state, threading the fatigue-scorer memory through.
pub open spec fn eval_scores(
    behaviors: Seq<BehaviorDefView>,
    mem: FatigueScorer,
    fatigue: Fatigue,
    is_sleeping: bool,
    slots: Seq<Slot>,
    food_key: u64,
) -> (Seq<u32>, FatigueScorer)
    decreases behaviors.len(),
{
    if behaviors.len() == 0 {
        (Seq::empty(), mem)
    } else {
        let (front, mem1) = eval_scores(
            behaviors.drop_last(),
            mem,
            fatigue,
            is_sleeping,
            slots,
            food_key,
        );
        let (mem2, score) = score_one(
            behaviors.last().scorer,
            mem1,
            fatigue,
            is_sleeping,
            slots,
            food_key,
        );
        (front.push(score), mem2)
    }
}

/// The controller flags after the cleanup a cancelled step runs: sleeping
/// resets both flags, farming resets the marker, travelling and selling
/// touch no flags (the travel cache dies with its instance).
pub open spec fn cancel_cleanup(step: StepDef, ctrl: CharacterController) -> CharacterController {
    match step {
        StepDef::Sleep(_) => CharacterController {
            speed: ctrl.speed,
            color: ColorMarker::Idle,
            is_sleeping: false,
        },
        StepDef::Farm(_) => CharacterController {
            speed: ctrl.speed,
            color: ColorMarker::Idle,
            is_sleeping: ctrl.is_sleeping,
        },
        _ => ctrl,
    }
}

/// Arbitration: when the winning behavior is the one already running, its
/// action chain continues untouched; otherwise the running chain (if any)
/// is cancelled — its current step's cleanup applied — and the winner (if
/// any) starts fresh at its first step.
pub open spec fn arbitrate(
    behaviors: Seq<BehaviorDefView>,
    active: Option<ActiveBehavior>,
    scores: Seq<u32>,
    threshold: u32,
    ctrl: CharacterController,
) -> (Option<ActiveBehavior>, CharacterController) {
    let w = winner(scores, threshold);
    if active is Some && w is Some && active->0.behavior as int == w->0 {
        (active, ctrl)
    } else {
        let cleaned = if active is Some {
            cancel_cleanup(behaviors[active->0.behavior as int].steps[active->0.step as int], ctrl)
        } else {
            ctrl
        };
        let started = if w is Some {
            Some(
                ActiveBehavior {
                    behavior: w->0 as usize,
                    step: 0,
                    finder: CachedFinder { target: None },
                },
            )
        } else {
            None
        };
        (started, cleaned)
    }
}

/// The action chain after one step ran: a still-executing step keeps its
/// place (with its current target cache), a succeeded step hands over to
/// the next — or completes the behavior when it was the last — and a
/// failed step abandons the whole behavior.
pub open spec fn step_outcome(
    a: ActiveBehavior,
    state: crate::action::ActionState,
    finder_now: CachedFinder,
    steps_len: int,
) -> Option<ActiveBehavior> {
    match state {
        crate::action::ActionState::Executing => Some(
            ActiveBehavior { behavior: a.behavior, step: a.step, finder: finder_now },
        ),
        crate::action::ActionState::Success => if a.step + 1 < steps_len {
            Some(
                ActiveBehavior {
                    behavior: a.behavior,
                    step: (a.step + 1) as usize,
                    finder: CachedFinder { target: None },
                },
            )
        } else {
            None
        },
        _ => None,
    }
}

/// Builds the standard behavior registry: sleep when fatigued (travel to a
/// house, then sleep), farm when the food slot wants filling (travel to a
/// field, then farm), sell when it is full (travel to a market, then
/// sell); idle when nothing bids. Declaration order — sleep, farm, sell —
/// breaks score ties.
pub fn create_thinker(travel_radius: u32, sleep: Sleep, farm: Farm) -> (t: Thinker)
    ensures
        t.wf(),
        t@.threshold == 0,
        t@.fatigue_scorer == (FatigueScorer { last_score: None }),
        t@.active == None::<ActiveBehavior>,
        t@.behaviors =~= seq![
            BehaviorDefView {
                scorer: ScorerKind::Fatigue,
                steps: seq![
                    StepDef::Travel { category: Category::House, radius: travel_radius },
                    StepDef::Sleep(sleep),
                ],
            },
            BehaviorDefView {
                scorer: ScorerKind::WorkNeed,
                steps: seq![
                    StepDef::Travel { category: Category::Field, radius: travel_radius },
                    StepDef::Farm(farm),
                ],
            },
            BehaviorDefView {
                scorer: ScorerKind::SellNeed,
                steps: seq![
                    StepDef::Travel { category: Category::Market, radius: travel_radius },
                    StepDef::Sell(Sell),
                ],
            },
        ],
{
    let rest_then_sleep = BehaviorDef {
        scorer: ScorerKind::Fatigue,
        steps: vec![
            StepDef::Travel { category: Category::House, radius: travel_radius },
            StepDef::Sleep(sleep),
        ],
    };
    let work_then_farm = BehaviorDef {
        scorer: ScorerKind::WorkNeed,
        steps: vec![
            StepDef::Travel { category: Category::Field, radius: travel_radius },
            StepDef::Farm(farm),
        ],
    };
    let go_sell = BehaviorDef {
        scorer: ScorerKind::SellNeed,
        steps: vec![
            StepDef::Travel { category: Category::Market, radius: travel_radius },
            StepDef::Sell(Sell),
        ],
    };
    let behaviors = vec![rest_then_sleep, work_then_farm, go_sell];
    Thinker {
        behaviors,
        threshold: 0,
        fatigue_scorer: FatigueScorer::new(),
        active: None,
    }
}

} // verus!
