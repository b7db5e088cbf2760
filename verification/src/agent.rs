//! The agent and its simulation tick.
//!
//! One tick runs the five phases in order: (1) the fatigue tracker updates,
//! (2) every scorer evaluates against the updated state, (3) arbitration
//! selects the winning behavior — cancelling the old chain, with its
//! cleanup run to completion, before the new one starts — and (4) the
//! active chain advances one step; (5) the returned state and move command
//! are then stable for the rest of the tick. The whole tick provably equals
//! its mathematical model, [`tick_spec`]. Agents never touch one another's
//! state: a tick reads one agent, one world snapshot and the item table.

use vstd::prelude::*;

use crate::action::{farm_action, farm_step, sell_action, sell_step, sleep_action, sleep_step,
    ActionState, CharacterController};
use crate::container::{Container, Slot};
use crate::decision::{lemma_first_max_idx, pick_highest, winner};
use crate::fatigue::{fatigue_after, fatigue_system, Fatigue, FATIGUE_CEILING};
use crate::finder::{entities_unique, CachedFinder, Candidate};
use crate::geom::Point;
use crate::items::ItemDatabase;
use crate::movement::{travel_step, FindAndMove, MoveCommand};
use crate::scorers::{fatigue_scorer, sell_need_scorer, work_need_scorer, FatigueScorer};
use crate::thinker::{arbitrate, eval_scores, step_outcome, ActiveBehavior, BehaviorDef,
    BehaviorDefView, Category, ScorerKind, StepDef, Thinker, ThinkerView};

verus! {

/// What the engine reads from the world each tick: the agent's position
/// and the location entities, grouped by category.
pub struct WorldSnapshot {
    /// The agent's current position.
    pub position: Point,
    /// Entities tagged as houses.
    pub houses: Vec<Candidate>,
    /// Entities tagged as fields.
    pub fields: Vec<Candidate>,
    /// Entities tagged as markets.
    pub markets: Vec<Candidate>,
}

/// Mathematical image of a world snapshot.
pub ghost struct WorldSnapshotView {
    pub position: Point,
    pub houses: Seq<Candidate>,
    pub fields: Seq<Candidate>,
    pub markets: Seq<Candidate>,
}

impl View for WorldSnapshot {
    type V = WorldSnapshotView;

    open spec fn view(&self) -> WorldSnapshotView {
        WorldSnapshotView {
            position: self.position,
            houses: self.houses@,
            fields: self.fields@,
            markets: self.markets@,
        }
    }
}

/// Well-formedness of a world snapshot: within each category, entities are
/// distinct.
pub open spec fn world_wf(w: WorldSnapshotView) -> bool {
    entities_unique(w.houses) && entities_unique(w.fields) && entities_unique(w.markets)
}

/// The candidate set of one location category.
pub open spec fn category_candidates(w: WorldSnapshotView, category: Category) -> Seq<Candidate> {
    match category {
        Category::House => w.houses,
        Category::Field => w.fields,
        Category::Market => w.markets,
    }
}

impl WorldSnapshot {
    /// Well-formedness of this snapshot.
    pub open spec fn wf(self) -> bool {
        world_wf(self@)
    }
}

/// Borrows the candidate list of one category.
fn candidates_of<'a>(world: &'a WorldSnapshot, category: Category) -> (r: &'a Vec<Candidate>)
    ensures
        r@ == category_candidates(world@, category),
{
    match category {
        Category::House => &world.houses,
        Category::Field => &world.fields,
        Category::Market => &world.markets,
    }
}

/// An autonomous agent: its externally visible activity state, its fatigue
/// need, its resource container, and its decision engine.
#[derive(Clone, Debug)]
pub struct Agent {
    /// Movement speed and the flags task actions toggle.
    pub ctrl: CharacterController,
    /// The fatigue need tracker.
    pub fatigue: Fatigue,
    /// The agent's own resource container; no other agent ever mutates it.
    pub container: Container,
    /// The decision engine owning the one live action chain.
    pub thinker: Thinker,
}

/// Mathematical image of an agent.
pub ghost struct AgentView {
    pub ctrl: CharacterController,
    pub fatigue: Fatigue,
    pub slots: Seq<Slot>,
    pub thinker: ThinkerView,
}

impl View for Agent {
    type V = AgentView;

    open spec fn view(&self) -> AgentView {
        AgentView {
            ctrl: self.ctrl,
            fatigue: self.fatigue,
            slots: self.container.slots@,
            thinker: self.thinker@,
        }
    }
}

/// Phase 4: one step of the active chain runs — travel steps resolve their
/// target and either arrive, fail, or ask for a move; task steps apply
/// their per-tick effect — and the chain advances on success, or is
/// abandoned on failure.
pub open spec fn advance_active(
    behaviors: Seq<BehaviorDefView>,
    active: Option<ActiveBehavior>,
    slots: Seq<Slot>,
    fatigue: Fatigue,
    ctrl: CharacterController,
    w: WorldSnapshotView,
    items: ItemDatabase,
    dt: u32,
) -> (Option<ActiveBehavior>, Seq<Slot>, Fatigue, CharacterController, MoveCommand) {
    match active {
        None => (None, slots, fatigue, ctrl, MoveCommand::Stay),
        Some(a) => {
            let steps = behaviors[a.behavior as int].steps;
            let nsteps = steps.len() as int;
            match steps[a.step as int] {
                StepDef::Travel { category, radius } => {
                    let fm = FindAndMove { radius, finder: a.finder };
                    let moved = travel_step(
                        fm,
                        ActionState::Executing,
                        category_candidates(w, category),
                        w.position,
                        ctrl.speed,
                        dt,
                    );
                    (
                        step_outcome(a, moved.1, moved.0.finder, nsteps),
                        slots,
                        fatigue,
                        ctrl,
                        moved.2,
                    )
                },
                StepDef::Sleep(s) => {
                    let slept = sleep_step(s, ActionState::Executing, fatigue, ctrl, dt);
                    (
                        step_outcome(a, slept.0, a.finder, nsteps),
                        slots,
                        slept.1,
                        slept.2,
                        MoveCommand::Stay,
                    )
                },
                StepDef::Farm(f) => {
                    let farmed = farm_step(
                        f,
                        ActionState::Executing,
                        slots,
                        ctrl,
                        items.raw_food,
                        dt,
                    );
                    (
                        step_outcome(a, farmed.0, a.finder, nsteps),
                        farmed.1,
                        fatigue,
                        farmed.2,
                        MoveCommand::Stay,
                    )
                },
                StepDef::Sell(_) => {
                    let sold = sell_step(ActionState::Executing, slots, items.raw_food, items.money);
                    (
                        step_outcome(a, sold.0, a.finder, nsteps),
                        sold.1,
                        fatigue,
                        ctrl,
                        MoveCommand::Stay,
                    )
                },
            }
        },
    }
}

/// One whole simulation tick: fatigue update, scorer evaluation,
/// arbitration, and the advance of the active chain, in that order.
pub open spec fn tick_spec(a: AgentView, w: WorldSnapshotView, items: ItemDatabase, dt: u32) -> (
    AgentView,
    MoveCommand,
) {
    let fatigue1 = Fatigue {
        change: a.fatigue.change,
        current: fatigue_after(a.fatigue.current, a.fatigue.change, dt),
    };
    let scored = eval_scores(
        a.thinker.behaviors,
        a.thinker.fatigue_scorer,
        fatigue1,
        a.ctrl.is_sleeping,
        a.slots,
        items.raw_food.key,
    );
    let arbitrated = arbitrate(
        a.thinker.behaviors,
        a.thinker.active,
        scored.0,
        a.thinker.threshold,
        a.ctrl,
    );
    let advanced = advance_active(
        a.thinker.behaviors,
        arbitrated.0,
        a.slots,
        fatigue1,
        arbitrated.1,
        w,
        items,
        dt,
    );
    (
        AgentView {
            ctrl: advanced.3,
            fatigue: advanced.2,
            slots: advanced.1,
            thinker: ThinkerView {
                behaviors: a.thinker.behaviors,
                threshold: a.thinker.threshold,
                fatigue_scorer: scored.1,
                active: advanced.0,
            },
        },
        advanced.4,
    )
}

/// Evaluates all registered scorers in declaration order, threading the
/// fatigue scorer's memory through.
#[verifier::loop_isolation(false)]
fn evaluate_all(
    behaviors: &Vec<BehaviorDef>,
    mem: &mut FatigueScorer,
    fatigue: &Fatigue,
    is_sleeping: bool,
    container: &Container,
    food_key: u64,
) -> (scores: Vec<u32>)
    requires
        old(mem).wf(),
        fatigue.current <= FATIGUE_CEILING,
        container.wf(),
    ensures
        ({
            let outcome = eval_scores(
                behaviors@.map_values(|b: BehaviorDef| b@),
                *old(mem),
                *fatigue,
                is_sleeping,
                container.slots@,
                food_key,
            );
            scores@ == outcome.0 && *final(mem) == outcome.1
        }),
        scores@.len() == behaviors@.len(),
        final(mem).wf(),
{
    let ghost bs = behaviors@.map_values(|b: BehaviorDef| b@);
    let n = behaviors.len();
    let mut scores: Vec<u32> = Vec::new();
    let mut i: usize = 0;
    while i < n
        invariant
            i <= n,
            scores@.len() == i,
            mem.wf(),
            ({
                let sofar = eval_scores(
                    bs.subrange(0, i as int),
                    *old(mem),
                    *fatigue,
                    is_sleeping,
                    container.slots@,
                    food_key,
                );
                scores@ == sofar.0 && *mem == sofar.1
            }),
        decreases n - i,
    {
        proof {
            let longer = bs.subrange(0, i as int + 1);
            assert(longer.drop_last() =~= bs.subrange(0, i as int));
            assert(longer.last() == bs[i as int]);
        }
        let score = match behaviors[i].scorer {
            ScorerKind::Fatigue => fatigue_scorer(mem, fatigue, is_sleeping),
            ScorerKind::WorkNeed => work_need_scorer(container, food_key),
            ScorerKind::SellNeed => sell_need_scorer(container, food_key),
        };
        scores.push(score);
        i += 1;
    }
    proof {
        assert(bs.subrange(0, n as int) =~= bs);
    }
    scores
}

/// The action chain after one step resolved: still-executing steps stay,
/// success advances (or completes the behavior), failure abandons it.
fn step_outcome_exec(
    a: ActiveBehavior,
    state: ActionState,
    finder_now: CachedFinder,
    steps_len: usize,
) -> (r: Option<ActiveBehavior>)
    requires
        a.step < steps_len,
    ensures
        r == step_outcome(a, state, finder_now, steps_len as int),
{
    match state {
        ActionState::Executing => Some(
            ActiveBehavior { behavior: a.behavior, step: a.step, finder: finder_now },
        ),
        ActionState::Success => {
            if a.step + 1 < steps_len {
                Some(
                    ActiveBehavior {
                        behavior: a.behavior,
                        step: a.step + 1,
                        finder: CachedFinder::new(),
                    },
                )
            } else {
                None
            }
        },
        _ => None,
    }
}

impl Agent {
    /// Well-formedness: the container and the decision engine state are
    /// well formed.
    pub open spec fn wf(self) -> bool {
        self.container.wf() && self.thinker.wf()
    }

    /// Runs one simulation tick for this agent against a read-only world
    /// snapshot, returning the move the world should apply. The whole tick
    /// equals the mathematical model [`tick_spec`].
    #[verifier::rlimit(100)]
    pub fn tick(&mut self, world: &WorldSnapshot, items: &ItemDatabase, dt: u32) -> (cmd:
        MoveCommand)
        requires
            old(self).wf(),
            world.wf(),
        ensures
            final(self).wf(),
            (final(self)@, cmd) == tick_spec(old(self)@, world@, *items, dt),
    {
        let ghost start = old(self)@;

        fatigue_system(&mut self.fatigue, dt);

        let scores = evaluate_all(
            &self.thinker.behaviors,
            &mut self.thinker.fatigue_scorer,
            &self.fatigue,
            self.ctrl.is_sleeping,
            &self.container,
            items.raw_food.key,
        );

        let choice = pick_highest(&scores, self.thinker.threshold);
        proof {
            if winner(scores@, self.thinker.threshold) is Some {
                lemma_first_max_idx(scores@);
            }
        }
        let keep = match (self.thinker.active, choice) {
            (Some(a), Some(i)) => a.behavior == i,
            _ => false,
        };
        if !keep {
            if let Some(a) = self.thinker.active {
                let stepdef = self.thinker.behaviors[a.behavior].steps[a.step];
                let mut st = ActionState::Cancelled;
                match stepdef {
                    StepDef::Travel { .. } => {
                        // the instance and its target cache are discarded below
                    },
                    StepDef::Sleep(s) => {
                        sleep_action(&s, &mut st, &mut self.fatigue, &mut self.ctrl, dt);
                    },
                    StepDef::Farm(f) => {
                        farm_action(
                            &f,
                            &mut st,
                            &mut self.container,
                            &mut self.ctrl,
                            items.raw_food,
                            dt,
                        );
                    },
                    StepDef::Sell(_) => {
                        sell_action(&mut st, &mut self.container, items.raw_food, items.money);
                    },
                }
            }
            self.thinker.active = match choice {
                Some(i) => Some(ActiveBehavior { behavior: i, step: 0, finder: CachedFinder::new() }),
                None => None,
            };
        }

        proof {
            let t = self.thinker@;
            assert(t.behaviors == start.thinker.behaviors);
            if self.thinker.active is Some {
                let a = self.thinker.active->0;
                if keep {
                    assert(self.thinker.active == start.thinker.active);
                    assert(a.behavior < t.behaviors.len() && a.step < t.behaviors[
                        a.behavior as int].steps.len());
                } else {
                    assert(winner(scores@, start.thinker.threshold) is Some);
                    assert(a.behavior as int == winner(scores@, start.thinker.threshold)->0);
                    assert(a.behavior < scores@.len());
                    assert(a.step == 0 && t.behaviors[a.behavior as int].steps.len() > 0);
                }
                assert(t.behaviors[a.behavior as int] == self.thinker.behaviors@[
                    a.behavior as int]@);
            }
        }
        let cmd = if let Some(a) = self.thinker.active {
            let stepdef = self.thinker.behaviors[a.behavior].steps[a.step];
            let nsteps = self.thinker.behaviors[a.behavior].steps.len();
            let mut st = ActionState::Executing;
            match stepdef {
                StepDef::Travel { category, radius } => {
                    let mut fm = FindAndMove { radius, finder: a.finder };
                    let cands = candidates_of(world, category);
                    let travel_cmd = fm.system(&mut st, cands, world.position, self.ctrl.speed, dt);
                    self.thinker.active = step_outcome_exec(a, st, fm.finder, nsteps);
                    travel_cmd
                },
                StepDef::Sleep(s) => {
                    sleep_action(&s, &mut st, &mut self.fatigue, &mut self.ctrl, dt);
                    self.thinker.active = step_outcome_exec(a, st, a.finder, nsteps);
                    MoveCommand::Stay
                },
                StepDef::Farm(f) => {
                    farm_action(
                        &f,
                        &mut st,
                        &mut self.container,
                        &mut self.ctrl,
                        items.raw_food,
                        dt,
                    );
                    self.thinker.active = step_outcome_exec(a, st, a.finder, nsteps);
                    MoveCommand::Stay
                },
                StepDef::Sell(_) => {
                    sell_action(&mut st, &mut self.container, items.raw_food, items.money);
                    self.thinker.active = step_outcome_exec(a, st, a.finder, nsteps);
                    MoveCommand::Stay
                },
            }
        } else {
            MoveCommand::Stay
        };
        cmd
    }
}

} // verus!
