//! The travel action: move toward the nearest entity of a category.
//!
//! Each tick the action re-resolves its target through the sticky
//! [`CachedFinder`]; a failed resolution (no candidates) ends the action
//! with failure. Within the arrival radius it succeeds; otherwise it asks
//! the world to move the agent one step of `speed * dt` toward the target
//! — the continuous vector math belongs to the world outside the engine,
//! which clamps the step to the remaining distance and reorients the
//! agent. Cancellation clears the cached target before failing.

use vstd::prelude::*;

use crate::action::ActionState;
use crate::finder::{entities_unique, find_choice, CachedFinder, Candidate};
use crate::geom::{dist2, distance_squared, Point};

verus! {

/// What the world should do with the agent after one travel tick.
#[derive(Clone, Copy, PartialEq, Eq, Structural, Debug)]
pub enum MoveCommand {
    /// Leave the agent where it stands.
    Stay,
    /// Move the agent `step` distance units toward `target_pos` (clamped to
    /// the remaining distance) and face it toward the target.
    MoveToward { target: u64, target_pos: Point, step: u64 },
}

/// A travel action: the arrival radius and the memoized target.
#[derive(Clone, Copy, PartialEq, Eq, Debug)]
pub struct FindAndMove {
    /// Arrival radius: the action succeeds once the squared distance to the
    /// target is at most `radius * radius`.
    pub radius: u32,
    /// The sticky target cache owned by this action instance.
    pub finder: CachedFinder,
}

/// One tick of a travel action: what the cache, the state and the issued
/// move command become.
pub open spec fn travel_step(
    fm: FindAndMove,
    state: ActionState,
    candidates: Seq<Candidate>,
    position: Point,
    speed: u32,
    dt: u32,
) -> (FindAndMove, ActionState, MoveCommand) {
    match state {
        ActionState::Executing => {
            match find_choice(fm.finder.target, candidates, position) {
                None => (
                    FindAndMove { radius: fm.radius, finder: CachedFinder { target: None } },
                    ActionState::Failure,
                    MoveCommand::Stay,
                ),
                Some(i) => {
                    let chosen = candidates[i];
                    let resolved = FindAndMove {
                        radius: fm.radius,
                        finder: CachedFinder { target: Some(chosen.entity) },
                    };
                    if dist2(chosen.position, position) <= fm.radius * fm.radius {
                        (resolved, ActionState::Success, MoveCommand::Stay)
                    } else {
                        (
                            resolved,
                            ActionState::Executing,
                            MoveCommand::MoveToward {
                                target: chosen.entity,
                                target_pos: chosen.position,
                                step: (speed * dt) as u64,
                            },
                        )
                    }
                },
            }
        },
        ActionState::Cancelled => (
            FindAndMove { radius: fm.radius, finder: CachedFinder { target: None } },
            ActionState::Failure,
            MoveCommand::Stay,
        ),
        _ => (fm, state, MoveCommand::Stay),
    }
}

/// Re-entrant safety law: a travel tick on an instance that has already
/// reached a terminal state changes nothing and asks for no movement.
pub proof fn lemma_travel_terminal_poll_is_noop(
    fm: FindAndMove,
    state: ActionState,
    candidates: Seq<Candidate>,
    position: Point,
    speed: u32,
    dt: u32,
)
    requires
        state == ActionState::Success || state == ActionState::Failure,
    ensures
        travel_step(fm, state, candidates, position, speed, dt) == (
            fm,
            state,
            MoveCommand::Stay,
        ),
{
}

impl FindAndMove {
    /// A travel action with the given arrival radius and an empty cache.
    pub fn new(radius: u32) -> (fm: FindAndMove)
        ensures
            fm == (FindAndMove { radius, finder: CachedFinder { target: None } }),
    {
        FindAndMove { radius, finder: CachedFinder::new() }
    }

    /// Runs one tick of this travel action against the candidate set of its
    /// category and the agent's position.
    pub fn system(
        &mut self,
        state: &mut ActionState,
        candidates: &Vec<Candidate>,
        position: Point,
        speed: u32,
        dt: u32,
    ) -> (cmd: MoveCommand)
        requires
            entities_unique(candidates@),
        ensures
            (*final(self), *final(state), cmd) == travel_step(
                *old(self),
                *old(state),
                candidates@,
                position,
                speed,
                dt,
            ),
    {
        if *state == ActionState::Executing {
            match self.finder.find(candidates, position) {
                None => {
                    *state = ActionState::Failure;
                    MoveCommand::Stay
                },
                Some(goal) => {
                    let d2 = distance_squared(goal.position, position);
                    proof {
                        vstd::arithmetic::mul::lemma_mul_upper_bound(
                            self.radius as int,
                            u32::MAX as int,
                            self.radius as int,
                            u32::MAX as int,
                        );
                        vstd::arithmetic::mul::lemma_mul_upper_bound(
                            speed as int,
                            u32::MAX as int,
                            dt as int,
                            u32::MAX as int,
                        );
                    }
                    let r2: u128 = self.radius as u128 * self.radius as u128;
                    if d2 <= r2 {
                        *state = ActionState::Success;
                        MoveCommand::Stay
                    } else {
                        MoveCommand::MoveToward {
                            target: goal.entity,
                            target_pos: goal.position,
                            step: speed as u64 * dt as u64,
                        }
                    }
                },
            }
        } else if *state == ActionState::Cancelled {
            let _ = self.finder.take_target();
            *state = ActionState::Failure;
            MoveCommand::Stay
        } else {
            MoveCommand::Stay
        }
    }
}

} // verus!
