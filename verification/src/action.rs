//! The action lifecycle and the task actions (sleep, farm, sell).
//!
//! Every action instance moves `Executing -> {Success, Failure}`, or
//! `Executing -> Cancelled -> Failure`; a cancellation always runs the
//! action's cleanup exactly once, restoring the externally visible flags it
//! set to their idle state, before resolving to `Failure`. Each task action
//! defines one per-tick update, modelled by a step function that the
//! executable update provably implements; polling an action that has
//! already reached a terminal state changes nothing.

use vstd::prelude::*;

use crate::consumable::{added_amount, Consumable};
use crate::container::{has_key, key_index, keys_unique, lemma_key_index, slot_of, slots_wf,
    Container, Slot};
use crate::fatigue::{fatigue_rested, rest, Fatigue};
use crate::items::ItemDef;

verus! {

/// Lifecycle state of one action instance.
#[derive(Clone, Copy, PartialEq, Eq, Structural, Debug)]
pub enum ActionState {
    /// The action runs its per-tick update.
    Executing,
    /// The action met its completion condition.
    Success,
    /// The action could not complete; the behavior around it is abandoned.
    Failure,
    /// Arbitration preempted the action; its cleanup runs once, then it
    /// resolves to `Failure`.
    Cancelled,
}

/// The visual state marker an agent exposes for rendering.
#[derive(Clone, Copy, PartialEq, Eq, Structural, Debug)]
pub enum ColorMarker {
    /// Nothing of note: the idle look.
    Idle,
    /// Shown while a sleep action runs.
    Sleeping,
    /// Shown while a farm action runs.
    Farming,
}

/// Externally visible per-agent activity state: movement speed and the
/// flags the task actions toggle.
#[derive(Clone, Copy, PartialEq, Eq, Structural, Debug)]
pub struct CharacterController {
    /// Distance units covered per time unit while travelling.
    pub speed: u32,
    /// Visual state marker.
    pub color: ColorMarker,
    /// Whether a sleep action currently holds this agent.
    pub is_sleeping: bool,
}

/// The sleep task: lowers fatigue each tick until it reaches `until`.
#[derive(Clone, Copy, PartialEq, Eq, Structural, Debug)]
pub struct Sleep {
    /// The action succeeds once fatigue falls to this level or below.
    pub until: u32,
    /// Fatigue relief per time unit.
    pub per_second: u32,
}

impl Sleep {
    /// A sleep task with the given target level and rate.
    pub fn new(until: u32, per_second: u32) -> (s: Sleep)
        ensures
            s == (Sleep { until, per_second }),
    {
        Sleep { until, per_second }
    }
}

/// The farm task: grows the food slot each tick until it is full.
#[derive(Clone, Copy, PartialEq, Eq, Structural, Debug)]
pub struct Farm {
    /// Food gained per time unit.
    pub per_second: u32,
}

impl Farm {
    /// A farm task with the given rate.
    pub fn new(per_second: u32) -> (f: Farm)
        ensures
            f == (Farm { per_second }),
    {
        Farm { per_second }
    }
}

/// The sell task: one atomic transfer of the whole food amount into money.
#[derive(Clone, Copy, PartialEq, Eq, Structural, Debug)]
pub struct Sell;

/// One tick of the sleep task: what the state, the fatigue tracker and the
/// controller flags become.
pub open spec fn sleep_step(
    sleep: Sleep,
    state: ActionState,
    fatigue: Fatigue,
    ctrl: CharacterController,
    dt: u32,
) -> (ActionState, Fatigue, CharacterController) {
    match state {
        ActionState::Executing => {
            let rested = Fatigue {
                change: fatigue.change,
                current: fatigue_rested(fatigue.current, sleep.per_second, dt),
            };
            if rested.current <= sleep.until {
                (
                    ActionState::Success,
                    rested,
                    CharacterController {
                        speed: ctrl.speed,
                        color: ColorMarker::Idle,
                        is_sleeping: false,
                    },
                )
            } else {
                (
                    ActionState::Executing,
                    rested,
                    CharacterController {
                        speed: ctrl.speed,
                        color: ColorMarker::Sleeping,
                        is_sleeping: true,
                    },
                )
            }
        },
        ActionState::Cancelled => (
            ActionState::Failure,
            fatigue,
            CharacterController { speed: ctrl.speed, color: ColorMarker::Idle, is_sleeping: false },
        ),
        _ => (state, fatigue, ctrl),
    }
}

/// Runs one tick of a sleep action. While executing it marks the agent as
/// sleeping, lowers fatigue by `per_second * dt` (stopping at zero), and
/// succeeds — resetting the flags to idle — once fatigue is at most
/// `until`. A cancelled instance resets the flags and fails; a terminal
/// instance is left untouched.
pub fn sleep_action(
    sleep: &Sleep,
    state: &mut ActionState,
    fatigue: &mut Fatigue,
    ctrl: &mut CharacterController,
    dt: u32,
)
    ensures
        (*final(state), *final(fatigue), *final(ctrl)) == sleep_step(
            *sleep,
            *old(state),
            *old(fatigue),
            *old(ctrl),
            dt,
        ),
{
    if *state == ActionState::Executing {
        ctrl.is_sleeping = true;
        rest(fatigue, sleep.per_second, dt);
        ctrl.color = ColorMarker::Sleeping;
        if fatigue.current <= sleep.until {
            ctrl.color = ColorMarker::Idle;
            ctrl.is_sleeping = false;
            *state = ActionState::Success;
        }
    } else if *state == ActionState::Cancelled {
        ctrl.color = ColorMarker::Idle;
        ctrl.is_sleeping = false;
        *state = ActionState::Failure;
    }
}

/// One tick of the farm task: what the state, the container contents and
/// the controller flags become.
pub open spec fn farm_step(
    farm: Farm,
    state: ActionState,
    slots: Seq<Slot>,
    ctrl: CharacterController,
    food: ItemDef,
    dt: u32,
) -> (ActionState, Seq<Slot>, CharacterController) {
    match state {
        ActionState::Executing => {
            if !has_key(slots, food.key) {
                let created = slots.push(
                    Slot {
                        item: food.key,
                        consumable: Consumable { current: 0, maximum: food.maximum },
                    },
                );
                (ActionState::Executing, created, ctrl)
            } else {
                let i = key_index(slots, food.key);
                let grown = added_amount(slots[i].consumable, farm.per_second * dt);
                let updated = slots.update(
                    i,
                    Slot {
                        item: food.key,
                        consumable: Consumable {
                            current: grown,
                            maximum: slots[i].consumable.maximum,
                        },
                    },
                );
                if grown == slots[i].consumable.maximum {
                    (
                        ActionState::Success,
                        updated,
                        CharacterController {
                            speed: ctrl.speed,
                            color: ColorMarker::Idle,
                            is_sleeping: ctrl.is_sleeping,
                        },
                    )
                } else {
                    (
                        ActionState::Executing,
                        updated,
                        CharacterController {
                            speed: ctrl.speed,
                            color: ColorMarker::Farming,
                            is_sleeping: ctrl.is_sleeping,
                        },
                    )
                }
            }
        },
        ActionState::Cancelled => (
            ActionState::Failure,
            slots,
            CharacterController {
                speed: ctrl.speed,
                color: ColorMarker::Idle,
                is_sleeping: ctrl.is_sleeping,
            },
        ),
        _ => (state, slots, ctrl),
    }
}

/// Runs one tick of a farm action. While executing it adds
/// `per_second * dt` to the agent's food slot, clamped at the slot's
/// capacity, and succeeds exactly when the slot reaches it; when the food
/// slot does not exist yet, the tick instead creates it empty, and growth
/// resumes on the next cycle. Cancellation keeps any partial progress and
/// fails; a terminal instance is left untouched.
pub fn farm_action(
    farm: &Farm,
    state: &mut ActionState,
    container: &mut Container,
    ctrl: &mut CharacterController,
    food: ItemDef,
    dt: u32,
)
    requires
        old(container).wf(),
    ensures
        final(container).wf(),
        (*final(state), final(container).slots@, *final(ctrl)) == farm_step(
            *farm,
            *old(state),
            old(container).slots@,
            *old(ctrl),
            food,
            dt,
        ),
{
    if *state == ActionState::Executing {
        proof {
            vstd::arithmetic::mul::lemma_mul_upper_bound(
                farm.per_second as int,
                u32::MAX as int,
                dt as int,
                u32::MAX as int,
            );
        }
        let gain: u64 = farm.per_second as u64 * dt as u64;
        match container.add_to(food.key, gain) {
            Some(full) => {
                ctrl.color = ColorMarker::Farming;
                if full {
                    ctrl.color = ColorMarker::Idle;
                    *state = ActionState::Success;
                }
            },
            None => {
                let _ = container.create_empty(food.key, food.maximum);
            },
        }
    } else if *state == ActionState::Cancelled {
        ctrl.color = ColorMarker::Idle;
        *state = ActionState::Failure;
    }
}

/// Whether a sell transfer goes through on these container contents: both
/// slots exist under distinct keys and the combined amount fits the money
/// slot's capacity.
pub open spec fn sell_transfer_ok(slots: Seq<Slot>, food: ItemDef, money: ItemDef) -> bool {
    food.key != money.key && has_key(slots, food.key) && has_key(slots, money.key)
        && slot_of(slots, food.key).consumable.current
            + slot_of(slots, money.key).consumable.current
        <= slot_of(slots, money.key).consumable.maximum
}

/// The container contents after a successful sell transfer: the food slot
/// drained to zero, its whole amount added to the money slot.
pub open spec fn sell_transferred(slots: Seq<Slot>, food: ItemDef, money: ItemDef) -> Seq<Slot> {
    let fi = key_index(slots, food.key);
    let ti = key_index(slots, money.key);
    let amount = slots[fi].consumable.current;
    let drained = Slot {
        item: food.key,
        consumable: Consumable { current: 0, maximum: slots[fi].consumable.maximum },
    };
    let filled = Slot {
        item: money.key,
        consumable: Consumable {
            current: (slots[ti].consumable.current + amount) as u32,
            maximum: slots[ti].consumable.maximum,
        },
    };
    slots.update(fi, drained).update(ti, filled)
}

/// One tick of the sell task: what the state and the container contents
/// become.
pub open spec fn sell_step(
    state: ActionState,
    slots: Seq<Slot>,
    food: ItemDef,
    money: ItemDef,
) -> (ActionState, Seq<Slot>) {
    match state {
        ActionState::Executing => {
            if sell_transfer_ok(slots, food, money) {
                (ActionState::Success, sell_transferred(slots, food, money))
            } else {
                let with_food = if !has_key(slots, food.key) {
                    slots.push(
                        Slot {
                            item: food.key,
                            consumable: Consumable { current: 0, maximum: food.maximum },
                        },
                    )
                } else {
                    slots
                };
                let with_money = if !has_key(with_food, money.key) {
                    with_food.push(
                        Slot {
                            item: money.key,
                            consumable: Consumable { current: 0, maximum: money.maximum },
                        },
                    )
                } else {
                    with_food
                };
                (ActionState::Executing, with_money)
            }
        },
        ActionState::Cancelled => (ActionState::Failure, slots),
        _ => (state, slots),
    }
}

/// Runs one tick of a sell action. While executing it attempts the atomic
/// transfer of the whole food amount into the money slot and succeeds the
/// moment the transfer goes through; when a slot is missing, the tick
/// instead creates the missing slot empty and the action retries on a
/// later cycle. Cancellation fails with no partial transfer; a terminal
/// instance is left untouched.
pub fn sell_action(state: &mut ActionState, container: &mut Container, food: ItemDef, money: ItemDef)
    requires
        old(container).wf(),
    ensures
        final(container).wf(),
        (*final(state), final(container).slots@) == sell_step(
            *old(state),
            old(container).slots@,
            food,
            money,
        ),
{
    if *state == ActionState::Executing {
        match container.transfer(food.key, money.key) {
            Some(_) => {
                *state = ActionState::Success;
            },
            None => {
                let _ = container.create_empty(food.key, food.maximum);
                let _ = container.create_empty(money.key, money.maximum);
            },
        }
    } else if *state == ActionState::Cancelled {
        *state = ActionState::Failure;
    }
}

/// Farm progress law: an executing farm tick never lowers the food amount;
/// when it reports success the amount has reached the slot's capacity
/// exactly, and it never exceeds the capacity. A tick that finds no food
/// slot creates it empty and keeps executing.
pub proof fn lemma_farm_progress(
    farm: Farm,
    slots: Seq<Slot>,
    ctrl: CharacterController,
    food: ItemDef,
    dt: u32,
)
    requires
        keys_unique(slots),
        slots_wf(slots),
    ensures
        ({
            let (state2, slots2, _) = farm_step(farm, ActionState::Executing, slots, ctrl, food, dt);
            keys_unique(slots2) && slots_wf(slots2) && has_key(slots2, food.key) && slot_of(
                slots2,
                food.key,
            ).consumable.current <= slot_of(slots2, food.key).consumable.maximum && (state2
                == ActionState::Success ==> slot_of(slots2, food.key).consumable.current == slot_of(
                slots2,
                food.key,
            ).consumable.maximum) && if has_key(slots, food.key) {
                slot_of(slots2, food.key).consumable.current >= slot_of(
                    slots,
                    food.key,
                ).consumable.current
            } else {
                slot_of(slots2, food.key).consumable.current == 0 && state2
                    == ActionState::Executing
            }
        }),
{
    let (state2, slots2, _) = farm_step(farm, ActionState::Executing, slots, ctrl, food, dt);
    if !has_key(slots, food.key) {
        lemma_key_index(slots2, food.key, slots.len() as int);
    } else {
        let i = key_index(slots, food.key);
        lemma_key_index(slots, food.key, i);
        assert(keys_unique(slots2));
        lemma_key_index(slots2, food.key, i);
    }
}

/// The state, contents and flags after `n` ticks of an uninterrupted farm
/// run: each tick polls the action again, and a terminal state freezes the
/// run.
pub open spec fn farm_run(
    farm: Farm,
    slots: Seq<Slot>,
    ctrl: CharacterController,
    food: ItemDef,
    dt: u32,
    n: nat,
) -> (ActionState, Seq<Slot>, CharacterController)
    decreases n,
{
    if n == 0 {
        (ActionState::Executing, slots, ctrl)
    } else {
        let prev = farm_run(farm, slots, ctrl, food, dt, (n - 1) as nat);
        if prev.0 == ActionState::Executing {
            farm_step(farm, ActionState::Executing, prev.1, prev.2, food, dt)
        } else {
            prev
        }
    }
}

/// Farm monotonicity law over a whole uninterrupted run: however many
/// ticks execute, the food amount never decreases, never exceeds the
/// slot's capacity, and the run never fails; when it ends in success the
/// amount sits exactly at the capacity.
pub proof fn lemma_farm_run_monotone(
    farm: Farm,
    slots: Seq<Slot>,
    ctrl: CharacterController,
    food: ItemDef,
    dt: u32,
    n: nat,
)
    requires
        keys_unique(slots),
        slots_wf(slots),
    ensures
        ({
            let (state2, slots2, _) = farm_run(farm, slots, ctrl, food, dt, n);
            keys_unique(slots2) && slots_wf(slots2) && (state2 == ActionState::Executing || state2
                == ActionState::Success) && (n > 0 ==> has_key(slots2, food.key)) && (has_key(
                slots2,
                food.key,
            ) ==> slot_of(slots2, food.key).consumable.current <= slot_of(
                slots2,
                food.key,
            ).consumable.maximum) && (state2 == ActionState::Success ==> has_key(slots2, food.key)
                && slot_of(slots2, food.key).consumable.current == slot_of(
                slots2,
                food.key,
            ).consumable.maximum) && (has_key(slots, food.key) ==> has_key(slots2, food.key)
                && slot_of(slots2, food.key).consumable.current >= slot_of(
                slots,
                food.key,
            ).consumable.current)
        }),
    decreases n,
{
    if n > 0 {
        lemma_farm_run_monotone(farm, slots, ctrl, food, dt, (n - 1) as nat);
        let prev = farm_run(farm, slots, ctrl, food, dt, (n - 1) as nat);
        if prev.0 == ActionState::Executing {
            lemma_farm_progress(farm, prev.1, prev.2, food, dt);
        }
    }
}

/// Sell conservation law: on contents where the transfer goes through, one
/// executing sell tick succeeds, leaves the food slot at zero, and adds the
/// food slot's whole prior amount to the money slot — nothing is lost and
/// nothing is duplicated.
pub proof fn lemma_sell_conservation(slots: Seq<Slot>, food: ItemDef, money: ItemDef)
    requires
        keys_unique(slots),
        slots_wf(slots),
        sell_transfer_ok(slots, food, money),
    ensures
        ({
            let (state2, slots2) = sell_step(ActionState::Executing, slots, food, money);
            state2 == ActionState::Success && slot_of(slots2, food.key).consumable.current == 0
                && slot_of(slots2, money.key).consumable.current == slot_of(
                slots,
                money.key,
            ).consumable.current + slot_of(slots, food.key).consumable.current && slot_of(
                slots2,
                food.key,
            ).consumable.current + slot_of(slots2, money.key).consumable.current == slot_of(
                slots,
                food.key,
            ).consumable.current + slot_of(slots, money.key).consumable.current
        }),
{
    let fi = key_index(slots, food.key);
    let ti = key_index(slots, money.key);
    assert(0 <= fi < slots.len() && slots[fi].item == food.key);
    assert(0 <= ti < slots.len() && slots[ti].item == money.key);
    let slots2 = sell_transferred(slots, food, money);
    assert(keys_unique(slots2));
    lemma_key_index(slots2, food.key, fi);
    lemma_key_index(slots2, money.key, ti);
}

/// Re-entrant safety law: polling a task action that has already reached a
/// terminal state — success or failure — changes nothing: not the state,
/// not the need, not the container, not the flags.
pub proof fn lemma_terminal_polls_are_noops(
    sleep: Sleep,
    farm: Farm,
    state: ActionState,
    fatigue: Fatigue,
    ctrl: CharacterController,
    slots: Seq<Slot>,
    food: ItemDef,
    money: ItemDef,
    dt: u32,
)
    requires
        state == ActionState::Success || state == ActionState::Failure,
    ensures
        sleep_step(sleep, state, fatigue, ctrl, dt) == (state, fatigue, ctrl),
        farm_step(farm, state, slots, ctrl, food, dt) == (state, slots, ctrl),
        sell_step(state, slots, food, money) == (state, slots),
{
}

/// Cancellation cleanup law: cancelling any task action resolves it to
/// `Failure` in one tick and leaves the externally visible flags idle —
/// the sleeping flag cleared and the visual marker reset — with need and
/// container state untouched (no rollback, no partial transfer).
pub proof fn lemma_cancellation_cleanup(
    sleep: Sleep,
    farm: Farm,
    fatigue: Fatigue,
    ctrl: CharacterController,
    slots: Seq<Slot>,
    food: ItemDef,
    money: ItemDef,
    dt: u32,
)
    ensures
        ({
            let (state2, fatigue2, ctrl2) = sleep_step(
                sleep,
                ActionState::Cancelled,
                fatigue,
                ctrl,
                dt,
            );
            state2 == ActionState::Failure && fatigue2 == fatigue && !ctrl2.is_sleeping
                && ctrl2.color == ColorMarker::Idle
        }),
        ({
            let (state2, slots2, ctrl2) = farm_step(
                farm,
                ActionState::Cancelled,
                slots,
                ctrl,
                food,
                dt,
            );
            state2 == ActionState::Failure && slots2 == slots && ctrl2.color == ColorMarker::Idle
        }),
        ({
            let (state2, slots2) = sell_step(ActionState::Cancelled, slots, food, money);
            state2 == ActionState::Failure && slots2 == slots
        }),
{
}

} // verus!
