use lifer::action::{farm_action, sell_action, sleep_action, ActionState, CharacterController,
    ColorMarker, Farm, Sleep};
use lifer::agent::{Agent, WorldSnapshot};
use lifer::consumable::Consumable;
use lifer::container::{Container, Slot};
use lifer::decision::pick_highest;
use lifer::fatigue::Fatigue;
use lifer::finder::Candidate;
use lifer::geom::Point;
use lifer::items::{ItemDatabase, ItemDef};
use lifer::movement::MoveCommand;
use lifer::scorers::{fatigue_scorer, sell_need_scorer, work_need_scorer, FatigueScorer};
use lifer::thinker::create_thinker;

const FOOD: ItemDef = ItemDef { key: 1, maximum: 20 };
const MONEY: ItemDef = ItemDef { key: 2, maximum: 1_000_000 };
const ITEMS: ItemDatabase = ItemDatabase { raw_food: FOOD, money: MONEY };

fn idle_ctrl() -> CharacterController {
    CharacterController { speed: 1, color: ColorMarker::Idle, is_sleeping: false }
}

fn at(x: i32) -> Point {
    Point { x, y: 0, z: 0 }
}

#[test]
fn sleep_runs_to_success_in_four_ticks() {
    // fatigue 90, sleep until 30 at 15 per tick: 90 -> 75 -> 60 -> 45 -> 30
    let sleep = Sleep::new(30, 15);
    let mut state = ActionState::Executing;
    let mut fatigue = Fatigue { change: 8, current: 90 };
    let mut ctrl = idle_ctrl();

    let expected = [75u32, 60, 45, 30];
    for (i, want) in expected.iter().enumerate() {
        sleep_action(&sleep, &mut state, &mut fatigue, &mut ctrl, 1);
        assert_eq!(fatigue.current, *want);
        if i < 3 {
            assert_eq!(state, ActionState::Executing);
            assert!(ctrl.is_sleeping);
            assert_eq!(ctrl.color, ColorMarker::Sleeping);
        }
    }
    assert_eq!(state, ActionState::Success);
    assert!(!ctrl.is_sleeping);
    assert_eq!(ctrl.color, ColorMarker::Idle);
}

#[test]
fn sleep_cancel_resets_flags() {
    let sleep = Sleep::new(30, 15);
    let mut state = ActionState::Executing;
    let mut fatigue = Fatigue { change: 8, current: 90 };
    let mut ctrl = idle_ctrl();
    sleep_action(&sleep, &mut state, &mut fatigue, &mut ctrl, 1);
    assert!(ctrl.is_sleeping);

    state = ActionState::Cancelled;
    sleep_action(&sleep, &mut state, &mut fatigue, &mut ctrl, 1);
    assert_eq!(state, ActionState::Failure);
    assert!(!ctrl.is_sleeping);
    assert_eq!(ctrl.color, ColorMarker::Idle);
    // cancellation itself does not touch the need
    assert_eq!(fatigue.current, 75);
}

#[test]
fn farm_creates_slot_then_grows() {
    // empty container, 5 per tick: tick 1 creates the slot, tick 2 adds 5
    let farm = Farm::new(5);
    let mut state = ActionState::Executing;
    let mut container = Container::new();
    let mut ctrl = idle_ctrl();

    farm_action(&farm, &mut state, &mut container, &mut ctrl, FOOD, 1);
    assert_eq!(state, ActionState::Executing);
    assert_eq!(container.get(FOOD.key), Some(Consumable { current: 0, maximum: 20 }));
    assert_eq!(ctrl.color, ColorMarker::Idle);

    farm_action(&farm, &mut state, &mut container, &mut ctrl, FOOD, 1);
    assert_eq!(state, ActionState::Executing);
    assert_eq!(container.get(FOOD.key).unwrap().current, 5);
    assert_eq!(ctrl.color, ColorMarker::Farming);
}

#[test]
fn farm_succeeds_exactly_at_capacity() {
    let farm = Farm::new(8);
    let mut state = ActionState::Executing;
    let mut container = Container::new();
    container.create_empty(FOOD.key, FOOD.maximum);
    let mut ctrl = idle_ctrl();

    let mut ticks = 0;
    while state == ActionState::Executing {
        let before = container.get(FOOD.key).unwrap().current;
        farm_action(&farm, &mut state, &mut container, &mut ctrl, FOOD, 1);
        let after = container.get(FOOD.key).unwrap().current;
        assert!(after >= before);
        assert!(after <= FOOD.maximum);
        ticks += 1;
        assert!(ticks < 100);
    }
    assert_eq!(state, ActionState::Success);
    assert_eq!(container.get(FOOD.key).unwrap().current, FOOD.maximum);
    assert_eq!(ctrl.color, ColorMarker::Idle);
}

#[test]
fn sell_transfers_all_in_one_tick() {
    // food full at 20, money at 5: one tick leaves food 0 and money 25
    let mut state = ActionState::Executing;
    let mut container = Container {
        slots: vec![
            Slot { item: FOOD.key, consumable: Consumable { current: 20, maximum: 20 } },
            Slot { item: MONEY.key, consumable: Consumable { current: 5, maximum: MONEY.maximum } },
        ],
    };
    sell_action(&mut state, &mut container, FOOD, MONEY);
    assert_eq!(state, ActionState::Success);
    assert_eq!(container.get(FOOD.key).unwrap().current, 0);
    assert_eq!(container.get(MONEY.key).unwrap().current, 25);
}

#[test]
fn sell_creates_missing_slots_and_retries() {
    let mut state = ActionState::Executing;
    let mut container = Container::new();
    container.create_empty(FOOD.key, FOOD.maximum);
    let _ = container.add_to(FOOD.key, 20);

    // money slot is missing: this tick creates it empty, no transfer yet
    sell_action(&mut state, &mut container, FOOD, MONEY);
    assert_eq!(state, ActionState::Executing);
    assert_eq!(container.get(MONEY.key).unwrap().current, 0);
    assert_eq!(container.get(FOOD.key).unwrap().current, 20);

    // with both slots present the next tick succeeds
    sell_action(&mut state, &mut container, FOOD, MONEY);
    assert_eq!(state, ActionState::Success);
    assert_eq!(container.get(FOOD.key).unwrap().current, 0);
    assert_eq!(container.get(MONEY.key).unwrap().current, 20);
}

#[test]
fn scorers_follow_the_food_slot() {
    let mut container = Container::new();
    // missing slot counts as not full: work bids, sell does not
    assert_eq!(work_need_scorer(&container, FOOD.key), 600);
    assert_eq!(sell_need_scorer(&container, FOOD.key), 0);

    container.create_empty(FOOD.key, FOOD.maximum);
    let _ = container.add_to(FOOD.key, 19);
    assert_eq!(work_need_scorer(&container, FOOD.key), 600);
    assert_eq!(sell_need_scorer(&container, FOOD.key), 0);

    let _ = container.add_to(FOOD.key, 1);
    assert_eq!(work_need_scorer(&container, FOOD.key), 0);
    assert_eq!(sell_need_scorer(&container, FOOD.key), 600);
}

#[test]
fn fatigue_scorer_freezes_while_sleeping() {
    let mut scorer = FatigueScorer::new();
    let tired = Fatigue { change: 8, current: 80 };
    assert_eq!(fatigue_scorer(&mut scorer, &tired, false), 800);

    // falling asleep freezes the first value seen...
    assert_eq!(fatigue_scorer(&mut scorer, &tired, true), 800);
    let rested = Fatigue { change: 8, current: 10 };
    assert_eq!(fatigue_scorer(&mut scorer, &rested, true), 800);

    // ...and waking reports the live value again
    assert_eq!(fatigue_scorer(&mut scorer, &rested, false), 100);
}

#[test]
fn arbitration_picks_strict_max_ties_to_first() {
    assert_eq!(pick_highest(&vec![100, 700, 600], 0), Some(1));
    // tie: the first declared wins
    assert_eq!(pick_highest(&vec![600, 600, 100], 0), Some(0));
    assert_eq!(pick_highest(&vec![0, 0, 0], 0), None);
    // nothing exceeds the threshold strictly
    assert_eq!(pick_highest(&vec![500, 500], 500), None);
    assert_eq!(pick_highest(&Vec::new(), 0), None);
}

/// Applies a move command on the x-axis (all scenario entities sit on it),
/// clamping the step to the remaining distance as the world would.
fn apply_on_axis(position: &mut Point, cmd: MoveCommand) {
    if let MoveCommand::MoveToward { target_pos, step, .. } = cmd {
        let dx = i64::from(target_pos.x) - i64::from(position.x);
        let dist = dx.abs();
        let step = i64::try_from(step).unwrap().min(dist);
        position.x += i32::try_from(if dx >= 0 { step } else { -step }).unwrap();
    }
}

#[test]
fn full_engine_rests_then_farms_and_sells() {
    let mut agent = Agent {
        ctrl: CharacterController { speed: 1, color: ColorMarker::Idle, is_sleeping: false },
        fatigue: Fatigue { change: 0, current: 100 },
        container: Container::new(),
        thinker: create_thinker(1, Sleep::new(30, 15), Farm::new(5)),
    };
    let world_entities = WorldSnapshot {
        position: at(0),
        houses: vec![Candidate { entity: 10, position: at(2) }],
        fields: vec![Candidate { entity: 20, position: at(-1) }],
        markets: vec![Candidate { entity: 30, position: at(0) }],
    };
    let mut position = at(0);

    // tick 1: fatigue (score 1000) wins; travel toward the house
    let mut world = world_entities;
    world.position = position;
    let cmd = agent.tick(&world, &ITEMS, 1);
    assert!(matches!(cmd, MoveCommand::MoveToward { target: 10, .. }));
    apply_on_axis(&mut position, cmd);
    assert_eq!(position.x, 1);

    // tick 2: distance 1 equals the radius; travel succeeds
    world.position = position;
    let cmd = agent.tick(&world, &ITEMS, 1);
    assert_eq!(cmd, MoveCommand::Stay);

    // ticks 3..7: sleeping 100 -> 85 -> 70 -> 55 -> 40 -> 25, then success
    for want in [85u32, 70, 55, 40, 25] {
        world.position = position;
        let cmd = agent.tick(&world, &ITEMS, 1);
        assert_eq!(cmd, MoveCommand::Stay);
        assert_eq!(agent.fatigue.current, want);
        if want > 25 {
            assert!(agent.ctrl.is_sleeping);
        }
    }
    assert!(!agent.ctrl.is_sleeping);

    // next: work need (600) beats fatigue (250); travel to the field
    world.position = position;
    let cmd = agent.tick(&world, &ITEMS, 1);
    assert!(matches!(cmd, MoveCommand::MoveToward { target: 20, .. }));
    apply_on_axis(&mut position, cmd);
    world.position = position;
    let cmd = agent.tick(&world, &ITEMS, 1);
    assert_eq!(cmd, MoveCommand::Stay);

    // farming: one creation tick, then 20 / 5 = 4 growth ticks
    world.position = position;
    agent.tick(&world, &ITEMS, 1);
    assert_eq!(agent.container.get(FOOD.key).unwrap().current, 0);
    for want in [5u32, 10, 15, 20] {
        world.position = position;
        agent.tick(&world, &ITEMS, 1);
        assert_eq!(agent.container.get(FOOD.key).unwrap().current, want);
    }

    // food is full: sell need wins; market is at the agent's position, so
    // travel arrives at once, then selling creates the money slot and sells
    world.position = position;
    let _ = agent.tick(&world, &ITEMS, 1);
    world.position = position;
    let _ = agent.tick(&world, &ITEMS, 1);
    world.position = position;
    let _ = agent.tick(&world, &ITEMS, 1);
    assert_eq!(agent.container.get(FOOD.key).unwrap().current, 0);
    assert_eq!(agent.container.get(MONEY.key).unwrap().current, 20);
}

#[test]
fn preemption_cancels_and_cleans_up() {
    // fatigue 61 barely outbids the work need (610 vs 600); once asleep,
    // the frozen score drops to 560 and the work need preempts the sleep,
    // whose cleanup must leave the flags idle
    let mut agent = Agent {
        ctrl: CharacterController { speed: 1, color: ColorMarker::Idle, is_sleeping: false },
        fatigue: Fatigue { change: 0, current: 61 },
        container: Container::new(),
        thinker: create_thinker(1, Sleep::new(10, 5), Farm::new(5)),
    };
    let world = WorldSnapshot {
        position: at(0),
        houses: vec![Candidate { entity: 10, position: at(0) }],
        fields: vec![Candidate { entity: 20, position: at(0) }],
        markets: vec![Candidate { entity: 30, position: at(5) }],
    };

    // tick 1: the sleep behavior wins and its travel step arrives at once
    let cmd = agent.tick(&world, &ITEMS, 1);
    assert_eq!(cmd, MoveCommand::Stay);

    // tick 2: the sleep step runs: flags set, fatigue 61 -> 56
    agent.tick(&world, &ITEMS, 1);
    assert!(agent.ctrl.is_sleeping);
    assert_eq!(agent.ctrl.color, ColorMarker::Sleeping);
    assert_eq!(agent.fatigue.current, 56);

    // tick 3: the frozen score (560) loses to the work need (600); the
    // sleep is cancelled mid-flight and its cleanup runs to completion
    agent.tick(&world, &ITEMS, 1);
    assert!(!agent.ctrl.is_sleeping);
    assert_eq!(agent.ctrl.color, ColorMarker::Idle);
    assert_eq!(agent.fatigue.current, 56);

    // tick 4: the farm behavior is live: its first task tick creates the
    // food slot
    agent.tick(&world, &ITEMS, 1);
    assert_eq!(agent.container.get(FOOD.key).unwrap().current, 0);
}
