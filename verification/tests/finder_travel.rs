use lifer::action::ActionState;
use lifer::finder::{CachedFinder, Candidate};
use lifer::geom::{distance_squared, Point};
use lifer::movement::{FindAndMove, MoveCommand};

fn at(x: i32) -> Point {
    Point { x, y: 0, z: 0 }
}

fn cand(entity: u64, x: i32) -> Candidate {
    Candidate { entity, position: at(x) }
}

#[test]
fn squared_distance_is_exact() {
    assert_eq!(distance_squared(at(0), at(3)), 9);
    let a = Point { x: 1, y: -2, z: 3 };
    let b = Point { x: -1, y: 2, z: 0 };
    assert_eq!(distance_squared(a, b), 4 + 16 + 9);
    assert_eq!(distance_squared(a, a), 0);
}

#[test]
fn find_picks_nearest_then_sticks() {
    let mut finder = CachedFinder::new();
    let near_then_far = vec![cand(1, 3), cand(2, 10)];
    let got = finder.find(&near_then_far, at(0)).unwrap();
    assert_eq!(got.entity, 1);
    assert_eq!(finder.target(), Some(1));

    // a strictly closer candidate appears: the cached target still wins
    let with_closer = vec![cand(3, 1), cand(1, 3), cand(2, 10)];
    let got = finder.find(&with_closer, at(0)).unwrap();
    assert_eq!(got.entity, 1);
    assert_eq!(finder.target(), Some(1));
}

#[test]
fn find_falls_back_when_target_disappears() {
    // two houses at distances 3 and 10; the nearer one wins first
    let mut finder = CachedFinder::new();
    let both = vec![cand(1, 3), cand(2, 10)];
    assert_eq!(finder.find(&both, at(0)).unwrap().entity, 1);

    // the distance-3 house disappears before arrival: next call selects
    // the distance-10 house
    let only_far = vec![cand(2, 10)];
    assert_eq!(finder.find(&only_far, at(0)).unwrap().entity, 2);
    assert_eq!(finder.target(), Some(2));
}

#[test]
fn find_on_empty_set_clears_cache() {
    let mut finder = CachedFinder::new();
    let one = vec![cand(9, 5)];
    assert_eq!(finder.find(&one, at(0)).unwrap().entity, 9);
    let none: Vec<Candidate> = Vec::new();
    assert_eq!(finder.find(&none, at(0)), None);
    assert_eq!(finder.target(), None);
}

#[test]
fn find_breaks_distance_ties_by_order() {
    let mut finder = CachedFinder::new();
    let tied = vec![cand(4, -5), cand(5, 5)];
    assert_eq!(finder.find(&tied, at(0)).unwrap().entity, 4);
}

#[test]
fn take_target_empties_the_cache() {
    let mut finder = CachedFinder::new();
    let one = vec![cand(9, 5)];
    finder.find(&one, at(0)).unwrap();
    assert_eq!(finder.take_target(), Some(9));
    assert_eq!(finder.target(), None);
}

#[test]
fn travel_moves_then_arrives() {
    let mut fm = FindAndMove::new(1);
    let mut state = ActionState::Executing;
    let goals = vec![cand(1, 4)];

    // distance 4 > radius 1: a step of speed * dt toward the goal
    let cmd = fm.system(&mut state, &goals, at(0), 3, 1);
    assert_eq!(state, ActionState::Executing);
    match cmd {
        MoveCommand::MoveToward { target, target_pos, step } => {
            assert_eq!(target, 1);
            assert_eq!(target_pos, at(4));
            assert_eq!(step, 3);
        },
        MoveCommand::Stay => panic!("expected a move command"),
    }

    // within the arrival radius: success, no movement
    let cmd = fm.system(&mut state, &goals, at(4), 3, 1);
    assert_eq!(state, ActionState::Success);
    assert_eq!(cmd, MoveCommand::Stay);
}

#[test]
fn travel_fails_without_candidates() {
    let mut fm = FindAndMove::new(1);
    let mut state = ActionState::Executing;
    let none: Vec<Candidate> = Vec::new();
    let cmd = fm.system(&mut state, &none, at(0), 3, 1);
    assert_eq!(state, ActionState::Failure);
    assert_eq!(cmd, MoveCommand::Stay);
    assert_eq!(fm.finder.target(), None);
}

#[test]
fn travel_cancel_clears_cache_and_fails() {
    let mut fm = FindAndMove::new(1);
    let mut state = ActionState::Executing;
    let goals = vec![cand(1, 10)];
    let _ = fm.system(&mut state, &goals, at(0), 2, 1);
    assert_eq!(fm.finder.target(), Some(1));

    state = ActionState::Cancelled;
    let cmd = fm.system(&mut state, &goals, at(0), 2, 1);
    assert_eq!(state, ActionState::Failure);
    assert_eq!(cmd, MoveCommand::Stay);
    assert_eq!(fm.finder.target(), None);
}

#[test]
fn travel_polls_are_idempotent_after_terminal() {
    let mut fm = FindAndMove::new(1);
    let mut state = ActionState::Success;
    let goals = vec![cand(1, 10)];
    let cmd = fm.system(&mut state, &goals, at(0), 2, 1);
    assert_eq!(state, ActionState::Success);
    assert_eq!(cmd, MoveCommand::Stay);
}
