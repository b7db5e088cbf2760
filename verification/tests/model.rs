use lifer::consumable::Consumable;
use lifer::container::{move_between, put_in_container, take_out_of_container, Container, Slot};
use lifer::fatigue::{fatigue_system, rest, Fatigue};

fn slot(item: u64, current: u32, maximum: u32) -> Slot {
    Slot { item, consumable: Consumable { current, maximum } }
}

#[test]
fn fatigue_rises_and_clamps() {
    let mut f = Fatigue { change: 8, current: 90 };
    fatigue_system(&mut f, 1);
    assert_eq!(f.current, 98);
    fatigue_system(&mut f, 1);
    assert_eq!(f.current, 100);
    // a dt large enough to overshoot in one step still lands on the ceiling
    let mut f = Fatigue { change: 8, current: 0 };
    fatigue_system(&mut f, 1_000_000);
    assert_eq!(f.current, 100);
    // an out-of-range starting value is clamped back into range
    let mut f = Fatigue { change: 0, current: 2_000_000 };
    fatigue_system(&mut f, 0);
    assert_eq!(f.current, 100);
    // zero rate and zero time change nothing
    let mut f = Fatigue { change: 0, current: 55 };
    fatigue_system(&mut f, 7);
    assert_eq!(f.current, 55);
}

#[test]
fn rest_stops_at_zero() {
    let mut f = Fatigue { change: 8, current: 20 };
    rest(&mut f, 15, 1);
    assert_eq!(f.current, 5);
    rest(&mut f, 15, 1);
    assert_eq!(f.current, 0);
    assert_eq!(f.change, 8);
}

#[test]
fn consumable_take_and_add() {
    let mut c = Consumable { current: 13, maximum: 20 };
    assert!(!c.is_empty());
    assert!(!c.is_full());
    let got = c.take();
    assert_eq!(got, 13);
    assert!(c.is_empty());
    let full = c.add_clamped(25);
    assert!(full);
    assert_eq!(c.current, 20);
    assert!(c.is_full());
}

#[test]
fn container_lazy_creation_and_lookup() {
    let mut c = Container::new();
    assert_eq!(c.get(7), None);
    assert!(c.create_empty(7, 20));
    assert_eq!(c.get(7), Some(Consumable { current: 0, maximum: 20 }));
    // creating again is a no-op
    assert!(!c.create_empty(7, 99));
    assert_eq!(c.get(7), Some(Consumable { current: 0, maximum: 20 }));
    let fallback = Consumable { current: 1, maximum: 2 };
    assert_eq!(c.get_or(8, fallback), fallback);
}

#[test]
fn container_add_to_clamps_at_capacity() {
    let mut c = Container::new();
    assert_eq!(c.add_to(7, 5), None);
    c.create_empty(7, 20);
    assert_eq!(c.add_to(7, 5), Some(false));
    assert_eq!(c.get(7).unwrap().current, 5);
    assert_eq!(c.add_to(7, 100), Some(true));
    assert_eq!(c.get(7).unwrap().current, 20);
}

#[test]
fn transfer_moves_everything_once() {
    let mut c = Container { slots: vec![slot(1, 20, 20), slot(2, 5, 1000)] };
    let moved = c.transfer(1, 2);
    assert_eq!(moved, Some(20));
    assert_eq!(c.get(1).unwrap().current, 0);
    assert_eq!(c.get(2).unwrap().current, 25);
    // nothing left to move still "succeeds" with zero
    assert_eq!(c.transfer(1, 2), Some(0));
    assert_eq!(c.get(2).unwrap().current, 25);
}

#[test]
fn transfer_refuses_missing_same_or_overflowing() {
    let mut c = Container { slots: vec![slot(1, 20, 20)] };
    // missing destination
    assert_eq!(c.transfer(1, 2), None);
    // same key on both sides
    assert_eq!(c.transfer(1, 1), None);
    // destination too small for the whole amount
    c.create_empty(2, 10);
    let _ = c.add_to(2, 3);
    assert_eq!(c.transfer(1, 2), None);
    assert_eq!(c.get(1).unwrap().current, 20);
    assert_eq!(c.get(2).unwrap().current, 3);
}

#[test]
fn put_take_and_move_between_containers() {
    let mut a = Container::new();
    let mut b = Container::new();
    assert!(put_in_container(&mut a, slot(5, 4, 10)));
    // the key is now taken
    assert!(!put_in_container(&mut a, slot(5, 9, 10)));
    assert_eq!(a.get(5).unwrap().current, 4);

    assert!(move_between(&mut a, &mut b, 5));
    assert_eq!(a.get(5), None);
    assert_eq!(b.get(5).unwrap().current, 4);
    // source no longer has it
    assert!(!move_between(&mut a, &mut b, 5));

    let taken = take_out_of_container(&mut b, 5).unwrap();
    assert_eq!(taken.consumable.current, 4);
    assert_eq!(b.get(5), None);
    assert_eq!(take_out_of_container(&mut b, 5), None);
}
