//! A consumable quantity: the value stored in one container slot, with a
//! current amount and a fixed capacity.

use vstd::prelude::*;

verus! {

/// A depletable amount with a capacity. Every well-formed consumable keeps
/// `current <= maximum` at all times.
#[derive(Clone, Copy, PartialEq, Eq, Structural, Debug)]
pub struct Consumable {
    /// The amount currently held.
    pub current: u32,
    /// The capacity of this amount; `current` never exceeds it.
    pub maximum: u32,
}

/// The current amount after adding `amount`, clamped to the capacity.
pub open spec fn added_amount(c: Consumable, amount: int) -> u32 {
    if c.current + amount > c.maximum {
        c.maximum
    } else {
        (c.current + amount) as u32
    }
}

impl Consumable {
    /// Well-formedness: the amount held fits the capacity.
    pub open spec fn wf(self) -> bool {
        self.current <= self.maximum
    }

    /// An empty consumable with the given capacity.
    pub fn new_empty(maximum: u32) -> (c: Consumable)
        ensures
            c == (Consumable { current: 0, maximum }),
            c.wf(),
    {
        Consumable { current: 0, maximum }
    }

    /// Whether nothing is held.
    pub fn is_empty(&self) -> (r: bool)
        ensures
            r == (self.current == 0),
    {
        self.current == 0
    }

    /// Whether the amount held has reached the capacity.
    pub fn is_full(&self) -> (r: bool)
        ensures
            r == (self.current >= self.maximum),
    {
        self.current >= self.maximum
    }

    /// Removes and returns the whole amount held, leaving the consumable
    /// empty.
    pub fn take(&mut self) -> (r: u32)
        ensures
            r == old(self).current,
            final(self).current == 0,
            final(self).maximum == old(self).maximum,
            final(self).wf(),
    {
        let value = self.current;
        self.current = 0;
        value
    }

    /// Adds `amount`, clamping at the capacity, and reports whether the
    /// consumable is now full. The amount held never decreases.
    pub fn add_clamped(&mut self, amount: u64) -> (full: bool)
        requires
            old(self).wf(),
        ensures
            final(self).maximum == old(self).maximum,
            final(self).current == added_amount(*old(self), amount as int),
            final(self).current >= old(self).current,
            final(self).wf(),
            full == (final(self).current == final(self).maximum),
    {
        let sum: u128 = self.current as u128 + amount as u128;
        if sum > self.maximum as u128 {
            self.current = self.maximum;
        } else {
            self.current = sum as u32;
        }
        self.current == self.maximum
    }
}

} // verus!
