//! The resource container: typed slot storage with lazy creation and atomic
//! two-slot transfer.
//!
//! A container holds a list of slots, one per item type. Slots are created
//! lazily (the first access that needs a missing item type allocates an
//! empty slot) and are never removed automatically. Two invariants hold at
//! all times: item keys are unique within one container, and every slot's
//! amount fits its capacity.

use vstd::prelude::*;

use crate::consumable::{added_amount, Consumable};

verus! {

/// One container slot: an item-type key and the consumable amount held
/// under it.
#[derive(Clone, Copy, PartialEq, Eq, Structural, Debug)]
pub struct Slot {
    /// Opaque item-type handle used as the lookup key.
    pub item: u64,
    /// The amount stored under this key.
    pub consumable: Consumable,
}

/// Whether some slot in `s` carries the key `key`.
pub open spec fn has_key(s: Seq<Slot>, key: u64) -> bool {
    exists|i: int| 0 <= i < s.len() && s[i].item == key
}

/// The index of the slot carrying `key`; meaningful when `has_key(s, key)`
/// holds and the keys of `s` are unique.
pub open spec fn key_index(s: Seq<Slot>, key: u64) -> int {
    choose|i: int| 0 <= i < s.len() && s[i].item == key
}

/// The slot carrying `key`.
pub open spec fn slot_of(s: Seq<Slot>, key: u64) -> Slot {
    s[key_index(s, key)]
}

/// Every pair of distinct slots carries distinct keys.
pub open spec fn keys_unique(s: Seq<Slot>) -> bool {
    forall|i: int, j: int| 0 <= i < j < s.len() ==> s[i].item != s[j].item
}

/// Every slot's amount fits its capacity.
pub open spec fn slots_wf(s: Seq<Slot>) -> bool {
    forall|i: int| 0 <= i < s.len() ==> (#[trigger] s[i]).consumable.wf()
}

/// With unique keys, any index whose slot carries `key` is the index that
/// `key_index` denotes.
pub proof fn lemma_key_index(s: Seq<Slot>, key: u64, i: int)
    requires
        keys_unique(s),
        0 <= i < s.len(),
        s[i].item == key,
    ensures
        has_key(s, key),
        key_index(s, key) == i,
{
    assert(has_key(s, key));
    let j = key_index(s, key);
    assert(0 <= j < s.len() && s[j].item == key);
    if i < j {
        assert(s[i].item != s[j].item);
    } else if j < i {
        assert(s[j].item != s[i].item);
    }
}

/// Per-agent slot storage, keyed by item type.
#[derive(Clone, Debug)]
pub struct Container {
    /// The slots, in creation order. Keys are unique across the list.
    pub slots: Vec<Slot>,
}

impl Container {
    /// Well-formedness: unique keys, and every slot well formed.
    pub open spec fn wf(self) -> bool {
        keys_unique(self.slots@) && slots_wf(self.slots@)
    }

    /// A container with no slots.
    pub fn new() -> (c: Container)
        ensures
            c.slots@ =~= Seq::<Slot>::empty(),
            c.wf(),
    {
        Container { slots: Vec::new() }
    }

    /// The index of the slot carrying `item`, if one exists; scans in slot
    /// order, so the first match is returned.
    fn index_of(&self, item: u64) -> (r: Option<usize>)
        ensures
            match r {
                Some(i) => i < self.slots@.len() && self.slots@[i as int].item == item
                    && (forall|j: int| 0 <= j < i ==> self.slots@[j].item != item),
                None => !has_key(self.slots@, item),
            },
    {
        let n = self.slots.len();
        let mut i: usize = 0;
        while i < n
            invariant
                n == self.slots@.len(),
                i <= n,
                forall|j: int| 0 <= j < i ==> self.slots@[j].item != item,
            decreases n - i,
        {
            if self.slots[i].item == item {
                return Some(i);
            }
            i += 1;
        }
        None
    }

    /// Looks up the consumable stored under `item`, if any.
    pub fn get(&self, item: u64) -> (r: Option<Consumable>)
        requires
            self.wf(),
        ensures
            r == if has_key(self.slots@, item) {
                Some(slot_of(self.slots@, item).consumable)
            } else {
                None::<Consumable>
            },
    {
        match self.index_of(item) {
            Some(i) => {
                proof {
                    lemma_key_index(self.slots@, item, i as int);
                }
                Some(self.slots[i].consumable)
            },
            None => None,
        }
    }

    /// Looks up the consumable stored under `item`, or returns `default`
    /// when no slot carries that key.
    pub fn get_or(&self, item: u64, default: Consumable) -> (r: Consumable)
        requires
            self.wf(),
        ensures
            r == if has_key(self.slots@, item) {
                slot_of(self.slots@, item).consumable
            } else {
                default
            },
    {
        match self.get(item) {
            Some(c) => c,
            None => default,
        }
    }

    /// Lazily creates an empty slot for `item` with capacity `maximum`.
    /// Returns whether a slot was created; an existing slot is left alone.
    pub fn create_empty(&mut self, item: u64, maximum: u32) -> (created: bool)
        requires
            old(self).wf(),
        ensures
            created == !has_key(old(self).slots@, item),
            created ==> final(self).slots@ == old(self).slots@.push(
                Slot { item, consumable: Consumable { current: 0, maximum } },
            ),
            !created ==> *final(self) == *old(self),
            has_key(final(self).slots@, item),
            final(self).wf(),
    {
        match self.index_of(item) {
            Some(i) => {
                proof {
                    lemma_key_index(self.slots@, item, i as int);
                }
                false
            },
            None => {
                let slot = Slot { item, consumable: Consumable::new_empty(maximum) };
                self.slots.push(slot);
                proof {
                    let s = self.slots@;
                    assert(s[s.len() - 1].item == item);
                    assert(keys_unique(s));
                    lemma_key_index(s, item, s.len() - 1);
                }
                true
            },
        }
    }

    /// Adds `amount` to the slot carrying `item`, clamped at the slot's
    /// capacity, and reports whether the slot is now full. Returns `None`
    /// and changes nothing when no slot carries that key.
    pub fn add_to(&mut self, item: u64, amount: u64) -> (r: Option<bool>)
        requires
            old(self).wf(),
        ensures
            final(self).wf(),
            match r {
                None => !has_key(old(self).slots@, item) && *final(self) == *old(self),
                Some(full) => {
                    let s = old(self).slots@;
                    let i = key_index(s, item);
                    let updated = Consumable {
                        current: added_amount(s[i].consumable, amount as int),
                        maximum: s[i].consumable.maximum,
                    };
                    has_key(s, item)
                        && final(self).slots@ == s.update(i, Slot { item, consumable: updated })
                        && updated.current >= s[i].consumable.current
                        && full == (updated.current == updated.maximum)
                },
            },
    {
        match self.index_of(item) {
            Some(i) => {
                proof {
                    lemma_key_index(self.slots@, item, i as int);
                }
                let mut slot = self.slots[i];
                let full = slot.consumable.add_clamped(amount);
                self.slots[i] = slot;
                Some(full)
            },
            None => None,
        }
    }

    /// Atomically moves the entire amount stored under `from` into the slot
    /// under `to`. Succeeds, returning the amount moved, exactly when both
    /// slots exist, the keys differ, and the combined amount fits the
    /// destination's capacity; otherwise nothing changes.
    pub fn transfer(&mut self, from: u64, to: u64) -> (r: Option<u32>)
        requires
            old(self).wf(),
        ensures
            final(self).wf(),
            ({
                let s = old(self).slots@;
                let ok = from != to && has_key(s, from) && has_key(s, to)
                    && slot_of(s, from).consumable.current + slot_of(s, to).consumable.current
                        <= slot_of(s, to).consumable.maximum;
                if ok {
                    let fi = key_index(s, from);
                    let ti = key_index(s, to);
                    let amount = s[fi].consumable.current;
                    let drained = Slot {
                        item: from,
                        consumable: Consumable { current: 0, maximum: s[fi].consumable.maximum },
                    };
                    let filled = Slot {
                        item: to,
                        consumable: Consumable {
                            current: (s[ti].consumable.current + amount) as u32,
                            maximum: s[ti].consumable.maximum,
                        },
                    };
                    r == Some(amount)
                        && final(self).slots@ == s.update(fi, drained).update(ti, filled)
                } else {
                    r == None::<u32> && *final(self) == *old(self)
                }
            }),
    {
        let fi = match self.index_of(from) {
            Some(i) => i,
            None => {
                return None;
            },
        };
        let ti = match self.index_of(to) {
            Some(i) => i,
            None => {
                return None;
            },
        };
        proof {
            lemma_key_index(self.slots@, from, fi as int);
            lemma_key_index(self.slots@, to, ti as int);
        }
        if fi == ti {
            return None;
        }
        let mut source = self.slots[fi];
        let target = self.slots[ti];
        if source.consumable.current as u64 + target.consumable.current as u64
            > target.consumable.maximum as u64 {
            return None;
        }
        let amount = source.consumable.take();
        self.slots[fi] = source;
        let mut target = self.slots[ti];
        let _ = target.consumable.add_clamped(amount as u64);
        self.slots[ti] = target;
        Some(amount)
    }
}

/// Inserts a whole slot into a container. Succeeds exactly when no slot of
/// the container already carries that key; otherwise nothing changes.
pub fn put_in_container(container: &mut Container, slot: Slot) -> (r: bool)
    requires
        old(container).wf(),
        slot.consumable.wf(),
    ensures
        final(container).wf(),
        r == !has_key(old(container).slots@, slot.item),
        r ==> final(container).slots@ == old(container).slots@.push(slot),
        !r ==> *final(container) == *old(container),
{
    match container.index_of(slot.item) {
        Some(i) => {
            proof {
                lemma_key_index(container.slots@, slot.item, i as int);
            }
            false
        },
        None => {
            container.slots.push(slot);
            true
        },
    }
}

/// Removes and returns the slot carrying `item`, or returns `None` and
/// changes nothing when no slot carries that key.
pub fn take_out_of_container(container: &mut Container, item: u64) -> (r: Option<Slot>)
    requires
        old(container).wf(),
    ensures
        final(container).wf(),
        match r {
            Some(slot) => {
                let s = old(container).slots@;
                has_key(s, item) && slot == slot_of(s, item)
                    && final(container).slots@ == s.remove(key_index(s, item))
            },
            None => !has_key(old(container).slots@, item) && *final(container) == *old(container),
        },
{
    match container.index_of(item) {
        Some(i) => {
            proof {
                lemma_key_index(container.slots@, item, i as int);
            }
            let slot = remove_at(container, i);
            Some(slot)
        },
        None => None,
    }
}

/// Removes the slot at `i`, shifting later slots left; uniqueness and slot
/// well-formedness survive because the remaining slots are a sub-multiset
/// of the old ones.
fn remove_at(container: &mut Container, i: usize) -> (slot: Slot)
    requires
        old(container).wf(),
        i < old(container).slots@.len(),
    ensures
        slot == old(container).slots@[i as int],
        final(container).slots@ == old(container).slots@.remove(i as int),
        final(container).wf(),
{
    let ghost s = container.slots@;
    let slot = container.slots.remove(i);
    proof {
        let t = container.slots@;
        assert forall|a: int, b: int| 0 <= a < b < t.len() implies t[a].item != t[b].item by {
            let oa = if a < i { a } else { a + 1 };
            let ob = if b < i { b } else { b + 1 };
            assert(t[a] == s[oa]);
            assert(t[b] == s[ob]);
        }
        assert forall|a: int| 0 <= a < t.len() implies (#[trigger] t[a]).consumable.wf() by {
            let oa = if a < i { a } else { a + 1 };
            assert(t[a] == s[oa]);
        }
    }
    slot
}

/// Moves the slot carrying `item` from one container to another. Succeeds
/// exactly when the source holds that key and the destination does not;
/// otherwise both containers are unchanged.
pub fn move_between(from: &mut Container, to: &mut Container, item: u64) -> (r: bool)
    requires
        old(from).wf(),
        old(to).wf(),
    ensures
        final(from).wf(),
        final(to).wf(),
        r == (has_key(old(from).slots@, item) && !has_key(old(to).slots@, item)),
        r ==> {
            let s = old(from).slots@;
            final(from).slots@ == s.remove(key_index(s, item))
                && final(to).slots@ == old(to).slots@.push(slot_of(s, item))
        },
        !r ==> *final(from) == *old(from) && *final(to) == *old(to),
{
    let has_src = match from.index_of(item) {
        Some(i) => {
            proof {
                lemma_key_index(from.slots@, item, i as int);
            }
            true
        },
        None => false,
    };
    let free_dst = match to.index_of(item) {
        Some(i) => {
            proof {
                lemma_key_index(to.slots@, item, i as int);
            }
            false
        },
        None => true,
    };
    if !(has_src && free_dst) {
        return false;
    }
    let slot = match take_out_of_container(from, item) {
        Some(slot) => slot,
        None => {
            return false;
        },
    };
    let put = put_in_container(to, slot);
    put
}

} // verus!
