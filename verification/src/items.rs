//! Item-type handles. The engine never interprets an item's visual or
//! representational data; it only uses the opaque key for container slot
//! lookups and the declared capacity when it creates a slot lazily.

use vstd::prelude::*;

verus! {

/// One item type: its opaque lookup key and the capacity a freshly created
/// slot of this type gets.
#[derive(Clone, Copy, PartialEq, Eq, Structural, Debug)]
pub struct ItemDef {
    /// Opaque handle used as the container slot key.
    pub key: u64,
    /// Capacity of a slot created for this item type.
    pub maximum: u32,
}

/// The item types the built-in behaviors deal in.
#[derive(Clone, Copy, PartialEq, Eq, Structural, Debug)]
pub struct ItemDatabase {
    /// What farming accumulates and selling drains.
    pub raw_food: ItemDef,
    /// What selling is paid in.
    pub money: ItemDef,
}

impl ItemDatabase {
    /// Well-formedness: the two item types are distinct.
    pub open spec fn wf(self) -> bool {
        self.raw_food.key != self.money.key
    }
}

} // verus!
