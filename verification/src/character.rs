//! How much more a character can carry.

use vstd::prelude::*;

verus! {

/// What the static database knows of one item type.
#[derive(Clone, Copy, Debug, PartialEq, Eq, Structural)]
pub struct ItemRecord {
    pub weight: u32,
}

/// The load of a character.
#[derive(Clone, Copy, Debug, PartialEq, Eq, Structural)]
pub struct Character {
    pub weight: u32,
    pub max_weight: u32,
}

/// The database's record of an item type, counted from one, if it has one.
pub open spec fn spec_item_of(db: Seq<ItemRecord>, item_id: u16) -> Option<ItemRecord> {
    if 1 <= item_id <= db.len() {
        Some(db[item_id - 1])
    } else {
        None
    }
}

/// How many of an item a character can take, of at most `max_amount`: none
/// when overloaded, all of them when the item is unknown or weighs nothing,
/// else as many as fit into the weight that is left.
pub open spec fn spec_can_hold(c: Character, item: Option<ItemRecord>, max_amount: u32) -> int {
    if c.weight > c.max_weight {
        0
    } else {
        match item {
            None => max_amount as int,
            Some(record) => if record.weight == 0 {
                max_amount as int
            } else {
                let fit = (c.max_weight - c.weight) / (record.weight as int);
                if fit <= max_amount {
                    fit
                } else {
                    max_amount as int
                }
            },
        }
    }
}

impl Character {
    /// How many of the item `item_id` the character can take, of at most
    /// `max_amount`.
    pub fn can_hold(&self, items: &Vec<ItemRecord>, item_id: u16, max_amount: u32) -> (r: u32)
        ensures
            r == spec_can_hold(*self, spec_item_of(items@, item_id), max_amount),
    {
        if self.weight > self.max_weight {
            return 0;
        }
        if item_id < 1 || (item_id as usize) > items.len() {
            return max_amount;
        }
        let record = items[item_id as usize - 1];
        if record.weight == 0 {
            return max_amount;
        }
        let fit: u32 = (self.max_weight - self.weight) / record.weight;
        if fit <= max_amount {
            fit
        } else {
            max_amount
        }
    }
}

} // verus!
