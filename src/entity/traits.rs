use crate::inventory::Inventory;
use crate::item::Item;
use crate::types::AttributeValue;
use vstd::prelude::*;

verus! {

/// Everything that can attack
pub trait CanAttack {
    /// The damage of one attack
    fn attack_damage(&self) -> AttributeValue;
}

/// Everything that can be attacked
pub trait CanBeAttacked {
    /// Takes the damage of one attack
    fn take_damage(&mut self);
}

/// Everything that has an inventory
pub trait HasInventory<'a> {
    /// The inventory
    fn inventory(&'a self) -> &'a Inventory;
}

/// Everything that can trade or can be traded with
pub trait CanTrade<'a>: HasInventory<'a> {
    /// Trades an item with another party
    fn trade<T: HasInventory<'a>>(&mut self, item: Item, with_other: T);

    /// Sends an item to another party
    fn send<T: HasInventory<'a>>(item: Item, to_other: T);
}

/// Everything that can speak
pub trait CanSpeak {
    /// What it says when nothing else applies
    fn default_sentence() -> String;
}

/// Everything that is hostile
pub trait IsHostile {

}

/// Everything that is neutral
pub trait IsNeutral {

}

/// Everything that is friendly
pub trait IsFriendly {

}

} // verus!
