use crate::inventory::Inventory;
use crate::item::Item;
use crate::types::{AttributeValue, Health};
use std::collections::HashMap;
use vstd::prelude::*;

verus! {

/// The equipment slots of a character.
#[derive(Clone, Copy, PartialEq, Eq, Hash, Debug, Structural)]
pub enum SlotType {
    Head,
    Chest,
    Legs,
    Feet,
    Arms,
}

/// A playable or non-playable character.
pub struct Character {
    pub name: String,
    pub health: Health,
    pub attributes: HashMap<Attribute, AttributeValue>,
    pub slots: HashMap<SlotType, Option<Item>>,
    pub inventory: Option<Inventory>,
}

/// A list of all possible attributes
#[derive(Clone, Copy, PartialEq, Eq, Hash, Debug, Structural)]
pub enum Attribute {
    Charisma,
    Constitution,
    Defense,
    Dexterity,
    Intelligence,
    Luck,
    Perception,
    Strength,
    Willpower,
    Wisdom,
}

} // verus!
