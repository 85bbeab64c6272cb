use crate::character::Attribute;
use crate::types::AttributeValue;
use vstd::prelude::*;

verus! {

/// An item
#[derive(Clone, Debug)]
pub struct Item {
    /// The name of the item
    pub name: String,
    /// The type of the item
    pub item_type: ItemType,
    /// The influence of the item (optional)
    pub influence: Option<ItemInfluence>,
    /// The stack size of the item
    pub stack_size: usize,
    /// The rarity of the item
    pub rarity: ItemRarity,
}

/// The mathematical value of an item: two items are the same item exactly
/// when their views are equal.
pub struct ItemView {
    pub name: Seq<char>,
    pub item_type: ItemType,
    pub influence: Option<ItemInfluence>,
    pub stack_size: nat,
    pub rarity: ItemRarity,
}

impl View for Item {
    type V = ItemView;

    open spec fn view(&self) -> ItemView {
        ItemView {
            name: self.name@,
            item_type: self.item_type,
            influence: self.influence,
            stack_size: self.stack_size as nat,
            rarity: self.rarity,
        }
    }
}

impl PartialEq for Item {
    fn eq(&self, other: &Item) -> (r: bool) {
        let same_influence = match (&self.influence, &other.influence) {
            (None, None) => true,
            (Some(a), Some(b)) => a.attribute == b.attribute && a.amount == b.amount,
            _ => false,
        };
        self.name == other.name && self.item_type == other.item_type && same_influence
            && self.stack_size == other.stack_size && self.rarity == other.rarity
    }
}

impl vstd::std_specs::cmp::PartialEqSpecImpl for Item {
    open spec fn obeys_eq_spec() -> bool {
        true
    }

    open spec fn eq_spec(&self, other: &Item) -> bool {
        self@ == other@
    }
}

impl Eq for Item {

}

/// The item types that can be put into an equipment slot.
pub open spec fn is_equipable_type(t: ItemType) -> bool {
    match t {
        ItemType::ArmorHead | ItemType::ArmorChest | ItemType::ArmorLegs | ItemType::ArmorFeet
        | ItemType::WeaponSword | ItemType::WeaponWand | ItemType::WeaponHammer => true,
        _ => false,
    }
}

/// The item types whose items stack: the consumables.
pub open spec fn is_stackable_type(t: ItemType) -> bool {
    t == ItemType::ConsumableFood || t == ItemType::ConsumablePotion
}

/// The weapon types.
pub open spec fn is_weapon_type(t: ItemType) -> bool {
    t == ItemType::WeaponSword || t == ItemType::WeaponWand || t == ItemType::WeaponHammer
}

impl Item {
    /// Returns `true` if the item can be equipped
    pub fn can_be_equipped(&self) -> (r: bool)
        ensures
            r == is_equipable_type(self.item_type),
    {
        match self.item_type {
            ItemType::ArmorHead | ItemType::ArmorChest | ItemType::ArmorLegs
            | ItemType::ArmorFeet | ItemType::WeaponSword | ItemType::WeaponWand
            | ItemType::WeaponHammer => true,
            _ => false,
        }
    }

    /// Returns `true` if the item can be stacked
    pub fn can_be_stacked(&self) -> (r: bool)
        ensures
            r == (self.stack_size > 1),
    {
        self.stack_size > 1
    }
}

/// The influence an item can have on a certain attribute
#[derive(Clone, Copy, PartialEq, Eq, Debug, Structural)]
pub struct ItemInfluence {
    /// The attribute that is influenced
    pub attribute: Attribute,
    /// The amount about which the attribute is influenced
    pub amount: AttributeValue,
}

impl ItemInfluence {
    /// Creates a new `ItemInfluence` object
    pub fn new(attribute: Attribute, amount: AttributeValue) -> (r: ItemInfluence)
        ensures
            r.attribute == attribute,
            r.amount == amount,
    {
        ItemInfluence { attribute, amount }
    }
}

/// The type of an item
#[derive(Clone, Copy, PartialEq, Eq, Debug, Structural)]
pub enum ItemType {
    /// Armor that can only be put into the head slot of a character
    ArmorHead,
    /// Armor that can only be put into the chest slot of a character
    ArmorChest,
    /// Armor that can only be put into the legs slot of a character
    ArmorLegs,
    /// Armor that can only be put into the feet slot of a character
    ArmorFeet,
    /// A potion
    ConsumablePotion,
    /// Some kind of food
    ConsumableFood,
    /// Some kind of sword
    WeaponSword,
    /// Some kind of wand
    WeaponWand,
    /// Some kind of hammer
    WeaponHammer,
    /// A usable item
    Usable,
    /// A useless prop
    Prop,
}

/// The attributes that an item of type `t` may influence.
pub open spec fn attributes_of(t: ItemType) -> Seq<Attribute> {
    match t {
        ItemType::ConsumableFood | ItemType::ConsumablePotion => seq![
            Attribute::Charisma,
            Attribute::Constitution,
            Attribute::Defense,
            Attribute::Dexterity,
            Attribute::Intelligence,
            Attribute::Luck,
            Attribute::Perception,
            Attribute::Strength,
            Attribute::Willpower,
            Attribute::Wisdom,
        ],
        ItemType::WeaponHammer | ItemType::WeaponSword | ItemType::WeaponWand => seq![
            Attribute::Dexterity,
            Attribute::Strength,
        ],
        ItemType::ArmorHead | ItemType::ArmorChest | ItemType::ArmorLegs | ItemType::ArmorFeet
            => seq![
            Attribute::Charisma,
            Attribute::Constitution,
            Attribute::Defense,
            Attribute::Dexterity,
            Attribute::Luck,
            Attribute::Perception,
        ],
        ItemType::Usable | ItemType::Prop => seq![],
    }
}

/// The item type picked by a class number and a type number, each meant to be
/// drawn from `0..1000`: the class number chooses consumable, armor, weapon or
/// usable/prop, the type number the kind within that class. Numbers out of
/// the table give a prop.
pub open spec fn item_type_of(class_num: u32, type_num: u32) -> ItemType {
    if class_num <= 250 {
        if type_num <= 500 {
            ItemType::ConsumableFood
        } else if type_num <= 1000 {
            ItemType::ConsumablePotion
        } else {
            ItemType::Prop
        }
    } else if class_num <= 500 {
        if type_num <= 250 {
            ItemType::ArmorHead
        } else if type_num <= 500 {
            ItemType::ArmorChest
        } else if type_num <= 750 {
            ItemType::ArmorLegs
        } else if type_num <= 1000 {
            ItemType::ArmorFeet
        } else {
            ItemType::Prop
        }
    } else if class_num <= 750 {
        if type_num <= 333 {
            ItemType::WeaponHammer
        } else if type_num <= 666 {
            ItemType::WeaponSword
        } else if type_num <= 1000 {
            ItemType::WeaponWand
        } else {
            ItemType::Prop
        }
    } else if class_num <= 1000 {
        if type_num <= 500 {
            ItemType::Usable
        } else {
            ItemType::Prop
        }
    } else {
        ItemType::Prop
    }
}

impl ItemType {
    /// A list of attributes an `ItemType` can influence
    pub fn attributes(&self) -> (r: Vec<Attribute>)
        ensures
            r@ == attributes_of(*self),
    {
        let r = match *self {
            ItemType::ConsumableFood | ItemType::ConsumablePotion => vec![
                Attribute::Charisma,
                Attribute::Constitution,
                Attribute::Defense,
                Attribute::Dexterity,
                Attribute::Intelligence,
                Attribute::Luck,
                Attribute::Perception,
                Attribute::Strength,
                Attribute::Willpower,
                Attribute::Wisdom,
            ],
            ItemType::WeaponHammer | ItemType::WeaponSword | ItemType::WeaponWand => vec![
                Attribute::Dexterity,
                Attribute::Strength,
            ],
            ItemType::ArmorHead | ItemType::ArmorChest | ItemType::ArmorLegs
            | ItemType::ArmorFeet => vec![
                Attribute::Charisma,
                Attribute::Constitution,
                Attribute::Defense,
                Attribute::Dexterity,
                Attribute::Luck,
                Attribute::Perception,
            ],
            ItemType::Usable | ItemType::Prop => vec![],
        };
        proof {
            assert(r@ =~= attributes_of(*self));
        }
        r
    }

    /// Returns `true` if the item created using this type should be stackable
    pub fn is_stackable(&self) -> (r: bool)
        ensures
            r == is_stackable_type(*self),
    {
        match *self {
            ItemType::ConsumableFood | ItemType::ConsumablePotion => true,
            _ => false,
        }
    }

    /// A helper method to get an ItemType
    pub fn by_num(item_class_num: u32, item_type_num: u32) -> (r: ItemType)
        ensures
            r == item_type_of(item_class_num, item_type_num),
    {
        if item_class_num <= 250 {
            if item_type_num <= 500 {
                ItemType::ConsumableFood
            } else if item_type_num <= 1000 {
                ItemType::ConsumablePotion
            } else {
                ItemType::Prop
            }
        } else if item_class_num <= 500 {
            if item_type_num <= 250 {
                ItemType::ArmorHead
            } else if item_type_num <= 500 {
                ItemType::ArmorChest
            } else if item_type_num <= 750 {
                ItemType::ArmorLegs
            } else if item_type_num <= 1000 {
                ItemType::ArmorFeet
            } else {
                ItemType::Prop
            }
        } else if item_class_num <= 750 {
            if item_type_num <= 333 {
                ItemType::WeaponHammer
            } else if item_type_num <= 666 {
                ItemType::WeaponSword
            } else if item_type_num <= 1000 {
                ItemType::WeaponWand
            } else {
                ItemType::Prop
            }
        } else if item_class_num <= 1000 {
            if item_type_num <= 500 {
                ItemType::Usable
            } else {
                ItemType::Prop
            }
        } else {
            ItemType::Prop
        }
    }
}

/// A type defining the rarity of an item
#[derive(Clone, Copy, PartialEq, Eq, Debug, Structural)]
pub enum ItemRarity {
    /// Items are found very often
    Common,
    /// Items are still found pretty often but not that often
    Uncommon,
    /// Items are found much rarer
    Rare,
    /// Items are extremely rare
    Epic,
    /// Items are so rare, you might never find them anywhere
    Legendary,
}

/// The rarity picked by a number meant to be drawn from `0..1000`; the
/// buckets do not overlap and grow rarer upwards. Numbers out of the table
/// give `Common`.
pub open spec fn rarity_of(num: u32) -> ItemRarity {
    if num <= 750 {
        ItemRarity::Common
    } else if num <= 917 {
        ItemRarity::Uncommon
    } else if num <= 972 {
        ItemRarity::Rare
    } else if num <= 979 {
        ItemRarity::Epic
    } else if num <= 1000 {
        ItemRarity::Legendary
    } else {
        ItemRarity::Common
    }
}

impl ItemRarity {
    /// A helper method to get an ItemRarity
    pub fn by_num(item_rarity_num: u32) -> (r: ItemRarity)
        ensures
            r == rarity_of(item_rarity_num),
    {
        if item_rarity_num <= 750 {
            ItemRarity::Common
        } else if item_rarity_num <= 917 {
            ItemRarity::Uncommon
        } else if item_rarity_num <= 972 {
            ItemRarity::Rare
        } else if item_rarity_num <= 979 {
            ItemRarity::Epic
        } else if item_rarity_num <= 1000 {
            ItemRarity::Legendary
        } else {
            ItemRarity::Common
        }
    }
}

} // verus!
