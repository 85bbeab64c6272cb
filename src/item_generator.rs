use crate::item::{
    Item, ItemInfluence, ItemRarity, ItemType, ItemView, attributes_of, is_stackable_type,
    is_weapon_type, item_type_of, rarity_of,
};
use crate::types::AttributeValue;
use rand::Rng;
use vstd::prelude::*;
use vstd::string::*;

verus! {

/// A builder like generator for items. Missing fields are filled randomly
#[derive(Clone, PartialEq, Eq, Debug)]
pub struct ItemGenerator {
    data_name: Option<String>,
    data_item_type: Option<ItemType>,
    data_influence: Option<Option<ItemInfluence>>,
    data_stack_size: Option<usize>,
    data_rarity: Option<ItemRarity>,
}

/// The fields that a generator has been given; `None` is left to chance.
pub struct GeneratorView {
    pub name: Option<Seq<char>>,
    pub item_type: Option<ItemType>,
    pub influence: Option<Option<ItemInfluence>>,
    pub stack_size: Option<nat>,
    pub rarity: Option<ItemRarity>,
}

impl View for ItemGenerator {
    type V = GeneratorView;

    closed spec fn view(&self) -> GeneratorView {
        GeneratorView {
            name: match self.data_name {
                Some(n) => Some(n@),
                None => None,
            },
            item_type: self.data_item_type,
            influence: self.data_influence,
            stack_size: match self.data_stack_size {
                Some(s) => Some(s as nat),
                None => None,
            },
            rarity: self.data_rarity,
        }
    }
}

/// The random draws that generating an item consumes. A draw that a field
/// does not need is ignored.
pub struct ItemRolls {
    /// Picks the class of the item type, drawn from `0..1000`
    pub class_roll: u32,
    /// Picks the item type within its class, drawn from `0..1000`
    pub type_roll: u32,
    /// Picks the rarity, drawn from `0..1000`
    pub rarity_roll: u32,
    /// Whether the item goes without influence, a fair coin
    pub without_influence: bool,
    /// Index of the influenced attribute among those of the item type
    pub attribute_roll: usize,
    /// The influence amount, drawn from the range of the rarity
    pub amount_roll: AttributeValue,
    /// Index of the stack size among `4, 16, 64`
    pub stack_roll: usize,
    /// Index of the weapon name's prefix
    pub prefix_roll: usize,
    /// Index of the weapon name's noun
    pub noun_roll: usize,
    /// Index of the weapon name's suffix
    pub suffix_roll: usize,
    /// The name given to an item that is not a weapon
    pub plain_name: String,
}

/// The stack sizes a stackable item may get.
pub open spec fn stack_sizes() -> Seq<nat> {
    seq![4, 16, 64]
}

/// The first words of weapon names.
pub open spec fn weapon_prefixes() -> Seq<Seq<char>> {
    seq!["Shiny"@, "Firey"@, "Wonderous"@, "Giant"@]
}

/// The nouns of weapon names.
pub open spec fn weapon_nouns() -> Seq<Seq<char>> {
    seq!["Sword"@, "Boulder"@, "Wand"@, "Dagger"@, "Hammer"@, "Rifle"@]
}

/// The places that weapon names end with.
pub open spec fn weapon_suffixes() -> Seq<Seq<char>> {
    seq![
        "Nashioce"@,
        "Gobloygro"@,
        "Vuskia"@,
        "Lawhos"@,
        "Shiyle"@,
        "Steiwana"@,
        "Ashington"@,
        "Ustistan"@,
        "Plez Chium"@,
        "Staej Slua"@,
        "Ospaewana"@,
        "Wespeugua"@,
        "Cuchein"@,
        "Keflya"@,
        "Speyle"@,
        "Swainia"@,
        "Eswijan"@,
        "Uswein"@,
        "Scok Slya"@,
        "Proz Drana"@,
        "Decruecia"@,
        "Vospoydan"@,
        "Xesneau"@,
        "Japlax"@,
        "Scuecia"@,
        "Dreina"@,
        "Uswela"@,
        "Usten"@,
        "Smen Snana"@,
        "Glan Gra"@,
        "Puswaenia"@,
        "Jepraoles"@,
        "Pasla"@,
        "Ewhium"@,
        "Floulia"@,
        "Plioso"@,
        "Aplurg"@,
        "Escines"@,
        "Groyt Thington"@,
        "Fleiw Flen"@,
    ]
}

/// A weapon name: prefix, noun, "of" and suffix, separated by spaces.
pub open spec fn weapon_name_of(prefix: int, noun: int, suffix: int) -> Seq<char> {
    weapon_prefixes()[prefix] + " "@ + weapon_nouns()[noun] + " of "@ + weapon_suffixes()[suffix]
}

/// The half-open range that the influence amount of an item of rarity `r` is
/// drawn from; rarer tiers draw from higher ranges.
pub open spec fn amount_range(r: ItemRarity) -> (int, int) {
    match r {
        ItemRarity::Common => (-1, 10),
        ItemRarity::Uncommon => (1, 50),
        ItemRarity::Rare => (10, 100),
        ItemRarity::Epic => (50, 250),
        ItemRarity::Legendary => (100, 500),
    }
}

/// A drawn amount of zero counts as one, so that no influence is void.
pub open spec fn nonzero_amount(a: AttributeValue) -> AttributeValue {
    if a == 0 {
        1
    } else {
        a
    }
}

/// The item type of a generated item.
pub open spec fn generated_type(g: GeneratorView, rolls: ItemRolls) -> ItemType {
    match g.item_type {
        Some(t) => t,
        None => item_type_of(rolls.class_roll, rolls.type_roll),
    }
}

/// The rarity of a generated item.
pub open spec fn generated_rarity(g: GeneratorView, rolls: ItemRolls) -> ItemRarity {
    match g.rarity {
        Some(r) => r,
        None => rarity_of(rolls.rarity_roll),
    }
}

/// The influence of a generated item: none when the coin says so or when its
/// type influences nothing; else the drawn attribute of the type's set, with
/// the drawn amount.
pub open spec fn generated_influence(g: GeneratorView, rolls: ItemRolls) -> Option<ItemInfluence> {
    match g.influence {
        Some(i) => i,
        None => {
            let attrs = attributes_of(generated_type(g, rolls));
            if rolls.without_influence || attrs.len() == 0 {
                None
            } else {
                Some(
                    ItemInfluence {
                        attribute: attrs[rolls.attribute_roll as int],
                        amount: nonzero_amount(rolls.amount_roll),
                    },
                )
            }
        },
    }
}

/// The stack size of a generated item: one unless its type stacks.
pub open spec fn generated_stack_size(g: GeneratorView, rolls: ItemRolls) -> nat {
    match g.stack_size {
        Some(s) => s,
        None => if is_stackable_type(generated_type(g, rolls)) {
            stack_sizes()[rolls.stack_roll as int]
        } else {
            1
        },
    }
}

/// The name of a generated item: a weapon name for weapons, else the plain
/// name that was drawn.
pub open spec fn generated_name(g: GeneratorView, rolls: ItemRolls) -> Seq<char> {
    match g.name {
        Some(n) => n,
        None => if is_weapon_type(generated_type(g, rolls)) {
            weapon_name_of(
                rolls.prefix_roll as int,
                rolls.noun_roll as int,
                rolls.suffix_roll as int,
            )
        } else {
            rolls.plain_name@
        },
    }
}

/// The item that generator `g` makes from `rolls`.
pub open spec fn generated(g: GeneratorView, rolls: ItemRolls) -> ItemView {
    ItemView {
        name: generated_name(g, rolls),
        item_type: generated_type(g, rolls),
        influence: generated_influence(g, rolls),
        stack_size: generated_stack_size(g, rolls),
        rarity: generated_rarity(g, rolls),
    }
}

/// Every index among `rolls` points into its list, so that an item can be
/// made from them.
pub open spec fn rolls_fit(g: GeneratorView, rolls: ItemRolls) -> bool {
    &&& rolls.attribute_roll < attributes_of(generated_type(g, rolls)).len() || attributes_of(
        generated_type(g, rolls),
    ).len() == 0
    &&& rolls.stack_roll < 3
    &&& rolls.prefix_roll < 4
    &&& rolls.noun_roll < 6
    &&& rolls.suffix_roll < 40
}

/// `rolls` lie in the ranges that generation draws them from, and a plain
/// name that the item needs holds a dash.
pub open spec fn rolls_in_range(g: GeneratorView, rolls: ItemRolls) -> bool {
    let (low, high) = amount_range(generated_rarity(g, rolls));
    &&& rolls_fit(g, rolls)
    &&& rolls.class_roll < 1000
    &&& rolls.type_roll < 1000
    &&& rolls.rarity_roll < 1000
    &&& low <= rolls.amount_roll < high
    &&& g.name is None && !is_weapon_type(generated_type(g, rolls)) ==> exists|i: int|
        0 <= i < rolls.plain_name@.len() && rolls.plain_name@[i] == '-'
}

/// Relies on rand's `Rng::gen_range` on the thread-local generator: a number
/// drawn uniformly from `low..high`, which must not be empty.
#[verifier::external_body]
fn random_range(low: i64, high: i64) -> (r: i64)
    requires
        low < high,
    ensures
        low <= r < high,
{
    rand::thread_rng().gen_range(low..high)
}

/// Relies on rand's `Rng::gen::<bool>` on the thread-local generator: a fair
/// coin.
#[verifier::external_body]
fn random_bool() -> bool {
    rand::thread_rng().gen::<bool>()
}

/// Relies on names' `Generator::with_naming(Name::Plain)`, whose `next` always
/// gives an adjective and a noun joined by a dash.
#[verifier::external_body]
fn random_plain_name() -> (r: String)
    ensures
        exists|i: int| 0 <= i < r@.len() && r@[i] == '-',
{
    names::Generator::with_naming(names::Name::Plain).next().unwrap()
}

/// A weapon name made of the prefix, noun and suffix at the given indices.
pub fn weapon_name(prefix: usize, noun: usize, suffix: usize) -> (r: String)
    requires
        prefix < 4,
        noun < 6,
        suffix < 40,
    ensures
        r@ == weapon_name_of(prefix as int, noun as int, suffix as int),
{
    let prefixes: [&'static str; 4] = ["Shiny", "Firey", "Wonderous", "Giant"];
    let nouns: [&'static str; 6] = ["Sword", "Boulder", "Wand", "Dagger", "Hammer", "Rifle"];
    let suffixes: [&'static str; 40] = [
        "Nashioce",
        "Gobloygro",
        "Vuskia",
        "Lawhos",
        "Shiyle",
        "Steiwana",
        "Ashington",
        "Ustistan",
        "Plez Chium",
        "Staej Slua",
        "Ospaewana",
        "Wespeugua",
        "Cuchein",
        "Keflya",
        "Speyle",
        "Swainia",
        "Eswijan",
        "Uswein",
        "Scok Slya",
        "Proz Drana",
        "Decruecia",
        "Vospoydan",
        "Xesneau",
        "Japlax",
        "Scuecia",
        "Dreina",
        "Uswela",
        "Usten",
        "Smen Snana",
        "Glan Gra",
        "Puswaenia",
        "Jepraoles",
        "Pasla",
        "Ewhium",
        "Floulia",
        "Plioso",
        "Aplurg",
        "Escines",
        "Groyt Thington",
        "Fleiw Flen",
    ];
    let mut name = prefixes[prefix].to_owned();
    name.append(" ");
    name.append(nouns[noun]);
    name.append(" of ");
    name.append(suffixes[suffix]);
    name
}

/// The range that influence amounts of rarity `rarity` are drawn from.
fn influence_bounds(rarity: ItemRarity) -> (r: (i64, i64))
    ensures
        r.0 == amount_range(rarity).0,
        r.1 == amount_range(rarity).1,
{
    match rarity {
        ItemRarity::Common => (-1, 10),
        ItemRarity::Uncommon => (1, 50),
        ItemRarity::Rare => (10, 100),
        ItemRarity::Epic => (50, 250),
        ItemRarity::Legendary => (100, 500),
    }
}

/// A number drawn from `0..bound`.
fn random_index(bound: usize) -> (r: usize)
    requires
        0 < bound <= 1000,
    ensures
        r < bound,
{
    random_range(0, bound as i64) as usize
}

impl ItemGenerator {
    /// Constructs a new `ItemGenerator` with no field set.
    pub fn new() -> (r: ItemGenerator)
        ensures
            r@ == (GeneratorView {
                name: None,
                item_type: None,
                influence: None,
                stack_size: None,
                rarity: None,
            }),
    {
        ItemGenerator {
            data_name: None,
            data_item_type: None,
            data_influence: None,
            data_stack_size: None,
            data_rarity: None,
        }
    }

    /// Sets the `name` of the item
    pub fn name(self, name: &str) -> (r: ItemGenerator)
        ensures
            r@ == (GeneratorView { name: Some(name@), ..self@ }),
    {
        ItemGenerator { data_name: Some(name.to_owned()), ..self }
    }

    /// Sets the `item_type` of the item
    pub fn item_type(self, item_type: ItemType) -> (r: ItemGenerator)
        ensures
            r@ == (GeneratorView { item_type: Some(item_type), ..self@ }),
    {
        ItemGenerator { data_item_type: Some(item_type), ..self }
    }

    /// Sets the `influence` of the item
    pub fn influence(self, influence: Option<ItemInfluence>) -> (r: ItemGenerator)
        ensures
            r@ == (GeneratorView { influence: Some(influence), ..self@ }),
    {
        ItemGenerator { data_influence: Some(influence), ..self }
    }

    /// Sets the `stack_size` of the item
    pub fn stack_size(self, stack_size: usize) -> (r: ItemGenerator)
        ensures
            r@ == (GeneratorView { stack_size: Some(stack_size as nat), ..self@ }),
    {
        ItemGenerator { data_stack_size: Some(stack_size), ..self }
    }

    /// Sets the `rarity` of the item
    pub fn rarity(self, rarity: ItemRarity) -> (r: ItemGenerator)
        ensures
            r@ == (GeneratorView { rarity: Some(rarity), ..self@ }),
    {
        ItemGenerator { data_rarity: Some(rarity), ..self }
    }

    /// Makes the item from the given draws: each field that was set is kept,
    /// each other one is taken from `rolls`.
    pub fn gen_with(&self, rolls: &ItemRolls) -> (r: Item)
        requires
            rolls_fit(self@, *rolls),
        ensures
            r@ == generated(self@, *rolls),
    {
        let item_type = match self.data_item_type {
            Some(t) => t,
            None => ItemType::by_num(rolls.class_roll, rolls.type_roll),
        };
        let rarity = match self.data_rarity {
            Some(r) => r,
            None => ItemRarity::by_num(rolls.rarity_roll),
        };
        let influence = match self.data_influence {
            Some(i) => i,
            None => {
                let attrs = item_type.attributes();
                if rolls.without_influence || attrs.len() == 0 {
                    None
                } else {
                    let amount = if rolls.amount_roll == 0 {
                        1
                    } else {
                        rolls.amount_roll
                    };
                    Some(ItemInfluence { attribute: attrs[rolls.attribute_roll], amount })
                }
            },
        };
        let stack_size = match self.data_stack_size {
            Some(s) => s,
            None => if item_type.is_stackable() {
                let sizes: [usize; 3] = [4, 16, 64];
                sizes[rolls.stack_roll]
            } else {
                1
            },
        };
        let name = match &self.data_name {
            Some(n) => n.clone(),
            None => match item_type {
                ItemType::WeaponSword | ItemType::WeaponHammer | ItemType::WeaponWand => {
                    weapon_name(rolls.prefix_roll, rolls.noun_roll, rolls.suffix_roll)
                },
                _ => rolls.plain_name.clone(),
            },
        };
        Item { name, item_type, influence, stack_size, rarity }
    }

    /// Generates the item using the given data. Missing data will be filled randomly
    pub fn gen(&self) -> (r: Item)
        ensures
            exists|rolls: ItemRolls|
                rolls_in_range(self@, rolls) && r@ == generated(self@, rolls),
            self@.name matches Some(n) ==> r@.name == n,
            self@.item_type matches Some(t) ==> r.item_type == t,
            self@.influence matches Some(i) ==> r.influence == i,
            self@.stack_size matches Some(s) ==> r@.stack_size == s,
            self@.rarity matches Some(k) ==> r.rarity == k,
            self@.stack_size is None ==> (r.stack_size > 1 ==> is_stackable_type(r.item_type)),
            self@.influence is None ==> (r.influence matches Some(i) ==> i.amount != 0
                && attributes_of(r.item_type).contains(i.attribute)),
    {
        let (class_roll, type_roll) = match self.data_item_type {
            Some(_) => (0, 0),
            None => (random_index(1000) as u32, random_index(1000) as u32),
        };
        let rarity_roll: u32 = match self.data_rarity {
            Some(_) => 0,
            None => random_index(1000) as u32,
        };
        let item_type = match self.data_item_type {
            Some(t) => t,
            None => ItemType::by_num(class_roll, type_roll),
        };
        let rarity = match self.data_rarity {
            Some(r) => r,
            None => ItemRarity::by_num(rarity_roll),
        };
        let (low, high) = influence_bounds(rarity);
        let mut without_influence = true;
        let mut attribute_roll: usize = 0;
        let mut amount_roll: i64 = low;
        if self.data_influence.is_none() {
            without_influence = random_bool();
            let n = item_type.attributes().len();
            if !without_influence && n > 0 {
                attribute_roll = random_index(n);
                amount_roll = random_range(low, high);
            }
        }
        let stack_roll: usize = if self.data_stack_size.is_none() && item_type.is_stackable() {
            random_index(3)
        } else {
            0
        };
        let needs_name = self.data_name.is_none();
        let weapon = match item_type {
            ItemType::WeaponSword | ItemType::WeaponHammer | ItemType::WeaponWand => true,
            _ => false,
        };
        let (prefix_roll, noun_roll, suffix_roll) = if needs_name && weapon {
            (random_index(4), random_index(6), random_index(40))
        } else {
            (0, 0, 0)
        };
        let plain_name = if needs_name && !weapon {
            random_plain_name()
        } else {
            String::new()
        };
        let rolls = ItemRolls {
            class_roll,
            type_roll,
            rarity_roll,
            without_influence,
            attribute_roll,
            amount_roll,
            stack_roll,
            prefix_roll,
            noun_roll,
            suffix_roll,
            plain_name,
        };
        let r = self.gen_with(&rolls);
        proof {
            lemma_generated_keeps_pinned_fields(self@, rolls);
            lemma_generated_is_consistent(self@, rolls);
        }
        r
    }
}

/// Whatever the draws, a generated item has every field that the generator
/// was given.
pub proof fn lemma_generated_keeps_pinned_fields(g: GeneratorView, rolls: ItemRolls)
    ensures
        g.name matches Some(n) ==> generated(g, rolls).name == n,
        g.item_type matches Some(t) ==> generated(g, rolls).item_type == t,
        g.influence matches Some(i) ==> generated(g, rolls).influence == i,
        g.stack_size matches Some(s) ==> generated(g, rolls).stack_size == s,
        g.rarity matches Some(k) ==> generated(g, rolls).rarity == k,
{
}

/// Draws that lie in their ranges make a consistent item out of the fields
/// left to chance: it stacks only if its type does, and its influence, if any,
/// is not zero and bears on an attribute that its type may influence.
pub proof fn lemma_generated_is_consistent(g: GeneratorView, rolls: ItemRolls)
    requires
        rolls_in_range(g, rolls),
    ensures
        g.stack_size is None ==> (generated(g, rolls).stack_size > 1 ==> is_stackable_type(
            generated(g, rolls).item_type,
        )),
        g.influence is None ==> (generated(g, rolls).influence matches Some(i) ==> i.amount != 0
            && attributes_of(generated(g, rolls).item_type).contains(i.attribute)),
{
}

} // verus!
