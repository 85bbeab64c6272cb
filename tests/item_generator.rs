use rand::Rng;
use rpg::character::Attribute;
use rpg::item::{ItemInfluence, ItemRarity, ItemType};
use rpg::item_generator::{weapon_name, ItemGenerator, ItemRolls};

fn rolls() -> ItemRolls {
    ItemRolls {
        class_roll: 0,
        type_roll: 0,
        rarity_roll: 0,
        without_influence: true,
        attribute_roll: 0,
        amount_roll: 0,
        stack_roll: 0,
        prefix_roll: 0,
        noun_roll: 0,
        suffix_roll: 0,
        plain_name: String::from("brave-otter"),
    }
}

#[test]
fn builder_item_type() {
    let mut rng = rand::thread_rng();
    for _ in 0..2000 {
        let rnd_type = ItemType::by_num(rng.gen_range(0..1000), rng.gen_range(0..1000));

        let rnd_item = ItemGenerator::new().item_type(rnd_type.clone()).gen();

        assert_eq!(rnd_item.item_type, rnd_type);
    }
}

#[test]
fn builder_name() {
    let random_name = String::from("Totally random item");

    let rnd_item = ItemGenerator::new().name(random_name.clone().as_str()).gen();

    assert_eq!(rnd_item.name, random_name);
}

#[test]
fn builder_influence() {
    let influence = Some(ItemInfluence::new(Attribute::Strength, 123));
    let rnd_item = ItemGenerator::new().influence(influence).gen();

    let item_influence = rnd_item.influence.unwrap();

    assert_eq!(item_influence.attribute, Attribute::Strength);
    assert_eq!(item_influence.amount, 123);
}

#[test]
fn builder_stack_size() {
    let rnd_item = ItemGenerator::new().stack_size(45).gen();

    assert_eq!(rnd_item.stack_size, 45);
}

#[test]
fn builder_rarity() {
    let rnd_item = ItemGenerator::new().rarity(ItemRarity::Rare).gen();

    assert_eq!(rnd_item.rarity, ItemRarity::Rare);
}

#[test]
fn pinned_rarity_holds_across_generations() {
    let generator = ItemGenerator::new().rarity(ItemRarity::Rare);
    for _ in 0..500 {
        assert_eq!(generator.gen().rarity, ItemRarity::Rare);
    }
}

#[test]
fn generated_items_are_consistent() {
    let generator = ItemGenerator::new();
    for _ in 0..2000 {
        let item = generator.gen();
        if item.stack_size > 1 {
            assert!(item.item_type.is_stackable());
            assert!([4, 16, 64].contains(&item.stack_size));
        } else {
            assert_eq!(item.stack_size, 1);
        }
        if let Some(influence) = item.influence {
            assert_ne!(influence.amount, 0);
            assert!(item.item_type.attributes().contains(&influence.attribute));
        }
    }
}

#[test]
fn influence_amounts_follow_rarity() {
    for _ in 0..300 {
        let item = ItemGenerator::new()
            .item_type(ItemType::ConsumableFood)
            .rarity(ItemRarity::Legendary)
            .gen();
        if let Some(influence) = item.influence {
            assert!(influence.amount >= 100 && influence.amount < 500);
        }
        let item = ItemGenerator::new()
            .item_type(ItemType::ConsumableFood)
            .rarity(ItemRarity::Common)
            .gen();
        if let Some(influence) = item.influence {
            assert!(influence.amount >= -1 && influence.amount < 10 && influence.amount != 0);
        }
    }
}

#[test]
fn generated_names_by_kind() {
    for _ in 0..100 {
        let weapon = ItemGenerator::new().item_type(ItemType::WeaponSword).gen();
        assert!(weapon.name.contains(" of "));
        let potion = ItemGenerator::new().item_type(ItemType::ConsumablePotion).gen();
        assert!(potion.name.contains('-'));
    }
}

#[test]
fn weapon_name_formula() {
    assert_eq!(weapon_name(0, 0, 0), "Shiny Sword of Nashioce");
    assert_eq!(weapon_name(3, 5, 39), "Giant Rifle of Fleiw Flen");
    assert_eq!(weapon_name(2, 4, 8), "Wonderous Hammer of Plez Chium");
}

#[test]
fn gen_with_takes_every_unset_field_from_rolls() {
    let rolls = ItemRolls {
        class_roll: 100,
        type_roll: 600,
        rarity_roll: 990,
        without_influence: false,
        attribute_roll: 7,
        amount_roll: 0,
        stack_roll: 1,
        ..rolls()
    };
    let item = ItemGenerator::new().gen_with(&rolls);
    assert_eq!(item.item_type, ItemType::ConsumablePotion);
    assert_eq!(item.rarity, ItemRarity::Legendary);
    assert_eq!(item.influence, Some(ItemInfluence::new(Attribute::Strength, 1)));
    assert_eq!(item.stack_size, 16);
    assert_eq!(item.name, "brave-otter");
}

#[test]
fn gen_with_names_weapons_from_word_lists() {
    let rolls = ItemRolls { class_roll: 600, type_roll: 100, prefix_roll: 1, noun_roll: 3, suffix_roll: 23, ..rolls() };
    let item = ItemGenerator::new().gen_with(&rolls);
    assert_eq!(item.item_type, ItemType::WeaponHammer);
    assert_eq!(item.name, "Firey Dagger of Japlax");
    assert_eq!(item.stack_size, 1);
    assert_eq!(item.influence, None);
    assert_eq!(item.rarity, ItemRarity::Common);
}

#[test]
fn gen_with_keeps_pinned_fields() {
    let rolls = ItemRolls { without_influence: false, amount_roll: 42, ..rolls() };
    let item = ItemGenerator::new()
        .name("Relic")
        .item_type(ItemType::Prop)
        .influence(None)
        .stack_size(9)
        .rarity(ItemRarity::Epic)
        .gen_with(&rolls);
    assert_eq!(item.name, "Relic");
    assert_eq!(item.item_type, ItemType::Prop);
    assert_eq!(item.influence, None);
    assert_eq!(item.stack_size, 9);
    assert_eq!(item.rarity, ItemRarity::Epic);
}

#[test]
fn gen_with_gives_no_influence_to_props() {
    let rolls = ItemRolls { class_roll: 900, type_roll: 900, without_influence: false, amount_roll: 5, ..rolls() };
    let item = ItemGenerator::new().gen_with(&rolls);
    assert_eq!(item.item_type, ItemType::Prop);
    assert_eq!(item.influence, None);
}

#[test]
fn gen_with_keeps_nonzero_amount() {
    let rolls = ItemRolls {
        class_roll: 300,
        type_roll: 0,
        rarity_roll: 930,
        without_influence: false,
        attribute_roll: 5,
        amount_roll: 77,
        ..rolls()
    };
    let item = ItemGenerator::new().name("Cap").gen_with(&rolls);
    assert_eq!(item.item_type, ItemType::ArmorHead);
    assert_eq!(item.rarity, ItemRarity::Rare);
    assert_eq!(item.influence, Some(ItemInfluence::new(Attribute::Perception, 77)));
}

#[test]
fn random_draws_vary() {
    let generator = ItemGenerator::new();
    let mut types = Vec::new();
    let mut names = Vec::new();
    for _ in 0..300 {
        let item = generator.gen();
        if !types.contains(&item.item_type) {
            types.push(item.item_type);
        }
        if !names.contains(&item.name) {
            names.push(item.name);
        }
    }
    assert!(types.len() > 1);
    assert!(names.len() > 1);
}
