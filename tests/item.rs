use rpg::character::Attribute;
use rpg::item::{ItemInfluence, ItemRarity, ItemType};
use rpg::item_generator::ItemGenerator;

#[test]
fn can_be_equipped() {
    let head_piece = ItemGenerator::new().item_type(ItemType::ArmorHead).gen();
    assert!(head_piece.can_be_equipped());

    let head_piece = ItemGenerator::new().item_type(ItemType::ConsumablePotion).gen();
    assert!(!head_piece.can_be_equipped());
}

#[test]
fn can_be_stacked() {
    let head_piece = ItemGenerator::new().stack_size(4).gen();
    assert!(head_piece.can_be_stacked());

    let head_piece = ItemGenerator::new().stack_size(1).gen();
    assert!(!head_piece.can_be_stacked());
}

#[test]
fn item_rarity() {
    assert_eq!(ItemRarity::by_num(0), ItemRarity::Common);
    assert_eq!(ItemRarity::by_num(750), ItemRarity::Common);

    assert_eq!(ItemRarity::by_num(751), ItemRarity::Uncommon);
    assert_eq!(ItemRarity::by_num(917), ItemRarity::Uncommon);

    assert_eq!(ItemRarity::by_num(918), ItemRarity::Rare);
    assert_eq!(ItemRarity::by_num(972), ItemRarity::Rare);

    assert_eq!(ItemRarity::by_num(973), ItemRarity::Epic);
    assert_eq!(ItemRarity::by_num(979), ItemRarity::Epic);

    assert_eq!(ItemRarity::by_num(980), ItemRarity::Legendary);
    assert_eq!(ItemRarity::by_num(1000), ItemRarity::Legendary);
}

#[test]
fn item_type() {
    for class_num in 0..1000 {
        for type_num in 0..1000 {
            ItemType::by_num(class_num, type_num);
        }
    }
}

#[test]
fn item_type_table() {
    assert_eq!(ItemType::by_num(0, 0), ItemType::ConsumableFood);
    assert_eq!(ItemType::by_num(250, 501), ItemType::ConsumablePotion);
    assert_eq!(ItemType::by_num(251, 250), ItemType::ArmorHead);
    assert_eq!(ItemType::by_num(300, 251), ItemType::ArmorChest);
    assert_eq!(ItemType::by_num(400, 750), ItemType::ArmorLegs);
    assert_eq!(ItemType::by_num(500, 999), ItemType::ArmorFeet);
    assert_eq!(ItemType::by_num(501, 333), ItemType::WeaponHammer);
    assert_eq!(ItemType::by_num(600, 334), ItemType::WeaponSword);
    assert_eq!(ItemType::by_num(750, 667), ItemType::WeaponWand);
    assert_eq!(ItemType::by_num(751, 500), ItemType::Usable);
    assert_eq!(ItemType::by_num(999, 501), ItemType::Prop);
    assert_eq!(ItemType::by_num(1001, 0), ItemType::Prop);
    assert_eq!(ItemType::by_num(0, 1001), ItemType::Prop);
}

#[test]
fn rarity_out_of_table_is_common() {
    assert_eq!(ItemRarity::by_num(1001), ItemRarity::Common);
    assert_eq!(ItemRarity::by_num(u32::MAX), ItemRarity::Common);
}

#[test]
fn attribute_sets_by_type() {
    assert_eq!(ItemType::WeaponSword.attributes(), vec![Attribute::Dexterity, Attribute::Strength]);
    assert_eq!(ItemType::ConsumableFood.attributes().len(), 10);
    assert_eq!(
        ItemType::ArmorFeet.attributes(),
        vec![
            Attribute::Charisma,
            Attribute::Constitution,
            Attribute::Defense,
            Attribute::Dexterity,
            Attribute::Luck,
            Attribute::Perception,
        ]
    );
    assert!(ItemType::Prop.attributes().is_empty());
    assert!(ItemType::Usable.attributes().is_empty());
}

#[test]
fn stackable_types_are_consumables() {
    assert!(ItemType::ConsumableFood.is_stackable());
    assert!(ItemType::ConsumablePotion.is_stackable());
    assert!(!ItemType::WeaponWand.is_stackable());
    assert!(!ItemType::Prop.is_stackable());
}

#[test]
fn influence_new_keeps_fields() {
    let influence = ItemInfluence::new(Attribute::Wisdom, -3);
    assert_eq!(influence.attribute, Attribute::Wisdom);
    assert_eq!(influence.amount, -3);
}
