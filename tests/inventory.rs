use rpg::character::Attribute;
use rpg::inventory::Inventory;
use rpg::item::{Item, ItemInfluence, ItemRarity, ItemType};
use rpg::item_generator::ItemGenerator;

fn plain_item(name: &str, item_type: ItemType, stack_size: usize) -> Item {
    Item {
        name: name.to_owned(),
        item_type,
        influence: None,
        stack_size,
        rarity: ItemRarity::Common,
    }
}

#[test]
fn inventory_full() {
    let mut inv_1 = Inventory::new();

    for _ in 0..40 {
        let random_item = ItemGenerator::new().item_type(ItemType::ArmorHead).gen();
        if let Err(_) = inv_1.add_item(random_item) {
            assert!(inv_1.is_full());
        }
    }
}

#[test]
fn stackability() {
    let mut inv = Inventory::new();

    let random_item_1 = ItemGenerator::new().item_type(ItemType::ConsumablePotion).gen();
    for _ in 0..random_item_1.stack_size {
        let _ = inv.add_item(random_item_1.clone());
    }

    assert_eq!(inv.slots()[0].amount(), random_item_1.stack_size);

    for _ in 0..(random_item_1.stack_size / 4) {
        let _ = inv.add_item(random_item_1.clone());
    }

    assert_eq!(inv.slots()[1].amount(), random_item_1.stack_size / 4);
}

#[test]
fn distinct_items_fill_one_slot_each() {
    let mut inv = Inventory::with_max_size(3);
    for i in 0..3 {
        assert!(!inv.is_full());
        let item = plain_item(&format!("item {}", i), ItemType::Prop, 1);
        assert!(inv.add_item(item).is_ok());
        assert_eq!(inv.slots().len(), i + 1);
    }
    assert!(inv.is_full());

    let extra = plain_item("one too many", ItemType::Prop, 1);
    assert_eq!(inv.add_item(extra.clone()), Err(extra));
    assert_eq!(inv.slots().len(), 3);
}

#[test]
fn stack_fills_then_opens_new_slot() {
    let mut inv = Inventory::with_max_size(2);
    let potion = plain_item("potion", ItemType::ConsumablePotion, 4);
    for _ in 0..4 {
        assert!(inv.add_item(potion.clone()).is_ok());
    }
    assert_eq!(inv.slots().len(), 1);
    assert_eq!(inv.slots()[0].amount(), 4);

    assert!(inv.add_item(potion.clone()).is_ok());
    assert_eq!(inv.slots().len(), 2);
    assert_eq!(inv.slots()[0].amount(), 4);
    assert_eq!(inv.slots()[1].amount(), 1);
    assert_eq!(inv.slots()[1].item(), &potion);
}

#[test]
fn full_stack_without_room_rejects() {
    let mut inv = Inventory::with_max_size(1);
    let food = plain_item("bread", ItemType::ConsumableFood, 2);
    assert!(inv.add_item(food.clone()).is_ok());
    assert!(inv.add_item(food.clone()).is_ok());
    assert!(inv.is_full());
    assert_eq!(inv.add_item(food.clone()), Err(food));
    assert_eq!(inv.slots()[0].amount(), 2);
}

#[test]
fn merge_succeeds_when_slots_are_all_taken() {
    let mut inv = Inventory::with_max_size(2);
    let food = plain_item("apple", ItemType::ConsumableFood, 16);
    assert!(inv.add_item(food.clone()).is_ok());
    assert!(inv.add_item(plain_item("rock", ItemType::Prop, 1)).is_ok());
    assert!(inv.is_full());
    assert!(inv.add_item(food.clone()).is_ok());
    assert_eq!(inv.slots()[0].amount(), 2);
}

#[test]
fn unstackable_item_twice_takes_two_slots() {
    let mut inv = Inventory::new();
    let helmet = plain_item("helmet", ItemType::ArmorHead, 1);
    assert!(inv.add_item(helmet.clone()).is_ok());
    assert!(inv.add_item(helmet.clone()).is_ok());
    assert_eq!(inv.slots().len(), 2);
    assert_eq!(inv.slots()[0].amount(), 1);
    assert_eq!(inv.slots()[1].amount(), 1);
}

#[test]
fn items_differing_in_one_field_do_not_stack() {
    let mut inv = Inventory::new();
    let weak = Item {
        influence: Some(ItemInfluence::new(Attribute::Luck, 1)),
        ..plain_item("charm", ItemType::ConsumablePotion, 4)
    };
    let strong = Item { influence: Some(ItemInfluence::new(Attribute::Luck, 2)), ..weak.clone() };
    assert!(inv.add_item(weak).is_ok());
    assert!(inv.add_item(strong).is_ok());
    assert_eq!(inv.slots().len(), 2);
}

#[test]
fn zero_capacity_inventory_is_full() {
    let mut inv = Inventory::with_max_size(0);
    assert!(inv.is_full());
    let item = plain_item("coin", ItemType::Prop, 1);
    assert_eq!(inv.add_item(item.clone()), Err(item));
}
