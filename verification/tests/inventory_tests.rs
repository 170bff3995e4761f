use driftlands::items::ItemType;
use driftlands::inventory::{Inventory, InventorySlot, empty_slots, find_first_empty, count_in_slots};

fn inv() -> Inventory {
    Inventory::default()
}

#[test]
fn default_inventory_is_empty_with_36_slots() {
    let i = inv();
    assert_eq!(i.slots.len(), 36);
    assert_eq!(i.hotbar_size, 9);
    assert_eq!(i.selected_slot, 0);
    assert!(!i.is_open);
    assert!(i.slots.iter().all(|s| s.is_none()));
}

#[test]
fn add_stacks_then_fills_empty_slots() {
    let mut i = inv();
    assert_eq!(i.add_item(ItemType::Wood, 10), 0);
    assert_eq!(i.add_item(ItemType::Wood, 60), 0);
    // 64 in the first slot, 6 in the second.
    assert_eq!(i.slots[0].as_ref().unwrap().count, 64);
    assert_eq!(i.slots[1].as_ref().unwrap().count, 6);
    assert_eq!(i.count_items(ItemType::Wood), 70);
}

#[test]
fn add_tools_one_per_slot_with_durability() {
    let mut i = inv();
    assert_eq!(i.add_item(ItemType::WoodAxe, 2), 0);
    let a = i.slots[0].as_ref().unwrap();
    let b = i.slots[1].as_ref().unwrap();
    assert_eq!((a.count, a.durability), (1, Some(50)));
    assert_eq!((b.count, b.durability), (1, Some(50)));
}

#[test]
fn add_overflow_returns_what_did_not_fit() {
    let mut i = inv();
    // 36 slots of 64 stones hold 2304.
    assert_eq!(i.add_item(ItemType::Stone, 2304 + 5), 5);
    assert_eq!(i.count_items(ItemType::Stone), 2304);
    // Full: nothing more fits.
    assert_eq!(i.add_item(ItemType::Wood, 3), 3);
    assert!(!i.has_items(ItemType::Wood, 1));
}

#[test]
fn remove_takes_from_earliest_slots_and_clears_empty_ones() {
    let mut i = inv();
    i.add_item(ItemType::Wood, 70);
    assert!(i.remove_items(ItemType::Wood, 66));
    assert!(i.slots[0].is_none());
    assert_eq!(i.slots[1].as_ref().unwrap().count, 4);
    assert_eq!(i.count_items(ItemType::Wood), 4);
}

#[test]
fn remove_too_many_changes_nothing() {
    let mut i = inv();
    i.add_item(ItemType::Stone, 3);
    assert!(!i.remove_items(ItemType::Stone, 4));
    assert_eq!(i.count_items(ItemType::Stone), 3);
    assert!(i.has_items(ItemType::Stone, 3));
    assert!(!i.has_items(ItemType::Stone, 4));
}

#[test]
fn add_then_remove_restores_counts() {
    let mut i = inv();
    i.add_item(ItemType::Berry, 12);
    i.add_item(ItemType::Stick, 7);
    i.add_item(ItemType::Berry, 5);
    assert!(i.remove_items(ItemType::Berry, 5));
    assert_eq!(i.count_items(ItemType::Berry), 12);
    assert_eq!(i.count_items(ItemType::Stick), 7);
}

#[test]
fn selected_item_and_tool_wear() {
    let mut i = inv();
    assert!(i.selected_item().is_none());
    i.slots[0] = Some(InventorySlot { item: ItemType::WoodPickaxe, count: 1, durability: Some(2) });
    assert_eq!(i.selected_item().unwrap().item, ItemType::WoodPickaxe);
    assert!(!i.use_selected_tool());
    assert_eq!(i.slots[0].as_ref().unwrap().durability, Some(1));
    assert!(i.use_selected_tool());
    assert!(i.slots[0].is_none());
    // Nothing selected: nothing breaks.
    assert!(!i.use_selected_tool());
}

#[test]
fn items_without_durability_do_not_wear() {
    let mut i = inv();
    i.add_item(ItemType::Wood, 5);
    assert!(!i.use_selected_tool());
    assert_eq!(i.slots[0].as_ref().unwrap().count, 5);
}

#[test]
fn slot_helpers() {
    let mut slots = empty_slots(4);
    assert_eq!(find_first_empty(&slots), Some(0));
    slots[0] = Some(InventorySlot { item: ItemType::Coal, count: 3, durability: None });
    slots[2] = Some(InventorySlot { item: ItemType::Coal, count: 4, durability: None });
    assert_eq!(find_first_empty(&slots), Some(1));
    assert_eq!(count_in_slots(&slots, ItemType::Coal), 7);
    slots[1] = Some(InventorySlot { item: ItemType::Wood, count: 1, durability: None });
    slots[3] = Some(InventorySlot { item: ItemType::Wood, count: 1, durability: None });
    assert_eq!(find_first_empty(&slots), None);
}

#[test]
fn item_properties() {
    assert_eq!(ItemType::Wood.display_name(), "Wood");
    assert_eq!(ItemType::PlantFiber.display_name(), "Plant Fiber");
    assert_eq!(ItemType::Wood.max_stack(), 64);
    assert_eq!(ItemType::IronSword.max_stack(), 1);
    assert_eq!(ItemType::AncientPickaxe.max_durability(), Some(500));
    assert_eq!(ItemType::Wood.max_durability(), None);
    assert!(ItemType::Hoe.is_tool());
    assert!(!ItemType::Stone.is_tool());
    assert_eq!(ItemType::SteelSword.weapon_damage(), Some(35));
    assert_eq!(ItemType::Stone.weapon_damage(), None);
    assert_eq!(ItemType::AncientArmor.armor_value(), 12);
    assert!(ItemType::IronHelmet.is_helmet());
    assert!(ItemType::SteelArmor.is_chestplate());
    assert_eq!(ItemType::IronShield.shield_value(), 5);
    assert!(ItemType::WoodShield.is_shield());
    assert_eq!(ItemType::Hoe.tool_tier(), 3);
    assert_eq!(ItemType::Berry.tool_tier(), 0);
}

#[test]
fn remove_then_add_restores() {
    let mut i = inv();
    i.add_item(ItemType::Stone, 100);
    i.add_item(ItemType::Wood, 30);
    assert!(i.remove_items(ItemType::Stone, 80));
    assert_eq!(i.add_item(ItemType::Stone, 80), 0);
    assert_eq!(i.count_items(ItemType::Stone), 100);
    assert_eq!(i.count_items(ItemType::Wood), 30);
}
