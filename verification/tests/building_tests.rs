use driftlands::items::ItemType;
use driftlands::inventory::{Inventory, InventorySlot};
use driftlands::crafting::CraftingTier;
use driftlands::building::{
    BuildingType, BuildingState, ChestStorage, ChestUI, cycle_building_type, place_building,
    collect_salvage, deposit_hotbar_slot, withdraw_chest_slot,
};

#[test]
fn build_cycle_visits_all_38_types_and_returns() {
    let mut b = BuildingType::WoodFloor;
    assert_eq!(b.next(), BuildingType::WoodWall);
    assert_eq!(BuildingType::AlarmBell.next(), BuildingType::WoodFloor);
    let mut seen = vec![b];
    for _ in 0..37 {
        b = b.next();
        assert!(!seen.contains(&b));
        seen.push(b);
    }
    assert_eq!(b.next(), BuildingType::WoodFloor);
}

#[test]
fn cycling_only_in_build_mode() {
    let mut s = BuildingState::default();
    cycle_building_type(&mut s, true);
    assert_eq!(s.selected_type, BuildingType::WoodFloor);
    s.active = true;
    cycle_building_type(&mut s, true);
    assert_eq!(s.selected_type, BuildingType::WoodWall);
    cycle_building_type(&mut s, false);
    assert_eq!(s.selected_type, BuildingType::WoodWall);
}

#[test]
fn names_and_requirements() {
    assert_eq!(BuildingType::WoodFloor.name(), "Wood Floor");
    assert_eq!(BuildingType::WoodWall.required_item(), ItemType::WoodWall);
    assert!(BuildingType::Ladder.is_stairs_or_ladder());
    assert!(!BuildingType::Chest.is_stairs_or_ladder());
    assert_eq!(BuildingType::Workbench.crafting_tier(), Some(CraftingTier::Workbench));
    assert_eq!(BuildingType::WoodWall.crafting_tier(), None);
    assert_eq!(BuildingType::StoneDoor.salvage(), vec![(ItemType::StoneBlock, 3), (ItemType::IronIngot, 1)]);
}

#[test]
fn placing_takes_one_item() {
    let mut s = BuildingState::default();
    s.selected_type = BuildingType::WoodWall;
    let mut inv = Inventory::default();
    assert!(!place_building(&s, &mut inv));
    inv.add_item(ItemType::WoodWall, 2);
    assert!(place_building(&s, &mut inv));
    assert_eq!(inv.count_items(ItemType::WoodWall), 1);
    s.placement_valid = false;
    assert!(!place_building(&s, &mut inv));
    assert_eq!(inv.count_items(ItemType::WoodWall), 1);
}

#[test]
fn destroying_gives_salvage() {
    let mut inv = Inventory::default();
    collect_salvage(BuildingType::WoodWall, &mut inv);
    assert_eq!(inv.count_items(ItemType::WoodPlank), 2);
    assert_eq!(inv.count_items(ItemType::Stick), 1);
}

#[test]
fn chest_deposit_and_withdraw() {
    let mut inv = Inventory::default();
    let mut chest = ChestStorage::new();
    assert_eq!(chest.slots.len(), 18);
    inv.add_item(ItemType::Coal, 10);
    assert!(deposit_hotbar_slot(&mut inv, &mut chest, 0));
    assert!(inv.slots[0].is_none());
    assert_eq!(chest.slots[0].as_ref().unwrap().count, 10);
    // An empty hotbar slot moves nothing.
    assert!(!deposit_hotbar_slot(&mut inv, &mut chest, 1));
    withdraw_chest_slot(&mut chest, &mut inv, 0);
    assert!(chest.slots[0].is_none());
    assert_eq!(inv.count_items(ItemType::Coal), 10);
}

#[test]
fn withdraw_leaves_what_does_not_fit() {
    let mut inv = Inventory::default();
    inv.add_item(ItemType::Stone, 36 * 64 - 4);
    let mut chest = ChestStorage::new();
    chest.slots[3] = Some(InventorySlot { item: ItemType::Stone, count: 10, durability: None });
    withdraw_chest_slot(&mut chest, &mut inv, 3);
    assert_eq!(chest.slots[3].as_ref().unwrap().count, 6);
    assert_eq!(inv.count_items(ItemType::Stone), 36 * 64);
}

#[test]
fn chest_cursor_stops_at_ends() {
    let mut ui = ChestUI::default();
    ui.move_selection(true, false);
    assert_eq!(ui.selected_slot, 0);
    for _ in 0..30 {
        ui.move_selection(false, true);
    }
    assert_eq!(ui.selected_slot, 17);
}

#[test]
fn salvage_never_exceeds_recipe() {
    let c = driftlands::crafting::CraftingSystem::new();
    // Wood Wall: 4 planks and 2 sticks; it salvages to 2 planks and a stick.
    let wall = &c.recipes[11];
    assert_eq!(wall.output.0, BuildingType::WoodWall.required_item());
    for (item, n) in BuildingType::WoodWall.salvage() {
        let used: u32 = wall.inputs.iter().filter(|(i, _)| *i == item).map(|(_, k)| *k).sum();
        assert!(used >= n);
    }
}

#[test]
fn chest_window_opens_and_closes() {
    let mut ui = ChestUI::default();
    assert!(!ui.interact(true, false, true, Some(7)));
    assert!(!ui.interact(true, false, false, None));
    assert!(ui.interact(true, false, false, Some(7)));
    assert_eq!(ui.target_entity, Some(7));
    ui.move_selection(false, true);
    assert!(ui.interact(false, false, false, None));
    assert_eq!(ui.selected_slot, 1);
    assert!(!ui.interact(false, true, false, Some(9)));
    assert_eq!(ui.target_entity, None);
    assert_eq!(ui.selected_slot, 0);
}

#[test]
fn salvage_is_half_the_recipe_at_least_one() {
    assert_eq!(BuildingType::Chest.salvage(), vec![(ItemType::WoodPlank, 4)]);
    assert_eq!(BuildingType::Forge.salvage(),
        vec![(ItemType::StoneBlock, 5), (ItemType::IronOre, 2), (ItemType::Coal, 1)]);
    assert_eq!(BuildingType::WoodHalfWall.salvage(), vec![(ItemType::WoodPlank, 1), (ItemType::Stick, 1)]);
    let c = driftlands::crafting::CraftingSystem::new();
    let mut b = BuildingType::WoodFloor;
    for _ in 0..38 {
        let r = c.recipes.iter().find(|r| r.output.0 == b.required_item()).unwrap();
        let expected: Vec<(ItemType, u32)> = r.inputs.iter().map(|&(it, n)| (it, std::cmp::max(1, n / 2))).collect();
        assert_eq!(b.salvage(), expected);
        b = b.next();
    }
}
