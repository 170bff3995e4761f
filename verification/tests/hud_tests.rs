use driftlands::items::ItemType;
use driftlands::inventory::{Inventory, InventorySlot};
use driftlands::world::{DayPhase, Weather};
use driftlands::building::{BuildingType, ChestStorage};
use driftlands::npc::TradeOffer;
use driftlands::hud::{
    push_decimal, slot_label, count_badge, inventory_tooltip, empty_slot_tooltip, main_hud_text,
    chest_panel_text, experiment_panel_text, trade_panel_text,
};

fn dec(n: u64) -> String {
    let mut s = String::new();
    push_decimal(&mut s, n);
    s
}

#[test]
fn decimals() {
    assert_eq!(dec(0), "0");
    assert_eq!(dec(7), "7");
    assert_eq!(dec(10), "10");
    assert_eq!(dec(1234567), "1234567");
    assert_eq!(dec(u64::MAX), u64::MAX.to_string());
}

#[test]
fn slot_labels_and_badges() {
    assert_eq!(slot_label(ItemType::PlantFiber), "Plant ");
    assert_eq!(slot_label(ItemType::Wood), "Wood");
    let one = InventorySlot { item: ItemType::Wood, count: 1, durability: None };
    let many = InventorySlot { item: ItemType::Wood, count: 42, durability: None };
    assert_eq!(count_badge(Some(one)), "");
    assert_eq!(count_badge(Some(many)), "x42");
    assert_eq!(count_badge(None), "");
}

#[test]
fn tooltips() {
    let sword = InventorySlot { item: ItemType::IronSword, count: 1, durability: Some(150) };
    assert_eq!(inventory_tooltip(sword), format!("{}  [150/150]  ATK: 20", ItemType::IronSword.display_name()));
    let pick = InventorySlot { item: ItemType::WoodPickaxe, count: 1, durability: Some(12) };
    assert_eq!(inventory_tooltip(pick), format!("{}  [12/50]  Tier 1", ItemType::WoodPickaxe.display_name()));
    let wood = InventorySlot { item: ItemType::Wood, count: 30, durability: None };
    assert_eq!(inventory_tooltip(wood), "Wood  (x30)");
    let helmet = InventorySlot { item: ItemType::IronHelmet, count: 1, durability: None };
    assert_eq!(inventory_tooltip(helmet), format!("{}  DEF: 3", ItemType::IronHelmet.display_name()));
    let shield = InventorySlot { item: ItemType::WoodShield, count: 1, durability: None };
    assert_eq!(inventory_tooltip(shield), format!("{}  BLOCK: 2", ItemType::WoodShield.display_name()));
    assert_eq!(empty_slot_tooltip(4), "Slot 5 - Empty");
}

#[test]
fn status_line() {
    assert_eq!(main_hud_text(3, DayPhase::Night, "Spring", Weather::Rain, Some("Storm"), Some(BuildingType::WoodWall)),
        "BUILD: Wood Wall | Q Cycle | RClick Place\nDay 3 Night | Spring Rain -> Storm");
    assert_eq!(main_hud_text(12, DayPhase::Day, "Winter", Weather::Clear, None, None), "Day 12 Day | Winter");
}

#[test]
fn chest_panel() {
    let mut chest = ChestStorage::new();
    chest.slots[0] = Some(InventorySlot { item: ItemType::Coal, count: 5, durability: None });
    chest.slots[11] = Some(InventorySlot { item: ItemType::WoodAxe, count: 1, durability: Some(9) });
    let text = chest_panel_text(&chest.slots, 11);
    let lines: Vec<&str> = text.split('\n').collect();
    assert_eq!(lines.len(), 2 + 18 + 2);
    assert_eq!(lines[0], "=== CHEST ===");
    assert_eq!(lines[1], "");
    assert_eq!(lines[2], "   1. Coal x5");
    assert_eq!(lines[3], "   2. (empty)");
    assert_eq!(lines[13], format!("> 12. {} (9/50)", ItemType::WoodAxe.display_name()));
    assert_eq!(lines[20], "");
    assert_eq!(lines[21], "1-9: Store hotbar item | Up/Down+Enter: Take | E: Close");
}

#[test]
fn experiment_and_trade_panels() {
    assert_eq!(experiment_panel_text(Some(ItemType::Berry), None),
        "== EXPERIMENT TABLE ==\n\nSlot A: Berry\nSlot B: ---\n\n[1] Assign selected item to Slot A\n[2] Assign selected item to Slot B\n[Enter] Attempt combination\n[X] Close");
    let offers = vec![
        TradeOffer { item_for_sale: ItemType::Rope, cost_item: ItemType::Stone, cost_count: 3, sold: false },
        TradeOffer { item_for_sale: ItemType::Torch, cost_item: ItemType::Stone, cost_count: 9, sold: false },
        TradeOffer { item_for_sale: ItemType::Wood, cost_item: ItemType::Stone, cost_count: 1, sold: true },
    ];
    let mut inv = Inventory::default();
    inv.add_item(ItemType::Stone, 5);
    assert_eq!(trade_panel_text(&offers, 1, &inv),
        "== WANDERING TRADER ==\n\n  Rope  for Stone x3\n> Torch  for Stone x9 [need more]\n  Wood  for Stone x1 [SOLD]\n\n[Up/Down] Select  [Enter] Buy  [Esc] Close");
}
