use driftlands::items::ItemType;
use driftlands::inventory::Inventory;
use driftlands::crafting::CraftingSystem;
use driftlands::crafting_panel::crafting_panel_text;

#[test]
fn crafting_panel_closed_is_empty() {
    let crafting = CraftingSystem::new();
    let inv = Inventory::default();
    let text = crafting_panel_text(&crafting, &inv, 0, false, false, false, false, false,
        &Vec::new(), &Vec::new(), "");
    assert_eq!(text, "");
}

#[test]
fn crafting_panel_by_hand() {
    let mut crafting = CraftingSystem::new();
    crafting.is_open = true;
    let mut inv = Inventory::default();
    inv.add_item(ItemType::Wood, 3);
    let text = crafting_panel_text(&crafting, &inv, 7, false, false, false, false, false,
        &Vec::new(), &Vec::new(), "");
    let lines: Vec<&str> = text.split('\n').collect();
    assert_eq!(lines[0], "=== CRAFTING (C to close) ===");
    assert_eq!(lines[1], "RP: 7  [U] Unlock (when locked recipe shown)");
    assert_eq!(lines[2], "Stations: Hand");
    assert_eq!(lines[3], "");
    assert_eq!(lines[4], "> Stick (x4) [READY] [SELECTED]");
    assert_eq!(lines[5], "    \u{2713} Wood x1 (have 3)");
    assert_eq!(lines[6], "    -> Stick x4");
    assert_eq!(lines[7], "  [Hand] Wood Plank (x4)");
    assert_eq!(lines[8], "  [Hand] Rope [missing]");
    assert_eq!(lines[lines.len() - 2], "");
    assert_eq!(lines[lines.len() - 1], "[Up/Down] Select  [Enter] Craft  [U] Unlock (locked)  [C] Close");
}

#[test]
fn crafting_panel_selected_short_and_locked() {
    let mut crafting = CraftingSystem::new();
    crafting.is_open = true;
    crafting.selected_recipe = 2;
    let inv = Inventory::default();
    let mut hints: Vec<String> = Vec::new();
    let mut forge_index = 0;
    for (i, r) in crafting.recipes.iter().enumerate() {
        if r.name == "Advanced Forge" {
            forge_index = i;
        }
        hints.push(format!("hint {}", i));
    }
    let text = crafting_panel_text(&crafting, &inv, 0, true, true, true, false, false,
        &Vec::new(), &hints, "");
    assert!(text.contains("Stations: Hand, Workbench, Campfire, Forge\n"));
    assert!(text.contains("\n  [Hand] Stick (x4) [missing]\n"));
    assert!(text.contains(&format!("\n  [LOCKED] Advanced Forge  Unlock: hint {}\n", forge_index)));
    let lines: Vec<&str> = text.split('\n').collect();
    let sel = lines.iter().position(|l| l.starts_with("> ")).unwrap();
    assert!(!lines[sel].contains("[READY]"));
    assert!(lines[sel].ends_with(" [SELECTED]"));
    assert!(lines[sel + 1].starts_with("    \u{2717} "));
    assert!(lines[sel + 1].ends_with("(have 0)"));
}

#[test]
fn crafting_panel_without_stations_in_reach_of_any_recipe() {
    let mut crafting = CraftingSystem::new();
    crafting.is_open = true;
    crafting.recipes.clear();
    let inv = Inventory::default();
    let text = crafting_panel_text(&crafting, &inv, 12, false, false, false, false, true,
        &Vec::new(), &Vec::new(), "");
    assert_eq!(text, "=== CRAFTING (C to close) ===\nRP: 12  [U] Unlock (when locked recipe shown)\nStations: Hand, Ancient\n\n  (no recipes at current stations)\n\n[Up/Down] Select  [Enter] Craft  [U] Unlock (locked)  [C] Close");
}
