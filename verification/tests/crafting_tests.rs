use driftlands::items::ItemType;
use driftlands::inventory::Inventory;
use driftlands::crafting::{CraftingSystem, CraftingTier, RECIPE_COUNT, recipe_cursor};

#[test]
fn recipe_book_has_all_recipes() {
    let c = CraftingSystem::new();
    assert_eq!(c.recipes.len(), RECIPE_COUNT);
    assert_eq!(c.recipes.len(), 156);
    assert_eq!(c.recipes[0].name, "Stick (x4)");
    assert_eq!(c.recipes[0].inputs, vec![(ItemType::Wood, 1)]);
    assert_eq!(c.recipes[0].output, (ItemType::Stick, 4));
    assert_eq!(c.recipes[0].tier, CraftingTier::Hand);
    assert!(!c.is_open);
    assert_eq!(c.selected_recipe, 0);
    assert_eq!(c.recipes[41].tech_key, Some("advanced_forge"));
}

#[test]
fn craft_takes_inputs_and_gives_output() {
    let c = CraftingSystem::new();
    let mut inv = Inventory::default();
    inv.add_item(ItemType::Stone, 5);
    inv.add_item(ItemType::Stick, 3);
    inv.add_item(ItemType::Wood, 3);
    // Campfire: 5 stone, 3 sticks, 2 wood.
    assert!(c.can_craft(3, &inv));
    assert!(c.craft(3, &mut inv));
    assert_eq!(inv.count_items(ItemType::Stone), 0);
    assert_eq!(inv.count_items(ItemType::Stick), 0);
    assert_eq!(inv.count_items(ItemType::Wood), 1);
    assert_eq!(inv.count_items(ItemType::Campfire), 1);
}

#[test]
fn craft_without_inputs_changes_nothing() {
    let c = CraftingSystem::new();
    let mut inv = Inventory::default();
    inv.add_item(ItemType::Stone, 4);
    inv.add_item(ItemType::Stick, 3);
    inv.add_item(ItemType::Wood, 2);
    assert!(!c.can_craft(3, &inv));
    assert!(!c.craft(3, &mut inv));
    assert_eq!(inv.count_items(ItemType::Stone), 4);
    assert_eq!(inv.count_items(ItemType::Campfire), 0);
    // An index past the book is never craftable.
    assert!(!c.can_craft(10_000, &inv));
}

#[test]
fn hand_recipes_only_without_stations() {
    let c = CraftingSystem::new();
    let none: Vec<String> = Vec::new();
    let visible = c.recipes_visible_at_stations(false, false, false, false, false, &none);
    assert!(!visible.is_empty());
    for (idx, locked) in &visible {
        assert_eq!(c.recipes[*idx].tier, CraftingTier::Hand);
        assert!(!locked || c.recipes[*idx].tech_key.is_some());
    }
    assert_eq!(visible[0], (0, false));
}

#[test]
fn locked_tech_recipes_are_visible_but_not_available() {
    let c = CraftingSystem::new();
    let none: Vec<String> = Vec::new();
    let visible = c.recipes_visible_at_stations(true, true, false, false, false, &none);
    assert!(visible.contains(&(41, true)));
    let available = c.available_recipes(true, true, false, false, false, &none);
    assert!(!available.contains(&41));
    assert!(available.contains(&11));
    let unlocked = vec!["advanced_forge".to_string()];
    let visible2 = c.recipes_visible_at_stations(true, true, false, false, false, &unlocked);
    assert!(visible2.contains(&(41, false)));
    let available2 = c.available_recipes(true, true, false, false, false, &unlocked);
    assert!(available2.contains(&41));
}

#[test]
fn cursor_stays_in_list() {
    assert_eq!(recipe_cursor(0, 5, true, false), 0);
    assert_eq!(recipe_cursor(4, 5, false, true), 4);
    assert_eq!(recipe_cursor(2, 5, false, true), 3);
    assert_eq!(recipe_cursor(9, 5, false, false), 0);
    assert_eq!(recipe_cursor(3, 5, true, false), 2);
}

#[test]
fn toggle_resets_selection() {
    let mut c = CraftingSystem::new();
    c.selected_recipe = 7;
    c.toggle_open();
    assert!(c.is_open);
    assert_eq!(c.selected_recipe, 0);
    c.toggle_open();
    assert!(!c.is_open);
}

#[test]
fn tier_labels() {
    assert_eq!(CraftingTier::Hand.label(), "[Hand]");
    assert_eq!(CraftingTier::AdvancedForge.label(), "[AdvForge]");
}
