use driftlands::items::ItemType;
use driftlands::inventory::{Inventory, InventorySlot};
use driftlands::building::ChestStorage;
use driftlands::npc::{
    Knowledge, Blacksmith, Hermit, npc_talk, TradeOffer, Trader, TradeMenu, generate_offers, buy_offer,
    trade_menu_step, TraderSpawnState, trader_due, trader_arrives, MAX_MEMORIES, offers_for_draws,
};
use driftlands::lore::{LoreRegistry, read_journal_page, read_journal_page_at, BASE_LORE_COUNT, EXPANSION_LORE_COUNT};
use driftlands::experiment::{find_hidden_recipe, ExperimentSlots, assign_experiment_slot, ExperimentOutcome, attempt_combination};
use driftlands::automation::{smelt_in_chest, smelter_tick};
use driftlands::death::{drop_all_items, recover_items};

#[test]
fn affinity_is_clamped_and_memory_bounded() {
    let mut k = Knowledge::default();
    assert_eq!(k.player_affinity, 0);
    for _ in 0..30 {
        k.update_affinity(10);
    }
    assert_eq!(k.player_affinity, 100);
    k.update_affinity(-250);
    assert_eq!(k.player_affinity, -100);
    for t in 0..15u64 {
        k.add_memory("event", t);
    }
    assert_eq!(k.memories.len(), MAX_MEMORIES);
    assert_eq!(k.memories[0].1, 5);
    assert_eq!(k.memories[9].1, 14);
}

#[test]
fn talking_cycles_dialogue() {
    let mut b = Blacksmith::new();
    let mut k = Knowledge::default();
    let n = b.dialogue.len();
    let first = b.dialogue[0].clone();
    let text = npc_talk("Blacksmith", &b.dialogue, &mut b.dialogue_index, &mut k, 7);
    assert_eq!(text, format!("Blacksmith: \"{}\"", first));
    assert_eq!(b.dialogue_index, 1 % n);
    assert_eq!(k.player_affinity, 5);
    assert_eq!(k.memories, vec![("talked_to_player".to_string(), 7)]);
    let mut h = Hermit::new(vec!["one", "two"]);
    npc_talk("Hermit", &h.dialogue, &mut h.dialogue_index, &mut k, 8);
    let t = npc_talk("Hermit", &h.dialogue, &mut h.dialogue_index, &mut k, 9);
    assert_eq!(t, "Hermit: \"two\"");
    assert_eq!(h.dialogue_index, 0);
}

fn offer(item: ItemType, cost: ItemType, n: u32) -> TradeOffer {
    TradeOffer { item_for_sale: item, cost_item: cost, cost_count: n, sold: false }
}

#[test]
fn buying_pays_and_sells_once() {
    let mut trader = Trader { offers: vec![offer(ItemType::WheatSeed, ItemType::Stone, 3)], despawn_day: 5 };
    let mut inv = Inventory::default();
    let mut k = Knowledge::default();
    assert!(!buy_offer(&mut trader, 0, &mut inv, &mut k, 1));
    inv.add_item(ItemType::Stone, 10);
    assert!(buy_offer(&mut trader, 0, &mut inv, &mut k, 1));
    assert_eq!(inv.count_items(ItemType::Stone), 7);
    assert_eq!(inv.count_items(ItemType::WheatSeed), 1);
    assert!(trader.offers[0].sold);
    assert_eq!(k.player_affinity, 10);
    assert!(!buy_offer(&mut trader, 0, &mut inv, &mut k, 2));
    assert!(!buy_offer(&mut trader, 5, &mut inv, &mut k, 2));
    assert_eq!(inv.count_items(ItemType::Stone), 7);
    assert!(trader.has_departed(5));
    assert!(!trader.has_departed(4));
}

#[test]
fn trade_menu_navigation() {
    let mut trader = Trader {
        offers: vec![offer(ItemType::WheatSeed, ItemType::Stone, 1), offer(ItemType::Rope, ItemType::Stone, 1)],
        despawn_day: 5,
    };
    let mut inv = Inventory::default();
    inv.add_item(ItemType::Stone, 5);
    let mut k = Knowledge::default();
    let mut menu = TradeMenu::default();
    // Closed: nothing happens.
    assert!(!trade_menu_step(&mut menu, &mut trader, &mut inv, &mut k, false, true, false, true, 0));
    menu.is_open = true;
    assert!(trade_menu_step(&mut menu, &mut trader, &mut inv, &mut k, false, true, false, true, 0));
    assert_eq!(menu.selected_offer, 1);
    assert_eq!(inv.count_items(ItemType::Rope), 1);
    assert!(!trade_menu_step(&mut menu, &mut trader, &mut inv, &mut k, false, false, true, false, 0));
    assert!(!menu.is_open);
}

#[test]
fn traders_come_and_go() {
    let mut rng = rand::thread_rng();
    let mut counts = std::collections::HashSet::new();
    for _ in 0..100 {
        let offers = generate_offers(&mut rng);
        assert!(offers.len() >= 3 && offers.len() <= 5);
        assert!(offers.iter().all(|o| !o.sold));
        counts.insert(offers.len());
    }
    assert!(counts.len() >= 2);
    let mut st = TraderSpawnState { last_spawn_day: 0, next_interval: 0 };
    assert!(!trader_due(&mut st, &mut rng, false, 2));
    assert!(st.next_interval >= 3 && st.next_interval <= 5);
    assert!(trader_due(&mut st, &mut rng, false, 5));
    assert!(!trader_due(&mut st, &mut rng, true, 50));
    let t = trader_arrives(&mut st, &mut rng, 10);
    assert_eq!(t.despawn_day, 12);
    assert_eq!(st.last_spawn_day, 10);
}

#[test]
fn lore_journal() {
    let mut reg = LoreRegistry::new();
    assert_eq!(reg.total_entries as usize, BASE_LORE_COUNT + EXPANSION_LORE_COUNT);
    assert_eq!(reg.expansion_entries.len(), EXPANSION_LORE_COUNT);
    assert!(!reg.is_complete());
    let mut inv = Inventory::default();
    let mut rng = rand::thread_rng();
    // Not holding a page: nothing happens.
    assert_eq!(read_journal_page(&mut reg, &mut inv, &mut rng), None);
    inv.add_item(ItemType::JournalPage, 25);
    let mut seen = std::collections::HashSet::new();
    for _ in 0..BASE_LORE_COUNT {
        let r = read_journal_page(&mut reg, &mut inv, &mut rng).unwrap().unwrap();
        assert!(seen.insert(r));
    }
    assert!(!reg.is_complete());
    assert_eq!(read_journal_page(&mut reg, &mut inv, &mut rng), Some(None));
    assert_eq!(inv.count_items(ItemType::JournalPage), 25 - BASE_LORE_COUNT as u32 - 1);
    let ids: Vec<&'static str> = reg.expansion_entries.iter().map(|e| e.0).collect();
    for id in ids {
        assert!(reg.unlock_expansion(id).is_some());
    }
    assert!(reg.is_complete());
}

#[test]
fn expansion_lore_unlocks_once() {
    let mut reg = LoreRegistry::new();
    assert!(reg.get_expansion_text("biome_forest").unwrap().starts_with("The Forest of Whispers"));
    assert!(!reg.is_expansion_unlocked("biome_forest"));
    let t = reg.unlock_expansion("biome_forest").unwrap();
    assert!(t.starts_with("The Forest of Whispers"));
    assert!(reg.is_expansion_unlocked("biome_forest"));
    assert_eq!(reg.unlock_expansion("biome_forest"), None);
    assert_eq!(reg.unlock_expansion("no_such_entry"), None);
    assert_eq!(reg.get_expansion_text("no_such_entry"), None);
}

#[test]
fn experiments() {
    assert_eq!(find_hidden_recipe(ItemType::Berry, ItemType::MushroomCap), Some(ItemType::HealthPotion));
    assert_eq!(find_hidden_recipe(ItemType::MushroomCap, ItemType::Berry), Some(ItemType::HealthPotion));
    assert_eq!(find_hidden_recipe(ItemType::Wood, ItemType::Berry), None);
    let mut slots = ExperimentSlots::default();
    let mut inv = Inventory::default();
    assert_eq!(attempt_combination(&mut slots, &mut inv), ExperimentOutcome::SlotsIncomplete);
    slots.is_open = true;
    assign_experiment_slot(&mut slots, Some(ItemType::Berry), true, false);
    assign_experiment_slot(&mut slots, Some(ItemType::MushroomCap), false, true);
    assert_eq!(attempt_combination(&mut slots, &mut inv), ExperimentOutcome::ItemsMissing);
    inv.add_item(ItemType::Berry, 2);
    inv.add_item(ItemType::MushroomCap, 1);
    assert_eq!(attempt_combination(&mut slots, &mut inv), ExperimentOutcome::Discovered(ItemType::HealthPotion));
    assert_eq!(inv.count_items(ItemType::HealthPotion), 1);
    assert_eq!(inv.count_items(ItemType::Berry), 1);
    assert_eq!(slots.slot_a, None);
    assert_eq!(ExperimentOutcome::Discovered(ItemType::HealthPotion).message(), "Discovery! You created: Health Potion!");
    assign_experiment_slot(&mut slots, Some(ItemType::Berry), true, false);
    inv.add_item(ItemType::Wood, 1);
    assign_experiment_slot(&mut slots, Some(ItemType::Wood), false, true);
    assert_eq!(attempt_combination(&mut slots, &mut inv), ExperimentOutcome::NothingHappened);
    assert_eq!(inv.count_items(ItemType::Berry), 0);
    assert_eq!(ExperimentOutcome::NothingHappened.message(), "Nothing happened...");
}

#[test]
fn smelter_turns_ore_and_coal_into_ingots() {
    let mut chest = ChestStorage::new();
    assert!(!smelt_in_chest(&mut chest));
    chest.slots[0] = Some(InventorySlot { item: ItemType::IronOre, count: 2, durability: None });
    assert!(!smelt_in_chest(&mut chest));
    chest.slots[1] = Some(InventorySlot { item: ItemType::Coal, count: 1, durability: None });
    assert!(smelt_in_chest(&mut chest));
    assert_eq!(chest.slots[0].as_ref().unwrap().count, 1);
    assert!(chest.slots[1].is_some());
    assert_eq!(chest.slots[1].as_ref().unwrap().item, ItemType::IronIngot);
    assert!(!smelt_in_chest(&mut chest));
}

#[test]
fn death_drops_everything_and_recovery_returns_it() {
    let mut inv = Inventory::default();
    inv.add_item(ItemType::Wood, 70);
    inv.add_item(ItemType::IronSword, 1);
    let (items, total) = drop_all_items(&mut inv);
    assert_eq!(total, 71);
    assert_eq!(items.len(), 3);
    assert!(inv.slots.iter().all(|s| s.is_none()));
    recover_items(&items, &mut inv);
    assert_eq!(inv.count_items(ItemType::Wood), 70);
    assert_eq!(inv.count_items(ItemType::IronSword), 1);
}

#[test]
fn smelter_uses_the_first_ready_chest_only() {
    let mut a = ChestStorage::new();
    a.slots[0] = Some(InventorySlot { item: ItemType::IronOre, count: 3, durability: None });
    let mut b = ChestStorage::new();
    b.slots[0] = Some(InventorySlot { item: ItemType::IronOre, count: 1, durability: None });
    b.slots[1] = Some(InventorySlot { item: ItemType::Coal, count: 1, durability: None });
    let mut c = ChestStorage::new();
    c.slots[0] = Some(InventorySlot { item: ItemType::IronOre, count: 1, durability: None });
    c.slots[1] = Some(InventorySlot { item: ItemType::Coal, count: 1, durability: None });
    let mut chests = vec![a, b, c];
    assert_eq!(smelter_tick(false, &mut chests), None);
    assert_eq!(smelter_tick(true, &mut chests), Some(1));
    assert_eq!(chests[1].slots[0].as_ref().unwrap().item, ItemType::IronIngot);
    assert_eq!(chests[2].slots[1].as_ref().unwrap().item, ItemType::Coal);
    assert_eq!(chests[0].slots[0].as_ref().unwrap().count, 3);
    assert_eq!(smelter_tick(true, &mut chests), Some(2));
    assert_eq!(smelter_tick(true, &mut chests), None);
}

#[test]
fn offers_follow_the_shuffle_draws() {
    // No swaps: the first three pool entries.
    assert_eq!(offers_for_draws(3, &vec![0, 1, 2]), vec![
        offer(ItemType::WheatSeed, ItemType::Stone, 3),
        offer(ItemType::CarrotSeed, ItemType::Stone, 5),
        offer(ItemType::Blueprint, ItemType::IronIngot, 10),
    ]);
    // Each step swaps with the last position, which carries the previous pick along.
    assert_eq!(offers_for_draws(3, &vec![15, 15, 15]), vec![
        offer(ItemType::PetCollar, ItemType::IronIngot, 5),
        offer(ItemType::WheatSeed, ItemType::Stone, 3),
        offer(ItemType::CarrotSeed, ItemType::Stone, 5),
    ]);
    let five = offers_for_draws(5, &vec![14, 10, 2, 3, 4]);
    assert_eq!(five.len(), 5);
    assert_eq!(five[0], offer(ItemType::FishingRod, ItemType::IronIngot, 3));
    assert_eq!(five[1], offer(ItemType::RiceSeed, ItemType::Reed, 2));
    assert_eq!(five[2], offer(ItemType::Blueprint, ItemType::IronIngot, 10));
}

#[test]
fn lore_entry_by_position() {
    let mut a = LoreRegistry::new();
    assert_eq!(a.uncollected_count(), BASE_LORE_COUNT);
    let a0 = a.add_entry_at(0);
    assert_eq!(a0, "The ancient civilization called themselves the Aethari. They built their first city on the mountain known today as the Pale Crown.");
    assert_eq!(a.uncollected_count(), BASE_LORE_COUNT - 1);
    let a1 = a.add_entry_at(0);
    let mut b = LoreRegistry::new();
    let b1 = b.add_entry_at(1);
    let b0 = b.add_entry_at(0);
    assert_eq!(a1, b1);
    assert_eq!(a0, b0);
    assert_ne!(a0, a1);
    assert_eq!(a.collected_entries, vec![a0.clone(), a1.clone()]);
    assert_eq!(b.collected_entries, vec![b1, b0]);
}

#[test]
fn journal_page_by_position() {
    let mut reg = LoreRegistry::new();
    let mut inv = Inventory::default();
    assert_eq!(read_journal_page_at(&mut reg, &mut inv, 0), None);
    inv.add_item(ItemType::JournalPage, 2);
    let first = read_journal_page_at(&mut reg, &mut inv, 0).unwrap().unwrap();
    assert!(first.starts_with("The ancient civilization called themselves the Aethari."));
    assert_eq!(inv.count_items(ItemType::JournalPage), 1);
    assert_eq!(reg.collected_entries, vec![first]);
}
