use driftlands::items::ItemType;
use driftlands::inventory::{Inventory, InventorySlot};
use driftlands::world::{Biome, Season, Weather, DayPhase, biome_display_name, phase_name, BiomeEntry, enter_biome};
use driftlands::farming::{CropType, crop_for_seed, FarmPlot, plant_seed, grow_crop, harvest_crop, holds_hoe};
use driftlands::fishing::{FishType, fish_type_name, rod_tier, pick_fish_with_roll, pick_fish, fishing_catch,
    FishingPhase, FishingEvent, fishing_step};
use driftlands::gathering::{
    WorldObjectType, destroy_sound, meets_tool_requirement, tool_speeds_gathering, selected_tool_tier,
    harvest_drops, is_rare_pickup,
};
use driftlands::audio::{SoundEvent, sound_event_path, ambient_sound, encode_wav};

#[test]
fn biome_and_phase_names() {
    assert_eq!(biome_display_name(Biome::Volcanic), "Volcanic Wastes");
    assert_eq!(biome_display_name(Biome::Mountain), "Mountains");
    assert_eq!(phase_name(DayPhase::Sunrise), "Sunrise");
}

#[test]
fn crops_and_seeds() {
    assert_eq!(CropType::Wheat.seed_item(), ItemType::WheatSeed);
    assert_eq!(crop_for_seed(ItemType::CarrotSeed), Some(CropType::Carrot));
    assert_eq!(crop_for_seed(ItemType::Wood), None);
    for c in [CropType::Wheat, CropType::Pumpkin, CropType::Sugarcane] {
        assert_eq!(crop_for_seed(c.seed_item()), Some(c));
        assert_eq!(c.growth_factor_in(Season::Winter), 0);
        assert!(c.yield_count() >= 1);
    }
}

#[test]
fn plant_grow_harvest() {
    let mut inv = Inventory::default();
    let mut plot = FarmPlot::tilled();
    // Nothing selected: nothing planted.
    assert_eq!(plant_seed(&mut plot, &mut inv), None);
    inv.add_item(ItemType::WheatSeed, 2);
    assert_eq!(plant_seed(&mut plot, &mut inv), Some(CropType::Wheat));
    assert_eq!(inv.count_items(ItemType::WheatSeed), 1);
    // The plot is taken now.
    assert_eq!(plant_seed(&mut plot, &mut inv), None);
    assert_eq!(inv.count_items(ItemType::WheatSeed), 1);
    assert_eq!(harvest_crop(&mut plot, &mut inv), None);
    grow_crop(&mut plot, 600);
    assert!(!plot.is_mature());
    grow_crop(&mut plot, 600);
    assert_eq!(plot.growth, 1000);
    assert!(plot.is_mature());
    let got = harvest_crop(&mut plot, &mut inv);
    let expected = (CropType::Wheat.yield_item(), CropType::Wheat.yield_count());
    assert_eq!(got, Some(expected));
    assert_eq!(inv.count_items(expected.0), expected.1);
    assert_eq!(plot, FarmPlot::tilled());
}

#[test]
fn empty_plots_do_not_grow() {
    let mut plot = FarmPlot::tilled();
    grow_crop(&mut plot, 5000);
    assert_eq!(plot.growth, 0);
}

#[test]
fn hoe_in_hand() {
    let mut inv = Inventory::default();
    assert!(!holds_hoe(&inv));
    inv.slots[0] = Some(InventorySlot { item: ItemType::Hoe, count: 1, durability: Some(75) });
    assert!(holds_hoe(&inv));
}

#[test]
fn fish_tables() {
    assert_eq!(FishType::Eel.raw_item(), ItemType::RawEel);
    assert_eq!(FishType::Trout.rarity_weight(), 30);
    assert!(FishType::Pufferfish.lives_in(Biome::Coastal));
    assert!(!FishType::Pufferfish.lives_in(Biome::Forest));
    assert_eq!(FishType::Salmon.biomes(), vec![Biome::Forest, Biome::Tundra]);
    assert_eq!(fish_type_name(FishType::Crab), "Crab");
    assert_eq!(rod_tier(ItemType::FishingRod), Some(1));
    assert_eq!(rod_tier(ItemType::SteelFishingRod), Some(2));
    assert_eq!(rod_tier(ItemType::Stick), None);
}

#[test]
fn weighted_fish_pick() {
    let pool = vec![FishType::Trout, FishType::Salmon];
    assert_eq!(pick_fish_with_roll(&pool, 0), Some(FishType::Trout));
    assert_eq!(pick_fish_with_roll(&pool, 29), Some(FishType::Trout));
    assert_eq!(pick_fish_with_roll(&pool, 30), Some(FishType::Salmon));
    assert_eq!(pick_fish_with_roll(&pool, 54), Some(FishType::Salmon));
    assert_eq!(pick_fish_with_roll(&Vec::new(), 3), None);
}

#[test]
fn random_fish_bite_where_they_live() {
    let mut seen_salmon = false;
    let mut seen_trout = false;
    for _ in 0..300 {
        let f = pick_fish(Biome::Forest).unwrap();
        assert!(f.lives_in(Biome::Forest));
        seen_salmon |= f == FishType::Salmon;
        seen_trout |= f == FishType::Trout;
    }
    assert!(seen_salmon && seen_trout);
}

#[test]
fn catching_adds_fish_and_wears_rod() {
    let mut inv = Inventory::default();
    inv.slots[0] = Some(InventorySlot { item: ItemType::FishingRod, count: 1, durability: Some(10) });
    fishing_catch(Some(FishType::Eel), &mut inv);
    assert_eq!(inv.count_items(ItemType::RawEel), 1);
    assert_eq!(inv.slots[0].as_ref().unwrap().durability, Some(9));
    fishing_catch(None, &mut inv);
    assert_eq!(inv.count_items(ItemType::RawEel), 1);
    assert_eq!(inv.slots[0].as_ref().unwrap().durability, Some(8));
}

#[test]
fn gathering_rules() {
    assert_eq!(destroy_sound(WorldObjectType::OakTree), SoundEvent::TreeFall);
    assert_eq!(destroy_sound(WorldObjectType::IronVein), SoundEvent::OreMine);
    assert_eq!(destroy_sound(WorldObjectType::Bush), SoundEvent::Gather);
    assert!(meets_tool_requirement(0, 0));
    assert!(!meets_tool_requirement(2, 1));
    assert!(meets_tool_requirement(2, 2));
    assert!(tool_speeds_gathering(2, 3));
    assert!(!tool_speeds_gathering(0, 3));
    assert!(!tool_speeds_gathering(2, 2));
    let mut inv = Inventory::default();
    assert_eq!(selected_tool_tier(&inv), 0);
    inv.add_item(ItemType::StonePickaxe, 1);
    assert_eq!(selected_tool_tier(&inv), 2);
    assert!(is_rare_pickup(ItemType::Gemstone));
    assert!(!is_rare_pickup(ItemType::Wood));
}

#[test]
fn harvest_drop_tables() {
    assert_eq!(harvest_drops(WorldObjectType::PineTree, 0, 0), vec![(ItemType::Wood, 3), (ItemType::Stick, 2)]);
    assert_eq!(harvest_drops(WorldObjectType::AlpineFlower, 119, 0),
        vec![(ItemType::AlpineHerb, 1), (ItemType::RareHerb, 1)]);
    assert_eq!(harvest_drops(WorldObjectType::AlpineFlower, 120, 0), vec![(ItemType::AlpineHerb, 1)]);
    assert_eq!(harvest_drops(WorldObjectType::AncientRuin, 10, 0), vec![(ItemType::AncientCore, 1),
        (ItemType::Gemstone, 1), (ItemType::JournalPage, 1), (ItemType::Blueprint, 1)]);
    assert_eq!(harvest_drops(WorldObjectType::AncientRuin, 20, 0), vec![(ItemType::AncientCore, 1),
        (ItemType::Gemstone, 1), (ItemType::JournalPage, 1)]);
    assert_eq!(harvest_drops(WorldObjectType::AncientRuin, 50, 0), vec![(ItemType::AncientCore, 1),
        (ItemType::Gemstone, 1)]);
    assert_eq!(harvest_drops(WorldObjectType::SupplyCrate, 0, 5), vec![(ItemType::Rope, 2)]);
    assert_eq!(harvest_drops(WorldObjectType::SupplyCrate, 0, 7), vec![(ItemType::Stick, 4)]);
    assert_eq!(harvest_drops(WorldObjectType::AncientMachinery, 5, 0),
        vec![(ItemType::IronOre, 3), (ItemType::Stone, 2), (ItemType::JournalPage, 1)]);
}

#[test]
fn sounds() {
    assert_eq!(sound_event_path(&SoundEvent::Hit), Some("audio/sfx/hit.wav"));
    assert_eq!(sound_event_path(&SoundEvent::MenuClose), Some("audio/sfx/menu_open.wav"));
    assert_eq!(sound_event_path(&SoundEvent::AmbientRain), None);
    assert_eq!(ambient_sound(Weather::Blizzard, DayPhase::Day), SoundEvent::AmbientStorm);
    assert_eq!(ambient_sound(Weather::Fog, DayPhase::Night), SoundEvent::AmbientRain);
    assert_eq!(ambient_sound(Weather::Clear, DayPhase::Night), SoundEvent::AmbientNight);
    assert_eq!(ambient_sound(Weather::Clear, DayPhase::Sunset), SoundEvent::AmbientDay);
}

#[test]
fn wav_header_and_samples() {
    let bytes = encode_wav(&[1, -1, 0x1234]);
    assert_eq!(bytes.len(), 44 + 6);
    assert_eq!(&bytes[0..4], b"RIFF");
    assert_eq!(&bytes[4..8], &(36u32 + 6).to_le_bytes());
    assert_eq!(&bytes[8..16], b"WAVEfmt ");
    assert_eq!(&bytes[16..20], &16u32.to_le_bytes());
    assert_eq!(&bytes[20..24], &[1, 0, 1, 0]);
    assert_eq!(&bytes[24..28], &44100u32.to_le_bytes());
    assert_eq!(&bytes[28..32], &88200u32.to_le_bytes());
    assert_eq!(&bytes[32..36], &[2, 0, 16, 0]);
    assert_eq!(&bytes[36..40], b"data");
    assert_eq!(&bytes[40..44], &6u32.to_le_bytes());
    assert_eq!(&bytes[44..50], &[1, 0, 0xff, 0xff, 0x34, 0x12]);
    assert_eq!(encode_wav(&[]).len(), 44);
}

#[test]
fn fishing_stages() {
    let cast = FishingEvent::Cast { rod: Some(1), near_water: true };
    assert_eq!(fishing_step(FishingPhase::Idle, FishingEvent::Cast { rod: None, near_water: true }), FishingPhase::Idle);
    assert_eq!(fishing_step(FishingPhase::Idle, FishingEvent::Cast { rod: Some(2), near_water: false }), FishingPhase::Idle);
    let p = fishing_step(FishingPhase::Idle, cast);
    assert_eq!(p, FishingPhase::Casting);
    let p = fishing_step(p, FishingEvent::CastLanded);
    assert_eq!(p, FishingPhase::Waiting);
    assert_eq!(fishing_step(p, FishingEvent::Bite { fish: None }), FishingPhase::Idle);
    let p = fishing_step(p, FishingEvent::Bite { fish: Some(FishType::Eel) });
    assert_eq!(p, FishingPhase::Hooked);
    assert_eq!(fishing_step(p, FishingEvent::HookWindowOver), FishingPhase::Idle);
    let p = fishing_step(p, FishingEvent::HookPressed);
    assert_eq!(p, FishingPhase::Reeling);
    assert_eq!(fishing_step(p, FishingEvent::HookPressed), FishingPhase::Reeling);
    let p = fishing_step(p, FishingEvent::ReelFull);
    assert_eq!(p, FishingPhase::Caught);
    assert_eq!(fishing_step(p, FishingEvent::Collected), FishingPhase::Idle);
    // Casting again mid-attempt changes nothing.
    assert_eq!(fishing_step(FishingPhase::Waiting, cast), FishingPhase::Waiting);
}

#[test]
fn growth_in_two_ticks_equals_one() {
    let mut a = FarmPlot { crop: Some(CropType::Corn), growth: 100 };
    let mut b = a;
    grow_crop(&mut a, 300);
    grow_crop(&mut a, 250);
    grow_crop(&mut b, 550);
    assert_eq!(a, b);
    assert_eq!(a.growth, 650);
}

#[test]
fn biomes_are_discovered_once() {
    let mut current = None;
    let mut explored = Vec::new();
    assert_eq!(enter_biome(&mut current, &mut explored, Biome::Forest), BiomeEntry::FirstVisit);
    assert_eq!(enter_biome(&mut current, &mut explored, Biome::Forest), BiomeEntry::Same);
    assert_eq!(enter_biome(&mut current, &mut explored, Biome::Swamp), BiomeEntry::FirstVisit);
    assert_eq!(enter_biome(&mut current, &mut explored, Biome::Forest), BiomeEntry::Returning);
    assert_eq!(explored, vec![Biome::Forest, Biome::Swamp]);
    assert_eq!(current, Some(Biome::Forest));
}
