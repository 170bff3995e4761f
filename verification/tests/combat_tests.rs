use driftlands::items::ItemType;
use driftlands::inventory::{Inventory, InventorySlot};
use driftlands::world::Biome;
use driftlands::building::BuildingType;
use driftlands::death::DeathStats;
use driftlands::combat::{
    EnemyType, EnemyState, boss_for_biome, elite_for_biome, loot_for_enemy, base_spawn_cap,
    blocks_enemies, grant_loot, ComboCallout, combo_hit, WeaponSpecialState, WeaponSpecial,
    BowShot, try_fire_bow, reward_kill, reward_boss_kill, EnemySenses, EnemyMove, enemy_step,
    night_spawn_cap, night_spawn_roll_hits, night_spawn_type,
};

#[test]
fn enemy_tables() {
    assert_eq!(EnemyType::FeralWolf.stats(), (40, 8, 100, 180));
    assert_eq!(EnemyType::MagmaKing.stats(), (300, 20, 20, 200));
    assert_eq!(EnemyType::ShadowCrawler.display_name(), "Shadow Crawler");
    assert_eq!(EnemyType::for_biome(Biome::Forest), EnemyType::FeralWolf);
    assert_eq!(EnemyType::for_biome(Biome::CrystalCave), EnemyType::CaveSpider);
    assert_eq!(boss_for_biome(Biome::Coastal), EnemyType::TidalSerpent);
    assert_eq!(elite_for_biome(Biome::Volcanic), EnemyType::MagmaGolem);
    assert_eq!(loot_for_enemy(EnemyType::FeralWolf), (ItemType::Wood, 2));
    assert_eq!(loot_for_enemy(EnemyType::StoneGolem), (ItemType::Stone, 2));
}

#[test]
fn bosses_differ_between_biomes() {
    let biomes = [Biome::Forest, Biome::Coastal, Biome::Swamp, Biome::Desert, Biome::Tundra,
        Biome::Volcanic, Biome::Fungal, Biome::CrystalCave, Biome::Mountain];
    for a in biomes.iter() {
        for b in biomes.iter() {
            if a != b {
                assert_ne!(boss_for_biome(*a), boss_for_biome(*b));
            }
        }
    }
}

#[test]
fn spawn_caps() {
    assert_eq!(base_spawn_cap(0), 5);
    assert_eq!(base_spawn_cap(12), 7);
    assert_eq!(base_spawn_cap(1000), 20);
    assert_eq!(night_spawn_cap(0, 0), 5);
    // 5 * 1.05 = 5.25, rounded up.
    assert_eq!(night_spawn_cap(0, 1), 6);
    assert_eq!(night_spawn_cap(100, 4), 24);
    assert!(night_spawn_roll_hits(0, 9));
    assert!(!night_spawn_roll_hits(0, 10));
    assert!(night_spawn_roll_hits(50, 29));
    assert!(!night_spawn_roll_hits(50, 30));
}

#[test]
fn night_spawn_types() {
    assert_eq!(night_spawn_type(Biome::Forest, 0, 100, 999), EnemyType::NightBat);
    assert_eq!(night_spawn_type(Biome::Forest, 0, 500, 49), EnemyType::AlphaWolf);
    assert_eq!(night_spawn_type(Biome::Forest, 0, 500, 50), EnemyType::FeralWolf);
    assert_eq!(night_spawn_type(Biome::Forest, 40, 500, 149), EnemyType::AlphaWolf);
}

#[test]
fn walls_and_closed_doors_block() {
    assert!(blocks_enemies(BuildingType::StoneWall, None));
    assert!(blocks_enemies(BuildingType::WoodDoor, Some(false)));
    assert!(!blocks_enemies(BuildingType::WoodDoor, Some(true)));
    assert!(blocks_enemies(BuildingType::MetalDoor, None));
    assert!(!blocks_enemies(BuildingType::WoodFloor, None));
}

#[test]
fn combos_every_third_hit() {
    assert_eq!(combo_hit(0), (1, ComboCallout::NoCallout));
    assert_eq!(combo_hit(1), (2, ComboCallout::Double));
    assert_eq!(combo_hit(2), (0, ComboCallout::Combo(3)));
    let mut c = 0;
    let mut combos = 0;
    for _ in 0..9 {
        let (n, call) = combo_hit(c);
        if let ComboCallout::Combo(_) = call {
            combos += 1;
        }
        c = n;
    }
    assert_eq!(combos, 3);
}

#[test]
fn weapon_specials() {
    let mut s = WeaponSpecialState::default();
    for i in 1..=10 {
        let sp = s.register_hit(ItemType::FlameBlade, 1);
        if i % 5 == 0 {
            assert_eq!(sp, WeaponSpecial::FireBurst);
        } else {
            assert_eq!(sp, WeaponSpecial::NoSpecial);
        }
    }
    assert_eq!(s.register_hit(ItemType::FrostBlade, 1), WeaponSpecial::NoSpecial);
    assert_eq!(s.register_hit(ItemType::FrostBlade, 1), WeaponSpecial::NoSpecial);
    assert_eq!(s.register_hit(ItemType::FrostBlade, 1), WeaponSpecial::ShatterCheck);
    assert_eq!(s.register_hit(ItemType::VenomBlade, 7), WeaponSpecial::VenomStack(1));
    assert_eq!(s.register_hit(ItemType::VenomBlade, 7), WeaponSpecial::VenomStack(2));
    assert_eq!(s.register_hit(ItemType::VenomBlade, 8), WeaponSpecial::VenomStack(1));
    assert_eq!(s.register_hit(ItemType::LifestealBlade, 8), WeaponSpecial::LifeDrainCheck);
    assert_eq!(s.register_hit(ItemType::Wood, 8), WeaponSpecial::NoSpecial);
}

#[test]
fn bow_needs_arrows() {
    let mut inv = Inventory::default();
    assert_eq!(try_fire_bow(&mut inv), BowShot::NotBow);
    inv.slots[0] = Some(InventorySlot { item: ItemType::WoodBow, count: 1, durability: None });
    assert_eq!(try_fire_bow(&mut inv), BowShot::NoArrows);
    inv.add_item(ItemType::Arrow, 2);
    assert_eq!(try_fire_bow(&mut inv), BowShot::Fired);
    assert_eq!(inv.count_items(ItemType::Arrow), 1);
    assert_eq!(try_fire_bow(&mut inv), BowShot::Fired);
    assert_eq!(try_fire_bow(&mut inv), BowShot::NoArrows);
}

#[test]
fn kills_pay_loot_and_points() {
    let mut inv = Inventory::default();
    let mut stats = DeathStats::default();
    assert_eq!(reward_kill(EnemyType::IceWraith, &mut inv, &mut stats), 5);
    assert_eq!(inv.count_items(ItemType::IceShard), 2);
    assert_eq!(stats.total_kills, 1);
    let loot = vec![(ItemType::AncientCore, 1), (ItemType::Gemstone, 1)];
    assert_eq!(reward_boss_kill(&loot, &mut inv, &mut stats), 20);
    assert_eq!(inv.count_items(ItemType::AncientCore), 1);
    assert_eq!(stats.total_kills, 2);
    grant_loot(&vec![(ItemType::Gemstone, 2)], &mut inv);
    assert_eq!(inv.count_items(ItemType::Gemstone), 3);
}

fn senses() -> EnemySenses {
    EnemySenses {
        player_detected: false,
        player_escaped: false,
        player_in_reach: false,
        alert_over: false,
        patrol_over: false,
        boss_silent: false,
    }
}

#[test]
fn enemy_state_machine() {
    let s = enemy_step(EnemyState::Idle, senses());
    assert_eq!(s.state, EnemyState::Patrol);
    assert!(s.new_heading);
    let seen = EnemySenses { player_detected: true, boss_silent: true, ..senses() };
    let s = enemy_step(EnemyState::Patrol, seen);
    assert_eq!(s.state, EnemyState::Alert);
    assert!(s.start_alert && s.roar);
    let s = enemy_step(EnemyState::Alert, EnemySenses { alert_over: true, ..senses() });
    assert_eq!(s.state, EnemyState::Chase);
    let s = enemy_step(EnemyState::Chase, senses());
    assert_eq!((s.state, s.movement), (EnemyState::Chase, EnemyMove::Chase));
    let s = enemy_step(EnemyState::Chase, EnemySenses { player_in_reach: true, ..senses() });
    assert_eq!(s.state, EnemyState::Attack);
    let s = enemy_step(EnemyState::Attack, senses());
    assert_eq!(s.state, EnemyState::Chase);
    assert!(s.rearm_attack);
    let s = enemy_step(EnemyState::Chase, EnemySenses { player_escaped: true, player_in_reach: true, ..senses() });
    assert_eq!(s.state, EnemyState::Patrol);
}
