use driftlands::items::ItemType;
use driftlands::world::Biome;
use driftlands::combat::EnemyType;

use driftlands::dungeon::{
    DungeonRegistry, should_spawn_entrance, dungeon_anchor_y, dungeon_enemy_for_biome, boss_loot_table,
    dungeon_boss, loot_entry_for_roll, dungeon_loot_table, cave_spider_drop_with_rolls,
    cave_spider_random_drop, enemy_room, plan_dungeon, plan_from_rolls, room_wall_tiles, corridor_tiles,
};
use driftlands::enchanting::{
    StatusEffectType, weapon_on_hit_effect, weapon_lifesteal_fraction, enemy_on_hit_effect,
    weapon_hit_status_with_roll, enemy_hit_status_with_roll, weapon_hit_status, enemy_hit_status,
};

#[test]
fn registry_hands_out_fresh_ids() {
    let mut r = DungeonRegistry::default();
    assert_eq!(r.allocate_id(), 0);
    assert_eq!(r.allocate_id(), 1);
    assert_eq!(r.allocate_id(), 2);
    assert_eq!(r.next_id, 3);
    assert!(r.enter(1));
    assert!(!r.enter(2));
    assert_eq!(r.current_dungeon, Some(1));
    assert_eq!(r.leave(), Some(1));
    assert_eq!(r.leave(), None);
}

#[test]
fn entrances_and_anchors() {
    assert!(should_spawn_entrance(300));
    assert!(!should_spawn_entrance(301));
    assert_eq!(dungeon_anchor_y(0), -10_000);
    assert_eq!(dungeon_anchor_y(3), -16_000);
}

#[test]
fn dungeon_inhabitants() {
    assert_eq!(dungeon_enemy_for_biome(Biome::Tundra), EnemyType::IceWraith);
    assert_eq!(dungeon_enemy_for_biome(Biome::Mountain), EnemyType::CaveSpider);
    assert_eq!(boss_loot_table(EnemyType::TidalSerpent), vec![(ItemType::AncientCore, 1),
        (ItemType::Gemstone, 1), (ItemType::Blueprint, 1), (ItemType::CoralEssence, 1)]);
    assert_eq!(boss_loot_table(EnemyType::StoneGolem), vec![(ItemType::AncientCore, 1),
        (ItemType::Gemstone, 1), (ItemType::Blueprint, 1)]);
    let (boss, loot) = dungeon_boss(Biome::Forest);
    assert_eq!(boss, EnemyType::ForestGuardian);
    assert_eq!(loot[3], (ItemType::GuardianHeart, 1));
}

#[test]
fn chest_table_by_roll() {
    assert_eq!(loot_entry_for_roll(0), (ItemType::IronOre, 2));
    assert_eq!(loot_entry_for_roll(19), (ItemType::IronOre, 2));
    assert_eq!(loot_entry_for_roll(20), (ItemType::CrystalShard, 2));
    assert_eq!(loot_entry_for_roll(54), (ItemType::HealthPotion, 1));
    assert_eq!(loot_entry_for_roll(55), (ItemType::Arrow, 5));
    assert_eq!(loot_entry_for_roll(80), (ItemType::Blueprint, 1));
    assert_eq!(loot_entry_for_roll(99), (ItemType::JournalPage, 1));
}

#[test]
fn random_chest_loot() {
    let mut rng = rand::thread_rng();
    let mut lengths = std::collections::HashSet::new();
    for _ in 0..200 {
        let loot = dungeon_loot_table(&mut rng);
        assert!(loot.len() >= 2 && loot.len() <= 4);
        lengths.insert(loot.len());
    }
    assert!(lengths.len() >= 2);
}

#[test]
fn cave_spider_drops() {
    assert_eq!(cave_spider_drop_with_rolls(30, 0), None);
    assert_eq!(cave_spider_drop_with_rolls(29, 0), Some((ItemType::CaveSlime, 1)));
    assert_eq!(cave_spider_drop_with_rolls(0, 2), Some((ItemType::Berry, 2)));
    let mut rng = rand::thread_rng();
    let mut some = 0;
    for _ in 0..500 {
        if cave_spider_random_drop(&mut rng).is_some() {
            some += 1;
        }
    }
    assert!(some > 0 && some < 500);
}

#[test]
fn dungeon_plans() {
    let mut rng = rand::thread_rng();
    for _ in 0..50 {
        let p = plan_dungeon(&mut rng);
        assert!((3..=5).contains(&p.num_rooms));
        assert!((6..=10).contains(&p.room_width));
        assert!((5..=8).contains(&p.room_height));
        assert!((3..=8).contains(&p.num_enemies));
        assert_eq!(p.chest_in_room.len(), p.num_rooms - 1);
    }
    assert_eq!(enemy_room(0, 4), 0);
    assert_eq!(enemy_room(4, 4), 1);
    assert_eq!(enemy_room(5, 1), 0);
}

#[test]
fn room_walls_leave_doorways() {
    // A 6x5 room with doors on both sides: 2 rows of 8 plus 2 columns of 5 minus 4 doorway tiles.
    let tiles = room_wall_tiles(6, 5, true, true);
    assert_eq!(tiles.len(), 16 + 10 - 4);
    assert!(tiles.contains(&(-1, -1)));
    assert!(tiles.contains(&(6, 5)));
    assert!(!tiles.contains(&(-1, 1)));
    assert!(!tiles.contains(&(-1, 2)));
    assert!(tiles.contains(&(-1, 3)));
    assert!(!tiles.contains(&(6, 2)));
    let closed = room_wall_tiles(6, 5, false, false);
    assert_eq!(closed.len(), 26);
    assert!(closed.contains(&(-1, 1)));
    let mut sorted = closed.clone();
    sorted.sort();
    sorted.dedup();
    assert_eq!(sorted.len(), closed.len());
    assert_eq!(corridor_tiles(6, 5), vec![(6, 1), (6, 2), (7, 1), (7, 2)]);
}

#[test]
fn enchantments() {
    assert_eq!(weapon_on_hit_effect(ItemType::FlameBlade), Some((StatusEffectType::Burn, 4)));
    assert_eq!(weapon_on_hit_effect(ItemType::LifestealBlade), None);
    assert_eq!(weapon_lifesteal_fraction(ItemType::LifestealBlade), 15);
    assert_eq!(weapon_lifesteal_fraction(ItemType::FlameBlade), 0);
    assert_eq!(enemy_on_hit_effect(EnemyType::IceWraith), Some((StatusEffectType::Freeze, 3, 50)));
    assert_eq!(enemy_on_hit_effect(EnemyType::FeralWolf), None);
    assert_eq!(weapon_hit_status_with_roll(ItemType::FrostBlade, 29), Some((StatusEffectType::Freeze, 3)));
    assert_eq!(weapon_hit_status_with_roll(ItemType::FrostBlade, 30), None);
    assert_eq!(weapon_hit_status_with_roll(ItemType::VenomBlade, 99), Some((StatusEffectType::Poison, 5)));
    assert_eq!(enemy_hit_status_with_roll(EnemyType::LavaElemental, 99), Some((StatusEffectType::Burn, 4)));
    assert_eq!(enemy_hit_status_with_roll(EnemyType::BogLurker, 20), None);
    let mut rng = rand::thread_rng();
    for _ in 0..20 {
        assert_eq!(weapon_hit_status(ItemType::FlameBlade, &mut rng), Some((StatusEffectType::Burn, 4)));
        assert_eq!(enemy_hit_status(EnemyType::FeralWolf, &mut rng), None);
    }
}

#[test]
fn plan_chests_follow_the_rolls() {
    let p = plan_from_rolls(4, 7, 6, 5, &vec![0, 59, 60]);
    assert_eq!(p.num_rooms, 4);
    assert_eq!(p.room_width, 7);
    assert_eq!(p.room_height, 6);
    assert_eq!(p.num_enemies, 5);
    assert_eq!(p.chest_in_room, vec![true, true, false]);
    let q = plan_from_rolls(3, 6, 5, 3, &vec![99, 42]);
    assert_eq!(q.chest_in_room, vec![false, true]);
}
