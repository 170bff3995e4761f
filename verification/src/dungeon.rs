//! Dungeons: entrances with unique ids, the layout of the rooms in tiles,
//! who lives in them, and what their chests and bosses drop.

use vstd::prelude::*;
use rand::rngs::ThreadRng;
use crate::items::ItemType;
use crate::world::Biome;
use crate::combat::{EnemyType, spec_boss_for_biome, boss_for_biome};
use crate::rng::gen_range_usize;

verus! {

broadcast use vstd::seq_lib::lemma_seq_contains_after_push;

// ---------------------------------------------------------------------------
// Registry
// ---------------------------------------------------------------------------

/// Hands out dungeon ids and remembers which dungeon the player is in.
pub struct DungeonRegistry {
    pub next_id: u32,
    /// The dungeon the player is inside, if any.
    pub current_dungeon: Option<u32>,
}

impl Default for DungeonRegistry {
    fn default() -> (r: Self)
        ensures
            r.next_id == 0,
            r.current_dungeon is None,
    {
        DungeonRegistry { next_id: 0, current_dungeon: None }
    }
}

impl DungeonRegistry {
    /// Hands out the next id; ids are never reused.
    pub fn allocate_id(&mut self) -> (id: u32)
        requires
            old(self).next_id < u32::MAX,
        ensures
            (*final(self), id) == spec_allocate(*old(self)),
    {
        let id = self.next_id;
        self.next_id = self.next_id + 1;
        id
    }

    /// The player steps into an entrance: only from the surface.
    pub fn enter(&mut self, id: u32) -> (entered: bool)
        ensures
            entered == (old(self).current_dungeon is None),
            final(self).current_dungeon == if entered { Some(id) } else { old(self).current_dungeon },
            final(self).next_id == old(self).next_id,
    {
        if self.current_dungeon.is_some() {
            return false;
        }
        self.current_dungeon = Some(id);
        true
    }

    /// The player steps through the exit portal: back on the surface.
    pub fn leave(&mut self) -> (left: Option<u32>)
        ensures
            left == old(self).current_dungeon,
            final(self).current_dungeon is None,
            final(self).next_id == old(self).next_id,
    {
        let left = self.current_dungeon;
        self.current_dungeon = None;
        left
    }
}

/// The registry after handing out an id, and the id handed out.
pub open spec fn spec_allocate(r: DungeonRegistry) -> (DungeonRegistry, u32) {
    (DungeonRegistry { next_id: (r.next_id + 1) as u32, current_dungeon: r.current_dungeon }, r.next_id)
}

/// The registry after `k` ids were handed out one after another, and those
/// ids in order.
pub open spec fn allocate_n(r: DungeonRegistry, k: nat) -> (DungeonRegistry, Seq<u32>)
    decreases k,
{
    if k == 0 {
        (r, seq![])
    } else {
        let (r1, ids) = allocate_n(r, (k - 1) as nat);
        let (r2, id) = spec_allocate(r1);
        (r2, ids.push(id))
    }
}

/// Ids handed out one after another are all different: `k` allocations
/// from a registry at `n` give `n, n + 1, ..., n + k - 1` and leave the
/// registry at `n + k`, with the current dungeon untouched.
pub proof fn law_ids_unique(r: DungeonRegistry, k: nat)
    requires
        r.next_id + k <= u32::MAX,
    ensures
        allocate_n(r, k).1.len() == k,
        forall|i: int| 0 <= i < k ==> #[trigger] allocate_n(r, k).1[i] == r.next_id + i,
        allocate_n(r, k).0.next_id == r.next_id + k,
        allocate_n(r, k).0.current_dungeon == r.current_dungeon,
    decreases k,
{
    if k > 0 {
        law_ids_unique(r, (k - 1) as nat);
        let (r1, ids) = allocate_n(r, (k - 1) as nat);
        assert forall|i: int| 0 <= i < k implies #[trigger] allocate_n(r, k).1[i] == r.next_id + i by {
            if i < k - 1 {
                assert(allocate_n(r, k).1[i] == ids[i]);
            }
        }
    }
}

/// Whether a surface tile gets a dungeon entrance, from its position hash:
/// one tile in a hundred does.
pub fn should_spawn_entrance(position_hash: u32) -> (b: bool)
    ensures
        b == (position_hash % 100 == 0),
{
    position_hash % 100 == 0
}

/// The y coordinate of a dungeon's anchor: dungeons hang 2000 units apart
/// below y = -10000, so their rooms never overlap.
pub fn dungeon_anchor_y(dungeon_id: u32) -> (y: i64)
    ensures
        y == -10000 - 2000 * dungeon_id,
{
    -10000i64 - 2000i64 * (dungeon_id as i64)
}

// ---------------------------------------------------------------------------
// Inhabitants and loot
// ---------------------------------------------------------------------------

/// The rank-and-file enemy of a biome's dungeons.
pub open spec fn spec_dungeon_enemy_for_biome(biome: Biome) -> EnemyType {
    match biome {
        Biome::Tundra => EnemyType::IceWraith,
        Biome::Volcanic => EnemyType::LavaElemental,
        Biome::Fungal => EnemyType::FungalZombie,
        Biome::Swamp => EnemyType::BogLurker,
        _ => EnemyType::CaveSpider,
    }
}

/// Returns the enemy type to spawn in dungeon rooms for a given biome.
pub fn dungeon_enemy_for_biome(biome: Biome) -> (e: EnemyType)
    ensures
        e == spec_dungeon_enemy_for_biome(biome),
{
    match biome {
        Biome::Tundra => EnemyType::IceWraith,
        Biome::Volcanic => EnemyType::LavaElemental,
        Biome::Fungal => EnemyType::FungalZombie,
        Biome::Swamp => EnemyType::BogLurker,
        _ => EnemyType::CaveSpider,
    }
}

/// The unique drop of a boss, if it has one.
pub open spec fn spec_boss_unique_drop(boss: EnemyType) -> Option<ItemType> {
    match boss {
        EnemyType::ForestGuardian => Some(ItemType::GuardianHeart),
        EnemyType::SwampBeast => Some(ItemType::SwampEssence),
        EnemyType::DesertWyrm => Some(ItemType::WyrmScale),
        EnemyType::FrostGiant => Some(ItemType::FrostGem),
        EnemyType::MagmaKing => Some(ItemType::MagmaCore),
        EnemyType::FungalOverlord => Some(ItemType::FungalSporeEssence),
        EnemyType::CrystalSentinel => Some(ItemType::CrystalHeart),
        EnemyType::TidalSerpent => Some(ItemType::CoralEssence),
        EnemyType::MountainTitan => Some(ItemType::TitanBone),
        _ => None,
    }
}

/// A boss's loot: an ancient core, a gemstone and a blueprint, then its
/// unique drop if it has one.
pub open spec fn spec_boss_loot_table(boss: EnemyType) -> Seq<(ItemType, u32)> {
    let common = seq![(ItemType::AncientCore, 1u32), (ItemType::Gemstone, 1u32), (ItemType::Blueprint, 1u32)];
    match spec_boss_unique_drop(boss) {
        Some(item) => common.push((item, 1u32)),
        None => common,
    }
}

fn boss_unique_drop(boss: EnemyType) -> (d: Option<ItemType>)
    ensures
        d == spec_boss_unique_drop(boss),
{
    match boss {
        EnemyType::ForestGuardian => Some(ItemType::GuardianHeart),
        EnemyType::SwampBeast => Some(ItemType::SwampEssence),
        EnemyType::DesertWyrm => Some(ItemType::WyrmScale),
        EnemyType::FrostGiant => Some(ItemType::FrostGem),
        EnemyType::MagmaKing => Some(ItemType::MagmaCore),
        EnemyType::FungalOverlord => Some(ItemType::FungalSporeEssence),
        EnemyType::CrystalSentinel => Some(ItemType::CrystalHeart),
        EnemyType::TidalSerpent => Some(ItemType::CoralEssence),
        EnemyType::MountainTitan => Some(ItemType::TitanBone),
        _ => None,
    }
}

/// The loot table of a dungeon boss.
pub fn boss_loot_table(boss: EnemyType) -> (loot: Vec<(ItemType, u32)>)
    ensures
        loot@ == spec_boss_loot_table(boss),
{
    let mut loot: Vec<(ItemType, u32)> = Vec::new();
    loot.push((ItemType::AncientCore, 1));
    loot.push((ItemType::Gemstone, 1));
    loot.push((ItemType::Blueprint, 1));
    match boss_unique_drop(boss) {
        Some(item) => loot.push((item, 1)),
        None => {},
    }
    proof { assert(loot@ =~= spec_boss_loot_table(boss)); }
    loot
}

/// The boss of a biome's dungeons and its loot table.
pub fn dungeon_boss(biome: Biome) -> (b: (EnemyType, Vec<(ItemType, u32)>))
    ensures
        b.0 == spec_boss_for_biome(biome),
        b.1@ == spec_boss_loot_table(spec_boss_for_biome(biome)),
{
    let boss = boss_for_biome(biome);
    (boss, boss_loot_table(boss))
}

/// Every boss drops an ancient core, a gemstone and a blueprint, and the
/// boss of every biome has a unique drop of its own besides.
pub proof fn law_boss_loot(boss: EnemyType, biome: Biome)
    ensures
        spec_boss_loot_table(boss).len() >= 3,
        spec_boss_loot_table(boss)[0] == (ItemType::AncientCore, 1u32),
        spec_boss_loot_table(boss)[1] == (ItemType::Gemstone, 1u32),
        spec_boss_loot_table(boss)[2] == (ItemType::Blueprint, 1u32),
        spec_boss_unique_drop(spec_boss_for_biome(biome)) is Some,
        spec_boss_loot_table(spec_boss_for_biome(biome)).len() == 4,
{
}

/// The stack a dungeon chest draws for a roll in 0..100, each entry taking
/// a share of the hundred equal to its weight: iron ore 20, crystal shards
/// 20, a health potion 15, arrows 20, a blueprint 10, a journal page 15.
pub open spec fn spec_loot_entry(roll: u32) -> (ItemType, u32) {
    if roll < 20 {
        (ItemType::IronOre, 2)
    } else if roll < 40 {
        (ItemType::CrystalShard, 2)
    } else if roll < 55 {
        (ItemType::HealthPotion, 1)
    } else if roll < 75 {
        (ItemType::Arrow, 5)
    } else if roll < 85 {
        (ItemType::Blueprint, 1)
    } else {
        (ItemType::JournalPage, 1)
    }
}

/// A stack the chest table can give for some roll.
pub open spec fn is_chest_entry(e: (ItemType, u32)) -> bool {
    exists|roll: u32| roll < 100 && e == spec_loot_entry(roll)
}

/// The chest table entry a roll lands on, walking the cumulative weights.
pub fn loot_entry_for_roll(roll: u32) -> (e: (ItemType, u32))
    requires
        roll < 100,
    ensures
        e == spec_loot_entry(roll),
{
    let entries: [(ItemType, u32, u32); 6] = [
        (ItemType::IronOre, 2, 20),
        (ItemType::CrystalShard, 2, 20),
        (ItemType::HealthPotion, 1, 15),
        (ItemType::Arrow, 5, 20),
        (ItemType::Blueprint, 1, 10),
        (ItemType::JournalPage, 1, 15),
    ];
    let mut cumulative: u32 = 0;
    let mut k: usize = 0;
    while k < 6
        invariant
            k <= 6,
            roll < 100,
            entries@ == seq![
                (ItemType::IronOre, 2u32, 20u32),
                (ItemType::CrystalShard, 2u32, 20u32),
                (ItemType::HealthPotion, 1u32, 15u32),
                (ItemType::Arrow, 5u32, 20u32),
                (ItemType::Blueprint, 1u32, 10u32),
                (ItemType::JournalPage, 1u32, 15u32),
            ],
            cumulative == (if k == 0 { 0u32 } else if k == 1 { 20 } else if k == 2 { 40 } else if k == 3 { 55 }
                else if k == 4 { 75 } else if k == 5 { 85 } else { 100 }),
            roll >= cumulative,
        decreases 6 - k,
    {
        let (item, count, weight) = entries[k];
        cumulative = cumulative + weight;
        if roll < cumulative {
            return (item, count);
        }
        k = k + 1;
    }
    (ItemType::JournalPage, 1)
}

/// Opens a dungeon chest: two to four draws from the chest table.
pub fn dungeon_loot_table(rng: &mut ThreadRng) -> (loot: Vec<(ItemType, u32)>)
    ensures
        2 <= loot@.len() <= 4,
        forall|i: int| 0 <= i < loot@.len() ==> is_chest_entry(#[trigger] loot@[i]),
{
    let num_items = gen_range_usize(rng, 2, 5);
    let mut result: Vec<(ItemType, u32)> = Vec::new();
    let mut k: usize = 0;
    while k < num_items
        invariant
            k <= num_items <= 4,
            result@.len() == k,
            forall|i: int| 0 <= i < result@.len() ==> is_chest_entry(#[trigger] result@[i]),
        decreases num_items - k,
    {
        let roll = gen_range_usize(rng, 0, 100) as u32;
        let entry = loot_entry_for_roll(roll);
        proof {
            assert(is_chest_entry(entry));
        }
        result.push(entry);
        k = k + 1;
    }
    result
}

/// The bonus drop of a slain cave spider: with a chance roll under 30 (of
/// 100) one of cave slime, spider silk or two berries, picked by `pick`.
pub open spec fn spec_cave_spider_drop(chance_roll: u32, pick: u32) -> Option<(ItemType, u32)> {
    if chance_roll >= 30 {
        None
    } else if pick == 0 {
        Some((ItemType::CaveSlime, 1))
    } else if pick == 1 {
        Some((ItemType::SpiderSilk, 1))
    } else {
        Some((ItemType::Berry, 2))
    }
}

/// The cave spider's bonus drop for given rolls.
pub fn cave_spider_drop_with_rolls(chance_roll: u32, pick: u32) -> (d: Option<(ItemType, u32)>)
    requires
        pick < 3,
    ensures
        d == spec_cave_spider_drop(chance_roll, pick),
{
    if chance_roll >= 30 {
        return None;
    }
    if pick == 0 {
        Some((ItemType::CaveSlime, 1))
    } else if pick == 1 {
        Some((ItemType::SpiderSilk, 1))
    } else {
        Some((ItemType::Berry, 2))
    }
}

/// Rolls a cave spider's bonus drop (about three kills in ten).
pub fn cave_spider_random_drop(rng: &mut ThreadRng) -> (d: Option<(ItemType, u32)>)
    ensures
        exists|c: u32, p: u32| c < 100 && p < 3 && d == spec_cave_spider_drop(c, p),
{
    let chance_roll = gen_range_usize(rng, 0, 100) as u32;
    if chance_roll >= 30 {
        proof { assert(spec_cave_spider_drop(chance_roll, 0) is None); }
        return None;
    }
    let pick = gen_range_usize(rng, 0, 3) as u32;
    cave_spider_drop_with_rolls(chance_roll, pick)
}

// ---------------------------------------------------------------------------
// Layout
// ---------------------------------------------------------------------------

/// The shape of a generated dungeon.
#[derive(Debug)]
pub struct DungeonPlan {
    /// 3 to 5 rooms in a row, the last one the boss's.
    pub num_rooms: usize,
    /// Room width in tiles, 6 to 10.
    pub room_width: u32,
    /// Room height in tiles, 5 to 8.
    pub room_height: u32,
    /// 3 to 8 enemies spread over the rooms before the boss's.
    pub num_enemies: usize,
    /// For each room before the boss's, whether it holds a chest.
    pub chest_in_room: Vec<bool>,
}

/// How many rooms hold ordinary enemies: all but the boss's, at least one.
pub open spec fn spec_non_boss_rooms(num_rooms: nat) -> nat {
    if num_rooms > 1 { (num_rooms - 1) as nat } else { 1 }
}

/// A plan within the ranges the generator draws from.
pub open spec fn plan_wf(p: DungeonPlan) -> bool {
    &&& 3 <= p.num_rooms <= 5
    &&& 6 <= p.room_width <= 10
    &&& 5 <= p.room_height <= 8
    &&& 3 <= p.num_enemies <= 8
    &&& p.chest_in_room@.len() == spec_non_boss_rooms(p.num_rooms as nat)
}

/// The room the `i`-th enemy is placed in: round-robin over the rooms
/// before the boss's.
pub fn enemy_room(i: usize, num_rooms: usize) -> (r: usize)
    ensures
        r as nat == (i as nat) % spec_non_boss_rooms(num_rooms as nat),
        num_rooms > 1 ==> r < num_rooms - 1,
{
    let non_boss = if num_rooms > 1 { num_rooms - 1 } else { 1 };
    i % non_boss
}

/// Chest rolls out of 100 to chests: a room holds a chest when its roll is
/// below 60, a 60% chance.
pub open spec fn chests_from_rolls(rolls: Seq<usize>) -> Seq<bool> {
    rolls.map_values(|r: usize| r < 60)
}

/// The plan for the drawn values: the sizes as drawn, and a chest in each
/// room whose roll out of 100 is below 60.
pub fn plan_from_rolls(num_rooms: usize, room_width: u32, room_height: u32, num_enemies: usize,
    chest_rolls: &Vec<usize>) -> (p: DungeonPlan)
    ensures
        p.num_rooms == num_rooms,
        p.room_width == room_width,
        p.room_height == room_height,
        p.num_enemies == num_enemies,
        p.chest_in_room@ == chests_from_rolls(chest_rolls@),
{
    let mut chest_in_room: Vec<bool> = Vec::new();
    let mut k: usize = 0;
    while k < chest_rolls.len()
        invariant
            k <= chest_rolls@.len(),
            chest_in_room@ == chests_from_rolls(chest_rolls@.take(k as int)),
        decreases chest_rolls.len() - k,
    {
        chest_in_room.push(chest_rolls[k] < 60);
        proof {
            assert(chest_rolls@.take(k as int + 1) =~= chest_rolls@.take(k as int).push(chest_rolls@[k as int]));
            assert(chest_in_room@ =~= chests_from_rolls(chest_rolls@.take(k as int + 1)));
        }
        k = k + 1;
    }
    proof { assert(chest_rolls@.take(chest_rolls@.len() as int) =~= chest_rolls@); }
    DungeonPlan { num_rooms, room_width, room_height, num_enemies, chest_in_room }
}

/// Draw a dungeon plan: 3 to 5 rooms of 6 to 10 by 5 to 8 tiles, 3 to 8
/// enemies, and for each room before the boss's a roll out of 100 for its
/// chest.
pub fn plan_dungeon(rng: &mut ThreadRng) -> (p: DungeonPlan)
    ensures
        plan_wf(p),
        exists|rolls: Seq<usize>| rolls.len() == spec_non_boss_rooms(p.num_rooms as nat)
            && (forall|k: int| 0 <= k < rolls.len() ==> #[trigger] rolls[k] < 100)
            && p.chest_in_room@ == chests_from_rolls(rolls),
{
    let num_rooms = gen_range_usize(rng, 3, 6);
    let room_width = gen_range_usize(rng, 6, 11) as u32;
    let room_height = gen_range_usize(rng, 5, 9) as u32;
    let num_enemies = gen_range_usize(rng, 3, 9);
    let non_boss = num_rooms - 1;
    let mut rolls: Vec<usize> = Vec::new();
    let mut k: usize = 0;
    while k < non_boss
        invariant
            k <= non_boss,
            rolls@.len() == k,
            forall|m: int| 0 <= m < k ==> #[trigger] rolls@[m] < 100,
        decreases non_boss - k,
    {
        let roll = gen_range_usize(rng, 0, 100);
        rolls.push(roll);
        k = k + 1;
    }
    let p = plan_from_rolls(num_rooms, room_width, room_height, num_enemies, &rolls);
    proof {
        assert(rolls@.len() == spec_non_boss_rooms(p.num_rooms as nat));
    }
    p
}

/// Whether row `y` of a room `h` tiles high is one of the two doorway rows
/// in the middle of its side walls.
pub open spec fn is_doorway_row(y: int, h: int) -> bool {
    y == h / 2 - 1 || y == h / 2
}

/// The wall ring of a room `w` by `h` tiles, in tile coordinates relative to
/// the room's corner: the rows just below and above the floor from one
/// tile left of it to one tile right of it, and the columns just left and
/// right of the floor, with the doorway rows left open on a side that has a
/// door.
pub open spec fn is_wall_tile(t: (i32, i32), w: int, h: int, left_door: bool, right_door: bool) -> bool {
    let x = t.0 as int;
    let y = t.1 as int;
    ||| (y == -1 || y == h) && -1 <= x <= w
    ||| x == -1 && 0 <= y < h && !(left_door && is_doorway_row(y, h))
    ||| x == w && 0 <= y < h && !(right_door && is_doorway_row(y, h))
}

proof fn lemma_push_no_dup(s: Seq<(i32, i32)>, a: (i32, i32))
    requires
        s.no_duplicates(),
        !s.contains(a),
    ensures
        s.push(a).no_duplicates(),
{
    assert forall|i: int, j: int| 0 <= i < s.push(a).len() && 0 <= j < s.push(a).len() && i != j
        implies s.push(a)[i] != s.push(a)[j] by {
        if i == s.len() as int {
            assert(s.contains(s[j]));
        } else if j == s.len() as int {
            assert(s.contains(s[i]));
        }
    }
}

/// The walls of a room close it except at its doors: each side wall is
/// solid over the room's whole height unless that side has a door, and then
/// exactly its two middle rows are open. What one side shows does not depend
/// on whether the other side has a door, and the rows above and below the
/// floor are always solid, corners included.
pub proof fn law_walls_closed_but_doors(w: int, h: int, left_door: bool, right_door: bool)
    requires
        0 <= w < i32::MAX,
        2 <= h < i32::MAX,
    ensures
        forall|y: int| 0 <= y < h ==> (#[trigger] is_wall_tile((-1i32, y as i32), w, h, left_door, right_door)
            <==> !(left_door && (y == h / 2 - 1 || y == h / 2))),
        forall|y: int| 0 <= y < h ==> (#[trigger] is_wall_tile((w as i32, y as i32), w, h, left_door, right_door)
            <==> !(right_door && (y == h / 2 - 1 || y == h / 2))),
        forall|y: int| 0 <= y < h ==> (is_wall_tile((-1i32, y as i32), w, h, left_door, true)
            <==> #[trigger] is_wall_tile((-1i32, y as i32), w, h, left_door, false)),
        forall|y: int| 0 <= y < h ==> (is_wall_tile((w as i32, y as i32), w, h, true, right_door)
            <==> #[trigger] is_wall_tile((w as i32, y as i32), w, h, false, right_door)),
        forall|x: int| -1 <= x <= w ==> #[trigger] is_wall_tile((x as i32, -1i32), w, h, left_door, right_door)
            && is_wall_tile((x as i32, h as i32), w, h, left_door, right_door),
        forall|x: int, y: int| 0 <= x < w && 0 <= y < h ==> !#[trigger] is_wall_tile((x as i32, y as i32), w, h, left_door, right_door),
{
}

/// The wall tiles of a room, each once. The room is at least two tiles
/// high, so that the lower doorway row `height / 2 - 1` exists.
#[verifier::rlimit(40)]
pub fn room_wall_tiles(width: u32, height: u32, left_door: bool, right_door: bool) -> (tiles: Vec<(i32, i32)>)
    requires
        2 <= height,
        width < i32::MAX,
        height < i32::MAX,
    ensures
        tiles@.no_duplicates(),
        forall|t: (i32, i32)| tiles@.contains(t) <==> is_wall_tile(t, width as int, height as int, left_door, right_door),
        !left_door ==> forall|y: i32| 0 <= y < height ==> #[trigger] tiles@.contains((-1i32, y)),
        !right_door ==> forall|y: i32| 0 <= y < height ==> #[trigger] tiles@.contains((width as i32, y)),
        left_door ==> !tiles@.contains((-1i32, (height / 2 - 1) as i32)) && !tiles@.contains((-1i32, (height / 2) as i32)),
        right_door ==> !tiles@.contains((width as i32, (height / 2 - 1) as i32))
            && !tiles@.contains((width as i32, (height / 2) as i32)),
{
    let w: i32 = width as i32;
    let h: i32 = height as i32;
    let door_lo: i32 = h / 2 - 1;
    let door_hi: i32 = h / 2;
    let mut tiles: Vec<(i32, i32)> = Vec::new();
    let mut tx: i32 = -1;
    while tx <= w
        invariant
            w == width, h == height, 2 <= h < i32::MAX, w < i32::MAX,
            -1 <= tx <= w + 1,
            tiles@.no_duplicates(),
            forall|t: (i32, i32)| tiles@.contains(t) <==> ((t.1 == -1 || t.1 == h) && -1 <= t.0 < tx),
        decreases w + 1 - tx,
    {
        proof { lemma_push_no_dup(tiles@, (tx, -1i32)); }
        tiles.push((tx, -1));
        proof { lemma_push_no_dup(tiles@, (tx, h)); }
        tiles.push((tx, h));
        tx = tx + 1;
    }
    let mut ty: i32 = 0;
    while ty < h
        invariant
            w == width, h == height, 2 <= h < i32::MAX, w < i32::MAX,
            door_lo == h / 2 - 1, door_hi == h / 2,
            0 <= ty <= h,
            tiles@.no_duplicates(),
            forall|t: (i32, i32)| tiles@.contains(t) <==> (
                ((t.1 == -1 || t.1 == h) && -1 <= t.0 <= w)
                || (t.0 == -1 && 0 <= t.1 < ty && !(left_door && is_doorway_row(t.1 as int, h as int)))
                || (t.0 == w && 0 <= t.1 < ty && !(right_door && is_doorway_row(t.1 as int, h as int)))),
        decreases h - ty,
    {
        let doorway = ty == door_lo || ty == door_hi;
        if !(doorway && left_door) {
            proof { lemma_push_no_dup(tiles@, (-1i32, ty)); }
            tiles.push((-1, ty));
        }
        if !(doorway && right_door) {
            proof { lemma_push_no_dup(tiles@, (w, ty)); }
            tiles.push((w, ty));
        }
        ty = ty + 1;
    }
    tiles
}

/// The corridor between a room and the next: the two doorway rows of the
/// two-tile gap between them, in the left room's tile coordinates.
pub open spec fn spec_corridor_tiles(w: int, h: int) -> Seq<(int, int)> {
    seq![(w, h / 2 - 1), (w, h / 2), (w + 1, h / 2 - 1), (w + 1, h / 2)]
}

/// The floor tiles that join a room to the next one through their doorways.
pub fn corridor_tiles(room_width: u32, room_height: u32) -> (tiles: Vec<(i32, i32)>)
    requires
        2 <= room_height < i32::MAX,
        room_width < i32::MAX - 1,
    ensures
        tiles@.len() == 4,
        forall|i: int| 0 <= i < 4 ==> (#[trigger] tiles@[i]).0 as int == spec_corridor_tiles(room_width as int, room_height as int)[i].0
            && tiles@[i].1 as int == spec_corridor_tiles(room_width as int, room_height as int)[i].1,
{
    let w: i32 = room_width as i32;
    let h: i32 = room_height as i32;
    let door_lo: i32 = h / 2 - 1;
    let door_hi: i32 = h / 2;
    let mut tiles: Vec<(i32, i32)> = Vec::new();
    tiles.push((w, door_lo));
    tiles.push((w, door_hi));
    tiles.push((w + 1, door_lo));
    tiles.push((w + 1, door_hi));
    tiles
}

/// The corridor fills exactly the doorway gaps: each of its tiles sits where
/// a wall would stand on the right of a room without a right door, or, one
/// room further on (rooms are `w + 2` tiles apart), on the left of a room
/// without a left door; and neither wall stands there once the doors are
/// cut.
pub proof fn law_corridor_fills_doorways(w: int, h: int, i: int, left_door: bool)
    requires
        0 <= w < i32::MAX - 1,
        2 <= h < i32::MAX,
        0 <= i < 4,
    ensures
        ({
            let c = spec_corridor_tiles(w, h)[i];
            let here = (c.0 as i32, c.1 as i32);
            let next = ((c.0 - (w + 2)) as i32, c.1 as i32);
            &&& (i < 2 ==> is_wall_tile(here, w, h, left_door, false) && !is_wall_tile(here, w, h, left_door, true))
            &&& (i >= 2 ==> is_wall_tile(next, w, h, false, false) && !is_wall_tile(next, w, h, true, false))
        }),
{
}

} // verus!
