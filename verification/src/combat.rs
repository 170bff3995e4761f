//! Combat rules: enemy kinds and their stats, which enemies roam each
//! biome, loot, what blocks enemies, hit combos and the specials of
//! enchanted blades.

use vstd::prelude::*;
use crate::items::ItemType;
use crate::world::Biome;
use crate::building::{BuildingType, add_all, lemma_add_all_wf};
use crate::inventory::{Inventory, remove_result};
use crate::death::DeathStats;

verus! {

/// Every kind of enemy.
#[derive(Clone, Copy, Debug, PartialEq, Eq, Structural)]
pub enum EnemyType {
    ShadowCrawler,
    FeralWolf,
    NightBat,
    CaveSpider,
    FungalZombie,
    LavaElemental,
    IceWraith,
    BogLurker,
    SandScorpion,
    AlphaWolf,
    VenomScorpion,
    FrostLich,
    MagmaGolem,
    StoneGolem,
    ForestGuardian,
    SwampBeast,
    DesertWyrm,
    FrostGiant,
    MagmaKing,
    FungalOverlord,
    CrystalSentinel,
    TidalSerpent,
    MountainTitan,
}

impl EnemyType {
    /// Base (health, damage, speed, aggro range) of this enemy kind.
    pub open spec fn spec_stats(self) -> (u32, u32, u32, u32) {
        match self {
            EnemyType::ShadowCrawler => (30, 5, 80, 150),
            EnemyType::FeralWolf => (40, 8, 100, 180),
            EnemyType::NightBat => (18, 4, 130, 140),
            EnemyType::CaveSpider => (20, 4, 120, 120),
            EnemyType::FungalZombie => (50, 6, 40, 100),
            EnemyType::LavaElemental => (60, 12, 50, 130),
            EnemyType::IceWraith => (35, 7, 70, 160),
            EnemyType::BogLurker => (45, 6, 60, 100),
            EnemyType::SandScorpion => (30, 8, 90, 140),
            EnemyType::AlphaWolf => (80, 12, 110, 200),
            EnemyType::VenomScorpion => (60, 14, 95, 160),
            EnemyType::FrostLich => (70, 10, 65, 180),
            EnemyType::MagmaGolem => (120, 16, 30, 150),
            EnemyType::StoneGolem => (200, 15, 30, 200),
            EnemyType::ForestGuardian => (200, 12, 40, 200),
            EnemyType::SwampBeast => (180, 14, 35, 200),
            EnemyType::DesertWyrm => (250, 18, 45, 200),
            EnemyType::FrostGiant => (280, 16, 25, 200),
            EnemyType::MagmaKing => (300, 20, 20, 200),
            EnemyType::FungalOverlord => (160, 10, 50, 200),
            EnemyType::CrystalSentinel => (220, 15, 30, 200),
            EnemyType::TidalSerpent => (240, 16, 35, 200),
            EnemyType::MountainTitan => (260, 17, 25, 200),
        }
    }

    /// Base health, damage, speed and aggro range, in whole units.
    pub fn stats(&self) -> (s: (u32, u32, u32, u32))
        ensures
            s == self.spec_stats(),
    {
        match self {
            EnemyType::ShadowCrawler => (30, 5, 80, 150),
            EnemyType::FeralWolf => (40, 8, 100, 180),
            EnemyType::NightBat => (18, 4, 130, 140),
            EnemyType::CaveSpider => (20, 4, 120, 120),
            EnemyType::FungalZombie => (50, 6, 40, 100),
            EnemyType::LavaElemental => (60, 12, 50, 130),
            EnemyType::IceWraith => (35, 7, 70, 160),
            EnemyType::BogLurker => (45, 6, 60, 100),
            EnemyType::SandScorpion => (30, 8, 90, 140),
            EnemyType::AlphaWolf => (80, 12, 110, 200),
            EnemyType::VenomScorpion => (60, 14, 95, 160),
            EnemyType::FrostLich => (70, 10, 65, 180),
            EnemyType::MagmaGolem => (120, 16, 30, 150),
            EnemyType::StoneGolem => (200, 15, 30, 200),
            EnemyType::ForestGuardian => (200, 12, 40, 200),
            EnemyType::SwampBeast => (180, 14, 35, 200),
            EnemyType::DesertWyrm => (250, 18, 45, 200),
            EnemyType::FrostGiant => (280, 16, 25, 200),
            EnemyType::MagmaKing => (300, 20, 20, 200),
            EnemyType::FungalOverlord => (160, 10, 50, 200),
            EnemyType::CrystalSentinel => (220, 15, 30, 200),
            EnemyType::TidalSerpent => (240, 16, 35, 200),
            EnemyType::MountainTitan => (260, 17, 25, 200),
        }
    }

    /// Human-readable display name for death recap.
    pub open spec fn spec_display_name(self) -> Seq<char> {
        match self {
            EnemyType::ShadowCrawler => "Shadow Crawler"@,
            EnemyType::FeralWolf => "Feral Wolf"@,
            EnemyType::NightBat => "Night Bat"@,
            EnemyType::CaveSpider => "Cave Spider"@,
            EnemyType::FungalZombie => "Fungal Zombie"@,
            EnemyType::LavaElemental => "Lava Elemental"@,
            EnemyType::IceWraith => "Ice Wraith"@,
            EnemyType::BogLurker => "Bog Lurker"@,
            EnemyType::SandScorpion => "Sand Scorpion"@,
            EnemyType::AlphaWolf => "Alpha Wolf"@,
            EnemyType::VenomScorpion => "Venom Scorpion"@,
            EnemyType::FrostLich => "Frost Lich"@,
            EnemyType::MagmaGolem => "Magma Golem"@,
            EnemyType::StoneGolem => "Stone Golem"@,
            EnemyType::ForestGuardian => "Forest Guardian"@,
            EnemyType::SwampBeast => "Swamp Beast"@,
            EnemyType::DesertWyrm => "Desert Wyrm"@,
            EnemyType::FrostGiant => "Frost Giant"@,
            EnemyType::MagmaKing => "Magma King"@,
            EnemyType::FungalOverlord => "Fungal Overlord"@,
            EnemyType::CrystalSentinel => "Crystal Sentinel"@,
            EnemyType::TidalSerpent => "Tidal Serpent"@,
            EnemyType::MountainTitan => "Mountain Titan"@,
        }
    }

    /// Human-readable display name for death recap.
    pub fn display_name(&self) -> (s: &'static str)
        ensures
            s@ == self.spec_display_name(),
    {
        match self {
            EnemyType::ShadowCrawler => "Shadow Crawler",
            EnemyType::FeralWolf => "Feral Wolf",
            EnemyType::NightBat => "Night Bat",
            EnemyType::CaveSpider => "Cave Spider",
            EnemyType::FungalZombie => "Fungal Zombie",
            EnemyType::LavaElemental => "Lava Elemental",
            EnemyType::IceWraith => "Ice Wraith",
            EnemyType::BogLurker => "Bog Lurker",
            EnemyType::SandScorpion => "Sand Scorpion",
            EnemyType::AlphaWolf => "Alpha Wolf",
            EnemyType::VenomScorpion => "Venom Scorpion",
            EnemyType::FrostLich => "Frost Lich",
            EnemyType::MagmaGolem => "Magma Golem",
            EnemyType::StoneGolem => "Stone Golem",
            EnemyType::ForestGuardian => "Forest Guardian",
            EnemyType::SwampBeast => "Swamp Beast",
            EnemyType::DesertWyrm => "Desert Wyrm",
            EnemyType::FrostGiant => "Frost Giant",
            EnemyType::MagmaKing => "Magma King",
            EnemyType::FungalOverlord => "Fungal Overlord",
            EnemyType::CrystalSentinel => "Crystal Sentinel",
            EnemyType::TidalSerpent => "Tidal Serpent",
            EnemyType::MountainTitan => "Mountain Titan",
        }
    }
    /// The regular night enemy of a biome.
    pub open spec fn spec_for_biome(biome: Biome) -> EnemyType {
        match biome {
            Biome::Forest => EnemyType::FeralWolf,
            Biome::Coastal => EnemyType::ShadowCrawler,
            Biome::Swamp => EnemyType::BogLurker,
            Biome::Desert => EnemyType::SandScorpion,
            Biome::Tundra => EnemyType::IceWraith,
            Biome::Volcanic => EnemyType::LavaElemental,
            Biome::Fungal => EnemyType::FungalZombie,
            Biome::CrystalCave => EnemyType::CaveSpider,
            Biome::Mountain => EnemyType::FeralWolf,
        }
    }

    /// The regular night enemy of a biome.
    pub fn for_biome(biome: Biome) -> (e: Self)
        ensures
            e == Self::spec_for_biome(biome),
    {
        match biome {
            Biome::Forest => EnemyType::FeralWolf,
            Biome::Coastal => EnemyType::ShadowCrawler,
            Biome::Swamp => EnemyType::BogLurker,
            Biome::Desert => EnemyType::SandScorpion,
            Biome::Tundra => EnemyType::IceWraith,
            Biome::Volcanic => EnemyType::LavaElemental,
            Biome::Fungal => EnemyType::FungalZombie,
            Biome::CrystalCave => EnemyType::CaveSpider,
            Biome::Mountain => EnemyType::FeralWolf,
        }
    }

    /// Whether this enemy is one of the biome bosses or the dungeon golem.
    pub open spec fn is_boss(self) -> bool {
        match self {
            EnemyType::StoneGolem | EnemyType::ForestGuardian | EnemyType::SwampBeast | EnemyType::DesertWyrm
            | EnemyType::FrostGiant | EnemyType::MagmaKing | EnemyType::FungalOverlord
            | EnemyType::CrystalSentinel | EnemyType::TidalSerpent | EnemyType::MountainTitan => true,
            _ => false,
        }
    }
}

/// The boss enemy type of a biome.
pub open spec fn spec_boss_for_biome(biome: Biome) -> EnemyType {
    match biome {
        Biome::Forest => EnemyType::ForestGuardian,
        Biome::Swamp => EnemyType::SwampBeast,
        Biome::Desert => EnemyType::DesertWyrm,
        Biome::Tundra => EnemyType::FrostGiant,
        Biome::Volcanic => EnemyType::MagmaKing,
        Biome::Fungal => EnemyType::FungalOverlord,
        Biome::CrystalCave => EnemyType::CrystalSentinel,
        Biome::Coastal => EnemyType::TidalSerpent,
        Biome::Mountain => EnemyType::MountainTitan,
    }
}

/// Returns the boss enemy type for a given biome.
pub fn boss_for_biome(biome: Biome) -> (e: EnemyType)
    ensures
        e == spec_boss_for_biome(biome),
{
    match biome {
        Biome::Forest => EnemyType::ForestGuardian,
        Biome::Swamp => EnemyType::SwampBeast,
        Biome::Desert => EnemyType::DesertWyrm,
        Biome::Tundra => EnemyType::FrostGiant,
        Biome::Volcanic => EnemyType::MagmaKing,
        Biome::Fungal => EnemyType::FungalOverlord,
        Biome::CrystalCave => EnemyType::CrystalSentinel,
        Biome::Coastal => EnemyType::TidalSerpent,
        Biome::Mountain => EnemyType::MountainTitan,
    }
}

/// The elite enemy that may roam a biome at night.
pub open spec fn spec_elite_for_biome(biome: Biome) -> EnemyType {
    match biome {
        Biome::Forest | Biome::Mountain => EnemyType::AlphaWolf,
        Biome::Desert | Biome::Coastal => EnemyType::VenomScorpion,
        Biome::Tundra | Biome::CrystalCave => EnemyType::FrostLich,
        Biome::Volcanic => EnemyType::MagmaGolem,
        Biome::Swamp => EnemyType::VenomScorpion,
        Biome::Fungal => EnemyType::FrostLich,
    }
}

/// The elite enemy that may roam a biome at night.
pub fn elite_for_biome(biome: Biome) -> (e: EnemyType)
    ensures
        e == spec_elite_for_biome(biome),
{
    match biome {
        Biome::Forest | Biome::Mountain => EnemyType::AlphaWolf,
        Biome::Desert | Biome::Coastal => EnemyType::VenomScorpion,
        Biome::Tundra | Biome::CrystalCave => EnemyType::FrostLich,
        Biome::Volcanic => EnemyType::MagmaGolem,
        Biome::Swamp => EnemyType::VenomScorpion,
        Biome::Fungal => EnemyType::FrostLich,
    }
}

/// What a slain regular enemy drops.
pub open spec fn spec_loot_for_enemy(enemy_type: EnemyType) -> (ItemType, u32) {
    match enemy_type {
        EnemyType::FeralWolf => (ItemType::Wood, 2),
        EnemyType::ShadowCrawler => (ItemType::PlantFiber, 2),
        EnemyType::NightBat => (ItemType::PlantFiber, 1),
        EnemyType::CaveSpider => (ItemType::CrystalShard, 1),
        EnemyType::FungalZombie => (ItemType::MushroomCap, 2),
        EnemyType::LavaElemental => (ItemType::Sulfur, 2),
        EnemyType::IceWraith => (ItemType::IceShard, 2),
        EnemyType::BogLurker => (ItemType::Reed, 2),
        EnemyType::SandScorpion => (ItemType::CactusFiber, 2),
        EnemyType::AlphaWolf => (ItemType::RareHerb, 2),
        EnemyType::VenomScorpion => (ItemType::Sulfur, 3),
        EnemyType::FrostLich => (ItemType::FrostGem, 1),
        EnemyType::MagmaGolem => (ItemType::ObsidianShard, 3),
        _ => (ItemType::Stone, 2),
    }
}

/// What a slain regular enemy drops.
pub fn loot_for_enemy(enemy_type: EnemyType) -> (l: (ItemType, u32))
    ensures
        l == spec_loot_for_enemy(enemy_type),
{
    match enemy_type {
        EnemyType::FeralWolf => (ItemType::Wood, 2),
        EnemyType::ShadowCrawler => (ItemType::PlantFiber, 2),
        EnemyType::NightBat => (ItemType::PlantFiber, 1),
        EnemyType::CaveSpider => (ItemType::CrystalShard, 1),
        EnemyType::FungalZombie => (ItemType::MushroomCap, 2),
        EnemyType::LavaElemental => (ItemType::Sulfur, 2),
        EnemyType::IceWraith => (ItemType::IceShard, 2),
        EnemyType::BogLurker => (ItemType::Reed, 2),
        EnemyType::SandScorpion => (ItemType::CactusFiber, 2),
        EnemyType::AlphaWolf => (ItemType::RareHerb, 2),
        EnemyType::VenomScorpion => (ItemType::Sulfur, 3),
        EnemyType::FrostLich => (ItemType::FrostGem, 1),
        EnemyType::MagmaGolem => (ItemType::ObsidianShard, 3),
        _ => (ItemType::Stone, 2),
    }
}

/// What an enemy is doing.
#[derive(Clone, Copy, Debug, PartialEq, Eq, Structural)]
pub enum EnemyState {
    Idle,
    Patrol,
    Alert,
    Chase,
    Attack,
}

/// Night spawn cap before death scaling: 5 plus one per five days, at most 20.
pub fn base_spawn_cap(day_count: u32) -> (cap: usize)
    ensures
        cap == if 5 + day_count / 5 <= 20 { 5 + day_count / 5 } else { 20 },
{
    let extra = day_count / 5;
    if extra <= 15 { 5 + extra as usize } else { 20 }
}

/// Whether a building stops enemies: walls and fences always, doors while
/// closed (a door without state counts as closed).
pub open spec fn spec_blocks_enemies(building: BuildingType, door_open: Option<bool>) -> bool {
    match building {
        BuildingType::WoodWall | BuildingType::StoneWall | BuildingType::MetalWall | BuildingType::WoodFence => true,
        BuildingType::WoodDoor | BuildingType::StoneDoor | BuildingType::MetalDoor => match door_open {
            Some(open) => !open,
            None => true,
        },
        _ => false,
    }
}

/// Whether a building stops enemies from walking through it.
pub fn blocks_enemies(building: BuildingType, door_open: Option<bool>) -> (b: bool)
    ensures
        b == spec_blocks_enemies(building, door_open),
{
    match building {
        BuildingType::WoodWall | BuildingType::StoneWall | BuildingType::MetalWall | BuildingType::WoodFence => true,
        BuildingType::WoodDoor | BuildingType::StoneDoor | BuildingType::MetalDoor => match door_open {
            Some(open) => !open,
            None => true,
        },
        _ => false,
    }
}

/// Walls and fences always stop enemies; a door stops them exactly while it
/// is shut (a door whose state is unknown counts as shut); nothing else in
/// a base does.
pub proof fn law_what_stops_enemies(building: BuildingType, door_open: Option<bool>)
    ensures
        (building == BuildingType::WoodWall || building == BuildingType::StoneWall
            || building == BuildingType::MetalWall || building == BuildingType::WoodFence)
            ==> spec_blocks_enemies(building, door_open),
        (building == BuildingType::WoodDoor || building == BuildingType::StoneDoor
            || building == BuildingType::MetalDoor)
            ==> (spec_blocks_enemies(building, door_open) <==> door_open != Some(true)),
        spec_blocks_enemies(building, door_open) ==> (building == BuildingType::WoodWall
            || building == BuildingType::StoneWall || building == BuildingType::MetalWall
            || building == BuildingType::WoodFence || building == BuildingType::WoodDoor
            || building == BuildingType::StoneDoor || building == BuildingType::MetalDoor),
{
}

/// Give the player every stack of a loot table, in order.
pub fn grant_loot(loot: &Vec<(ItemType, u32)>, inventory: &mut Inventory)
    requires
        old(inventory).wf(),
    ensures
        final(inventory).slots@ == add_all(old(inventory).slots@, loot@),
        final(inventory).wf(),
        final(inventory).selected_slot == old(inventory).selected_slot,
{
    let ghost orig = inventory.slots@;
    let mut k: usize = 0;
    while k < loot.len()
        invariant
            k <= loot@.len(),
            inventory.slots@ == add_all(orig, loot@.take(k as int)),
            inventory.wf(),
            inventory.selected_slot == old(inventory).selected_slot,
        decreases loot.len() - k,
    {
        proof {
            assert(loot@.take(k as int + 1).drop_last() =~= loot@.take(k as int));
        }
        let (item, count) = loot[k];
        inventory.add_item(item, count);
        k = k + 1;
    }
    proof {
        assert(loot@.take(loot@.len() as int) =~= loot@);
    }
}

// ---------------------------------------------------------------------------
// Combos
// ---------------------------------------------------------------------------

/// What a melee hit announces.
#[derive(Clone, Copy, Debug, PartialEq, Eq, Structural)]
pub enum ComboCallout {
    /// A first hit, or any hit past the second that does not finish the combo.
    NoCallout,
    /// The second hit in a row: "x2!".
    Double,
    /// The combo finished at this many hits: "xN COMBO!".
    Combo(u32),
}

/// A melee hit lands while `count` hits are already strung together: the
/// third hit announces the combo and starts over, the second announces x2.
pub fn combo_hit(count: u32) -> (res: (u32, ComboCallout))
    requires
        count < u32::MAX,
    ensures
        res == if count + 1 >= 3 {
            (0u32, ComboCallout::Combo((count + 1) as u32))
        } else if count + 1 == 2 {
            (2u32, ComboCallout::Double)
        } else {
            ((count + 1) as u32, ComboCallout::NoCallout)
        },
{
    let c = count + 1;
    if c >= 3 {
        (0, ComboCallout::Combo(c))
    } else if c == 2 {
        (2, ComboCallout::Double)
    } else {
        (c, ComboCallout::NoCallout)
    }
}

/// A counter that goes up by one per hit and starts over at zero when it
/// reaches `period`, after `n` hits from zero.
pub open spec fn counter_after(n: nat, period: nat) -> nat
    decreases n,
{
    if n == 0 { 0 } else { let c = counter_after((n - 1) as nat, period) + 1; if c >= period { 0 } else { c } }
}

proof fn lemma_counter_mod(n: nat, period: nat)
    requires
        period >= 1,
    ensures
        counter_after(n, period) == n % period,
    decreases n,
{
    if n > 0 {
        lemma_counter_mod((n - 1) as nat, period);
        let p = (n - 1) as nat;
        assert(p % period < period) by (nonlinear_arith) requires period >= 1;
        if p % period + 1 >= period {
            assert(n % period == 0) by (nonlinear_arith)
                requires p % period + 1 >= period, p % period < period, n == p + 1, period >= 1;
        } else {
            assert(n % period == p % period + 1) by (nonlinear_arith)
                requires p % period + 1 < period, n == p + 1, period >= 1;
        }
    } else {
        assert(n % period == 0) by (nonlinear_arith) requires n == 0, period >= 1;
    }
}

/// Starting from no combo, every third hit in a row announces a combo of
/// three and the streak starts over: after `n` hits the streak is `n mod 3`,
/// and the `n`-th hit finishes a combo exactly when `n` is a multiple of 3.
pub proof fn law_combo_every_third(n: nat)
    requires
        n >= 1,
    ensures
        counter_after(n, 3) == n % 3,
        (counter_after((n - 1) as nat, 3) + 1 >= 3) <==> n % 3 == 0,
{
    lemma_counter_mod(n, 3);
    lemma_counter_mod((n - 1) as nat, 3);
}

// ---------------------------------------------------------------------------
// Weapon specials
// ---------------------------------------------------------------------------

/// Hit counters of the enchanted blades; targets are entity bits.
pub struct WeaponSpecialState {
    pub flame_hits: u32,
    pub frost_hits: u32,
    pub venom_consecutive: u32,
    pub venom_last_target: Option<u64>,
}

impl Default for WeaponSpecialState {
    fn default() -> (s: Self)
        ensures
            s.flame_hits == 0,
            s.frost_hits == 0,
            s.venom_consecutive == 0,
            s.venom_last_target is None,
    {
        WeaponSpecialState { flame_hits: 0, frost_hits: 0, venom_consecutive: 0, venom_last_target: None }
    }
}

/// The special a melee hit sets off.
#[derive(Clone, Copy, Debug, PartialEq, Eq, Structural)]
pub enum WeaponSpecial {
    /// Nothing beyond the hit itself.
    NoSpecial,
    /// Every fifth Flame Blade hit: a fire burst around the target.
    FireBurst,
    /// Every third Frost Blade hit: enemies below 15% health shatter.
    ShatterCheck,
    /// Venom Blade: bonus damage of 10% per consecutive hit on one target.
    VenomStack(u32),
    /// Lifesteal Blade: a kill restores health and hunger.
    LifeDrainCheck,
}

impl WeaponSpecialState {
    /// Count a melee hit with `weapon` on `target` and return the special it sets off.
    pub fn register_hit(&mut self, weapon: ItemType, target: u64) -> (special: WeaponSpecial)
        requires
            old(self).flame_hits < u32::MAX,
            old(self).frost_hits < u32::MAX,
            old(self).venom_consecutive < u32::MAX,
        ensures
            match weapon {
                ItemType::FlameBlade => {
                    &&& final(self).flame_hits == if old(self).flame_hits + 1 >= 5 { 0 } else { old(self).flame_hits + 1 }
                    &&& special == if old(self).flame_hits + 1 >= 5 { WeaponSpecial::FireBurst } else { WeaponSpecial::NoSpecial }
                    &&& final(self).frost_hits == old(self).frost_hits
                    &&& final(self).venom_consecutive == old(self).venom_consecutive
                    &&& final(self).venom_last_target == old(self).venom_last_target
                },
                ItemType::FrostBlade => {
                    &&& final(self).frost_hits == if old(self).frost_hits + 1 >= 3 { 0 } else { old(self).frost_hits + 1 }
                    &&& special == if old(self).frost_hits + 1 >= 3 { WeaponSpecial::ShatterCheck } else { WeaponSpecial::NoSpecial }
                    &&& final(self).flame_hits == old(self).flame_hits
                    &&& final(self).venom_consecutive == old(self).venom_consecutive
                    &&& final(self).venom_last_target == old(self).venom_last_target
                },
                ItemType::VenomBlade => {
                    &&& final(self).venom_consecutive == if old(self).venom_last_target == Some(target) {
                        old(self).venom_consecutive + 1
                    } else {
                        1
                    }
                    &&& final(self).venom_last_target == Some(target)
                    &&& special == WeaponSpecial::VenomStack(final(self).venom_consecutive)
                    &&& final(self).flame_hits == old(self).flame_hits
                    &&& final(self).frost_hits == old(self).frost_hits
                },
                ItemType::LifestealBlade => {
                    &&& special == WeaponSpecial::LifeDrainCheck
                    &&& final(self).flame_hits == old(self).flame_hits
                    &&& final(self).frost_hits == old(self).frost_hits
                    &&& final(self).venom_consecutive == old(self).venom_consecutive
                    &&& final(self).venom_last_target == old(self).venom_last_target
                },
                _ => {
                    &&& special == WeaponSpecial::NoSpecial
                    &&& final(self).flame_hits == old(self).flame_hits
                    &&& final(self).frost_hits == old(self).frost_hits
                    &&& final(self).venom_consecutive == old(self).venom_consecutive
                    &&& final(self).venom_last_target == old(self).venom_last_target
                },
            },
    {
        match weapon {
            ItemType::FlameBlade => {
                self.flame_hits = self.flame_hits + 1;
                if self.flame_hits >= 5 {
                    self.flame_hits = 0;
                    WeaponSpecial::FireBurst
                } else {
                    WeaponSpecial::NoSpecial
                }
            },
            ItemType::FrostBlade => {
                self.frost_hits = self.frost_hits + 1;
                if self.frost_hits >= 3 {
                    self.frost_hits = 0;
                    WeaponSpecial::ShatterCheck
                } else {
                    WeaponSpecial::NoSpecial
                }
            },
            ItemType::VenomBlade => {
                if self.venom_last_target == Some(target) {
                    self.venom_consecutive = self.venom_consecutive + 1;
                } else {
                    self.venom_consecutive = 1;
                    self.venom_last_target = Some(target);
                }
                WeaponSpecial::VenomStack(self.venom_consecutive)
            },
            ItemType::LifestealBlade => WeaponSpecial::LifeDrainCheck,
            _ => WeaponSpecial::NoSpecial,
        }
    }
}

/// From a fresh counter, the `n`-th Flame Blade hit sets off a fire burst
/// exactly when `n` is a multiple of five.
pub proof fn law_fire_burst_every_fifth(n: nat)
    requires
        n >= 1,
    ensures
        counter_after(n, 5) == n % 5,
        (counter_after((n - 1) as nat, 5) + 1 >= 5) <==> n % 5 == 0,
{
    lemma_counter_mod(n, 5);
    lemma_counter_mod((n - 1) as nat, 5);
}

/// From a fresh counter, the `n`-th Frost Blade hit checks for a shatter
/// exactly when `n` is a multiple of three.
pub proof fn law_shatter_every_third(n: nat)
    requires
        n >= 1,
    ensures
        counter_after(n, 3) == n % 3,
        (counter_after((n - 1) as nat, 3) + 1 >= 3) <==> n % 3 == 0,
{
    lemma_counter_mod(n, 3);
    lemma_counter_mod((n - 1) as nat, 3);
}

/// Each biome has its own boss, no boss roams as a regular night enemy, and
/// no elite is a boss.
pub proof fn law_bosses_distinct(a: Biome, b: Biome)
    ensures
        a != b ==> spec_boss_for_biome(a) != spec_boss_for_biome(b),
        spec_boss_for_biome(a).is_boss(),
        !EnemyType::spec_for_biome(a).is_boss(),
        !spec_elite_for_biome(a).is_boss(),
{
}

// ---------------------------------------------------------------------------
// Attacks and kills
// ---------------------------------------------------------------------------

/// What a click does when the bow may be in hand.
#[derive(Clone, Copy, Debug, PartialEq, Eq, Structural)]
pub enum BowShot {
    /// The selected item is not the bow: attack in melee.
    NotBow,
    /// The bow is in hand but no arrow is left: nothing happens.
    NoArrows,
    /// One arrow was taken and shot.
    Fired,
}

/// A click with the bow in hand shoots an arrow if one is held, taking it
/// from the inventory; any other selection leaves the inventory alone.
pub fn try_fire_bow(inventory: &mut Inventory) -> (shot: BowShot)
    requires
        old(inventory).wf(),
        old(inventory).selected_slot < old(inventory).slots@.len(),
    ensures
        final(inventory).wf(),
        final(inventory).selected_slot == old(inventory).selected_slot,
        ({
            let sel = old(inventory).slots@[old(inventory).selected_slot as int];
            let bow = sel.is_some() && sel.unwrap().item == ItemType::WoodBow;
            &&& (!bow ==> shot == BowShot::NotBow && final(inventory).slots@ == old(inventory).slots@)
            &&& (bow && old(inventory).total(ItemType::Arrow) == 0 ==>
                    shot == BowShot::NoArrows && final(inventory).slots@ == old(inventory).slots@)
            &&& (bow && old(inventory).total(ItemType::Arrow) >= 1 ==>
                    shot == BowShot::Fired
                    && final(inventory).slots@ == remove_result(old(inventory).slots@, ItemType::Arrow, 1)
                    && final(inventory).total(ItemType::Arrow) + 1 == old(inventory).total(ItemType::Arrow)
                    && forall|x: ItemType| x != ItemType::Arrow ==> #[trigger] final(inventory).total(x) == old(inventory).total(x))
        }),
{
    let is_bow = match inventory.selected_item() {
        Some(s) => s.item == ItemType::WoodBow,
        None => false,
    };
    if !is_bow {
        return BowShot::NotBow;
    }
    if !inventory.has_items(ItemType::Arrow, 1) {
        return BowShot::NoArrows;
    }
    inventory.remove_items(ItemType::Arrow, 1);
    BowShot::Fired
}

/// Research points for slaying a regular enemy.
pub const KILL_RESEARCH_POINTS: u32 = 5;

/// Research points for slaying a boss.
pub const BOSS_KILL_RESEARCH_POINTS: u32 = 20;

/// A regular enemy falls: its loot goes into the inventory, the kill is
/// counted, and the research points it is worth are returned.
pub fn reward_kill(enemy_type: EnemyType, inventory: &mut Inventory, stats: &mut DeathStats) -> (points: u32)
    requires
        old(inventory).wf(),
    ensures
        final(inventory).wf(),
        final(inventory).slots@ == add_all(old(inventory).slots@, seq![spec_loot_for_enemy(enemy_type)]),
        final(inventory).selected_slot == old(inventory).selected_slot,
        final(stats).total_kills == if old(stats).total_kills < u32::MAX { old(stats).total_kills + 1 } else { u32::MAX as int },
        points == KILL_RESEARCH_POINTS,
{
    let (item, count) = loot_for_enemy(enemy_type);
    let mut loot: Vec<(ItemType, u32)> = Vec::new();
    loot.push((item, count));
    grant_loot(&loot, inventory);
    stats.total_kills = stats.total_kills.saturating_add(1);
    KILL_RESEARCH_POINTS
}

/// A boss falls: its whole loot table goes into the inventory, the kill is
/// counted, and the research points it is worth are returned.
pub fn reward_boss_kill(loot: &Vec<(ItemType, u32)>, inventory: &mut Inventory, stats: &mut DeathStats) -> (points: u32)
    requires
        old(inventory).wf(),
    ensures
        final(inventory).wf(),
        final(inventory).slots@ == add_all(old(inventory).slots@, loot@),
        final(inventory).selected_slot == old(inventory).selected_slot,
        final(stats).total_kills == if old(stats).total_kills < u32::MAX { old(stats).total_kills + 1 } else { u32::MAX as int },
        points == BOSS_KILL_RESEARCH_POINTS,
{
    grant_loot(loot, inventory);
    stats.total_kills = stats.total_kills.saturating_add(1);
    BOSS_KILL_RESEARCH_POINTS
}

// ---------------------------------------------------------------------------
// Enemy behaviour
// ---------------------------------------------------------------------------

/// What an enemy senses this frame; distances are compared by the caller.
#[derive(Clone, Copy, Debug, PartialEq, Eq, Structural)]
pub struct EnemySenses {
    /// The player is within detection range (halved in fog).
    pub player_detected: bool,
    /// The player is more than 80 units beyond detection range.
    pub player_escaped: bool,
    /// The player is within 24 units: close enough to strike.
    pub player_in_reach: bool,
    /// The alert pause has run out.
    pub alert_over: bool,
    /// The current patrol leg has run out.
    pub patrol_over: bool,
    /// The enemy is a boss that has not roared yet.
    pub boss_silent: bool,
}

/// How an enemy moves this frame.
#[derive(Clone, Copy, Debug, PartialEq, Eq, Structural)]
pub enum EnemyMove {
    Stay,
    /// Along its patrol heading at half speed.
    Patrol,
    /// Straight at the player at full speed.
    Chase,
}

/// What an enemy does this frame.
#[derive(Clone, Copy, Debug, PartialEq, Eq, Structural)]
pub struct EnemyStep {
    pub state: EnemyState,
    pub movement: EnemyMove,
    /// Start the half-second alert pause.
    pub start_alert: bool,
    /// Pick a new random patrol heading and leg length.
    pub new_heading: bool,
    /// The boss roars (once in its life).
    pub roar: bool,
    /// Re-arm the attack cooldown if it has run out.
    pub rearm_attack: bool,
}

/// The enemy state machine: idle and patrolling enemies turn alert when they
/// see the player (a silent boss roars), alert ones give chase once the pause
/// is over, chasers strike when in reach and give up when the player has
/// escaped, and a strike always returns to the chase.
pub open spec fn spec_enemy_step(state: EnemyState, senses: EnemySenses) -> EnemyStep {
    let still = EnemyStep { state, movement: EnemyMove::Stay, start_alert: false, new_heading: false, roar: false, rearm_attack: false };
    let alerted = EnemyStep { state: EnemyState::Alert, start_alert: true, roar: senses.boss_silent, ..still };
    match state {
        EnemyState::Idle =>
            if senses.player_detected { alerted } else { EnemyStep { state: EnemyState::Patrol, new_heading: true, ..still } },
        EnemyState::Patrol =>
            if senses.player_detected { alerted } else { EnemyStep { movement: EnemyMove::Patrol, new_heading: senses.patrol_over, ..still } },
        EnemyState::Alert =>
            if senses.alert_over { EnemyStep { state: EnemyState::Chase, ..still } } else { still },
        EnemyState::Chase =>
            if senses.player_escaped {
                EnemyStep { state: EnemyState::Patrol, new_heading: true, ..still }
            } else if senses.player_in_reach {
                EnemyStep { state: EnemyState::Attack, ..still }
            } else {
                EnemyStep { movement: EnemyMove::Chase, ..still }
            },
        EnemyState::Attack => EnemyStep { state: EnemyState::Chase, rearm_attack: true, ..still },
    }
}

/// One frame of an enemy's behaviour.
pub fn enemy_step(state: EnemyState, senses: EnemySenses) -> (step: EnemyStep)
    ensures
        step == spec_enemy_step(state, senses),
        (step.movement == EnemyMove::Patrol) <==> (state == EnemyState::Patrol && !senses.player_detected),
        (step.movement == EnemyMove::Chase) <==> (state == EnemyState::Chase && !senses.player_escaped
            && !senses.player_in_reach),
{
    let still = EnemyStep { state, movement: EnemyMove::Stay, start_alert: false, new_heading: false, roar: false, rearm_attack: false };
    match state {
        EnemyState::Idle => {
            if senses.player_detected {
                EnemyStep { state: EnemyState::Alert, start_alert: true, roar: senses.boss_silent, ..still }
            } else {
                EnemyStep { state: EnemyState::Patrol, new_heading: true, ..still }
            }
        },
        EnemyState::Patrol => {
            if senses.player_detected {
                EnemyStep { state: EnemyState::Alert, start_alert: true, roar: senses.boss_silent, ..still }
            } else {
                EnemyStep { movement: EnemyMove::Patrol, new_heading: senses.patrol_over, ..still }
            }
        },
        EnemyState::Alert => {
            if senses.alert_over {
                EnemyStep { state: EnemyState::Chase, ..still }
            } else {
                still
            }
        },
        EnemyState::Chase => {
            if senses.player_escaped {
                EnemyStep { state: EnemyState::Patrol, new_heading: true, ..still }
            } else if senses.player_in_reach {
                EnemyStep { state: EnemyState::Attack, ..still }
            } else {
                EnemyStep { movement: EnemyMove::Chase, ..still }
            }
        },
        EnemyState::Attack => EnemyStep { state: EnemyState::Chase, rearm_attack: true, ..still },
    }
}

/// An enemy's behaviour state, with whether it is a boss and whether it
/// has roared yet.
#[derive(Clone, Copy, Debug, PartialEq, Eq, Structural)]
pub struct EnemyMind {
    pub state: EnemyState,
    pub is_boss: bool,
    pub has_roared: bool,
}

/// The mind after a frame and what the enemy does in it: a boss is silent
/// while it has not roared, and remembers its roar.
pub open spec fn spec_enemy_tick(mind: EnemyMind, senses: EnemySenses) -> (EnemyMind, EnemyStep) {
    let step = spec_enemy_step(mind.state, EnemySenses { boss_silent: mind.is_boss && !mind.has_roared, ..senses });
    (EnemyMind { state: step.state, is_boss: mind.is_boss, has_roared: mind.has_roared || step.roar }, step)
}

/// One frame of an enemy's behaviour, keeping track of the boss roar.
pub fn enemy_tick(mind: &mut EnemyMind, senses: EnemySenses) -> (step: EnemyStep)
    ensures
        (*final(mind), step) == spec_enemy_tick(*old(mind), senses),
{
    let silent = mind.is_boss && !mind.has_roared;
    let step = enemy_step(mind.state, EnemySenses { boss_silent: silent, ..senses });
    mind.state = step.state;
    mind.has_roared = mind.has_roared || step.roar;
    step
}

/// How many times an enemy roars over a run of frames, and its mind after.
pub open spec fn roars_over(mind: EnemyMind, frames: Seq<EnemySenses>) -> (EnemyMind, nat)
    decreases frames.len(),
{
    if frames.len() == 0 {
        (mind, 0)
    } else {
        let (m1, n) = roars_over(mind, frames.drop_last());
        let (m2, step) = spec_enemy_tick(m1, frames.last());
        (m2, n + if step.roar { 1nat } else { 0nat })
    }
}

/// A boss roars at most once in its life, and never again once it has
/// roared; ordinary enemies never roar; the roar is never forgotten.
pub proof fn law_boss_roars_once(mind: EnemyMind, frames: Seq<EnemySenses>)
    ensures
        roars_over(mind, frames).1 <= if mind.is_boss && !mind.has_roared { 1nat } else { 0nat },
        mind.has_roared ==> roars_over(mind, frames).0.has_roared,
        roars_over(mind, frames).1 > 0 ==> roars_over(mind, frames).0.has_roared,
        roars_over(mind, frames).0.is_boss == mind.is_boss,
    decreases frames.len(),
{
    if frames.len() > 0 {
        law_boss_roars_once(mind, frames.drop_last());
    }
}

/// A boss roars only as it turns alert, and only while it has not roared;
/// an enemy strikes only out of a chase with the player in reach, and a
/// strike is always followed by the chase.
pub proof fn law_enemy_steps(state: EnemyState, senses: EnemySenses)
    ensures
        spec_enemy_step(state, senses).roar ==> senses.boss_silent && spec_enemy_step(state, senses).state == EnemyState::Alert,
        spec_enemy_step(state, senses).state == EnemyState::Attack ==> state == EnemyState::Chase && senses.player_in_reach,
        state == EnemyState::Attack ==> spec_enemy_step(state, senses).state == EnemyState::Chase,
        spec_enemy_step(state, senses).movement == EnemyMove::Chase ==> state == EnemyState::Chase,
{
}

/// What each state does with what the enemy senses, clause by clause:
/// an idle or patrolling enemy that detects the player pauses in alert
/// (roaring if it is a boss still silent); an idle one that does not starts a
/// patrol on a new heading; a patrolling one that does not keeps walking its
/// heading, taking a new one when its leg is over; an alert one chases once
/// its pause is over; a chasing one gives up and patrols when the player
/// escapes, attacks when in reach, and otherwise runs at the player; after an
/// attack it chases again with its attack re-armed. No step ever leads back
/// to idle.
pub proof fn law_enemy_behaviour(state: EnemyState, senses: EnemySenses)
    ensures
        ({
            let s = spec_enemy_step(state, senses);
            let sees = (state == EnemyState::Idle || state == EnemyState::Patrol) && senses.player_detected;
            &&& (s.movement == EnemyMove::Patrol) <==> (state == EnemyState::Patrol && !senses.player_detected)
            &&& (s.movement == EnemyMove::Chase) <==> (state == EnemyState::Chase && !senses.player_escaped
                && !senses.player_in_reach)
            &&& (s.movement == EnemyMove::Stay) <==> !(state == EnemyState::Patrol && !senses.player_detected)
                && !(state == EnemyState::Chase && !senses.player_escaped && !senses.player_in_reach)
            &&& (s.state == EnemyState::Alert) <==> (sees || (state == EnemyState::Alert && !senses.alert_over))
            &&& (s.state == EnemyState::Patrol) <==> ((state == EnemyState::Idle || state == EnemyState::Patrol)
                && !senses.player_detected || (state == EnemyState::Chase && senses.player_escaped))
            &&& (s.state == EnemyState::Chase) <==> ((state == EnemyState::Alert && senses.alert_over)
                || (state == EnemyState::Chase && !senses.player_escaped && !senses.player_in_reach)
                || state == EnemyState::Attack)
            &&& (s.state == EnemyState::Attack) <==> (state == EnemyState::Chase && !senses.player_escaped
                && senses.player_in_reach)
            &&& s.state != EnemyState::Idle
            &&& s.start_alert <==> sees
            &&& s.roar <==> (sees && senses.boss_silent)
            &&& s.new_heading <==> ((state == EnemyState::Idle && !senses.player_detected)
                || (state == EnemyState::Patrol && !senses.player_detected && senses.patrol_over)
                || (state == EnemyState::Chase && senses.player_escaped))
            &&& s.rearm_attack <==> state == EnemyState::Attack
        }),
{
}

// ---------------------------------------------------------------------------
// Night spawns
// ---------------------------------------------------------------------------

/// The night spawn cap after `deaths` deaths: each death raises the base cap
/// by 5%, rounded up.
pub open spec fn spec_night_spawn_cap(day_count: u32, deaths: u32) -> int {
    let base = if 5 + day_count / 5 <= 20 { 5 + day_count / 5 } else { 20 };
    (base * (100 + 5 * deaths) + 99) / 100
}

/// How many enemies may roam at night.
pub fn night_spawn_cap(day_count: u32, deaths: u32) -> (cap: u64)
    ensures
        cap == spec_night_spawn_cap(day_count, deaths),
{
    let base = base_spawn_cap(day_count) as u64;
    let factor: u64 = 100 + 5 * (deaths as u64);
    assert(base * factor <= 20 * 21474836575) by (nonlinear_arith)
        requires base <= 20, factor <= 21474836575;
    let scaled: u64 = base * factor;
    (scaled + 99) / 100
}

/// Chance in thousandths that a night frame spawns an enemy: 1% plus 0.1%
/// a day, at most 3%.
pub open spec fn spec_spawn_chance_permille(day_count: u32) -> int {
    if 10 + day_count <= 30 { 10 + day_count } else { 30 }
}

/// Chance in thousandths that a spawn is a biome elite: 5% plus 0.5% a day,
/// at most 15%.
pub open spec fn spec_elite_chance_permille(day_count: u32) -> int {
    if 50 + 5 * day_count <= 150 { 50 + 5 * day_count } else { 150 }
}

/// Whether a night frame spawns an enemy, for a roll in 0..1000.
pub fn night_spawn_roll_hits(day_count: u32, roll: u32) -> (b: bool)
    ensures
        b == (roll < spec_spawn_chance_permille(day_count)),
{
    let chance: u32 = if day_count <= 20 { 10 + day_count } else { 30 };
    roll < chance
}

/// Which enemy a night spawn brings, for rolls in 0..1000: a night bat on
/// a bat roll under 150, else the biome's elite on an elite roll under the
/// elite chance, else the biome's common enemy.
pub open spec fn spec_night_spawn_type(biome: Biome, day_count: u32, bat_roll: u32, elite_roll: u32) -> EnemyType {
    if bat_roll < 150 {
        EnemyType::NightBat
    } else if elite_roll < spec_elite_chance_permille(day_count) {
        spec_elite_for_biome(biome)
    } else {
        EnemyType::spec_for_biome(biome)
    }
}

/// The enemy type of a night spawn.
pub fn night_spawn_type(biome: Biome, day_count: u32, bat_roll: u32, elite_roll: u32) -> (e: EnemyType)
    ensures
        e == spec_night_spawn_type(biome, day_count, bat_roll, elite_roll),
{
    let elite_chance: u32 = if day_count <= 20 { 50 + 5 * day_count } else { 150 };
    if bat_roll < 150 {
        EnemyType::NightBat
    } else if elite_roll < elite_chance {
        elite_for_biome(biome)
    } else {
        EnemyType::for_biome(biome)
    }
}

/// The night grows harder but stays bounded: the cap never shrinks with
/// more days or more deaths, and without deaths it is between 5 and 20.
pub proof fn law_spawn_cap_monotone(d1: u32, d2: u32, k1: u32, k2: u32)
    requires
        d1 <= d2,
        k1 <= k2,
    ensures
        spec_night_spawn_cap(d1, k1) <= spec_night_spawn_cap(d2, k2),
        5 <= spec_night_spawn_cap(d1, 0) <= 20,
{
    let b1: int = if 5 + d1 / 5 <= 20 { 5 + d1 / 5 } else { 20 };
    let b2: int = if 5 + d2 / 5 <= 20 { 5 + d2 / 5 } else { 20 };
    assert(d1 / 5 <= d2 / 5) by (nonlinear_arith) requires d1 <= d2;
    assert(b1 * (100 + 5 * k1) <= b2 * (100 + 5 * k2)) by (nonlinear_arith)
        requires 0 <= b1 <= b2, 0 <= k1 <= k2;
    assert((b1 * (100 + 5 * k1) + 99) / 100 <= (b2 * (100 + 5 * k2) + 99) / 100) by (nonlinear_arith)
        requires b1 * (100 + 5 * k1) <= b2 * (100 + 5 * k2);
    assert((b1 * 100 + 99) / 100 == b1) by (nonlinear_arith) requires 5 <= b1 <= 20;
}

} // verus!
