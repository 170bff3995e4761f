//! Building: placeable structures, the build-mode cycle, placing and
//! salvaging, and moving stacks between the inventory and chests.

use vstd::prelude::*;
use crate::items::ItemType;
use crate::crafting::{CraftingTier, RecipeView, RECIPE_COUNT};
use crate::inventory::{Inventory, InventorySlot, slots_wf, slot_wf, total_of, slot_count_of,
    add_result, lemma_add_result, lemma_total_update, empty_slots};

verus! {

/// Every structure the player can place.
#[derive(Clone, Copy, Debug, PartialEq, Eq, Structural)]
pub enum BuildingType {
    WoodFloor,
    WoodWall,
    WoodDoor,
    WoodRoof,
    WoodFence,
    StoneFloor,
    StoneWall,
    StoneDoor,
    StoneRoof,
    MetalWall,
    MetalDoor,
    Bed,
    Chest,
    Workbench,
    Forge,
    Campfire,
    AdvancedForge,
    AncientWorkstation,
    WoodStairs,
    StoneStairs,
    Ladder,
    WoodHalfWall,
    WoodWallWindow,
    BrickWall,
    ReinforcedStoneWall,
    EnchantingTable,
    FishSmoker,
    PetHouse,
    DisplayCase,
    Lantern,
    Bookshelf,
    WeaponRack,
    CookingPot,
    RainCollector,
    TrophyMount,
    AutoSmelter,
    CropSprinkler,
    AlarmBell,
}

/// Half of `n`, rounded down, but at least one.
pub open spec fn half_at_least_one(n: u32) -> u32 {
    if n / 2 >= 1 { n / 2 } else { 1 }
}

/// Each input of a recipe with its count halved, at least one.
pub open spec fn halved_inputs(inputs: Seq<(ItemType, u32)>) -> Seq<(ItemType, u32)> {
    inputs.map_values(|e: (ItemType, u32)| (e.0, half_at_least_one(e.1)))
}

impl BuildingType {
    /// Position of the building type in the build-mode cycle.
    pub open spec fn cycle_pos(self) -> int {
        match self {
            BuildingType::WoodFloor => 0,
            BuildingType::WoodWall => 1,
            BuildingType::WoodDoor => 2,
            BuildingType::WoodRoof => 3,
            BuildingType::WoodFence => 4,
            BuildingType::Workbench => 5,
            BuildingType::Campfire => 6,
            BuildingType::Chest => 7,
            BuildingType::StoneFloor => 8,
            BuildingType::StoneWall => 9,
            BuildingType::StoneDoor => 10,
            BuildingType::StoneRoof => 11,
            BuildingType::Forge => 12,
            BuildingType::MetalWall => 13,
            BuildingType::MetalDoor => 14,
            BuildingType::AdvancedForge => 15,
            BuildingType::AncientWorkstation => 16,
            BuildingType::Bed => 17,
            BuildingType::WoodStairs => 18,
            BuildingType::StoneStairs => 19,
            BuildingType::Ladder => 20,
            BuildingType::WoodHalfWall => 21,
            BuildingType::WoodWallWindow => 22,
            BuildingType::BrickWall => 23,
            BuildingType::ReinforcedStoneWall => 24,
            BuildingType::EnchantingTable => 25,
            BuildingType::FishSmoker => 26,
            BuildingType::PetHouse => 27,
            BuildingType::DisplayCase => 28,
            BuildingType::Lantern => 29,
            BuildingType::Bookshelf => 30,
            BuildingType::WeaponRack => 31,
            BuildingType::CookingPot => 32,
            BuildingType::RainCollector => 33,
            BuildingType::TrophyMount => 34,
            BuildingType::AutoSmelter => 35,
            BuildingType::CropSprinkler => 36,
            BuildingType::AlarmBell => 37,
        }
    }

    /// The building type at position `k` (taken modulo 38) of the build-mode cycle.
    #[verifier::opaque]
    pub open spec fn cycle_at(k: int) -> BuildingType {
        let m = k % 38;
        if m == 0 {
            BuildingType::WoodFloor
        } else if m == 1 {
            BuildingType::WoodWall
        } else if m == 2 {
            BuildingType::WoodDoor
        } else if m == 3 {
            BuildingType::WoodRoof
        } else if m == 4 {
            BuildingType::WoodFence
        } else if m == 5 {
            BuildingType::Workbench
        } else if m == 6 {
            BuildingType::Campfire
        } else if m == 7 {
            BuildingType::Chest
        } else if m == 8 {
            BuildingType::StoneFloor
        } else if m == 9 {
            BuildingType::StoneWall
        } else if m == 10 {
            BuildingType::StoneDoor
        } else if m == 11 {
            BuildingType::StoneRoof
        } else if m == 12 {
            BuildingType::Forge
        } else if m == 13 {
            BuildingType::MetalWall
        } else if m == 14 {
            BuildingType::MetalDoor
        } else if m == 15 {
            BuildingType::AdvancedForge
        } else if m == 16 {
            BuildingType::AncientWorkstation
        } else if m == 17 {
            BuildingType::Bed
        } else if m == 18 {
            BuildingType::WoodStairs
        } else if m == 19 {
            BuildingType::StoneStairs
        } else if m == 20 {
            BuildingType::Ladder
        } else if m == 21 {
            BuildingType::WoodHalfWall
        } else if m == 22 {
            BuildingType::WoodWallWindow
        } else if m == 23 {
            BuildingType::BrickWall
        } else if m == 24 {
            BuildingType::ReinforcedStoneWall
        } else if m == 25 {
            BuildingType::EnchantingTable
        } else if m == 26 {
            BuildingType::FishSmoker
        } else if m == 27 {
            BuildingType::PetHouse
        } else if m == 28 {
            BuildingType::DisplayCase
        } else if m == 29 {
            BuildingType::Lantern
        } else if m == 30 {
            BuildingType::Bookshelf
        } else if m == 31 {
            BuildingType::WeaponRack
        } else if m == 32 {
            BuildingType::CookingPot
        } else if m == 33 {
            BuildingType::RainCollector
        } else if m == 34 {
            BuildingType::TrophyMount
        } else if m == 35 {
            BuildingType::AutoSmelter
        } else if m == 36 {
            BuildingType::CropSprinkler
        } else {
            BuildingType::AlarmBell
        }
    }

    /// The next building type in the build-mode cycle.
    pub open spec fn spec_next(self) -> BuildingType {
        match self {
            BuildingType::WoodFloor => BuildingType::WoodWall,
            BuildingType::WoodWall => BuildingType::WoodDoor,
            BuildingType::WoodDoor => BuildingType::WoodRoof,
            BuildingType::WoodRoof => BuildingType::WoodFence,
            BuildingType::WoodFence => BuildingType::Workbench,
            BuildingType::StoneFloor => BuildingType::StoneWall,
            BuildingType::StoneWall => BuildingType::StoneDoor,
            BuildingType::StoneDoor => BuildingType::StoneRoof,
            BuildingType::StoneRoof => BuildingType::Forge,
            BuildingType::MetalWall => BuildingType::MetalDoor,
            BuildingType::MetalDoor => BuildingType::AdvancedForge,
            BuildingType::Bed => BuildingType::WoodStairs,
            BuildingType::Chest => BuildingType::StoneFloor,
            BuildingType::Workbench => BuildingType::Campfire,
            BuildingType::Forge => BuildingType::MetalWall,
            BuildingType::Campfire => BuildingType::Chest,
            BuildingType::AdvancedForge => BuildingType::AncientWorkstation,
            BuildingType::AncientWorkstation => BuildingType::Bed,
            BuildingType::WoodStairs => BuildingType::StoneStairs,
            BuildingType::StoneStairs => BuildingType::Ladder,
            BuildingType::Ladder => BuildingType::WoodHalfWall,
            BuildingType::WoodHalfWall => BuildingType::WoodWallWindow,
            BuildingType::WoodWallWindow => BuildingType::BrickWall,
            BuildingType::BrickWall => BuildingType::ReinforcedStoneWall,
            BuildingType::ReinforcedStoneWall => BuildingType::EnchantingTable,
            BuildingType::EnchantingTable => BuildingType::FishSmoker,
            BuildingType::FishSmoker => BuildingType::PetHouse,
            BuildingType::PetHouse => BuildingType::DisplayCase,
            BuildingType::DisplayCase => BuildingType::Lantern,
            BuildingType::Lantern => BuildingType::Bookshelf,
            BuildingType::Bookshelf => BuildingType::WeaponRack,
            BuildingType::WeaponRack => BuildingType::CookingPot,
            BuildingType::CookingPot => BuildingType::RainCollector,
            BuildingType::RainCollector => BuildingType::TrophyMount,
            BuildingType::TrophyMount => BuildingType::AutoSmelter,
            BuildingType::AutoSmelter => BuildingType::CropSprinkler,
            BuildingType::CropSprinkler => BuildingType::AlarmBell,
            BuildingType::AlarmBell => BuildingType::WoodFloor,
        }
    }

    /// The next building type in the build-mode cycle.
    pub fn next(self) -> (n: Self)
        ensures
            n == self.spec_next(),
    {
        match self {
            BuildingType::WoodFloor => BuildingType::WoodWall,
            BuildingType::WoodWall => BuildingType::WoodDoor,
            BuildingType::WoodDoor => BuildingType::WoodRoof,
            BuildingType::WoodRoof => BuildingType::WoodFence,
            BuildingType::WoodFence => BuildingType::Workbench,
            BuildingType::StoneFloor => BuildingType::StoneWall,
            BuildingType::StoneWall => BuildingType::StoneDoor,
            BuildingType::StoneDoor => BuildingType::StoneRoof,
            BuildingType::StoneRoof => BuildingType::Forge,
            BuildingType::MetalWall => BuildingType::MetalDoor,
            BuildingType::MetalDoor => BuildingType::AdvancedForge,
            BuildingType::Bed => BuildingType::WoodStairs,
            BuildingType::Chest => BuildingType::StoneFloor,
            BuildingType::Workbench => BuildingType::Campfire,
            BuildingType::Forge => BuildingType::MetalWall,
            BuildingType::Campfire => BuildingType::Chest,
            BuildingType::AdvancedForge => BuildingType::AncientWorkstation,
            BuildingType::AncientWorkstation => BuildingType::Bed,
            BuildingType::WoodStairs => BuildingType::StoneStairs,
            BuildingType::StoneStairs => BuildingType::Ladder,
            BuildingType::Ladder => BuildingType::WoodHalfWall,
            BuildingType::WoodHalfWall => BuildingType::WoodWallWindow,
            BuildingType::WoodWallWindow => BuildingType::BrickWall,
            BuildingType::BrickWall => BuildingType::ReinforcedStoneWall,
            BuildingType::ReinforcedStoneWall => BuildingType::EnchantingTable,
            BuildingType::EnchantingTable => BuildingType::FishSmoker,
            BuildingType::FishSmoker => BuildingType::PetHouse,
            BuildingType::PetHouse => BuildingType::DisplayCase,
            BuildingType::DisplayCase => BuildingType::Lantern,
            BuildingType::Lantern => BuildingType::Bookshelf,
            BuildingType::Bookshelf => BuildingType::WeaponRack,
            BuildingType::WeaponRack => BuildingType::CookingPot,
            BuildingType::CookingPot => BuildingType::RainCollector,
            BuildingType::RainCollector => BuildingType::TrophyMount,
            BuildingType::TrophyMount => BuildingType::AutoSmelter,
            BuildingType::AutoSmelter => BuildingType::CropSprinkler,
            BuildingType::CropSprinkler => BuildingType::AlarmBell,
            BuildingType::AlarmBell => BuildingType::WoodFloor,
        }
    }

    /// Name shown in build mode.
    pub open spec fn spec_name(self) -> Seq<char> {
        match self {
            BuildingType::WoodFloor => "Wood Floor"@,
            BuildingType::WoodWall => "Wood Wall"@,
            BuildingType::WoodDoor => "Wood Door"@,
            BuildingType::WoodRoof => "Wood Roof"@,
            BuildingType::WoodFence => "Wood Fence"@,
            BuildingType::StoneFloor => "Stone Floor"@,
            BuildingType::StoneWall => "Stone Wall"@,
            BuildingType::StoneDoor => "Stone Door"@,
            BuildingType::StoneRoof => "Stone Roof"@,
            BuildingType::MetalWall => "Metal Wall"@,
            BuildingType::MetalDoor => "Metal Door"@,
            BuildingType::Bed => "Bed"@,
            BuildingType::Chest => "Chest"@,
            BuildingType::Workbench => "Workbench"@,
            BuildingType::Forge => "Forge"@,
            BuildingType::Campfire => "Campfire"@,
            BuildingType::AdvancedForge => "Advanced Forge"@,
            BuildingType::AncientWorkstation => "Ancient Workstation"@,
            BuildingType::WoodStairs => "Wood Stairs"@,
            BuildingType::StoneStairs => "Stone Stairs"@,
            BuildingType::Ladder => "Ladder"@,
            BuildingType::WoodHalfWall => "Wood Half Wall"@,
            BuildingType::WoodWallWindow => "Wood Wall (Window)"@,
            BuildingType::BrickWall => "Brick Wall"@,
            BuildingType::ReinforcedStoneWall => "Reinforced Stone Wall"@,
            BuildingType::EnchantingTable => "Enchanting Table"@,
            BuildingType::FishSmoker => "Fish Smoker"@,
            BuildingType::PetHouse => "Pet House"@,
            BuildingType::DisplayCase => "Display Case"@,
            BuildingType::Lantern => "Lantern"@,
            BuildingType::Bookshelf => "Bookshelf"@,
            BuildingType::WeaponRack => "Weapon Rack"@,
            BuildingType::CookingPot => "Cooking Pot"@,
            BuildingType::RainCollector => "Rain Collector"@,
            BuildingType::TrophyMount => "Trophy Mount"@,
            BuildingType::AutoSmelter => "Auto-Smelter"@,
            BuildingType::CropSprinkler => "Crop Sprinkler"@,
            BuildingType::AlarmBell => "Alarm Bell"@,
        }
    }

    /// Name shown in build mode.
    pub fn name(&self) -> (s: &'static str)
        ensures
            s@ == self.spec_name(),
    {
        match self {
            BuildingType::WoodFloor => "Wood Floor",
            BuildingType::WoodWall => "Wood Wall",
            BuildingType::WoodDoor => "Wood Door",
            BuildingType::WoodRoof => "Wood Roof",
            BuildingType::WoodFence => "Wood Fence",
            BuildingType::StoneFloor => "Stone Floor",
            BuildingType::StoneWall => "Stone Wall",
            BuildingType::StoneDoor => "Stone Door",
            BuildingType::StoneRoof => "Stone Roof",
            BuildingType::MetalWall => "Metal Wall",
            BuildingType::MetalDoor => "Metal Door",
            BuildingType::Bed => "Bed",
            BuildingType::Chest => "Chest",
            BuildingType::Workbench => "Workbench",
            BuildingType::Forge => "Forge",
            BuildingType::Campfire => "Campfire",
            BuildingType::AdvancedForge => "Advanced Forge",
            BuildingType::AncientWorkstation => "Ancient Workstation",
            BuildingType::WoodStairs => "Wood Stairs",
            BuildingType::StoneStairs => "Stone Stairs",
            BuildingType::Ladder => "Ladder",
            BuildingType::WoodHalfWall => "Wood Half Wall",
            BuildingType::WoodWallWindow => "Wood Wall (Window)",
            BuildingType::BrickWall => "Brick Wall",
            BuildingType::ReinforcedStoneWall => "Reinforced Stone Wall",
            BuildingType::EnchantingTable => "Enchanting Table",
            BuildingType::FishSmoker => "Fish Smoker",
            BuildingType::PetHouse => "Pet House",
            BuildingType::DisplayCase => "Display Case",
            BuildingType::Lantern => "Lantern",
            BuildingType::Bookshelf => "Bookshelf",
            BuildingType::WeaponRack => "Weapon Rack",
            BuildingType::CookingPot => "Cooking Pot",
            BuildingType::RainCollector => "Rain Collector",
            BuildingType::TrophyMount => "Trophy Mount",
            BuildingType::AutoSmelter => "Auto-Smelter",
            BuildingType::CropSprinkler => "Crop Sprinkler",
            BuildingType::AlarmBell => "Alarm Bell",
        }
    }

    /// The item consumed when placing this building.
    pub open spec fn spec_required_item(self) -> ItemType {
        match self {
            BuildingType::WoodFloor => ItemType::WoodFloor,
            BuildingType::WoodWall => ItemType::WoodWall,
            BuildingType::WoodDoor => ItemType::WoodDoor,
            BuildingType::WoodRoof => ItemType::WoodRoof,
            BuildingType::WoodFence => ItemType::WoodFence,
            BuildingType::StoneFloor => ItemType::StoneFloor,
            BuildingType::StoneWall => ItemType::StoneWall,
            BuildingType::StoneDoor => ItemType::StoneDoor,
            BuildingType::StoneRoof => ItemType::StoneRoof,
            BuildingType::MetalWall => ItemType::MetalWall,
            BuildingType::MetalDoor => ItemType::MetalDoor,
            BuildingType::Bed => ItemType::Bed,
            BuildingType::Chest => ItemType::Chest,
            BuildingType::Workbench => ItemType::Workbench,
            BuildingType::Forge => ItemType::Forge,
            BuildingType::Campfire => ItemType::Campfire,
            BuildingType::AdvancedForge => ItemType::AdvancedForge,
            BuildingType::AncientWorkstation => ItemType::AncientWorkstation,
            BuildingType::WoodStairs => ItemType::WoodStairs,
            BuildingType::StoneStairs => ItemType::StoneStairs,
            BuildingType::Ladder => ItemType::Ladder,
            BuildingType::WoodHalfWall => ItemType::WoodHalfWall,
            BuildingType::WoodWallWindow => ItemType::WoodWallWindow,
            BuildingType::BrickWall => ItemType::BrickWall,
            BuildingType::ReinforcedStoneWall => ItemType::ReinforcedStoneWall,
            BuildingType::EnchantingTable => ItemType::EnchantingTable,
            BuildingType::FishSmoker => ItemType::FishSmoker,
            BuildingType::PetHouse => ItemType::PetHouse,
            BuildingType::DisplayCase => ItemType::DisplayCase,
            BuildingType::Lantern => ItemType::Lantern,
            BuildingType::Bookshelf => ItemType::Bookshelf,
            BuildingType::WeaponRack => ItemType::WeaponRack,
            BuildingType::CookingPot => ItemType::CookingPot,
            BuildingType::RainCollector => ItemType::RainCollector,
            BuildingType::TrophyMount => ItemType::TrophyMount,
            BuildingType::AutoSmelter => ItemType::AutoSmelterItem,
            BuildingType::CropSprinkler => ItemType::CropSprinklerItem,
            BuildingType::AlarmBell => ItemType::AlarmBellItem,
        }
    }

    /// The item consumed when placing this building.
    pub fn required_item(&self) -> (i: ItemType)
        ensures
            i == self.spec_required_item(),
    {
        match self {
            BuildingType::WoodFloor => ItemType::WoodFloor,
            BuildingType::WoodWall => ItemType::WoodWall,
            BuildingType::WoodDoor => ItemType::WoodDoor,
            BuildingType::WoodRoof => ItemType::WoodRoof,
            BuildingType::WoodFence => ItemType::WoodFence,
            BuildingType::StoneFloor => ItemType::StoneFloor,
            BuildingType::StoneWall => ItemType::StoneWall,
            BuildingType::StoneDoor => ItemType::StoneDoor,
            BuildingType::StoneRoof => ItemType::StoneRoof,
            BuildingType::MetalWall => ItemType::MetalWall,
            BuildingType::MetalDoor => ItemType::MetalDoor,
            BuildingType::Bed => ItemType::Bed,
            BuildingType::Chest => ItemType::Chest,
            BuildingType::Workbench => ItemType::Workbench,
            BuildingType::Forge => ItemType::Forge,
            BuildingType::Campfire => ItemType::Campfire,
            BuildingType::AdvancedForge => ItemType::AdvancedForge,
            BuildingType::AncientWorkstation => ItemType::AncientWorkstation,
            BuildingType::WoodStairs => ItemType::WoodStairs,
            BuildingType::StoneStairs => ItemType::StoneStairs,
            BuildingType::Ladder => ItemType::Ladder,
            BuildingType::WoodHalfWall => ItemType::WoodHalfWall,
            BuildingType::WoodWallWindow => ItemType::WoodWallWindow,
            BuildingType::BrickWall => ItemType::BrickWall,
            BuildingType::ReinforcedStoneWall => ItemType::ReinforcedStoneWall,
            BuildingType::EnchantingTable => ItemType::EnchantingTable,
            BuildingType::FishSmoker => ItemType::FishSmoker,
            BuildingType::PetHouse => ItemType::PetHouse,
            BuildingType::DisplayCase => ItemType::DisplayCase,
            BuildingType::Lantern => ItemType::Lantern,
            BuildingType::Bookshelf => ItemType::Bookshelf,
            BuildingType::WeaponRack => ItemType::WeaponRack,
            BuildingType::CookingPot => ItemType::CookingPot,
            BuildingType::RainCollector => ItemType::RainCollector,
            BuildingType::TrophyMount => ItemType::TrophyMount,
            BuildingType::AutoSmelter => ItemType::AutoSmelterItem,
            BuildingType::CropSprinkler => ItemType::CropSprinklerItem,
            BuildingType::AlarmBell => ItemType::AlarmBellItem,
        }
    }

    /// Returns true for stairs and ladders (vertical traversal).
    pub fn is_stairs_or_ladder(&self) -> (b: bool)
        ensures
            b == (*self == BuildingType::WoodStairs || *self == BuildingType::StoneStairs
                || *self == BuildingType::Ladder),
    {
        match self {
            BuildingType::WoodStairs | BuildingType::StoneStairs | BuildingType::Ladder => true,
            _ => false,
        }
    }

    /// Materials returned when the building is destroyed: half of each input
    /// of the recipe that makes its item, at least one, in recipe order.
    pub open spec fn spec_salvage(self) -> Seq<(ItemType, u32)> {
        halved_inputs(RecipeView::recipe_spec(self.recipe_index()).inputs)
    }

    /// Returns materials returned when destroyed (50% of recipe, min 1)
    pub fn salvage(&self) -> (v: Vec<(ItemType, u32)>)
        ensures
            v@ == self.spec_salvage(),
    {
        let v = match self {
            BuildingType::WoodFloor => vec![(ItemType::WoodPlank, 2u32)],
            BuildingType::WoodWall => vec![(ItemType::WoodPlank, 2u32), (ItemType::Stick, 1u32)],
            BuildingType::WoodDoor => vec![(ItemType::WoodPlank, 3u32)],
            BuildingType::WoodRoof => vec![(ItemType::WoodPlank, 3u32), (ItemType::Stick, 2u32)],
            BuildingType::WoodFence => vec![(ItemType::Stick, 3u32)],
            BuildingType::StoneFloor => vec![(ItemType::StoneBlock, 2u32)],
            BuildingType::StoneWall => vec![(ItemType::StoneBlock, 2u32)],
            BuildingType::StoneDoor => vec![(ItemType::StoneBlock, 3u32), (ItemType::IronIngot, 1u32)],
            BuildingType::StoneRoof => vec![(ItemType::StoneBlock, 3u32)],
            BuildingType::MetalWall => vec![(ItemType::SteelAlloy, 2u32), (ItemType::IronIngot, 1u32)],
            BuildingType::MetalDoor => vec![(ItemType::SteelAlloy, 3u32)],
            BuildingType::Bed => vec![(ItemType::WoodPlank, 3u32), (ItemType::PlantFiber, 2u32)],
            BuildingType::Chest => vec![(ItemType::WoodPlank, 4u32)],
            BuildingType::Workbench => vec![(ItemType::WoodPlank, 4u32), (ItemType::Stick, 2u32)],
            BuildingType::Forge => vec![(ItemType::StoneBlock, 5u32), (ItemType::IronOre, 2u32), (ItemType::Coal, 1u32)],
            BuildingType::Campfire => vec![(ItemType::Stone, 2u32), (ItemType::Stick, 1u32), (ItemType::Wood, 1u32)],
            BuildingType::AdvancedForge => vec![(ItemType::SteelAlloy, 5u32), (ItemType::CrystalShard, 2u32), (ItemType::ObsidianShard, 1u32)],
            BuildingType::AncientWorkstation => vec![(ItemType::AncientCore, 2u32), (ItemType::Gemstone, 2u32), (ItemType::SteelAlloy, 5u32)],
            BuildingType::WoodStairs => vec![(ItemType::WoodPlank, 2u32), (ItemType::Stick, 2u32)],
            BuildingType::StoneStairs => vec![(ItemType::StoneBlock, 2u32)],
            BuildingType::Ladder => vec![(ItemType::Stick, 3u32), (ItemType::Rope, 1u32)],
            BuildingType::WoodHalfWall => vec![(ItemType::WoodPlank, 1u32), (ItemType::Stick, 1u32)],
            BuildingType::WoodWallWindow => vec![(ItemType::WoodPlank, 2u32), (ItemType::Stick, 1u32)],
            BuildingType::BrickWall => vec![(ItemType::Brick, 2u32)],
            BuildingType::ReinforcedStoneWall => vec![(ItemType::ReinforcedStoneBlock, 1u32), (ItemType::IronIngot, 1u32)],
            BuildingType::EnchantingTable => vec![(ItemType::IronIngot, 4u32), (ItemType::CrystalShard, 2u32), (ItemType::Gemstone, 1u32)],
            BuildingType::FishSmoker => vec![(ItemType::StoneBlock, 3u32), (ItemType::IronIngot, 1u32), (ItemType::Coal, 1u32)],
            BuildingType::PetHouse => vec![(ItemType::WoodPlank, 5u32), (ItemType::Rope, 1u32), (ItemType::PlantFiber, 2u32)],
            BuildingType::DisplayCase => vec![(ItemType::WoodPlank, 4u32), (ItemType::CrystalShard, 1u32)],
            BuildingType::Lantern => vec![(ItemType::IronIngot, 1u32), (ItemType::Torch, 1u32)],
            BuildingType::Bookshelf => vec![(ItemType::WoodPlank, 4u32)],
            BuildingType::WeaponRack => vec![(ItemType::IronIngot, 2u32), (ItemType::WoodPlank, 1u32)],
            BuildingType::CookingPot => vec![(ItemType::IronIngot, 2u32), (ItemType::Stone, 1u32)],
            BuildingType::RainCollector => vec![(ItemType::IronIngot, 2u32), (ItemType::WoodPlank, 1u32)],
            BuildingType::TrophyMount => vec![(ItemType::WoodPlank, 1u32), (ItemType::IronIngot, 1u32)],
            BuildingType::AutoSmelter => vec![(ItemType::IronIngot, 4u32), (ItemType::Stone, 2u32), (ItemType::Coal, 1u32)],
            BuildingType::CropSprinkler => vec![(ItemType::IronIngot, 2u32), (ItemType::WoodPlank, 1u32)],
            BuildingType::AlarmBell => vec![(ItemType::IronIngot, 1u32), (ItemType::Gemstone, 1u32)],
        };
        proof {
            assert(v@ =~= self.spec_salvage());
        }
        v
    }

    /// The crafting tier a station of this type gives access to.
    pub open spec fn spec_crafting_tier(self) -> Option<CraftingTier> {
        match self {
            BuildingType::Workbench => Some(CraftingTier::Workbench),
            BuildingType::Forge => Some(CraftingTier::Forge),
            BuildingType::Campfire => Some(CraftingTier::Campfire),
            BuildingType::AdvancedForge => Some(CraftingTier::AdvancedForge),
            BuildingType::AncientWorkstation => Some(CraftingTier::Ancient),
            BuildingType::EnchantingTable => Some(CraftingTier::Ancient),
            BuildingType::FishSmoker => Some(CraftingTier::Campfire),
            BuildingType::CookingPot => Some(CraftingTier::Campfire),
            _ => None,
        }
    }

    /// Returns the CraftingTier this building provides, if it is a crafting station.
    pub fn crafting_tier(&self) -> (t: Option<CraftingTier>)
        ensures
            t == self.spec_crafting_tier(),
    {
        match self {
            BuildingType::Workbench => Some(CraftingTier::Workbench),
            BuildingType::Forge => Some(CraftingTier::Forge),
            BuildingType::Campfire => Some(CraftingTier::Campfire),
            BuildingType::AdvancedForge => Some(CraftingTier::AdvancedForge),
            BuildingType::AncientWorkstation => Some(CraftingTier::Ancient),
            BuildingType::EnchantingTable => Some(CraftingTier::Ancient),
            BuildingType::FishSmoker => Some(CraftingTier::Campfire),
            BuildingType::CookingPot => Some(CraftingTier::Campfire),
            _ => None,
        }
    }

    /// Index of the built-in recipe that makes this building's item.
    pub open spec fn recipe_index(self) -> int {
        match self {
            BuildingType::WoodFloor => 8,
            BuildingType::WoodWall => 11,
            BuildingType::WoodDoor => 12,
            BuildingType::WoodRoof => 13,
            BuildingType::WoodFence => 14,
            BuildingType::StoneFloor => 54,
            BuildingType::StoneWall => 33,
            BuildingType::StoneDoor => 55,
            BuildingType::StoneRoof => 56,
            BuildingType::MetalWall => 57,
            BuildingType::MetalDoor => 58,
            BuildingType::Bed => 59,
            BuildingType::Chest => 17,
            BuildingType::Workbench => 9,
            BuildingType::Forge => 23,
            BuildingType::Campfire => 3,
            BuildingType::AdvancedForge => 41,
            BuildingType::AncientWorkstation => 50,
            BuildingType::WoodStairs => 15,
            BuildingType::StoneStairs => 34,
            BuildingType::Ladder => 16,
            BuildingType::WoodHalfWall => 101,
            BuildingType::WoodWallWindow => 102,
            BuildingType::BrickWall => 103,
            BuildingType::ReinforcedStoneWall => 104,
            BuildingType::EnchantingTable => 134,
            BuildingType::FishSmoker => 136,
            BuildingType::PetHouse => 138,
            BuildingType::DisplayCase => 137,
            BuildingType::Lantern => 147,
            BuildingType::Bookshelf => 148,
            BuildingType::WeaponRack => 149,
            BuildingType::CookingPot => 150,
            BuildingType::RainCollector => 151,
            BuildingType::TrophyMount => 152,
            BuildingType::AutoSmelter => 153,
            BuildingType::CropSprinkler => 154,
            BuildingType::AlarmBell => 155,
        }
    }
}

/// Build-mode state: whether build mode is on, which building is selected,
/// and whether the spot under the player accepts it.
pub struct BuildingState {
    pub active: bool,
    pub selected_type: BuildingType,
    pub placement_valid: bool,
}

impl Default for BuildingState {
    fn default() -> (s: Self)
        ensures
            !s.active,
            s.selected_type == BuildingType::WoodFloor,
            s.placement_valid,
    {
        BuildingState { active: false, selected_type: BuildingType::WoodFloor, placement_valid: true }
    }
}

/// In build mode, the cycle key selects the next building type.
pub fn cycle_building_type(state: &mut BuildingState, cycle_pressed: bool)
    ensures
        final(state).selected_type == if old(state).active && cycle_pressed {
            old(state).selected_type.spec_next()
        } else {
            old(state).selected_type
        },
        final(state).active == old(state).active,
        final(state).placement_valid == old(state).placement_valid,
{
    if !state.active {
        return;
    }
    if cycle_pressed {
        state.selected_type = state.selected_type.next();
    }
}

/// Try to place the selected building: refused when the spot is invalid or
/// the building's item is not held; otherwise one item is consumed.
pub fn place_building(state: &BuildingState, inventory: &mut Inventory) -> (placed: bool)
    requires
        old(inventory).wf(),
    ensures
        placed == (state.placement_valid && old(inventory).total(state.selected_type.spec_required_item()) >= 1),
        placed ==> final(inventory).total(state.selected_type.spec_required_item()) + 1
            == old(inventory).total(state.selected_type.spec_required_item()),
        placed ==> final(inventory).slots@ == crate::inventory::remove_result(old(inventory).slots@,
            state.selected_type.spec_required_item(), 1),
        !placed ==> final(inventory).slots@ == old(inventory).slots@,
        forall|x: ItemType| x != state.selected_type.spec_required_item() ==> #[trigger] final(inventory).total(x) == old(inventory).total(x),
        final(inventory).wf(),
        final(inventory).selected_slot == old(inventory).selected_slot,
{
    if !state.placement_valid {
        return false;
    }
    let item = state.selected_type.required_item();
    if !inventory.has_items(item, 1) {
        return false;
    }
    inventory.remove_items(item, 1)
}

/// Slots after adding each listed stack in turn.
pub open spec fn add_all(slots: Seq<Option<InventorySlot>>, items: Seq<(ItemType, u32)>) -> Seq<Option<InventorySlot>>
    decreases items.len(),
{
    if items.len() == 0 {
        slots
    } else {
        let prev = add_all(slots, items.drop_last());
        add_result(prev, items.last().0, items.last().1).0
    }
}

pub proof fn lemma_add_all_wf(slots: Seq<Option<InventorySlot>>, items: Seq<(ItemType, u32)>)
    requires
        slots_wf(slots),
    ensures
        slots_wf(add_all(slots, items)),
        add_all(slots, items).len() == slots.len(),
    decreases items.len(),
{
    if items.len() > 0 {
        lemma_add_all_wf(slots, items.drop_last());
        lemma_add_result(add_all(slots, items.drop_last()), items.last().0, items.last().1);
    }
}

/// Destroying a building gives its salvage to the player, stack by stack
/// (whatever does not fit is lost).
pub fn collect_salvage(building: BuildingType, inventory: &mut Inventory)
    requires
        old(inventory).wf(),
    ensures
        final(inventory).slots@ == add_all(old(inventory).slots@, building.spec_salvage()),
        final(inventory).wf(),
        final(inventory).selected_slot == old(inventory).selected_slot,
{
    let salvage = building.salvage();
    let ghost orig = inventory.slots@;
    let mut k: usize = 0;
    while k < salvage.len()
        invariant
            k <= salvage@.len(),
            salvage@ == building.spec_salvage(),
            inventory.slots@ == add_all(orig, salvage@.take(k as int)),
            inventory.wf(),
            inventory.selected_slot == old(inventory).selected_slot,
            slots_wf(orig),
        decreases salvage.len() - k,
    {
        proof {
            assert(salvage@.take(k as int + 1).drop_last() =~= salvage@.take(k as int));
        }
        let (item, count) = salvage[k];
        inventory.add_item(item, count);
        k = k + 1;
    }
    proof {
        assert(salvage@.take(salvage@.len() as int) =~= salvage@);
    }
}

/// The contents of a placed chest.
pub struct ChestStorage {
    pub slots: Vec<Option<InventorySlot>>,
}

impl ChestStorage {
    /// An empty chest with 18 slots.
    pub fn new() -> (c: Self)
        ensures
            c.slots@.len() == 18,
            forall|i: int| 0 <= i < 18 ==> #[trigger] c.slots@[i] is None,
            slots_wf(c.slots@),
    {
        ChestStorage { slots: empty_slots(18) }
    }
}

/// State of the chest window: which chest (by entity bits) and which chest slot is selected.
pub struct ChestUI {
    pub is_open: bool,
    pub target_entity: Option<u64>,
    pub selected_slot: usize,
}

impl Default for ChestUI {
    fn default() -> (ui: Self)
        ensures
            !ui.is_open,
            ui.target_entity is None,
            ui.selected_slot == 0,
    {
        ChestUI { is_open: false, target_entity: None, selected_slot: 0 }
    }
}

impl ChestUI {
    /// Arrow keys move the chest cursor within slots 0 to 17.
    pub fn move_selection(&mut self, up: bool, down: bool)
        ensures
            final(self).selected_slot == ({
                let s1 = if up && old(self).selected_slot > 0 { (old(self).selected_slot - 1) as usize } else { old(self).selected_slot };
                if down && s1 < 17 { (s1 + 1) as usize } else { s1 }
            }),
            final(self).is_open == old(self).is_open,
            final(self).target_entity == old(self).target_entity,
    {
        if up {
            if self.selected_slot > 0 {
                self.selected_slot = self.selected_slot - 1;
            }
        }
        if down {
            if self.selected_slot < 17 {
                self.selected_slot = self.selected_slot + 1;
            }
        }
    }

    /// The interact key near a chest: an open window closes (so does
    /// Escape); otherwise, with no other menu open, the window opens on the
    /// nearest chest in reach, if any, with the cursor on its first slot.
    /// Returns whether the window is open afterwards.
    pub fn interact(&mut self, interact: bool, escape: bool, other_menu_open: bool, nearest_chest: Option<u64>) -> (open: bool)
        ensures
            old(self).is_open ==> if interact || escape {
                &&& !final(self).is_open
                &&& final(self).target_entity is None
                &&& final(self).selected_slot == 0
            } else {
                *final(self) == *old(self)
            },
            !old(self).is_open ==> if interact && !other_menu_open && nearest_chest is Some {
                &&& final(self).is_open
                &&& final(self).target_entity == nearest_chest
                &&& final(self).selected_slot == 0
            } else {
                *final(self) == *old(self)
            },
            open == final(self).is_open,
    {
        if self.is_open {
            if interact || escape {
                self.is_open = false;
                self.target_entity = None;
                self.selected_slot = 0;
            }
            return self.is_open;
        }
        if interact && !other_menu_open {
            match nearest_chest {
                Some(e) => {
                    self.is_open = true;
                    self.target_entity = Some(e);
                    self.selected_slot = 0;
                },
                None => {},
            }
        }
        self.is_open
    }
}

/// Result of moving inventory slot `i` into the first empty chest slot:
/// nothing moves when that slot is empty or the chest is full.
pub open spec fn deposit_result(inv: Seq<Option<InventorySlot>>, chest: Seq<Option<InventorySlot>>, i: int)
    -> (Seq<Option<InventorySlot>>, Seq<Option<InventorySlot>>)
{
    match (inv[i], crate::inventory::first_empty(chest)) {
        (Some(s), Some(j)) => (inv.update(i, None), chest.update(j, Some(s))),
        _ => (inv, chest),
    }
}

/// Move the stack in inventory slot `i` (a hotbar slot) into the first empty
/// chest slot; returns whether anything moved.
pub fn deposit_hotbar_slot(inventory: &mut Inventory, chest: &mut ChestStorage, i: usize) -> (moved: bool)
    requires
        i < old(inventory).slots@.len(),
    ensures
        (final(inventory).slots@, final(chest).slots@) == deposit_result(old(inventory).slots@, old(chest).slots@, i as int),
        moved == (old(inventory).slots@[i as int] is Some && crate::inventory::first_empty(old(chest).slots@) is Some),
        final(inventory).selected_slot == old(inventory).selected_slot,
        final(inventory).hotbar_size == old(inventory).hotbar_size,
        final(inventory).is_open == old(inventory).is_open,
        old(inventory).wf() ==> final(inventory).wf(),
        old(inventory).wf() && crate::inventory::slots_wf(old(chest).slots@)
            ==> crate::inventory::slots_wf(final(chest).slots@),
{
    match inventory.slots[i] {
        Some(slot_data) => {
            match crate::inventory::find_first_empty(&chest.slots) {
                Some(empty_idx) => {
                    proof { crate::inventory::lemma_first_empty(chest.slots@); }
                    proof {
                        if old(inventory).wf() {
                            assert(crate::inventory::slot_wf(old(inventory).slots@[i as int]));
                        }
                    }
                    chest.slots.set(empty_idx, Some(slot_data));
                    inventory.slots.set(i, None);
                    proof {
                        if old(inventory).wf() {
                            assert forall|k: int| 0 <= k < inventory.slots@.len()
                                implies #[trigger] crate::inventory::slot_wf(inventory.slots@[k]) by {
                                if k != i {
                                    assert(inventory.slots@[k] == old(inventory).slots@[k]);
                                }
                            }
                        }
                    }
                    true
                },
                None => false,
            }
        },
        None => false,
    }
}

/// Result of taking chest slot `idx` into the inventory: what fits is added,
/// the chest slot empties when everything fit and keeps the rest otherwise.
pub open spec fn withdraw_result(inv: Seq<Option<InventorySlot>>, chest: Seq<Option<InventorySlot>>, idx: int)
    -> (Seq<Option<InventorySlot>>, Seq<Option<InventorySlot>>)
{
    match chest[idx] {
        Some(s) => {
            let (inv2, rem) = add_result(inv, s.item, s.count);
            if rem == 0 {
                (inv2, chest.update(idx, None))
            } else if rem < s.count {
                (inv2, chest.update(idx, Some(InventorySlot { item: s.item, count: rem, durability: s.durability })))
            } else {
                (inv2, chest)
            }
        },
        None => (inv, chest),
    }
}

/// Take the stack in chest slot `idx` into the inventory, as far as it fits.
pub fn withdraw_chest_slot(chest: &mut ChestStorage, inventory: &mut Inventory, idx: usize)
    requires
        idx < old(chest).slots@.len(),
        old(inventory).wf(),
        slots_wf(old(chest).slots@),
    ensures
        (final(inventory).slots@, final(chest).slots@) == withdraw_result(old(inventory).slots@, old(chest).slots@, idx as int),
        final(inventory).wf(),
        slots_wf(final(chest).slots@),
        final(inventory).selected_slot == old(inventory).selected_slot,
{
    match chest.slots[idx] {
        Some(slot_data) => {
            let remaining = inventory.add_item(slot_data.item, slot_data.count);
            proof { assert(slot_wf(old(chest).slots@[idx as int])); }
            if remaining == 0 {
                chest.slots.set(idx, None);
            } else if remaining < slot_data.count {
                chest.slots.set(idx, Some(InventorySlot { item: slot_data.item, count: remaining, durability: slot_data.durability }));
            }
            proof {
                assert forall|k: int| 0 <= k < chest.slots@.len() implies #[trigger] slot_wf(chest.slots@[k]) by {
                    assert(slot_wf(old(chest).slots@[k]));
                }
            }
        },
        None => {},
    }
}

// ---------------------------------------------------------------------------
// Laws
// ---------------------------------------------------------------------------

/// Moving a stack from the inventory into a chest keeps the combined count of
/// every item the same.
pub proof fn law_deposit_conserves(inv: Seq<Option<InventorySlot>>, chest: Seq<Option<InventorySlot>>, i: int, x: ItemType)
    requires
        0 <= i < inv.len(),
    ensures
        total_of(deposit_result(inv, chest, i).0, x) + total_of(deposit_result(inv, chest, i).1, x)
            == total_of(inv, x) + total_of(chest, x),
{
    crate::inventory::lemma_first_empty(chest);
    match (inv[i], crate::inventory::first_empty(chest)) {
        (Some(s), Some(j)) => {
            lemma_total_update(inv, i, None, x);
            lemma_total_update(chest, j, Some(s), x);
        },
        _ => {},
    }
}

/// Taking a stack out of a chest keeps the combined count of every item the
/// same, except for items of that stack that fit nowhere: those stay in the
/// chest, so nothing is ever lost or created.
pub proof fn law_withdraw_conserves(inv: Seq<Option<InventorySlot>>, chest: Seq<Option<InventorySlot>>, idx: int, x: ItemType)
    requires
        0 <= idx < chest.len(),
        slots_wf(inv),
        slots_wf(chest),
    ensures
        total_of(withdraw_result(inv, chest, idx).0, x) + total_of(withdraw_result(inv, chest, idx).1, x)
            == total_of(inv, x) + total_of(chest, x),
{
    assert(slot_wf(chest[idx]));
    match chest[idx] {
        Some(s) => {
            lemma_add_result(inv, s.item, s.count);
            let (inv2, rem) = add_result(inv, s.item, s.count);
            if rem == 0 {
                lemma_total_update(chest, idx, None, x);
            } else if rem < s.count {
                lemma_total_update(chest, idx, Some(InventorySlot { item: s.item, count: rem, durability: s.durability }), x);
            } else {
                assert(rem == s.count);
            }
        },
        None => {},
    }
}

proof fn lemma_cycle_tables(b: BuildingType)
    ensures
        0 <= b.cycle_pos() < 38,
        BuildingType::cycle_at(b.cycle_pos()) == b,
        b.spec_next() == BuildingType::cycle_at(b.cycle_pos() + 1),
{
    reveal(BuildingType::cycle_at);
}

/// Applying `next` `n` times.
pub open spec fn next_n(b: BuildingType, n: nat) -> BuildingType
    decreases n,
{
    if n == 0 { b } else { next_n(b, (n - 1) as nat).spec_next() }
}

proof fn lemma_next_n_pos(b: BuildingType, n: nat)
    ensures
        next_n(b, n) == BuildingType::cycle_at(b.cycle_pos() + n),
    decreases n,
{
    lemma_cycle_tables(b);
    if n > 0 {
        lemma_next_n_pos(b, (n - 1) as nat);
        let c = next_n(b, (n - 1) as nat);
        lemma_cycle_tables(c);
        lemma_cycle_at_mod(b.cycle_pos() + n - 1);
        lemma_cycle_at_mod(c.cycle_pos() + 1);
        assert((b.cycle_pos() + n - 1) % 38 == c.cycle_pos());
        assert((c.cycle_pos() + 1) % 38 == (b.cycle_pos() + n) % 38) by {
            vstd::arithmetic::div_mod::lemma_add_mod_noop(b.cycle_pos() + n - 1, 1, 38);
        }
        lemma_cycle_at_mod(b.cycle_pos() + n);
    }
}

proof fn lemma_cycle_at_mod(k: int)
    ensures
        BuildingType::cycle_at(k) == BuildingType::cycle_at(k % 38),
        0 <= k % 38 < 38,
        BuildingType::cycle_at(k % 38).cycle_pos() == k % 38,
{
    reveal(BuildingType::cycle_at);
    vstd::arithmetic::div_mod::lemma_mod_bound(k, 38);
    vstd::arithmetic::div_mod::lemma_mod_twice(k, 38);
}

/// Pressing the cycle key 38 times in build mode comes back to the same
/// building, and along the way every building type is offered exactly once.
pub proof fn law_build_cycle(b: BuildingType, c: BuildingType)
    ensures
        next_n(b, 38) == b,
        exists|n: nat| n < 38 && #[trigger] next_n(b, n) == c,
        forall|m: nat, n: nat| m < n < 38 ==> #[trigger] next_n(b, m) != #[trigger] next_n(b, n),
{
    lemma_cycle_tables(b);
    lemma_cycle_tables(c);
    lemma_next_n_pos(b, 38);
    lemma_cycle_at_mod(b.cycle_pos() + 38);
    assert((b.cycle_pos() + 38) % 38 == b.cycle_pos() % 38) by {
        vstd::arithmetic::div_mod::lemma_mod_add_multiples_vanish(b.cycle_pos(), 38);
    }
    lemma_cycle_at_mod(b.cycle_pos());
    let n: nat = ((c.cycle_pos() - b.cycle_pos() + 38) % 38) as nat;
    lemma_next_n_pos(b, n);
    lemma_cycle_at_mod(b.cycle_pos() + n);
    assert((b.cycle_pos() + n) % 38 == c.cycle_pos()) by {
        vstd::arithmetic::div_mod::lemma_add_mod_noop(b.cycle_pos(), c.cycle_pos() - b.cycle_pos() + 38, 38);
        vstd::arithmetic::div_mod::lemma_mod_bound(c.cycle_pos() - b.cycle_pos() + 38, 38);
        vstd::arithmetic::div_mod::lemma_mod_add_multiples_vanish(c.cycle_pos(), 38);
        vstd::arithmetic::div_mod::lemma_small_mod(c.cycle_pos() as nat, 38);
        vstd::arithmetic::div_mod::lemma_small_mod(b.cycle_pos() as nat, 38);
    }
    assert(next_n(b, n) == c);
    assert forall|m: nat, k: nat| m < k < 38 implies #[trigger] next_n(b, m) != #[trigger] next_n(b, k) by {
        lemma_next_n_pos(b, m);
        lemma_next_n_pos(b, k);
        lemma_cycle_at_mod(b.cycle_pos() + m);
        lemma_cycle_at_mod(b.cycle_pos() + k);
        if (b.cycle_pos() + m) % 38 == (b.cycle_pos() + k) % 38 {
            vstd::arithmetic::div_mod::lemma_mod_equivalence(b.cycle_pos() + m, b.cycle_pos() + k, 38);
            assert(false) by (nonlinear_arith)
                requires
                    ((b.cycle_pos() + m) - (b.cycle_pos() + k)) % 38 == 0,
                    m < k < 38,
            {
            }
        }
    }
}

/// Destroying a building gives back half of each input of the recipe for
/// its item, at least one, and never more of a material than that recipe
/// consumed; the recipe is the first in the book that makes the item.
pub proof fn law_salvage_half_recipe(b: BuildingType, k: int)
    requires
        0 <= k < b.spec_salvage().len(),
    ensures
        0 <= b.recipe_index() < RECIPE_COUNT,
        RecipeView::recipe_spec(b.recipe_index()).output.0 == b.spec_required_item(),
        forall|j: int| 0 <= j < b.recipe_index() ==> #[trigger] RecipeView::recipe_spec(j).output.0 != b.spec_required_item(),
        b.spec_salvage().len() == RecipeView::recipe_spec(b.recipe_index()).inputs.len(),
        b.spec_salvage()[k].0 == RecipeView::recipe_spec(b.recipe_index()).inputs[k].0,
        b.spec_salvage()[k].1 == half_at_least_one(RecipeView::recipe_spec(b.recipe_index()).inputs[k].1),
        1 <= b.spec_salvage()[k].1 <= RecipeView::recipe_spec(b.recipe_index()).inputs[k].1,
{
}

} // verus!
