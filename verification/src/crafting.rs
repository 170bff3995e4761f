//! Crafting: the recipe list, the stations each recipe needs, and turning
//! inputs held in the inventory into the recipe's output.

use vstd::prelude::*;
use crate::items::ItemType;
use crate::inventory::{Inventory, InventorySlot, slots_wf, total_of, remove_result, add_result,
    lemma_add_result, lemma_remove_result};

verus! {

/// Where a recipe can be made.
#[derive(Clone, Copy, Debug, PartialEq, Eq, Structural)]
pub enum CraftingTier {
    Hand,
    Workbench,
    Forge,
    Campfire,
    AdvancedForge,
    Ancient,
}

impl CraftingTier {
    /// Short tag shown next to a recipe in the menu.
    pub open spec fn spec_label(self) -> Seq<char> {
        match self {
            CraftingTier::Hand => "[Hand]"@,
            CraftingTier::Workbench => "[Bench]"@,
            CraftingTier::Forge => "[Forge]"@,
            CraftingTier::Campfire => "[Fire]"@,
            CraftingTier::AdvancedForge => "[AdvForge]"@,
            CraftingTier::Ancient => "[Ancient]"@,
        }
    }

    /// Short tag shown next to a recipe in the menu.
    pub fn label(&self) -> (s: &'static str)
        ensures
            s@ == self.spec_label(),
    {
        match self {
            CraftingTier::Hand => "[Hand]",
            CraftingTier::Workbench => "[Bench]",
            CraftingTier::Forge => "[Forge]",
            CraftingTier::Campfire => "[Fire]",
            CraftingTier::AdvancedForge => "[AdvForge]",
            CraftingTier::Ancient => "[Ancient]",
        }
    }
}

/// A crafting recipe.
pub struct Recipe {
    pub name: &'static str,
    pub inputs: Vec<(ItemType, u32)>,
    pub output: (ItemType, u32),
    pub tier: CraftingTier,
    /// If set, this recipe requires the named tech to be unlocked in the tech tree.
    pub tech_key: Option<&'static str>,
}

/// A recipe as mathematical values.
#[verifier::ext_equal]
pub struct RecipeView {
    pub name: Seq<char>,
    pub inputs: Seq<(ItemType, u32)>,
    pub output: (ItemType, u32),
    pub tier: CraftingTier,
    pub tech_key: Option<Seq<char>>,
}

impl View for Recipe {
    type V = RecipeView;

    open spec fn view(&self) -> RecipeView {
        RecipeView {
            name: self.name@,
            inputs: self.inputs@,
            output: self.output,
            tier: self.tier,
            tech_key: match self.tech_key {
                Some(k) => Some(k@),
                None => None,
            },
        }
    }
}

/// Number of built-in recipes.
pub const RECIPE_COUNT: usize = 156;


impl RecipeView {
    /// The built-in recipe list, in menu order.
    pub open spec fn recipe_spec(i: int) -> RecipeView {
        if i == 0 {
            RecipeView { name: "Stick (x4)"@, inputs: seq![(ItemType::Wood, 1u32)], output: (ItemType::Stick, 4u32), tier: CraftingTier::Hand, tech_key: None }
        } else if i == 1 {
            RecipeView { name: "Wood Plank (x4)"@, inputs: seq![(ItemType::Wood, 2u32)], output: (ItemType::WoodPlank, 4u32), tier: CraftingTier::Hand, tech_key: None }
        } else if i == 2 {
            RecipeView { name: "Rope"@, inputs: seq![(ItemType::PlantFiber, 3u32)], output: (ItemType::Rope, 1u32), tier: CraftingTier::Hand, tech_key: None }
        } else if i == 3 {
            RecipeView { name: "Campfire"@, inputs: seq![(ItemType::Stone, 5u32), (ItemType::Stick, 3u32), (ItemType::Wood, 2u32)], output: (ItemType::Campfire, 1u32), tier: CraftingTier::Hand, tech_key: None }
        } else if i == 4 {
            RecipeView { name: "Wood Axe"@, inputs: seq![(ItemType::Stick, 2u32), (ItemType::Flint, 1u32), (ItemType::Rope, 1u32)], output: (ItemType::WoodAxe, 1u32), tier: CraftingTier::Hand, tech_key: None }
        } else if i == 5 {
            RecipeView { name: "Wood Pickaxe"@, inputs: seq![(ItemType::Stick, 2u32), (ItemType::Flint, 2u32), (ItemType::Rope, 1u32)], output: (ItemType::WoodPickaxe, 1u32), tier: CraftingTier::Hand, tech_key: None }
        } else if i == 6 {
            RecipeView { name: "Stone Axe"@, inputs: seq![(ItemType::Stick, 2u32), (ItemType::Stone, 3u32), (ItemType::Rope, 1u32)], output: (ItemType::StoneAxe, 1u32), tier: CraftingTier::Hand, tech_key: None }
        } else if i == 7 {
            RecipeView { name: "Stone Pickaxe"@, inputs: seq![(ItemType::Stick, 2u32), (ItemType::Stone, 3u32), (ItemType::Rope, 1u32)], output: (ItemType::StonePickaxe, 1u32), tier: CraftingTier::Hand, tech_key: None }
        } else if i == 8 {
            RecipeView { name: "Wood Floor"@, inputs: seq![(ItemType::WoodPlank, 4u32)], output: (ItemType::WoodFloor, 1u32), tier: CraftingTier::Hand, tech_key: None }
        } else if i == 9 {
            RecipeView { name: "Workbench"@, inputs: seq![(ItemType::WoodPlank, 8u32), (ItemType::Stick, 4u32)], output: (ItemType::Workbench, 1u32), tier: CraftingTier::Hand, tech_key: None }
        } else if i == 10 {
            RecipeView { name: "Stone Block"@, inputs: seq![(ItemType::Stone, 4u32)], output: (ItemType::StoneBlock, 1u32), tier: CraftingTier::Hand, tech_key: None }
        } else if i == 11 {
            RecipeView { name: "Wood Wall"@, inputs: seq![(ItemType::WoodPlank, 4u32), (ItemType::Stick, 2u32)], output: (ItemType::WoodWall, 1u32), tier: CraftingTier::Workbench, tech_key: None }
        } else if i == 12 {
            RecipeView { name: "Wood Door"@, inputs: seq![(ItemType::WoodPlank, 6u32)], output: (ItemType::WoodDoor, 1u32), tier: CraftingTier::Workbench, tech_key: None }
        } else if i == 13 {
            RecipeView { name: "Wood Roof"@, inputs: seq![(ItemType::WoodPlank, 6u32), (ItemType::Stick, 4u32)], output: (ItemType::WoodRoof, 1u32), tier: CraftingTier::Workbench, tech_key: None }
        } else if i == 14 {
            RecipeView { name: "Wood Fence"@, inputs: seq![(ItemType::Stick, 6u32)], output: (ItemType::WoodFence, 2u32), tier: CraftingTier::Workbench, tech_key: None }
        } else if i == 15 {
            RecipeView { name: "Wood Stairs"@, inputs: seq![(ItemType::WoodPlank, 4u32), (ItemType::Stick, 4u32)], output: (ItemType::WoodStairs, 1u32), tier: CraftingTier::Workbench, tech_key: None }
        } else if i == 16 {
            RecipeView { name: "Ladder"@, inputs: seq![(ItemType::Stick, 6u32), (ItemType::Rope, 2u32)], output: (ItemType::Ladder, 1u32), tier: CraftingTier::Workbench, tech_key: None }
        } else if i == 17 {
            RecipeView { name: "Chest"@, inputs: seq![(ItemType::WoodPlank, 8u32)], output: (ItemType::Chest, 1u32), tier: CraftingTier::Workbench, tech_key: None }
        } else if i == 18 {
            RecipeView { name: "Torch"@, inputs: seq![(ItemType::Stick, 1u32), (ItemType::PlantFiber, 2u32)], output: (ItemType::Torch, 4u32), tier: CraftingTier::Workbench, tech_key: None }
        } else if i == 19 {
            RecipeView { name: "Wood Sword"@, inputs: seq![(ItemType::WoodPlank, 3u32), (ItemType::Stick, 1u32)], output: (ItemType::WoodSword, 1u32), tier: CraftingTier::Workbench, tech_key: None }
        } else if i == 20 {
            RecipeView { name: "Wood Shield"@, inputs: seq![(ItemType::WoodPlank, 6u32), (ItemType::Rope, 1u32)], output: (ItemType::WoodShield, 1u32), tier: CraftingTier::Workbench, tech_key: None }
        } else if i == 21 {
            RecipeView { name: "Wood Bow"@, inputs: seq![(ItemType::Stick, 3u32), (ItemType::Rope, 2u32)], output: (ItemType::WoodBow, 1u32), tier: CraftingTier::Workbench, tech_key: None }
        } else if i == 22 {
            RecipeView { name: "Arrow (x8)"@, inputs: seq![(ItemType::Stick, 2u32), (ItemType::Flint, 1u32)], output: (ItemType::Arrow, 8u32), tier: CraftingTier::Workbench, tech_key: None }
        } else if i == 23 {
            RecipeView { name: "Forge"@, inputs: seq![(ItemType::StoneBlock, 10u32), (ItemType::IronOre, 5u32), (ItemType::Coal, 3u32)], output: (ItemType::Forge, 1u32), tier: CraftingTier::Workbench, tech_key: None }
        } else if i == 24 {
            RecipeView { name: "Anvil"@, inputs: seq![(ItemType::IronIngot, 8u32), (ItemType::StoneBlock, 4u32)], output: (ItemType::Anvil, 1u32), tier: CraftingTier::Workbench, tech_key: None }
        } else if i == 25 {
            RecipeView { name: "Iron Ingot"@, inputs: seq![(ItemType::IronOre, 2u32), (ItemType::Coal, 1u32)], output: (ItemType::IronIngot, 1u32), tier: CraftingTier::Forge, tech_key: None }
        } else if i == 26 {
            RecipeView { name: "Steel Alloy"@, inputs: seq![(ItemType::IronIngot, 2u32), (ItemType::Coal, 2u32)], output: (ItemType::SteelAlloy, 1u32), tier: CraftingTier::Forge, tech_key: None }
        } else if i == 27 {
            RecipeView { name: "Iron Axe"@, inputs: seq![(ItemType::IronIngot, 3u32), (ItemType::Stick, 2u32)], output: (ItemType::IronAxe, 1u32), tier: CraftingTier::Forge, tech_key: None }
        } else if i == 28 {
            RecipeView { name: "Iron Pickaxe"@, inputs: seq![(ItemType::IronIngot, 3u32), (ItemType::Stick, 2u32)], output: (ItemType::IronPickaxe, 1u32), tier: CraftingTier::Forge, tech_key: None }
        } else if i == 29 {
            RecipeView { name: "Iron Sword"@, inputs: seq![(ItemType::IronIngot, 4u32), (ItemType::Stick, 1u32)], output: (ItemType::IronSword, 1u32), tier: CraftingTier::Forge, tech_key: None }
        } else if i == 30 {
            RecipeView { name: "Iron Shield"@, inputs: seq![(ItemType::IronIngot, 5u32), (ItemType::WoodPlank, 2u32)], output: (ItemType::IronShield, 1u32), tier: CraftingTier::Forge, tech_key: None }
        } else if i == 31 {
            RecipeView { name: "Iron Helmet"@, inputs: seq![(ItemType::IronIngot, 4u32)], output: (ItemType::IronHelmet, 1u32), tier: CraftingTier::Forge, tech_key: None }
        } else if i == 32 {
            RecipeView { name: "Iron Chestplate"@, inputs: seq![(ItemType::IronIngot, 6u32)], output: (ItemType::IronChestplate, 1u32), tier: CraftingTier::Forge, tech_key: None }
        } else if i == 33 {
            RecipeView { name: "Stone Wall"@, inputs: seq![(ItemType::StoneBlock, 4u32)], output: (ItemType::StoneWall, 1u32), tier: CraftingTier::Forge, tech_key: None }
        } else if i == 34 {
            RecipeView { name: "Stone Stairs"@, inputs: seq![(ItemType::StoneBlock, 4u32)], output: (ItemType::StoneStairs, 1u32), tier: CraftingTier::Forge, tech_key: None }
        } else if i == 35 {
            RecipeView { name: "Hoe"@, inputs: seq![(ItemType::Stick, 2u32), (ItemType::Flint, 2u32), (ItemType::Rope, 1u32)], output: (ItemType::Hoe, 1u32), tier: CraftingTier::Hand, tech_key: None }
        } else if i == 36 {
            RecipeView { name: "Wheat Seed (x3)"@, inputs: seq![(ItemType::PlantFiber, 2u32)], output: (ItemType::WheatSeed, 3u32), tier: CraftingTier::Hand, tech_key: None }
        } else if i == 37 {
            RecipeView { name: "Carrot Seed (x3)"@, inputs: seq![(ItemType::PlantFiber, 2u32), (ItemType::Berry, 1u32)], output: (ItemType::CarrotSeed, 3u32), tier: CraftingTier::Hand, tech_key: None }
        } else if i == 38 {
            RecipeView { name: "Cooked Berry"@, inputs: seq![(ItemType::Berry, 2u32)], output: (ItemType::CookedBerry, 1u32), tier: CraftingTier::Campfire, tech_key: None }
        } else if i == 39 {
            RecipeView { name: "Baked Wheat"@, inputs: seq![(ItemType::Wheat, 2u32)], output: (ItemType::BakedWheat, 1u32), tier: CraftingTier::Campfire, tech_key: None }
        } else if i == 40 {
            RecipeView { name: "Cooked Carrot"@, inputs: seq![(ItemType::Carrot, 1u32)], output: (ItemType::CookedCarrot, 1u32), tier: CraftingTier::Campfire, tech_key: None }
        } else if i == 41 {
            RecipeView { name: "Advanced Forge"@, inputs: seq![(ItemType::SteelAlloy, 10u32), (ItemType::CrystalShard, 5u32), (ItemType::ObsidianShard, 3u32)], output: (ItemType::AdvancedForge, 1u32), tier: CraftingTier::Forge, tech_key: Some("advanced_forge"@) }
        } else if i == 42 {
            RecipeView { name: "Alchemy Lab"@, inputs: seq![(ItemType::StoneBlock, 8u32), (ItemType::CrystalShard, 4u32), (ItemType::Sulfur, 2u32)], output: (ItemType::AlchemyLab, 1u32), tier: CraftingTier::Forge, tech_key: Some("alchemy_lab"@) }
        } else if i == 43 {
            RecipeView { name: "Steel Sword"@, inputs: seq![(ItemType::SteelAlloy, 4u32), (ItemType::IronIngot, 2u32), (ItemType::Stick, 1u32)], output: (ItemType::SteelSword, 1u32), tier: CraftingTier::AdvancedForge, tech_key: Some("steel_sword"@) }
        } else if i == 44 {
            RecipeView { name: "Steel Axe"@, inputs: seq![(ItemType::SteelAlloy, 4u32), (ItemType::IronIngot, 2u32), (ItemType::Stick, 2u32)], output: (ItemType::SteelAxe, 1u32), tier: CraftingTier::AdvancedForge, tech_key: Some("steel_axe"@) }
        } else if i == 45 {
            RecipeView { name: "Steel Pickaxe"@, inputs: seq![(ItemType::SteelAlloy, 4u32), (ItemType::IronIngot, 2u32), (ItemType::Stick, 2u32)], output: (ItemType::SteelPickaxe, 1u32), tier: CraftingTier::AdvancedForge, tech_key: Some("steel_pickaxe"@) }
        } else if i == 46 {
            RecipeView { name: "Steel Armor"@, inputs: seq![(ItemType::SteelAlloy, 8u32), (ItemType::IronIngot, 4u32)], output: (ItemType::SteelArmor, 1u32), tier: CraftingTier::AdvancedForge, tech_key: Some("steel_armor"@) }
        } else if i == 47 {
            RecipeView { name: "Health Potion"@, inputs: seq![(ItemType::RareHerb, 2u32), (ItemType::AlpineHerb, 3u32), (ItemType::CrystalShard, 1u32)], output: (ItemType::HealthPotion, 1u32), tier: CraftingTier::AdvancedForge, tech_key: Some("health_potion"@) }
        } else if i == 48 {
            RecipeView { name: "Speed Potion"@, inputs: seq![(ItemType::RareHerb, 2u32), (ItemType::Spore, 2u32), (ItemType::CrystalShard, 1u32)], output: (ItemType::SpeedPotion, 1u32), tier: CraftingTier::AdvancedForge, tech_key: Some("speed_potion"@) }
        } else if i == 49 {
            RecipeView { name: "Strength Potion"@, inputs: seq![(ItemType::RareHerb, 2u32), (ItemType::Sulfur, 1u32), (ItemType::Gemstone, 1u32)], output: (ItemType::StrengthPotion, 1u32), tier: CraftingTier::AdvancedForge, tech_key: Some("strength_potion"@) }
        } else if i == 50 {
            RecipeView { name: "Ancient Workstation"@, inputs: seq![(ItemType::AncientCore, 5u32), (ItemType::Gemstone, 5u32), (ItemType::SteelAlloy, 10u32)], output: (ItemType::AncientWorkstation, 1u32), tier: CraftingTier::AdvancedForge, tech_key: Some("ancient_workstation"@) }
        } else if i == 51 {
            RecipeView { name: "Ancient Blade"@, inputs: seq![(ItemType::AncientCore, 3u32), (ItemType::Gemstone, 2u32), (ItemType::SteelAlloy, 5u32)], output: (ItemType::AncientBlade, 1u32), tier: CraftingTier::Ancient, tech_key: Some("ancient_blade"@) }
        } else if i == 52 {
            RecipeView { name: "Ancient Armor"@, inputs: seq![(ItemType::AncientCore, 4u32), (ItemType::Gemstone, 3u32), (ItemType::SteelArmor, 1u32)], output: (ItemType::AncientArmor, 1u32), tier: CraftingTier::Ancient, tech_key: Some("ancient_armor"@) }
        } else if i == 53 {
            RecipeView { name: "Ancient Pickaxe"@, inputs: seq![(ItemType::AncientCore, 3u32), (ItemType::Gemstone, 2u32), (ItemType::SteelAlloy, 4u32)], output: (ItemType::AncientPickaxe, 1u32), tier: CraftingTier::Ancient, tech_key: Some("ancient_pickaxe"@) }
        } else if i == 54 {
            RecipeView { name: "Stone Floor"@, inputs: seq![(ItemType::StoneBlock, 4u32)], output: (ItemType::StoneFloor, 1u32), tier: CraftingTier::Forge, tech_key: None }
        } else if i == 55 {
            RecipeView { name: "Stone Door"@, inputs: seq![(ItemType::StoneBlock, 6u32), (ItemType::IronIngot, 2u32)], output: (ItemType::StoneDoor, 1u32), tier: CraftingTier::Forge, tech_key: None }
        } else if i == 56 {
            RecipeView { name: "Stone Roof"@, inputs: seq![(ItemType::StoneBlock, 6u32)], output: (ItemType::StoneRoof, 1u32), tier: CraftingTier::Forge, tech_key: None }
        } else if i == 57 {
            RecipeView { name: "Metal Wall"@, inputs: seq![(ItemType::SteelAlloy, 4u32), (ItemType::IronIngot, 2u32)], output: (ItemType::MetalWall, 1u32), tier: CraftingTier::AdvancedForge, tech_key: None }
        } else if i == 58 {
            RecipeView { name: "Metal Door"@, inputs: seq![(ItemType::SteelAlloy, 6u32)], output: (ItemType::MetalDoor, 1u32), tier: CraftingTier::AdvancedForge, tech_key: None }
        } else if i == 59 {
            RecipeView { name: "Bed"@, inputs: seq![(ItemType::WoodPlank, 6u32), (ItemType::PlantFiber, 4u32)], output: (ItemType::Bed, 1u32), tier: CraftingTier::Hand, tech_key: None }
        } else if i == 60 {
            RecipeView { name: "Cooked Berry (x2)"@, inputs: seq![(ItemType::Berry, 3u32)], output: (ItemType::CookedBerry, 2u32), tier: CraftingTier::Campfire, tech_key: None }
        } else if i == 61 {
            RecipeView { name: "Baked Wheat (x2)"@, inputs: seq![(ItemType::Wheat, 2u32)], output: (ItemType::BakedWheat, 2u32), tier: CraftingTier::Campfire, tech_key: None }
        } else if i == 62 {
            RecipeView { name: "Cooked Carrot (x2)"@, inputs: seq![(ItemType::Carrot, 2u32)], output: (ItemType::CookedCarrot, 2u32), tier: CraftingTier::Campfire, tech_key: None }
        } else if i == 63 {
            RecipeView { name: "Arrow (x16)"@, inputs: seq![(ItemType::Stick, 4u32), (ItemType::Flint, 2u32)], output: (ItemType::Arrow, 16u32), tier: CraftingTier::Workbench, tech_key: None }
        } else if i == 64 {
            RecipeView { name: "Torch (x8)"@, inputs: seq![(ItemType::Stick, 2u32), (ItemType::PlantFiber, 4u32)], output: (ItemType::Torch, 8u32), tier: CraftingTier::Workbench, tech_key: None }
        } else if i == 65 {
            RecipeView { name: "Rope (x3)"@, inputs: seq![(ItemType::PlantFiber, 9u32)], output: (ItemType::Rope, 3u32), tier: CraftingTier::Hand, tech_key: None }
        } else if i == 66 {
            RecipeView { name: "Wood Plank (x8)"@, inputs: seq![(ItemType::Wood, 4u32)], output: (ItemType::WoodPlank, 8u32), tier: CraftingTier::Hand, tech_key: None }
        } else if i == 67 {
            RecipeView { name: "Stick (x8)"@, inputs: seq![(ItemType::Wood, 2u32)], output: (ItemType::Stick, 8u32), tier: CraftingTier::Hand, tech_key: None }
        } else if i == 68 {
            RecipeView { name: "Stone Block (x2)"@, inputs: seq![(ItemType::Stone, 8u32)], output: (ItemType::StoneBlock, 2u32), tier: CraftingTier::Hand, tech_key: None }
        } else if i == 69 {
            RecipeView { name: "Iron Ingot (x3)"@, inputs: seq![(ItemType::IronOre, 6u32), (ItemType::Coal, 3u32)], output: (ItemType::IronIngot, 3u32), tier: CraftingTier::Forge, tech_key: None }
        } else if i == 70 {
            RecipeView { name: "Steel Alloy (x2)"@, inputs: seq![(ItemType::IronIngot, 4u32), (ItemType::Coal, 4u32)], output: (ItemType::SteelAlloy, 2u32), tier: CraftingTier::Forge, tech_key: None }
        } else if i == 71 {
            RecipeView { name: "Health Potion"@, inputs: seq![(ItemType::RareHerb, 2u32), (ItemType::Berry, 4u32), (ItemType::CrystalShard, 1u32)], output: (ItemType::HealthPotion, 1u32), tier: CraftingTier::AdvancedForge, tech_key: Some("health_potion"@) }
        } else if i == 72 {
            RecipeView { name: "Speed Potion"@, inputs: seq![(ItemType::RareHerb, 1u32), (ItemType::AlpineHerb, 2u32), (ItemType::Spore, 2u32)], output: (ItemType::SpeedPotion, 1u32), tier: CraftingTier::AdvancedForge, tech_key: Some("speed_potion"@) }
        } else if i == 73 {
            RecipeView { name: "Strength Potion"@, inputs: seq![(ItemType::RareHerb, 2u32), (ItemType::Sulfur, 1u32), (ItemType::IronIngot, 1u32)], output: (ItemType::StrengthPotion, 1u32), tier: CraftingTier::AdvancedForge, tech_key: Some("strength_potion"@) }
        } else if i == 74 {
            RecipeView { name: "Crossbow Bolt (x12)"@, inputs: seq![(ItemType::IronIngot, 1u32), (ItemType::Stick, 2u32)], output: (ItemType::Arrow, 12u32), tier: CraftingTier::Forge, tech_key: None }
        } else if i == 75 {
            RecipeView { name: "Wood Fence (x4)"@, inputs: seq![(ItemType::Stick, 12u32)], output: (ItemType::WoodFence, 4u32), tier: CraftingTier::Workbench, tech_key: None }
        } else if i == 76 {
            RecipeView { name: "Chest (x2)"@, inputs: seq![(ItemType::WoodPlank, 16u32)], output: (ItemType::Chest, 2u32), tier: CraftingTier::Workbench, tech_key: None }
        } else if i == 77 {
            RecipeView { name: "Wood Floor (x2)"@, inputs: seq![(ItemType::WoodPlank, 8u32)], output: (ItemType::WoodFloor, 2u32), tier: CraftingTier::Hand, tech_key: None }
        } else if i == 78 {
            RecipeView { name: "Stone Floor (x2)"@, inputs: seq![(ItemType::StoneBlock, 4u32)], output: (ItemType::StoneFloor, 2u32), tier: CraftingTier::Hand, tech_key: None }
        } else if i == 79 {
            RecipeView { name: "Wood Wall (x2)"@, inputs: seq![(ItemType::WoodPlank, 8u32), (ItemType::Stick, 4u32)], output: (ItemType::WoodWall, 2u32), tier: CraftingTier::Workbench, tech_key: None }
        } else if i == 80 {
            RecipeView { name: "Stone Wall (x2)"@, inputs: seq![(ItemType::StoneBlock, 8u32)], output: (ItemType::StoneWall, 2u32), tier: CraftingTier::Forge, tech_key: None }
        } else if i == 81 {
            RecipeView { name: "Wood Door (x2)"@, inputs: seq![(ItemType::WoodPlank, 12u32)], output: (ItemType::WoodDoor, 2u32), tier: CraftingTier::Workbench, tech_key: None }
        } else if i == 82 {
            RecipeView { name: "Stone Door (x2)"@, inputs: seq![(ItemType::StoneBlock, 6u32), (ItemType::IronIngot, 2u32)], output: (ItemType::StoneDoor, 2u32), tier: CraftingTier::Forge, tech_key: None }
        } else if i == 83 {
            RecipeView { name: "Wood Roof (x2)"@, inputs: seq![(ItemType::WoodPlank, 12u32), (ItemType::Stick, 8u32)], output: (ItemType::WoodRoof, 2u32), tier: CraftingTier::Workbench, tech_key: None }
        } else if i == 84 {
            RecipeView { name: "Stone Roof (x2)"@, inputs: seq![(ItemType::StoneBlock, 6u32)], output: (ItemType::StoneRoof, 2u32), tier: CraftingTier::Forge, tech_key: None }
        } else if i == 85 {
            RecipeView { name: "Campfire (x2)"@, inputs: seq![(ItemType::Stone, 10u32), (ItemType::Stick, 6u32), (ItemType::Wood, 4u32)], output: (ItemType::Campfire, 2u32), tier: CraftingTier::Hand, tech_key: None }
        } else if i == 86 {
            RecipeView { name: "Wheat Seed (x6)"@, inputs: seq![(ItemType::PlantFiber, 4u32)], output: (ItemType::WheatSeed, 6u32), tier: CraftingTier::Hand, tech_key: None }
        } else if i == 87 {
            RecipeView { name: "Carrot Seed (x4)"@, inputs: seq![(ItemType::PlantFiber, 3u32), (ItemType::Carrot, 1u32)], output: (ItemType::CarrotSeed, 4u32), tier: CraftingTier::Hand, tech_key: None }
        } else if i == 88 {
            RecipeView { name: "Iron Pickaxe (x2)"@, inputs: seq![(ItemType::IronIngot, 6u32), (ItemType::Stick, 4u32)], output: (ItemType::IronPickaxe, 2u32), tier: CraftingTier::Forge, tech_key: None }
        } else if i == 89 {
            RecipeView { name: "Iron Axe (x2)"@, inputs: seq![(ItemType::IronIngot, 6u32), (ItemType::Stick, 4u32)], output: (ItemType::IronAxe, 2u32), tier: CraftingTier::Forge, tech_key: None }
        } else if i == 90 {
            RecipeView { name: "Iron Sword (x2)"@, inputs: seq![(ItemType::IronIngot, 8u32), (ItemType::Stick, 2u32)], output: (ItemType::IronSword, 2u32), tier: CraftingTier::Forge, tech_key: None }
        } else if i == 91 {
            RecipeView { name: "Iron Helmet (x2)"@, inputs: seq![(ItemType::IronIngot, 8u32)], output: (ItemType::IronHelmet, 2u32), tier: CraftingTier::Forge, tech_key: None }
        } else if i == 92 {
            RecipeView { name: "Iron Chestplate (x2)"@, inputs: seq![(ItemType::IronIngot, 12u32)], output: (ItemType::IronChestplate, 2u32), tier: CraftingTier::Forge, tech_key: None }
        } else if i == 93 {
            RecipeView { name: "Wood Stairs (x2)"@, inputs: seq![(ItemType::WoodPlank, 8u32), (ItemType::Stick, 8u32)], output: (ItemType::WoodStairs, 2u32), tier: CraftingTier::Workbench, tech_key: None }
        } else if i == 94 {
            RecipeView { name: "Stone Stairs (x2)"@, inputs: seq![(ItemType::StoneBlock, 8u32)], output: (ItemType::StoneStairs, 2u32), tier: CraftingTier::Forge, tech_key: None }
        } else if i == 95 {
            RecipeView { name: "Ladder (x2)"@, inputs: seq![(ItemType::Stick, 12u32), (ItemType::Rope, 4u32)], output: (ItemType::Ladder, 2u32), tier: CraftingTier::Workbench, tech_key: None }
        } else if i == 96 {
            RecipeView { name: "Metal Wall (x2)"@, inputs: seq![(ItemType::SteelAlloy, 8u32), (ItemType::IronIngot, 4u32)], output: (ItemType::MetalWall, 2u32), tier: CraftingTier::AdvancedForge, tech_key: None }
        } else if i == 97 {
            RecipeView { name: "Metal Door (x2)"@, inputs: seq![(ItemType::SteelAlloy, 12u32)], output: (ItemType::MetalDoor, 2u32), tier: CraftingTier::AdvancedForge, tech_key: None }
        } else if i == 98 {
            RecipeView { name: "Forge (x2)"@, inputs: seq![(ItemType::StoneBlock, 20u32), (ItemType::IronOre, 10u32), (ItemType::Coal, 6u32)], output: (ItemType::Forge, 2u32), tier: CraftingTier::Workbench, tech_key: None }
        } else if i == 99 {
            RecipeView { name: "Brick (x4)"@, inputs: seq![(ItemType::StoneBlock, 2u32), (ItemType::Coal, 1u32)], output: (ItemType::Brick, 4u32), tier: CraftingTier::Forge, tech_key: None }
        } else if i == 100 {
            RecipeView { name: "Reinforced Stone Block"@, inputs: seq![(ItemType::StoneBlock, 2u32), (ItemType::IronIngot, 1u32)], output: (ItemType::ReinforcedStoneBlock, 1u32), tier: CraftingTier::Forge, tech_key: None }
        } else if i == 101 {
            RecipeView { name: "Wood Half Wall"@, inputs: seq![(ItemType::WoodPlank, 2u32), (ItemType::Stick, 1u32)], output: (ItemType::WoodHalfWall, 1u32), tier: CraftingTier::Workbench, tech_key: None }
        } else if i == 102 {
            RecipeView { name: "Wood Wall (Window)"@, inputs: seq![(ItemType::WoodPlank, 4u32), (ItemType::Stick, 2u32)], output: (ItemType::WoodWallWindow, 1u32), tier: CraftingTier::Workbench, tech_key: None }
        } else if i == 103 {
            RecipeView { name: "Brick Wall"@, inputs: seq![(ItemType::Brick, 4u32)], output: (ItemType::BrickWall, 1u32), tier: CraftingTier::Forge, tech_key: None }
        } else if i == 104 {
            RecipeView { name: "Reinforced Stone Wall"@, inputs: seq![(ItemType::ReinforcedStoneBlock, 3u32), (ItemType::IronIngot, 1u32)], output: (ItemType::ReinforcedStoneWall, 1u32), tier: CraftingTier::AdvancedForge, tech_key: None }
        } else if i == 105 {
            RecipeView { name: "Tomato Seed (x3)"@, inputs: seq![(ItemType::PlantFiber, 2u32), (ItemType::Berry, 1u32)], output: (ItemType::TomatoSeed, 3u32), tier: CraftingTier::Hand, tech_key: None }
        } else if i == 106 {
            RecipeView { name: "Pumpkin Seed (x2)"@, inputs: seq![(ItemType::PlantFiber, 4u32)], output: (ItemType::PumpkinSeed, 2u32), tier: CraftingTier::Hand, tech_key: None }
        } else if i == 107 {
            RecipeView { name: "Cooked Tomato (x2)"@, inputs: seq![(ItemType::Tomato, 2u32)], output: (ItemType::CookedTomato, 2u32), tier: CraftingTier::Campfire, tech_key: None }
        } else if i == 108 {
            RecipeView { name: "Baked Pumpkin"@, inputs: seq![(ItemType::Pumpkin, 1u32)], output: (ItemType::BakedPumpkin, 1u32), tier: CraftingTier::Campfire, tech_key: None }
        } else if i == 109 {
            RecipeView { name: "Corn Seed (x3)"@, inputs: seq![(ItemType::PlantFiber, 2u32), (ItemType::Berry, 1u32)], output: (ItemType::CornSeed, 3u32), tier: CraftingTier::Hand, tech_key: None }
        } else if i == 110 {
            RecipeView { name: "Potato Seed (x3)"@, inputs: seq![(ItemType::PlantFiber, 3u32)], output: (ItemType::PotatoSeed, 3u32), tier: CraftingTier::Hand, tech_key: None }
        } else if i == 111 {
            RecipeView { name: "Melon Seed (x2)"@, inputs: seq![(ItemType::PlantFiber, 3u32), (ItemType::Berry, 2u32)], output: (ItemType::MelonSeed, 2u32), tier: CraftingTier::Hand, tech_key: None }
        } else if i == 112 {
            RecipeView { name: "Rice Seed (x3)"@, inputs: seq![(ItemType::PlantFiber, 2u32), (ItemType::Reed, 1u32)], output: (ItemType::RiceSeed, 3u32), tier: CraftingTier::Hand, tech_key: None }
        } else if i == 113 {
            RecipeView { name: "Pepper Seed (x3)"@, inputs: seq![(ItemType::PlantFiber, 2u32), (ItemType::Berry, 1u32)], output: (ItemType::PepperSeed, 3u32), tier: CraftingTier::Hand, tech_key: None }
        } else if i == 114 {
            RecipeView { name: "Onion Seed (x3)"@, inputs: seq![(ItemType::PlantFiber, 3u32)], output: (ItemType::OnionSeed, 3u32), tier: CraftingTier::Hand, tech_key: None }
        } else if i == 115 {
            RecipeView { name: "Flax Seed (x3)"@, inputs: seq![(ItemType::PlantFiber, 3u32), (ItemType::Reed, 1u32)], output: (ItemType::FlaxSeed, 3u32), tier: CraftingTier::Hand, tech_key: None }
        } else if i == 116 {
            RecipeView { name: "Sugarcane Seed (x2)"@, inputs: seq![(ItemType::PlantFiber, 4u32)], output: (ItemType::SugarcaneSeed, 2u32), tier: CraftingTier::Hand, tech_key: None }
        } else if i == 117 {
            RecipeView { name: "Roasted Corn"@, inputs: seq![(ItemType::Corn, 2u32)], output: (ItemType::RoastedCorn, 1u32), tier: CraftingTier::Campfire, tech_key: None }
        } else if i == 118 {
            RecipeView { name: "Baked Potato"@, inputs: seq![(ItemType::Potato, 1u32)], output: (ItemType::BakedPotato, 1u32), tier: CraftingTier::Campfire, tech_key: None }
        } else if i == 119 {
            RecipeView { name: "Melon Slice"@, inputs: seq![(ItemType::Melon, 1u32)], output: (ItemType::MelonSlice, 2u32), tier: CraftingTier::Campfire, tech_key: None }
        } else if i == 120 {
            RecipeView { name: "Cooked Rice"@, inputs: seq![(ItemType::Rice, 2u32)], output: (ItemType::CookedRice, 1u32), tier: CraftingTier::Campfire, tech_key: None }
        } else if i == 121 {
            RecipeView { name: "Roasted Pepper"@, inputs: seq![(ItemType::Pepper, 2u32)], output: (ItemType::RoastedPepper, 1u32), tier: CraftingTier::Campfire, tech_key: None }
        } else if i == 122 {
            RecipeView { name: "Cooked Onion"@, inputs: seq![(ItemType::Onion, 1u32)], output: (ItemType::CookedOnion, 1u32), tier: CraftingTier::Campfire, tech_key: None }
        } else if i == 123 {
            RecipeView { name: "Sugar"@, inputs: seq![(ItemType::Sugarcane, 2u32)], output: (ItemType::Sugar, 1u32), tier: CraftingTier::Campfire, tech_key: None }
        } else if i == 124 {
            RecipeView { name: "Cooked Trout"@, inputs: seq![(ItemType::RawTrout, 1u32)], output: (ItemType::CookedTrout, 1u32), tier: CraftingTier::Campfire, tech_key: None }
        } else if i == 125 {
            RecipeView { name: "Cooked Salmon"@, inputs: seq![(ItemType::RawSalmon, 1u32)], output: (ItemType::CookedSalmon, 1u32), tier: CraftingTier::Campfire, tech_key: None }
        } else if i == 126 {
            RecipeView { name: "Cooked Catfish"@, inputs: seq![(ItemType::RawCatfish, 1u32)], output: (ItemType::CookedCatfish, 1u32), tier: CraftingTier::Campfire, tech_key: None }
        } else if i == 127 {
            RecipeView { name: "Cooked Eel"@, inputs: seq![(ItemType::RawEel, 1u32)], output: (ItemType::CookedEel, 1u32), tier: CraftingTier::Campfire, tech_key: None }
        } else if i == 128 {
            RecipeView { name: "Crab Meat"@, inputs: seq![(ItemType::RawCrab, 1u32)], output: (ItemType::CrabMeat, 1u32), tier: CraftingTier::Campfire, tech_key: None }
        } else if i == 129 {
            RecipeView { name: "Fishing Rod"@, inputs: seq![(ItemType::Stick, 3u32), (ItemType::Rope, 2u32)], output: (ItemType::FishingRod, 1u32), tier: CraftingTier::Workbench, tech_key: None }
        } else if i == 130 {
            RecipeView { name: "Pet Collar"@, inputs: seq![(ItemType::Rope, 2u32), (ItemType::IronIngot, 1u32)], output: (ItemType::PetCollar, 1u32), tier: CraftingTier::Workbench, tech_key: None }
        } else if i == 131 {
            RecipeView { name: "Linen Cloth"@, inputs: seq![(ItemType::Flax, 3u32)], output: (ItemType::LinenCloth, 1u32), tier: CraftingTier::Workbench, tech_key: None }
        } else if i == 132 {
            RecipeView { name: "Fish Bait (x5)"@, inputs: seq![(ItemType::PlantFiber, 2u32), (ItemType::Berry, 1u32)], output: (ItemType::FishBait, 5u32), tier: CraftingTier::Hand, tech_key: None }
        } else if i == 133 {
            RecipeView { name: "Pet Food (x3)"@, inputs: seq![(ItemType::Berry, 2u32), (ItemType::Wheat, 1u32)], output: (ItemType::PetFood, 3u32), tier: CraftingTier::Campfire, tech_key: None }
        } else if i == 134 {
            RecipeView { name: "Enchanting Table"@, inputs: seq![(ItemType::IronIngot, 8u32), (ItemType::CrystalShard, 4u32), (ItemType::Gemstone, 2u32)], output: (ItemType::EnchantingTable, 1u32), tier: CraftingTier::Forge, tech_key: None }
        } else if i == 135 {
            RecipeView { name: "Steel Fishing Rod"@, inputs: seq![(ItemType::SteelAlloy, 2u32), (ItemType::Rope, 2u32), (ItemType::Stick, 2u32)], output: (ItemType::SteelFishingRod, 1u32), tier: CraftingTier::Forge, tech_key: None }
        } else if i == 136 {
            RecipeView { name: "Fish Smoker"@, inputs: seq![(ItemType::StoneBlock, 6u32), (ItemType::IronIngot, 2u32), (ItemType::Coal, 2u32)], output: (ItemType::FishSmoker, 1u32), tier: CraftingTier::Forge, tech_key: None }
        } else if i == 137 {
            RecipeView { name: "Display Case"@, inputs: seq![(ItemType::WoodPlank, 8u32), (ItemType::CrystalShard, 2u32)], output: (ItemType::DisplayCase, 1u32), tier: CraftingTier::Workbench, tech_key: None }
        } else if i == 138 {
            RecipeView { name: "Pet House"@, inputs: seq![(ItemType::WoodPlank, 10u32), (ItemType::Rope, 2u32), (ItemType::PlantFiber, 4u32)], output: (ItemType::PetHouse, 1u32), tier: CraftingTier::Workbench, tech_key: None }
        } else if i == 139 {
            RecipeView { name: "Fire Essence"@, inputs: seq![(ItemType::Sulfur, 3u32), (ItemType::MagmaCore, 1u32)], output: (ItemType::FireEssence, 1u32), tier: CraftingTier::AdvancedForge, tech_key: None }
        } else if i == 140 {
            RecipeView { name: "Ice Essence"@, inputs: seq![(ItemType::IceShard, 3u32), (ItemType::FrostGem, 1u32)], output: (ItemType::IceEssence, 1u32), tier: CraftingTier::AdvancedForge, tech_key: None }
        } else if i == 141 {
            RecipeView { name: "Venom Essence"@, inputs: seq![(ItemType::Spore, 3u32), (ItemType::SwampEssence, 1u32)], output: (ItemType::VenomEssence, 1u32), tier: CraftingTier::AdvancedForge, tech_key: None }
        } else if i == 142 {
            RecipeView { name: "Life Essence"@, inputs: seq![(ItemType::RareHerb, 3u32), (ItemType::GuardianHeart, 1u32)], output: (ItemType::LifeEssence, 1u32), tier: CraftingTier::AdvancedForge, tech_key: None }
        } else if i == 143 {
            RecipeView { name: "Flame Blade"@, inputs: seq![(ItemType::SteelSword, 1u32), (ItemType::FireEssence, 1u32)], output: (ItemType::FlameBlade, 1u32), tier: CraftingTier::Ancient, tech_key: None }
        } else if i == 144 {
            RecipeView { name: "Frost Blade"@, inputs: seq![(ItemType::SteelSword, 1u32), (ItemType::IceEssence, 1u32)], output: (ItemType::FrostBlade, 1u32), tier: CraftingTier::Ancient, tech_key: None }
        } else if i == 145 {
            RecipeView { name: "Venom Blade"@, inputs: seq![(ItemType::SteelSword, 1u32), (ItemType::VenomEssence, 1u32)], output: (ItemType::VenomBlade, 1u32), tier: CraftingTier::Ancient, tech_key: None }
        } else if i == 146 {
            RecipeView { name: "Lifesteal Blade"@, inputs: seq![(ItemType::SteelSword, 1u32), (ItemType::LifeEssence, 1u32)], output: (ItemType::LifestealBlade, 1u32), tier: CraftingTier::Ancient, tech_key: None }
        } else if i == 147 {
            RecipeView { name: "Lantern"@, inputs: seq![(ItemType::IronIngot, 3u32), (ItemType::Torch, 1u32)], output: (ItemType::Lantern, 1u32), tier: CraftingTier::Forge, tech_key: None }
        } else if i == 148 {
            RecipeView { name: "Bookshelf"@, inputs: seq![(ItemType::WoodPlank, 8u32)], output: (ItemType::Bookshelf, 1u32), tier: CraftingTier::Workbench, tech_key: None }
        } else if i == 149 {
            RecipeView { name: "Weapon Rack"@, inputs: seq![(ItemType::IronIngot, 4u32), (ItemType::WoodPlank, 2u32)], output: (ItemType::WeaponRack, 1u32), tier: CraftingTier::Forge, tech_key: None }
        } else if i == 150 {
            RecipeView { name: "Cooking Pot"@, inputs: seq![(ItemType::IronIngot, 5u32), (ItemType::Stone, 2u32)], output: (ItemType::CookingPot, 1u32), tier: CraftingTier::Forge, tech_key: None }
        } else if i == 151 {
            RecipeView { name: "Rain Collector"@, inputs: seq![(ItemType::IronIngot, 4u32), (ItemType::WoodPlank, 2u32)], output: (ItemType::RainCollector, 1u32), tier: CraftingTier::Workbench, tech_key: None }
        } else if i == 152 {
            RecipeView { name: "Trophy Mount"@, inputs: seq![(ItemType::WoodPlank, 3u32), (ItemType::IronIngot, 1u32)], output: (ItemType::TrophyMount, 1u32), tier: CraftingTier::Workbench, tech_key: None }
        } else if i == 153 {
            RecipeView { name: "Auto-Smelter"@, inputs: seq![(ItemType::IronIngot, 8u32), (ItemType::Stone, 4u32), (ItemType::Coal, 1u32)], output: (ItemType::AutoSmelterItem, 1u32), tier: CraftingTier::AdvancedForge, tech_key: None }
        } else if i == 154 {
            RecipeView { name: "Crop Sprinkler"@, inputs: seq![(ItemType::IronIngot, 4u32), (ItemType::WoodPlank, 2u32)], output: (ItemType::CropSprinklerItem, 1u32), tier: CraftingTier::Forge, tech_key: None }
        } else {
            RecipeView { name: "Alarm Bell"@, inputs: seq![(ItemType::IronIngot, 3u32), (ItemType::Gemstone, 1u32)], output: (ItemType::AlarmBellItem, 1u32), tier: CraftingTier::Forge, tech_key: None }
        }
    }
}

/// One built-in recipe.
fn recipe_at(i: usize) -> (r: Recipe)
    requires
        i < RECIPE_COUNT,
    ensures
        r@ =~= RecipeView::recipe_spec(i as int),
{
    match i {
        0 => Recipe { name: "Stick (x4)", inputs: vec![(ItemType::Wood, 1u32)], output: (ItemType::Stick, 4), tier: CraftingTier::Hand, tech_key: None },
        1 => Recipe { name: "Wood Plank (x4)", inputs: vec![(ItemType::Wood, 2u32)], output: (ItemType::WoodPlank, 4), tier: CraftingTier::Hand, tech_key: None },
        2 => Recipe { name: "Rope", inputs: vec![(ItemType::PlantFiber, 3u32)], output: (ItemType::Rope, 1), tier: CraftingTier::Hand, tech_key: None },
        3 => Recipe { name: "Campfire", inputs: vec![(ItemType::Stone, 5u32), (ItemType::Stick, 3u32), (ItemType::Wood, 2u32)], output: (ItemType::Campfire, 1), tier: CraftingTier::Hand, tech_key: None },
        4 => Recipe { name: "Wood Axe", inputs: vec![(ItemType::Stick, 2u32), (ItemType::Flint, 1u32), (ItemType::Rope, 1u32)], output: (ItemType::WoodAxe, 1), tier: CraftingTier::Hand, tech_key: None },
        5 => Recipe { name: "Wood Pickaxe", inputs: vec![(ItemType::Stick, 2u32), (ItemType::Flint, 2u32), (ItemType::Rope, 1u32)], output: (ItemType::WoodPickaxe, 1), tier: CraftingTier::Hand, tech_key: None },
        6 => Recipe { name: "Stone Axe", inputs: vec![(ItemType::Stick, 2u32), (ItemType::Stone, 3u32), (ItemType::Rope, 1u32)], output: (ItemType::StoneAxe, 1), tier: CraftingTier::Hand, tech_key: None },
        7 => Recipe { name: "Stone Pickaxe", inputs: vec![(ItemType::Stick, 2u32), (ItemType::Stone, 3u32), (ItemType::Rope, 1u32)], output: (ItemType::StonePickaxe, 1), tier: CraftingTier::Hand, tech_key: None },
        8 => Recipe { name: "Wood Floor", inputs: vec![(ItemType::WoodPlank, 4u32)], output: (ItemType::WoodFloor, 1), tier: CraftingTier::Hand, tech_key: None },
        9 => Recipe { name: "Workbench", inputs: vec![(ItemType::WoodPlank, 8u32), (ItemType::Stick, 4u32)], output: (ItemType::Workbench, 1), tier: CraftingTier::Hand, tech_key: None },
        10 => Recipe { name: "Stone Block", inputs: vec![(ItemType::Stone, 4u32)], output: (ItemType::StoneBlock, 1), tier: CraftingTier::Hand, tech_key: None },
        11 => Recipe { name: "Wood Wall", inputs: vec![(ItemType::WoodPlank, 4u32), (ItemType::Stick, 2u32)], output: (ItemType::WoodWall, 1), tier: CraftingTier::Workbench, tech_key: None },
        12 => Recipe { name: "Wood Door", inputs: vec![(ItemType::WoodPlank, 6u32)], output: (ItemType::WoodDoor, 1), tier: CraftingTier::Workbench, tech_key: None },
        13 => Recipe { name: "Wood Roof", inputs: vec![(ItemType::WoodPlank, 6u32), (ItemType::Stick, 4u32)], output: (ItemType::WoodRoof, 1), tier: CraftingTier::Workbench, tech_key: None },
        14 => Recipe { name: "Wood Fence", inputs: vec![(ItemType::Stick, 6u32)], output: (ItemType::WoodFence, 2), tier: CraftingTier::Workbench, tech_key: None },
        15 => Recipe { name: "Wood Stairs", inputs: vec![(ItemType::WoodPlank, 4u32), (ItemType::Stick, 4u32)], output: (ItemType::WoodStairs, 1), tier: CraftingTier::Workbench, tech_key: None },
        16 => Recipe { name: "Ladder", inputs: vec![(ItemType::Stick, 6u32), (ItemType::Rope, 2u32)], output: (ItemType::Ladder, 1), tier: CraftingTier::Workbench, tech_key: None },
        17 => Recipe { name: "Chest", inputs: vec![(ItemType::WoodPlank, 8u32)], output: (ItemType::Chest, 1), tier: CraftingTier::Workbench, tech_key: None },
        18 => Recipe { name: "Torch", inputs: vec![(ItemType::Stick, 1u32), (ItemType::PlantFiber, 2u32)], output: (ItemType::Torch, 4), tier: CraftingTier::Workbench, tech_key: None },
        19 => Recipe { name: "Wood Sword", inputs: vec![(ItemType::WoodPlank, 3u32), (ItemType::Stick, 1u32)], output: (ItemType::WoodSword, 1), tier: CraftingTier::Workbench, tech_key: None },
        20 => Recipe { name: "Wood Shield", inputs: vec![(ItemType::WoodPlank, 6u32), (ItemType::Rope, 1u32)], output: (ItemType::WoodShield, 1), tier: CraftingTier::Workbench, tech_key: None },
        21 => Recipe { name: "Wood Bow", inputs: vec![(ItemType::Stick, 3u32), (ItemType::Rope, 2u32)], output: (ItemType::WoodBow, 1), tier: CraftingTier::Workbench, tech_key: None },
        22 => Recipe { name: "Arrow (x8)", inputs: vec![(ItemType::Stick, 2u32), (ItemType::Flint, 1u32)], output: (ItemType::Arrow, 8), tier: CraftingTier::Workbench, tech_key: None },
        23 => Recipe { name: "Forge", inputs: vec![(ItemType::StoneBlock, 10u32), (ItemType::IronOre, 5u32), (ItemType::Coal, 3u32)], output: (ItemType::Forge, 1), tier: CraftingTier::Workbench, tech_key: None },
        24 => Recipe { name: "Anvil", inputs: vec![(ItemType::IronIngot, 8u32), (ItemType::StoneBlock, 4u32)], output: (ItemType::Anvil, 1), tier: CraftingTier::Workbench, tech_key: None },
        25 => Recipe { name: "Iron Ingot", inputs: vec![(ItemType::IronOre, 2u32), (ItemType::Coal, 1u32)], output: (ItemType::IronIngot, 1), tier: CraftingTier::Forge, tech_key: None },
        26 => Recipe { name: "Steel Alloy", inputs: vec![(ItemType::IronIngot, 2u32), (ItemType::Coal, 2u32)], output: (ItemType::SteelAlloy, 1), tier: CraftingTier::Forge, tech_key: None },
        27 => Recipe { name: "Iron Axe", inputs: vec![(ItemType::IronIngot, 3u32), (ItemType::Stick, 2u32)], output: (ItemType::IronAxe, 1), tier: CraftingTier::Forge, tech_key: None },
        28 => Recipe { name: "Iron Pickaxe", inputs: vec![(ItemType::IronIngot, 3u32), (ItemType::Stick, 2u32)], output: (ItemType::IronPickaxe, 1), tier: CraftingTier::Forge, tech_key: None },
        29 => Recipe { name: "Iron Sword", inputs: vec![(ItemType::IronIngot, 4u32), (ItemType::Stick, 1u32)], output: (ItemType::IronSword, 1), tier: CraftingTier::Forge, tech_key: None },
        30 => Recipe { name: "Iron Shield", inputs: vec![(ItemType::IronIngot, 5u32), (ItemType::WoodPlank, 2u32)], output: (ItemType::IronShield, 1), tier: CraftingTier::Forge, tech_key: None },
        31 => Recipe { name: "Iron Helmet", inputs: vec![(ItemType::IronIngot, 4u32)], output: (ItemType::IronHelmet, 1), tier: CraftingTier::Forge, tech_key: None },
        32 => Recipe { name: "Iron Chestplate", inputs: vec![(ItemType::IronIngot, 6u32)], output: (ItemType::IronChestplate, 1), tier: CraftingTier::Forge, tech_key: None },
        33 => Recipe { name: "Stone Wall", inputs: vec![(ItemType::StoneBlock, 4u32)], output: (ItemType::StoneWall, 1), tier: CraftingTier::Forge, tech_key: None },
        34 => Recipe { name: "Stone Stairs", inputs: vec![(ItemType::StoneBlock, 4u32)], output: (ItemType::StoneStairs, 1), tier: CraftingTier::Forge, tech_key: None },
        35 => Recipe { name: "Hoe", inputs: vec![(ItemType::Stick, 2u32), (ItemType::Flint, 2u32), (ItemType::Rope, 1u32)], output: (ItemType::Hoe, 1), tier: CraftingTier::Hand, tech_key: None },
        36 => Recipe { name: "Wheat Seed (x3)", inputs: vec![(ItemType::PlantFiber, 2u32)], output: (ItemType::WheatSeed, 3), tier: CraftingTier::Hand, tech_key: None },
        37 => Recipe { name: "Carrot Seed (x3)", inputs: vec![(ItemType::PlantFiber, 2u32), (ItemType::Berry, 1u32)], output: (ItemType::CarrotSeed, 3), tier: CraftingTier::Hand, tech_key: None },
        38 => Recipe { name: "Cooked Berry", inputs: vec![(ItemType::Berry, 2u32)], output: (ItemType::CookedBerry, 1), tier: CraftingTier::Campfire, tech_key: None },
        39 => Recipe { name: "Baked Wheat", inputs: vec![(ItemType::Wheat, 2u32)], output: (ItemType::BakedWheat, 1), tier: CraftingTier::Campfire, tech_key: None },
        40 => Recipe { name: "Cooked Carrot", inputs: vec![(ItemType::Carrot, 1u32)], output: (ItemType::CookedCarrot, 1), tier: CraftingTier::Campfire, tech_key: None },
        41 => Recipe { name: "Advanced Forge", inputs: vec![(ItemType::SteelAlloy, 10u32), (ItemType::CrystalShard, 5u32), (ItemType::ObsidianShard, 3u32)], output: (ItemType::AdvancedForge, 1), tier: CraftingTier::Forge, tech_key: Some("advanced_forge") },
        42 => Recipe { name: "Alchemy Lab", inputs: vec![(ItemType::StoneBlock, 8u32), (ItemType::CrystalShard, 4u32), (ItemType::Sulfur, 2u32)], output: (ItemType::AlchemyLab, 1), tier: CraftingTier::Forge, tech_key: Some("alchemy_lab") },
        43 => Recipe { name: "Steel Sword", inputs: vec![(ItemType::SteelAlloy, 4u32), (ItemType::IronIngot, 2u32), (ItemType::Stick, 1u32)], output: (ItemType::SteelSword, 1), tier: CraftingTier::AdvancedForge, tech_key: Some("steel_sword") },
        44 => Recipe { name: "Steel Axe", inputs: vec![(ItemType::SteelAlloy, 4u32), (ItemType::IronIngot, 2u32), (ItemType::Stick, 2u32)], output: (ItemType::SteelAxe, 1), tier: CraftingTier::AdvancedForge, tech_key: Some("steel_axe") },
        45 => Recipe { name: "Steel Pickaxe", inputs: vec![(ItemType::SteelAlloy, 4u32), (ItemType::IronIngot, 2u32), (ItemType::Stick, 2u32)], output: (ItemType::SteelPickaxe, 1), tier: CraftingTier::AdvancedForge, tech_key: Some("steel_pickaxe") },
        46 => Recipe { name: "Steel Armor", inputs: vec![(ItemType::SteelAlloy, 8u32), (ItemType::IronIngot, 4u32)], output: (ItemType::SteelArmor, 1), tier: CraftingTier::AdvancedForge, tech_key: Some("steel_armor") },
        47 => Recipe { name: "Health Potion", inputs: vec![(ItemType::RareHerb, 2u32), (ItemType::AlpineHerb, 3u32), (ItemType::CrystalShard, 1u32)], output: (ItemType::HealthPotion, 1), tier: CraftingTier::AdvancedForge, tech_key: Some("health_potion") },
        48 => Recipe { name: "Speed Potion", inputs: vec![(ItemType::RareHerb, 2u32), (ItemType::Spore, 2u32), (ItemType::CrystalShard, 1u32)], output: (ItemType::SpeedPotion, 1), tier: CraftingTier::AdvancedForge, tech_key: Some("speed_potion") },
        49 => Recipe { name: "Strength Potion", inputs: vec![(ItemType::RareHerb, 2u32), (ItemType::Sulfur, 1u32), (ItemType::Gemstone, 1u32)], output: (ItemType::StrengthPotion, 1), tier: CraftingTier::AdvancedForge, tech_key: Some("strength_potion") },
        50 => Recipe { name: "Ancient Workstation", inputs: vec![(ItemType::AncientCore, 5u32), (ItemType::Gemstone, 5u32), (ItemType::SteelAlloy, 10u32)], output: (ItemType::AncientWorkstation, 1), tier: CraftingTier::AdvancedForge, tech_key: Some("ancient_workstation") },
        51 => Recipe { name: "Ancient Blade", inputs: vec![(ItemType::AncientCore, 3u32), (ItemType::Gemstone, 2u32), (ItemType::SteelAlloy, 5u32)], output: (ItemType::AncientBlade, 1), tier: CraftingTier::Ancient, tech_key: Some("ancient_blade") },
        52 => Recipe { name: "Ancient Armor", inputs: vec![(ItemType::AncientCore, 4u32), (ItemType::Gemstone, 3u32), (ItemType::SteelArmor, 1u32)], output: (ItemType::AncientArmor, 1), tier: CraftingTier::Ancient, tech_key: Some("ancient_armor") },
        53 => Recipe { name: "Ancient Pickaxe", inputs: vec![(ItemType::AncientCore, 3u32), (ItemType::Gemstone, 2u32), (ItemType::SteelAlloy, 4u32)], output: (ItemType::AncientPickaxe, 1), tier: CraftingTier::Ancient, tech_key: Some("ancient_pickaxe") },
        54 => Recipe { name: "Stone Floor", inputs: vec![(ItemType::StoneBlock, 4u32)], output: (ItemType::StoneFloor, 1), tier: CraftingTier::Forge, tech_key: None },
        55 => Recipe { name: "Stone Door", inputs: vec![(ItemType::StoneBlock, 6u32), (ItemType::IronIngot, 2u32)], output: (ItemType::StoneDoor, 1), tier: CraftingTier::Forge, tech_key: None },
        56 => Recipe { name: "Stone Roof", inputs: vec![(ItemType::StoneBlock, 6u32)], output: (ItemType::StoneRoof, 1), tier: CraftingTier::Forge, tech_key: None },
        57 => Recipe { name: "Metal Wall", inputs: vec![(ItemType::SteelAlloy, 4u32), (ItemType::IronIngot, 2u32)], output: (ItemType::MetalWall, 1), tier: CraftingTier::AdvancedForge, tech_key: None },
        58 => Recipe { name: "Metal Door", inputs: vec![(ItemType::SteelAlloy, 6u32)], output: (ItemType::MetalDoor, 1), tier: CraftingTier::AdvancedForge, tech_key: None },
        59 => Recipe { name: "Bed", inputs: vec![(ItemType::WoodPlank, 6u32), (ItemType::PlantFiber, 4u32)], output: (ItemType::Bed, 1), tier: CraftingTier::Hand, tech_key: None },
        60 => Recipe { name: "Cooked Berry (x2)", inputs: vec![(ItemType::Berry, 3u32)], output: (ItemType::CookedBerry, 2), tier: CraftingTier::Campfire, tech_key: None },
        61 => Recipe { name: "Baked Wheat (x2)", inputs: vec![(ItemType::Wheat, 2u32)], output: (ItemType::BakedWheat, 2), tier: CraftingTier::Campfire, tech_key: None },
        62 => Recipe { name: "Cooked Carrot (x2)", inputs: vec![(ItemType::Carrot, 2u32)], output: (ItemType::CookedCarrot, 2), tier: CraftingTier::Campfire, tech_key: None },
        63 => Recipe { name: "Arrow (x16)", inputs: vec![(ItemType::Stick, 4u32), (ItemType::Flint, 2u32)], output: (ItemType::Arrow, 16), tier: CraftingTier::Workbench, tech_key: None },
        64 => Recipe { name: "Torch (x8)", inputs: vec![(ItemType::Stick, 2u32), (ItemType::PlantFiber, 4u32)], output: (ItemType::Torch, 8), tier: CraftingTier::Workbench, tech_key: None },
        65 => Recipe { name: "Rope (x3)", inputs: vec![(ItemType::PlantFiber, 9u32)], output: (ItemType::Rope, 3), tier: CraftingTier::Hand, tech_key: None },
        66 => Recipe { name: "Wood Plank (x8)", inputs: vec![(ItemType::Wood, 4u32)], output: (ItemType::WoodPlank, 8), tier: CraftingTier::Hand, tech_key: None },
        67 => Recipe { name: "Stick (x8)", inputs: vec![(ItemType::Wood, 2u32)], output: (ItemType::Stick, 8), tier: CraftingTier::Hand, tech_key: None },
        68 => Recipe { name: "Stone Block (x2)", inputs: vec![(ItemType::Stone, 8u32)], output: (ItemType::StoneBlock, 2), tier: CraftingTier::Hand, tech_key: None },
        69 => Recipe { name: "Iron Ingot (x3)", inputs: vec![(ItemType::IronOre, 6u32), (ItemType::Coal, 3u32)], output: (ItemType::IronIngot, 3), tier: CraftingTier::Forge, tech_key: None },
        70 => Recipe { name: "Steel Alloy (x2)", inputs: vec![(ItemType::IronIngot, 4u32), (ItemType::Coal, 4u32)], output: (ItemType::SteelAlloy, 2), tier: CraftingTier::Forge, tech_key: None },
        71 => Recipe { name: "Health Potion", inputs: vec![(ItemType::RareHerb, 2u32), (ItemType::Berry, 4u32), (ItemType::CrystalShard, 1u32)], output: (ItemType::HealthPotion, 1), tier: CraftingTier::AdvancedForge, tech_key: Some("health_potion") },
        72 => Recipe { name: "Speed Potion", inputs: vec![(ItemType::RareHerb, 1u32), (ItemType::AlpineHerb, 2u32), (ItemType::Spore, 2u32)], output: (ItemType::SpeedPotion, 1), tier: CraftingTier::AdvancedForge, tech_key: Some("speed_potion") },
        73 => Recipe { name: "Strength Potion", inputs: vec![(ItemType::RareHerb, 2u32), (ItemType::Sulfur, 1u32), (ItemType::IronIngot, 1u32)], output: (ItemType::StrengthPotion, 1), tier: CraftingTier::AdvancedForge, tech_key: Some("strength_potion") },
        74 => Recipe { name: "Crossbow Bolt (x12)", inputs: vec![(ItemType::IronIngot, 1u32), (ItemType::Stick, 2u32)], output: (ItemType::Arrow, 12), tier: CraftingTier::Forge, tech_key: None },
        75 => Recipe { name: "Wood Fence (x4)", inputs: vec![(ItemType::Stick, 12u32)], output: (ItemType::WoodFence, 4), tier: CraftingTier::Workbench, tech_key: None },
        76 => Recipe { name: "Chest (x2)", inputs: vec![(ItemType::WoodPlank, 16u32)], output: (ItemType::Chest, 2), tier: CraftingTier::Workbench, tech_key: None },
        77 => Recipe { name: "Wood Floor (x2)", inputs: vec![(ItemType::WoodPlank, 8u32)], output: (ItemType::WoodFloor, 2), tier: CraftingTier::Hand, tech_key: None },
        78 => Recipe { name: "Stone Floor (x2)", inputs: vec![(ItemType::StoneBlock, 4u32)], output: (ItemType::StoneFloor, 2), tier: CraftingTier::Hand, tech_key: None },
        79 => Recipe { name: "Wood Wall (x2)", inputs: vec![(ItemType::WoodPlank, 8u32), (ItemType::Stick, 4u32)], output: (ItemType::WoodWall, 2), tier: CraftingTier::Workbench, tech_key: None },
        80 => Recipe { name: "Stone Wall (x2)", inputs: vec![(ItemType::StoneBlock, 8u32)], output: (ItemType::StoneWall, 2), tier: CraftingTier::Forge, tech_key: None },
        81 => Recipe { name: "Wood Door (x2)", inputs: vec![(ItemType::WoodPlank, 12u32)], output: (ItemType::WoodDoor, 2), tier: CraftingTier::Workbench, tech_key: None },
        82 => Recipe { name: "Stone Door (x2)", inputs: vec![(ItemType::StoneBlock, 6u32), (ItemType::IronIngot, 2u32)], output: (ItemType::StoneDoor, 2), tier: CraftingTier::Forge, tech_key: None },
        83 => Recipe { name: "Wood Roof (x2)", inputs: vec![(ItemType::WoodPlank, 12u32), (ItemType::Stick, 8u32)], output: (ItemType::WoodRoof, 2), tier: CraftingTier::Workbench, tech_key: None },
        84 => Recipe { name: "Stone Roof (x2)", inputs: vec![(ItemType::StoneBlock, 6u32)], output: (ItemType::StoneRoof, 2), tier: CraftingTier::Forge, tech_key: None },
        85 => Recipe { name: "Campfire (x2)", inputs: vec![(ItemType::Stone, 10u32), (ItemType::Stick, 6u32), (ItemType::Wood, 4u32)], output: (ItemType::Campfire, 2), tier: CraftingTier::Hand, tech_key: None },
        86 => Recipe { name: "Wheat Seed (x6)", inputs: vec![(ItemType::PlantFiber, 4u32)], output: (ItemType::WheatSeed, 6), tier: CraftingTier::Hand, tech_key: None },
        87 => Recipe { name: "Carrot Seed (x4)", inputs: vec![(ItemType::PlantFiber, 3u32), (ItemType::Carrot, 1u32)], output: (ItemType::CarrotSeed, 4), tier: CraftingTier::Hand, tech_key: None },
        88 => Recipe { name: "Iron Pickaxe (x2)", inputs: vec![(ItemType::IronIngot, 6u32), (ItemType::Stick, 4u32)], output: (ItemType::IronPickaxe, 2), tier: CraftingTier::Forge, tech_key: None },
        89 => Recipe { name: "Iron Axe (x2)", inputs: vec![(ItemType::IronIngot, 6u32), (ItemType::Stick, 4u32)], output: (ItemType::IronAxe, 2), tier: CraftingTier::Forge, tech_key: None },
        90 => Recipe { name: "Iron Sword (x2)", inputs: vec![(ItemType::IronIngot, 8u32), (ItemType::Stick, 2u32)], output: (ItemType::IronSword, 2), tier: CraftingTier::Forge, tech_key: None },
        91 => Recipe { name: "Iron Helmet (x2)", inputs: vec![(ItemType::IronIngot, 8u32)], output: (ItemType::IronHelmet, 2), tier: CraftingTier::Forge, tech_key: None },
        92 => Recipe { name: "Iron Chestplate (x2)", inputs: vec![(ItemType::IronIngot, 12u32)], output: (ItemType::IronChestplate, 2), tier: CraftingTier::Forge, tech_key: None },
        93 => Recipe { name: "Wood Stairs (x2)", inputs: vec![(ItemType::WoodPlank, 8u32), (ItemType::Stick, 8u32)], output: (ItemType::WoodStairs, 2), tier: CraftingTier::Workbench, tech_key: None },
        94 => Recipe { name: "Stone Stairs (x2)", inputs: vec![(ItemType::StoneBlock, 8u32)], output: (ItemType::StoneStairs, 2), tier: CraftingTier::Forge, tech_key: None },
        95 => Recipe { name: "Ladder (x2)", inputs: vec![(ItemType::Stick, 12u32), (ItemType::Rope, 4u32)], output: (ItemType::Ladder, 2), tier: CraftingTier::Workbench, tech_key: None },
        96 => Recipe { name: "Metal Wall (x2)", inputs: vec![(ItemType::SteelAlloy, 8u32), (ItemType::IronIngot, 4u32)], output: (ItemType::MetalWall, 2), tier: CraftingTier::AdvancedForge, tech_key: None },
        97 => Recipe { name: "Metal Door (x2)", inputs: vec![(ItemType::SteelAlloy, 12u32)], output: (ItemType::MetalDoor, 2), tier: CraftingTier::AdvancedForge, tech_key: None },
        98 => Recipe { name: "Forge (x2)", inputs: vec![(ItemType::StoneBlock, 20u32), (ItemType::IronOre, 10u32), (ItemType::Coal, 6u32)], output: (ItemType::Forge, 2), tier: CraftingTier::Workbench, tech_key: None },
        99 => Recipe { name: "Brick (x4)", inputs: vec![(ItemType::StoneBlock, 2u32), (ItemType::Coal, 1u32)], output: (ItemType::Brick, 4), tier: CraftingTier::Forge, tech_key: None },
        100 => Recipe { name: "Reinforced Stone Block", inputs: vec![(ItemType::StoneBlock, 2u32), (ItemType::IronIngot, 1u32)], output: (ItemType::ReinforcedStoneBlock, 1), tier: CraftingTier::Forge, tech_key: None },
        101 => Recipe { name: "Wood Half Wall", inputs: vec![(ItemType::WoodPlank, 2u32), (ItemType::Stick, 1u32)], output: (ItemType::WoodHalfWall, 1), tier: CraftingTier::Workbench, tech_key: None },
        102 => Recipe { name: "Wood Wall (Window)", inputs: vec![(ItemType::WoodPlank, 4u32), (ItemType::Stick, 2u32)], output: (ItemType::WoodWallWindow, 1), tier: CraftingTier::Workbench, tech_key: None },
        103 => Recipe { name: "Brick Wall", inputs: vec![(ItemType::Brick, 4u32)], output: (ItemType::BrickWall, 1), tier: CraftingTier::Forge, tech_key: None },
        104 => Recipe { name: "Reinforced Stone Wall", inputs: vec![(ItemType::ReinforcedStoneBlock, 3u32), (ItemType::IronIngot, 1u32)], output: (ItemType::ReinforcedStoneWall, 1), tier: CraftingTier::AdvancedForge, tech_key: None },
        105 => Recipe { name: "Tomato Seed (x3)", inputs: vec![(ItemType::PlantFiber, 2u32), (ItemType::Berry, 1u32)], output: (ItemType::TomatoSeed, 3), tier: CraftingTier::Hand, tech_key: None },
        106 => Recipe { name: "Pumpkin Seed (x2)", inputs: vec![(ItemType::PlantFiber, 4u32)], output: (ItemType::PumpkinSeed, 2), tier: CraftingTier::Hand, tech_key: None },
        107 => Recipe { name: "Cooked Tomato (x2)", inputs: vec![(ItemType::Tomato, 2u32)], output: (ItemType::CookedTomato, 2), tier: CraftingTier::Campfire, tech_key: None },
        108 => Recipe { name: "Baked Pumpkin", inputs: vec![(ItemType::Pumpkin, 1u32)], output: (ItemType::BakedPumpkin, 1), tier: CraftingTier::Campfire, tech_key: None },
        109 => Recipe { name: "Corn Seed (x3)", inputs: vec![(ItemType::PlantFiber, 2u32), (ItemType::Berry, 1u32)], output: (ItemType::CornSeed, 3), tier: CraftingTier::Hand, tech_key: None },
        110 => Recipe { name: "Potato Seed (x3)", inputs: vec![(ItemType::PlantFiber, 3u32)], output: (ItemType::PotatoSeed, 3), tier: CraftingTier::Hand, tech_key: None },
        111 => Recipe { name: "Melon Seed (x2)", inputs: vec![(ItemType::PlantFiber, 3u32), (ItemType::Berry, 2u32)], output: (ItemType::MelonSeed, 2), tier: CraftingTier::Hand, tech_key: None },
        112 => Recipe { name: "Rice Seed (x3)", inputs: vec![(ItemType::PlantFiber, 2u32), (ItemType::Reed, 1u32)], output: (ItemType::RiceSeed, 3), tier: CraftingTier::Hand, tech_key: None },
        113 => Recipe { name: "Pepper Seed (x3)", inputs: vec![(ItemType::PlantFiber, 2u32), (ItemType::Berry, 1u32)], output: (ItemType::PepperSeed, 3), tier: CraftingTier::Hand, tech_key: None },
        114 => Recipe { name: "Onion Seed (x3)", inputs: vec![(ItemType::PlantFiber, 3u32)], output: (ItemType::OnionSeed, 3), tier: CraftingTier::Hand, tech_key: None },
        115 => Recipe { name: "Flax Seed (x3)", inputs: vec![(ItemType::PlantFiber, 3u32), (ItemType::Reed, 1u32)], output: (ItemType::FlaxSeed, 3), tier: CraftingTier::Hand, tech_key: None },
        116 => Recipe { name: "Sugarcane Seed (x2)", inputs: vec![(ItemType::PlantFiber, 4u32)], output: (ItemType::SugarcaneSeed, 2), tier: CraftingTier::Hand, tech_key: None },
        117 => Recipe { name: "Roasted Corn", inputs: vec![(ItemType::Corn, 2u32)], output: (ItemType::RoastedCorn, 1), tier: CraftingTier::Campfire, tech_key: None },
        118 => Recipe { name: "Baked Potato", inputs: vec![(ItemType::Potato, 1u32)], output: (ItemType::BakedPotato, 1), tier: CraftingTier::Campfire, tech_key: None },
        119 => Recipe { name: "Melon Slice", inputs: vec![(ItemType::Melon, 1u32)], output: (ItemType::MelonSlice, 2), tier: CraftingTier::Campfire, tech_key: None },
        120 => Recipe { name: "Cooked Rice", inputs: vec![(ItemType::Rice, 2u32)], output: (ItemType::CookedRice, 1), tier: CraftingTier::Campfire, tech_key: None },
        121 => Recipe { name: "Roasted Pepper", inputs: vec![(ItemType::Pepper, 2u32)], output: (ItemType::RoastedPepper, 1), tier: CraftingTier::Campfire, tech_key: None },
        122 => Recipe { name: "Cooked Onion", inputs: vec![(ItemType::Onion, 1u32)], output: (ItemType::CookedOnion, 1), tier: CraftingTier::Campfire, tech_key: None },
        123 => Recipe { name: "Sugar", inputs: vec![(ItemType::Sugarcane, 2u32)], output: (ItemType::Sugar, 1), tier: CraftingTier::Campfire, tech_key: None },
        124 => Recipe { name: "Cooked Trout", inputs: vec![(ItemType::RawTrout, 1u32)], output: (ItemType::CookedTrout, 1), tier: CraftingTier::Campfire, tech_key: None },
        125 => Recipe { name: "Cooked Salmon", inputs: vec![(ItemType::RawSalmon, 1u32)], output: (ItemType::CookedSalmon, 1), tier: CraftingTier::Campfire, tech_key: None },
        126 => Recipe { name: "Cooked Catfish", inputs: vec![(ItemType::RawCatfish, 1u32)], output: (ItemType::CookedCatfish, 1), tier: CraftingTier::Campfire, tech_key: None },
        127 => Recipe { name: "Cooked Eel", inputs: vec![(ItemType::RawEel, 1u32)], output: (ItemType::CookedEel, 1), tier: CraftingTier::Campfire, tech_key: None },
        128 => Recipe { name: "Crab Meat", inputs: vec![(ItemType::RawCrab, 1u32)], output: (ItemType::CrabMeat, 1), tier: CraftingTier::Campfire, tech_key: None },
        129 => Recipe { name: "Fishing Rod", inputs: vec![(ItemType::Stick, 3u32), (ItemType::Rope, 2u32)], output: (ItemType::FishingRod, 1), tier: CraftingTier::Workbench, tech_key: None },
        130 => Recipe { name: "Pet Collar", inputs: vec![(ItemType::Rope, 2u32), (ItemType::IronIngot, 1u32)], output: (ItemType::PetCollar, 1), tier: CraftingTier::Workbench, tech_key: None },
        131 => Recipe { name: "Linen Cloth", inputs: vec![(ItemType::Flax, 3u32)], output: (ItemType::LinenCloth, 1), tier: CraftingTier::Workbench, tech_key: None },
        132 => Recipe { name: "Fish Bait (x5)", inputs: vec![(ItemType::PlantFiber, 2u32), (ItemType::Berry, 1u32)], output: (ItemType::FishBait, 5), tier: CraftingTier::Hand, tech_key: None },
        133 => Recipe { name: "Pet Food (x3)", inputs: vec![(ItemType::Berry, 2u32), (ItemType::Wheat, 1u32)], output: (ItemType::PetFood, 3), tier: CraftingTier::Campfire, tech_key: None },
        134 => Recipe { name: "Enchanting Table", inputs: vec![(ItemType::IronIngot, 8u32), (ItemType::CrystalShard, 4u32), (ItemType::Gemstone, 2u32)], output: (ItemType::EnchantingTable, 1), tier: CraftingTier::Forge, tech_key: None },
        135 => Recipe { name: "Steel Fishing Rod", inputs: vec![(ItemType::SteelAlloy, 2u32), (ItemType::Rope, 2u32), (ItemType::Stick, 2u32)], output: (ItemType::SteelFishingRod, 1), tier: CraftingTier::Forge, tech_key: None },
        136 => Recipe { name: "Fish Smoker", inputs: vec![(ItemType::StoneBlock, 6u32), (ItemType::IronIngot, 2u32), (ItemType::Coal, 2u32)], output: (ItemType::FishSmoker, 1), tier: CraftingTier::Forge, tech_key: None },
        137 => Recipe { name: "Display Case", inputs: vec![(ItemType::WoodPlank, 8u32), (ItemType::CrystalShard, 2u32)], output: (ItemType::DisplayCase, 1), tier: CraftingTier::Workbench, tech_key: None },
        138 => Recipe { name: "Pet House", inputs: vec![(ItemType::WoodPlank, 10u32), (ItemType::Rope, 2u32), (ItemType::PlantFiber, 4u32)], output: (ItemType::PetHouse, 1), tier: CraftingTier::Workbench, tech_key: None },
        139 => Recipe { name: "Fire Essence", inputs: vec![(ItemType::Sulfur, 3u32), (ItemType::MagmaCore, 1u32)], output: (ItemType::FireEssence, 1), tier: CraftingTier::AdvancedForge, tech_key: None },
        140 => Recipe { name: "Ice Essence", inputs: vec![(ItemType::IceShard, 3u32), (ItemType::FrostGem, 1u32)], output: (ItemType::IceEssence, 1), tier: CraftingTier::AdvancedForge, tech_key: None },
        141 => Recipe { name: "Venom Essence", inputs: vec![(ItemType::Spore, 3u32), (ItemType::SwampEssence, 1u32)], output: (ItemType::VenomEssence, 1), tier: CraftingTier::AdvancedForge, tech_key: None },
        142 => Recipe { name: "Life Essence", inputs: vec![(ItemType::RareHerb, 3u32), (ItemType::GuardianHeart, 1u32)], output: (ItemType::LifeEssence, 1), tier: CraftingTier::AdvancedForge, tech_key: None },
        143 => Recipe { name: "Flame Blade", inputs: vec![(ItemType::SteelSword, 1u32), (ItemType::FireEssence, 1u32)], output: (ItemType::FlameBlade, 1), tier: CraftingTier::Ancient, tech_key: None },
        144 => Recipe { name: "Frost Blade", inputs: vec![(ItemType::SteelSword, 1u32), (ItemType::IceEssence, 1u32)], output: (ItemType::FrostBlade, 1), tier: CraftingTier::Ancient, tech_key: None },
        145 => Recipe { name: "Venom Blade", inputs: vec![(ItemType::SteelSword, 1u32), (ItemType::VenomEssence, 1u32)], output: (ItemType::VenomBlade, 1), tier: CraftingTier::Ancient, tech_key: None },
        146 => Recipe { name: "Lifesteal Blade", inputs: vec![(ItemType::SteelSword, 1u32), (ItemType::LifeEssence, 1u32)], output: (ItemType::LifestealBlade, 1), tier: CraftingTier::Ancient, tech_key: None },
        147 => Recipe { name: "Lantern", inputs: vec![(ItemType::IronIngot, 3u32), (ItemType::Torch, 1u32)], output: (ItemType::Lantern, 1), tier: CraftingTier::Forge, tech_key: None },
        148 => Recipe { name: "Bookshelf", inputs: vec![(ItemType::WoodPlank, 8u32)], output: (ItemType::Bookshelf, 1), tier: CraftingTier::Workbench, tech_key: None },
        149 => Recipe { name: "Weapon Rack", inputs: vec![(ItemType::IronIngot, 4u32), (ItemType::WoodPlank, 2u32)], output: (ItemType::WeaponRack, 1), tier: CraftingTier::Forge, tech_key: None },
        150 => Recipe { name: "Cooking Pot", inputs: vec![(ItemType::IronIngot, 5u32), (ItemType::Stone, 2u32)], output: (ItemType::CookingPot, 1), tier: CraftingTier::Forge, tech_key: None },
        151 => Recipe { name: "Rain Collector", inputs: vec![(ItemType::IronIngot, 4u32), (ItemType::WoodPlank, 2u32)], output: (ItemType::RainCollector, 1), tier: CraftingTier::Workbench, tech_key: None },
        152 => Recipe { name: "Trophy Mount", inputs: vec![(ItemType::WoodPlank, 3u32), (ItemType::IronIngot, 1u32)], output: (ItemType::TrophyMount, 1), tier: CraftingTier::Workbench, tech_key: None },
        153 => Recipe { name: "Auto-Smelter", inputs: vec![(ItemType::IronIngot, 8u32), (ItemType::Stone, 4u32), (ItemType::Coal, 1u32)], output: (ItemType::AutoSmelterItem, 1), tier: CraftingTier::AdvancedForge, tech_key: None },
        154 => Recipe { name: "Crop Sprinkler", inputs: vec![(ItemType::IronIngot, 4u32), (ItemType::WoodPlank, 2u32)], output: (ItemType::CropSprinklerItem, 1), tier: CraftingTier::Forge, tech_key: None },
        155 => Recipe { name: "Alarm Bell", inputs: vec![(ItemType::IronIngot, 3u32), (ItemType::Gemstone, 1u32)], output: (ItemType::AlarmBellItem, 1), tier: CraftingTier::Forge, tech_key: None },
        _ => Recipe { name: "Alarm Bell", inputs: vec![(ItemType::IronIngot, 3u32), (ItemType::Gemstone, 1u32)], output: (ItemType::AlarmBellItem, 1), tier: CraftingTier::Forge, tech_key: None },
    }
}

/// Whether a station of `tier` is within reach, given which stations are near.
pub open spec fn tier_reachable(
    tier: CraftingTier,
    near_workbench: bool,
    near_forge: bool,
    near_campfire: bool,
    near_advanced_forge: bool,
    near_ancient: bool,
) -> bool {
    match tier {
        CraftingTier::Hand => true,
        CraftingTier::Workbench => near_workbench,
        CraftingTier::Forge => near_forge,
        CraftingTier::Campfire => near_campfire,
        CraftingTier::AdvancedForge => near_advanced_forge,
        CraftingTier::Ancient => near_ancient,
    }
}

/// The names of a list of unlocked techs.
pub open spec fn tech_names(unlocked: Seq<String>) -> Seq<Seq<char>> {
    unlocked.map_values(|s: String| s@)
}

/// A recipe is locked when it names a tech that is not unlocked.
pub open spec fn recipe_locked(r: RecipeView, unlocked: Seq<String>) -> bool {
    match r.tech_key {
        Some(k) => !tech_names(unlocked).contains(k),
        None => false,
    }
}

/// Indices of the first `n` recipes whose station is in reach, each with
/// whether it is still locked, in order.
pub open spec fn visible_prefix(
    recipes: Seq<RecipeView>,
    n: int,
    near_workbench: bool,
    near_forge: bool,
    near_campfire: bool,
    near_advanced_forge: bool,
    near_ancient: bool,
    unlocked: Seq<String>,
) -> Seq<(usize, bool)>
    decreases n,
{
    if n <= 0 {
        seq![]
    } else {
        let p = visible_prefix(recipes, n - 1, near_workbench, near_forge, near_campfire,
            near_advanced_forge, near_ancient, unlocked);
        let r = recipes[n - 1];
        if tier_reachable(r.tier, near_workbench, near_forge, near_campfire, near_advanced_forge, near_ancient) {
            p.push(((n - 1) as usize, recipe_locked(r, unlocked)))
        } else {
            p
        }
    }
}

/// The indices of the unlocked entries of a visibility list, in order.
pub open spec fn unlocked_indices(v: Seq<(usize, bool)>) -> Seq<usize>
    decreases v.len(),
{
    if v.len() == 0 {
        seq![]
    } else {
        let p = unlocked_indices(v.drop_last());
        if v.last().1 { p } else { p.push(v.last().0) }
    }
}

/// Slots after taking out each input of a recipe in turn.
pub open spec fn remove_inputs(slots: Seq<Option<InventorySlot>>, inputs: Seq<(ItemType, u32)>) -> Seq<Option<InventorySlot>>
    decreases inputs.len(),
{
    if inputs.len() == 0 {
        slots
    } else {
        let prev = remove_inputs(slots, inputs.drop_last());
        remove_result(prev, inputs.last().0, inputs.last().1)
    }
}

/// Every input of a recipe is held in the needed amount.
pub open spec fn inputs_available(slots: Seq<Option<InventorySlot>>, inputs: Seq<(ItemType, u32)>) -> bool {
    forall|k: int| 0 <= k < inputs.len() ==> total_of(slots, #[trigger] inputs[k].0) >= inputs[k].1
}

/// How many of `item` a list of inputs asks for.
pub open spec fn needed_of(inputs: Seq<(ItemType, u32)>, item: ItemType) -> nat
    decreases inputs.len(),
{
    if inputs.len() == 0 {
        0
    } else {
        needed_of(inputs.drop_last(), item) + if inputs.last().0 == item { inputs.last().1 as nat } else { 0 }
    }
}

/// No item appears twice among the inputs.
pub open spec fn inputs_distinct(inputs: Seq<(ItemType, u32)>) -> bool {
    forall|a: int, b: int| 0 <= a < b < inputs.len() ==> #[trigger] inputs[a].0 != #[trigger] inputs[b].0
}

/// The crafting menu and its recipes.
pub struct CraftingSystem {
    pub recipes: Vec<Recipe>,
    pub is_open: bool,
    pub selected_recipe: usize,
}

impl CraftingSystem {
    /// The recipes as mathematical values.
    pub open spec fn recipe_views(&self) -> Seq<RecipeView> {
        self.recipes@.map_values(|r: Recipe| r@)
    }

    /// Whether recipe `idx` exists and all its inputs are held.
    pub open spec fn spec_can_craft(&self, idx: usize, slots: Seq<Option<InventorySlot>>) -> bool {
        idx < self.recipes@.len() && inputs_available(slots, self.recipes@[idx as int].inputs@)
    }

    /// The menu with every built-in recipe, closed, first recipe selected.
    pub fn new() -> (s: Self)
        ensures
            s.recipes@.len() == RECIPE_COUNT,
            forall|i: int| 0 <= i < RECIPE_COUNT ==> #[trigger] s.recipes@[i]@ == RecipeView::recipe_spec(i),
            !s.is_open,
            s.selected_recipe == 0,
    {
        let mut recipes: Vec<Recipe> = Vec::new();
        let mut i: usize = 0;
        while i < RECIPE_COUNT
            invariant
                i <= RECIPE_COUNT,
                recipes@.len() == i,
                forall|j: int| 0 <= j < i ==> #[trigger] recipes@[j]@ == RecipeView::recipe_spec(j),
            decreases RECIPE_COUNT - i,
        {
            recipes.push(recipe_at(i));
            i = i + 1;
        }
        CraftingSystem { recipes, is_open: false, selected_recipe: 0 }
    }

    /// Whether recipe `recipe_index` exists and every input is held in the
    /// needed amount.
    pub fn can_craft(&self, recipe_index: usize, inventory: &Inventory) -> (b: bool)
        requires
            inventory.wf(),
        ensures
            b == self.spec_can_craft(recipe_index, inventory.slots@),
    {
        if recipe_index >= self.recipes.len() {
            return false;
        }
        let recipe = &self.recipes[recipe_index];
        let mut k: usize = 0;
        while k < recipe.inputs.len()
            invariant
                inventory.wf(),
                recipe_index < self.recipes@.len(),
                *recipe == self.recipes@[recipe_index as int],
                k <= recipe.inputs@.len(),
                forall|j: int| 0 <= j < k ==> inventory.total(#[trigger] recipe.inputs@[j].0) >= recipe.inputs@[j].1,
            decreases recipe.inputs.len() - k,
        {
            let (item, count) = recipe.inputs[k];
            if !inventory.has_items(item, count) {
                proof {
                    assert(recipe.inputs@[k as int].0 == item);
                    assert(recipe.inputs@[k as int].1 == count);
                    assert(!(total_of(inventory.slots@, recipe.inputs@[k as int].0) >= recipe.inputs@[k as int].1));
                    assert(recipe.inputs@ == self.recipes@[recipe_index as int].inputs@);
                    assert(!inputs_available(inventory.slots@, recipe.inputs@));
                }
                return false;
            }
            k = k + 1;
        }
        true
    }

    /// Craft recipe `recipe_index`: when it can be crafted, take out each
    /// input in turn, then add the output (whatever does not fit is lost) and
    /// return `true`; otherwise change nothing and return `false`.
    pub fn craft(&self, recipe_index: usize, inventory: &mut Inventory) -> (ok: bool)
        requires
            old(inventory).wf(),
        ensures
            ok == self.spec_can_craft(recipe_index, old(inventory).slots@),
            ok ==> final(inventory).slots@ == add_result(
                remove_inputs(old(inventory).slots@, self.recipes@[recipe_index as int].inputs@),
                self.recipes@[recipe_index as int].output.0,
                self.recipes@[recipe_index as int].output.1,
            ).0,
            !ok ==> final(inventory).slots@ == old(inventory).slots@,
            final(inventory).wf(),
            final(inventory).selected_slot == old(inventory).selected_slot,
            final(inventory).hotbar_size == old(inventory).hotbar_size,
            final(inventory).is_open == old(inventory).is_open,
    {
        if !self.can_craft(recipe_index, inventory) {
            return false;
        }
        let recipe = &self.recipes[recipe_index];
        let ghost orig = inventory.slots@;
        let ghost sel = inventory.selected_slot;
        let ghost hb = inventory.hotbar_size;
        let ghost op = inventory.is_open;
        let mut k: usize = 0;
        while k < recipe.inputs.len()
            invariant
                inventory.wf(),
                k <= recipe.inputs@.len(),
                inventory.slots@ == remove_inputs(orig, recipe.inputs@.take(k as int)),
                inventory.selected_slot == sel,
                inventory.hotbar_size == hb,
                inventory.is_open == op,
            decreases recipe.inputs.len() - k,
        {
            let (item, count) = recipe.inputs[k];
            proof {
                assert(recipe.inputs@.take(k as int + 1).drop_last() =~= recipe.inputs@.take(k as int));
            }
            inventory.remove_items(item, count);
            k = k + 1;
        }
        proof {
            assert(recipe.inputs@.take(recipe.inputs@.len() as int) =~= recipe.inputs@);
        }
        let (output_item, output_count) = recipe.output;
        inventory.add_item(output_item, output_count);
        true
    }

    /// Indices of recipes whose station is in reach, each paired with whether
    /// its tech is still locked (`unlocked_techs` names the unlocked techs).
    pub fn recipes_visible_at_stations(
        &self,
        near_workbench: bool,
        near_forge: bool,
        near_campfire: bool,
        near_advanced_forge: bool,
        near_ancient: bool,
        unlocked_techs: &Vec<String>,
    ) -> (v: Vec<(usize, bool)>)
        ensures
            v@ == visible_prefix(self.recipe_views(), self.recipes@.len() as int, near_workbench,
                near_forge, near_campfire, near_advanced_forge, near_ancient, unlocked_techs@),
            forall|k: int| 0 <= k < v@.len() ==> (#[trigger] v@[k]).0 < self.recipes@.len() && ({
                let tier = self.recipes@[v@[k].0 as int].tier;
                &&& tier == CraftingTier::Workbench ==> near_workbench
                &&& tier == CraftingTier::Forge ==> near_forge
                &&& tier == CraftingTier::Campfire ==> near_campfire
                &&& tier == CraftingTier::AdvancedForge ==> near_advanced_forge
                &&& tier == CraftingTier::Ancient ==> near_ancient
            }),
    {
        let mut v: Vec<(usize, bool)> = Vec::new();
        let mut i: usize = 0;
        while i < self.recipes.len()
            invariant
                i <= self.recipes@.len(),
                v@ == visible_prefix(self.recipe_views(), i as int, near_workbench, near_forge,
                    near_campfire, near_advanced_forge, near_ancient, unlocked_techs@),
            decreases self.recipes.len() - i,
        {
            let r = &self.recipes[i];
            let tier_ok = match r.tier {
                CraftingTier::Hand => true,
                CraftingTier::Workbench => near_workbench,
                CraftingTier::Forge => near_forge,
                CraftingTier::Campfire => near_campfire,
                CraftingTier::AdvancedForge => near_advanced_forge,
                CraftingTier::Ancient => near_ancient,
            };
            if tier_ok {
                let locked = match r.tech_key {
                    Some(k) => !is_unlocked(unlocked_techs, k),
                    None => false,
                };
                v.push((i, locked));
            }
            i = i + 1;
        }
        proof {
            let rv = self.recipe_views();
            lemma_visible_members(rv, rv.len() as int, near_workbench, near_forge, near_campfire,
                near_advanced_forge, near_ancient, unlocked_techs@);
            assert forall|k: int| 0 <= k < v@.len() implies (#[trigger] v@[k]).0 < self.recipes@.len() && ({
                let tier = self.recipes@[v@[k].0 as int].tier;
                &&& tier == CraftingTier::Workbench ==> near_workbench
                &&& tier == CraftingTier::Forge ==> near_forge
                &&& tier == CraftingTier::Campfire ==> near_campfire
                &&& tier == CraftingTier::AdvancedForge ==> near_advanced_forge
                &&& tier == CraftingTier::Ancient ==> near_ancient
            }) by {
                assert(v@.contains(v@[k]));
                assert(rv[v@[k].0 as int] == self.recipes@[v@[k].0 as int]@);
            }
        }
        v
    }

    /// Indices of the recipes that can be used right now: station in reach
    /// and tech unlocked.
    pub fn available_recipes(
        &self,
        near_workbench: bool,
        near_forge: bool,
        near_campfire: bool,
        near_advanced_forge: bool,
        near_ancient: bool,
        unlocked_techs: &Vec<String>,
    ) -> (v: Vec<usize>)
        ensures
            v@ == unlocked_indices(visible_prefix(self.recipe_views(), self.recipes@.len() as int,
                near_workbench, near_forge, near_campfire, near_advanced_forge, near_ancient, unlocked_techs@)),
            forall|k: int| 0 <= k < v@.len() ==> (#[trigger] v@[k]) < self.recipes@.len() && ({
                let r = self.recipes@[v@[k] as int];
                &&& r.tier == CraftingTier::Workbench ==> near_workbench
                &&& r.tier == CraftingTier::Forge ==> near_forge
                &&& r.tier == CraftingTier::Campfire ==> near_campfire
                &&& r.tier == CraftingTier::AdvancedForge ==> near_advanced_forge
                &&& r.tier == CraftingTier::Ancient ==> near_ancient
                &&& r.tech_key matches Some(key) ==> tech_names(unlocked_techs@).contains(key@)
            }),
    {
        let visible = self.recipes_visible_at_stations(near_workbench, near_forge, near_campfire,
            near_advanced_forge, near_ancient, unlocked_techs);
        let mut v: Vec<usize> = Vec::new();
        let mut k: usize = 0;
        while k < visible.len()
            invariant
                k <= visible@.len(),
                v@ == unlocked_indices(visible@.take(k as int)),
            decreases visible.len() - k,
        {
            proof {
                assert(visible@.take(k as int + 1).drop_last() =~= visible@.take(k as int));
            }
            let (i, locked) = visible[k];
            if !locked {
                v.push(i);
            }
            k = k + 1;
        }
        let count = self.recipes.len();
        proof {
            assert(visible@.take(visible@.len() as int) =~= visible@);
            let rv = self.recipe_views();
            assert(rv.len() == count);
            lemma_available_members(rv, rv.len() as int, near_workbench, near_forge, near_campfire,
                near_advanced_forge, near_ancient, unlocked_techs@);
            assert forall|k: int| 0 <= k < v@.len() implies (#[trigger] v@[k]) < self.recipes@.len() && ({
                let r = self.recipes@[v@[k] as int];
                &&& r.tier == CraftingTier::Workbench ==> near_workbench
                &&& r.tier == CraftingTier::Forge ==> near_forge
                &&& r.tier == CraftingTier::Campfire ==> near_campfire
                &&& r.tier == CraftingTier::AdvancedForge ==> near_advanced_forge
                &&& r.tier == CraftingTier::Ancient ==> near_ancient
                &&& r.tech_key matches Some(key) ==> tech_names(unlocked_techs@).contains(key@)
            }) by {
                assert(v@.contains(v@[k]));
                assert(rv[v@[k] as int] == self.recipes@[v@[k] as int]@);
            }
        }
        v
    }
}

/// Whether `key` names one of the unlocked techs.
fn is_unlocked(unlocked_techs: &Vec<String>, key: &str) -> (b: bool)
    ensures
        b == tech_names(unlocked_techs@).contains(key@),
{
    let k = String::from_str(key);
    let mut j: usize = 0;
    while j < unlocked_techs.len()
        invariant
            j <= unlocked_techs@.len(),
            k@ == key@,
            forall|i: int| 0 <= i < j ==> unlocked_techs@[i]@ != key@,
        decreases unlocked_techs.len() - j,
    {
        if unlocked_techs[j] == k {
            proof {
                assert(tech_names(unlocked_techs@)[j as int] == key@);
            }
            return true;
        }
        j = j + 1;
    }
    proof {
        if tech_names(unlocked_techs@).contains(key@) {
            let w = choose|w: int| 0 <= w < tech_names(unlocked_techs@).len() && tech_names(unlocked_techs@)[w] == key@;
            assert(unlocked_techs@[w]@ == key@);
        }
    }
    false
}

// ---------------------------------------------------------------------------
// Laws
// ---------------------------------------------------------------------------

/// Taking out a list of distinct inputs that are all held lowers each item's
/// total by exactly the amount the list asks for and keeps the slots well
/// formed.
pub proof fn law_remove_inputs_exact(s: Seq<Option<InventorySlot>>, inputs: Seq<(ItemType, u32)>)
    requires
        slots_wf(s),
        inputs_distinct(inputs),
        inputs_available(s, inputs),
    ensures
        slots_wf(remove_inputs(s, inputs)),
        forall|x: ItemType| #[trigger] total_of(remove_inputs(s, inputs), x) + needed_of(inputs, x) == total_of(s, x),
    decreases inputs.len(),
{
    if inputs.len() > 0 {
        let d = inputs.drop_last();
        assert forall|a: int, b: int| 0 <= a < b < d.len() implies #[trigger] d[a].0 != #[trigger] d[b].0 by {
            assert(inputs[a] == d[a]);
            assert(inputs[b] == d[b]);
        }
        assert forall|k: int| 0 <= k < d.len() implies total_of(s, #[trigger] d[k].0) >= d[k].1 by {
            assert(inputs[k] == d[k]);
        }
        law_remove_inputs_exact(s, d);
        let mid = remove_inputs(s, d);
        let (y, c) = inputs.last();
        lemma_needed_absent(d, y);
        assert(total_of(s, inputs[inputs.len() - 1].0) >= inputs[inputs.len() - 1].1);
        assert(total_of(mid, y) + needed_of(d, y) == total_of(s, y));
        lemma_remove_result(mid, y, c);
        assert forall|x: ItemType| #[trigger] total_of(remove_inputs(s, inputs), x) + needed_of(inputs, x) == total_of(s, x) by {
            assert(total_of(mid, x) + needed_of(d, x) == total_of(s, x));
        }
    }
}

proof fn lemma_needed_absent(d: Seq<(ItemType, u32)>, y: ItemType)
    requires
        forall|k: int| 0 <= k < d.len() ==> #[trigger] d[k].0 != y,
    ensures
        needed_of(d, y) == 0,
    decreases d.len(),
{
    if d.len() > 0 {
        let e = d.drop_last();
        assert forall|k: int| 0 <= k < e.len() implies #[trigger] e[k].0 != y by {
            assert(e[k] == d[k]);
        }
        lemma_needed_absent(e, y);
        assert(d[d.len() - 1].0 != y);
    }
}

/// Crafting a built-in recipe whose inputs are all held takes exactly the
/// listed inputs out and leaves every item that is neither an input nor the
/// output untouched; the output grows by its count less what did not fit.
pub proof fn law_craft_exact(s: Seq<Option<InventorySlot>>, i: int)
    requires
        0 <= i < RECIPE_COUNT,
        slots_wf(s),
        inputs_available(s, RecipeView::recipe_spec(i).inputs),
    ensures
        ({
            let r = RecipeView::recipe_spec(i);
            let mid = remove_inputs(s, r.inputs);
            let (after, left) = add_result(mid, r.output.0, r.output.1);
            &&& slots_wf(after)
            &&& forall|x: ItemType| x != r.output.0 ==> #[trigger] total_of(after, x) + needed_of(r.inputs, x) == total_of(s, x)
            &&& total_of(after, r.output.0) + needed_of(r.inputs, r.output.0) + left == total_of(s, r.output.0) + r.output.1
        }),
{
    let r = RecipeView::recipe_spec(i);
    lemma_recipe_inputs_distinct(i);
    law_remove_inputs_exact(s, r.inputs);
    let mid = remove_inputs(s, r.inputs);
    lemma_add_result(mid, r.output.0, r.output.1);
    let (after, left) = add_result(mid, r.output.0, r.output.1);
    assert(total_of(mid, r.output.0) + needed_of(r.inputs, r.output.0) == total_of(s, r.output.0));
    assert forall|x: ItemType| x != r.output.0 implies #[trigger] total_of(after, x) + needed_of(r.inputs, x) == total_of(s, x) by {
        assert(total_of(mid, x) + needed_of(r.inputs, x) == total_of(s, x));
        assert(total_of(after, x) == total_of(mid, x));
    }
}

/// No built-in recipe lists the same input item twice.
pub proof fn lemma_recipe_inputs_distinct(i: int)
    requires
        0 <= i < RECIPE_COUNT,
    ensures
        inputs_distinct(RecipeView::recipe_spec(i).inputs),
{
}

/// The highlighted line of the crafting list after a frame's arrow keys: a
/// highlight past the end of the list jumps back to the top, then up and
/// down move one line and stop at the ends.
pub open spec fn spec_recipe_cursor(selected: nat, visible_len: nat, up: bool, down: bool) -> nat {
    let s0 = if selected >= visible_len { 0 } else { selected };
    let s1 = if up && s0 > 0 { (s0 - 1) as nat } else { s0 };
    if down && s1 + 1 < visible_len { s1 + 1 } else { s1 }
}

/// Moves the highlight through a non-empty list of visible recipes.
pub fn recipe_cursor(selected: usize, visible_len: usize, up: bool, down: bool) -> (next: usize)
    requires
        visible_len >= 1,
    ensures
        next == spec_recipe_cursor(selected as nat, visible_len as nat, up, down),
        next < visible_len,
{
    let mut s = if selected >= visible_len { 0 } else { selected };
    if up && s > 0 {
        s = s - 1;
    }
    if down && s < visible_len - 1 {
        s = s + 1;
    }
    s
}

impl CraftingSystem {
    /// The C key opens or closes the crafting menu and puts the highlight
    /// on the first recipe.
    pub fn toggle_open(&mut self)
        ensures
            final(self).is_open == !old(self).is_open,
            final(self).selected_recipe == 0,
            final(self).recipes@ == old(self).recipes@,
    {
        self.is_open = !self.is_open;
        self.selected_recipe = 0;
    }
}

proof fn lemma_available_members(
    recipes: Seq<RecipeView>,
    n: int,
    w: bool, f: bool, c: bool, af: bool, an: bool,
    unlocked: Seq<String>,
)
    requires
        0 <= n <= recipes.len(),
        n <= usize::MAX,
    ensures
        forall|i: usize| #[trigger] unlocked_indices(visible_prefix(recipes, n, w, f, c, af, an, unlocked)).contains(i)
            <==> (i < n && tier_reachable(recipes[i as int].tier, w, f, c, af, an) && !recipe_locked(recipes[i as int], unlocked)),
    decreases n,
{
    broadcast use vstd::seq_lib::lemma_seq_contains_after_push;
    if n > 0 {
        lemma_available_members(recipes, n - 1, w, f, c, af, an, unlocked);
        let p = visible_prefix(recipes, n - 1, w, f, c, af, an, unlocked);
        let r = recipes[n - 1];
        let u = unlocked_indices(p);
        let full = unlocked_indices(visible_prefix(recipes, n, w, f, c, af, an, unlocked));
        if tier_reachable(r.tier, w, f, c, af, an) {
            let e = ((n - 1) as usize, recipe_locked(r, unlocked));
            assert(p.push(e).drop_last() =~= p);
            assert(full == if e.1 { u } else { u.push(e.0) });
        } else {
            assert(full == u);
        }
        assert forall|i: usize| #[trigger] full.contains(i)
            <==> (i < n && tier_reachable(recipes[i as int].tier, w, f, c, af, an) && !recipe_locked(recipes[i as int], unlocked)) by {
            assert(u.contains(i) <==> (i < n - 1 && tier_reachable(recipes[i as int].tier, w, f, c, af, an) && !recipe_locked(recipes[i as int], unlocked)));
        }
    } else {
        let full = unlocked_indices(visible_prefix(recipes, n, w, f, c, af, an, unlocked));
        assert(full =~= Seq::<usize>::empty());
        assert forall|i: usize| !(#[trigger] full.contains(i)) by {}
    }
}

/// Coming within reach of more stations, or unlocking more techs, never
/// takes a recipe off the list of recipes that can be made.
pub proof fn law_available_recipes_grow(
    recipes: Seq<RecipeView>,
    n: int,
    w1: bool, f1: bool, c1: bool, af1: bool, an1: bool,
    w2: bool, f2: bool, c2: bool, af2: bool, an2: bool,
    unlocked1: Seq<String>,
    unlocked2: Seq<String>,
    i: usize,
)
    requires
        0 <= n <= recipes.len(),
        n <= usize::MAX,
        w1 ==> w2, f1 ==> f2, c1 ==> c2, af1 ==> af2, an1 ==> an2,
        forall|k: Seq<char>| tech_names(unlocked1).contains(k) ==> tech_names(unlocked2).contains(k),
        unlocked_indices(visible_prefix(recipes, n, w1, f1, c1, af1, an1, unlocked1)).contains(i),
    ensures
        unlocked_indices(visible_prefix(recipes, n, w2, f2, c2, af2, an2, unlocked2)).contains(i),
{
    lemma_available_members(recipes, n, w1, f1, c1, af1, an1, unlocked1);
    lemma_available_members(recipes, n, w2, f2, c2, af2, an2, unlocked2);
}

proof fn lemma_visible_members(
    recipes: Seq<RecipeView>,
    n: int,
    w: bool, f: bool, c: bool, af: bool, an: bool,
    unlocked: Seq<String>,
)
    requires
        0 <= n <= recipes.len(),
        n <= usize::MAX,
    ensures
        forall|e: (usize, bool)| #[trigger] visible_prefix(recipes, n, w, f, c, af, an, unlocked).contains(e)
            <==> (e.0 < n && tier_reachable(recipes[e.0 as int].tier, w, f, c, af, an)
                && e.1 == recipe_locked(recipes[e.0 as int], unlocked)),
        forall|a: int, b: int| 0 <= a < b < visible_prefix(recipes, n, w, f, c, af, an, unlocked).len()
            ==> (#[trigger] visible_prefix(recipes, n, w, f, c, af, an, unlocked)[a]).0
                < (#[trigger] visible_prefix(recipes, n, w, f, c, af, an, unlocked)[b]).0,
        forall|a: int| 0 <= a < visible_prefix(recipes, n, w, f, c, af, an, unlocked).len()
            ==> (#[trigger] visible_prefix(recipes, n, w, f, c, af, an, unlocked)[a]).0 < n,
    decreases n,
{
    broadcast use vstd::seq_lib::lemma_seq_contains_after_push;
    let v = visible_prefix(recipes, n, w, f, c, af, an, unlocked);
    if n > 0 {
        lemma_visible_members(recipes, n - 1, w, f, c, af, an, unlocked);
        let p = visible_prefix(recipes, n - 1, w, f, c, af, an, unlocked);
        assert forall|e: (usize, bool)| #[trigger] v.contains(e)
            <==> (e.0 < n && tier_reachable(recipes[e.0 as int].tier, w, f, c, af, an)
                && e.1 == recipe_locked(recipes[e.0 as int], unlocked)) by {
            assert(p.contains(e) <==> (e.0 < n - 1 && tier_reachable(recipes[e.0 as int].tier, w, f, c, af, an)
                && e.1 == recipe_locked(recipes[e.0 as int], unlocked)));
        }
        assert forall|a: int| 0 <= a < v.len() implies (#[trigger] v[a]).0 < n by {
            if a < p.len() { assert(v[a] == p[a]); }
        }
        assert forall|a: int, b: int| 0 <= a < b < v.len() implies (#[trigger] v[a]).0 < (#[trigger] v[b]).0 by {
            assert(v[a] == p[a]);
            if b < p.len() { assert(v[b] == p[b]); }
        }
    } else {
        assert(v =~= Seq::<(usize, bool)>::empty());
    }
}

/// A recipe is listed only when its own station is in reach (hand recipes
/// always are), each recipe at most once and in book order, marked locked
/// exactly when it names a tech that is not unlocked; and every recipe whose
/// station is in reach is listed.
pub proof fn law_recipe_listed_at_its_station(
    recipes: Seq<RecipeView>,
    n: int,
    near_workbench: bool, near_forge: bool, near_campfire: bool, near_advanced_forge: bool, near_ancient: bool,
    unlocked: Seq<String>,
    i: usize,
    locked: bool,
)
    requires
        0 <= n <= recipes.len(),
        n <= usize::MAX,
    ensures
        ({
            let v = visible_prefix(recipes, n, near_workbench, near_forge, near_campfire, near_advanced_forge,
                near_ancient, unlocked);
            let r = recipes[i as int];
            let key_locked = match r.tech_key {
                Some(k) => !tech_names(unlocked).contains(k),
                None => false,
            };
            &&& v.contains((i, locked)) ==> i < n && locked == key_locked
            &&& v.contains((i, locked)) && r.tier == CraftingTier::Workbench ==> near_workbench
            &&& v.contains((i, locked)) && r.tier == CraftingTier::Forge ==> near_forge
            &&& v.contains((i, locked)) && r.tier == CraftingTier::Campfire ==> near_campfire
            &&& v.contains((i, locked)) && r.tier == CraftingTier::AdvancedForge ==> near_advanced_forge
            &&& v.contains((i, locked)) && r.tier == CraftingTier::Ancient ==> near_ancient
            &&& i < n && locked == key_locked && (r.tier == CraftingTier::Hand
                || (r.tier == CraftingTier::Workbench && near_workbench)
                || (r.tier == CraftingTier::Forge && near_forge)
                || (r.tier == CraftingTier::Campfire && near_campfire)
                || (r.tier == CraftingTier::AdvancedForge && near_advanced_forge)
                || (r.tier == CraftingTier::Ancient && near_ancient)) ==> v.contains((i, locked))
            &&& forall|a: int, b: int| 0 <= a < b < v.len() ==> (#[trigger] v[a]).0 < (#[trigger] v[b]).0
        }),
{
    lemma_visible_members(recipes, n, near_workbench, near_forge, near_campfire, near_advanced_forge,
        near_ancient, unlocked);
}

/// A recipe can be made only when its own station is in reach and its tech,
/// if it names one, is unlocked; and every such recipe can be made.
pub proof fn law_available_at_its_station(
    recipes: Seq<RecipeView>,
    n: int,
    near_workbench: bool, near_forge: bool, near_campfire: bool, near_advanced_forge: bool, near_ancient: bool,
    unlocked: Seq<String>,
    i: usize,
)
    requires
        0 <= n <= recipes.len(),
        n <= usize::MAX,
    ensures
        ({
            let a = unlocked_indices(visible_prefix(recipes, n, near_workbench, near_forge, near_campfire,
                near_advanced_forge, near_ancient, unlocked));
            let r = recipes[i as int];
            let tech_ok = match r.tech_key {
                Some(k) => tech_names(unlocked).contains(k),
                None => true,
            };
            let station_ok = r.tier == CraftingTier::Hand
                || (r.tier == CraftingTier::Workbench && near_workbench)
                || (r.tier == CraftingTier::Forge && near_forge)
                || (r.tier == CraftingTier::Campfire && near_campfire)
                || (r.tier == CraftingTier::AdvancedForge && near_advanced_forge)
                || (r.tier == CraftingTier::Ancient && near_ancient);
            a.contains(i) <==> (i < n && station_ok && tech_ok)
        }),
{
    lemma_available_members(recipes, n, near_workbench, near_forge, near_campfire, near_advanced_forge,
        near_ancient, unlocked);
}

/// The recipe highlight moves one step at a time and stops at the ends of
/// the list: with no key it stays, up moves it one back unless it is first,
/// down one on unless it is last, and a highlight past the end starts over
/// at the first recipe. It always lands on a listed recipe.
pub proof fn law_recipe_cursor_steps(selected: nat, len: nat, up: bool, down: bool)
    requires
        len >= 1,
    ensures
        spec_recipe_cursor(selected, len, up, down) < len,
        selected < len && !up && !down ==> spec_recipe_cursor(selected, len, up, down) == selected,
        selected >= len && !up && !down ==> spec_recipe_cursor(selected, len, up, down) == 0,
        0 < selected < len && up && !down ==> spec_recipe_cursor(selected, len, up, down) == selected - 1,
        selected == 0 && up && !down ==> spec_recipe_cursor(selected, len, up, down) == 0,
        selected + 1 < len && down && !up ==> spec_recipe_cursor(selected, len, up, down) == selected + 1,
        selected + 1 == len && down && !up ==> spec_recipe_cursor(selected, len, up, down) == selected,
{
}

} // verus!
