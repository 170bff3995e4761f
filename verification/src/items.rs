//! Item kinds and their fixed properties: names, stack sizes, durability,
//! combat values and tool tiers.

use vstd::prelude::*;

verus! {

/// Every kind of item that can sit in an inventory slot.
#[derive(Clone, Copy, Debug, PartialEq, Eq, Hash, Structural)]
pub enum ItemType {
    Wood,
    Stone,
    PlantFiber,
    Stick,
    Flint,
    WoodPlank,
    Rope,
    Campfire,
    WoodFloor,
    Workbench,
    WoodAxe,
    WoodPickaxe,
    StoneAxe,
    StonePickaxe,
    Berry,
    WoodWall,
    WoodDoor,
    WoodRoof,
    WoodFence,
    Chest,
    Torch,
    WoodSword,
    WoodShield,
    WoodBow,
    Arrow,
    CactusFiber,
    IceShard,
    MushroomCap,
    Spore,
    Reed,
    Sulfur,
    CrystalShard,
    AlpineHerb,
    Peat,
    ObsidianShard,
    IronOre,
    Coal,
    StoneBlock,
    IronIngot,
    SteelAlloy,
    Forge,
    Anvil,
    IronAxe,
    IronPickaxe,
    IronSword,
    IronShield,
    IronHelmet,
    IronChestplate,
    StoneWall,
    Hoe,
    WheatSeed,
    CarrotSeed,
    Wheat,
    Carrot,
    CookedBerry,
    BakedWheat,
    CookedCarrot,
    AdvancedForge,
    AlchemyLab,
    RareHerb,
    Gemstone,
    AncientCore,
    SteelSword,
    SteelAxe,
    SteelPickaxe,
    SteelArmor,
    HealthPotion,
    SpeedPotion,
    StrengthPotion,
    AncientWorkstation,
    AncientBlade,
    AncientArmor,
    AncientPickaxe,
    Blueprint,
    GuardianHeart,
    SwampEssence,
    WyrmScale,
    FrostGem,
    MagmaCore,
    FungalSporeEssence,
    CrystalHeart,
    JournalPage,
    StoneFloor,
    StoneDoor,
    StoneRoof,
    MetalWall,
    MetalDoor,
    Bed,
    CoralEssence,
    TitanBone,
    SandstoneChip,
    Shell,
    Seaweed,
    BioGel,
    EchoStoneFragment,
    FrozenOre,
    CaveSlime,
    SpiderSilk,
    AlarmBellItem,
    AutoSmelterItem,
    BakedPotato,
    BakedPumpkin,
    Bookshelf,
    Brick,
    BrickWall,
    CookedCatfish,
    CookedEel,
    CookedOnion,
    CookedRice,
    CookedSalmon,
    CookedTomato,
    CookedTrout,
    CookingPot,
    Corn,
    CornSeed,
    CrabMeat,
    CropSprinklerItem,
    DisplayCase,
    EnchantingTable,
    FireEssence,
    FishBait,
    FishSmoker,
    FishingRod,
    FlameBlade,
    Flax,
    FlaxSeed,
    FrostBlade,
    IceEssence,
    Ladder,
    Lantern,
    LifeEssence,
    LifestealBlade,
    LinenCloth,
    Melon,
    MelonSeed,
    MelonSlice,
    Onion,
    OnionSeed,
    Pepper,
    PepperSeed,
    PetCollar,
    PetFood,
    PetHouse,
    Potato,
    PotatoSeed,
    Pumpkin,
    PumpkinSeed,
    RainCollector,
    RawCatfish,
    RawCrab,
    RawEel,
    RawPufferfish,
    RawSalmon,
    RawTrout,
    ReinforcedStoneBlock,
    ReinforcedStoneWall,
    Rice,
    RiceSeed,
    RoastedCorn,
    RoastedPepper,
    SteelFishingRod,
    StoneStairs,
    Sugar,
    Sugarcane,
    SugarcaneSeed,
    Tomato,
    TomatoSeed,
    TrophyMount,
    VenomBlade,
    VenomEssence,
    WeaponRack,
    WoodHalfWall,
    WoodStairs,
    WoodWallWindow,
}

impl ItemType {
    /// The name shown to the player.
    pub open spec fn spec_display_name(self) -> Seq<char> {
        match self {
            ItemType::Wood => "Wood"@,
            ItemType::Stone => "Stone"@,
            ItemType::PlantFiber => "Plant Fiber"@,
            ItemType::Stick => "Stick"@,
            ItemType::Flint => "Flint"@,
            ItemType::WoodPlank => "Wood Plank"@,
            ItemType::Rope => "Rope"@,
            ItemType::Campfire => "Campfire"@,
            ItemType::WoodFloor => "Wood Floor"@,
            ItemType::Workbench => "Workbench"@,
            ItemType::WoodAxe => "Wood Axe"@,
            ItemType::WoodPickaxe => "Wood Pickaxe"@,
            ItemType::StoneAxe => "Stone Axe"@,
            ItemType::StonePickaxe => "Stone Pickaxe"@,
            ItemType::Berry => "Berry"@,
            ItemType::WoodWall => "Wood Wall"@,
            ItemType::WoodDoor => "Wood Door"@,
            ItemType::WoodRoof => "Wood Roof"@,
            ItemType::WoodFence => "Wood Fence"@,
            ItemType::Chest => "Chest"@,
            ItemType::Torch => "Torch"@,
            ItemType::WoodSword => "Wood Sword"@,
            ItemType::WoodShield => "Wood Shield"@,
            ItemType::WoodBow => "Wood Bow"@,
            ItemType::Arrow => "Arrow"@,
            ItemType::CactusFiber => "Cactus Fiber"@,
            ItemType::IceShard => "Ice Shard"@,
            ItemType::MushroomCap => "Mushroom Cap"@,
            ItemType::Spore => "Spore"@,
            ItemType::Reed => "Reed"@,
            ItemType::Sulfur => "Sulfur"@,
            ItemType::CrystalShard => "Crystal Shard"@,
            ItemType::AlpineHerb => "Alpine Herb"@,
            ItemType::Peat => "Peat"@,
            ItemType::ObsidianShard => "Obsidian"@,
            ItemType::IronOre => "Iron Ore"@,
            ItemType::Coal => "Coal"@,
            ItemType::StoneBlock => "Stone Block"@,
            ItemType::IronIngot => "Iron Ingot"@,
            ItemType::SteelAlloy => "Steel Alloy"@,
            ItemType::Forge => "Forge"@,
            ItemType::Anvil => "Anvil"@,
            ItemType::IronAxe => "Iron Axe"@,
            ItemType::IronPickaxe => "Iron Pickaxe"@,
            ItemType::IronSword => "Iron Sword"@,
            ItemType::IronShield => "Iron Shield"@,
            ItemType::IronHelmet => "Iron Helmet"@,
            ItemType::IronChestplate => "Iron Chestplate"@,
            ItemType::StoneWall => "Stone Wall"@,
            ItemType::Hoe => "Hoe"@,
            ItemType::WheatSeed => "Wheat Seed"@,
            ItemType::CarrotSeed => "Carrot Seed"@,
            ItemType::Wheat => "Wheat"@,
            ItemType::Carrot => "Carrot"@,
            ItemType::CookedBerry => "Cooked Berry"@,
            ItemType::BakedWheat => "Baked Wheat"@,
            ItemType::CookedCarrot => "Cooked Carrot"@,
            ItemType::AdvancedForge => "Advanced Forge"@,
            ItemType::AlchemyLab => "Alchemy Lab"@,
            ItemType::RareHerb => "Rare Herb"@,
            ItemType::Gemstone => "Gemstone"@,
            ItemType::AncientCore => "Ancient Core"@,
            ItemType::SteelSword => "Steel Sword"@,
            ItemType::SteelAxe => "Steel Axe"@,
            ItemType::SteelPickaxe => "Steel Pickaxe"@,
            ItemType::SteelArmor => "Steel Armor"@,
            ItemType::HealthPotion => "Health Potion"@,
            ItemType::SpeedPotion => "Speed Potion"@,
            ItemType::StrengthPotion => "Strength Potion"@,
            ItemType::AncientWorkstation => "Ancient Workstation"@,
            ItemType::AncientBlade => "Ancient Blade"@,
            ItemType::AncientArmor => "Ancient Armor"@,
            ItemType::AncientPickaxe => "Ancient Pickaxe"@,
            ItemType::Blueprint => "Blueprint"@,
            ItemType::GuardianHeart => "Guardian Heart"@,
            ItemType::SwampEssence => "Swamp Essence"@,
            ItemType::WyrmScale => "Wyrm Scale"@,
            ItemType::FrostGem => "Frost Gem"@,
            ItemType::MagmaCore => "Magma Core"@,
            ItemType::FungalSporeEssence => "Fungal Spore Essence"@,
            ItemType::CrystalHeart => "Crystal Heart"@,
            ItemType::JournalPage => "Journal Page"@,
            ItemType::StoneFloor => "Stone Floor"@,
            ItemType::StoneDoor => "Stone Door"@,
            ItemType::StoneRoof => "Stone Roof"@,
            ItemType::MetalWall => "Metal Wall"@,
            ItemType::MetalDoor => "Metal Door"@,
            ItemType::Bed => "Bed"@,
            ItemType::CoralEssence => "Coral Essence"@,
            ItemType::TitanBone => "Titan Bone"@,
            ItemType::SandstoneChip => "Sandstone Chip"@,
            ItemType::Shell => "Shell"@,
            ItemType::Seaweed => "Seaweed"@,
            ItemType::BioGel => "Bio-Luminescent Gel"@,
            ItemType::EchoStoneFragment => "Echo Stone Fragment"@,
            ItemType::FrozenOre => "Frozen Ore"@,
            ItemType::CaveSlime => "Cave Slime"@,
            ItemType::SpiderSilk => "Spider Silk"@,
            ItemType::AlarmBellItem => "Alarm Bell"@,
            ItemType::AutoSmelterItem => "Auto-Smelter"@,
            ItemType::BakedPotato => "Baked Potato"@,
            ItemType::BakedPumpkin => "Baked Pumpkin"@,
            ItemType::Bookshelf => "Bookshelf"@,
            ItemType::Brick => "Brick"@,
            ItemType::BrickWall => "Brick Wall"@,
            ItemType::CookedCatfish => "Cooked Catfish"@,
            ItemType::CookedEel => "Cooked Eel"@,
            ItemType::CookedOnion => "Cooked Onion"@,
            ItemType::CookedRice => "Cooked Rice"@,
            ItemType::CookedSalmon => "Cooked Salmon"@,
            ItemType::CookedTomato => "Cooked Tomato"@,
            ItemType::CookedTrout => "Cooked Trout"@,
            ItemType::CookingPot => "Cooking Pot"@,
            ItemType::Corn => "Corn"@,
            ItemType::CornSeed => "Corn Seed"@,
            ItemType::CrabMeat => "Crab Meat"@,
            ItemType::CropSprinklerItem => "Crop Sprinkler"@,
            ItemType::DisplayCase => "Display Case"@,
            ItemType::EnchantingTable => "Enchanting Table"@,
            ItemType::FireEssence => "Fire Essence"@,
            ItemType::FishBait => "Fish Bait"@,
            ItemType::FishSmoker => "Fish Smoker"@,
            ItemType::FishingRod => "Fishing Rod"@,
            ItemType::FlameBlade => "Flame Blade"@,
            ItemType::Flax => "Flax"@,
            ItemType::FlaxSeed => "Flax Seed"@,
            ItemType::FrostBlade => "Frost Blade"@,
            ItemType::IceEssence => "Ice Essence"@,
            ItemType::Ladder => "Ladder"@,
            ItemType::Lantern => "Lantern"@,
            ItemType::LifeEssence => "Life Essence"@,
            ItemType::LifestealBlade => "Lifesteal Blade"@,
            ItemType::LinenCloth => "Linen Cloth"@,
            ItemType::Melon => "Melon"@,
            ItemType::MelonSeed => "Melon Seed"@,
            ItemType::MelonSlice => "Melon Slice"@,
            ItemType::Onion => "Onion"@,
            ItemType::OnionSeed => "Onion Seed"@,
            ItemType::Pepper => "Pepper"@,
            ItemType::PepperSeed => "Pepper Seed"@,
            ItemType::PetCollar => "Pet Collar"@,
            ItemType::PetFood => "Pet Food"@,
            ItemType::PetHouse => "Pet House"@,
            ItemType::Potato => "Potato"@,
            ItemType::PotatoSeed => "Potato Seed"@,
            ItemType::Pumpkin => "Pumpkin"@,
            ItemType::PumpkinSeed => "Pumpkin Seed"@,
            ItemType::RainCollector => "Rain Collector"@,
            ItemType::RawCatfish => "Raw Catfish"@,
            ItemType::RawCrab => "Raw Crab"@,
            ItemType::RawEel => "Raw Eel"@,
            ItemType::RawPufferfish => "Raw Pufferfish"@,
            ItemType::RawSalmon => "Raw Salmon"@,
            ItemType::RawTrout => "Raw Trout"@,
            ItemType::ReinforcedStoneBlock => "Reinforced Stone Block"@,
            ItemType::ReinforcedStoneWall => "Reinforced Stone Wall"@,
            ItemType::Rice => "Rice"@,
            ItemType::RiceSeed => "Rice Seed"@,
            ItemType::RoastedCorn => "Roasted Corn"@,
            ItemType::RoastedPepper => "Roasted Pepper"@,
            ItemType::SteelFishingRod => "Steel Fishing Rod"@,
            ItemType::StoneStairs => "Stone Stairs"@,
            ItemType::Sugar => "Sugar"@,
            ItemType::Sugarcane => "Sugarcane"@,
            ItemType::SugarcaneSeed => "Sugarcane Seed"@,
            ItemType::Tomato => "Tomato"@,
            ItemType::TomatoSeed => "Tomato Seed"@,
            ItemType::TrophyMount => "Trophy Mount"@,
            ItemType::VenomBlade => "Venom Blade"@,
            ItemType::VenomEssence => "Venom Essence"@,
            ItemType::WeaponRack => "Weapon Rack"@,
            ItemType::WoodHalfWall => "Wood Half Wall"@,
            ItemType::WoodStairs => "Wood Stairs"@,
            ItemType::WoodWallWindow => "Wood Wall (Window)"@,
        }
    }

    /// Human-readable name of the item.
    pub fn display_name(&self) -> (name: &'static str)
        ensures
            name@ == self.spec_display_name(),
    {
        match self {
            ItemType::Wood => "Wood",
            ItemType::Stone => "Stone",
            ItemType::PlantFiber => "Plant Fiber",
            ItemType::Stick => "Stick",
            ItemType::Flint => "Flint",
            ItemType::WoodPlank => "Wood Plank",
            ItemType::Rope => "Rope",
            ItemType::Campfire => "Campfire",
            ItemType::WoodFloor => "Wood Floor",
            ItemType::Workbench => "Workbench",
            ItemType::WoodAxe => "Wood Axe",
            ItemType::WoodPickaxe => "Wood Pickaxe",
            ItemType::StoneAxe => "Stone Axe",
            ItemType::StonePickaxe => "Stone Pickaxe",
            ItemType::Berry => "Berry",
            ItemType::WoodWall => "Wood Wall",
            ItemType::WoodDoor => "Wood Door",
            ItemType::WoodRoof => "Wood Roof",
            ItemType::WoodFence => "Wood Fence",
            ItemType::Chest => "Chest",
            ItemType::Torch => "Torch",
            ItemType::WoodSword => "Wood Sword",
            ItemType::WoodShield => "Wood Shield",
            ItemType::WoodBow => "Wood Bow",
            ItemType::Arrow => "Arrow",
            ItemType::CactusFiber => "Cactus Fiber",
            ItemType::IceShard => "Ice Shard",
            ItemType::MushroomCap => "Mushroom Cap",
            ItemType::Spore => "Spore",
            ItemType::Reed => "Reed",
            ItemType::Sulfur => "Sulfur",
            ItemType::CrystalShard => "Crystal Shard",
            ItemType::AlpineHerb => "Alpine Herb",
            ItemType::Peat => "Peat",
            ItemType::ObsidianShard => "Obsidian",
            ItemType::IronOre => "Iron Ore",
            ItemType::Coal => "Coal",
            ItemType::StoneBlock => "Stone Block",
            ItemType::IronIngot => "Iron Ingot",
            ItemType::SteelAlloy => "Steel Alloy",
            ItemType::Forge => "Forge",
            ItemType::Anvil => "Anvil",
            ItemType::IronAxe => "Iron Axe",
            ItemType::IronPickaxe => "Iron Pickaxe",
            ItemType::IronSword => "Iron Sword",
            ItemType::IronShield => "Iron Shield",
            ItemType::IronHelmet => "Iron Helmet",
            ItemType::IronChestplate => "Iron Chestplate",
            ItemType::StoneWall => "Stone Wall",
            ItemType::Hoe => "Hoe",
            ItemType::WheatSeed => "Wheat Seed",
            ItemType::CarrotSeed => "Carrot Seed",
            ItemType::Wheat => "Wheat",
            ItemType::Carrot => "Carrot",
            ItemType::CookedBerry => "Cooked Berry",
            ItemType::BakedWheat => "Baked Wheat",
            ItemType::CookedCarrot => "Cooked Carrot",
            ItemType::AdvancedForge => "Advanced Forge",
            ItemType::AlchemyLab => "Alchemy Lab",
            ItemType::RareHerb => "Rare Herb",
            ItemType::Gemstone => "Gemstone",
            ItemType::AncientCore => "Ancient Core",
            ItemType::SteelSword => "Steel Sword",
            ItemType::SteelAxe => "Steel Axe",
            ItemType::SteelPickaxe => "Steel Pickaxe",
            ItemType::SteelArmor => "Steel Armor",
            ItemType::HealthPotion => "Health Potion",
            ItemType::SpeedPotion => "Speed Potion",
            ItemType::StrengthPotion => "Strength Potion",
            ItemType::AncientWorkstation => "Ancient Workstation",
            ItemType::AncientBlade => "Ancient Blade",
            ItemType::AncientArmor => "Ancient Armor",
            ItemType::AncientPickaxe => "Ancient Pickaxe",
            ItemType::Blueprint => "Blueprint",
            ItemType::GuardianHeart => "Guardian Heart",
            ItemType::SwampEssence => "Swamp Essence",
            ItemType::WyrmScale => "Wyrm Scale",
            ItemType::FrostGem => "Frost Gem",
            ItemType::MagmaCore => "Magma Core",
            ItemType::FungalSporeEssence => "Fungal Spore Essence",
            ItemType::CrystalHeart => "Crystal Heart",
            ItemType::JournalPage => "Journal Page",
            ItemType::StoneFloor => "Stone Floor",
            ItemType::StoneDoor => "Stone Door",
            ItemType::StoneRoof => "Stone Roof",
            ItemType::MetalWall => "Metal Wall",
            ItemType::MetalDoor => "Metal Door",
            ItemType::Bed => "Bed",
            ItemType::CoralEssence => "Coral Essence",
            ItemType::TitanBone => "Titan Bone",
            ItemType::SandstoneChip => "Sandstone Chip",
            ItemType::Shell => "Shell",
            ItemType::Seaweed => "Seaweed",
            ItemType::BioGel => "Bio-Luminescent Gel",
            ItemType::EchoStoneFragment => "Echo Stone Fragment",
            ItemType::FrozenOre => "Frozen Ore",
            ItemType::CaveSlime => "Cave Slime",
            ItemType::SpiderSilk => "Spider Silk",
            ItemType::AlarmBellItem => "Alarm Bell",
            ItemType::AutoSmelterItem => "Auto-Smelter",
            ItemType::BakedPotato => "Baked Potato",
            ItemType::BakedPumpkin => "Baked Pumpkin",
            ItemType::Bookshelf => "Bookshelf",
            ItemType::Brick => "Brick",
            ItemType::BrickWall => "Brick Wall",
            ItemType::CookedCatfish => "Cooked Catfish",
            ItemType::CookedEel => "Cooked Eel",
            ItemType::CookedOnion => "Cooked Onion",
            ItemType::CookedRice => "Cooked Rice",
            ItemType::CookedSalmon => "Cooked Salmon",
            ItemType::CookedTomato => "Cooked Tomato",
            ItemType::CookedTrout => "Cooked Trout",
            ItemType::CookingPot => "Cooking Pot",
            ItemType::Corn => "Corn",
            ItemType::CornSeed => "Corn Seed",
            ItemType::CrabMeat => "Crab Meat",
            ItemType::CropSprinklerItem => "Crop Sprinkler",
            ItemType::DisplayCase => "Display Case",
            ItemType::EnchantingTable => "Enchanting Table",
            ItemType::FireEssence => "Fire Essence",
            ItemType::FishBait => "Fish Bait",
            ItemType::FishSmoker => "Fish Smoker",
            ItemType::FishingRod => "Fishing Rod",
            ItemType::FlameBlade => "Flame Blade",
            ItemType::Flax => "Flax",
            ItemType::FlaxSeed => "Flax Seed",
            ItemType::FrostBlade => "Frost Blade",
            ItemType::IceEssence => "Ice Essence",
            ItemType::Ladder => "Ladder",
            ItemType::Lantern => "Lantern",
            ItemType::LifeEssence => "Life Essence",
            ItemType::LifestealBlade => "Lifesteal Blade",
            ItemType::LinenCloth => "Linen Cloth",
            ItemType::Melon => "Melon",
            ItemType::MelonSeed => "Melon Seed",
            ItemType::MelonSlice => "Melon Slice",
            ItemType::Onion => "Onion",
            ItemType::OnionSeed => "Onion Seed",
            ItemType::Pepper => "Pepper",
            ItemType::PepperSeed => "Pepper Seed",
            ItemType::PetCollar => "Pet Collar",
            ItemType::PetFood => "Pet Food",
            ItemType::PetHouse => "Pet House",
            ItemType::Potato => "Potato",
            ItemType::PotatoSeed => "Potato Seed",
            ItemType::Pumpkin => "Pumpkin",
            ItemType::PumpkinSeed => "Pumpkin Seed",
            ItemType::RainCollector => "Rain Collector",
            ItemType::RawCatfish => "Raw Catfish",
            ItemType::RawCrab => "Raw Crab",
            ItemType::RawEel => "Raw Eel",
            ItemType::RawPufferfish => "Raw Pufferfish",
            ItemType::RawSalmon => "Raw Salmon",
            ItemType::RawTrout => "Raw Trout",
            ItemType::ReinforcedStoneBlock => "Reinforced Stone Block",
            ItemType::ReinforcedStoneWall => "Reinforced Stone Wall",
            ItemType::Rice => "Rice",
            ItemType::RiceSeed => "Rice Seed",
            ItemType::RoastedCorn => "Roasted Corn",
            ItemType::RoastedPepper => "Roasted Pepper",
            ItemType::SteelFishingRod => "Steel Fishing Rod",
            ItemType::StoneStairs => "Stone Stairs",
            ItemType::Sugar => "Sugar",
            ItemType::Sugarcane => "Sugarcane",
            ItemType::SugarcaneSeed => "Sugarcane Seed",
            ItemType::Tomato => "Tomato",
            ItemType::TomatoSeed => "Tomato Seed",
            ItemType::TrophyMount => "Trophy Mount",
            ItemType::VenomBlade => "Venom Blade",
            ItemType::VenomEssence => "Venom Essence",
            ItemType::WeaponRack => "Weapon Rack",
            ItemType::WoodHalfWall => "Wood Half Wall",
            ItemType::WoodStairs => "Wood Stairs",
            ItemType::WoodWallWindow => "Wood Wall (Window)",
        }
    }

    /// Tools, weapons and armour pieces never stack.
    pub open spec fn is_unstackable(self) -> bool {
        match self {
            ItemType::WoodAxe |
            ItemType::WoodPickaxe |
            ItemType::StoneAxe |
            ItemType::StonePickaxe |
            ItemType::WoodSword |
            ItemType::WoodShield |
            ItemType::WoodBow |
            ItemType::IronAxe |
            ItemType::IronPickaxe |
            ItemType::IronSword |
            ItemType::IronShield |
            ItemType::IronHelmet |
            ItemType::IronChestplate |
            ItemType::Hoe |
            ItemType::SteelSword |
            ItemType::SteelAxe |
            ItemType::SteelPickaxe |
            ItemType::SteelArmor |
            ItemType::AncientBlade |
            ItemType::AncientArmor |
            ItemType::AncientPickaxe => true,
            _ => false,
        }
    }

    /// Largest count one slot may hold: 1 for tools, weapons and armour, 64 otherwise.
    pub open spec fn spec_max_stack(self) -> u32 {
        if self.is_unstackable() { 1 } else { 64 }
    }

    /// Largest count one slot may hold.
    pub fn max_stack(&self) -> (n: u32)
        ensures
            n == self.spec_max_stack(),
    {
        match self {
            ItemType::WoodAxe |
            ItemType::WoodPickaxe |
            ItemType::StoneAxe |
            ItemType::StonePickaxe |
            ItemType::WoodSword |
            ItemType::WoodShield |
            ItemType::WoodBow |
            ItemType::IronAxe |
            ItemType::IronPickaxe |
            ItemType::IronSword |
            ItemType::IronShield |
            ItemType::IronHelmet |
            ItemType::IronChestplate |
            ItemType::Hoe |
            ItemType::SteelSword |
            ItemType::SteelAxe |
            ItemType::SteelPickaxe |
            ItemType::SteelArmor |
            ItemType::AncientBlade |
            ItemType::AncientArmor |
            ItemType::AncientPickaxe => 1,
            _ => 64,
        }
    }

    /// Durability a fresh item of this kind starts with, for tools and swords.
    pub open spec fn spec_max_durability(self) -> Option<u32> {
        match self {

            ItemType::WoodAxe => Some(50),
            ItemType::WoodPickaxe => Some(50),
            ItemType::StoneAxe => Some(100),
            ItemType::StonePickaxe => Some(100),
            ItemType::IronAxe => Some(200),
            ItemType::IronPickaxe => Some(200),
            ItemType::IronSword => Some(150),
            ItemType::Hoe => Some(75),
            ItemType::SteelAxe => Some(300),
            ItemType::SteelPickaxe => Some(300),
            ItemType::SteelSword => Some(250),
            ItemType::AncientPickaxe => Some(500),
            ItemType::AncientBlade => Some(400),
            _ => None,
        }
    }

    /// Durability a fresh item of this kind starts with, if it wears out.
    pub fn max_durability(&self) -> (d: Option<u32>)
        ensures
            d == self.spec_max_durability(),
    {
        match self {
            ItemType::WoodAxe => Some(50),
            ItemType::WoodPickaxe => Some(50),
            ItemType::StoneAxe => Some(100),
            ItemType::StonePickaxe => Some(100),
            ItemType::IronAxe => Some(200),
            ItemType::IronPickaxe => Some(200),
            ItemType::IronSword => Some(150),
            ItemType::Hoe => Some(75),
            ItemType::SteelAxe => Some(300),
            ItemType::SteelPickaxe => Some(300),
            ItemType::SteelSword => Some(250),
            ItemType::AncientPickaxe => Some(500),
            ItemType::AncientBlade => Some(400),
            _ => None,
        }
    }

    /// Whether the item wears out with use.
    pub fn is_tool(&self) -> (b: bool)
        ensures
            b == self.spec_max_durability().is_some(),
    {
        self.max_durability().is_some()
    }

    /// Melee damage of a sword, in hit points.
    pub open spec fn spec_weapon_damage(self) -> Option<u32> {
        match self {
            ItemType::WoodSword => Some(10),
            ItemType::IronSword => Some(20),
            ItemType::SteelSword => Some(35),
            ItemType::AncientBlade => Some(50),
            _ => None,
        }
    }

    /// Melee damage of a sword, in whole hit points; `None` for anything else.
    pub fn weapon_damage(&self) -> (d: Option<u32>)
        ensures
            d == self.spec_weapon_damage(),
    {
        match self {
            ItemType::WoodSword => Some(10),
            ItemType::IronSword => Some(20),
            ItemType::SteelSword => Some(35),
            ItemType::AncientBlade => Some(50),
            _ => None,
        }
    }

    /// Armour points granted when worn.
    pub open spec fn spec_armor_value(self) -> u32 {
        match self {
            ItemType::IronHelmet => 3,
            ItemType::IronChestplate => 5,
            ItemType::SteelArmor => 8,
            ItemType::AncientArmor => 12,
            _ => 0,
        }
    }

    /// Armour points granted when worn.
    pub fn armor_value(&self) -> (a: u32)
        ensures
            a == self.spec_armor_value(),
    {
        match self {
            ItemType::IronHelmet => 3,
            ItemType::IronChestplate => 5,
            ItemType::SteelArmor => 8,
            ItemType::AncientArmor => 12,
            _ => 0,
        }
    }

    /// Whether the item goes in the helmet slot.
    pub fn is_helmet(&self) -> (b: bool)
        ensures
            b == (*self == ItemType::IronHelmet),
    {
        match self {
            ItemType::IronHelmet => true,
            _ => false,
        }
    }

    /// Whether the item goes in the chest slot.
    pub fn is_chestplate(&self) -> (b: bool)
        ensures
            b == (*self == ItemType::IronChestplate || *self == ItemType::SteelArmor
                || *self == ItemType::AncientArmor),
    {
        match self {
            ItemType::IronChestplate | ItemType::SteelArmor | ItemType::AncientArmor => true,
            _ => false,
        }
    }

    /// Block strength of a shield.
    pub open spec fn spec_shield_value(self) -> u32 {
        match self {
            ItemType::WoodShield => 2,
            ItemType::IronShield => 5,
            _ => 0,
        }
    }

    /// Block strength of a shield; 0 for anything else.
    pub fn shield_value(&self) -> (v: u32)
        ensures
            v == self.spec_shield_value(),
    {
        match self {
            ItemType::WoodShield => 2,
            ItemType::IronShield => 5,
            _ => 0,
        }
    }

    /// Whether the item goes in the shield slot.
    pub fn is_shield(&self) -> (b: bool)
        ensures
            b == (*self == ItemType::WoodShield || *self == ItemType::IronShield),
    {
        match self {
            ItemType::WoodShield | ItemType::IronShield => true,
            _ => false,
        }
    }

    /// Gathering tier of a tool: 1 wood, 2 stone, 3 iron, 4 steel, 5 ancient; 0 otherwise.
    pub open spec fn spec_tool_tier(self) -> u32 {
        match self {
            ItemType::WoodAxe | ItemType::WoodPickaxe => 1,
            ItemType::StoneAxe | ItemType::StonePickaxe => 2,
            ItemType::IronAxe | ItemType::IronPickaxe | ItemType::IronSword | ItemType::Hoe => 3,
            ItemType::SteelAxe | ItemType::SteelPickaxe | ItemType::SteelSword => 4,
            ItemType::AncientPickaxe | ItemType::AncientBlade => 5,
            _ => 0,
        }
    }

    /// Gathering tier of a tool; 0 for items that are not tools.
    pub fn tool_tier(&self) -> (t: u32)
        ensures
            t == self.spec_tool_tier(),
    {
        match self {
            ItemType::WoodAxe | ItemType::WoodPickaxe => 1,
            ItemType::StoneAxe | ItemType::StonePickaxe => 2,
            ItemType::IronAxe | ItemType::IronPickaxe | ItemType::IronSword | ItemType::Hoe => 3,
            ItemType::SteelAxe | ItemType::SteelPickaxe | ItemType::SteelSword => 4,
            ItemType::AncientPickaxe | ItemType::AncientBlade => 5,
            _ => 0,
        }
    }
}

/// Everything that wears out is unstackable, has a gathering tier, and
/// nothing else has a tier; every stack size lies between 1 and 64.
pub proof fn lemma_item_properties(item: ItemType)
    ensures
        item.spec_max_durability().is_some() ==> item.spec_max_stack() == 1,
        item.spec_max_durability().is_some() <==> item.spec_tool_tier() > 0,
        1 <= item.spec_max_stack() <= 64,
        item.spec_weapon_damage().is_some() ==> item.spec_max_stack() == 1,
        item.spec_armor_value() > 0 ==> item.spec_max_stack() == 1,
        item.spec_shield_value() > 0 ==> item.spec_max_stack() == 1,
{
}

/// Length, first and third letter, and last two letters of a display name:
/// enough to tell every item's name apart.
pub open spec fn name_signature(name: Seq<char>) -> (nat, char, char, char, char) {
    (name.len(), name[0], name[2], name[name.len() - 1], name[name.len() - 2])
}

/// The item whose display name has this signature.
pub open spec fn item_with_signature(sig: (nat, char, char, char, char)) -> ItemType {
    if sig == (4nat, 'W', 'o', 'd', 'o') {
        ItemType::Wood
    } else if sig == (5nat, 'S', 'o', 'e', 'n') {
        ItemType::Stone
    } else if sig == (11nat, 'P', 'a', 'r', 'e') {
        ItemType::PlantFiber
    } else if sig == (5nat, 'S', 'i', 'k', 'c') {
        ItemType::Stick
    } else if sig == (5nat, 'F', 'i', 't', 'n') {
        ItemType::Flint
    } else if sig == (10nat, 'W', 'o', 'k', 'n') {
        ItemType::WoodPlank
    } else if sig == (4nat, 'R', 'p', 'e', 'p') {
        ItemType::Rope
    } else if sig == (8nat, 'C', 'm', 'e', 'r') {
        ItemType::Campfire
    } else if sig == (10nat, 'W', 'o', 'r', 'o') {
        ItemType::WoodFloor
    } else if sig == (9nat, 'W', 'r', 'h', 'c') {
        ItemType::Workbench
    } else if sig == (8nat, 'W', 'o', 'e', 'x') {
        ItemType::WoodAxe
    } else if sig == (12nat, 'W', 'o', 'e', 'x') {
        ItemType::WoodPickaxe
    } else if sig == (9nat, 'S', 'o', 'e', 'x') {
        ItemType::StoneAxe
    } else if sig == (13nat, 'S', 'o', 'e', 'x') {
        ItemType::StonePickaxe
    } else if sig == (5nat, 'B', 'r', 'y', 'r') {
        ItemType::Berry
    } else if sig == (9nat, 'W', 'o', 'l', 'l') {
        ItemType::WoodWall
    } else if sig == (9nat, 'W', 'o', 'r', 'o') {
        ItemType::WoodDoor
    } else if sig == (9nat, 'W', 'o', 'f', 'o') {
        ItemType::WoodRoof
    } else if sig == (10nat, 'W', 'o', 'e', 'c') {
        ItemType::WoodFence
    } else if sig == (5nat, 'C', 'e', 't', 's') {
        ItemType::Chest
    } else if sig == (5nat, 'T', 'r', 'h', 'c') {
        ItemType::Torch
    } else if sig == (10nat, 'W', 'o', 'd', 'r') {
        ItemType::WoodSword
    } else if sig == (11nat, 'W', 'o', 'd', 'l') {
        ItemType::WoodShield
    } else if sig == (8nat, 'W', 'o', 'w', 'o') {
        ItemType::WoodBow
    } else if sig == (5nat, 'A', 'r', 'w', 'o') {
        ItemType::Arrow
    } else if sig == (12nat, 'C', 'c', 'r', 'e') {
        ItemType::CactusFiber
    } else if sig == (9nat, 'I', 'e', 'd', 'r') {
        ItemType::IceShard
    } else if sig == (12nat, 'M', 's', 'p', 'a') {
        ItemType::MushroomCap
    } else if sig == (5nat, 'S', 'o', 'e', 'r') {
        ItemType::Spore
    } else if sig == (4nat, 'R', 'e', 'd', 'e') {
        ItemType::Reed
    } else if sig == (6nat, 'S', 'l', 'r', 'u') {
        ItemType::Sulfur
    } else if sig == (13nat, 'C', 'y', 'd', 'r') {
        ItemType::CrystalShard
    } else if sig == (11nat, 'A', 'p', 'b', 'r') {
        ItemType::AlpineHerb
    } else if sig == (4nat, 'P', 'a', 't', 'a') {
        ItemType::Peat
    } else if sig == (8nat, 'O', 's', 'n', 'a') {
        ItemType::ObsidianShard
    } else if sig == (8nat, 'I', 'o', 'e', 'r') {
        ItemType::IronOre
    } else if sig == (4nat, 'C', 'a', 'l', 'a') {
        ItemType::Coal
    } else if sig == (11nat, 'S', 'o', 'k', 'c') {
        ItemType::StoneBlock
    } else if sig == (10nat, 'I', 'o', 't', 'o') {
        ItemType::IronIngot
    } else if sig == (11nat, 'S', 'e', 'y', 'o') {
        ItemType::SteelAlloy
    } else if sig == (5nat, 'F', 'r', 'e', 'g') {
        ItemType::Forge
    } else if sig == (5nat, 'A', 'v', 'l', 'i') {
        ItemType::Anvil
    } else if sig == (8nat, 'I', 'o', 'e', 'x') {
        ItemType::IronAxe
    } else if sig == (12nat, 'I', 'o', 'e', 'x') {
        ItemType::IronPickaxe
    } else if sig == (10nat, 'I', 'o', 'd', 'r') {
        ItemType::IronSword
    } else if sig == (11nat, 'I', 'o', 'd', 'l') {
        ItemType::IronShield
    } else if sig == (11nat, 'I', 'o', 't', 'e') {
        ItemType::IronHelmet
    } else if sig == (15nat, 'I', 'o', 'e', 't') {
        ItemType::IronChestplate
    } else if sig == (10nat, 'S', 'o', 'l', 'l') {
        ItemType::StoneWall
    } else if sig == (3nat, 'H', 'e', 'e', 'o') {
        ItemType::Hoe
    } else if sig == (10nat, 'W', 'e', 'd', 'e') {
        ItemType::WheatSeed
    } else if sig == (11nat, 'C', 'r', 'd', 'e') {
        ItemType::CarrotSeed
    } else if sig == (5nat, 'W', 'e', 't', 'a') {
        ItemType::Wheat
    } else if sig == (6nat, 'C', 'r', 't', 'o') {
        ItemType::Carrot
    } else if sig == (12nat, 'C', 'o', 'y', 'r') {
        ItemType::CookedBerry
    } else if sig == (11nat, 'B', 'k', 't', 'a') {
        ItemType::BakedWheat
    } else if sig == (13nat, 'C', 'o', 't', 'o') {
        ItemType::CookedCarrot
    } else if sig == (14nat, 'A', 'v', 'e', 'g') {
        ItemType::AdvancedForge
    } else if sig == (11nat, 'A', 'c', 'b', 'a') {
        ItemType::AlchemyLab
    } else if sig == (9nat, 'R', 'r', 'b', 'r') {
        ItemType::RareHerb
    } else if sig == (8nat, 'G', 'm', 'e', 'n') {
        ItemType::Gemstone
    } else if sig == (12nat, 'A', 'c', 'e', 'r') {
        ItemType::AncientCore
    } else if sig == (11nat, 'S', 'e', 'd', 'r') {
        ItemType::SteelSword
    } else if sig == (9nat, 'S', 'e', 'e', 'x') {
        ItemType::SteelAxe
    } else if sig == (13nat, 'S', 'e', 'e', 'x') {
        ItemType::SteelPickaxe
    } else if sig == (11nat, 'S', 'e', 'r', 'o') {
        ItemType::SteelArmor
    } else if sig == (13nat, 'H', 'a', 'n', 'o') {
        ItemType::HealthPotion
    } else if sig == (12nat, 'S', 'e', 'n', 'o') {
        ItemType::SpeedPotion
    } else if sig == (15nat, 'S', 'r', 'n', 'o') {
        ItemType::StrengthPotion
    } else if sig == (19nat, 'A', 'c', 'n', 'o') {
        ItemType::AncientWorkstation
    } else if sig == (13nat, 'A', 'c', 'e', 'd') {
        ItemType::AncientBlade
    } else if sig == (13nat, 'A', 'c', 'r', 'o') {
        ItemType::AncientArmor
    } else if sig == (15nat, 'A', 'c', 'e', 'x') {
        ItemType::AncientPickaxe
    } else if sig == (9nat, 'B', 'u', 't', 'n') {
        ItemType::Blueprint
    } else if sig == (14nat, 'G', 'a', 't', 'r') {
        ItemType::GuardianHeart
    } else if sig == (13nat, 'S', 'a', 'e', 'c') {
        ItemType::SwampEssence
    } else if sig == (10nat, 'W', 'r', 'e', 'l') {
        ItemType::WyrmScale
    } else if sig == (9nat, 'F', 'o', 'm', 'e') {
        ItemType::FrostGem
    } else if sig == (10nat, 'M', 'g', 'e', 'r') {
        ItemType::MagmaCore
    } else if sig == (20nat, 'F', 'n', 'e', 'c') {
        ItemType::FungalSporeEssence
    } else if sig == (13nat, 'C', 'y', 't', 'r') {
        ItemType::CrystalHeart
    } else if sig == (12nat, 'J', 'u', 'e', 'g') {
        ItemType::JournalPage
    } else if sig == (11nat, 'S', 'o', 'r', 'o') {
        ItemType::StoneFloor
    } else if sig == (10nat, 'S', 'o', 'r', 'o') {
        ItemType::StoneDoor
    } else if sig == (10nat, 'S', 'o', 'f', 'o') {
        ItemType::StoneRoof
    } else if sig == (10nat, 'M', 't', 'l', 'l') {
        ItemType::MetalWall
    } else if sig == (10nat, 'M', 't', 'r', 'o') {
        ItemType::MetalDoor
    } else if sig == (3nat, 'B', 'd', 'd', 'e') {
        ItemType::Bed
    } else if sig == (13nat, 'C', 'r', 'e', 'c') {
        ItemType::CoralEssence
    } else if sig == (10nat, 'T', 't', 'e', 'n') {
        ItemType::TitanBone
    } else if sig == (14nat, 'S', 'n', 'p', 'i') {
        ItemType::SandstoneChip
    } else if sig == (5nat, 'S', 'e', 'l', 'l') {
        ItemType::Shell
    } else if sig == (7nat, 'S', 'a', 'd', 'e') {
        ItemType::Seaweed
    } else if sig == (19nat, 'B', 'o', 'l', 'e') {
        ItemType::BioGel
    } else if sig == (19nat, 'E', 'h', 't', 'n') {
        ItemType::EchoStoneFragment
    } else if sig == (10nat, 'F', 'o', 'e', 'r') {
        ItemType::FrozenOre
    } else if sig == (10nat, 'C', 'v', 'e', 'm') {
        ItemType::CaveSlime
    } else if sig == (11nat, 'S', 'i', 'k', 'l') {
        ItemType::SpiderSilk
    } else if sig == (10nat, 'A', 'a', 'l', 'l') {
        ItemType::AlarmBellItem
    } else if sig == (12nat, 'A', 't', 'r', 'e') {
        ItemType::AutoSmelterItem
    } else if sig == (12nat, 'B', 'k', 'o', 't') {
        ItemType::BakedPotato
    } else if sig == (13nat, 'B', 'k', 'n', 'i') {
        ItemType::BakedPumpkin
    } else if sig == (9nat, 'B', 'o', 'f', 'l') {
        ItemType::Bookshelf
    } else if sig == (5nat, 'B', 'i', 'k', 'c') {
        ItemType::Brick
    } else if sig == (10nat, 'B', 'i', 'l', 'l') {
        ItemType::BrickWall
    } else if sig == (14nat, 'C', 'o', 'h', 's') {
        ItemType::CookedCatfish
    } else if sig == (10nat, 'C', 'o', 'l', 'e') {
        ItemType::CookedEel
    } else if sig == (12nat, 'C', 'o', 'n', 'o') {
        ItemType::CookedOnion
    } else if sig == (11nat, 'C', 'o', 'e', 'c') {
        ItemType::CookedRice
    } else if sig == (13nat, 'C', 'o', 'n', 'o') {
        ItemType::CookedSalmon
    } else if sig == (13nat, 'C', 'o', 'o', 't') {
        ItemType::CookedTomato
    } else if sig == (12nat, 'C', 'o', 't', 'u') {
        ItemType::CookedTrout
    } else if sig == (11nat, 'C', 'o', 't', 'o') {
        ItemType::CookingPot
    } else if sig == (4nat, 'C', 'r', 'n', 'r') {
        ItemType::Corn
    } else if sig == (9nat, 'C', 'r', 'd', 'e') {
        ItemType::CornSeed
    } else if sig == (9nat, 'C', 'a', 't', 'a') {
        ItemType::CrabMeat
    } else if sig == (14nat, 'C', 'o', 'r', 'e') {
        ItemType::CropSprinklerItem
    } else if sig == (12nat, 'D', 's', 'e', 's') {
        ItemType::DisplayCase
    } else if sig == (16nat, 'E', 'c', 'e', 'l') {
        ItemType::EnchantingTable
    } else if sig == (12nat, 'F', 'r', 'e', 'c') {
        ItemType::FireEssence
    } else if sig == (9nat, 'F', 's', 't', 'i') {
        ItemType::FishBait
    } else if sig == (11nat, 'F', 's', 'r', 'e') {
        ItemType::FishSmoker
    } else if sig == (11nat, 'F', 's', 'd', 'o') {
        ItemType::FishingRod
    } else if sig == (11nat, 'F', 'a', 'e', 'd') {
        ItemType::FlameBlade
    } else if sig == (4nat, 'F', 'a', 'x', 'a') {
        ItemType::Flax
    } else if sig == (9nat, 'F', 'a', 'd', 'e') {
        ItemType::FlaxSeed
    } else if sig == (11nat, 'F', 'o', 'e', 'd') {
        ItemType::FrostBlade
    } else if sig == (11nat, 'I', 'e', 'e', 'c') {
        ItemType::IceEssence
    } else if sig == (6nat, 'L', 'd', 'r', 'e') {
        ItemType::Ladder
    } else if sig == (7nat, 'L', 'n', 'n', 'r') {
        ItemType::Lantern
    } else if sig == (12nat, 'L', 'f', 'e', 'c') {
        ItemType::LifeEssence
    } else if sig == (15nat, 'L', 'f', 'e', 'd') {
        ItemType::LifestealBlade
    } else if sig == (11nat, 'L', 'n', 'h', 't') {
        ItemType::LinenCloth
    } else if sig == (5nat, 'M', 'l', 'n', 'o') {
        ItemType::Melon
    } else if sig == (10nat, 'M', 'l', 'd', 'e') {
        ItemType::MelonSeed
    } else if sig == (11nat, 'M', 'l', 'e', 'c') {
        ItemType::MelonSlice
    } else if sig == (5nat, 'O', 'i', 'n', 'o') {
        ItemType::Onion
    } else if sig == (10nat, 'O', 'i', 'd', 'e') {
        ItemType::OnionSeed
    } else if sig == (6nat, 'P', 'p', 'r', 'e') {
        ItemType::Pepper
    } else if sig == (11nat, 'P', 'p', 'd', 'e') {
        ItemType::PepperSeed
    } else if sig == (10nat, 'P', 't', 'r', 'a') {
        ItemType::PetCollar
    } else if sig == (8nat, 'P', 't', 'd', 'o') {
        ItemType::PetFood
    } else if sig == (9nat, 'P', 't', 'e', 's') {
        ItemType::PetHouse
    } else if sig == (6nat, 'P', 't', 'o', 't') {
        ItemType::Potato
    } else if sig == (11nat, 'P', 't', 'd', 'e') {
        ItemType::PotatoSeed
    } else if sig == (7nat, 'P', 'm', 'n', 'i') {
        ItemType::Pumpkin
    } else if sig == (12nat, 'P', 'm', 'd', 'e') {
        ItemType::PumpkinSeed
    } else if sig == (14nat, 'R', 'i', 'r', 'o') {
        ItemType::RainCollector
    } else if sig == (11nat, 'R', 'w', 'h', 's') {
        ItemType::RawCatfish
    } else if sig == (8nat, 'R', 'w', 'b', 'a') {
        ItemType::RawCrab
    } else if sig == (7nat, 'R', 'w', 'l', 'e') {
        ItemType::RawEel
    } else if sig == (14nat, 'R', 'w', 'h', 's') {
        ItemType::RawPufferfish
    } else if sig == (10nat, 'R', 'w', 'n', 'o') {
        ItemType::RawSalmon
    } else if sig == (9nat, 'R', 'w', 't', 'u') {
        ItemType::RawTrout
    } else if sig == (22nat, 'R', 'i', 'k', 'c') {
        ItemType::ReinforcedStoneBlock
    } else if sig == (21nat, 'R', 'i', 'l', 'l') {
        ItemType::ReinforcedStoneWall
    } else if sig == (4nat, 'R', 'c', 'e', 'c') {
        ItemType::Rice
    } else if sig == (9nat, 'R', 'c', 'd', 'e') {
        ItemType::RiceSeed
    } else if sig == (12nat, 'R', 'a', 'n', 'r') {
        ItemType::RoastedCorn
    } else if sig == (14nat, 'R', 'a', 'r', 'e') {
        ItemType::RoastedPepper
    } else if sig == (17nat, 'S', 'e', 'd', 'o') {
        ItemType::SteelFishingRod
    } else if sig == (12nat, 'S', 'o', 's', 'r') {
        ItemType::StoneStairs
    } else if sig == (5nat, 'S', 'g', 'r', 'a') {
        ItemType::Sugar
    } else if sig == (9nat, 'S', 'g', 'e', 'n') {
        ItemType::Sugarcane
    } else if sig == (14nat, 'S', 'g', 'd', 'e') {
        ItemType::SugarcaneSeed
    } else if sig == (6nat, 'T', 'm', 'o', 't') {
        ItemType::Tomato
    } else if sig == (11nat, 'T', 'm', 'd', 'e') {
        ItemType::TomatoSeed
    } else if sig == (12nat, 'T', 'o', 't', 'n') {
        ItemType::TrophyMount
    } else if sig == (11nat, 'V', 'n', 'e', 'd') {
        ItemType::VenomBlade
    } else if sig == (13nat, 'V', 'n', 'e', 'c') {
        ItemType::VenomEssence
    } else if sig == (11nat, 'W', 'a', 'k', 'c') {
        ItemType::WeaponRack
    } else if sig == (14nat, 'W', 'o', 'l', 'l') {
        ItemType::WoodHalfWall
    } else if sig == (11nat, 'W', 'o', 's', 'r') {
        ItemType::WoodStairs
    } else {
        ItemType::WoodWallWindow
    }
}

proof fn lemma_name_signature(item: ItemType)
    ensures
        item_with_signature(name_signature(item.spec_display_name())) == item,
        item.spec_display_name().len() >= 3,
{
    reveal_strlit("Wood");
    reveal_strlit("Stone");
    reveal_strlit("Plant Fiber");
    reveal_strlit("Stick");
    reveal_strlit("Flint");
    reveal_strlit("Wood Plank");
    reveal_strlit("Rope");
    reveal_strlit("Campfire");
    reveal_strlit("Wood Floor");
    reveal_strlit("Workbench");
    reveal_strlit("Wood Axe");
    reveal_strlit("Wood Pickaxe");
    reveal_strlit("Stone Axe");
    reveal_strlit("Stone Pickaxe");
    reveal_strlit("Berry");
    reveal_strlit("Wood Wall");
    reveal_strlit("Wood Door");
    reveal_strlit("Wood Roof");
    reveal_strlit("Wood Fence");
    reveal_strlit("Chest");
    reveal_strlit("Torch");
    reveal_strlit("Wood Sword");
    reveal_strlit("Wood Shield");
    reveal_strlit("Wood Bow");
    reveal_strlit("Arrow");
    reveal_strlit("Cactus Fiber");
    reveal_strlit("Ice Shard");
    reveal_strlit("Mushroom Cap");
    reveal_strlit("Spore");
    reveal_strlit("Reed");
    reveal_strlit("Sulfur");
    reveal_strlit("Crystal Shard");
    reveal_strlit("Alpine Herb");
    reveal_strlit("Peat");
    reveal_strlit("Obsidian");
    reveal_strlit("Iron Ore");
    reveal_strlit("Coal");
    reveal_strlit("Stone Block");
    reveal_strlit("Iron Ingot");
    reveal_strlit("Steel Alloy");
    reveal_strlit("Forge");
    reveal_strlit("Anvil");
    reveal_strlit("Iron Axe");
    reveal_strlit("Iron Pickaxe");
    reveal_strlit("Iron Sword");
    reveal_strlit("Iron Shield");
    reveal_strlit("Iron Helmet");
    reveal_strlit("Iron Chestplate");
    reveal_strlit("Stone Wall");
    reveal_strlit("Hoe");
    reveal_strlit("Wheat Seed");
    reveal_strlit("Carrot Seed");
    reveal_strlit("Wheat");
    reveal_strlit("Carrot");
    reveal_strlit("Cooked Berry");
    reveal_strlit("Baked Wheat");
    reveal_strlit("Cooked Carrot");
    reveal_strlit("Advanced Forge");
    reveal_strlit("Alchemy Lab");
    reveal_strlit("Rare Herb");
    reveal_strlit("Gemstone");
    reveal_strlit("Ancient Core");
    reveal_strlit("Steel Sword");
    reveal_strlit("Steel Axe");
    reveal_strlit("Steel Pickaxe");
    reveal_strlit("Steel Armor");
    reveal_strlit("Health Potion");
    reveal_strlit("Speed Potion");
    reveal_strlit("Strength Potion");
    reveal_strlit("Ancient Workstation");
    reveal_strlit("Ancient Blade");
    reveal_strlit("Ancient Armor");
    reveal_strlit("Ancient Pickaxe");
    reveal_strlit("Blueprint");
    reveal_strlit("Guardian Heart");
    reveal_strlit("Swamp Essence");
    reveal_strlit("Wyrm Scale");
    reveal_strlit("Frost Gem");
    reveal_strlit("Magma Core");
    reveal_strlit("Fungal Spore Essence");
    reveal_strlit("Crystal Heart");
    reveal_strlit("Journal Page");
    reveal_strlit("Stone Floor");
    reveal_strlit("Stone Door");
    reveal_strlit("Stone Roof");
    reveal_strlit("Metal Wall");
    reveal_strlit("Metal Door");
    reveal_strlit("Bed");
    reveal_strlit("Coral Essence");
    reveal_strlit("Titan Bone");
    reveal_strlit("Sandstone Chip");
    reveal_strlit("Shell");
    reveal_strlit("Seaweed");
    reveal_strlit("Bio-Luminescent Gel");
    reveal_strlit("Echo Stone Fragment");
    reveal_strlit("Frozen Ore");
    reveal_strlit("Cave Slime");
    reveal_strlit("Spider Silk");
    reveal_strlit("Alarm Bell");
    reveal_strlit("Auto-Smelter");
    reveal_strlit("Baked Potato");
    reveal_strlit("Baked Pumpkin");
    reveal_strlit("Bookshelf");
    reveal_strlit("Brick");
    reveal_strlit("Brick Wall");
    reveal_strlit("Cooked Catfish");
    reveal_strlit("Cooked Eel");
    reveal_strlit("Cooked Onion");
    reveal_strlit("Cooked Rice");
    reveal_strlit("Cooked Salmon");
    reveal_strlit("Cooked Tomato");
    reveal_strlit("Cooked Trout");
    reveal_strlit("Cooking Pot");
    reveal_strlit("Corn");
    reveal_strlit("Corn Seed");
    reveal_strlit("Crab Meat");
    reveal_strlit("Crop Sprinkler");
    reveal_strlit("Display Case");
    reveal_strlit("Enchanting Table");
    reveal_strlit("Fire Essence");
    reveal_strlit("Fish Bait");
    reveal_strlit("Fish Smoker");
    reveal_strlit("Fishing Rod");
    reveal_strlit("Flame Blade");
    reveal_strlit("Flax");
    reveal_strlit("Flax Seed");
    reveal_strlit("Frost Blade");
    reveal_strlit("Ice Essence");
    reveal_strlit("Ladder");
    reveal_strlit("Lantern");
    reveal_strlit("Life Essence");
    reveal_strlit("Lifesteal Blade");
    reveal_strlit("Linen Cloth");
    reveal_strlit("Melon");
    reveal_strlit("Melon Seed");
    reveal_strlit("Melon Slice");
    reveal_strlit("Onion");
    reveal_strlit("Onion Seed");
    reveal_strlit("Pepper");
    reveal_strlit("Pepper Seed");
    reveal_strlit("Pet Collar");
    reveal_strlit("Pet Food");
    reveal_strlit("Pet House");
    reveal_strlit("Potato");
    reveal_strlit("Potato Seed");
    reveal_strlit("Pumpkin");
    reveal_strlit("Pumpkin Seed");
    reveal_strlit("Rain Collector");
    reveal_strlit("Raw Catfish");
    reveal_strlit("Raw Crab");
    reveal_strlit("Raw Eel");
    reveal_strlit("Raw Pufferfish");
    reveal_strlit("Raw Salmon");
    reveal_strlit("Raw Trout");
    reveal_strlit("Reinforced Stone Block");
    reveal_strlit("Reinforced Stone Wall");
    reveal_strlit("Rice");
    reveal_strlit("Rice Seed");
    reveal_strlit("Roasted Corn");
    reveal_strlit("Roasted Pepper");
    reveal_strlit("Steel Fishing Rod");
    reveal_strlit("Stone Stairs");
    reveal_strlit("Sugar");
    reveal_strlit("Sugarcane");
    reveal_strlit("Sugarcane Seed");
    reveal_strlit("Tomato");
    reveal_strlit("Tomato Seed");
    reveal_strlit("Trophy Mount");
    reveal_strlit("Venom Blade");
    reveal_strlit("Venom Essence");
    reveal_strlit("Weapon Rack");
    reveal_strlit("Wood Half Wall");
    reveal_strlit("Wood Stairs");
    reveal_strlit("Wood Wall (Window)");
}

/// Every item has a display name of at least three letters, and no two
/// items share a display name.
pub proof fn law_display_names_distinct(a: ItemType, b: ItemType)
    ensures
        a.spec_display_name().len() > 0,
        a != b ==> a.spec_display_name() != b.spec_display_name(),
{
    lemma_name_signature(a);
    lemma_name_signature(b);
}

} // verus!
