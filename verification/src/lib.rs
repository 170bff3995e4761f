//! Game rules of Driftlands: items and inventories, crafting, building,
//! farming, fishing, trading, lore and dungeon generation.

pub mod items;
pub mod inventory;
pub mod crafting;
pub mod world;
pub mod building;
pub mod rng;
pub mod farming;
pub mod fishing;
pub mod npc;
pub mod experiment;
pub mod lore;
pub mod automation;
pub mod death;
pub mod combat;
pub mod audio;
pub mod gathering;
pub mod enchanting;
pub mod dungeon;
pub mod animation;
pub mod menu;
pub mod hud;
pub mod crafting_panel;
