//! Gathering: which tool a resource node asks for, what breaking it sounds
//! like, and what it drops.

use vstd::prelude::*;
use crate::items::ItemType;
use crate::inventory::{Inventory, InventorySlot};
use crate::audio::SoundEvent;

verus! {

/// A resource node of the world that the player can break.
#[derive(Clone, Copy, Debug, PartialEq, Eq, Hash, Structural)]
pub enum WorldObjectType {
    OakTree,
    PineTree,
    Rock,
    Bush,
    Cactus,
    IceCrystal,
    Mushroom,
    GiantMushroom,
    ReedClump,
    SulfurDeposit,
    CrystalNode,
    AlpineFlower,
    Wildflower,
    FallenLog,
    IronVein,
    CoalDeposit,
    AncientRuin,
    SupplyCrate,
    RuinWall,
    BerryBush,
    SandstoneRock,
    OasisPalm,
    FrozenOreDeposit,
    IceFormation,
    SulfurVent,
    ObsidianNode,
    GlowingSpore,
    BioLuminescentGel,
    CrystalCluster,
    EchoStone,
    Driftwood,
    ShellDeposit,
    SeaweedPatch,
    AncientMachinery,
    Geyser,
}

/// The sound of a node breaking: trees fall, stone and ore crack, the rest
/// rustles.
pub open spec fn spec_destroy_sound(obj: WorldObjectType) -> SoundEvent {
    match obj {
        WorldObjectType::OakTree | WorldObjectType::PineTree => SoundEvent::TreeFall,
        WorldObjectType::Rock | WorldObjectType::IronVein | WorldObjectType::CoalDeposit
        | WorldObjectType::SandstoneRock | WorldObjectType::FrozenOreDeposit
        | WorldObjectType::SulfurDeposit | WorldObjectType::ObsidianNode
        | WorldObjectType::CrystalNode | WorldObjectType::RuinWall
        | WorldObjectType::AncientRuin | WorldObjectType::AncientMachinery
        | WorldObjectType::Geyser => SoundEvent::OreMine,
        _ => SoundEvent::Gather,
    }
}

/// The sound played when a node is broken.
pub fn destroy_sound(obj: WorldObjectType) -> (s: SoundEvent)
    ensures
        s == spec_destroy_sound(obj),
{
    match obj {
        WorldObjectType::OakTree | WorldObjectType::PineTree => SoundEvent::TreeFall,
        WorldObjectType::Rock | WorldObjectType::IronVein | WorldObjectType::CoalDeposit
        | WorldObjectType::SandstoneRock | WorldObjectType::FrozenOreDeposit
        | WorldObjectType::SulfurDeposit | WorldObjectType::ObsidianNode
        | WorldObjectType::CrystalNode | WorldObjectType::RuinWall
        | WorldObjectType::AncientRuin | WorldObjectType::AncientMachinery
        | WorldObjectType::Geyser => SoundEvent::OreMine,
        _ => SoundEvent::Gather,
    }
}

/// Whether a tool of tier `tool_tier` can work a node that asks for
/// `required_tier` (0: bare hands do).
pub open spec fn spec_meets_tool_requirement(required_tier: u32, tool_tier: u32) -> bool {
    required_tier == 0 || tool_tier >= required_tier
}

/// Whether the held tool is good enough for the node.
pub fn meets_tool_requirement(required_tier: u32, tool_tier: u32) -> (b: bool)
    ensures
        b == spec_meets_tool_requirement(required_tier, tool_tier),
        b == (tool_tier >= required_tier),
{
    required_tier == 0 || tool_tier >= required_tier
}

/// Whether the held tool outclasses a node that asks for a tool, which makes
/// gathering half again as fast.
pub fn tool_speeds_gathering(required_tier: u32, tool_tier: u32) -> (b: bool)
    ensures
        b == (required_tier > 0 && tool_tier > required_tier),
{
    required_tier > 0 && tool_tier > required_tier
}

/// Tool tier of the selected slot; 0 when it is empty.
pub open spec fn spec_selected_tool_tier(slot: Option<InventorySlot>) -> u32 {
    match slot {
        Some(s) => s.item.spec_tool_tier(),
        None => 0,
    }
}

/// The gathering tier of what the player holds.
pub fn selected_tool_tier(inventory: &Inventory) -> (t: u32)
    requires
        inventory.selected_slot < inventory.slots@.len(),
    ensures
        t == spec_selected_tool_tier(inventory.slots@[inventory.selected_slot as int]),
{
    match inventory.selected_item() {
        Some(s) => s.item.tool_tier(),
        None => 0,
    }
}

/// What a broken node drops, stack by stack. `rare_roll` is the node's
/// position hash that decides its rare drops (below 20 or 25 or 15 out of
/// 100); `supply_roll` is the second hash that picks a supply crate's contents.
pub open spec fn spec_harvest_drops(obj: WorldObjectType, rare_roll: u64, supply_roll: u64) -> Seq<(ItemType, u32)> {
    match obj {
        WorldObjectType::OakTree | WorldObjectType::PineTree => seq![(ItemType::Wood, 3), (ItemType::Stick, 2)],
        WorldObjectType::Rock => seq![(ItemType::Stone, 2), (ItemType::Flint, 1)],
        WorldObjectType::Bush => seq![(ItemType::PlantFiber, 2), (ItemType::Berry, 1)],
        WorldObjectType::Cactus => seq![(ItemType::CactusFiber, 2), (ItemType::Stick, 1)],
        WorldObjectType::IceCrystal => seq![(ItemType::IceShard, 2)],
        WorldObjectType::Mushroom => seq![(ItemType::MushroomCap, 2), (ItemType::Spore, 1)],
        WorldObjectType::GiantMushroom => seq![(ItemType::MushroomCap, 4), (ItemType::Spore, 2), (ItemType::Wood, 2)],
        WorldObjectType::ReedClump => seq![(ItemType::Reed, 3), (ItemType::Peat, 1)],
        WorldObjectType::SulfurDeposit => seq![(ItemType::Sulfur, 2), (ItemType::Stone, 1)],
        WorldObjectType::CrystalNode => seq![(ItemType::CrystalShard, 2), (ItemType::Stone, 1), (ItemType::Gemstone, 1)],
        WorldObjectType::AlpineFlower =>
            if rare_roll % 100 < 20 {
                seq![(ItemType::AlpineHerb, 1), (ItemType::RareHerb, 1)]
            } else {
                seq![(ItemType::AlpineHerb, 1)]
            },
        WorldObjectType::Wildflower => seq![(ItemType::PlantFiber, 1)],
        WorldObjectType::FallenLog => seq![(ItemType::Wood, 1), (ItemType::Stick, 2)],
        WorldObjectType::IronVein => seq![(ItemType::IronOre, 2), (ItemType::Stone, 1)],
        WorldObjectType::CoalDeposit => seq![(ItemType::Coal, 2), (ItemType::Stone, 1)],
        WorldObjectType::AncientRuin => {
            let base = seq![(ItemType::AncientCore, 1), (ItemType::Gemstone, 1)];
            let with_page = if rare_roll % 100 < 25 { base.push((ItemType::JournalPage, 1)) } else { base };
            if rare_roll % 100 < 15 { with_page.push((ItemType::Blueprint, 1)) } else { with_page }
        },
        WorldObjectType::SupplyCrate =>
            if supply_roll % 4 == 0 {
                seq![(ItemType::Berry, 3)]
            } else if supply_roll % 4 == 1 {
                seq![(ItemType::Rope, 2)]
            } else if supply_roll % 4 == 2 {
                seq![(ItemType::Torch, 2)]
            } else {
                seq![(ItemType::Stick, 4)]
            },
        WorldObjectType::RuinWall => seq![(ItemType::StoneBlock, 2)],
        WorldObjectType::BerryBush => seq![(ItemType::Berry, 3), (ItemType::PlantFiber, 1)],
        WorldObjectType::SandstoneRock => seq![(ItemType::SandstoneChip, 2), (ItemType::Stone, 1)],
        WorldObjectType::OasisPalm => seq![(ItemType::Wood, 2), (ItemType::Berry, 2)],
        WorldObjectType::FrozenOreDeposit => seq![(ItemType::FrozenOre, 2), (ItemType::IronOre, 1), (ItemType::IceShard, 1)],
        WorldObjectType::IceFormation => seq![(ItemType::IceShard, 3), (ItemType::Stone, 1)],
        WorldObjectType::SulfurVent => seq![(ItemType::Sulfur, 3)],
        WorldObjectType::ObsidianNode => seq![(ItemType::ObsidianShard, 2), (ItemType::Stone, 1)],
        WorldObjectType::GlowingSpore => seq![(ItemType::Spore, 2)],
        WorldObjectType::BioLuminescentGel => seq![(ItemType::BioGel, 2), (ItemType::Spore, 1)],
        WorldObjectType::CrystalCluster => seq![(ItemType::CrystalShard, 3), (ItemType::Gemstone, 1)],
        WorldObjectType::EchoStone => seq![(ItemType::EchoStoneFragment, 2), (ItemType::Stone, 1)],
        WorldObjectType::Driftwood => seq![(ItemType::Wood, 2), (ItemType::Stick, 1)],
        WorldObjectType::ShellDeposit => seq![(ItemType::Shell, 3)],
        WorldObjectType::SeaweedPatch => seq![(ItemType::Seaweed, 2), (ItemType::PlantFiber, 1)],
        WorldObjectType::AncientMachinery =>
            if rare_roll % 100 < 20 {
                seq![(ItemType::IronOre, 3), (ItemType::Stone, 2), (ItemType::JournalPage, 1)]
            } else {
                seq![(ItemType::IronOre, 3), (ItemType::Stone, 2)]
            },
        WorldObjectType::Geyser => seq![(ItemType::Sulfur, 2), (ItemType::Stone, 1)],
    }
}

fn one(a: (ItemType, u32)) -> (v: Vec<(ItemType, u32)>)
    ensures
        v@ == seq![a],
{
    let mut v: Vec<(ItemType, u32)> = Vec::new();
    v.push(a);
    proof { assert(v@ =~= seq![a]); }
    v
}

fn two(a: (ItemType, u32), b: (ItemType, u32)) -> (v: Vec<(ItemType, u32)>)
    ensures
        v@ == seq![a, b],
{
    let mut v: Vec<(ItemType, u32)> = Vec::new();
    v.push(a);
    v.push(b);
    proof { assert(v@ =~= seq![a, b]); }
    v
}

fn three(a: (ItemType, u32), b: (ItemType, u32), c: (ItemType, u32)) -> (v: Vec<(ItemType, u32)>)
    ensures
        v@ == seq![a, b, c],
{
    let mut v: Vec<(ItemType, u32)> = Vec::new();
    v.push(a);
    v.push(b);
    v.push(c);
    proof { assert(v@ =~= seq![a, b, c]); }
    v
}

/// The stacks a broken node drops, in the order they are thrown out.
#[verifier::rlimit(40)]
pub fn harvest_drops(obj: WorldObjectType, rare_roll: u64, supply_roll: u64) -> (drops: Vec<(ItemType, u32)>)
    ensures
        drops@ == spec_harvest_drops(obj, rare_roll, supply_roll),
{
    match obj {
        WorldObjectType::OakTree | WorldObjectType::PineTree => two((ItemType::Wood, 3), (ItemType::Stick, 2)),
        WorldObjectType::Rock => two((ItemType::Stone, 2), (ItemType::Flint, 1)),
        WorldObjectType::Bush => two((ItemType::PlantFiber, 2), (ItemType::Berry, 1)),
        WorldObjectType::Cactus => two((ItemType::CactusFiber, 2), (ItemType::Stick, 1)),
        WorldObjectType::IceCrystal => one((ItemType::IceShard, 2)),
        WorldObjectType::Mushroom => two((ItemType::MushroomCap, 2), (ItemType::Spore, 1)),
        WorldObjectType::GiantMushroom => three((ItemType::MushroomCap, 4), (ItemType::Spore, 2), (ItemType::Wood, 2)),
        WorldObjectType::ReedClump => two((ItemType::Reed, 3), (ItemType::Peat, 1)),
        WorldObjectType::SulfurDeposit => two((ItemType::Sulfur, 2), (ItemType::Stone, 1)),
        WorldObjectType::CrystalNode => three((ItemType::CrystalShard, 2), (ItemType::Stone, 1), (ItemType::Gemstone, 1)),
        WorldObjectType::AlpineFlower => {
            let mut v = one((ItemType::AlpineHerb, 1));
            if rare_roll % 100 < 20 {
                v.push((ItemType::RareHerb, 1));
            }
            proof { assert(v@ =~= spec_harvest_drops(obj, rare_roll, supply_roll)); }
            v
        },
        WorldObjectType::Wildflower => one((ItemType::PlantFiber, 1)),
        WorldObjectType::FallenLog => two((ItemType::Wood, 1), (ItemType::Stick, 2)),
        WorldObjectType::IronVein => two((ItemType::IronOre, 2), (ItemType::Stone, 1)),
        WorldObjectType::CoalDeposit => two((ItemType::Coal, 2), (ItemType::Stone, 1)),
        WorldObjectType::AncientRuin => {
            let mut v = two((ItemType::AncientCore, 1), (ItemType::Gemstone, 1));
            if rare_roll % 100 < 25 {
                v.push((ItemType::JournalPage, 1));
            }
            if rare_roll % 100 < 15 {
                v.push((ItemType::Blueprint, 1));
            }
            v
        },
        WorldObjectType::SupplyCrate => {
            let pick = supply_roll % 4;
            if pick == 0 {
                one((ItemType::Berry, 3))
            } else if pick == 1 {
                one((ItemType::Rope, 2))
            } else if pick == 2 {
                one((ItemType::Torch, 2))
            } else {
                one((ItemType::Stick, 4))
            }
        },
        WorldObjectType::RuinWall => one((ItemType::StoneBlock, 2)),
        WorldObjectType::BerryBush => two((ItemType::Berry, 3), (ItemType::PlantFiber, 1)),
        WorldObjectType::SandstoneRock => two((ItemType::SandstoneChip, 2), (ItemType::Stone, 1)),
        WorldObjectType::OasisPalm => two((ItemType::Wood, 2), (ItemType::Berry, 2)),
        WorldObjectType::FrozenOreDeposit => three((ItemType::FrozenOre, 2), (ItemType::IronOre, 1), (ItemType::IceShard, 1)),
        WorldObjectType::IceFormation => two((ItemType::IceShard, 3), (ItemType::Stone, 1)),
        WorldObjectType::SulfurVent => one((ItemType::Sulfur, 3)),
        WorldObjectType::ObsidianNode => two((ItemType::ObsidianShard, 2), (ItemType::Stone, 1)),
        WorldObjectType::GlowingSpore => one((ItemType::Spore, 2)),
        WorldObjectType::BioLuminescentGel => two((ItemType::BioGel, 2), (ItemType::Spore, 1)),
        WorldObjectType::CrystalCluster => two((ItemType::CrystalShard, 3), (ItemType::Gemstone, 1)),
        WorldObjectType::EchoStone => two((ItemType::EchoStoneFragment, 2), (ItemType::Stone, 1)),
        WorldObjectType::Driftwood => two((ItemType::Wood, 2), (ItemType::Stick, 1)),
        WorldObjectType::ShellDeposit => one((ItemType::Shell, 3)),
        WorldObjectType::SeaweedPatch => two((ItemType::Seaweed, 2), (ItemType::PlantFiber, 1)),
        WorldObjectType::AncientMachinery => {
            let mut v = two((ItemType::IronOre, 3), (ItemType::Stone, 2));
            if rare_roll % 100 < 20 {
                v.push((ItemType::JournalPage, 1));
            }
            proof { assert(v@ =~= spec_harvest_drops(obj, rare_roll, supply_roll)); }
            v
        },
        WorldObjectType::Geyser => two((ItemType::Sulfur, 2), (ItemType::Stone, 1)),
    }
}

/// Items whose pickup is announced in gold.
pub open spec fn spec_is_rare_pickup(item: ItemType) -> bool {
    item == ItemType::AncientCore || item == ItemType::Gemstone || item == ItemType::RareHerb
        || item == ItemType::BioGel
}

/// Whether picking up `item` is announced as rare.
pub fn is_rare_pickup(item: ItemType) -> (b: bool)
    ensures
        b == spec_is_rare_pickup(item),
{
    match item {
        ItemType::AncientCore | ItemType::Gemstone | ItemType::RareHerb | ItemType::BioGel => true,
        _ => false,
    }
}

/// Every node drops something, and every drop is a stack of at least one.
pub proof fn law_every_node_drops(obj: WorldObjectType, rare_roll: u64, supply_roll: u64)
    ensures
        spec_harvest_drops(obj, rare_roll, supply_roll).len() >= 1,
        forall|i: int| 0 <= i < spec_harvest_drops(obj, rare_roll, supply_roll).len()
            ==> #[trigger] spec_harvest_drops(obj, rare_roll, supply_roll)[i].1 >= 1,
{
}

/// A node can be worked exactly when the tool held is at least as good as
/// the one it asks for: any tier works a node that asks for none, and a tool
/// below the asked tier, bare hands included, never does. A better tool
/// speeds the work only on a node that asks for a tool at all.
pub proof fn law_tool_requirement(required_tier: u32, tool_tier: u32)
    ensures
        spec_meets_tool_requirement(required_tier, tool_tier) <==> tool_tier >= required_tier,
        spec_meets_tool_requirement(0, tool_tier),
        tool_tier < required_tier ==> !spec_meets_tool_requirement(required_tier, tool_tier),
        spec_meets_tool_requirement(required_tier, tool_tier)
            && spec_meets_tool_requirement(tool_tier, required_tier) ==> tool_tier == required_tier,
{
}

} // verus!
