//! Farming: crop kinds, their seeds, harvests and growing seasons.

use vstd::prelude::*;
use crate::items::ItemType;
use crate::world::Season;
use crate::inventory::{Inventory, InventorySlot, remove_result, add_result};

verus! {

/// Every crop that can be planted on a tilled plot.
#[derive(Clone, Copy, Debug, PartialEq, Eq, Structural)]
pub enum CropType {
    Wheat,
    Carrot,
    Tomato,
    Pumpkin,
    Corn,
    Potato,
    Melon,
    Rice,
    Pepper,
    Onion,
    Flax,
    Sugarcane,
}

impl CropType {
    /// The seed item needed to plant this crop.
    pub open spec fn spec_seed_item(self) -> ItemType {
        match self {
            CropType::Wheat => ItemType::WheatSeed,
            CropType::Carrot => ItemType::CarrotSeed,
            CropType::Tomato => ItemType::TomatoSeed,
            CropType::Pumpkin => ItemType::PumpkinSeed,
            CropType::Corn => ItemType::CornSeed,
            CropType::Potato => ItemType::PotatoSeed,
            CropType::Melon => ItemType::MelonSeed,
            CropType::Rice => ItemType::RiceSeed,
            CropType::Pepper => ItemType::PepperSeed,
            CropType::Onion => ItemType::OnionSeed,
            CropType::Flax => ItemType::FlaxSeed,
            CropType::Sugarcane => ItemType::SugarcaneSeed,
        }
    }

    /// The seed item needed to plant this crop.
    pub fn seed_item(&self) -> (i: ItemType)
        ensures
            i == self.spec_seed_item(),
    {
        match self {
            CropType::Wheat => ItemType::WheatSeed,
            CropType::Carrot => ItemType::CarrotSeed,
            CropType::Tomato => ItemType::TomatoSeed,
            CropType::Pumpkin => ItemType::PumpkinSeed,
            CropType::Corn => ItemType::CornSeed,
            CropType::Potato => ItemType::PotatoSeed,
            CropType::Melon => ItemType::MelonSeed,
            CropType::Rice => ItemType::RiceSeed,
            CropType::Pepper => ItemType::PepperSeed,
            CropType::Onion => ItemType::OnionSeed,
            CropType::Flax => ItemType::FlaxSeed,
            CropType::Sugarcane => ItemType::SugarcaneSeed,
        }
    }

    /// The item yielded on harvest.
    pub open spec fn spec_yield_item(self) -> ItemType {
        match self {
            CropType::Wheat => ItemType::Wheat,
            CropType::Carrot => ItemType::Carrot,
            CropType::Tomato => ItemType::Tomato,
            CropType::Pumpkin => ItemType::Pumpkin,
            CropType::Corn => ItemType::Corn,
            CropType::Potato => ItemType::Potato,
            CropType::Melon => ItemType::Melon,
            CropType::Rice => ItemType::Rice,
            CropType::Pepper => ItemType::Pepper,
            CropType::Onion => ItemType::Onion,
            CropType::Flax => ItemType::Flax,
            CropType::Sugarcane => ItemType::Sugarcane,
        }
    }

    /// The item yielded on harvest.
    pub fn yield_item(&self) -> (i: ItemType)
        ensures
            i == self.spec_yield_item(),
    {
        match self {
            CropType::Wheat => ItemType::Wheat,
            CropType::Carrot => ItemType::Carrot,
            CropType::Tomato => ItemType::Tomato,
            CropType::Pumpkin => ItemType::Pumpkin,
            CropType::Corn => ItemType::Corn,
            CropType::Potato => ItemType::Potato,
            CropType::Melon => ItemType::Melon,
            CropType::Rice => ItemType::Rice,
            CropType::Pepper => ItemType::Pepper,
            CropType::Onion => ItemType::Onion,
            CropType::Flax => ItemType::Flax,
            CropType::Sugarcane => ItemType::Sugarcane,
        }
    }

    /// Amount harvested per plot.
    pub open spec fn spec_yield_count(self) -> u32 {
        match self {
            CropType::Wheat => 3,
            CropType::Carrot => 2,
            CropType::Tomato => 2,
            CropType::Pumpkin => 1,
            CropType::Corn => 3,
            CropType::Potato => 2,
            CropType::Melon => 1,
            CropType::Rice => 3,
            CropType::Pepper => 2,
            CropType::Onion => 2,
            CropType::Flax => 2,
            CropType::Sugarcane => 2,
        }
    }

    /// Amount harvested per plot.
    pub fn yield_count(&self) -> (n: u32)
        ensures
            n == self.spec_yield_count(),
    {
        match self {
            CropType::Wheat => 3,
            CropType::Carrot => 2,
            CropType::Tomato => 2,
            CropType::Pumpkin => 1,
            CropType::Corn => 3,
            CropType::Potato => 2,
            CropType::Melon => 1,
            CropType::Rice => 3,
            CropType::Pepper => 2,
            CropType::Onion => 2,
            CropType::Flax => 2,
            CropType::Sugarcane => 2,
        }
    }

    /// Whether the crop grows in the given season.
    pub open spec fn grows_in(self, season: Season) -> bool {
        match self {
            CropType::Wheat => season == Season::Spring || season == Season::Summer,
            CropType::Carrot => season == Season::Summer || season == Season::Autumn,
            CropType::Tomato => season == Season::Summer,
            CropType::Pumpkin => season == Season::Autumn,
            CropType::Corn => season == Season::Spring || season == Season::Summer,
            CropType::Potato => season == Season::Spring || season == Season::Autumn,
            CropType::Melon => season == Season::Summer,
            CropType::Rice => season == Season::Spring,
            CropType::Pepper => season == Season::Summer || season == Season::Autumn,
            CropType::Onion => season == Season::Spring || season == Season::Autumn,
            CropType::Flax => season == Season::Summer,
            CropType::Sugarcane => season == Season::Summer,
        }
    }

    /// Growth factor for this crop in the given season: 0 = off-season (no
    /// growth), 1 = in-season.
    pub fn growth_factor_in(&self, season: Season) -> (f: u32)
        ensures
            f == if self.grows_in(season) { 1u32 } else { 0u32 },
    {
        match self {
            CropType::Wheat => match season {
                Season::Spring | Season::Summer => 1,
                _ => 0,
            },
            CropType::Carrot => match season {
                Season::Summer | Season::Autumn => 1,
                _ => 0,
            },
            CropType::Tomato => match season {
                Season::Summer => 1,
                _ => 0,
            },
            CropType::Pumpkin => match season {
                Season::Autumn => 1,
                _ => 0,
            },
            CropType::Corn => match season {
                Season::Spring | Season::Summer => 1,
                _ => 0,
            },
            CropType::Potato => match season {
                Season::Spring | Season::Autumn => 1,
                _ => 0,
            },
            CropType::Melon => match season {
                Season::Summer => 1,
                _ => 0,
            },
            CropType::Rice => match season {
                Season::Spring => 1,
                _ => 0,
            },
            CropType::Pepper => match season {
                Season::Summer | Season::Autumn => 1,
                _ => 0,
            },
            CropType::Onion => match season {
                Season::Spring | Season::Autumn => 1,
                _ => 0,
            },
            CropType::Flax => match season {
                Season::Summer => 1,
                _ => 0,
            },
            CropType::Sugarcane => match season {
                Season::Summer => 1,
                _ => 0,
            },
        }
    }
}

/// The crop a seed item plants, if it is a seed.
pub open spec fn spec_crop_for_seed(item: ItemType) -> Option<CropType> {
    match item {
        ItemType::WheatSeed => Some(CropType::Wheat),
        ItemType::CarrotSeed => Some(CropType::Carrot),
        ItemType::TomatoSeed => Some(CropType::Tomato),
        ItemType::PumpkinSeed => Some(CropType::Pumpkin),
        ItemType::CornSeed => Some(CropType::Corn),
        ItemType::PotatoSeed => Some(CropType::Potato),
        ItemType::MelonSeed => Some(CropType::Melon),
        ItemType::RiceSeed => Some(CropType::Rice),
        ItemType::PepperSeed => Some(CropType::Pepper),
        ItemType::OnionSeed => Some(CropType::Onion),
        ItemType::FlaxSeed => Some(CropType::Flax),
        ItemType::SugarcaneSeed => Some(CropType::Sugarcane),
        _ => None,
    }
}

/// The crop that the item in hand plants, if it is a seed.
pub fn crop_for_seed(item: ItemType) -> (c: Option<CropType>)
    ensures
        c == spec_crop_for_seed(item),
{
    match item {
        ItemType::WheatSeed => Some(CropType::Wheat),
        ItemType::CarrotSeed => Some(CropType::Carrot),
        ItemType::TomatoSeed => Some(CropType::Tomato),
        ItemType::PumpkinSeed => Some(CropType::Pumpkin),
        ItemType::CornSeed => Some(CropType::Corn),
        ItemType::PotatoSeed => Some(CropType::Potato),
        ItemType::MelonSeed => Some(CropType::Melon),
        ItemType::RiceSeed => Some(CropType::Rice),
        ItemType::PepperSeed => Some(CropType::Pepper),
        ItemType::OnionSeed => Some(CropType::Onion),
        ItemType::FlaxSeed => Some(CropType::Flax),
        ItemType::SugarcaneSeed => Some(CropType::Sugarcane),
        _ => None,
    }
}

/// A seed plants exactly the crop whose seed it is: `crop_for_seed` undoes
/// `seed_item`, and only seeds plant anything.
pub proof fn law_seed_round_trip(c: CropType, item: ItemType)
    ensures
        spec_crop_for_seed(c.spec_seed_item()) == Some(c),
        spec_crop_for_seed(item) matches Some(d) ==> d.spec_seed_item() == item,
{
}

/// Nothing grows in winter, every crop has a growing season, and every
/// harvest yields at least one item.
pub proof fn law_growing_seasons(c: CropType)
    ensures
        !c.grows_in(Season::Winter),
        c.grows_in(Season::Spring) || c.grows_in(Season::Summer) || c.grows_in(Season::Autumn),
        c.spec_yield_count() >= 1,
{
}

// ---------------------------------------------------------------------------
// Farm plots
// ---------------------------------------------------------------------------

/// Growth of a plot at maturity, in thousandths.
pub const MATURE_GROWTH: u32 = 1000;

/// A tilled tile, empty or growing a crop.
#[derive(Clone, Copy, Debug, PartialEq, Eq, Structural)]
pub struct FarmPlot {
    /// `None`: tilled but empty.
    pub crop: Option<CropType>,
    /// Growth in thousandths: 0 just planted, 1000 mature.
    pub growth: u32,
}

impl FarmPlot {
    /// A freshly tilled, empty plot.
    pub fn tilled() -> (p: Self)
        ensures
            p.crop is None,
            p.growth == 0,
    {
        FarmPlot { crop: None, growth: 0 }
    }

    /// Whether the crop has finished growing.
    pub fn is_mature(&self) -> (b: bool)
        ensures
            b == (self.growth >= MATURE_GROWTH),
    {
        self.growth >= MATURE_GROWTH
    }
}

/// The crop the selected slot would plant, if it holds a seed.
pub open spec fn spec_selected_crop(slot: Option<InventorySlot>) -> Option<CropType> {
    match slot {
        Some(s) => spec_crop_for_seed(s.item),
        None => None,
    }
}

/// Whether the selected slot holds the hoe, which tills soil.
pub fn holds_hoe(inventory: &Inventory) -> (b: bool)
    requires
        inventory.selected_slot < inventory.slots@.len(),
    ensures
        b == (inventory.slots@[inventory.selected_slot as int] matches Some(s) && s.item == ItemType::Hoe),
{
    match inventory.selected_item() {
        Some(s) => s.item == ItemType::Hoe,
        None => false,
    }
}

/// Plants the selected seed in an empty plot: one seed is taken and the
/// plot starts growing that crop. Nothing changes if no seed is selected,
/// the plot is taken, or (which cannot happen with a seed selected) no seed
/// is left to take.
pub fn plant_seed(plot: &mut FarmPlot, inventory: &mut Inventory) -> (planted: Option<CropType>)
    requires
        old(inventory).wf(),
        old(inventory).selected_slot < old(inventory).slots@.len(),
    ensures
        final(inventory).wf(),
        final(inventory).selected_slot == old(inventory).selected_slot,
        ({
            let c = spec_selected_crop(old(inventory).slots@[old(inventory).selected_slot as int]);
            if c is Some && old(plot).crop is None && old(inventory).total(c.unwrap().spec_seed_item()) >= 1 {
                &&& planted == c
                &&& *final(plot) == FarmPlot { crop: c, growth: 0 }
                &&& final(inventory).slots@ == remove_result(old(inventory).slots@, c.unwrap().spec_seed_item(), 1)
            } else {
                &&& planted is None
                &&& *final(plot) == *old(plot)
                &&& final(inventory).slots@ == old(inventory).slots@
            }
        }),
{
    let crop = match inventory.selected_item() {
        Some(s) => crop_for_seed(s.item),
        None => None,
    };
    let c = match crop {
        Some(c) => c,
        None => { return None; },
    };
    if plot.crop.is_some() {
        return None;
    }
    if !inventory.remove_items(c.seed_item(), 1) {
        return None;
    }
    plot.crop = Some(c);
    plot.growth = 0;
    Some(c)
}

/// Growth after a tick adding `amount` thousandths: a planted plot grows up
/// to maturity and stops there; an empty plot does not grow.
pub open spec fn spec_grow(plot: FarmPlot, amount: u32) -> FarmPlot {
    if plot.crop is None || plot.growth >= MATURE_GROWTH {
        plot
    } else if plot.growth + amount >= MATURE_GROWTH {
        FarmPlot { growth: MATURE_GROWTH, ..plot }
    } else {
        FarmPlot { growth: (plot.growth + amount) as u32, ..plot }
    }
}

/// Advances a plot's growth by `amount` thousandths (what the elapsed time,
/// the season and the weather are worth), capped at maturity.
pub fn grow_crop(plot: &mut FarmPlot, amount: u32)
    ensures
        *final(plot) == spec_grow(*old(plot), amount),
{
    if plot.crop.is_none() || plot.growth >= MATURE_GROWTH {
        return;
    }
    if amount >= MATURE_GROWTH - plot.growth {
        plot.growth = MATURE_GROWTH;
    } else {
        plot.growth = plot.growth + amount;
    }
}

/// Harvests a mature plot: its yield goes into the inventory and the plot
/// is tilled and empty again. A plot that is empty or still growing is left
/// alone.
pub fn harvest_crop(plot: &mut FarmPlot, inventory: &mut Inventory) -> (harvest: Option<(ItemType, u32)>)
    requires
        old(inventory).wf(),
    ensures
        final(inventory).wf(),
        final(inventory).selected_slot == old(inventory).selected_slot,
        match old(plot).crop {
            Some(c) => if old(plot).growth >= MATURE_GROWTH {
                &&& harvest == Some((c.spec_yield_item(), c.spec_yield_count()))
                &&& *final(plot) == FarmPlot { crop: None, growth: 0 }
                &&& final(inventory).slots@ == add_result(old(inventory).slots@, c.spec_yield_item(), c.spec_yield_count()).0
            } else {
                &&& harvest is None
                &&& *final(plot) == *old(plot)
                &&& final(inventory).slots@ == old(inventory).slots@
            },
            None => {
                &&& harvest is None
                &&& *final(plot) == *old(plot)
                &&& final(inventory).slots@ == old(inventory).slots@
            },
        },
{
    let crop = match plot.crop {
        Some(c) => c,
        None => { return None; },
    };
    if !plot.is_mature() {
        return None;
    }
    let item = crop.yield_item();
    let count = crop.yield_count();
    inventory.add_item(item, count);
    plot.crop = None;
    plot.growth = 0;
    Some((item, count))
}

/// Growth never passes maturity and never changes the crop, and it does
/// not matter how the time is cut into ticks: two ticks grow a plot as far
/// as one tick worth both.
pub proof fn law_growth_ticks(plot: FarmPlot, a: u32, b: u32)
    requires
        plot.growth <= MATURE_GROWTH,
        a + b <= u32::MAX,
    ensures
        spec_grow(plot, a).growth <= MATURE_GROWTH,
        spec_grow(plot, a).crop == plot.crop,
        spec_grow(spec_grow(plot, a), b) == spec_grow(plot, (a + b) as u32),
{
}

} // verus!
