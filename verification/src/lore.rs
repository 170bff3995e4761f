//! Lore: journal pages reveal entries of the world's history, and
//! expansion entries unlock by id as the player explores.

use vstd::prelude::*;
use crate::items::ItemType;
use crate::inventory::{Inventory, remove_result};
use rand::rngs::ThreadRng;

verus! {

/// Number of base lore entries, found on journal pages.
pub const BASE_LORE_COUNT: usize = 20;

/// Number of expansion lore entries, unlocked by id.
pub const EXPANSION_LORE_COUNT: usize = 30;

/// Text of base lore entry `i`.
pub open spec fn lore_text(i: int) -> Seq<char> {
    if i == 0 { "The ancient civilization called themselves the Aethari. They built their first city on the mountain known today as the Pale Crown."@ }
    else if i == 1 { "Aethari scribes recorded that their empire stretched across nine biomes, each governed by a crystal pillar that regulated the weather."@ }
    else if i == 2 { "The Driftlands were named by survivors of the Collapse; they said the very ground 'drifted' as if adrift from the world."@ }
    else if i == 3 { "Aethari engineers pioneered crystal-lattice construction, fusing obsidian and crystal shards with volcanic heat to create Ancient Cores."@ }
    else if i == 4 { "The last Aethari emperor vanished into the Crystal Cave network, supposedly searching for a way to reverse the Collapse."@ }
    else if i == 5 { "Archaeologists have found Aethari tools made of an alloy unknown to modern smiths — stronger than steel yet lighter than iron."@ }
    else if i == 6 { "The crystal pillars did not merely control weather; they acted as a distributed memory store for the entire civilization's knowledge."@ }
    else if i == 7 { "Aethari farmers cultivated herbs that could not grow naturally in any biome — some believe the pillars altered local climate for crops."@ }
    else if i == 8 { "A fragment of an Aethari tablet reads: 'When the last pillar falls, the land shall breathe again, though we shall not breathe with it.'"@ }
    else if i == 9 { "The swamp regions expanded dramatically after the Collapse, swallowing several Aethari coastal settlements within a generation."@ }
    else if i == 10 { "Wandering traders tell of a sealed vault deep beneath the volcanic biome, said to contain the Aethari's greatest invention."@ }
    else if i == 11 { "The Aethari used a calendar based on crystal resonance cycles rather than solar cycles; their 'year' was approximately 400 days."@ }
    else if i == 12 { "Hermits who live near the ruins claim to hear faint harmonic tones at night — remnants of the pillars' resonance, still echoing."@ }
    else if i == 13 { "Aethari soldiers carried blades forged from ancient cores. These 'Ancient Blades' could cut stone as easily as flesh."@ }
    else if i == 14 { "The Fungal biome was once an Aethari pleasure garden. The giant mushrooms are mutations caused by leaking crystal energy."@ }
    else if i == 15 { "No two Aethari ruins have exactly the same architectural style, suggesting a decentralized empire of many city-states rather than one capital."@ }
    else if i == 16 { "The Aethari word for 'home' and 'world' is the same: 'Vaethar'. Scholars debate whether this implies they viewed the whole world as home."@ }
    else if i == 17 { "Some ice crystals in the tundra biome contain preserved Aethari organic matter — seeds, insects, and once, what appeared to be a hand."@ }
    else if i == 18 { "Aethari records mention a class of citizens called 'Driftwalkers' who could navigate between biomes using crystal-attuned compasses."@ }
    else { "The final Aethari log ever found simply reads: 'We gave it everything. May whoever comes next use it more wisely than we did.'"@ }
}

fn lore_entry(i: usize) -> (s: &'static str)
    requires
        i < BASE_LORE_COUNT,
    ensures
        s@ == lore_text(i as int),
{
    match i {
        0 => "The ancient civilization called themselves the Aethari. They built their first city on the mountain known today as the Pale Crown.",
        1 => "Aethari scribes recorded that their empire stretched across nine biomes, each governed by a crystal pillar that regulated the weather.",
        2 => "The Driftlands were named by survivors of the Collapse; they said the very ground 'drifted' as if adrift from the world.",
        3 => "Aethari engineers pioneered crystal-lattice construction, fusing obsidian and crystal shards with volcanic heat to create Ancient Cores.",
        4 => "The last Aethari emperor vanished into the Crystal Cave network, supposedly searching for a way to reverse the Collapse.",
        5 => "Archaeologists have found Aethari tools made of an alloy unknown to modern smiths — stronger than steel yet lighter than iron.",
        6 => "The crystal pillars did not merely control weather; they acted as a distributed memory store for the entire civilization's knowledge.",
        7 => "Aethari farmers cultivated herbs that could not grow naturally in any biome — some believe the pillars altered local climate for crops.",
        8 => "A fragment of an Aethari tablet reads: 'When the last pillar falls, the land shall breathe again, though we shall not breathe with it.'",
        9 => "The swamp regions expanded dramatically after the Collapse, swallowing several Aethari coastal settlements within a generation.",
        10 => "Wandering traders tell of a sealed vault deep beneath the volcanic biome, said to contain the Aethari's greatest invention.",
        11 => "The Aethari used a calendar based on crystal resonance cycles rather than solar cycles; their 'year' was approximately 400 days.",
        12 => "Hermits who live near the ruins claim to hear faint harmonic tones at night — remnants of the pillars' resonance, still echoing.",
        13 => "Aethari soldiers carried blades forged from ancient cores. These 'Ancient Blades' could cut stone as easily as flesh.",
        14 => "The Fungal biome was once an Aethari pleasure garden. The giant mushrooms are mutations caused by leaking crystal energy.",
        15 => "No two Aethari ruins have exactly the same architectural style, suggesting a decentralized empire of many city-states rather than one capital.",
        16 => "The Aethari word for 'home' and 'world' is the same: 'Vaethar'. Scholars debate whether this implies they viewed the whole world as home.",
        17 => "Some ice crystals in the tundra biome contain preserved Aethari organic matter — seeds, insects, and once, what appeared to be a hand.",
        18 => "Aethari records mention a class of citizens called 'Driftwalkers' who could navigate between biomes using crystal-attuned compasses.",
        _ => "The final Aethari log ever found simply reads: 'We gave it everything. May whoever comes next use it more wisely than we did.'",
    }
}

/// Id and text of expansion lore entry `i`: biomes, then bosses, then
/// structures, then gameplay hints.
pub open spec fn expansion_lore(i: int) -> (Seq<char>, Seq<char>) {
    if i == 0 { ("biome_forest"@, "The Forest of Whispers grows over an ancient Aethari orchard. Fruit trees here bear strange hybrid crops when tended carefully. Tip: Forest resources respawn faster than any other biome — harvest wood here for efficient stockpiling."@) }
    else if i == 1 { ("biome_coastal"@, "The Coastal Reaches were once the Aethari's main trade routes. Salt-encrusted ruins still line the shore. Tip: Coastal biomes provide unique shells and coral used in advanced crafting recipes."@) }
    else if i == 2 { ("biome_swamp"@, "The Verdant Mire formed when Aethari irrigation canals overflowed after the Collapse, drowning an entire province. Tip: Swamp herbs are essential for brewing antidotes — gather them before exploring poison-heavy dungeons."@) }
    else if i == 3 { ("biome_desert"@, "The Amber Wastes hide Aethari oases beneath sand dunes, fed by underground crystal-filtered springs. Tip: Desert heat drains hunger faster — carry extra food and water, and travel at night when enemies are weaker here."@) }
    else if i == 4 { ("biome_tundra"@, "The Frozen Reach preserves Aethari technology in ice. Crystal shards found here have double the resonance of those elsewhere. Tip: Winter gear and warm food prevent the Frostbite debuff — never explore the tundra unprepared."@) }
    else if i == 5 { ("biome_volcanic"@, "The Molten Core was the Aethari's primary forge. They channeled lava flows through crystal pipes to power their greatest works. Tip: Volcanic ore yields the strongest metals, but lava pools deal rapid damage — build bridges to cross safely."@) }
    else if i == 6 { ("biome_fungal"@, "The Sporemist Caverns were sealed by the Aethari to contain a failed biological experiment. The mushrooms evolved intelligence. Tip: Fungal enemies inflict poison — craft antidotes before entering, and watch for spore clouds that reduce visibility."@) }
    else if i == 7 { ("biome_crystalcave"@, "The Crystal Depths hum with residual Aethari energy. The caves grow and shift as crystals form new passages over time. Tip: Crystal Shards mined here are essential for enchanting and tech tree research — bring a good pickaxe."@) }
    else if i == 8 { ("biome_mountain"@, "The Pale Crown peaks were the Aethari seat of power. Wind-carved ruins at the summit still channel crystal energy. Tip: Mountain enemies hit hardest but are slow — kite them with a bow or use terrain to your advantage."@) }
    else if i == 9 { ("boss_forest_guardian"@, "The Forest Guardian is a living tree animated by an Aethari crystal heart buried in its trunk. It protects the ancient orchard from all outsiders. Weakness: Fire damage burns its bark — enchant a weapon with flame, or use torches."@) }
    else if i == 10 { ("boss_swamp_beast"@, "The Swamp Beast is a massive amphibian mutated by centuries of exposure to corrupted Aethari irrigation crystals. It lurks in the deepest mire. Weakness: It is slow on dry land — lure it out of the water and strike while it is sluggish."@) }
    else if i == 11 { ("boss_desert_wyrm"@, "The Desert Wyrm burrows through sand using a crystalline horn that once served as an Aethari drilling tool. It surfaces to feed. Weakness: When it charges, dodge sideways — it cannot turn quickly. Attack its exposed belly after a missed charge."@) }
    else if i == 12 { ("boss_frost_giant"@, "The Frost Giant was once an Aethari golem designed to patrol the tundra borders. Its crystal core froze over, driving it berserk. Weakness: Fire and blunt weapons crack its icy armor — avoid its ground-slam attack by staying mobile."@) }
    else if i == 13 { ("boss_magma_king"@, "The Magma King dwells in the deepest forge chamber, a being of living lava shaped by the Aethari to fuel their smelters forever. Weakness: Water and ice attacks cool its molten shell temporarily — strike fast during the hardened phase."@) }
    else if i == 14 { ("boss_fungal_overlord"@, "The Fungal Overlord is the largest organism in the Driftlands — a network of mycelium that grew a mobile body to hunt. Weakness: It regenerates unless you destroy its spore nodes first. Clear the small mushroom minions before focusing the boss."@) }
    else if i == 15 { ("boss_crystal_sentinel"@, "The Crystal Sentinel guards the deepest mine shaft, a geometric construct of pure Aethari crystal lattice. It shatters and reforms. Weakness: Heavy weapons stagger it before it can reform — use a hammer or axe for maximum effect."@) }
    else if i == 16 { ("boss_tidal_serpent"@, "The Tidal Serpent patrols the coastal depths, an eel-like creature whose scales are fused with Aethari naval armor plating. Weakness: It must surface to breathe — attack during its surface phase and dodge when it dives."@) }
    else if i == 17 { ("boss_mountain_titan"@, "The Mountain Titan is a stone colossus carved by the Aethari as a last line of defense. It still follows its ancient orders. Weakness: Its attacks are slow and telegraphed — dodge-roll through its slam and counter-attack from behind."@) }
    else if i == 18 { ("struct_abandoned_village"@, "Abandoned villages dot the landscape, remnants of post-Collapse settlements that failed to survive. Scavengers sometimes find intact tools and supplies in their ruins. Tip: Search every building — some contain hidden caches behind breakable walls."@) }
    else if i == 19 { ("struct_mine_shaft"@, "Mine shafts were dug by Aethari miners who followed crystal veins deep underground. The tunnels branch unpredictably and many dead-end in sealed Aethari vaults. Tip: Bring torches and a weapon — cave spiders nest near crystal deposits."@) }
    else if i == 20 { ("struct_trader_outpost"@, "Trader outposts are built by the few remaining merchants who brave the wilds. They offer rare materials and blueprints in exchange for gathered resources. Tip: Save your Gemstones and Crystal Shards — traders often stock enchanting materials."@) }
    else if i == 21 { ("struct_watchtower"@, "Watchtowers were built by early Driftlands settlers to spot enemy raids. Climbing one reveals a wide area on the minimap and may contain a supply chest. Tip: Rest at a watchtower to get a temporary vision buff that extends your minimap range."@) }
    else if i == 22 { ("struct_fishing_dock"@, "Fishing docks were constructed near Aethari-engineered fish nurseries. The waters nearby still teem with unusual species bred for both food and alchemy. Tip: Fishing at a dock increases your catch rate — use a Steel Fishing Rod for the best results."@) }
    else if i == 23 { ("hint_enchanting"@, "The Art of Enchanting: The Aethari discovered that crystal shards can store intent. By placing a weapon on an enchanting table with gems, the crystal infuses the metal with elemental power. Tip: Combine Crystal Shards with Gemstones to create Fire, Ice, or Poison enchantments. Higher-tier gems yield stronger effects."@) }
    else if i == 24 { ("hint_fishing"@, "Secrets of the Deep: Aethari fishers catalogued over forty species, some of which still swim the Driftlands waters. Rare fish appear only during certain seasons and weather. Tip: Fish during rain for increased rare catch rates. Use a Steel Fishing Rod and fish near structures for the best hauls."@) }
    else if i == 25 { ("hint_pet_care"@, "Taming the Wild: Aethari beast-keepers used crystal-attuned collars to bond with wild creatures. A weakened animal is receptive to the collar's calming resonance. Tip: Weaken a tameable creature below 25% HP, then use a Pet Collar. Feed your pet regularly to keep its loyalty — a hungry pet may flee during combat."@) }
    else if i == 26 { ("hint_combat_tactics"@, "Combat Doctrine: Aethari warriors trained in a discipline they called 'the dance of edges' — constant movement and timed strikes. Tip: Perfect-block enemy attacks within 0.2 seconds for full damage negation. Dodge-roll through boss attacks to avoid damage entirely. Combo hits deal bonus damage on the third consecutive strike."@) }
    else if i == 27 { ("hint_farming"@, "The Cultivator's Almanac: Each season affects crop growth differently. Spring accelerates growth, Summer maximizes yield, Autumn slows maturation, and Winter nearly halts it. Tip: Plant crops at the start of Spring for maximum harvests. Use Aethari fertilizer (crafted from bone meal and crystal dust) to ignore seasonal penalties."@) }
    else if i == 28 { ("hint_building"@, "Master Builder's Notes: Walls placed in a complete enclosure create a shelter zone that slows hunger drain and boosts health regeneration. Doors block enemy pathfinding. Tip: Build a 3x3 shelter with a door before your first nightfall. Place a bed inside to set your spawn point — dying without a bed means a long walk back."@) }
    else { ("hint_survival"@, "Survivor's Wisdom: The Driftlands punish the unprepared. Every expedition should include food, a weapon, building materials, and torches. Tip: Craft a backpack to expand your inventory before long trips. Mark your base location on the map, and always carry materials to build an emergency shelter if night catches you away from home."@) }
}

fn expansion_entry(i: usize) -> (e: (&'static str, &'static str))
    requires
        i < EXPANSION_LORE_COUNT,
    ensures
        e.0@ == expansion_lore(i as int).0,
        e.1@ == expansion_lore(i as int).1,
{
    match i {
        0 => ("biome_forest", "The Forest of Whispers grows over an ancient Aethari orchard. Fruit trees here bear strange hybrid crops when tended carefully. Tip: Forest resources respawn faster than any other biome — harvest wood here for efficient stockpiling."),
        1 => ("biome_coastal", "The Coastal Reaches were once the Aethari's main trade routes. Salt-encrusted ruins still line the shore. Tip: Coastal biomes provide unique shells and coral used in advanced crafting recipes."),
        2 => ("biome_swamp", "The Verdant Mire formed when Aethari irrigation canals overflowed after the Collapse, drowning an entire province. Tip: Swamp herbs are essential for brewing antidotes — gather them before exploring poison-heavy dungeons."),
        3 => ("biome_desert", "The Amber Wastes hide Aethari oases beneath sand dunes, fed by underground crystal-filtered springs. Tip: Desert heat drains hunger faster — carry extra food and water, and travel at night when enemies are weaker here."),
        4 => ("biome_tundra", "The Frozen Reach preserves Aethari technology in ice. Crystal shards found here have double the resonance of those elsewhere. Tip: Winter gear and warm food prevent the Frostbite debuff — never explore the tundra unprepared."),
        5 => ("biome_volcanic", "The Molten Core was the Aethari's primary forge. They channeled lava flows through crystal pipes to power their greatest works. Tip: Volcanic ore yields the strongest metals, but lava pools deal rapid damage — build bridges to cross safely."),
        6 => ("biome_fungal", "The Sporemist Caverns were sealed by the Aethari to contain a failed biological experiment. The mushrooms evolved intelligence. Tip: Fungal enemies inflict poison — craft antidotes before entering, and watch for spore clouds that reduce visibility."),
        7 => ("biome_crystalcave", "The Crystal Depths hum with residual Aethari energy. The caves grow and shift as crystals form new passages over time. Tip: Crystal Shards mined here are essential for enchanting and tech tree research — bring a good pickaxe."),
        8 => ("biome_mountain", "The Pale Crown peaks were the Aethari seat of power. Wind-carved ruins at the summit still channel crystal energy. Tip: Mountain enemies hit hardest but are slow — kite them with a bow or use terrain to your advantage."),
        9 => ("boss_forest_guardian", "The Forest Guardian is a living tree animated by an Aethari crystal heart buried in its trunk. It protects the ancient orchard from all outsiders. Weakness: Fire damage burns its bark — enchant a weapon with flame, or use torches."),
        10 => ("boss_swamp_beast", "The Swamp Beast is a massive amphibian mutated by centuries of exposure to corrupted Aethari irrigation crystals. It lurks in the deepest mire. Weakness: It is slow on dry land — lure it out of the water and strike while it is sluggish."),
        11 => ("boss_desert_wyrm", "The Desert Wyrm burrows through sand using a crystalline horn that once served as an Aethari drilling tool. It surfaces to feed. Weakness: When it charges, dodge sideways — it cannot turn quickly. Attack its exposed belly after a missed charge."),
        12 => ("boss_frost_giant", "The Frost Giant was once an Aethari golem designed to patrol the tundra borders. Its crystal core froze over, driving it berserk. Weakness: Fire and blunt weapons crack its icy armor — avoid its ground-slam attack by staying mobile."),
        13 => ("boss_magma_king", "The Magma King dwells in the deepest forge chamber, a being of living lava shaped by the Aethari to fuel their smelters forever. Weakness: Water and ice attacks cool its molten shell temporarily — strike fast during the hardened phase."),
        14 => ("boss_fungal_overlord", "The Fungal Overlord is the largest organism in the Driftlands — a network of mycelium that grew a mobile body to hunt. Weakness: It regenerates unless you destroy its spore nodes first. Clear the small mushroom minions before focusing the boss."),
        15 => ("boss_crystal_sentinel", "The Crystal Sentinel guards the deepest mine shaft, a geometric construct of pure Aethari crystal lattice. It shatters and reforms. Weakness: Heavy weapons stagger it before it can reform — use a hammer or axe for maximum effect."),
        16 => ("boss_tidal_serpent", "The Tidal Serpent patrols the coastal depths, an eel-like creature whose scales are fused with Aethari naval armor plating. Weakness: It must surface to breathe — attack during its surface phase and dodge when it dives."),
        17 => ("boss_mountain_titan", "The Mountain Titan is a stone colossus carved by the Aethari as a last line of defense. It still follows its ancient orders. Weakness: Its attacks are slow and telegraphed — dodge-roll through its slam and counter-attack from behind."),
        18 => ("struct_abandoned_village", "Abandoned villages dot the landscape, remnants of post-Collapse settlements that failed to survive. Scavengers sometimes find intact tools and supplies in their ruins. Tip: Search every building — some contain hidden caches behind breakable walls."),
        19 => ("struct_mine_shaft", "Mine shafts were dug by Aethari miners who followed crystal veins deep underground. The tunnels branch unpredictably and many dead-end in sealed Aethari vaults. Tip: Bring torches and a weapon — cave spiders nest near crystal deposits."),
        20 => ("struct_trader_outpost", "Trader outposts are built by the few remaining merchants who brave the wilds. They offer rare materials and blueprints in exchange for gathered resources. Tip: Save your Gemstones and Crystal Shards — traders often stock enchanting materials."),
        21 => ("struct_watchtower", "Watchtowers were built by early Driftlands settlers to spot enemy raids. Climbing one reveals a wide area on the minimap and may contain a supply chest. Tip: Rest at a watchtower to get a temporary vision buff that extends your minimap range."),
        22 => ("struct_fishing_dock", "Fishing docks were constructed near Aethari-engineered fish nurseries. The waters nearby still teem with unusual species bred for both food and alchemy. Tip: Fishing at a dock increases your catch rate — use a Steel Fishing Rod for the best results."),
        23 => ("hint_enchanting", "The Art of Enchanting: The Aethari discovered that crystal shards can store intent. By placing a weapon on an enchanting table with gems, the crystal infuses the metal with elemental power. Tip: Combine Crystal Shards with Gemstones to create Fire, Ice, or Poison enchantments. Higher-tier gems yield stronger effects."),
        24 => ("hint_fishing", "Secrets of the Deep: Aethari fishers catalogued over forty species, some of which still swim the Driftlands waters. Rare fish appear only during certain seasons and weather. Tip: Fish during rain for increased rare catch rates. Use a Steel Fishing Rod and fish near structures for the best hauls."),
        25 => ("hint_pet_care", "Taming the Wild: Aethari beast-keepers used crystal-attuned collars to bond with wild creatures. A weakened animal is receptive to the collar's calming resonance. Tip: Weaken a tameable creature below 25% HP, then use a Pet Collar. Feed your pet regularly to keep its loyalty — a hungry pet may flee during combat."),
        26 => ("hint_combat_tactics", "Combat Doctrine: Aethari warriors trained in a discipline they called 'the dance of edges' — constant movement and timed strikes. Tip: Perfect-block enemy attacks within 0.2 seconds for full damage negation. Dodge-roll through boss attacks to avoid damage entirely. Combo hits deal bonus damage on the third consecutive strike."),
        27 => ("hint_farming", "The Cultivator's Almanac: Each season affects crop growth differently. Spring accelerates growth, Summer maximizes yield, Autumn slows maturation, and Winter nearly halts it. Tip: Plant crops at the start of Spring for maximum harvests. Use Aethari fertilizer (crafted from bone meal and crystal dust) to ignore seasonal penalties."),
        28 => ("hint_building", "Master Builder's Notes: Walls placed in a complete enclosure create a shelter zone that slows hunger drain and boosts health regeneration. Doors block enemy pathfinding. Tip: Build a 3x3 shelter with a door before your first nightfall. Place a bed inside to set your spawn point — dying without a bed means a long walk back."),
        _ => ("hint_survival", "Survivor's Wisdom: The Driftlands punish the unprepared. Every expedition should include food, a weapon, building materials, and torches. Tip: Craft a backpack to expand your inventory before long trips. Mark your base location on the map, and always carry materials to build an emergency shelter if night catches you away from home."),
    }
}
/// A list of strings as mathematical values.
pub open spec fn strings_view(v: Seq<String>) -> Seq<Seq<char>> {
    v.map_values(|s: String| s@)
}

/// The base entries among the first `n` that are not in `collected`, in order.
pub open spec fn uncollected_prefix(collected: Seq<Seq<char>>, n: int) -> Seq<Seq<char>>
    decreases n,
{
    if n <= 0 {
        seq![]
    } else {
        let p = uncollected_prefix(collected, n - 1);
        if collected.contains(lore_text(n - 1)) { p } else { p.push(lore_text(n - 1)) }
    }
}

/// The base entries not yet collected, in order.
pub open spec fn uncollected(collected: Seq<Seq<char>>) -> Seq<Seq<char>> {
    uncollected_prefix(collected, BASE_LORE_COUNT as int)
}

/// Index of the first expansion entry among the first `n` with id `id`.
pub open spec fn expansion_index_prefix(id: Seq<char>, n: int) -> Option<int>
    decreases n,
{
    if n <= 0 {
        None
    } else {
        match expansion_index_prefix(id, n - 1) {
            Some(i) => Some(i),
            None => if expansion_lore(n - 1).0 == id { Some(n - 1) } else { None },
        }
    }
}

/// Index of the expansion entry with id `id`, if there is one.
pub open spec fn expansion_index(id: Seq<char>) -> Option<int> {
    expansion_index_prefix(id, EXPANSION_LORE_COUNT as int)
}

/// Whether `s` occurs in a list of strings.
fn contains_text(v: &Vec<String>, s: &str) -> (b: bool)
    ensures
        b == strings_view(v@).contains(s@),
{
    let key = String::from_str(s);
    let mut j: usize = 0;
    while j < v.len()
        invariant
            j <= v@.len(),
            key@ == s@,
            forall|i: int| 0 <= i < j ==> v@[i]@ != s@,
        decreases v.len() - j,
    {
        if v[j] == key {
            proof { assert(strings_view(v@)[j as int] == s@); }
            return true;
        }
        j = j + 1;
    }
    proof {
        if strings_view(v@).contains(s@) {
            let w = choose|w: int| 0 <= w < strings_view(v@).len() && strings_view(v@)[w] == s@;
            assert(v@[w]@ == s@);
        }
    }
    false
}

/// The player's collection of lore.
pub struct LoreRegistry {
    pub collected_entries: Vec<String>,
    pub total_entries: u32,
    /// IDs of expansion lore entries that have been unlocked.
    pub unlocked_expansion_lore: Vec<String>,
    /// All expansion lore definitions (id, text) for biome/boss/structure/gameplay.
    pub expansion_entries: Vec<(&'static str, &'static str)>,
}

impl LoreRegistry {
    /// The expansion table holds exactly the 30 expansion entries, and no
    /// expansion id is unlocked twice.
    pub open spec fn wf(&self) -> bool {
        &&& self.unlocked().no_duplicates()
        &&& self.expansion_entries@.len() == EXPANSION_LORE_COUNT
        &&& forall|i: int| 0 <= i < EXPANSION_LORE_COUNT ==> (#[trigger] self.expansion_entries@[i]).0@ == expansion_lore(i).0
            && self.expansion_entries@[i].1@ == expansion_lore(i).1
    }

    /// The collected entries as mathematical values.
    pub open spec fn collected(&self) -> Seq<Seq<char>> {
        strings_view(self.collected_entries@)
    }

    /// The unlocked expansion ids as mathematical values.
    pub open spec fn unlocked(&self) -> Seq<Seq<char>> {
        strings_view(self.unlocked_expansion_lore@)
    }

    /// An empty collection out of 50 entries: 20 base and 30 expansion.
    pub fn new() -> (r: Self)
        ensures
            r.wf(),
            r.expansion_entries@.len() == EXPANSION_LORE_COUNT,
            r.collected_entries@.len() == 0,
            r.unlocked_expansion_lore@.len() == 0,
            r.total_entries == 50,
    {
        let mut expansion: Vec<(&'static str, &'static str)> = Vec::new();
        let mut i: usize = 0;
        while i < EXPANSION_LORE_COUNT
            invariant
                i <= EXPANSION_LORE_COUNT,
                expansion@.len() == i,
                forall|k: int| 0 <= k < i ==> (#[trigger] expansion@[k]).0@ == expansion_lore(k).0
                    && expansion@[k].1@ == expansion_lore(k).1,
            decreases EXPANSION_LORE_COUNT - i,
        {
            expansion.push(expansion_entry(i));
            i = i + 1;
        }
        LoreRegistry {
            collected_entries: Vec::new(),
            total_entries: 50,
            unlocked_expansion_lore: Vec::new(),
            expansion_entries: expansion,
        }
    }

    /// Whether as many entries are collected as there are in total.
    pub fn is_complete(&self) -> (b: bool)
        ensures
            b == (self.collected_entries@.len() as u32 >= self.total_entries),
    {
        #[verifier::truncate]
        let n = self.collected_entries.len() as u32;
        n >= self.total_entries
    }

    /// The base entries not yet collected.
    fn uncollected_entries(&self) -> (v: Vec<&'static str>)
        ensures
            v@.map_values(|s: &str| s@) == uncollected(self.collected()),
    {
        let mut v: Vec<&'static str> = Vec::new();
        let mut i: usize = 0;
        while i < BASE_LORE_COUNT
            invariant
                i <= BASE_LORE_COUNT,
                v@.map_values(|s: &str| s@) == uncollected_prefix(self.collected(), i as int),
            decreases BASE_LORE_COUNT - i,
        {
            let e = lore_entry(i);
            if !contains_text(&self.collected_entries, e) {
                let ghost prev = v@;
                v.push(e);
                proof {
                    assert(v@.map_values(|s: &str| s@) =~= prev.map_values(|s: &str| s@).push(e@));
                }
            }
            i = i + 1;
        }
        v
    }

    /// How many base entries are not yet collected.
    pub fn uncollected_count(&self) -> (n: usize)
        ensures
            n == uncollected(self.collected()).len(),
    {
        let unc = self.uncollected_entries();
        proof { assert(unc@.map_values(|s: &str| s@).len() == unc@.len()); }
        unc.len()
    }

    /// Collect the `k`-th base entry not yet collected, in table order, and
    /// return its text.
    pub fn add_entry_at(&mut self, k: usize) -> (entry: String)
        requires
            old(self).wf(),
            k < uncollected(old(self).collected()).len(),
        ensures
            final(self).wf(),
            final(self).total_entries == old(self).total_entries,
            final(self).unlocked() == old(self).unlocked(),
            final(self).expansion_entries@ == old(self).expansion_entries@,
            entry@ == uncollected(old(self).collected())[k as int],
            final(self).collected() == old(self).collected().push(uncollected(old(self).collected())[k as int]),
    {
        let unc = self.uncollected_entries();
        proof { assert(unc@.map_values(|s: &str| s@).len() == unc@.len()); }
        let chosen = unc[k];
        let ghost prev = self.collected_entries@;
        self.collected_entries.push(String::from_str(chosen));
        proof {
            assert(unc@.map_values(|s: &str| s@)[k as int] == chosen@);
            assert(strings_view(self.collected_entries@) =~= strings_view(prev).push(chosen@));
        }
        String::from_str(chosen)
    }

    /// Add a random entry that has not yet been collected (from the 20 base entries).
    /// Returns the new entry text, or None if all are collected.
    pub fn add_random_entry(&mut self, rng: &mut ThreadRng) -> (entry: Option<String>)
        requires
            old(self).wf(),
        ensures
            final(self).wf(),
            final(self).total_entries == old(self).total_entries,
            final(self).unlocked() == old(self).unlocked(),
            final(self).expansion_entries@ == old(self).expansion_entries@,
            uncollected(old(self).collected()).len() == 0 ==> entry is None
                && final(self).collected() == old(self).collected(),
            uncollected(old(self).collected()).len() > 0 ==> exists|k: int| {
                &&& 0 <= k < uncollected(old(self).collected()).len()
                &&& (entry matches Some(e) && e@ == #[trigger] uncollected(old(self).collected())[k])
                &&& final(self).collected() == old(self).collected().push(uncollected(old(self).collected())[k])
            },
    {
        let unc = self.uncollected_entries();
        proof { assert(unc@.map_values(|s: &str| s@).len() == unc@.len()); }
        if unc.len() == 0 {
            return None;
        }
        let k = crate::rng::gen_range_usize(rng, 0, unc.len());
        let e = self.add_entry_at(k);
        Some(e)
    }

    /// Unlock an expansion lore entry by ID. Returns the text if newly unlocked.
    pub fn unlock_expansion(&mut self, lore_id: &str) -> (text: Option<String>)
        requires
            old(self).wf(),
        ensures
            final(self).wf(),
            final(self).total_entries == old(self).total_entries,
            old(self).unlocked().contains(lore_id@) ==> text is None
                && final(self).unlocked() == old(self).unlocked()
                && final(self).collected() == old(self).collected(),
            !old(self).unlocked().contains(lore_id@) ==> match expansion_index(lore_id@) {
                Some(i) => text matches Some(t) && t@ == expansion_lore(i).1
                    && final(self).unlocked() == old(self).unlocked().push(lore_id@)
                    && final(self).collected() == old(self).collected().push(expansion_lore(i).1),
                None => text is None
                    && final(self).unlocked() == old(self).unlocked()
                    && final(self).collected() == old(self).collected(),
            },
            (final(self).unlocked(), final(self).collected(), match text { Some(t) => Some(t@), None => None })
                == spec_unlock(old(self).unlocked(), old(self).collected(), lore_id@),
    {
        if contains_text(&self.unlocked_expansion_lore, lore_id) {
            return None;
        }
        match self.find_expansion(lore_id) {
            Some(i) => {
                let (id, text) = self.expansion_entries[i];
                let ghost pu = self.unlocked_expansion_lore@;
                let ghost pc = self.collected_entries@;
                self.unlocked_expansion_lore.push(String::from_str(id));
                self.collected_entries.push(String::from_str(text));
                proof {
                    lemma_expansion_index_found(lore_id@, EXPANSION_LORE_COUNT as int);
                    assert(strings_view(self.unlocked_expansion_lore@) =~= strings_view(pu).push(lore_id@));
                    assert(self.unlocked().no_duplicates()) by {
                        let u = strings_view(pu);
                        assert forall|a: int, b: int| 0 <= a < b < u.push(lore_id@).len()
                            implies u.push(lore_id@)[a] != u.push(lore_id@)[b] by {
                            if b == u.len() {
                                assert(u.contains(u[a]));
                            }
                        }
                    }
                    assert(strings_view(self.collected_entries@) =~= strings_view(pc).push(expansion_lore(i as int).1));
                }
                Some(String::from_str(text))
            },
            None => None,
        }
    }

    /// Position of the expansion entry with id `lore_id`.
    fn find_expansion(&self, lore_id: &str) -> (i: Option<usize>)
        requires
            self.wf(),
        ensures
            i matches Some(i) ==> expansion_index(lore_id@) == Some(i as int) && i < EXPANSION_LORE_COUNT,
            i is None ==> expansion_index(lore_id@) is None,
    {
        let key = String::from_str(lore_id);
        let mut i: usize = 0;
        while i < self.expansion_entries.len()
            invariant
                self.wf(),
                i <= EXPANSION_LORE_COUNT,
                key@ == lore_id@,
                expansion_index_prefix(lore_id@, i as int) is None,
            decreases self.expansion_entries.len() - i,
        {
            let (id, _) = self.expansion_entries[i];
            if String::from_str(id) == key {
                proof {
                    lemma_expansion_index_stable(lore_id@, i as int + 1);
                }
                return Some(i);
            }
            i = i + 1;
        }
        None
    }

    /// Get expansion lore text by ID (regardless of unlock state).
    pub fn get_expansion_text(&self, lore_id: &str) -> (text: Option<&'static str>)
        requires
            self.wf(),
        ensures
            match expansion_index(lore_id@) {
                Some(i) => text matches Some(t) && t@ == expansion_lore(i).1,
                None => text is None,
            },
    {
        match self.find_expansion(lore_id) {
            Some(i) => {
                let (_, text) = self.expansion_entries[i];
                Some(text)
            },
            None => None,
        }
    }

    /// Check if an expansion entry has been unlocked.
    pub fn is_expansion_unlocked(&self, lore_id: &str) -> (b: bool)
        ensures
            b == self.unlocked().contains(lore_id@),
    {
        contains_text(&self.unlocked_expansion_lore, lore_id)
    }
}

proof fn lemma_expansion_index_found(id: Seq<char>, n: int)
    ensures
        expansion_index_prefix(id, n) matches Some(i) ==> 0 <= i < n && expansion_lore(i).0 == id,
    decreases n,
{
    if n > 0 {
        lemma_expansion_index_found(id, n - 1);
    }
}

proof fn lemma_expansion_index_stable(id: Seq<char>, n: int)
    requires
        0 < n <= EXPANSION_LORE_COUNT,
        expansion_index_prefix(id, n) is Some,
    ensures
        expansion_index(id) == expansion_index_prefix(id, n),
    decreases EXPANSION_LORE_COUNT - n,
{
    if n < EXPANSION_LORE_COUNT {
        lemma_expansion_index_stable(id, n + 1);
    }
}

/// Whether the item in hand is a journal page.
fn holding_journal_page(inventory: &Inventory) -> (b: bool)
    requires
        inventory.selected_slot < inventory.slots@.len(),
    ensures
        b == (inventory.slots@[inventory.selected_slot as int] matches Some(s) && s.item == ItemType::JournalPage),
{
    match inventory.selected_item() {
        Some(slot) => slot.item == ItemType::JournalPage,
        None => false,
    }
}

/// Reading the journal page in hand, revealing the `k`-th uncollected base
/// entry: the page is used up and the entry collected. `None` when the item
/// in hand is not a journal page; `Some(None)` when every base entry was
/// already known.
pub fn read_journal_page_at(registry: &mut LoreRegistry, inventory: &mut Inventory, k: usize)
    -> (result: Option<Option<String>>)
    requires
        old(registry).wf(),
        old(inventory).wf(),
        old(inventory).selected_slot < old(inventory).slots@.len(),
        uncollected(old(registry).collected()).len() > 0 ==> k < uncollected(old(registry).collected()).len(),
    ensures
        final(registry).wf(),
        final(inventory).wf(),
        final(registry).unlocked() == old(registry).unlocked(),
        ({
            let held = old(inventory).slots@[old(inventory).selected_slot as int];
            let is_page = held matches Some(s) && s.item == ItemType::JournalPage;
            let unc = uncollected(old(registry).collected());
            &&& !is_page ==> result is None && final(inventory).slots@ == old(inventory).slots@
                && final(registry).collected() == old(registry).collected()
            &&& is_page ==> result is Some
                && final(inventory).slots@ == remove_result(old(inventory).slots@, ItemType::JournalPage, 1)
            &&& is_page && unc.len() == 0 ==>
                result == Some(None::<String>) && final(registry).collected() == old(registry).collected()
            &&& is_page && unc.len() > 0 ==> (result matches Some(Some(e)) && e@ == unc[k as int])
                && final(registry).collected() == old(registry).collected().push(unc[k as int])
        }),
{
    if !holding_journal_page(inventory) {
        return None;
    }
    proof {
        assert(crate::inventory::slot_wf(inventory.slots@[inventory.selected_slot as int]));
        lemma_slot_in_total(inventory.slots@, inventory.selected_slot as int, ItemType::JournalPage);
    }
    if !inventory.remove_items(ItemType::JournalPage, 1) {
        return None;
    }
    if registry.uncollected_count() == 0 {
        return Some(None);
    }
    Some(Some(registry.add_entry_at(k)))
}

/// Reading the journal page in hand: the page is used up and reveals a
/// random uncollected base entry. `None` when the item in hand is not a
/// journal page; `Some(None)` when every base entry was already known.
pub fn read_journal_page(registry: &mut LoreRegistry, inventory: &mut Inventory, rng: &mut ThreadRng)
    -> (result: Option<Option<String>>)
    requires
        old(registry).wf(),
        old(inventory).wf(),
        old(inventory).selected_slot < old(inventory).slots@.len(),
    ensures
        final(registry).wf(),
        final(inventory).wf(),
        ({
            let held = old(inventory).slots@[old(inventory).selected_slot as int];
            let is_page = held matches Some(s) && s.item == ItemType::JournalPage;
            &&& !is_page ==> result is None && final(inventory).slots@ == old(inventory).slots@
                && final(registry).collected() == old(registry).collected()
            &&& is_page ==> result is Some
                && final(inventory).slots@ == remove_result(old(inventory).slots@, ItemType::JournalPage, 1)
            &&& is_page && uncollected(old(registry).collected()).len() == 0 ==>
                result == Some(None::<String>) && final(registry).collected() == old(registry).collected()
            &&& is_page && uncollected(old(registry).collected()).len() > 0 ==> exists|k: int| {
                &&& 0 <= k < uncollected(old(registry).collected()).len()
                &&& (result matches Some(Some(e)) && e@ == #[trigger] uncollected(old(registry).collected())[k])
                &&& final(registry).collected() == old(registry).collected().push(uncollected(old(registry).collected())[k])
            }
        }),
{
    let count = registry.uncollected_count();
    let k = if holding_journal_page(inventory) && count > 0 {
        crate::rng::gen_range_usize(rng, 0, count)
    } else {
        0
    };
    read_journal_page_at(registry, inventory, k)
}

/// A held stack counts towards its item's total.
proof fn lemma_slot_in_total(s: Seq<Option<crate::inventory::InventorySlot>>, i: int, item: ItemType)
    requires
        0 <= i < s.len(),
        crate::inventory::slots_wf(s),
    ensures
        crate::inventory::total_of(s, item) >= crate::inventory::slot_count_of(s[i], item),
{
    crate::inventory::lemma_total_update(s, i, None, item);
}

/// The unlocked ids, the collected entries and the revealed text after an
/// unlock of `id`: a known expansion id not unlocked yet is recorded and its
/// text collected and revealed; anything else changes nothing.
pub open spec fn spec_unlock(unlocked: Seq<Seq<char>>, collected: Seq<Seq<char>>, id: Seq<char>)
    -> (Seq<Seq<char>>, Seq<Seq<char>>, Option<Seq<char>>)
{
    if unlocked.contains(id) {
        (unlocked, collected, None)
    } else {
        match expansion_index(id) {
            Some(i) => (unlocked.push(id), collected.push(expansion_lore(i).1), Some(expansion_lore(i).1)),
            None => (unlocked, collected, None),
        }
    }
}

/// Each expansion entry is revealed at most once: unlocking the same id a
/// second time reveals nothing and changes nothing.
pub proof fn law_unlock_once(unlocked: Seq<Seq<char>>, collected: Seq<Seq<char>>, id: Seq<char>)
    ensures
        ({
            let (u1, c1, t1) = spec_unlock(unlocked, collected, id);
            let (u2, c2, t2) = spec_unlock(u1, c1, id);
            &&& t2 is None
            &&& u2 == u1
            &&& c2 == c1
        }),
{
    if !unlocked.contains(id) && expansion_index(id) is Some {
        assert(unlocked.push(id)[unlocked.len() as int] == id);
    }
}

/// Length and two letters of an expansion id: enough to tell all thirty
/// ids apart.
pub open spec fn id_signature(id: Seq<char>) -> (nat, char, char) {
    (id.len(), id[6], id[7])
}

/// The thirty expansion entries have thirty different ids, so each id
/// names exactly one entry.
pub proof fn law_expansion_ids_distinct(i: int, j: int)
    requires
        0 <= i < j < EXPANSION_LORE_COUNT,
    ensures
        expansion_lore(i).0 != expansion_lore(j).0,
{
    reveal_strlit("biome_forest");
    reveal_strlit("biome_coastal");
    reveal_strlit("biome_swamp");
    reveal_strlit("biome_desert");
    reveal_strlit("biome_tundra");
    reveal_strlit("biome_volcanic");
    reveal_strlit("biome_fungal");
    reveal_strlit("biome_crystalcave");
    reveal_strlit("biome_mountain");
    reveal_strlit("boss_forest_guardian");
    reveal_strlit("boss_swamp_beast");
    reveal_strlit("boss_desert_wyrm");
    reveal_strlit("boss_frost_giant");
    reveal_strlit("boss_magma_king");
    reveal_strlit("boss_fungal_overlord");
    reveal_strlit("boss_crystal_sentinel");
    reveal_strlit("boss_tidal_serpent");
    reveal_strlit("boss_mountain_titan");
    reveal_strlit("struct_abandoned_village");
    reveal_strlit("struct_mine_shaft");
    reveal_strlit("struct_trader_outpost");
    reveal_strlit("struct_watchtower");
    reveal_strlit("struct_fishing_dock");
    reveal_strlit("hint_enchanting");
    reveal_strlit("hint_fishing");
    reveal_strlit("hint_pet_care");
    reveal_strlit("hint_combat_tactics");
    reveal_strlit("hint_farming");
    reveal_strlit("hint_building");
    reveal_strlit("hint_survival");
    assert(id_signature(expansion_lore(i).0) != id_signature(expansion_lore(j).0));
}

/// A journal page only ever reveals a base entry that was not yet
/// collected, so no base entry is collected twice.
pub proof fn law_uncollected_is_new(collected: Seq<Seq<char>>, k: int)
    requires
        0 <= k < uncollected(collected).len(),
    ensures
        !collected.contains(uncollected(collected)[k]),
{
    lemma_uncollected_prefix_new(collected, BASE_LORE_COUNT as int, k);
}

proof fn lemma_uncollected_prefix_new(collected: Seq<Seq<char>>, n: int, k: int)
    requires
        0 <= k < uncollected_prefix(collected, n).len(),
    ensures
        !collected.contains(uncollected_prefix(collected, n)[k]),
    decreases n,
{
    if n > 0 {
        let p = uncollected_prefix(collected, n - 1);
        if k < p.len() {
            lemma_uncollected_prefix_new(collected, n - 1, k);
        }
    }
}

/// Length and sixth letter of a base lore text: enough to tell all twenty
/// apart.
pub open spec fn text_signature(t: Seq<char>) -> (nat, char) {
    (t.len(), t[5])
}

/// The twenty base entries are twenty different texts.
pub proof fn lemma_base_texts_distinct(i: int, j: int)
    requires
        0 <= i < j < BASE_LORE_COUNT,
    ensures
        lore_text(i) != lore_text(j),
{
    reveal_strlit("The ancient civilization called themselves the Aethari. They built their first city on the mountain known today as the Pale Crown.");
    reveal_strlit("Aethari scribes recorded that their empire stretched across nine biomes, each governed by a crystal pillar that regulated the weather.");
    reveal_strlit("The Driftlands were named by survivors of the Collapse; they said the very ground 'drifted' as if adrift from the world.");
    reveal_strlit("Aethari engineers pioneered crystal-lattice construction, fusing obsidian and crystal shards with volcanic heat to create Ancient Cores.");
    reveal_strlit("The last Aethari emperor vanished into the Crystal Cave network, supposedly searching for a way to reverse the Collapse.");
    reveal_strlit("Archaeologists have found Aethari tools made of an alloy unknown to modern smiths — stronger than steel yet lighter than iron.");
    reveal_strlit("The crystal pillars did not merely control weather; they acted as a distributed memory store for the entire civilization's knowledge.");
    reveal_strlit("Aethari farmers cultivated herbs that could not grow naturally in any biome — some believe the pillars altered local climate for crops.");
    reveal_strlit("A fragment of an Aethari tablet reads: 'When the last pillar falls, the land shall breathe again, though we shall not breathe with it.'");
    reveal_strlit("The swamp regions expanded dramatically after the Collapse, swallowing several Aethari coastal settlements within a generation.");
    reveal_strlit("Wandering traders tell of a sealed vault deep beneath the volcanic biome, said to contain the Aethari's greatest invention.");
    reveal_strlit("The Aethari used a calendar based on crystal resonance cycles rather than solar cycles; their 'year' was approximately 400 days.");
    reveal_strlit("Hermits who live near the ruins claim to hear faint harmonic tones at night — remnants of the pillars' resonance, still echoing.");
    reveal_strlit("Aethari soldiers carried blades forged from ancient cores. These 'Ancient Blades' could cut stone as easily as flesh.");
    reveal_strlit("The Fungal biome was once an Aethari pleasure garden. The giant mushrooms are mutations caused by leaking crystal energy.");
    reveal_strlit("No two Aethari ruins have exactly the same architectural style, suggesting a decentralized empire of many city-states rather than one capital.");
    reveal_strlit("The Aethari word for 'home' and 'world' is the same: 'Vaethar'. Scholars debate whether this implies they viewed the whole world as home.");
    reveal_strlit("Some ice crystals in the tundra biome contain preserved Aethari organic matter — seeds, insects, and once, what appeared to be a hand.");
    reveal_strlit("Aethari records mention a class of citizens called 'Driftwalkers' who could navigate between biomes using crystal-attuned compasses.");
    reveal_strlit("The final Aethari log ever found simply reads: 'We gave it everything. May whoever comes next use it more wisely than we did.'");
    assert(text_signature(lore_text(i)) != text_signature(lore_text(j)));
}

proof fn lemma_uncollected_prefix_from(collected: Seq<Seq<char>>, n: int, k: int) -> (m: int)
    requires
        0 <= k < uncollected_prefix(collected, n).len(),
    ensures
        0 <= m < n,
        uncollected_prefix(collected, n)[k] == lore_text(m),
    decreases n,
{
    let p = uncollected_prefix(collected, n - 1);
    if k < p.len() {
        lemma_uncollected_prefix_from(collected, n - 1, k)
    } else {
        n - 1
    }
}

proof fn lemma_uncollected_prefix_len(collected: Seq<Seq<char>>, n: int)
    requires
        0 <= n,
        collected.len() == 0,
    ensures
        uncollected_prefix(collected, n).len() == n,
    decreases n,
{
    if n > 0 {
        lemma_uncollected_prefix_len(collected, n - 1);
    }
}

proof fn lemma_uncollected_prefix_push(collected: Seq<Seq<char>>, x: Seq<char>, n: int, m: int)
    requires
        0 <= m < BASE_LORE_COUNT,
        lore_text(m) == x,
        !collected.contains(x),
        0 <= n <= BASE_LORE_COUNT,
    ensures
        uncollected_prefix(collected.push(x), n).len() + (if m < n { 1int } else { 0int })
            == uncollected_prefix(collected, n).len(),
    decreases n,
{
    broadcast use vstd::seq_lib::lemma_seq_contains_after_push;
    if n > 0 {
        lemma_uncollected_prefix_push(collected, x, n - 1, m);
        let t = lore_text(n - 1);
        if n - 1 != m {
            if n - 1 < m { lemma_base_texts_distinct(n - 1, m); } else { lemma_base_texts_distinct(m, n - 1); }
        }
    }
}

/// The collected entries after drawing, from nothing collected, the entry
/// at position `picks[k]` of the still uncollected ones, one pick after
/// another.
pub open spec fn draws(picks: Seq<int>) -> Seq<Seq<char>>
    decreases picks.len(),
{
    if picks.len() == 0 {
        seq![]
    } else {
        let c = draws(picks.drop_last());
        c.push(uncollected(c)[picks.last()])
    }
}

/// Twenty journal pages read from a fresh registry reveal the twenty base
/// entries, each once, whatever the random choices; after them no base
/// entry is left, so the next page reveals nothing.
pub proof fn law_twenty_draws(picks: Seq<int>)
    requires
        picks.len() <= BASE_LORE_COUNT,
        forall|k: int| 0 <= k < picks.len() ==> 0 <= #[trigger] picks[k] < BASE_LORE_COUNT - k,
    ensures
        uncollected(draws(picks)).len() == BASE_LORE_COUNT - picks.len(),
        draws(picks).len() == picks.len(),
        draws(picks).no_duplicates(),
        picks.len() == BASE_LORE_COUNT ==> uncollected(draws(picks)).len() == 0,
    decreases picks.len(),
{
    broadcast use vstd::seq_lib::lemma_seq_contains_after_push;
    if picks.len() == 0 {
        lemma_uncollected_prefix_len(seq![], BASE_LORE_COUNT as int);
    } else {
        let prev = picks.drop_last();
        assert forall|k: int| 0 <= k < prev.len() implies 0 <= #[trigger] prev[k] < BASE_LORE_COUNT - k by {
            assert(prev[k] == picks[k]);
        }
        law_twenty_draws(prev);
        let c = draws(prev);
        let j = picks.last();
        assert(picks[picks.len() - 1] == j);
        let x = uncollected(c)[j];
        lemma_uncollected_prefix_new(c, BASE_LORE_COUNT as int, j);
        let m = lemma_uncollected_prefix_from(c, BASE_LORE_COUNT as int, j);
        lemma_uncollected_prefix_push(c, x, BASE_LORE_COUNT as int, m);
        assert forall|a: int, b: int| 0 <= a < c.push(x).len() && 0 <= b < c.push(x).len() && a != b
            implies c.push(x)[a] != c.push(x)[b] by {
            if a == c.len() as int {
                assert(c.contains(c[b]));
            } else if b == c.len() as int {
                assert(c.contains(c[a]));
            }
        }
    }
}

} // verus!
