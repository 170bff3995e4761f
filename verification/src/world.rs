//! Biomes, seasons, weather and the phases of the day.

use vstd::prelude::*;

verus! {

/// The nine biomes of the world.
#[derive(Clone, Copy, Debug, PartialEq, Eq, Hash, Structural)]
pub enum Biome {
    Forest,
    Coastal,
    Swamp,
    Desert,
    Tundra,
    Volcanic,
    Fungal,
    CrystalCave,
    Mountain,
}

/// The four seasons.
#[derive(Clone, Copy, Debug, PartialEq, Eq, Hash, Structural)]
pub enum Season {
    Spring,
    Summer,
    Autumn,
    Winter,
}

/// The weather over the player.
#[derive(Clone, Copy, Debug, PartialEq, Eq, Hash, Structural)]
pub enum Weather {
    Clear,
    Rain,
    Snow,
    Fog,
    Storm,
    Blizzard,
}

/// The four phases of a day.
#[derive(Clone, Copy, Debug, PartialEq, Eq, Structural)]
pub enum DayPhase {
    Night,
    Sunrise,
    Day,
    Sunset,
}

/// Name of a phase of the day as shown in the HUD.
pub open spec fn spec_phase_name(phase: DayPhase) -> Seq<char> {
    match phase {
        DayPhase::Night => "Night"@,
        DayPhase::Sunrise => "Sunrise"@,
        DayPhase::Day => "Day"@,
        DayPhase::Sunset => "Sunset"@,
    }
}

/// Returns the HUD name of a phase of the day.
pub fn phase_name(phase: DayPhase) -> (s: &'static str)
    ensures
        s@ == spec_phase_name(phase),
{
    match phase {
        DayPhase::Night => "Night",
        DayPhase::Sunrise => "Sunrise",
        DayPhase::Day => "Day",
        DayPhase::Sunset => "Sunset",
    }
}

/// Name of a biome as shown in the biome banner.
pub open spec fn spec_biome_display_name(biome: Biome) -> Seq<char> {
    match biome {
        Biome::Forest => "Forest"@,
        Biome::Coastal => "Coastal"@,
        Biome::Swamp => "Swamp"@,
        Biome::Desert => "Desert"@,
        Biome::Tundra => "Tundra"@,
        Biome::Volcanic => "Volcanic Wastes"@,
        Biome::Fungal => "Fungal Groves"@,
        Biome::CrystalCave => "Crystal Caverns"@,
        Biome::Mountain => "Mountains"@,
    }
}

/// Returns a human-readable name for a biome.
pub fn biome_display_name(biome: Biome) -> (s: &'static str)
    ensures
        s@ == spec_biome_display_name(biome),
{
    match biome {
        Biome::Forest => "Forest",
        Biome::Coastal => "Coastal",
        Biome::Swamp => "Swamp",
        Biome::Desert => "Desert",
        Biome::Tundra => "Tundra",
        Biome::Volcanic => "Volcanic Wastes",
        Biome::Fungal => "Fungal Groves",
        Biome::CrystalCave => "Crystal Caverns",
        Biome::Mountain => "Mountains",
    }
}

/// What stepping onto a chunk of some biome means for the biome banner.
#[derive(Clone, Copy, Debug, PartialEq, Eq, Structural)]
pub enum BiomeEntry {
    /// Still in the same biome: nothing to show.
    Same,
    /// Back in a biome seen before: a short banner.
    Returning,
    /// A biome never seen before: a discovery sound and a longer banner.
    FirstVisit,
}

/// The player stands in a chunk of `biome`: a change of biome shows the
/// banner, and a biome not yet explored is recorded as explored and
/// announced as a discovery. `explored` holds each biome at most once.
pub fn enter_biome(current: &mut Option<Biome>, explored: &mut Vec<Biome>, biome: Biome) -> (entry: BiomeEntry)
    requires
        old(explored)@.no_duplicates(),
    ensures
        *final(current) == Some(biome),
        final(explored)@.no_duplicates(),
        entry == if *old(current) == Some(biome) {
            BiomeEntry::Same
        } else if old(explored)@.contains(biome) {
            BiomeEntry::Returning
        } else {
            BiomeEntry::FirstVisit
        },
        final(explored)@ == if entry == BiomeEntry::FirstVisit { old(explored)@.push(biome) } else { old(explored)@ },
{
    if *current == Some(biome) {
        return BiomeEntry::Same;
    }
    *current = Some(biome);
    let mut i: usize = 0;
    while i < explored.len()
        invariant
            i <= explored@.len(),
            forall|k: int| 0 <= k < i ==> explored@[k] != biome,
            *current == Some(biome),
            *old(current) != Some(biome),
            explored@ == old(explored)@,
            explored@.no_duplicates(),
        decreases explored.len() - i,
    {
        if explored[i] == biome {
            proof { assert(old(explored)@.contains(biome)) by { assert(old(explored)@[i as int] == biome); } }
            return BiomeEntry::Returning;
        }
        i = i + 1;
    }
    proof {
        assert(!old(explored)@.contains(biome));
        assert forall|a: int, b: int| 0 <= a < explored@.push(biome).len() && 0 <= b < explored@.push(biome).len() && a != b
            implies explored@.push(biome)[a] != explored@.push(biome)[b] by {
            if a == explored@.len() as int {
                assert(explored@[b] != biome);
            } else if b == explored@.len() as int {
                assert(explored@[a] != biome);
            }
        }
    }
    explored.push(biome);
    BiomeEntry::FirstVisit
}

} // verus!
