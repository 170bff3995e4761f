//! Fishing: fish kinds, where they bite, how rare they are, and which fish
//! takes the hook.

use vstd::prelude::*;
use crate::items::ItemType;
use crate::world::Biome;
use crate::inventory::{Inventory, add_result, use_tool_result};

verus! {

/// Every kind of fish.
#[derive(Clone, Copy, Debug, PartialEq, Eq, Structural)]
pub enum FishType {
    Trout,
    Salmon,
    Catfish,
    Pufferfish,
    Eel,
    Crab,
}

/// All fish, in the order the biome pool lists them.
pub open spec fn all_fish() -> Seq<FishType> {
    seq![FishType::Trout, FishType::Salmon, FishType::Catfish, FishType::Pufferfish, FishType::Eel, FishType::Crab]
}

fn fish_at(i: usize) -> (f: FishType)
    requires
        i < 6,
    ensures
        f == all_fish()[i as int],
{
    match i {
        0 => FishType::Trout,
        1 => FishType::Salmon,
        2 => FishType::Catfish,
        3 => FishType::Pufferfish,
        4 => FishType::Eel,
        _ => FishType::Crab,
    }
}

impl FishType {
    /// The raw item a caught fish becomes.
    pub open spec fn spec_raw_item(self) -> ItemType {
        match self {
            FishType::Trout => ItemType::RawTrout,
            FishType::Salmon => ItemType::RawSalmon,
            FishType::Catfish => ItemType::RawCatfish,
            FishType::Pufferfish => ItemType::RawPufferfish,
            FishType::Eel => ItemType::RawEel,
            FishType::Crab => ItemType::RawCrab,
        }
    }

    /// The raw item a caught fish becomes.
    pub fn raw_item(self) -> (i: ItemType)
        ensures
            i == self.spec_raw_item(),
    {
        match self {
            FishType::Trout => ItemType::RawTrout,
            FishType::Salmon => ItemType::RawSalmon,
            FishType::Catfish => ItemType::RawCatfish,
            FishType::Pufferfish => ItemType::RawPufferfish,
            FishType::Eel => ItemType::RawEel,
            FishType::Crab => ItemType::RawCrab,
        }
    }

    /// Relative chance of this fish among those of a biome.
    pub open spec fn spec_rarity_weight(self) -> u32 {
        match self {
            FishType::Trout => 30,
            FishType::Salmon => 25,
            FishType::Catfish => 20,
            FishType::Pufferfish => 5,
            FishType::Eel => 10,
            FishType::Crab => 15,
        }
    }

    /// Relative chance of this fish among those of a biome.
    pub fn rarity_weight(self) -> (w: u32)
        ensures
            w == self.spec_rarity_weight(),
    {
        match self {
            FishType::Trout => 30,
            FishType::Salmon => 25,
            FishType::Catfish => 20,
            FishType::Pufferfish => 5,
            FishType::Eel => 10,
            FishType::Crab => 15,
        }
    }

    /// Biomes where this fish can be caught.
    pub open spec fn spec_biomes(self) -> Seq<Biome> {
        match self {
            FishType::Trout => seq![Biome::Forest, Biome::Coastal, Biome::Swamp, Biome::Desert, Biome::Tundra,
                Biome::Volcanic, Biome::Fungal, Biome::CrystalCave, Biome::Mountain],
            FishType::Salmon => seq![Biome::Forest, Biome::Tundra],
            FishType::Catfish => seq![Biome::Coastal, Biome::Swamp],
            FishType::Pufferfish => seq![Biome::Coastal],
            FishType::Eel => seq![Biome::Swamp, Biome::Coastal],
            FishType::Crab => seq![Biome::Coastal, Biome::Swamp],
        }
    }

    /// Biomes where this fish can be caught.
    pub fn biomes(self) -> (v: Vec<Biome>)
        ensures
            v@ == self.spec_biomes(),
    {
        let v = match self {
            FishType::Trout => vec![Biome::Forest, Biome::Coastal, Biome::Swamp, Biome::Desert, Biome::Tundra,
                Biome::Volcanic, Biome::Fungal, Biome::CrystalCave, Biome::Mountain],
            FishType::Salmon => vec![Biome::Forest, Biome::Tundra],
            FishType::Catfish => vec![Biome::Coastal, Biome::Swamp],
            FishType::Pufferfish => vec![Biome::Coastal],
            FishType::Eel => vec![Biome::Swamp, Biome::Coastal],
            FishType::Crab => vec![Biome::Coastal, Biome::Swamp],
        };
        proof {
            assert(v@ =~= self.spec_biomes());
        }
        v
    }

    /// Whether this fish bites in `biome`.
    pub fn lives_in(self, biome: Biome) -> (b: bool)
        ensures
            b == self.spec_biomes().contains(biome),
    {
        let bs = self.biomes();
        let mut i: usize = 0;
        while i < bs.len()
            invariant
                bs@ == self.spec_biomes(),
                i <= bs@.len(),
                forall|k: int| 0 <= k < i ==> bs@[k] != biome,
            decreases bs.len() - i,
        {
            if bs[i] == biome {
                proof { assert(bs@[i as int] == biome); }
                return true;
            }
            i = i + 1;
        }
        false
    }
}

/// Name of a fish as shown in the fishing panel.
pub open spec fn spec_fish_type_name(fish: FishType) -> Seq<char> {
    match fish {
        FishType::Trout => "Trout"@,
        FishType::Salmon => "Salmon"@,
        FishType::Catfish => "Catfish"@,
        FishType::Pufferfish => "Pufferfish"@,
        FishType::Eel => "Eel"@,
        FishType::Crab => "Crab"@,
    }
}

/// Name of a fish as shown in the fishing panel.
pub fn fish_type_name(fish: FishType) -> (s: &'static str)
    ensures
        s@ == spec_fish_type_name(fish),
{
    match fish {
        FishType::Trout => "Trout",
        FishType::Salmon => "Salmon",
        FishType::Catfish => "Catfish",
        FishType::Pufferfish => "Pufferfish",
        FishType::Eel => "Eel",
        FishType::Crab => "Crab",
    }
}

/// Stage of a fishing attempt.
#[derive(Clone, Copy, Debug, PartialEq, Eq, Structural)]
pub enum FishingPhase {
    Idle,
    Casting,
    Waiting,
    Hooked,
    Reeling,
    Caught,
}

/// Rod tier of the item in hand: 1 for a fishing rod, 2 for a steel one.
pub open spec fn spec_rod_tier(item: ItemType) -> Option<u32> {
    match item {
        ItemType::FishingRod => Some(1),
        ItemType::SteelFishingRod => Some(2),
        _ => None,
    }
}

/// Rod tier of the item in hand, if it is a fishing rod.
pub fn rod_tier(item: ItemType) -> (t: Option<u32>)
    ensures
        t == spec_rod_tier(item),
{
    match item {
        ItemType::FishingRod => Some(1u32),
        ItemType::SteelFishingRod => Some(2u32),
        _ => None,
    }
}

/// The fish of the first `n` entries of `all_fish` that bite in `biome`, in order.
pub open spec fn pool_prefix(biome: Biome, n: int) -> Seq<FishType>
    decreases n,
{
    if n <= 0 {
        seq![]
    } else {
        let p = pool_prefix(biome, n - 1);
        if all_fish()[n - 1].spec_biomes().contains(biome) { p.push(all_fish()[n - 1]) } else { p }
    }
}

/// The fish that bite in `biome`, in the order of `all_fish`.
pub open spec fn fish_pool(biome: Biome) -> Seq<FishType> {
    pool_prefix(biome, 6)
}

/// Sum of the rarity weights of a pool.
pub open spec fn total_weight(pool: Seq<FishType>) -> nat
    decreases pool.len(),
{
    if pool.len() == 0 { 0 } else { total_weight(pool.drop_last()) + pool.last().spec_rarity_weight() as nat }
}

/// The fish a roll lands on: walk the pool front to back, taking the first
/// fish whose weight exceeds what is left of the roll; the last fish if the
/// roll runs past the end.
pub open spec fn weighted_pick(pool: Seq<FishType>, roll: int) -> FishType
    decreases pool.len(),
{
    if pool.len() <= 1 {
        pool[0]
    } else if roll < pool[0].spec_rarity_weight() {
        pool[0]
    } else {
        weighted_pick(pool.drop_first(), roll - pool[0].spec_rarity_weight())
    }
}

/// The pool of fish for a biome.
fn build_fish_pool(biome: Biome) -> (pool: Vec<FishType>)
    ensures
        pool@ == fish_pool(biome),
{
    let mut pool: Vec<FishType> = Vec::new();
    let mut i: usize = 0;
    while i < 6
        invariant
            i <= 6,
            pool@ == pool_prefix(biome, i as int),
        decreases 6 - i,
    {
        let f = fish_at(i);
        if f.lives_in(biome) {
            pool.push(f);
        }
        i = i + 1;
    }
    pool
}

/// The fish a roll of the weighted die lands on.
pub fn pick_fish_with_roll(pool: &Vec<FishType>, roll: u32) -> (f: Option<FishType>)
    ensures
        pool@.len() == 0 ==> f is None,
        pool@.len() > 0 ==> f == Some(weighted_pick(pool@, roll as int)),
{
    if pool.len() == 0 {
        return None;
    }
    let mut left = roll;
    let mut i: usize = 0;
    let ghost r0 = roll as int;
    proof { assert(pool@.skip(0) =~= pool@); }
    while i + 1 < pool.len()
        invariant
            pool@.len() > 0,
            i < pool@.len(),
            r0 == roll as int,
            weighted_pick(pool@, r0) == weighted_pick(pool@.skip(i as int), left as int),
        decreases pool.len() - i,
    {
        let w = pool[i].rarity_weight();
        proof {
            assert(pool@.skip(i as int).drop_first() =~= pool@.skip(i as int + 1));
            assert(pool@.skip(i as int)[0] == pool@[i as int]);
        }
        if left < w {
            proof {
                assert(pool@.skip(i as int).len() > 1);
                assert(weighted_pick(pool@.skip(i as int), left as int) == pool@.skip(i as int)[0]);
            }
            return Some(pool[i]);
        }
        left = left - w;
        i = i + 1;
    }
    proof {
        assert(pool@.skip(i as int).len() == 1);
        assert(pool@.skip(i as int)[0] == pool@[i as int]);
    }
    Some(pool[i])
}

proof fn lemma_trout_everywhere(biome: Biome)
    ensures
        fish_pool(biome).len() > 0,
        fish_pool(biome).len() <= 6,
        fish_pool(biome)[0] == FishType::Trout,
{
    reveal_with_fuel(pool_prefix, 7);
    assert(FishType::Trout.spec_biomes()[0] == Biome::Forest);
    assert(FishType::Trout.spec_biomes().contains(biome)) by {
        let k: int = match biome {
            Biome::Forest => 0,
            Biome::Coastal => 1,
            Biome::Swamp => 2,
            Biome::Desert => 3,
            Biome::Tundra => 4,
            Biome::Volcanic => 5,
            Biome::Fungal => 6,
            Biome::CrystalCave => 7,
            Biome::Mountain => 8,
        };
        assert(FishType::Trout.spec_biomes()[k] == biome);
    }
    lemma_pool_prefix_first(biome, 6);
}

proof fn lemma_pool_prefix_first(biome: Biome, n: int)
    requires
        1 <= n <= 6,
        FishType::Trout.spec_biomes().contains(biome),
    ensures
        pool_prefix(biome, n).len() > 0,
        pool_prefix(biome, n).len() <= n,
        pool_prefix(biome, n)[0] == FishType::Trout,
    decreases n,
{
    if n > 1 {
        lemma_pool_prefix_first(biome, n - 1);
    } else {
        assert(pool_prefix(biome, 0) =~= seq![]);
    }
}

/// Pick a random fish from the biome-weighted pool: a fish that bites in
/// `biome`, drawn with probability proportional to its rarity weight.
pub fn pick_fish(biome: Biome) -> (f: Option<FishType>)
    ensures
        exists|roll: int| 0 <= roll < total_weight(fish_pool(biome))
            && f == Some(#[trigger] weighted_pick(fish_pool(biome), roll)),
{
    let pool = build_fish_pool(biome);
    proof { lemma_trout_everywhere(biome); }
    let total = pool_weight(&pool);
    let mut rng = crate::rng::thread_rng();
    let roll = crate::rng::gen_range_usize(&mut rng, 0, total as usize);
    pick_fish_with_roll(&pool, roll as u32)
}

/// Sum of the rarity weights of a pool.
fn pool_weight(pool: &Vec<FishType>) -> (w: u32)
    requires
        pool@.len() <= 6,
        pool@.len() > 0,
        pool@[0] == FishType::Trout,
    ensures
        w == total_weight(pool@),
        w > 0,
{
    let mut w: u32 = 0;
    let mut i: usize = 0;
    while i < pool.len()
        invariant
            pool@.len() <= 6,
            i <= pool@.len(),
            w == total_weight(pool@.take(i as int)),
            w <= 30 * i,
            i > 0 ==> w >= 30,
            pool@[0] == FishType::Trout,
        decreases pool.len() - i,
    {
        proof {
            assert(pool@.take(i as int + 1).drop_last() =~= pool@.take(i as int));
            if i == 0 {
                assert(pool@.take(0) =~= seq![]);
            }
        }
        w = w + pool[i].rarity_weight();
        i = i + 1;
    }
    proof {
        assert(pool@.take(pool@.len() as int) =~= pool@);
    }
    w
}

/// A finished catch: the fish goes into the inventory and the rod in hand
/// loses one durability.
pub fn fishing_catch(target_fish: Option<FishType>, inventory: &mut Inventory)
    requires
        old(inventory).wf(),
        old(inventory).selected_slot < old(inventory).slots@.len(),
    ensures
        ({
            let mid = match target_fish {
                Some(f) => add_result(old(inventory).slots@, f.spec_raw_item(), 1).0,
                None => old(inventory).slots@,
            };
            final(inventory).slots@ == mid.update(
                old(inventory).selected_slot as int,
                use_tool_result(mid[old(inventory).selected_slot as int]).0,
            )
        }),
        final(inventory).selected_slot == old(inventory).selected_slot,
{
    match target_fish {
        Some(fish) => {
            proof { crate::inventory::lemma_add_result(inventory.slots@, fish.spec_raw_item(), 1); }
            inventory.add_item(fish.raw_item(), 1);
        },
        None => {},
    }
    inventory.use_selected_tool();
}

proof fn lemma_pick_in_pool(pool: Seq<FishType>, roll: int)
    requires
        pool.len() > 0,
    ensures
        pool.contains(weighted_pick(pool, roll)),
    decreases pool.len(),
{
    if pool.len() > 1 && roll >= pool[0].spec_rarity_weight() {
        let rest = pool.drop_first();
        lemma_pick_in_pool(rest, roll - pool[0].spec_rarity_weight());
        let k = choose|k: int| 0 <= k < rest.len() && rest[k] == weighted_pick(rest, roll - pool[0].spec_rarity_weight());
        assert(pool[k + 1] == rest[k]);
    } else {
        assert(pool[0] == weighted_pick(pool, roll));
    }
}

proof fn lemma_pool_lives(biome: Biome, n: int)
    ensures
        forall|k: int| 0 <= k < pool_prefix(biome, n).len() ==> (#[trigger] pool_prefix(biome, n)[k]).spec_biomes().contains(biome),
    decreases n,
{
    if n > 0 {
        lemma_pool_lives(biome, n - 1);
        let p = pool_prefix(biome, n - 1);
        assert forall|k: int| 0 <= k < pool_prefix(biome, n).len() implies (#[trigger] pool_prefix(biome, n)[k]).spec_biomes().contains(biome) by {
            if k < p.len() {
                assert(pool_prefix(biome, n)[k] == p[k]);
            }
        }
    }
}

/// Every biome has fish, and whatever the roll, the fish that bites is one
/// that lives in the biome.
pub proof fn law_fish_bites_in_its_biome(biome: Biome, roll: int)
    ensures
        fish_pool(biome).len() > 0,
        weighted_pick(fish_pool(biome), roll).spec_biomes().contains(biome),
{
    lemma_trout_everywhere(biome);
    lemma_pick_in_pool(fish_pool(biome), roll);
    lemma_pool_lives(biome, 6);
    let k = choose|k: int| 0 <= k < fish_pool(biome).len() && fish_pool(biome)[k] == weighted_pick(fish_pool(biome), roll);
    assert(fish_pool(biome)[k].spec_biomes().contains(biome));
}

// ---------------------------------------------------------------------------
// The stages of a fishing attempt
// ---------------------------------------------------------------------------

/// What happens during a fishing attempt; timers and the reel bar are kept
/// by the caller.
#[derive(Clone, Copy, Debug, PartialEq, Eq, Structural)]
pub enum FishingEvent {
    /// The cast button, with the rod tier of the item in hand (if it is a
    /// rod) and whether water is close enough.
    Cast { rod: Option<u32>, near_water: bool },
    /// The cast animation is over.
    CastLanded,
    /// The bite timer ran out and this fish (if any lives here) bit.
    Bite { fish: Option<FishType> },
    /// The hook button while a fish is on the line.
    HookPressed,
    /// The hook window closed: the fish got away.
    HookWindowOver,
    /// The reel bar filled up.
    ReelFull,
    /// The catch was put in the inventory.
    Collected,
}

/// The next stage of a fishing attempt: idle, casting with a rod near
/// water, waiting, a fish hooked if one bit, reeling if the player struck
/// in time (else back to idle), caught once the reel is full, and idle again
/// once the catch is collected. Any other event leaves the stage as it is.
pub open spec fn spec_fishing_step(phase: FishingPhase, event: FishingEvent) -> FishingPhase {
    match (phase, event) {
        (FishingPhase::Idle, FishingEvent::Cast { rod, near_water }) =>
            if rod is Some && near_water { FishingPhase::Casting } else { FishingPhase::Idle },
        (FishingPhase::Casting, FishingEvent::CastLanded) => FishingPhase::Waiting,
        (FishingPhase::Waiting, FishingEvent::Bite { fish }) =>
            if fish is Some { FishingPhase::Hooked } else { FishingPhase::Idle },
        (FishingPhase::Hooked, FishingEvent::HookPressed) => FishingPhase::Reeling,
        (FishingPhase::Hooked, FishingEvent::HookWindowOver) => FishingPhase::Idle,
        (FishingPhase::Reeling, FishingEvent::ReelFull) => FishingPhase::Caught,
        (FishingPhase::Caught, FishingEvent::Collected) => FishingPhase::Idle,
        _ => phase,
    }
}

/// Advances a fishing attempt by one event.
pub fn fishing_step(phase: FishingPhase, event: FishingEvent) -> (next: FishingPhase)
    ensures
        next == spec_fishing_step(phase, event),
{
    match (phase, event) {
        (FishingPhase::Idle, FishingEvent::Cast { rod, near_water }) => {
            if rod.is_some() && near_water { FishingPhase::Casting } else { FishingPhase::Idle }
        },
        (FishingPhase::Casting, FishingEvent::CastLanded) => FishingPhase::Waiting,
        (FishingPhase::Waiting, FishingEvent::Bite { fish }) => {
            if fish.is_some() { FishingPhase::Hooked } else { FishingPhase::Idle }
        },
        (FishingPhase::Hooked, FishingEvent::HookPressed) => FishingPhase::Reeling,
        (FishingPhase::Hooked, FishingEvent::HookWindowOver) => FishingPhase::Idle,
        (FishingPhase::Reeling, FishingEvent::ReelFull) => FishingPhase::Caught,
        (FishingPhase::Caught, FishingEvent::Collected) => FishingPhase::Idle,
        _ => phase,
    }
}

/// A fish is caught only by reeling it in, reeling only follows a strike on
/// a hooked fish, and a fish is hooked only when one bit.
pub proof fn law_fishing_order(phase: FishingPhase, event: FishingEvent)
    ensures
        spec_fishing_step(phase, event) == FishingPhase::Caught ==> phase == FishingPhase::Caught || (phase == FishingPhase::Reeling && event == FishingEvent::ReelFull),
        spec_fishing_step(phase, event) == FishingPhase::Reeling ==> phase == FishingPhase::Reeling || (phase == FishingPhase::Hooked && event == FishingEvent::HookPressed),
        spec_fishing_step(phase, event) == FishingPhase::Hooked && phase != FishingPhase::Hooked ==> event matches FishingEvent::Bite { fish: Some(_) },
        spec_fishing_step(phase, event) == FishingPhase::Casting && phase != FishingPhase::Casting ==> event matches FishingEvent::Cast { rod: Some(_), near_water: true },
{
}

} // verus!
