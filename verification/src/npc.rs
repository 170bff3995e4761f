//! Non-player characters: what they remember of the player, their dialogue,
//! and the wandering trader with its offers.

use vstd::prelude::*;
use crate::items::ItemType;
use crate::inventory::{Inventory, InventorySlot, add_result, remove_result, total_of, lemma_add_result,
    lemma_remove_result, slots_wf};
use rand::rngs::ThreadRng;

verus! {

/// The kinds of non-player character.
#[derive(Clone, Copy, Debug, PartialEq, Eq, Hash, Structural)]
pub enum NpcType {
    WanderingTrader,
    Hermit,
    Blacksmith,
    QuestGiver,
    Farmer,
}

/// Most memories an NPC keeps.
pub const MAX_MEMORIES: usize = 10;

/// What an NPC knows of the player.
pub struct Knowledge {
    /// Mapping of player actions to affinity scores (-100 to 100).
    pub player_affinity: i32,
    /// Memory of recent events: (event_name, timestamp), the timestamp held
    /// as the bit pattern of the elapsed seconds.
    pub memories: Vec<(String, u64)>,
}

/// The memories as mathematical values.
pub open spec fn memory_view(m: Seq<(String, u64)>) -> Seq<(Seq<char>, u64)> {
    m.map_values(|e: (String, u64)| (e.0@, e.1))
}

/// `v` clamped into `lo..=hi`.
pub open spec fn clamp_int(v: int, lo: int, hi: int) -> int {
    if v < lo { lo } else if v > hi { hi } else { v }
}

impl Default for Knowledge {
    fn default() -> (k: Self)
        ensures
            k.player_affinity == 0,
            k.memories@.len() == 0,
    {
        Knowledge { player_affinity: 0, memories: Vec::new() }
    }
}

impl Knowledge {
    /// Record an event; only the ten most recent memories are kept.
    pub fn add_memory(&mut self, event: &str, time: u64)
        ensures
            memory_view(final(self).memories@) == ({
                let pushed = memory_view(old(self).memories@).push((event@, time));
                if pushed.len() > MAX_MEMORIES { pushed.drop_first() } else { pushed }
            }),
            final(self).player_affinity == old(self).player_affinity,
    {
        let e = String::from_str(event);
        self.memories.push((e, time));
        if self.memories.len() > MAX_MEMORIES {
            self.memories.remove(0);
        }
        proof {
            let pushed = memory_view(old(self).memories@).push((event@, time));
            if pushed.len() > MAX_MEMORIES {
                assert(memory_view(self.memories@) =~= pushed.drop_first());
            } else {
                assert(memory_view(self.memories@) =~= pushed);
            }
        }
    }

    /// Shift the affinity by `delta`, clamped to -100..=100.
    pub fn update_affinity(&mut self, delta: i32)
        requires
            i32::MIN <= old(self).player_affinity + delta <= i32::MAX,
        ensures
            final(self).player_affinity == clamp_int(old(self).player_affinity + delta, -100, 100),
            memory_view(final(self).memories@) == memory_view(old(self).memories@),
    {
        let v = self.player_affinity + delta;
        self.player_affinity = if v < -100 { -100 } else if v > 100 { 100 } else { v };
    }
}


/// Memories never exceed ten and the affinity never leaves -100..=100,
/// however many events are recorded.
pub proof fn law_knowledge_bounded(memories: Seq<(Seq<char>, u64)>, event: Seq<char>, time: u64, affinity: int, delta: int)
    requires
        memories.len() <= MAX_MEMORIES,
    ensures
        ({
            let pushed = memories.push((event, time));
            let after = if pushed.len() > MAX_MEMORIES { pushed.drop_first() } else { pushed };
            after.len() <= MAX_MEMORIES && after.last() == (event, time)
        }),
        -100 <= clamp_int(affinity + delta, -100, 100) <= 100,
{
}

/// Lines of a dialogue as mathematical values.
pub open spec fn lines_view(d: Seq<String>) -> Seq<Seq<char>> {
    d.map_values(|s: String| s@)
}

fn string_lines(lines: &Vec<&'static str>) -> (v: Vec<String>)
    ensures
        lines_view(v@) == lines@.map_values(|s: &str| s@),
{
    let mut v: Vec<String> = Vec::new();
    let mut i: usize = 0;
    while i < lines.len()
        invariant
            i <= lines@.len(),
            lines_view(v@) == lines@.take(i as int).map_values(|s: &str| s@),
        decreases lines.len() - i,
    {
        let line = String::from_str(lines[i]);
        let ghost prev = v@;
        v.push(line);
        proof {
            assert(lines@.take(i as int + 1) =~= lines@.take(i as int).push(lines@[i as int]));
            assert(v@ =~= prev.push(line));
            assert(lines_view(v@) =~= lines_view(prev).push(line@));
            assert(lines_view(v@) =~= lines@.take(i as int + 1).map_values(|s: &str| s@));
        }
        i = i + 1;
    }
    proof {
        assert(lines@.take(lines@.len() as int) =~= lines@);
    }
    v
}

/// A blacksmith: four lines of dialogue, spoken in turn.
pub struct Blacksmith {
    pub dialogue: Vec<String>,
    pub dialogue_index: usize,
}

impl Blacksmith {
    /// A blacksmith at the start of its dialogue.
    pub fn new() -> (b: Self)
        ensures
            lines_view(b.dialogue@) == seq![
                "I can repair your equipment... for a price."@,
                "Bring me iron and I'll restore your gear."@,
                "The mountain ores make the finest blades."@,
                "I've been forging in these mountains for decades."@,
            ],
            b.dialogue_index == 0,
    {
        let lines = vec![
            "I can repair your equipment... for a price.",
            "Bring me iron and I'll restore your gear.",
            "The mountain ores make the finest blades.",
            "I've been forging in these mountains for decades.",
        ];
        let dialogue = string_lines(&lines);
        proof {
            assert(lines_view(dialogue@) =~= seq![
                "I can repair your equipment... for a price."@,
                "Bring me iron and I'll restore your gear."@,
                "The mountain ores make the finest blades."@,
                "I've been forging in these mountains for decades."@,
            ]);
        }
        Blacksmith { dialogue, dialogue_index: 0 }
    }
}

/// A quest giver: four lines of dialogue, spoken in turn.
pub struct QuestGiver {
    pub dialogue: Vec<String>,
    pub dialogue_index: usize,
}

impl QuestGiver {
    /// A quest giver at the start of its dialogue.
    pub fn new() -> (q: Self)
        ensures
            lines_view(q.dialogue@) == seq![
                "I have work for a capable drifter..."@,
                "The creatures grow bolder each night."@,
                "There are resources to gather if you're willing."@,
                "Prove your worth and I'll share what I know."@,
            ],
            q.dialogue_index == 0,
    {
        let lines = vec![
            "I have work for a capable drifter...",
            "The creatures grow bolder each night.",
            "There are resources to gather if you're willing.",
            "Prove your worth and I'll share what I know.",
        ];
        let dialogue = string_lines(&lines);
        proof {
            assert(lines_view(dialogue@) =~= seq![
                "I have work for a capable drifter..."@,
                "The creatures grow bolder each night."@,
                "There are resources to gather if you're willing."@,
                "Prove your worth and I'll share what I know."@,
            ]);
        }
        QuestGiver { dialogue, dialogue_index: 0 }
    }
}

/// A farmer: four lines of dialogue, spoken in turn.
pub struct Farmer {
    pub dialogue: Vec<String>,
    pub dialogue_index: usize,
}

impl Farmer {
    /// A farmer at the start of its dialogue.
    pub fn new() -> (f: Self)
        ensures
            lines_view(f.dialogue@) == seq![
                "Fresh seeds for sale! Rare varieties too."@,
                "I'll buy your crops at a fair price."@,
                "The soil here is rich after the rains."@,
                "Farming keeps the Driftlands fed."@,
            ],
            f.dialogue_index == 0,
    {
        let lines = vec![
            "Fresh seeds for sale! Rare varieties too.",
            "I'll buy your crops at a fair price.",
            "The soil here is rich after the rains.",
            "Farming keeps the Driftlands fed.",
        ];
        let dialogue = string_lines(&lines);
        proof {
            assert(lines_view(dialogue@) =~= seq![
                "Fresh seeds for sale! Rare varieties too."@,
                "I'll buy your crops at a fair price."@,
                "The soil here is rich after the rains."@,
                "Farming keeps the Driftlands fed."@,
            ]);
        }
        Farmer { dialogue, dialogue_index: 0 }
    }
}

/// A hermit: its own lines of dialogue, and whether the player has talked to it.
pub struct Hermit {
    pub dialogue: Vec<String>,
    pub dialogue_index: usize,
    pub has_interacted: bool,
}

impl Hermit {
    /// A hermit who will say `lines` in turn.
    pub fn new(lines: Vec<&'static str>) -> (h: Self)
        ensures
            lines_view(h.dialogue@) == lines@.map_values(|s: &str| s@),
            h.dialogue_index == 0,
            !h.has_interacted,
    {
        Hermit { dialogue: string_lines(&lines), dialogue_index: 0, has_interacted: false }
    }
}

/// The text shown when `speaker` says `line`: `speaker: "line"`.
pub open spec fn quoted_line(speaker: Seq<char>, line: Seq<char>) -> Seq<char> {
    speaker + ": \""@ + line + "\""@
}

/// The player talks to an NPC: it says its current line (returned as
/// `speaker: "line"`), moves on to the next line (wrapping around), likes
/// the player 5 points more and remembers the conversation.
pub fn npc_talk(
    speaker: &str,
    dialogue: &Vec<String>,
    dialogue_index: &mut usize,
    knowledge: &mut Knowledge,
    time: u64,
) -> (text: String)
    requires
        *old(dialogue_index) < dialogue@.len(),
        i32::MIN <= old(knowledge).player_affinity + 5 <= i32::MAX,
    ensures
        text@ == quoted_line(speaker@, dialogue@[*old(dialogue_index) as int]@),
        *final(dialogue_index) == (*old(dialogue_index) + 1) % (dialogue@.len() as int),
        final(knowledge).player_affinity == clamp_int(old(knowledge).player_affinity + 5, -100, 100),
        memory_view(final(knowledge).memories@) == ({
            let pushed = memory_view(old(knowledge).memories@).push(("talked_to_player"@, time));
            if pushed.len() > MAX_MEMORIES { pushed.drop_first() } else { pushed }
        }),
{
    let line = dialogue[*dialogue_index].clone();
    let mut text = String::from_str(speaker);
    text.append(": \"");
    text.append(line.as_str());
    text.append("\"");
    let n = dialogue.len();
    let cur = *dialogue_index;
    *dialogue_index = (cur + 1) % n;
    knowledge.update_affinity(5);
    knowledge.add_memory("talked_to_player", time);
    text
}

// ---------------------------------------------------------------------------
// The wandering trader
// ---------------------------------------------------------------------------

/// One item a trader sells, its price, and whether it has been bought.
#[derive(Clone, Copy, Debug, PartialEq, Eq, Structural)]
pub struct TradeOffer {
    pub item_for_sale: ItemType,
    pub cost_item: ItemType,
    pub cost_count: u32,
    pub sold: bool,
}

/// A wandering trader: its offers and the day it leaves.
pub struct Trader {
    pub offers: Vec<TradeOffer>,
    pub despawn_day: u32,
}

/// State of the trade window: which trader (by entity bits) and which offer is selected.
pub struct TradeMenu {
    pub is_open: bool,
    pub selected_offer: usize,
    pub trader_entity: Option<u64>,
}

impl Default for TradeMenu {
    fn default() -> (m: Self)
        ensures
            !m.is_open,
            m.selected_offer == 0,
            m.trader_entity is None,
    {
        TradeMenu { is_open: false, selected_offer: 0, trader_entity: None }
    }
}

/// Number of offers a trader may bring.
pub const OFFER_POOL_SIZE: usize = 16;

/// All possible offers a wandering trader may bring: (item, cost item, cost count).
pub open spec fn offer_pool(i: int) -> (ItemType, ItemType, u32) {
    if i == 0 { (ItemType::WheatSeed, ItemType::Stone, 3) }
    else if i == 1 { (ItemType::CarrotSeed, ItemType::Stone, 5) }
    else if i == 2 { (ItemType::Blueprint, ItemType::IronIngot, 10) }
    else if i == 3 { (ItemType::IronOre, ItemType::Stone, 5) }
    else if i == 4 { (ItemType::RareHerb, ItemType::IceShard, 8) }
    else if i == 5 { (ItemType::HealthPotion, ItemType::MushroomCap, 3) }
    else if i == 6 { (ItemType::CornSeed, ItemType::Stone, 3) }
    else if i == 7 { (ItemType::PotatoSeed, ItemType::Stone, 3) }
    else if i == 8 { (ItemType::PepperSeed, ItemType::Stone, 4) }
    else if i == 9 { (ItemType::OnionSeed, ItemType::Stone, 3) }
    else if i == 10 { (ItemType::RiceSeed, ItemType::Reed, 2) }
    else if i == 11 { (ItemType::MelonSeed, ItemType::Stone, 5) }
    else if i == 12 { (ItemType::FlaxSeed, ItemType::PlantFiber, 4) }
    else if i == 13 { (ItemType::SugarcaneSeed, ItemType::Stone, 4) }
    else if i == 14 { (ItemType::FishingRod, ItemType::IronIngot, 3) }
    else { (ItemType::PetCollar, ItemType::IronIngot, 5) }
}

fn offer_pool_entry(i: usize) -> (e: (ItemType, ItemType, u32))
    requires
        i < OFFER_POOL_SIZE,
    ensures
        e == offer_pool(i as int),
{
    match i {
        0 => (ItemType::WheatSeed, ItemType::Stone, 3),
        1 => (ItemType::CarrotSeed, ItemType::Stone, 5),
        2 => (ItemType::Blueprint, ItemType::IronIngot, 10),
        3 => (ItemType::IronOre, ItemType::Stone, 5),
        4 => (ItemType::RareHerb, ItemType::IceShard, 8),
        5 => (ItemType::HealthPotion, ItemType::MushroomCap, 3),
        6 => (ItemType::CornSeed, ItemType::Stone, 3),
        7 => (ItemType::PotatoSeed, ItemType::Stone, 3),
        8 => (ItemType::PepperSeed, ItemType::Stone, 4),
        9 => (ItemType::OnionSeed, ItemType::Stone, 3),
        10 => (ItemType::RiceSeed, ItemType::Reed, 2),
        11 => (ItemType::MelonSeed, ItemType::Stone, 5),
        12 => (ItemType::FlaxSeed, ItemType::PlantFiber, 4),
        13 => (ItemType::SugarcaneSeed, ItemType::Stone, 4),
        14 => (ItemType::FishingRod, ItemType::IronIngot, 3),
        _ => (ItemType::PetCollar, ItemType::IronIngot, 5),
    }
}

/// An unsold offer made from pool entry `i`.
pub open spec fn offer_from_pool(o: TradeOffer, i: int) -> bool {
    &&& o.item_for_sale == offer_pool(i).0
    &&& o.cost_item == offer_pool(i).1
    &&& o.cost_count == offer_pool(i).2
    &&& !o.sold
}

/// The offers are `indices.len()` distinct pool entries, none sold.
pub open spec fn offers_from_pool(offers: Seq<TradeOffer>, indices: Seq<usize>) -> bool {
    &&& indices.len() == offers.len()
    &&& forall|k: int| 0 <= k < indices.len() ==> #[trigger] indices[k] < OFFER_POOL_SIZE
    &&& forall|k: int| 0 <= k < indices.len() ==> offer_from_pool(#[trigger] offers[k], indices[k] as int)
    &&& forall|a: int, b: int| 0 <= a < b < indices.len() ==> #[trigger] indices[a] != #[trigger] indices[b]
}

/// The unsold offer made from pool entry `i`.
pub open spec fn pool_offer(i: int) -> TradeOffer {
    TradeOffer { item_for_sale: offer_pool(i).0, cost_item: offer_pool(i).1, cost_count: offer_pool(i).2, sold: false }
}

/// The pool indices in order, before any shuffling.
pub open spec fn pool_order() -> Seq<usize> {
    Seq::new(OFFER_POOL_SIZE as nat, |k: int| k as usize)
}

/// `s` with the entries at `i` and `j` exchanged.
pub open spec fn swap_at(s: Seq<usize>, i: int, j: int) -> Seq<usize> {
    s.update(i, s[j]).update(j, s[i])
}

/// The pool order after the first `n` steps of a Fisher-Yates shuffle, step
/// `i` exchanging position `i` with position `swaps[i]`.
pub open spec fn shuffled_pool(swaps: Seq<usize>, n: int) -> Seq<usize>
    decreases n,
{
    if n <= 0 {
        pool_order()
    } else {
        swap_at(shuffled_pool(swaps, n - 1), n - 1, swaps[n - 1] as int)
    }
}

/// The swap draws are valid for a shuffle of `count` steps: draw `i` lies in
/// `i..OFFER_POOL_SIZE`.
pub open spec fn valid_swaps(count: int, swaps: Seq<usize>) -> bool {
    &&& swaps.len() == count
    &&& forall|i: int| 0 <= i < count ==> i <= #[trigger] swaps[i] < OFFER_POOL_SIZE
}

/// The offers for a count and its swap draws: the pool entries at the first
/// `count` positions of the shuffled pool, all unsold.
pub open spec fn offers_for(count: int, swaps: Seq<usize>) -> Seq<TradeOffer> {
    let order = shuffled_pool(swaps, count);
    Seq::new(count as nat, |k: int| pool_offer(order[k] as int))
}

proof fn lemma_shuffle_permutes(swaps: Seq<usize>, n: int)
    requires
        0 <= n <= OFFER_POOL_SIZE,
        forall|i: int| 0 <= i < n ==> i <= #[trigger] swaps[i] < OFFER_POOL_SIZE,
    ensures
        shuffled_pool(swaps, n).len() == OFFER_POOL_SIZE,
        forall|k: int| 0 <= k < OFFER_POOL_SIZE ==> #[trigger] shuffled_pool(swaps, n)[k] < OFFER_POOL_SIZE,
        forall|a: int, b: int| 0 <= a < b < OFFER_POOL_SIZE
            ==> #[trigger] shuffled_pool(swaps, n)[a] != #[trigger] shuffled_pool(swaps, n)[b],
    decreases n,
{
    if n > 0 {
        lemma_shuffle_permutes(swaps, n - 1);
        let before = shuffled_pool(swaps, n - 1);
        let after = shuffled_pool(swaps, n);
        let i = n - 1;
        let j = swaps[n - 1] as int;
        assert forall|x: int, y: int| 0 <= x < y < OFFER_POOL_SIZE implies #[trigger] after[x] != #[trigger] after[y] by {
            let px = if x == j { i } else if x == i { j } else { x };
            let py = if y == j { i } else if y == i { j } else { y };
            assert(after[x] == before[px]);
            assert(after[y] == before[py]);
            if px < py {
                assert(before[px] != before[py]);
            } else {
                assert(before[py] != before[px]);
            }
        }
    }
}

/// The offers for a count and its swap draws: run `count` steps of the
/// shuffle of the pool indices, then take the pool entries at the first
/// `count` positions, unsold.
pub fn offers_for_draws(count: usize, swaps: &Vec<usize>) -> (offers: Vec<TradeOffer>)
    requires
        3 <= count <= 5,
        valid_swaps(count as int, swaps@),
    ensures
        offers@ == offers_for(count as int, swaps@),
        offers_from_pool(offers@, shuffled_pool(swaps@, count as int).take(count as int)),
{
    let mut indices: Vec<usize> = Vec::new();
    let mut i: usize = 0;
    while i < OFFER_POOL_SIZE
        invariant
            i <= OFFER_POOL_SIZE,
            indices@.len() == i,
            forall|k: int| 0 <= k < i ==> #[trigger] indices@[k] == k,
        decreases OFFER_POOL_SIZE - i,
    {
        indices.push(i);
        i = i + 1;
    }
    proof {
        assert(indices@ =~= pool_order());
    }
    i = 0;
    while i < count
        invariant
            i <= count,
            count <= 5,
            valid_swaps(count as int, swaps@),
            indices@ == shuffled_pool(swaps@, i as int),
        decreases count - i,
    {
        proof { lemma_shuffle_permutes(swaps@, i as int); }
        let j = swaps[i];
        let a = indices[i];
        let b = indices[j];
        indices.set(i, b);
        indices.set(j, a);
        i = i + 1;
    }
    proof { lemma_shuffle_permutes(swaps@, count as int); }
    let mut offers: Vec<TradeOffer> = Vec::new();
    let mut k: usize = 0;
    while k < count
        invariant
            k <= count,
            count <= 5,
            offers@.len() == k,
            indices@ == shuffled_pool(swaps@, count as int),
            indices@.len() == OFFER_POOL_SIZE,
            forall|m: int| 0 <= m < OFFER_POOL_SIZE ==> #[trigger] indices@[m] < OFFER_POOL_SIZE,
            forall|m: int| 0 <= m < k ==> #[trigger] offers@[m] == pool_offer(indices@[m] as int),
        decreases count - k,
    {
        let (item, cost_item, cost_count) = offer_pool_entry(indices[k]);
        offers.push(TradeOffer { item_for_sale: item, cost_item, cost_count, sold: false });
        k = k + 1;
    }
    proof {
        assert(offers@ =~= offers_for(count as int, swaps@));
        let idx = indices@.take(count as int);
        assert forall|m: int| 0 <= m < idx.len() implies offer_from_pool(#[trigger] offers@[m], idx[m] as int) by {
            assert(offers@[m] == pool_offer(indices@[m] as int));
        }
        assert(offers_from_pool(offers@, idx));
    }
    offers
}

proof fn lemma_later_draws_keep(swaps: Seq<usize>, k: int)
    requires
        1 <= k <= swaps.len(),
        swaps.len() <= OFFER_POOL_SIZE,
        swaps[0] < OFFER_POOL_SIZE,
        forall|j: int| 1 <= j < swaps.len() ==> #[trigger] swaps[j] == j,
    ensures
        shuffled_pool(swaps, k) == swap_at(pool_order(), 0, swaps[0] as int),
    decreases k,
{
    if k > 1 {
        lemma_later_draws_keep(swaps, k - 1);
        let prev = shuffled_pool(swaps, k - 1);
        assert(prev.len() == OFFER_POOL_SIZE);
        assert(swaps[k - 1] == k - 1);
        assert(swap_at(prev, k - 1, k - 1) =~= prev);
        assert(shuffled_pool(swaps, k) == swap_at(prev, k - 1, swaps[k - 1] as int));
    } else {
        assert(shuffled_pool(swaps, 0) == pool_order());
        assert(shuffled_pool(swaps, 1) == swap_at(shuffled_pool(swaps, 0), 0, swaps[0] as int));
    }
}

/// Every pool entry can be offered, first in line, by some draws of the
/// shuffle, whatever the number of offers: the first draw picks any entry
/// and the later draws can leave the rest in place.
pub proof fn law_every_offer_reachable(e: usize, count: int)
    requires
        e < OFFER_POOL_SIZE,
        3 <= count <= 5,
    ensures
        ({
            let swaps = seq![e, 1usize, 2usize, 3usize, 4usize].take(count);
            &&& valid_swaps(count, swaps)
            &&& offers_for(count, swaps)[0] == pool_offer(e as int)
        }),
{
    let swaps = seq![e, 1usize, 2usize, 3usize, 4usize].take(count);
    lemma_later_draws_keep(swaps, count);
    assert(swap_at(pool_order(), 0, e as int)[0] == e);
    assert(offers_for(count, swaps)[0] == pool_offer(shuffled_pool(swaps, count)[0] as int));
}

/// Pick 3 to 5 distinct offers from the pool at random: draw the count,
/// then for each step `i` of a partial Fisher-Yates shuffle a position in
/// `i..OFFER_POOL_SIZE`, and take the offers those draws give.
pub fn generate_offers(rng: &mut ThreadRng) -> (offers: Vec<TradeOffer>)
    ensures
        3 <= offers@.len() <= 5,
        exists|swaps: Seq<usize>| valid_swaps(offers@.len() as int, swaps)
            && offers@ == offers_for(offers@.len() as int, swaps),
        exists|indices: Seq<usize>| offers_from_pool(offers@, indices),
{
    let count = crate::rng::gen_range_usize(rng, 3, 6);
    let mut swaps: Vec<usize> = Vec::new();
    let mut i: usize = 0;
    while i < count
        invariant
            i <= count,
            count <= 5,
            swaps@.len() == i,
            forall|k: int| 0 <= k < i ==> k <= #[trigger] swaps@[k] < OFFER_POOL_SIZE,
        decreases count - i,
    {
        let j = crate::rng::gen_range_usize(rng, i, OFFER_POOL_SIZE);
        swaps.push(j);
        i = i + 1;
    }
    let offers = offers_for_draws(count, &swaps);
    proof {
        assert(valid_swaps(offers@.len() as int, swaps@));
        let idx = shuffled_pool(swaps@, count as int).take(count as int);
        assert(offers_from_pool(offers@, idx));
    }
    offers
}

/// Whether offer `idx` can be bought now: it exists, is unsold and its price is held.
pub open spec fn can_buy(offers: Seq<TradeOffer>, idx: int, slots: Seq<Option<InventorySlot>>) -> bool {
    0 <= idx < offers.len() && !offers[idx].sold && total_of(slots, offers[idx].cost_item) >= offers[idx].cost_count
}

/// Buy offer `idx`: when it is unsold and affordable, pay the price, take
/// one of the item, mark the offer sold, like the player 10 points more and
/// remember the trade; otherwise change nothing.
pub fn buy_offer(
    trader: &mut Trader,
    idx: usize,
    inventory: &mut Inventory,
    knowledge: &mut Knowledge,
    time: u64,
) -> (bought: bool)
    requires
        old(inventory).wf(),
        i32::MIN <= old(knowledge).player_affinity + 10 <= i32::MAX,
    ensures
        bought == can_buy(old(trader).offers@, idx as int, old(inventory).slots@),
        bought ==> {
            let o = old(trader).offers@[idx as int];
            &&& final(inventory).slots@ == add_result(remove_result(old(inventory).slots@, o.cost_item, o.cost_count), o.item_for_sale, 1).0
            &&& final(trader).offers@ == old(trader).offers@.update(idx as int, TradeOffer { sold: true, ..o })
            &&& final(knowledge).player_affinity == clamp_int(old(knowledge).player_affinity + 10, -100, 100)
            &&& memory_view(final(knowledge).memories@) == ({
                let pushed = memory_view(old(knowledge).memories@).push(("traded_with_player"@, time));
                if pushed.len() > MAX_MEMORIES { pushed.drop_first() } else { pushed }
            })
        },
        !bought ==> final(inventory).slots@ == old(inventory).slots@ && final(trader).offers@ == old(trader).offers@
            && final(knowledge).player_affinity == old(knowledge).player_affinity
            && final(knowledge).memories@ == old(knowledge).memories@,
        final(trader).despawn_day == old(trader).despawn_day,
        final(inventory).wf(),
        final(inventory).selected_slot == old(inventory).selected_slot,
{
    if idx >= trader.offers.len() {
        return false;
    }
    let offer = trader.offers[idx];
    if offer.sold || !inventory.has_items(offer.cost_item, offer.cost_count) {
        return false;
    }
    inventory.remove_items(offer.cost_item, offer.cost_count);
    inventory.add_item(offer.item_for_sale, 1);
    trader.offers.set(idx, TradeOffer { sold: true, ..offer });
    knowledge.update_affinity(10);
    knowledge.add_memory("traded_with_player", time);
    true
}

/// One frame of the open trade window: arrows move the selection, Escape
/// closes the window, Enter buys the selected offer. Returns whether a
/// purchase happened.
pub fn trade_menu_step(
    menu: &mut TradeMenu,
    trader: &mut Trader,
    inventory: &mut Inventory,
    knowledge: &mut Knowledge,
    up: bool,
    down: bool,
    escape: bool,
    enter: bool,
    time: u64,
) -> (bought: bool)
    requires
        old(inventory).wf(),
        i32::MIN <= old(knowledge).player_affinity + 10 <= i32::MAX,
    ensures
        ({
            let n = old(trader).offers@.len();
            let s0 = old(menu).selected_offer;
            let s1 = if up && s0 > 0 { (s0 - 1) as usize } else { s0 };
            let s2 = if down && n > 0 && s1 < n - 1 { (s1 + 1) as usize } else { s1 };
            if !old(menu).is_open || n == 0 {
                &&& !bought
                &&& final(menu).selected_offer == s0
                &&& final(menu).is_open == old(menu).is_open
                &&& final(inventory).slots@ == old(inventory).slots@
            } else if escape {
                &&& !bought
                &&& !final(menu).is_open
                &&& final(menu).selected_offer == s2
                &&& final(inventory).slots@ == old(inventory).slots@
            } else {
                &&& final(menu).selected_offer == s2
                &&& final(menu).is_open
                &&& bought == (enter && can_buy(old(trader).offers@, s2 as int, old(inventory).slots@))
                &&& !enter ==> final(inventory).slots@ == old(inventory).slots@
                &&& bought ==> {
                    let o = old(trader).offers@[s2 as int];
                    &&& final(inventory).slots@ == add_result(remove_result(old(inventory).slots@, o.cost_item, o.cost_count), o.item_for_sale, 1).0
                    &&& final(trader).offers@ == old(trader).offers@.update(s2 as int, TradeOffer { sold: true, ..o })
                    &&& final(knowledge).player_affinity == clamp_int(old(knowledge).player_affinity + 10, -100, 100)
                    &&& memory_view(final(knowledge).memories@) == ({
                        let pushed = memory_view(old(knowledge).memories@).push(("traded_with_player"@, time));
                        if pushed.len() > MAX_MEMORIES { pushed.drop_first() } else { pushed }
                    })
                }
            }
        }),
        !bought ==> final(inventory).slots@ == old(inventory).slots@
            && final(trader).offers@ == old(trader).offers@
            && final(knowledge).player_affinity == old(knowledge).player_affinity
            && final(knowledge).memories@ == old(knowledge).memories@,
        final(trader).despawn_day == old(trader).despawn_day,
        final(menu).trader_entity == old(menu).trader_entity,
        final(inventory).wf(),
{
    if !menu.is_open {
        return false;
    }
    let offer_count = trader.offers.len();
    if offer_count == 0 {
        return false;
    }
    if up && menu.selected_offer > 0 {
        menu.selected_offer = menu.selected_offer - 1;
    }
    if down && menu.selected_offer < offer_count - 1 {
        menu.selected_offer = menu.selected_offer + 1;
    }
    if escape {
        menu.is_open = false;
        return false;
    }
    if enter {
        return buy_offer(trader, menu.selected_offer, inventory, knowledge, time);
    }
    false
}

/// An offer that was bought can never be bought again.
pub proof fn law_offer_sold_once(offers: Seq<TradeOffer>, idx: int, slots: Seq<Option<InventorySlot>>, later: Seq<Option<InventorySlot>>)
    requires
        can_buy(offers, idx, slots),
    ensures
        !can_buy(offers.update(idx, TradeOffer { sold: true, ..offers[idx] }), idx, later),
{
}

/// A purchase takes exactly the price and adds the item when there is room
/// for it; every item that is neither the price nor the goods is untouched.
pub proof fn law_purchase_exact(offers: Seq<TradeOffer>, idx: int, slots: Seq<Option<InventorySlot>>)
    requires
        slots_wf(slots),
        can_buy(offers, idx, slots),
    ensures
        ({
            let o = offers[idx];
            let paid = remove_result(slots, o.cost_item, o.cost_count);
            let (after, left) = add_result(paid, o.item_for_sale, 1);
            &&& total_of(paid, o.cost_item) + o.cost_count == total_of(slots, o.cost_item)
            &&& total_of(after, o.item_for_sale) + left == total_of(paid, o.item_for_sale) + 1
            &&& forall|x: ItemType| x != o.cost_item && x != o.item_for_sale ==> #[trigger] total_of(after, x) == total_of(slots, x)
        }),
{
    let o = offers[idx];
    lemma_remove_result(slots, o.cost_item, o.cost_count);
    let paid = remove_result(slots, o.cost_item, o.cost_count);
    lemma_add_result(paid, o.item_for_sale, 1);
    let (after, left) = add_result(paid, o.item_for_sale, 1);
    assert forall|x: ItemType| x != o.cost_item && x != o.item_for_sale implies #[trigger] total_of(after, x) == total_of(slots, x) by {
        assert(total_of(paid, x) == total_of(slots, x));
    }
}

/// When the next trader is due: the day of the last visit and the gap (3 to
/// 5 days) until the next; a gap of 0 means none has been drawn yet.
pub struct TraderSpawnState {
    pub last_spawn_day: u32,
    pub next_interval: u32,
}

/// Decide whether a trader arrives today: draw the first gap if none was
/// drawn yet, then a trader comes when none is present and the gap since the
/// last visit has passed.
pub fn trader_due(state: &mut TraderSpawnState, rng: &mut ThreadRng, trader_present: bool, day_count: u32) -> (due: bool)
    ensures
        old(state).next_interval != 0 ==> final(state).next_interval == old(state).next_interval,
        old(state).next_interval == 0 ==> 3 <= final(state).next_interval <= 5,
        final(state).last_spawn_day == old(state).last_spawn_day,
        due == (!trader_present && (if day_count >= old(state).last_spawn_day {
            day_count - old(state).last_spawn_day
        } else {
            0
        }) >= final(state).next_interval),
{
    if state.next_interval == 0 {
        state.next_interval = crate::rng::gen_range_usize(rng, 3, 6) as u32;
    }
    if trader_present {
        return false;
    }
    let days_since = if day_count >= state.last_spawn_day { day_count - state.last_spawn_day } else { 0 };
    days_since >= state.next_interval
}

/// A trader arrives on `day_count` with fresh offers, staying two days; the
/// next gap is drawn anew.
pub fn trader_arrives(state: &mut TraderSpawnState, rng: &mut ThreadRng, day_count: u32) -> (trader: Trader)
    requires
        day_count <= u32::MAX - 2,
    ensures
        trader.despawn_day == day_count + 2,
        3 <= trader.offers@.len() <= 5,
        exists|swaps: Seq<usize>| valid_swaps(trader.offers@.len() as int, swaps)
            && trader.offers@ == offers_for(trader.offers@.len() as int, swaps),
        exists|indices: Seq<usize>| offers_from_pool(trader.offers@, indices),
        final(state).last_spawn_day == day_count,
        3 <= final(state).next_interval <= 5,
{
    let offers = generate_offers(rng);
    state.last_spawn_day = day_count;
    state.next_interval = crate::rng::gen_range_usize(rng, 3, 6) as u32;
    Trader { offers, despawn_day: day_count + 2 }
}

impl Trader {
    /// A trader leaves once its departure day has come.
    pub fn has_departed(&self, day_count: u32) -> (gone: bool)
        ensures
            gone == (day_count >= self.despawn_day),
    {
        day_count >= self.despawn_day
    }
}

} // verus!
