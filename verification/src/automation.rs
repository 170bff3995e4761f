//! Automation: the auto-smelter turns iron ore and coal from a nearby chest
//! into iron ingots.

use vstd::prelude::*;
use crate::items::ItemType;
use crate::inventory::{InventorySlot, slots_wf, slot_wf, total_of, slot_count_of, lemma_total_update,
    first_empty, lemma_first_empty, find_first_empty};
use crate::building::ChestStorage;

verus! {

/// Index of the first slot holding at least one `item`.
pub open spec fn first_holding(s: Seq<Option<InventorySlot>>, item: ItemType) -> Option<int>
    decreases s.len(),
{
    if s.len() == 0 {
        None
    } else {
        match first_holding(s.drop_last(), item) {
            Some(j) => Some(j),
            None => if s.last() matches Some(x) && x.item == item && x.count >= 1 {
                Some(s.len() - 1)
            } else {
                None
            },
        }
    }
}

/// Index of the first iron-ingot stack below 64.
pub open spec fn first_open_ingot_stack(s: Seq<Option<InventorySlot>>) -> Option<int>
    decreases s.len(),
{
    if s.len() == 0 {
        None
    } else {
        match first_open_ingot_stack(s.drop_last()) {
            Some(j) => Some(j),
            None => if s.last() matches Some(x) && x.item == ItemType::IronIngot && x.count < 64 {
                Some(s.len() - 1)
            } else {
                None
            },
        }
    }
}

proof fn lemma_first_holding(s: Seq<Option<InventorySlot>>, item: ItemType)
    ensures
        first_holding(s, item) matches Some(j) ==> 0 <= j < s.len()
            && (s[j] matches Some(x) && x.item == item && x.count >= 1),
        first_holding(s, item) is None ==> forall|k: int| 0 <= k < s.len() ==> !(#[trigger] s[k] matches Some(x) && x.item == item && x.count >= 1),
    decreases s.len(),
{
    if s.len() > 0 {
        lemma_first_holding(s.drop_last(), item);
        assert forall|k: int| 0 <= k < s.len() - 1 implies s.drop_last()[k] == s[k] by {}
    }
}

proof fn lemma_first_open_ingot_stack(s: Seq<Option<InventorySlot>>)
    ensures
        first_open_ingot_stack(s) matches Some(j) ==> 0 <= j < s.len()
            && (s[j] matches Some(x) && x.item == ItemType::IronIngot && x.count < 64),
    decreases s.len(),
{
    if s.len() > 0 {
        lemma_first_open_ingot_stack(s.drop_last());
    }
}

/// One less of the stack in slot `j`; a stack that runs out leaves the slot empty.
pub open spec fn take_one_at(s: Seq<Option<InventorySlot>>, j: int) -> Seq<Option<InventorySlot>> {
    match s[j] {
        Some(x) => if x.count <= 1 {
            s.update(j, None)
        } else {
            s.update(j, Some(InventorySlot { item: x.item, count: (x.count - 1) as u32, durability: x.durability }))
        },
        None => s,
    }
}

/// Put one iron ingot in: onto the first ingot stack below 64, else into the
/// first empty slot, else nowhere (the ingot is lost).
pub open spec fn put_ingot(s: Seq<Option<InventorySlot>>) -> Seq<Option<InventorySlot>> {
    match first_open_ingot_stack(s) {
        Some(j) => match s[j] {
            Some(x) => s.update(j, Some(InventorySlot { item: x.item, count: (x.count + 1) as u32, durability: x.durability })),
            None => s,
        },
        None => match first_empty(s) {
            Some(j) => s.update(j, Some(InventorySlot { item: ItemType::IronIngot, count: 1, durability: None })),
            None => s,
        },
    }
}

/// Chest slots after one smelting step, if the chest holds both ore and coal.
pub open spec fn smelt_result(s: Seq<Option<InventorySlot>>) -> Option<Seq<Option<InventorySlot>>> {
    match (first_holding(s, ItemType::IronOre), first_holding(s, ItemType::Coal)) {
        (Some(o), Some(_)) => {
            let s1 = take_one_at(s, o);
            let c = first_holding(s1, ItemType::Coal).unwrap();
            Some(put_ingot(take_one_at(s1, c)))
        },
        _ => None,
    }
}

fn find_first_holding(slots: &Vec<Option<InventorySlot>>, item: ItemType) -> (j: Option<usize>)
    ensures
        j matches Some(j) ==> first_holding(slots@, item) == Some(j as int),
        j is None ==> first_holding(slots@, item) is None,
{
    let mut i: usize = 0;
    while i < slots.len()
        invariant
            i <= slots@.len(),
            first_holding(slots@.take(i as int), item) is None,
        decreases slots.len() - i,
    {
        proof {
            assert(slots@.take(i as int + 1).drop_last() =~= slots@.take(i as int));
        }
        let hit = match slots[i] {
            Some(x) => x.item == item && x.count >= 1,
            None => false,
        };
        if hit {
            proof { lemma_first_holding_extend(slots@, i as int, item); }
            return Some(i);
        }
        i = i + 1;
    }
    proof {
        assert(slots@.take(slots@.len() as int) =~= slots@);
    }
    None
}

proof fn lemma_first_holding_extend(s: Seq<Option<InventorySlot>>, i: int, item: ItemType)
    requires
        0 <= i < s.len(),
        first_holding(s.take(i), item) is None,
        s[i] matches Some(x) && x.item == item && x.count >= 1,
    ensures
        first_holding(s, item) == Some(i),
    decreases s.len(),
{
    if i == s.len() - 1 {
        assert(s.drop_last() =~= s.take(i));
    } else {
        assert(s.drop_last().take(i) =~= s.take(i));
        lemma_first_holding_extend(s.drop_last(), i, item);
    }
}

fn find_open_ingot_stack(slots: &Vec<Option<InventorySlot>>) -> (j: Option<usize>)
    ensures
        j matches Some(j) ==> first_open_ingot_stack(slots@) == Some(j as int),
        j is None ==> first_open_ingot_stack(slots@) is None,
{
    let mut i: usize = 0;
    while i < slots.len()
        invariant
            i <= slots@.len(),
            first_open_ingot_stack(slots@.take(i as int)) is None,
        decreases slots.len() - i,
    {
        proof {
            assert(slots@.take(i as int + 1).drop_last() =~= slots@.take(i as int));
        }
        let hit = match slots[i] {
            Some(x) => x.item == ItemType::IronIngot && x.count < 64,
            None => false,
        };
        if hit {
            proof { lemma_open_ingot_extend(slots@, i as int); }
            return Some(i);
        }
        i = i + 1;
    }
    proof {
        assert(slots@.take(slots@.len() as int) =~= slots@);
    }
    None
}

proof fn lemma_open_ingot_extend(s: Seq<Option<InventorySlot>>, i: int)
    requires
        0 <= i < s.len(),
        first_open_ingot_stack(s.take(i)) is None,
        s[i] matches Some(x) && x.item == ItemType::IronIngot && x.count < 64,
    ensures
        first_open_ingot_stack(s) == Some(i),
    decreases s.len(),
{
    if i == s.len() - 1 {
        assert(s.drop_last() =~= s.take(i));
    } else {
        assert(s.drop_last().take(i) =~= s.take(i));
        lemma_open_ingot_extend(s.drop_last(), i);
    }
}

fn take_one_from(slots: &mut Vec<Option<InventorySlot>>, j: usize)
    requires
        j < old(slots)@.len(),
    ensures
        final(slots)@ == take_one_at(old(slots)@, j as int),
{
    match slots[j] {
        Some(x) => {
            if x.count <= 1 {
                slots.set(j, None);
            } else {
                slots.set(j, Some(InventorySlot { item: x.item, count: x.count - 1, durability: x.durability }));
            }
        },
        None => {},
    }
}

/// One smelting step on a chest next to an auto-smelter: when it holds iron
/// ore and coal, one of each is taken from the first stack that has it and
/// one iron ingot is put in. Returns whether the chest was smelted from.
pub fn smelt_in_chest(chest: &mut ChestStorage) -> (smelted: bool)
    requires
        slots_wf(old(chest).slots@),
    ensures
        smelted == smelt_result(old(chest).slots@) is Some,
        smelted ==> final(chest).slots@ == smelt_result(old(chest).slots@).unwrap(),
        !smelted ==> final(chest).slots@ == old(chest).slots@,
        slots_wf(final(chest).slots@),
{
    let ore = find_first_holding(&chest.slots, ItemType::IronOre);
    let coal = find_first_holding(&chest.slots, ItemType::Coal);
    let o = match (ore, coal) {
        (Some(o), Some(_)) => o,
        _ => {
            return false;
        },
    };
    proof {
        lemma_first_holding(chest.slots@, ItemType::IronOre);
        lemma_first_holding(chest.slots@, ItemType::Coal);
    }
    take_one_from(&mut chest.slots, o);
    let c = match find_first_holding(&chest.slots, ItemType::Coal) {
        Some(c) => c,
        None => {
            proof {
                let c0 = first_holding(old(chest).slots@, ItemType::Coal).unwrap();
                lemma_first_holding(chest.slots@, ItemType::Coal);
                assert(chest.slots@[c0] == old(chest).slots@[c0]);
            }
            return false;
        },
    };
    proof {
        lemma_first_holding(chest.slots@, ItemType::Coal);
    }
    take_one_from(&mut chest.slots, c);
    let ghost before_put = chest.slots@;
    match find_open_ingot_stack(&chest.slots) {
        Some(j) => {
            proof { lemma_first_open_ingot_stack(chest.slots@); }
            match chest.slots[j] {
                Some(x) => {
                    chest.slots.set(j, Some(InventorySlot { item: x.item, count: x.count + 1, durability: x.durability }));
                },
                None => {},
            }
        },
        None => {
            match find_first_empty(&chest.slots) {
                Some(j) => {
                    proof { lemma_first_empty(chest.slots@); }
                    chest.slots.set(j, Some(InventorySlot { item: ItemType::IronIngot, count: 1, durability: None }));
                },
                None => {},
            }
        },
    }
    proof {
        assert forall|k: int| 0 <= k < chest.slots@.len() implies #[trigger] slot_wf(chest.slots@[k]) by {
            assert(slot_wf(old(chest).slots@[k]));
        }
    }
    true
}

/// One smelting step takes exactly one iron ore and one coal out of the
/// chest and adds one iron ingot, unless the chest has no room for it; no
/// other item changes.
pub proof fn law_smelting_converts(s: Seq<Option<InventorySlot>>, x: ItemType)
    requires
        slots_wf(s),
        smelt_result(s) is Some,
    ensures
        total_of(smelt_result(s).unwrap(), ItemType::IronOre) + 1 == total_of(s, ItemType::IronOre),
        total_of(smelt_result(s).unwrap(), ItemType::Coal) + 1 == total_of(s, ItemType::Coal),
        total_of(smelt_result(s).unwrap(), ItemType::IronIngot) <= total_of(s, ItemType::IronIngot) + 1,
        (first_open_ingot_stack(s) is Some || first_empty(s) is Some)
            ==> total_of(smelt_result(s).unwrap(), ItemType::IronIngot) == total_of(s, ItemType::IronIngot) + 1,
        x != ItemType::IronOre && x != ItemType::Coal && x != ItemType::IronIngot
            ==> total_of(smelt_result(s).unwrap(), x) == total_of(s, x),
{
    lemma_first_holding(s, ItemType::IronOre);
    lemma_first_holding(s, ItemType::Coal);
    let o = first_holding(s, ItemType::IronOre).unwrap();
    let s1 = take_one_at(s, o);
    lemma_take_one_totals(s, o);
    let c0 = first_holding(s, ItemType::Coal).unwrap();
    assert(s1[c0] == s[c0]);
    lemma_first_holding(s1, ItemType::Coal);
    let c = first_holding(s1, ItemType::Coal).unwrap();
    let s2 = take_one_at(s1, c);
    lemma_take_one_totals(s1, c);
    lemma_put_ingot_totals(s2);
    lemma_put_preserves_free(s, s1, s2, o, c);
}

proof fn lemma_put_preserves_free(s: Seq<Option<InventorySlot>>, s1: Seq<Option<InventorySlot>>, s2: Seq<Option<InventorySlot>>, o: int, c: int)
    requires
        0 <= o < s.len(),
        s[o] matches Some(v) && v.item == ItemType::IronOre && v.count >= 1,
        s1 == take_one_at(s, o),
        0 <= c < s1.len(),
        s1[c] matches Some(v) && v.item == ItemType::Coal && v.count >= 1,
        s2 == take_one_at(s1, c),
    ensures
        first_open_ingot_stack(s) is Some ==> first_open_ingot_stack(s2) is Some,
        first_empty(s) is Some ==> first_empty(s2) is Some,
{
    lemma_first_open_ingot_stack(s);
    lemma_first_empty(s);
    lemma_first_empty(s2);
    if first_open_ingot_stack(s) is Some {
        let j = first_open_ingot_stack(s).unwrap();
        assert(s2[j] == s[j]);
        lemma_open_stack_exists(s2, j);
    }
    if first_empty(s) is Some {
        let j = first_empty(s).unwrap();
        assert(s2[j] == s[j]);
    }
}

proof fn lemma_open_stack_exists(s: Seq<Option<InventorySlot>>, j: int)
    requires
        0 <= j < s.len(),
        s[j] matches Some(x) && x.item == ItemType::IronIngot && x.count < 64,
    ensures
        first_open_ingot_stack(s) is Some,
    decreases s.len(),
{
    if j < s.len() - 1 {
        assert(s.drop_last()[j] == s[j]);
        lemma_open_stack_exists(s.drop_last(), j);
    }
}

proof fn lemma_take_one_totals(s: Seq<Option<InventorySlot>>, j: int)
    requires
        0 <= j < s.len(),
        s[j] matches Some(x) && x.count >= 1,
    ensures
        forall|y: ItemType| #[trigger] total_of(take_one_at(s, j), y) + (if s[j].unwrap().item == y { 1nat } else { 0nat }) == total_of(s, y),
        take_one_at(s, j).len() == s.len(),
        forall|k: int| 0 <= k < s.len() && k != j ==> #[trigger] take_one_at(s, j)[k] == s[k],
{
    let x = s[j].unwrap();
    assert forall|y: ItemType| #[trigger] total_of(take_one_at(s, j), y) + (if s[j].unwrap().item == y { 1nat } else { 0nat }) == total_of(s, y) by {
        if x.count <= 1 {
            lemma_total_update(s, j, None, y);
        } else {
            lemma_total_update(s, j, Some(InventorySlot { item: x.item, count: (x.count - 1) as u32, durability: x.durability }), y);
        }
    }
}

proof fn lemma_put_ingot_totals(s: Seq<Option<InventorySlot>>)
    ensures
        forall|y: ItemType| y != ItemType::IronIngot ==> #[trigger] total_of(put_ingot(s), y) == total_of(s, y),
        total_of(put_ingot(s), ItemType::IronIngot) == total_of(s, ItemType::IronIngot)
            + (if first_open_ingot_stack(s) is Some || first_empty(s) is Some { 1nat } else { 0nat }),
{
    lemma_first_open_ingot_stack(s);
    lemma_first_empty(s);
    match first_open_ingot_stack(s) {
        Some(j) => {
            let x = s[j].unwrap();
            let v = Some(InventorySlot { item: x.item, count: (x.count + 1) as u32, durability: x.durability });
            lemma_total_update(s, j, v, ItemType::IronIngot);
            assert forall|y: ItemType| y != ItemType::IronIngot implies #[trigger] total_of(put_ingot(s), y) == total_of(s, y) by {
                lemma_total_update(s, j, v, y);
            }
        },
        None => match first_empty(s) {
            Some(j) => {
                let v = Some(InventorySlot { item: ItemType::IronIngot, count: 1, durability: None });
                lemma_total_update(s, j, v, ItemType::IronIngot);
                assert forall|y: ItemType| y != ItemType::IronIngot implies #[trigger] total_of(put_ingot(s), y) == total_of(s, y) by {
                    lemma_total_update(s, j, v, y);
                }
            },
            None => {},
        },
    }
}

/// Index of the first of the first `n` chests that can be smelted from.
pub open spec fn first_smeltable(chests: Seq<ChestStorage>, n: int) -> Option<int>
    decreases n,
{
    if n <= 0 {
        None
    } else {
        match first_smeltable(chests, n - 1) {
            Some(k) => Some(k),
            None => if smelt_result(chests[n - 1].slots@) is Some { Some(n - 1) } else { None },
        }
    }
}

proof fn lemma_first_smeltable(chests: Seq<ChestStorage>, n: int)
    requires
        0 <= n <= chests.len(),
    ensures
        first_smeltable(chests, n) matches Some(k) ==> 0 <= k < n && smelt_result(chests[k].slots@) is Some,
        first_smeltable(chests, n) is None ==> forall|j: int| 0 <= j < n ==> #[trigger] smelt_result(chests[j].slots@) is None,
    decreases n,
{
    if n > 0 {
        lemma_first_smeltable(chests, n - 1);
    }
}

/// One tick of an auto-smelter: when a forge stands near it, it smelts from
/// the first of the nearby chests (in the order given) that holds iron ore
/// and coal, and from that one only. Returns which chest it smelted from.
pub fn smelter_tick(near_forge: bool, chests: &mut Vec<ChestStorage>) -> (smelted: Option<usize>)
    requires
        forall|i: int| 0 <= i < old(chests)@.len() ==> slots_wf(#[trigger] old(chests)@[i].slots@),
    ensures
        final(chests)@.len() == old(chests)@.len(),
        forall|i: int| 0 <= i < final(chests)@.len() ==> slots_wf(#[trigger] final(chests)@[i].slots@),
        !near_forge ==> smelted is None && final(chests)@ == old(chests)@,
        near_forge ==> match first_smeltable(old(chests)@, old(chests)@.len() as int) {
            Some(k) => smelted == Some(k as usize)
                && final(chests)@[k].slots@ == smelt_result(old(chests)@[k].slots@).unwrap()
                && forall|i: int| 0 <= i < final(chests)@.len() && i != k ==> #[trigger] final(chests)@[i] == old(chests)@[i],
            None => smelted is None && final(chests)@ == old(chests)@,
        },
{
    if !near_forge {
        return None;
    }
    let ghost orig = chests@;
    let mut k: usize = 0;
    while k < chests.len()
        invariant
            chests@ == orig,
            orig == old(chests)@,
            near_forge,
            k <= orig.len(),
            forall|i: int| 0 <= i < orig.len() ==> slots_wf(#[trigger] orig[i].slots@),
            first_smeltable(orig, k as int) is None,
        decreases chests.len() - k,
    {
        if find_first_holding(&chests[k].slots, ItemType::IronOre).is_some()
            && find_first_holding(&chests[k].slots, ItemType::Coal).is_some() {
            proof {
                assert(smelt_result(orig[k as int].slots@) is Some);
                assert(first_smeltable(orig, k as int + 1) == Some(k as int));
                lemma_first_smeltable_stable(orig, k as int + 1, orig.len() as int);
            }
            let mut chest = chests.remove(k);
            let ok = smelt_in_chest(&mut chest);
            chests.insert(k, chest);
            proof {
                assert(ok);
                assert(chests@ =~= orig.update(k as int, chest));
                assert forall|i: int| 0 <= i < chests@.len() && i != k implies #[trigger] chests@[i] == orig[i] by {}
            }
            return Some(k);
        }
        proof {
            lemma_first_holding(orig[k as int].slots@, ItemType::IronOre);
            lemma_first_holding(orig[k as int].slots@, ItemType::Coal);
        }
        k = k + 1;
    }
    None
}

proof fn lemma_first_smeltable_stable(chests: Seq<ChestStorage>, n: int, m: int)
    requires
        0 <= n <= m,
        first_smeltable(chests, n) is Some,
    ensures
        first_smeltable(chests, m) == first_smeltable(chests, n),
    decreases m - n,
{
    if m > n {
        lemma_first_smeltable_stable(chests, n, m - 1);
    }
}

} // verus!
