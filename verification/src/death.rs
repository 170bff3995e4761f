//! Death: dying drops every stack into a death marker, and reaching the
//! marker gives them all back.

use vstd::prelude::*;
use crate::items::ItemType;
use crate::inventory::{Inventory, InventorySlot, slots_wf, slot_wf, total_of, slot_count_of, add_result,
    stack_pass, fill_pass, fill_one, free_room_of, capacity_of, lemma_add_result};

verus! {

/// Kill counter shown on the death screen.
pub struct DeathStats {
    pub total_kills: u32,
}

impl Default for DeathStats {
    fn default() -> (s: Self)
        ensures
            s.total_kills == 0,
    {
        DeathStats { total_kills: 0 }
    }
}

/// The occupied slots' stacks, in slot order.
pub open spec fn stacks_of(s: Seq<Option<InventorySlot>>) -> Seq<InventorySlot>
    decreases s.len(),
{
    if s.len() == 0 {
        seq![]
    } else {
        let p = stacks_of(s.drop_last());
        match s.last() {
            Some(x) => p.push(x),
            None => p,
        }
    }
}

/// Sum of the counts of all stacks.
pub open spec fn stack_total(stacks: Seq<InventorySlot>) -> nat
    decreases stacks.len(),
{
    if stacks.len() == 0 { 0 } else { stack_total(stacks.drop_last()) + stacks.last().count as nat }
}

/// Sum of the counts of the stacks of `item`.
pub open spec fn stack_total_of(stacks: Seq<InventorySlot>, item: ItemType) -> nat
    decreases stacks.len(),
{
    if stacks.len() == 0 {
        0
    } else {
        stack_total_of(stacks.drop_last(), item) + if stacks.last().item == item { stacks.last().count as nat } else { 0 }
    }
}

/// Slots after adding each stack in turn (durability is not carried over).
pub open spec fn add_stacks(slots: Seq<Option<InventorySlot>>, stacks: Seq<InventorySlot>) -> Seq<Option<InventorySlot>>
    decreases stacks.len(),
{
    if stacks.len() == 0 {
        slots
    } else {
        let prev = add_stacks(slots, stacks.drop_last());
        add_result(prev, stacks.last().item, stacks.last().count).0
    }
}

proof fn lemma_stack_total_bound(s: Seq<Option<InventorySlot>>)
    requires
        forall|i: int| 0 <= i < s.len() ==> #[trigger] slot_wf(s[i]),
    ensures
        stack_total(stacks_of(s)) <= 64 * s.len(),
        stacks_of(s).len() <= s.len(),
    decreases s.len(),
{
    if s.len() > 0 {
        let d = s.drop_last();
        assert forall|i: int| 0 <= i < d.len() implies #[trigger] slot_wf(d[i]) by {
            assert(slot_wf(s[i]));
        }
        lemma_stack_total_bound(d);
        assert(slot_wf(s[s.len() - 1]));
        crate::items::lemma_item_properties(ItemType::Wood);
        match s.last() {
            Some(x) => {
                crate::items::lemma_item_properties(x.item);
                assert(stacks_of(d).push(x).drop_last() =~= stacks_of(d));
            },
            None => {},
        }
    }
}

/// Take every stack out of the inventory: returns the stacks in slot order
/// and how many items they hold; every slot is left empty.
pub fn drop_all_items(inventory: &mut Inventory) -> (res: (Vec<InventorySlot>, u32))
    requires
        old(inventory).wf(),
    ensures
        res.0@ == stacks_of(old(inventory).slots@),
        res.1 == stack_total(stacks_of(old(inventory).slots@)),
        final(inventory).slots@.len() == old(inventory).slots@.len(),
        forall|i: int| 0 <= i < final(inventory).slots@.len() ==> #[trigger] final(inventory).slots@[i] is None,
        final(inventory).wf(),
        final(inventory).selected_slot == old(inventory).selected_slot,
{
    let ghost orig = inventory.slots@;
    let mut dropped: Vec<InventorySlot> = Vec::new();
    let mut items_lost: u32 = 0;
    let mut i: usize = 0;
    while i < inventory.slots.len()
        invariant
            inventory.slots@.len() == orig.len(),
            slots_wf(orig),
            i <= orig.len(),
            dropped@ == stacks_of(orig.take(i as int)),
            items_lost == stack_total(stacks_of(orig.take(i as int))),
            forall|k: int| 0 <= k < i ==> #[trigger] inventory.slots@[k] is None,
            forall|k: int| i <= k < orig.len() ==> #[trigger] inventory.slots@[k] == orig[k],
            inventory.selected_slot == old(inventory).selected_slot,
        decreases orig.len() - i,
    {
        proof {
            assert(orig.take(i as int + 1).drop_last() =~= orig.take(i as int));
            let t = orig.take(i as int + 1);
            assert forall|j: int| 0 <= j < t.len() implies #[trigger] slot_wf(t[j]) by {
                assert(slot_wf(orig[j]));
            }
            lemma_stack_total_bound(t);
        }
        match inventory.slots[i] {
            Some(s) => {
                proof {
                    assert(stacks_of(orig.take(i as int + 1)) == stacks_of(orig.take(i as int)).push(s));
                    assert(stacks_of(orig.take(i as int)).push(s).drop_last() =~= stacks_of(orig.take(i as int)));
                }
                items_lost = items_lost + s.count;
                dropped.push(s);
                inventory.slots.set(i, None);
            },
            None => {},
        }
        i = i + 1;
    }
    proof {
        assert(orig.take(orig.len() as int) =~= orig);
        assert forall|k: int| 0 <= k < inventory.slots@.len() implies #[trigger] slot_wf(inventory.slots@[k]) by {
            assert(inventory.slots@[k] is None);
        }
    }
    (dropped, items_lost)
}

/// Add every stack of a death marker back into the inventory.
pub fn recover_items(items: &Vec<InventorySlot>, inventory: &mut Inventory)
    requires
        old(inventory).wf(),
    ensures
        final(inventory).slots@ == add_stacks(old(inventory).slots@, items@),
        final(inventory).wf(),
        final(inventory).selected_slot == old(inventory).selected_slot,
{
    let ghost orig = inventory.slots@;
    let mut k: usize = 0;
    while k < items.len()
        invariant
            k <= items@.len(),
            inventory.slots@ == add_stacks(orig, items@.take(k as int)),
            inventory.wf(),
            inventory.selected_slot == old(inventory).selected_slot,
        decreases items.len() - k,
    {
        proof {
            assert(items@.take(k as int + 1).drop_last() =~= items@.take(k as int));
        }
        let s = items[k];
        inventory.add_item(s.item, s.count);
        k = k + 1;
    }
    proof {
        assert(items@.take(items@.len() as int) =~= items@);
    }
}

// ---------------------------------------------------------------------------
// The recovery law
// ---------------------------------------------------------------------------

/// Number of empty slots.
pub open spec fn empties(s: Seq<Option<InventorySlot>>) -> nat
    decreases s.len(),
{
    if s.len() == 0 { 0 } else { empties(s.drop_last()) + if s.last() is None { 1nat } else { 0nat } }
}

proof fn lemma_empties_same(s: Seq<Option<InventorySlot>>, t: Seq<Option<InventorySlot>>)
    requires
        s.len() == t.len(),
        forall|i: int| 0 <= i < s.len() ==> (s[i] is None <==> #[trigger] t[i] is None),
    ensures
        empties(s) == empties(t),
    decreases s.len(),
{
    if s.len() > 0 {
        let (ds, dt) = (s.drop_last(), t.drop_last());
        assert forall|i: int| 0 <= i < ds.len() implies (ds[i] is None <==> #[trigger] dt[i] is None) by {
            assert(ds[i] == s[i]);
            assert(dt[i] == t[i]);
        }
        lemma_empties_same(ds, dt);
        assert(s[s.len() - 1] is None <==> t[t.len() - 1] is None);
    }
}

proof fn lemma_free_room_empties(s: Seq<Option<InventorySlot>>, item: ItemType)
    ensures
        empties(s) > 0 ==> free_room_of(s, item) >= item.spec_max_stack(),
    decreases s.len(),
{
    if s.len() > 0 {
        lemma_free_room_empties(s.drop_last(), item);
    }
}

proof fn lemma_fill_pass_small(s: Seq<Option<InventorySlot>>, item: ItemType, n: u32)
    requires
        n <= item.spec_max_stack(),
    ensures
        (fill_pass(s, item, n) == (s, n) && (n == 0 || empties(s) == 0))
            || (fill_pass(s, item, n).1 == 0 && empties(fill_pass(s, item, n).0) + 1 == empties(s)),
    decreases s.len(),
{
    if s.len() > 0 {
        let d = s.drop_last();
        lemma_fill_pass_small(d, item, n);
        let (p, r) = fill_pass(d, item, n);
        let last = s.last();
        let (x, r2) = fill_one(last, item, r);
        assert(s =~= d.push(last));
        assert(p.push(x).drop_last() =~= p);
    }
}

proof fn lemma_add_small_stack(t: Seq<Option<InventorySlot>>, item: ItemType, c: u32)
    requires
        slots_wf(t),
        empties(t) > 0,
        c <= item.spec_max_stack(),
    ensures
        add_result(t, item, c).1 == 0,
        empties(add_result(t, item, c).0) + 1 >= empties(t),
{
    lemma_add_result(t, item, c);
    lemma_free_room_empties(t, item);
    crate::inventory::lemma_stack_pass(t, item, c);
    let (s1, r1) = stack_pass(t, item, c);
    lemma_empties_same(t, s1);
    lemma_fill_pass_small(s1, item, r1);
}

proof fn lemma_add_stacks(t: Seq<Option<InventorySlot>>, stacks: Seq<InventorySlot>)
    requires
        slots_wf(t),
        empties(t) >= stacks.len(),
        forall|k: int| 0 <= k < stacks.len() ==> #[trigger] slot_wf(Some(stacks[k])),
    ensures
        slots_wf(add_stacks(t, stacks)),
        empties(add_stacks(t, stacks)) + stacks.len() >= empties(t),
        forall|x: ItemType| #[trigger] total_of(add_stacks(t, stacks), x) == total_of(t, x) + stack_total_of(stacks, x),
    decreases stacks.len(),
{
    if stacks.len() > 0 {
        let d = stacks.drop_last();
        assert forall|k: int| 0 <= k < d.len() implies #[trigger] slot_wf(Some(d[k])) by {
            assert(slot_wf(Some(stacks[k])));
        }
        lemma_add_stacks(t, d);
        let mid = add_stacks(t, d);
        let y = stacks.last();
        assert(slot_wf(Some(stacks[stacks.len() - 1])));
        lemma_add_small_stack(mid, y.item, y.count);
        lemma_add_result(mid, y.item, y.count);
        assert forall|x: ItemType| #[trigger] total_of(add_stacks(t, stacks), x) == total_of(t, x) + stack_total_of(stacks, x) by {
            assert(total_of(mid, x) == total_of(t, x) + stack_total_of(d, x));
        }
    }
}

proof fn lemma_stacks_of_props(s: Seq<Option<InventorySlot>>)
    requires
        forall|i: int| 0 <= i < s.len() ==> #[trigger] slot_wf(s[i]),
    ensures
        stacks_of(s).len() + empties(s) == s.len(),
        forall|k: int| 0 <= k < stacks_of(s).len() ==> #[trigger] slot_wf(Some(stacks_of(s)[k])),
        forall|x: ItemType| #[trigger] stack_total_of(stacks_of(s), x) == total_of(s, x),
    decreases s.len(),
{
    if s.len() > 0 {
        let d = s.drop_last();
        assert forall|i: int| 0 <= i < d.len() implies #[trigger] slot_wf(d[i]) by {
            assert(slot_wf(s[i]));
        }
        lemma_stacks_of_props(d);
        assert(slot_wf(s[s.len() - 1]));
        match s.last() {
            Some(v) => {
                let p = stacks_of(d);
                assert(p.push(v).drop_last() =~= p);
                assert forall|k: int| 0 <= k < p.push(v).len() implies #[trigger] slot_wf(Some(p.push(v)[k])) by {
                    if k < p.len() {
                        assert(p.push(v)[k] == p[k]);
                    }
                }
                assert forall|x: ItemType| #[trigger] stack_total_of(stacks_of(s), x) == total_of(s, x) by {
                    assert(stack_total_of(p, x) == total_of(d, x));
                    assert(s =~= d.push(Some(v)));
                    assert(total_of(s, x) == total_of(d, x) + slot_count_of(Some(v), x));
                }
            },
            None => {
                assert forall|x: ItemType| #[trigger] stack_total_of(stacks_of(s), x) == total_of(s, x) by {
                    assert(stack_total_of(stacks_of(d), x) == total_of(d, x));
                }
            },
        }
    }
}

/// Dying and then recovering the death marker loses nothing: an inventory
/// emptied at death gets back exactly the count of every item it held.
pub proof fn law_death_recovery(s: Seq<Option<InventorySlot>>, emptied: Seq<Option<InventorySlot>>, x: ItemType)
    requires
        slots_wf(s),
        emptied.len() == s.len(),
        forall|i: int| 0 <= i < emptied.len() ==> #[trigger] emptied[i] is None,
    ensures
        total_of(add_stacks(emptied, stacks_of(s)), x) == total_of(s, x),
{
    lemma_stacks_of_props(s);
    lemma_all_empty(emptied, x);
    lemma_add_stacks(emptied, stacks_of(s));
}

proof fn lemma_all_empty(e: Seq<Option<InventorySlot>>, x: ItemType)
    requires
        forall|i: int| 0 <= i < e.len() ==> #[trigger] e[i] is None,
    ensures
        empties(e) == e.len(),
        total_of(e, x) == 0,
        slots_wf(e) || e.len() > crate::inventory::MAX_SLOTS,
    decreases e.len(),
{
    if e.len() > 0 {
        let d = e.drop_last();
        assert forall|i: int| 0 <= i < d.len() implies #[trigger] d[i] is None by {
            assert(e[i] is None);
        }
        lemma_all_empty(d, x);
        assert(e[e.len() - 1] is None);
    }
    assert(forall|i: int| 0 <= i < e.len() ==> #[trigger] slot_wf(e[i]));
}

} // verus!
