//! The player's inventory: a row of slots, each empty or holding a stack of
//! one item kind.  Adding stacks onto existing stacks first and then fills
//! empty slots; removing takes from the earliest slots first.

use vstd::prelude::*;
use crate::items::ItemType;

verus! {

/// One occupied inventory slot.
#[derive(Clone, Copy, Debug)]
pub struct InventorySlot {
    pub item: ItemType,
    pub count: u32,
    pub durability: Option<u32>,
}

/// Most slots an inventory or chest may have, so that the sum of all counts
/// of one item always fits in a `u32`.
pub const MAX_SLOTS: usize = 1_000_000;

/// A slot sequence is well formed when it is not longer than `MAX_SLOTS` and
/// every stack holds between 1 and its item's stack limit.
pub open spec fn slots_wf(slots: Seq<Option<InventorySlot>>) -> bool {
    &&& slots.len() <= MAX_SLOTS
    &&& forall|i: int| 0 <= i < slots.len() ==> #[trigger] slot_wf(slots[i])
}

/// An empty slot, or a stack of 1 up to the stack limit.
pub open spec fn slot_wf(slot: Option<InventorySlot>) -> bool {
    match slot {
        Some(s) => 1 <= s.count <= s.item.spec_max_stack(),
        None => true,
    }
}

/// How many of `item` one slot holds.
pub open spec fn slot_count_of(slot: Option<InventorySlot>, item: ItemType) -> nat {
    match slot {
        Some(s) => if s.item == item { s.count as nat } else { 0 },
        None => 0,
    }
}

/// Total count of `item` over all slots.
pub open spec fn total_of(slots: Seq<Option<InventorySlot>>, item: ItemType) -> nat
    decreases slots.len(),
{
    if slots.len() == 0 {
        0
    } else {
        total_of(slots.drop_last(), item) + slot_count_of(slots.last(), item)
    }
}

/// How many more of `item` the existing stacks of `item` can take.
pub open spec fn room_of(slots: Seq<Option<InventorySlot>>, item: ItemType) -> nat
    decreases slots.len(),
{
    if slots.len() == 0 {
        0
    } else {
        room_of(slots.drop_last(), item) + match slots.last() {
            Some(s) => if s.item == item && s.count <= item.spec_max_stack() {
                (item.spec_max_stack() - s.count) as nat
            } else {
                0
            },
            None => 0,
        }
    }
}

/// How many of `item` the empty slots can take: one full stack each.
pub open spec fn free_room_of(slots: Seq<Option<InventorySlot>>, item: ItemType) -> nat
    decreases slots.len(),
{
    if slots.len() == 0 {
        0
    } else {
        free_room_of(slots.drop_last(), item) + match slots.last() {
            Some(_) => 0nat,
            None => item.spec_max_stack() as nat,
        }
    }
}

/// Everything `item` can still fit: room on its stacks plus room in empty slots.
pub open spec fn capacity_of(slots: Seq<Option<InventorySlot>>, item: ItemType) -> nat {
    room_of(slots, item) + free_room_of(slots, item)
}

pub open spec fn min_u32(a: u32, b: u32) -> u32 {
    if a <= b { a } else { b }
}

/// First pass of adding: top up one slot's stack of `item` from `rem`.
pub open spec fn stack_one(slot: Option<InventorySlot>, item: ItemType, rem: u32) -> (Option<InventorySlot>, u32) {
    match slot {
        Some(s) => if s.item == item {
            let can_add = (item.spec_max_stack() - s.count) as u32;
            let add = min_u32(rem, can_add);
            (Some(InventorySlot { item: s.item, count: (s.count + add) as u32, durability: s.durability }), (rem - add) as u32)
        } else {
            (slot, rem)
        },
        None => (slot, rem),
    }
}

/// The stacking pass over a prefix of slots, front to back.
pub open spec fn stack_pass(slots: Seq<Option<InventorySlot>>, item: ItemType, n: u32) -> (Seq<Option<InventorySlot>>, u32)
    decreases slots.len(),
{
    if slots.len() == 0 {
        (slots, n)
    } else {
        let (p, r) = stack_pass(slots.drop_last(), item, n);
        let (s, r2) = stack_one(slots.last(), item, r);
        (p.push(s), r2)
    }
}

/// Second pass of adding: put a fresh stack of `item` into one empty slot.
pub open spec fn fill_one(slot: Option<InventorySlot>, item: ItemType, rem: u32) -> (Option<InventorySlot>, u32) {
    match slot {
        None => if rem > 0 {
            let add = min_u32(rem, item.spec_max_stack());
            (Some(InventorySlot { item, count: add, durability: item.spec_max_durability() }), (rem - add) as u32)
        } else {
            (slot, rem)
        },
        Some(_) => (slot, rem),
    }
}

/// The filling pass over a prefix of slots, front to back.
pub open spec fn fill_pass(slots: Seq<Option<InventorySlot>>, item: ItemType, n: u32) -> (Seq<Option<InventorySlot>>, u32)
    decreases slots.len(),
{
    if slots.len() == 0 {
        (slots, n)
    } else {
        let (p, r) = fill_pass(slots.drop_last(), item, n);
        let (s, r2) = fill_one(slots.last(), item, r);
        (p.push(s), r2)
    }
}

/// Slots and leftover count after adding `n` of `item`: first onto existing
/// stacks, then into empty slots, both front to back.
pub open spec fn add_result(slots: Seq<Option<InventorySlot>>, item: ItemType, n: u32) -> (Seq<Option<InventorySlot>>, u32) {
    let (s1, r1) = stack_pass(slots, item, n);
    fill_pass(s1, item, r1)
}

/// Take up to `rem` of `item` out of one slot, emptying it when it runs out.
pub open spec fn remove_one(slot: Option<InventorySlot>, item: ItemType, rem: u32) -> (Option<InventorySlot>, u32) {
    match slot {
        Some(s) => if s.item == item && rem > 0 {
            let take = min_u32(rem, s.count);
            if s.count - take == 0 {
                (None, (rem - take) as u32)
            } else {
                (Some(InventorySlot { item: s.item, count: (s.count - take) as u32, durability: s.durability }), (rem - take) as u32)
            }
        } else {
            (slot, rem)
        },
        None => (slot, rem),
    }
}

/// The removal pass over a prefix of slots, front to back.
pub open spec fn remove_pass(slots: Seq<Option<InventorySlot>>, item: ItemType, n: u32) -> (Seq<Option<InventorySlot>>, u32)
    decreases slots.len(),
{
    if slots.len() == 0 {
        (slots, n)
    } else {
        let (p, r) = remove_pass(slots.drop_last(), item, n);
        let (s, r2) = remove_one(slots.last(), item, r);
        (p.push(s), r2)
    }
}

/// Slots after removing `n` of `item`, when the slots hold at least `n`;
/// unchanged otherwise.
pub open spec fn remove_result(slots: Seq<Option<InventorySlot>>, item: ItemType, n: u32) -> Seq<Option<InventorySlot>> {
    if total_of(slots, item) >= n {
        remove_pass(slots, item, n).0
    } else {
        slots
    }
}

/// Slot `idx` after one use of the tool in it: durability drops by one and a
/// tool at durability 0 breaks; the flag tells whether it broke.
pub open spec fn use_tool_result(slot: Option<InventorySlot>) -> (Option<InventorySlot>, bool) {
    match slot {
        Some(s) => match s.durability {
            Some(d) => if d <= 1 {
                (None, true)
            } else {
                (Some(InventorySlot { item: s.item, count: s.count, durability: Some((d - 1) as u32) }), false)
            },
            None => (slot, false),
        },
        None => (slot, false),
    }
}

// ---------------------------------------------------------------------------
// Lemmas about the passes
// ---------------------------------------------------------------------------

proof fn lemma_total_push(s: Seq<Option<InventorySlot>>, x: Option<InventorySlot>, item: ItemType)
    ensures
        total_of(s.push(x), item) == total_of(s, item) + slot_count_of(x, item),
        room_of(s.push(x), item) == room_of(s, item) + match x {
            Some(v) => if v.item == item && v.count <= item.spec_max_stack() {
                (item.spec_max_stack() - v.count) as nat
            } else {
                0
            },
            None => 0,
        },
        free_room_of(s.push(x), item) == free_room_of(s, item) + match x {
            Some(_) => 0nat,
            None => item.spec_max_stack() as nat,
        },
{
    assert(s.push(x).drop_last() =~= s);
}

/// The total of an item never exceeds 64 per slot.
pub proof fn lemma_total_bound(s: Seq<Option<InventorySlot>>, item: ItemType)
    requires
        forall|i: int| 0 <= i < s.len() ==> #[trigger] slot_wf(s[i]),
    ensures
        total_of(s, item) <= 64 * s.len(),
    decreases s.len(),
{
    if s.len() > 0 {
        lemma_total_bound(s.drop_last(), item);
        assert(slot_wf(s[s.len() - 1]));
    }
}

pub proof fn lemma_stack_pass(s: Seq<Option<InventorySlot>>, item: ItemType, n: u32)
    requires
        forall|i: int| 0 <= i < s.len() ==> #[trigger] slot_wf(s[i]),
    ensures
        stack_pass(s, item, n).0.len() == s.len(),
        stack_pass(s, item, n).1 as nat == n - (if n <= room_of(s, item) { n as nat } else { room_of(s, item) }),
        total_of(stack_pass(s, item, n).0, item) + stack_pass(s, item, n).1 == total_of(s, item) + n,
        forall|x: ItemType| x != item ==> total_of(#[trigger] stack_pass(s, item, n).0, x) == total_of(s, x),
        forall|i: int| 0 <= i < s.len() ==> #[trigger] slot_wf(stack_pass(s, item, n).0[i]),
        free_room_of(stack_pass(s, item, n).0, item) == free_room_of(s, item),
        forall|i: int| 0 <= i < s.len() ==> (s[i] is None <==> (#[trigger] stack_pass(s, item, n).0[i]) is None),
        stack_pass(s, item, n).1 > 0 ==> room_of(stack_pass(s, item, n).0, item) == 0,
    decreases s.len(),
{
    if s.len() > 0 {
        let d = s.drop_last();
        assert forall|i: int| 0 <= i < d.len() implies #[trigger] slot_wf(d[i]) by {
            assert(slot_wf(s[i]));
        }
        lemma_stack_pass(d, item, n);
        let (p, r) = stack_pass(d, item, n);
        let last = s.last();
        assert(slot_wf(s[s.len() - 1]));
        let (x, r2) = stack_one(last, item, r);
        lemma_total_push(p, x, item);
        lemma_total_push(d, last, item);
        assert(s =~= d.push(last));
        assert forall|y: ItemType| y != item implies total_of(#[trigger] stack_pass(s, item, n).0, y) == total_of(s, y) by {
            lemma_total_push(p, x, y);
            lemma_total_push(d, last, y);
        }
        let t = p.push(x);
        assert forall|i: int| 0 <= i < s.len() implies #[trigger] slot_wf(t[i]) by {
            if i < s.len() - 1 {
                assert(t[i] == p[i]);
            }
        }
        assert forall|i: int| 0 <= i < s.len() implies (s[i] is None <==> (#[trigger] t[i]) is None) by {
            if i < s.len() - 1 {
                assert(t[i] == p[i]);
                assert(s[i] == d[i]);
            }
        }
    }
}

proof fn lemma_fill_pass(s: Seq<Option<InventorySlot>>, item: ItemType, n: u32)
    requires
        forall|i: int| 0 <= i < s.len() ==> #[trigger] slot_wf(s[i]),
    ensures
        fill_pass(s, item, n).0.len() == s.len(),
        fill_pass(s, item, n).1 as nat == n - (if n <= free_room_of(s, item) { n as nat } else { free_room_of(s, item) }),
        total_of(fill_pass(s, item, n).0, item) + fill_pass(s, item, n).1 == total_of(s, item) + n,
        forall|x: ItemType| x != item ==> total_of(#[trigger] fill_pass(s, item, n).0, x) == total_of(s, x),
        forall|i: int| 0 <= i < s.len() ==> #[trigger] slot_wf(fill_pass(s, item, n).0[i]),
        fill_pass(s, item, n).1 > 0 ==> room_of(fill_pass(s, item, n).0, item) == room_of(s, item),
        fill_pass(s, item, n).1 > 0 ==> free_room_of(fill_pass(s, item, n).0, item) == 0,
    decreases s.len(),
{
    if s.len() > 0 {
        let d = s.drop_last();
        assert forall|i: int| 0 <= i < d.len() implies #[trigger] slot_wf(d[i]) by {
            assert(slot_wf(s[i]));
        }
        lemma_fill_pass(d, item, n);
        let (p, r) = fill_pass(d, item, n);
        let last = s.last();
        assert(slot_wf(s[s.len() - 1]));
        let (x, r2) = fill_one(last, item, r);
        lemma_total_push(p, x, item);
        lemma_total_push(d, last, item);
        assert(s =~= d.push(last));
        crate::items::lemma_item_properties(item);
        assert forall|y: ItemType| y != item implies total_of(#[trigger] fill_pass(s, item, n).0, y) == total_of(s, y) by {
            lemma_total_push(p, x, y);
            lemma_total_push(d, last, y);
        }
        let t = p.push(x);
        assert forall|i: int| 0 <= i < s.len() implies #[trigger] slot_wf(t[i]) by {
            if i < s.len() - 1 {
                assert(t[i] == p[i]);
            }
        }
    }
}

proof fn lemma_remove_pass(s: Seq<Option<InventorySlot>>, item: ItemType, n: u32)
    requires
        forall|i: int| 0 <= i < s.len() ==> #[trigger] slot_wf(s[i]),
    ensures
        remove_pass(s, item, n).0.len() == s.len(),
        remove_pass(s, item, n).1 as nat == n - (if n <= total_of(s, item) { n as nat } else { total_of(s, item) }),
        total_of(remove_pass(s, item, n).0, item) + n == total_of(s, item) + remove_pass(s, item, n).1,
        forall|x: ItemType| x != item ==> total_of(#[trigger] remove_pass(s, item, n).0, x) == total_of(s, x),
        forall|i: int| 0 <= i < s.len() ==> #[trigger] slot_wf(remove_pass(s, item, n).0[i]),
    decreases s.len(),
{
    if s.len() > 0 {
        let d = s.drop_last();
        assert forall|i: int| 0 <= i < d.len() implies #[trigger] slot_wf(d[i]) by {
            assert(slot_wf(s[i]));
        }
        lemma_remove_pass(d, item, n);
        let (p, r) = remove_pass(d, item, n);
        let last = s.last();
        assert(slot_wf(s[s.len() - 1]));
        let (x, r2) = remove_one(last, item, r);
        lemma_total_push(p, x, item);
        lemma_total_push(d, last, item);
        assert(s =~= d.push(last));
        assert forall|y: ItemType| y != item implies total_of(#[trigger] remove_pass(s, item, n).0, y) == total_of(s, y) by {
            lemma_total_push(p, x, y);
            lemma_total_push(d, last, y);
        }
        let t = p.push(x);
        assert forall|i: int| 0 <= i < s.len() implies #[trigger] slot_wf(t[i]) by {
            if i < s.len() - 1 {
                assert(t[i] == p[i]);
            }
        }
    }
}

/// Adding `n` of `item` keeps the slots well formed, leaves every other item
/// alone, and stores exactly `n` minus what is handed back; what is handed
/// back is `n` less the capacity for `item`, and nothing when it fits.
pub proof fn lemma_add_result(s: Seq<Option<InventorySlot>>, item: ItemType, n: u32)
    requires
        slots_wf(s),
    ensures
        slots_wf(add_result(s, item, n).0),
        add_result(s, item, n).0.len() == s.len(),
        total_of(add_result(s, item, n).0, item) + add_result(s, item, n).1 == total_of(s, item) + n,
        forall|x: ItemType| x != item ==> total_of(#[trigger] add_result(s, item, n).0, x) == total_of(s, x),
        add_result(s, item, n).1 as nat == n - (if n <= capacity_of(s, item) { n as nat } else { capacity_of(s, item) }),
        add_result(s, item, n).1 > 0 ==> capacity_of(add_result(s, item, n).0, item) == 0,
{
    lemma_stack_pass(s, item, n);
    let (s1, r1) = stack_pass(s, item, n);
    lemma_fill_pass(s1, item, r1);
    let (s2, r2) = fill_pass(s1, item, r1);
    assert forall|x: ItemType| x != item implies total_of(#[trigger] add_result(s, item, n).0, x) == total_of(s, x) by {
        assert(total_of(s1, x) == total_of(s, x));
        assert(total_of(s2, x) == total_of(s1, x));
    }
    if r2 > 0 {
        assert(r1 > 0);
    }
}

/// Removing `n` of `item` when at least `n` are held lowers its total by
/// exactly `n`, keeps the slots well formed and leaves every other item alone.
pub proof fn lemma_remove_result(s: Seq<Option<InventorySlot>>, item: ItemType, n: u32)
    requires
        slots_wf(s),
    ensures
        slots_wf(remove_result(s, item, n)),
        remove_result(s, item, n).len() == s.len(),
        total_of(s, item) >= n ==> total_of(remove_result(s, item, n), item) + n == total_of(s, item),
        total_of(s, item) < n ==> remove_result(s, item, n) == s,
        forall|x: ItemType| x != item ==> total_of(#[trigger] remove_result(s, item, n), x) == total_of(s, x),
{
    lemma_remove_pass(s, item, n);
}

/// Replacing one slot changes each item's total by the difference between
/// the new and the old slot.
pub proof fn lemma_total_update(s: Seq<Option<InventorySlot>>, i: int, v: Option<InventorySlot>, x: ItemType)
    requires
        0 <= i < s.len(),
    ensures
        total_of(s.update(i, v), x) + slot_count_of(s[i], x) == total_of(s, x) + slot_count_of(v, x),
    decreases s.len(),
{
    let d = s.drop_last();
    if i == s.len() - 1 {
        assert(s.update(i, v) =~= d.push(v));
        assert(s =~= d.push(s.last()));
        lemma_total_push(d, v, x);
        lemma_total_push(d, s.last(), x);
    } else {
        lemma_total_update(d, i, v, x);
        assert(s.update(i, v) =~= d.update(i, v).push(s.last()));
        assert(s =~= d.push(s.last()));
        lemma_total_push(d.update(i, v), s.last(), x);
        lemma_total_push(d, s.last(), x);
    }
}

/// Index of the first empty slot, if any.
pub open spec fn first_empty(s: Seq<Option<InventorySlot>>) -> Option<int>
    decreases s.len(),
{
    if s.len() == 0 {
        None
    } else {
        match first_empty(s.drop_last()) {
            Some(j) => Some(j),
            None => if s.last() is None { Some(s.len() - 1) } else { None },
        }
    }
}

/// The first empty slot is empty, lies in range, and every slot before it is
/// occupied; when there is none, every slot is occupied.
pub proof fn lemma_first_empty(s: Seq<Option<InventorySlot>>)
    ensures
        first_empty(s) matches Some(j) ==> 0 <= j < s.len() && s[j] is None
            && forall|k: int| 0 <= k < j ==> #[trigger] s[k] is Some,
        first_empty(s) is None ==> forall|k: int| 0 <= k < s.len() ==> #[trigger] s[k] is Some,
    decreases s.len(),
{
    if s.len() > 0 {
        let d = s.drop_last();
        lemma_first_empty(d);
        assert forall|k: int| 0 <= k < d.len() implies d[k] == s[k] by {}
    }
}

/// Index of the first empty slot of a slot vector.
pub fn find_first_empty(slots: &Vec<Option<InventorySlot>>) -> (j: Option<usize>)
    ensures
        j matches Some(j) ==> first_empty(slots@) == Some(j as int),
        j is None ==> first_empty(slots@) is None,
{
    let mut i: usize = 0;
    while i < slots.len()
        invariant
            i <= slots@.len(),
            first_empty(slots@.take(i as int)) is None,
        decreases slots.len() - i,
    {
        proof {
            assert(slots@.take(i as int + 1).drop_last() =~= slots@.take(i as int));
        }
        if slots[i].is_none() {
            proof {
                lemma_first_empty_extend(slots@, i as int);
            }
            return Some(i);
        }
        i = i + 1;
    }
    proof {
        assert(slots@.take(slots@.len() as int) =~= slots@);
    }
    None
}

proof fn lemma_first_empty_extend(s: Seq<Option<InventorySlot>>, i: int)
    requires
        0 <= i < s.len(),
        first_empty(s.take(i)) is None,
        s[i] is None,
    ensures
        first_empty(s) == Some(i),
    decreases s.len(),
{
    if i == s.len() - 1 {
        assert(s.drop_last() =~= s.take(i));
    } else {
        assert(s.drop_last().take(i) =~= s.take(i));
        lemma_first_empty_extend(s.drop_last(), i);
    }
}

// ---------------------------------------------------------------------------
// Executable single-slot steps
// ---------------------------------------------------------------------------

fn stack_into_slot(slot: Option<InventorySlot>, item: ItemType, rem: u32) -> (res: (Option<InventorySlot>, u32))
    requires
        slot_wf(slot),
    ensures
        res == stack_one(slot, item, rem),
{
    match slot {
        Some(s) => {
            if s.item == item {
                let can_add = item.max_stack() - s.count;
                let add = if rem <= can_add { rem } else { can_add };
                (Some(InventorySlot { item: s.item, count: s.count + add, durability: s.durability }), rem - add)
            } else {
                (slot, rem)
            }
        },
        None => (slot, rem),
    }
}

fn fill_into_slot(slot: Option<InventorySlot>, item: ItemType, rem: u32) -> (res: (Option<InventorySlot>, u32))
    ensures
        res == fill_one(slot, item, rem),
{
    match slot {
        None => {
            if rem > 0 {
                let max = item.max_stack();
                let add = if rem <= max { rem } else { max };
                (Some(InventorySlot { item, count: add, durability: item.max_durability() }), rem - add)
            } else {
                (slot, rem)
            }
        },
        Some(_) => (slot, rem),
    }
}

fn remove_from_slot(slot: Option<InventorySlot>, item: ItemType, rem: u32) -> (res: (Option<InventorySlot>, u32))
    ensures
        res == remove_one(slot, item, rem),
{
    match slot {
        Some(s) => {
            if s.item == item && rem > 0 {
                let take = if rem <= s.count { rem } else { s.count };
                if s.count - take == 0 {
                    (None, rem - take)
                } else {
                    (Some(InventorySlot { item: s.item, count: s.count - take, durability: s.durability }), rem - take)
                }
            } else {
                (slot, rem)
            }
        },
        None => (slot, rem),
    }
}

/// Count of `item` over a slot vector.
pub fn count_in_slots(slots: &Vec<Option<InventorySlot>>, item: ItemType) -> (n: u32)
    requires
        slots_wf(slots@),
    ensures
        n == total_of(slots@, item),
{
    let mut total: u32 = 0;
    let mut i: usize = 0;
    while i < slots.len()
        invariant
            slots_wf(slots@),
            i <= slots.len(),
            total == total_of(slots@.take(i as int), item),
        decreases slots.len() - i,
    {
        proof {
            assert(slots@.take(i as int + 1).drop_last() =~= slots@.take(i as int));
            assert(slot_wf(slots@[i as int]));
            assert forall|j: int| 0 <= j < slots@.take(i as int + 1).len() implies #[trigger] slot_wf(slots@.take(i as int + 1)[j]) by {
                assert(slot_wf(slots@[j]));
            }
            lemma_total_bound(slots@.take(i as int + 1), item);
        }
        match slots[i] {
            Some(s) => {
                if s.item == item {
                    total = total + s.count;
                }
            },
            None => {},
        }
        i = i + 1;
    }
    proof {
        assert(slots@.take(slots@.len() as int) =~= slots@);
    }
    total
}

/// Add up to `count` of `item` to a slot vector; returns what did not fit.
pub fn add_to_slots(slots: &mut Vec<Option<InventorySlot>>, item: ItemType, count: u32) -> (remaining: u32)
    requires
        slots_wf(old(slots)@),
    ensures
        (final(slots)@, remaining) == add_result(old(slots)@, item, count),
{
    let ghost orig = slots@;
    let mut remaining = count;
    let mut i: usize = 0;
    while i < slots.len()
        invariant
            slots@.len() == orig.len(),
            i <= slots@.len(),
            slots_wf(orig),
            forall|j: int| i <= j < slots@.len() ==> slots@[j] == orig[j],
            stack_pass(orig.take(i as int), item, count) == (slots@.take(i as int), remaining),
        decreases slots.len() - i,
    {
        proof {
            assert(orig.take(i as int + 1).drop_last() =~= orig.take(i as int));
            assert(slot_wf(orig[i as int]));
        }
        let (s, r) = stack_into_slot(slots[i], item, remaining);
        slots.set(i, s);
        remaining = r;
        proof {
            assert(slots@.take(i as int + 1) =~= slots@.take(i as int).push(s));
        }
        i = i + 1;
    }
    proof {
        assert(orig.take(orig.len() as int) =~= orig);
        assert(slots@.take(slots@.len() as int) =~= slots@);
    }
    let ghost mid = slots@;
    let ghost r1 = remaining;
    i = 0;
    while i < slots.len()
        invariant
            slots@.len() == mid.len(),
            i <= slots@.len(),
            forall|j: int| i <= j < slots@.len() ==> slots@[j] == mid[j],
            fill_pass(mid.take(i as int), item, r1) == (slots@.take(i as int), remaining),
        decreases slots.len() - i,
    {
        proof {
            assert(mid.take(i as int + 1).drop_last() =~= mid.take(i as int));
        }
        let (s, r) = fill_into_slot(slots[i], item, remaining);
        slots.set(i, s);
        remaining = r;
        proof {
            assert(slots@.take(i as int + 1) =~= slots@.take(i as int).push(s));
        }
        i = i + 1;
    }
    proof {
        assert(mid.take(mid.len() as int) =~= mid);
        assert(slots@.take(slots@.len() as int) =~= slots@);
    }
    remaining
}

/// Remove `count` of `item` from a slot vector if it holds that many.
pub fn remove_from_slots(slots: &mut Vec<Option<InventorySlot>>, item: ItemType, count: u32) -> (ok: bool)
    requires
        slots_wf(old(slots)@),
    ensures
        ok == (total_of(old(slots)@, item) >= count),
        final(slots)@ == remove_result(old(slots)@, item, count),
{
    if count_in_slots(slots, item) < count {
        return false;
    }
    let ghost orig = slots@;
    let mut remaining = count;
    let mut i: usize = 0;
    while i < slots.len()
        invariant
            slots@.len() == orig.len(),
            i <= slots@.len(),
            total_of(orig, item) >= count,
            forall|j: int| i <= j < slots@.len() ==> slots@[j] == orig[j],
            remove_pass(orig.take(i as int), item, count) == (slots@.take(i as int), remaining),
        decreases slots.len() - i,
    {
        proof {
            assert(orig.take(i as int + 1).drop_last() =~= orig.take(i as int));
        }
        let (s, r) = remove_from_slot(slots[i], item, remaining);
        slots.set(i, s);
        remaining = r;
        proof {
            assert(slots@.take(i as int + 1) =~= slots@.take(i as int).push(s));
        }
        i = i + 1;
    }
    proof {
        assert(orig.take(orig.len() as int) =~= orig);
        assert(slots@.take(slots@.len() as int) =~= slots@);
    }
    true
}

// ---------------------------------------------------------------------------
// The inventory
// ---------------------------------------------------------------------------

/// The player's inventory: `slots[..hotbar_size]` is the hotbar and
/// `selected_slot` the slot in hand.
pub struct Inventory {
    pub slots: Vec<Option<InventorySlot>>,
    pub hotbar_size: usize,
    pub selected_slot: usize,
    pub is_open: bool,
}

impl Inventory {
    /// All stacks hold between 1 and their stack limit.
    pub open spec fn wf(&self) -> bool {
        slots_wf(self.slots@)
    }

    /// Total count of `item` held.
    pub open spec fn total(&self, item: ItemType) -> nat {
        total_of(self.slots@, item)
    }

    /// Add up to `count` of `item`, first onto existing stacks of it, then
    /// into empty slots, front to back. Returns the count that did not fit.
    pub fn add_item(&mut self, item: ItemType, count: u32) -> (remaining: u32)
        requires
            old(self).wf(),
        ensures
            (final(self).slots@, remaining) == add_result(old(self).slots@, item, count),
            final(self).wf(),
            final(self).total(item) + remaining == old(self).total(item) + count,
            remaining as nat == count - (if count <= capacity_of(old(self).slots@, item) { count as nat } else { capacity_of(old(self).slots@, item) }),
            forall|x: ItemType| x != item ==> #[trigger] final(self).total(x) == old(self).total(x),
            final(self).hotbar_size == old(self).hotbar_size,
            final(self).selected_slot == old(self).selected_slot,
            final(self).is_open == old(self).is_open,
    {
        proof { lemma_add_result(self.slots@, item, count); }
        add_to_slots(&mut self.slots, item, count)
    }

    /// Whether at least `count` of `item` are held.
    pub fn has_items(&self, item: ItemType, count: u32) -> (b: bool)
        requires
            self.wf(),
        ensures
            b == (self.total(item) >= count),
    {
        self.count_items(item) >= count
    }

    /// Returns the total count of a given item type across all inventory slots.
    pub fn count_items(&self, item: ItemType) -> (n: u32)
        requires
            self.wf(),
        ensures
            n == self.total(item),
    {
        count_in_slots(&self.slots, item)
    }

    /// Remove `count` of `item`, from the earliest slots first, if at least
    /// that many are held; otherwise change nothing and return `false`.
    pub fn remove_items(&mut self, item: ItemType, count: u32) -> (ok: bool)
        requires
            old(self).wf(),
        ensures
            ok == (old(self).total(item) >= count),
            final(self).slots@ == remove_result(old(self).slots@, item, count),
            final(self).wf(),
            ok ==> final(self).total(item) + count == old(self).total(item),
            !ok ==> final(self).slots@ == old(self).slots@,
            forall|x: ItemType| x != item ==> #[trigger] final(self).total(x) == old(self).total(x),
            final(self).hotbar_size == old(self).hotbar_size,
            final(self).selected_slot == old(self).selected_slot,
            final(self).is_open == old(self).is_open,
    {
        proof { lemma_remove_result(self.slots@, item, count); }
        remove_from_slots(&mut self.slots, item, count)
    }

    /// The slot in hand.
    pub fn selected_item(&self) -> (s: Option<&InventorySlot>)
        requires
            self.selected_slot < self.slots@.len(),
        ensures
            s.is_some() == self.slots@[self.selected_slot as int].is_some(),
            s.is_some() ==> *s.unwrap() == self.slots@[self.selected_slot as int].unwrap(),
    {
        self.slots[self.selected_slot].as_ref()
    }

    /// Reduce durability of selected tool by 1. Returns true if tool broke.
    pub fn use_selected_tool(&mut self) -> (broke: bool)
        requires
            old(self).selected_slot < old(self).slots@.len(),
        ensures
            final(self).slots@ == old(self).slots@.update(
                old(self).selected_slot as int,
                use_tool_result(old(self).slots@[old(self).selected_slot as int]).0,
            ),
            broke == use_tool_result(old(self).slots@[old(self).selected_slot as int]).1,
            final(self).selected_slot == old(self).selected_slot,
            final(self).hotbar_size == old(self).hotbar_size,
            final(self).is_open == old(self).is_open,
    {
        let idx = self.selected_slot;
        match self.slots[idx] {
            Some(slot) => {
                match slot.durability {
                    Some(dur) => {
                        let d = if dur >= 1 { dur - 1 } else { 0 };
                        if d == 0 {
                            self.slots.set(idx, None);
                            true
                        } else {
                            self.slots.set(idx, Some(InventorySlot { item: slot.item, count: slot.count, durability: Some(d) }));
                            false
                        }
                    },
                    None => {
                        proof { assert(self.slots@ =~= self.slots@.update(idx as int, self.slots@[idx as int])); }
                        false
                    },
                }
            },
            None => {
                proof { assert(self.slots@ =~= self.slots@.update(idx as int, self.slots@[idx as int])); }
                false
            },
        }
    }
}

/// A fresh inventory: 36 empty slots, a 9-slot hotbar, the first slot selected.
pub open spec fn is_fresh_inventory(inv: Inventory) -> bool {
    &&& inv.slots@.len() == 36
    &&& forall|i: int| 0 <= i < 36 ==> #[trigger] inv.slots@[i] is None
    &&& inv.hotbar_size == 9
    &&& inv.selected_slot == 0
    &&& !inv.is_open
}

/// `n` empty slots.
pub fn empty_slots(n: usize) -> (v: Vec<Option<InventorySlot>>)
    ensures
        v@.len() == n,
        forall|i: int| 0 <= i < n ==> #[trigger] v@[i] is None,
{
    let mut v: Vec<Option<InventorySlot>> = Vec::new();
    let mut i: usize = 0;
    while i < n
        invariant
            i <= n,
            v@.len() == i,
            forall|j: int| 0 <= j < i ==> #[trigger] v@[j] is None,
        decreases n - i,
    {
        v.push(None);
        i = i + 1;
    }
    v
}

impl Default for Inventory {
    fn default() -> (inv: Self)
        ensures
            is_fresh_inventory(inv),
            inv.wf(),
    {
        Inventory { slots: empty_slots(36), hotbar_size: 9, selected_slot: 0, is_open: false }
    }
}

// ---------------------------------------------------------------------------
// Laws
// ---------------------------------------------------------------------------

proof fn lemma_remove_pass_capacity(s: Seq<Option<InventorySlot>>, item: ItemType, n: u32)
    requires
        forall|i: int| 0 <= i < s.len() ==> #[trigger] slot_wf(s[i]),
    ensures
        capacity_of(remove_pass(s, item, n).0, item) + remove_pass(s, item, n).1 == capacity_of(s, item) + n,
    decreases s.len(),
{
    if s.len() > 0 {
        let d = s.drop_last();
        assert forall|i: int| 0 <= i < d.len() implies #[trigger] slot_wf(d[i]) by {
            assert(slot_wf(s[i]));
        }
        lemma_remove_pass_capacity(d, item, n);
        let (p, r) = remove_pass(d, item, n);
        let last = s.last();
        assert(slot_wf(s[s.len() - 1]));
        let (x, r2) = remove_one(last, item, r);
        lemma_total_push(p, x, item);
        lemma_total_push(d, last, item);
        assert(s =~= d.push(last));
    }
}

/// Adding `n` of an item and then removing the amount that was stored
/// succeeds and brings the item's total back to where it was.
pub proof fn law_add_then_remove(s: Seq<Option<InventorySlot>>, item: ItemType, n: u32)
    requires
        slots_wf(s),
    ensures
        total_of(add_result(s, item, n).0, item) >= (n - add_result(s, item, n).1) as u32,
        total_of(remove_result(add_result(s, item, n).0, item, (n - add_result(s, item, n).1) as u32), item)
            == total_of(s, item),
{
    lemma_add_result(s, item, n);
    let (t, r) = add_result(s, item, n);
    lemma_remove_result(t, item, (n - r) as u32);
}

/// Removing `n` of an item that is held and adding the same `n` back always
/// fits entirely and restores the item's total.
pub proof fn law_remove_then_add(s: Seq<Option<InventorySlot>>, item: ItemType, n: u32)
    requires
        slots_wf(s),
        total_of(s, item) >= n,
    ensures
        add_result(remove_result(s, item, n), item, n).1 == 0,
        total_of(add_result(remove_result(s, item, n), item, n).0, item) == total_of(s, item),
{
    lemma_remove_pass(s, item, n);
    lemma_remove_pass_capacity(s, item, n);
    lemma_remove_result(s, item, n);
    let t = remove_result(s, item, n);
    lemma_add_result(t, item, n);
}

/// Once an addition hands items back, the inventory has no room left for
/// that item: any further addition of it hands everything back.
pub proof fn law_full_after_overflow(s: Seq<Option<InventorySlot>>, item: ItemType, n: u32, m: u32)
    requires
        slots_wf(s),
        add_result(s, item, n).1 > 0,
    ensures
        add_result(add_result(s, item, n).0, item, m).1 == m,
        add_result(add_result(s, item, n).0, item, m).0 == add_result(s, item, n).0,
{
    lemma_add_result(s, item, n);
    let t = add_result(s, item, n).0;
    lemma_add_result(t, item, m);
    lemma_no_capacity_no_change(t, item, m);
}

proof fn lemma_no_capacity_no_change(s: Seq<Option<InventorySlot>>, item: ItemType, m: u32)
    requires
        slots_wf(s),
        capacity_of(s, item) == 0,
    ensures
        add_result(s, item, m).0 == s,
{
    lemma_stack_pass_zero_room(s, item, m);
    lemma_fill_pass_zero_free(s, item, m);
}

proof fn lemma_stack_pass_zero_room(s: Seq<Option<InventorySlot>>, item: ItemType, m: u32)
    requires
        forall|i: int| 0 <= i < s.len() ==> #[trigger] slot_wf(s[i]),
        room_of(s, item) == 0,
    ensures
        stack_pass(s, item, m) == (s, m),
    decreases s.len(),
{
    if s.len() > 0 {
        let d = s.drop_last();
        assert forall|i: int| 0 <= i < d.len() implies #[trigger] slot_wf(d[i]) by {
            assert(slot_wf(s[i]));
        }
        assert(slot_wf(s[s.len() - 1]));
        lemma_stack_pass_zero_room(d, item, m);
        assert(s =~= d.push(s.last()));
    }
}

proof fn lemma_fill_pass_zero_free(s: Seq<Option<InventorySlot>>, item: ItemType, m: u32)
    requires
        free_room_of(s, item) == 0,
    ensures
        fill_pass(s, item, m) == (s, m),
    decreases s.len(),
{
    if s.len() > 0 {
        let d = s.drop_last();
        crate::items::lemma_item_properties(item);
        lemma_fill_pass_zero_free(d, item, m);
        assert(s =~= d.push(s.last()));
    }
}

/// Whether a slot holds a stack of `item`.
pub open spec fn holds(slot: Option<InventorySlot>, item: ItemType) -> bool {
    slot matches Some(x) && x.item == item
}

proof fn lemma_remove_pass_shape(s: Seq<Option<InventorySlot>>, item: ItemType, n: u32)
    ensures
        remove_pass(s, item, n).0.len() == s.len(),
        remove_pass(s, item, n).1 <= n,
        forall|i: int| 0 <= i < s.len() && holds(s[i], item)
            ==> (#[trigger] remove_pass(s, item, n).0[i] is None || holds(remove_pass(s, item, n).0[i], item)),
        forall|i: int| 0 <= i < s.len() && !holds(s[i], item) ==> #[trigger] remove_pass(s, item, n).0[i] == s[i],
        remove_pass(s, item, n).1 > 0 ==> forall|j: int| 0 <= j < s.len() && holds(s[j], item)
            ==> #[trigger] remove_pass(s, item, n).0[j] is None,
        forall|i: int, j: int| 0 <= j < i < s.len() && #[trigger] remove_pass(s, item, n).0[i] != s[i] && holds(s[j], item)
            ==> #[trigger] remove_pass(s, item, n).0[j] is None,
    decreases s.len(),
{
    if s.len() > 0 {
        let p = s.drop_last();
        lemma_remove_pass_shape(p, item, n);
        let (pr, r) = remove_pass(p, item, n);
        let res = remove_pass(s, item, n).0;
        let last = s.len() - 1;
        assert forall|i: int| 0 <= i < last implies #[trigger] res[i] == pr[i] && s[i] == p[i] by {}
        assert forall|i: int| 0 <= i < s.len() && !holds(s[i], item) implies #[trigger] res[i] == s[i] by {
            if i < last { assert(res[i] == pr[i]); }
        }
        assert forall|i: int| 0 <= i < s.len() && holds(s[i], item) implies (#[trigger] res[i] is None || holds(res[i], item)) by {
            if i < last { assert(res[i] == pr[i]); }
        }
        if remove_pass(s, item, n).1 > 0 {
            assert forall|j: int| 0 <= j < s.len() && holds(s[j], item) implies #[trigger] res[j] is None by {
                if j < last { assert(res[j] == pr[j]); }
            }
        }
        assert forall|i: int, j: int| 0 <= j < i < s.len() && #[trigger] res[i] != s[i] && holds(s[j], item)
            implies #[trigger] res[j] is None by {
            assert(res[j] == pr[j]);
            if i < last {
                assert(res[i] == pr[i]);
            }
        }
    }
}

/// Removing items touches only slots of that item, and drains them front
/// first: a slot of the item is only reduced once every earlier slot of it
/// has been emptied. The slots stay well formed, so no stack is left empty.
pub proof fn law_remove_front_first(s: Seq<Option<InventorySlot>>, item: ItemType, n: u32)
    requires
        slots_wf(s),
    ensures
        remove_result(s, item, n).len() == s.len(),
        slots_wf(remove_result(s, item, n)),
        forall|i: int| 0 <= i < s.len() && !holds(s[i], item) ==> #[trigger] remove_result(s, item, n)[i] == s[i],
        forall|i: int, j: int| 0 <= j < i < s.len() && #[trigger] remove_result(s, item, n)[i] != s[i] && holds(s[j], item)
            ==> #[trigger] remove_result(s, item, n)[j] is None,
{
    lemma_remove_pass_shape(s, item, n);
    lemma_remove_result(s, item, n);
}

proof fn lemma_remove_pass_agree(s: Seq<Option<InventorySlot>>, t: Seq<Option<InventorySlot>>, item: ItemType, n: u32)
    requires
        s.len() == t.len(),
        forall|i: int| 0 <= i < s.len() ==> (holds(#[trigger] s[i], item) <==> holds(t[i], item)),
        forall|i: int| 0 <= i < s.len() && holds(s[i], item) ==> #[trigger] s[i] == t[i],
    ensures
        remove_pass(s, item, n).1 == remove_pass(t, item, n).1,
        total_of(s, item) == total_of(t, item),
        forall|i: int| 0 <= i < s.len() && holds(s[i], item) ==> #[trigger] remove_pass(s, item, n).0[i] == remove_pass(t, item, n).0[i],
    decreases s.len(),
{
    if s.len() > 0 {
        let ps = s.drop_last();
        let pt = t.drop_last();
        assert forall|i: int| 0 <= i < ps.len() implies (holds(#[trigger] ps[i], item) <==> holds(pt[i], item)) by {
            assert(ps[i] == s[i] && pt[i] == t[i]);
        }
        assert forall|i: int| 0 <= i < ps.len() && holds(ps[i], item) implies #[trigger] ps[i] == pt[i] by {
            assert(ps[i] == s[i] && pt[i] == t[i]);
        }
        lemma_remove_pass_agree(ps, pt, item, n);
        lemma_remove_pass_shape(ps, item, n);
        lemma_remove_pass_shape(pt, item, n);
        let last = s.len() - 1;
        assert(holds(s[last], item) <==> holds(t[last], item));
        let rs = remove_pass(s, item, n).0;
        let rt = remove_pass(t, item, n).0;
        assert forall|i: int| 0 <= i < s.len() && holds(s[i], item) implies #[trigger] rs[i] == rt[i] by {
            if i < last {
                assert(rs[i] == remove_pass(ps, item, n).0[i]);
                assert(rt[i] == remove_pass(pt, item, n).0[i]);
                assert(ps[i] == s[i]);
            }
        }
    }
}

/// Removals of two different items commute: taking `n` of `a` and then `m`
/// of `b` leaves the same slots as taking `m` of `b` and then `n` of `a`.
pub proof fn law_removals_commute(s: Seq<Option<InventorySlot>>, a: ItemType, b: ItemType, n: u32, m: u32)
    requires
        slots_wf(s),
        a != b,
    ensures
        remove_result(remove_result(s, a, n), b, m) == remove_result(remove_result(s, b, m), a, n),
{
    let sa = remove_result(s, a, n);
    let sb = remove_result(s, b, m);
    lemma_remove_result(s, a, n);
    lemma_remove_result(s, b, m);
    lemma_remove_pass_shape(s, a, n);
    lemma_remove_pass_shape(s, b, m);
    // The pass for b sees the same b stacks in s and in sa; likewise for a.
    assert forall|i: int| 0 <= i < s.len() implies (holds(#[trigger] sa[i], b) <==> holds(s[i], b)) by {
        if !holds(s[i], a) { assert(sa[i] == s[i]); }
    }
    assert forall|i: int| 0 <= i < s.len() && holds(sa[i], b) implies #[trigger] sa[i] == s[i] by {
        if !holds(s[i], a) { assert(sa[i] == s[i]); }
    }
    assert forall|i: int| 0 <= i < s.len() implies (holds(#[trigger] sb[i], a) <==> holds(s[i], a)) by {
        if !holds(s[i], b) { assert(sb[i] == s[i]); }
    }
    assert forall|i: int| 0 <= i < s.len() && holds(sb[i], a) implies #[trigger] sb[i] == s[i] by {
        if !holds(s[i], b) { assert(sb[i] == s[i]); }
    }
    lemma_remove_pass_agree(sa, s, b, m);
    lemma_remove_pass_agree(sb, s, a, n);
    lemma_remove_result(sa, b, m);
    lemma_remove_result(sb, a, n);
    lemma_remove_pass_shape(sa, b, m);
    lemma_remove_pass_shape(sb, a, n);
    let r1 = remove_result(sa, b, m);
    let r2 = remove_result(sb, a, n);
    assert forall|i: int| 0 <= i < s.len() implies #[trigger] r1[i] == r2[i] by {
        if holds(s[i], a) {
            if total_of(sa, b) >= m { assert(r1[i] == remove_pass(sa, b, m).0[i]); }
            assert(r1[i] == sa[i]);
            assert(sb[i] == s[i]);
            if total_of(s, a) >= n {
                assert(sa[i] == remove_pass(s, a, n).0[i]);
                assert(r2[i] == remove_pass(sb, a, n).0[i]);
            }
        } else if holds(s[i], b) {
            if total_of(sb, a) >= n { assert(r2[i] == remove_pass(sb, a, n).0[i]); }
            assert(r2[i] == sb[i]);
            assert(sa[i] == s[i]);
            if total_of(s, b) >= m {
                assert(sb[i] == remove_pass(s, b, m).0[i]);
                assert(r1[i] == remove_pass(sa, b, m).0[i]);
            }
        } else {
            assert(sa[i] == s[i]);
            assert(sb[i] == s[i]);
            if total_of(sa, b) >= m { assert(r1[i] == remove_pass(sa, b, m).0[i]); }
            if total_of(sb, a) >= n { assert(r2[i] == remove_pass(sb, a, n).0[i]); }
        }
    }
    assert(r1 =~= r2);
}

} // verus!
