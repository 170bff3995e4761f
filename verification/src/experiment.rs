//! Experimenting: combining two items in the hope of a hidden recipe.

use vstd::prelude::*;
use crate::items::ItemType;
use crate::inventory::{Inventory, InventorySlot, add_result, remove_result, lemma_add_result, lemma_remove_result,
    slots_wf, law_removals_commute};

verus! {

/// One hidden recipe: two ingredients (in either order) and the result.
pub open spec fn hidden_recipe(i: int) -> (ItemType, ItemType, ItemType) {
    if i == 0 { (ItemType::Berry, ItemType::MushroomCap, ItemType::HealthPotion) }
    else if i == 1 { (ItemType::IceShard, ItemType::Sulfur, ItemType::Gemstone) }
    else if i == 2 { (ItemType::Spore, ItemType::CactusFiber, ItemType::SpeedPotion) }
    else if i == 3 { (ItemType::Coal, ItemType::RareHerb, ItemType::StrengthPotion) }
    else { (ItemType::ObsidianShard, ItemType::CrystalShard, ItemType::AncientCore) }
}

/// Whether hidden recipe `i` takes `a` and `b`, in either order.
pub open spec fn hidden_matches(i: int, a: ItemType, b: ItemType) -> bool {
    (hidden_recipe(i).0 == a && hidden_recipe(i).1 == b) || (hidden_recipe(i).0 == b && hidden_recipe(i).1 == a)
}

/// The result of the first hidden recipe that takes `a` and `b`, if any.
pub open spec fn spec_find_hidden(a: ItemType, b: ItemType) -> Option<ItemType> {
    if hidden_matches(0, a, b) { Some(hidden_recipe(0).2) }
    else if hidden_matches(1, a, b) { Some(hidden_recipe(1).2) }
    else if hidden_matches(2, a, b) { Some(hidden_recipe(2).2) }
    else if hidden_matches(3, a, b) { Some(hidden_recipe(3).2) }
    else if hidden_matches(4, a, b) { Some(hidden_recipe(4).2) }
    else { None }
}

/// Search hidden recipes — order-agnostic.
pub fn find_hidden_recipe(a: ItemType, b: ItemType) -> (r: Option<ItemType>)
    ensures
        r == spec_find_hidden(a, b),
{
    let recipes = [
        (ItemType::Berry, ItemType::MushroomCap, ItemType::HealthPotion),
        (ItemType::IceShard, ItemType::Sulfur, ItemType::Gemstone),
        (ItemType::Spore, ItemType::CactusFiber, ItemType::SpeedPotion),
        (ItemType::Coal, ItemType::RareHerb, ItemType::StrengthPotion),
        (ItemType::ObsidianShard, ItemType::CrystalShard, ItemType::AncientCore),
    ];
    let mut i: usize = 0;
    while i < 5
        invariant
            i <= 5,
            forall|k: int| 0 <= k < 5 ==> #[trigger] recipes@[k] == hidden_recipe(k),
            forall|k: int| 0 <= k < i ==> !#[trigger] hidden_matches(k, a, b),
        decreases 5 - i,
    {
        let (x, y, out) = recipes[i];
        if (x == a && y == b) || (x == b && y == a) {
            proof { assert(hidden_matches(i as int, a, b)); }
            return Some(out);
        }
        i = i + 1;
    }
    None
}

/// The two experiment slots and whether the experiment window is open.
pub struct ExperimentSlots {
    pub slot_a: Option<ItemType>,
    pub slot_b: Option<ItemType>,
    pub is_open: bool,
}

impl Default for ExperimentSlots {
    fn default() -> (s: Self)
        ensures
            s.slot_a is None,
            s.slot_b is None,
            !s.is_open,
    {
        ExperimentSlots { slot_a: None, slot_b: None, is_open: false }
    }
}

/// Number keys 1 and 2 assign the currently selected hotbar item to slot A or B.
pub fn assign_experiment_slot(slots: &mut ExperimentSlots, selected_item: Option<ItemType>, key1: bool, key2: bool)
    ensures
        final(slots).slot_a == if old(slots).is_open && key1 { selected_item } else { old(slots).slot_a },
        final(slots).slot_b == if old(slots).is_open && key2 { selected_item } else { old(slots).slot_b },
        final(slots).is_open == old(slots).is_open,
{
    if !slots.is_open {
        return;
    }
    if key1 {
        slots.slot_a = selected_item;
    }
    if key2 {
        slots.slot_b = selected_item;
    }
}

/// What an experiment came to.
#[derive(Clone, Copy, Debug, PartialEq, Eq, Structural)]
pub enum ExperimentOutcome {
    /// A slot was empty.
    SlotsIncomplete,
    /// One of the two items is not held.
    ItemsMissing,
    /// The items matched a hidden recipe and made this item.
    Discovered(ItemType),
    /// The items were used up for nothing.
    NothingHappened,
}

impl ExperimentOutcome {
    /// The message shown after the experiment.
    pub open spec fn spec_message(self) -> Seq<char> {
        match self {
            ExperimentOutcome::SlotsIncomplete => "Place items in both slots first."@,
            ExperimentOutcome::ItemsMissing => "You don't have those items!"@,
            ExperimentOutcome::Discovered(item) => "Discovery! You created: "@ + item.spec_display_name() + "!"@,
            ExperimentOutcome::NothingHappened => "Nothing happened..."@,
        }
    }

    /// The message shown after the experiment.
    pub fn message(&self) -> (s: String)
        ensures
            s@ == self.spec_message(),
    {
        match self {
            ExperimentOutcome::SlotsIncomplete => String::from_str("Place items in both slots first."),
            ExperimentOutcome::ItemsMissing => String::from_str("You don't have those items!"),
            ExperimentOutcome::Discovered(item) => {
                let mut s = String::from_str("Discovery! You created: ");
                s.append(item.display_name());
                s.append("!");
                s
            },
            ExperimentOutcome::NothingHappened => String::from_str("Nothing happened..."),
        }
    }
}

/// Combine the two slotted items: both must be set and held (one of each).
/// The inputs are always consumed (the same item twice takes two), the slots
/// are cleared, and a matching hidden recipe adds its result.
pub fn attempt_combination(slots: &mut ExperimentSlots, inventory: &mut Inventory) -> (outcome: ExperimentOutcome)
    requires
        old(inventory).wf(),
    ensures
        final(inventory).wf(),
        final(slots).is_open == old(slots).is_open,
        final(inventory).selected_slot == old(inventory).selected_slot,
        match (old(slots).slot_a, old(slots).slot_b) {
            (Some(a), Some(b)) => if old(inventory).total(a) >= 1 && old(inventory).total(b) >= 1 {
                let used = remove_result(remove_result(old(inventory).slots@, a, 1), b, 1);
                &&& final(inventory).slots@ == combination_result(old(inventory).slots@, a, b)
                &&& final(slots).slot_a is None
                &&& final(slots).slot_b is None
                &&& match spec_find_hidden(a, b) {
                    Some(out) => outcome == ExperimentOutcome::Discovered(out)
                        && final(inventory).slots@ == add_result(used, out, 1).0,
                    None => outcome == ExperimentOutcome::NothingHappened && final(inventory).slots@ == used,
                }
            } else {
                &&& outcome == ExperimentOutcome::ItemsMissing
                &&& final(inventory).slots@ == old(inventory).slots@
                &&& final(slots).slot_a == old(slots).slot_a
                &&& final(slots).slot_b == old(slots).slot_b
            },
            _ => {
                &&& outcome == ExperimentOutcome::SlotsIncomplete
                &&& final(inventory).slots@ == old(inventory).slots@
                &&& final(slots).slot_a == old(slots).slot_a
                &&& final(slots).slot_b == old(slots).slot_b
            },
        },
{
    let (a, b) = match (slots.slot_a, slots.slot_b) {
        (Some(a), Some(b)) => (a, b),
        _ => {
            return ExperimentOutcome::SlotsIncomplete;
        },
    };
    if !inventory.has_items(a, 1) || !inventory.has_items(b, 1) {
        return ExperimentOutcome::ItemsMissing;
    }
    let result = find_hidden_recipe(a, b);
    inventory.remove_items(a, 1);
    inventory.remove_items(b, 1);
    slots.slot_a = None;
    slots.slot_b = None;
    match result {
        Some(out) => {
            inventory.add_item(out, 1);
            ExperimentOutcome::Discovered(out)
        },
        None => ExperimentOutcome::NothingHappened,
    }
}

/// The slots after combining `a` and `b` that are both held: one of each
/// taken out, and the hidden recipe's result added if they make one.
pub open spec fn combination_result(s: Seq<Option<InventorySlot>>, a: ItemType, b: ItemType) -> Seq<Option<InventorySlot>> {
    let used = remove_result(remove_result(s, a, 1), b, 1);
    match spec_find_hidden(a, b) {
        Some(out) => add_result(used, out, 1).0,
        None => used,
    }
}

/// The order of the two slots never matters: the same recipe is found, and
/// the inventory ends up the same whichever item sits in the first slot.
pub proof fn law_combination_order_agnostic(s: Seq<Option<InventorySlot>>, a: ItemType, b: ItemType)
    requires
        slots_wf(s),
    ensures
        spec_find_hidden(a, b) == spec_find_hidden(b, a),
        combination_result(s, a, b) == combination_result(s, b, a),
{
    if a != b {
        law_removals_commute(s, a, b, 1, 1);
    }
}

} // verus!
