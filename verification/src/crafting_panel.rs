//! The text of the crafting panel: the stations in reach, the recipes they
//! offer, and the inputs of the selected one.

use vstd::prelude::*;
use vstd::string::StrSliceExecFns;
use crate::items::ItemType;
use crate::inventory::{Inventory, InventorySlot, total_of};
use crate::crafting::{CraftingSystem, Recipe, RecipeView, visible_prefix, inputs_available};
use crate::hud::{decimal, marker, push_decimal};

verus! {

/// The stations in reach, after `Hand`, which is always there.
pub open spec fn stations_text(near_workbench: bool, near_forge: bool, near_campfire: bool,
    near_advanced_forge: bool, near_ancient: bool) -> Seq<char> {
    "Hand"@
        + (if near_workbench { ", Workbench"@ } else { Seq::empty() })
        + (if near_campfire { ", Campfire"@ } else { Seq::empty() })
        + (if near_forge { ", Forge"@ } else { Seq::empty() })
        + (if near_advanced_forge { ", AdvForge"@ } else { Seq::empty() })
        + (if near_ancient { ", Ancient"@ } else { Seq::empty() })
}

/// The unlock hint given for recipe `i`, or nothing where none was given.
pub open spec fn hint_at(hints: Seq<String>, i: int) -> Seq<char> {
    if 0 <= i < hints.len() { hints[i]@ } else { Seq::empty() }
}

/// The line of one input of the selected recipe: a tick when enough is held,
/// else a cross, then the item, the amount needed and the amount held.
pub open spec fn spec_input_line(input: (ItemType, u32), slots: Seq<Option<InventorySlot>>) -> Seq<char> {
    let have = total_of(slots, input.0);
    "\n    "@ + (if have >= input.1 { "\u{2713}"@ } else { "\u{2717}"@ }) + " "@
        + input.0.spec_display_name() + " x"@ + decimal(input.1 as nat) + " (have "@ + decimal(have) + ")"@
}

/// The lines of the first `n` inputs, each after a line break.
pub open spec fn input_lines(inputs: Seq<(ItemType, u32)>, n: int, slots: Seq<Option<InventorySlot>>) -> Seq<char>
    decreases n,
{
    if n <= 0 {
        Seq::empty()
    } else {
        input_lines(inputs, n - 1, slots) + spec_input_line(inputs[n - 1], slots)
    }
}

/// The line naming what the selected recipe makes, with the amount when
/// it makes more than one.
pub open spec fn output_line(output: (ItemType, u32)) -> Seq<char> {
    "\n    -> "@ + output.0.spec_display_name()
        + (if output.1 > 1 { " x"@ + decimal(output.1 as nat) } else { Seq::empty() })
}

/// The first line of a listed recipe, after a line break. A locked recipe
/// shows its unlock hint (and, when selected, the missing prerequisites);
/// the selected one shows `[READY]` when it can be crafted; the others show
/// their station and `[missing]` when an input is short.
pub open spec fn entry_head(r: RecipeView, locked: bool, selected: bool, craftable: bool,
    hint: Seq<char>, prereq: Seq<char>) -> Seq<char> {
    if locked {
        "\n"@ + marker(selected) + "[LOCKED] "@ + r.name + "  Unlock: "@ + hint
            + (if selected && r.tech_key is Some && prereq.len() > 0 { "\n    "@ + prereq } else { Seq::empty() })
    } else if selected {
        "\n"@ + marker(selected) + r.name + (if craftable { " [READY]"@ } else { Seq::empty() }) + " [SELECTED]"@
    } else {
        "\n"@ + marker(selected) + r.tier.spec_label() + " "@ + r.name
            + (if craftable { Seq::empty() } else { " [missing]"@ })
    }
}

/// The lines of one listed recipe: its first line and, for the selected
/// recipe, its inputs and its output.
pub open spec fn spec_recipe_entry(r: RecipeView, locked: bool, selected: bool, craftable: bool,
    hint: Seq<char>, prereq: Seq<char>, slots: Seq<Option<InventorySlot>>) -> Seq<char> {
    let head = entry_head(r, locked, selected, craftable, hint, prereq);
    if selected {
        head + input_lines(r.inputs, r.inputs.len() as int, slots) + output_line(r.output)
    } else {
        head
    }
}

/// The entries of the first `n` listed recipes.
pub open spec fn entry_lines(recipes: Seq<RecipeView>, visible: Seq<(usize, bool)>, n: int, selected: int,
    hints: Seq<String>, prereq: Seq<char>, slots: Seq<Option<InventorySlot>>) -> Seq<char>
    decreases n,
{
    if n <= 0 {
        Seq::empty()
    } else {
        let (ri, locked) = visible[n - 1];
        let r = recipes[ri as int];
        entry_lines(recipes, visible, n - 1, selected, hints, prereq, slots)
            + spec_recipe_entry(r, locked, n - 1 == selected, inputs_available(slots, r.inputs),
                hint_at(hints, ri as int), prereq, slots)
    }
}

/// The opening lines of the crafting panel, up to the blank line before
/// the recipes.
pub open spec fn crafting_head(research_points: u32, near_workbench: bool, near_forge: bool,
    near_campfire: bool, near_advanced_forge: bool, near_ancient: bool) -> Seq<char> {
    "=== CRAFTING (C to close) ===\nRP: "@ + decimal(research_points as nat)
        + "  [U] Unlock (when locked recipe shown)\nStations: "@
        + stations_text(near_workbench, near_forge, near_campfire, near_advanced_forge, near_ancient) + "\n"@
}

/// The crafting panel: a title, the research points, the stations in reach,
/// a blank line, the recipes those stations offer (or a note that there are
/// none), a blank line and the key help.
pub open spec fn spec_crafting_panel(recipes: Seq<RecipeView>, selected: int, research_points: u32,
    near_workbench: bool, near_forge: bool, near_campfire: bool, near_advanced_forge: bool, near_ancient: bool,
    unlocked: Seq<String>, hints: Seq<String>, prereq: Seq<char>, slots: Seq<Option<InventorySlot>>) -> Seq<char> {
    let visible = visible_prefix(recipes, recipes.len() as int, near_workbench, near_forge, near_campfire,
        near_advanced_forge, near_ancient, unlocked);
    crafting_head(research_points, near_workbench, near_forge, near_campfire, near_advanced_forge, near_ancient)
        + entry_lines(recipes, visible, visible.len() as int, selected, hints, prereq, slots)
        + (if visible.len() == 0 { "\n  (no recipes at current stations)"@ } else { Seq::empty() })
        + "\n\n[Up/Down] Select  [Enter] Craft  [U] Unlock (locked)  [C] Close"@
}

proof fn lemma_visible_in_range(recipes: Seq<RecipeView>, n: int, near_workbench: bool, near_forge: bool,
    near_campfire: bool, near_advanced_forge: bool, near_ancient: bool, unlocked: Seq<String>)
    requires
        n <= usize::MAX,
    ensures
        ({
            let v = visible_prefix(recipes, n, near_workbench, near_forge, near_campfire,
                near_advanced_forge, near_ancient, unlocked);
            forall|k: int| 0 <= k < v.len() ==> (#[trigger] v[k]).0 < n
        }),
    decreases n,
{
    if n > 0 {
        lemma_visible_in_range(recipes, n - 1, near_workbench, near_forge, near_campfire,
            near_advanced_forge, near_ancient, unlocked);
        let p = visible_prefix(recipes, n - 1, near_workbench, near_forge, near_campfire,
            near_advanced_forge, near_ancient, unlocked);
        let v = visible_prefix(recipes, n, near_workbench, near_forge, near_campfire,
            near_advanced_forge, near_ancient, unlocked);
        assert forall|k: int| 0 <= k < v.len() implies (#[trigger] v[k]).0 < n by {
            if k < p.len() {
                assert(v[k] == p[k]);
            }
        }
    }
}

fn push_input_line(s: &mut String, input: (ItemType, u32), inventory: &Inventory)
    requires
        inventory.wf(),
    ensures
        final(s)@ == old(s)@ + spec_input_line(input, inventory.slots@),
{
    let ghost start = s@;
    let (item, count) = input;
    let have = inventory.count_items(item);
    s.append("\n    ");
    if have >= count { s.append("\u{2713}"); } else { s.append("\u{2717}"); }
    s.append(" ");
    s.append(item.display_name());
    s.append(" x");
    push_decimal(s, count as u64);
    s.append(" (have ");
    push_decimal(s, have as u64);
    s.append(")");
    proof { assert(s@ =~= start + spec_input_line(input, inventory.slots@)); }
}

fn push_input_lines(s: &mut String, inputs: &Vec<(ItemType, u32)>, inventory: &Inventory)
    requires
        inventory.wf(),
    ensures
        final(s)@ == old(s)@ + input_lines(inputs@, inputs@.len() as int, inventory.slots@),
{
    let ghost start = s@;
    let mut k: usize = 0;
    while k < inputs.len()
        invariant
            k <= inputs@.len(),
            inventory.wf(),
            s@ == start + input_lines(inputs@, k as int, inventory.slots@),
        decreases inputs.len() - k,
    {
        push_input_line(s, inputs[k], inventory);
        proof {
            assert(s@ =~= start + input_lines(inputs@, k as int + 1, inventory.slots@));
        }
        k = k + 1;
    }
}

fn push_output_line(s: &mut String, output: (ItemType, u32))
    ensures
        final(s)@ == old(s)@ + output_line(output),
{
    let ghost start = s@;
    s.append("\n    -> ");
    s.append(output.0.display_name());
    if output.1 > 1 {
        s.append(" x");
        push_decimal(s, output.1 as u64);
    }
    proof { assert(s@ =~= start + output_line(output)); }
}

fn push_entry_head(s: &mut String, r: &Recipe, locked: bool, selected: bool, craftable: bool,
    hint: &str, prereq: &str)
    ensures
        final(s)@ == old(s)@ + entry_head(r@, locked, selected, craftable, hint@, prereq@),
{
    let ghost start = s@;
    s.append("\n");
    if selected { s.append("> "); } else { s.append("  "); }
    if locked {
        s.append("[LOCKED] ");
        s.append(r.name);
        s.append("  Unlock: ");
        s.append(hint);
        if selected && r.tech_key.is_some() && prereq.unicode_len() > 0 {
            s.append("\n    ");
            s.append(prereq);
        }
    } else if selected {
        s.append(r.name);
        if craftable { s.append(" [READY]"); }
        s.append(" [SELECTED]");
    } else {
        s.append(r.tier.label());
        s.append(" ");
        s.append(r.name);
        if !craftable { s.append(" [missing]"); }
    }
    proof { assert(s@ =~= start + entry_head(r@, locked, selected, craftable, hint@, prereq@)); }
}

fn push_recipe_entry(s: &mut String, r: &Recipe, locked: bool, selected: bool, craftable: bool,
    hint: &str, prereq: &str, inventory: &Inventory)
    requires
        inventory.wf(),
    ensures
        final(s)@ == old(s)@ + spec_recipe_entry(r@, locked, selected, craftable, hint@, prereq@, inventory.slots@),
{
    let ghost start = s@;
    push_entry_head(s, r, locked, selected, craftable, hint, prereq);
    if selected {
        push_input_lines(s, &r.inputs, inventory);
        push_output_line(s, r.output);
    }
    proof { assert(s@ =~= start + spec_recipe_entry(r@, locked, selected, craftable, hint@, prereq@, inventory.slots@)); }
}

fn push_when(s: &mut String, cond: bool, text: &str)
    ensures
        final(s)@ == old(s)@ + (if cond { text@ } else { Seq::<char>::empty() }),
{
    if cond {
        s.append(text);
    } else {
        proof { assert(s@ =~= s@ + Seq::<char>::empty()); }
    }
}

fn push_stations(s: &mut String, near_workbench: bool, near_forge: bool, near_campfire: bool,
    near_advanced_forge: bool, near_ancient: bool)
    ensures
        final(s)@ == old(s)@ + stations_text(near_workbench, near_forge, near_campfire,
            near_advanced_forge, near_ancient),
{
    let ghost before = s@;
    s.append("Hand");
    push_when(s, near_workbench, ", Workbench");
    push_when(s, near_campfire, ", Campfire");
    push_when(s, near_forge, ", Forge");
    push_when(s, near_advanced_forge, ", AdvForge");
    push_when(s, near_ancient, ", Ancient");
    proof {
        assert(s@ =~= before + stations_text(near_workbench, near_forge, near_campfire,
            near_advanced_forge, near_ancient));
    }
}

fn crafting_head_text(research_points: u32, near_workbench: bool, near_forge: bool,
    near_campfire: bool, near_advanced_forge: bool, near_ancient: bool) -> (s: String)
    ensures
        s@ == crafting_head(research_points, near_workbench, near_forge, near_campfire,
            near_advanced_forge, near_ancient),
{
    let mut s = String::from_str("=== CRAFTING (C to close) ===\nRP: ");
    push_decimal(&mut s, research_points as u64);
    s.append("  [U] Unlock (when locked recipe shown)\nStations: ");
    push_stations(&mut s, near_workbench, near_forge, near_campfire, near_advanced_forge, near_ancient);
    s.append("\n");
    proof {
        assert(s@ =~= crafting_head(research_points, near_workbench, near_forge, near_campfire,
            near_advanced_forge, near_ancient));
    }
    s
}

fn push_crafting_entries(s: &mut String, crafting: &CraftingSystem, visible: &Vec<(usize, bool)>,
    inventory: &Inventory, unlock_hints: &Vec<String>, prerequisite_hint: &str)
    requires
        inventory.wf(),
        forall|j: int| 0 <= j < visible@.len() ==> (#[trigger] visible@[j]).0 < crafting.recipes@.len(),
    ensures
        final(s)@ == old(s)@ + entry_lines(crafting.recipe_views(), visible@, visible@.len() as int,
            crafting.selected_recipe as int, unlock_hints@, prerequisite_hint@, inventory.slots@),
{
    let ghost start = s@;
    let ghost recipes = crafting.recipe_views();
    let mut k: usize = 0;
    while k < visible.len()
        invariant
            k <= visible@.len(),
            inventory.wf(),
            recipes == crafting.recipe_views(),
            forall|j: int| 0 <= j < visible@.len() ==> (#[trigger] visible@[j]).0 < crafting.recipes@.len(),
            s@ == start + entry_lines(recipes, visible@, k as int, crafting.selected_recipe as int,
                unlock_hints@, prerequisite_hint@, inventory.slots@),
        decreases visible.len() - k,
    {
        let (ri, locked) = visible[k];
        assert(visible@[k as int].0 < crafting.recipes@.len());
        let r = &crafting.recipes[ri];
        let craftable = crafting.can_craft(ri, inventory);
        let hint: &str = if ri < unlock_hints.len() { unlock_hints[ri].as_str() } else { "" };
        push_recipe_entry(s, r, locked, k == crafting.selected_recipe, craftable, hint,
            prerequisite_hint, inventory);
        proof {
            assert(r@ == recipes[ri as int]);
            if ri >= unlock_hints.len() {
                reveal_strlit("");
                assert(hint@ =~= Seq::<char>::empty());
            }
            assert(hint@ == hint_at(unlock_hints@, ri as int));
            assert(s@ =~= start + entry_lines(recipes, visible@, k as int + 1, crafting.selected_recipe as int,
                unlock_hints@, prerequisite_hint@, inventory.slots@));
        }
        k = k + 1;
    }
}

/// The text of the crafting panel, or nothing while the panel is closed.
/// `unlock_hints[i]` is the hint shown for recipe `i` while it is locked,
/// and `prerequisite_hint` the missing prerequisites of the selected one.
pub fn crafting_panel_text(
    crafting: &CraftingSystem,
    inventory: &Inventory,
    research_points: u32,
    near_workbench: bool,
    near_forge: bool,
    near_campfire: bool,
    near_advanced_forge: bool,
    near_ancient: bool,
    unlocked_techs: &Vec<String>,
    unlock_hints: &Vec<String>,
    prerequisite_hint: &str,
) -> (s: String)
    requires
        inventory.wf(),
    ensures
        s@ == (if crafting.is_open {
            spec_crafting_panel(crafting.recipe_views(), crafting.selected_recipe as int, research_points,
                near_workbench, near_forge, near_campfire, near_advanced_forge, near_ancient,
                unlocked_techs@, unlock_hints@, prerequisite_hint@, inventory.slots@)
        } else {
            Seq::empty()
        }),
{
    if !crafting.is_open {
        return String::new();
    }
    let visible = crafting.recipes_visible_at_stations(near_workbench, near_forge, near_campfire,
        near_advanced_forge, near_ancient, unlocked_techs);
    let ghost recipes = crafting.recipe_views();
    let count = crafting.recipes.len();
    proof {
        assert(recipes.len() == count);
        lemma_visible_in_range(recipes, recipes.len() as int, near_workbench, near_forge, near_campfire,
            near_advanced_forge, near_ancient, unlocked_techs@);
    }
    let mut s = crafting_head_text(research_points, near_workbench, near_forge, near_campfire,
        near_advanced_forge, near_ancient);
    push_crafting_entries(&mut s, crafting, &visible, inventory, unlock_hints, prerequisite_hint);
    if visible.len() == 0 {
        s.append("\n  (no recipes at current stations)");
    }
    s.append("\n\n[Up/Down] Select  [Enter] Craft  [U] Unlock (locked)  [C] Close");
    s
}

} // verus!
