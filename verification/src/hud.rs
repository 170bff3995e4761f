//! The text of the HUD: slot labels and tooltips, the status line, and the
//! chest, experiment and trader panels.

use vstd::prelude::*;
use vstd::string::StrSliceExecFns;
use crate::items::ItemType;
use crate::inventory::{Inventory, InventorySlot, total_of};
use crate::world::{Weather, DayPhase, phase_name, spec_phase_name};
use crate::building::BuildingType;
use crate::npc::TradeOffer;

verus! {

// ---------------------------------------------------------------------------
// Numbers
// ---------------------------------------------------------------------------

/// The text of a single decimal digit.
pub open spec fn digit_text(d: nat) -> Seq<char> {
    if d == 0 { "0"@ } else if d == 1 { "1"@ } else if d == 2 { "2"@ } else if d == 3 { "3"@ }
    else if d == 4 { "4"@ } else if d == 5 { "5"@ } else if d == 6 { "6"@ } else if d == 7 { "7"@ }
    else if d == 8 { "8"@ } else { "9"@ }
}

/// `n` written in decimal, without leading zeros.
pub open spec fn decimal(n: nat) -> Seq<char>
    decreases n,
{
    if n < 10 { digit_text(n) } else { decimal(n / 10) + digit_text(n % 10) }
}

/// `n` right-aligned in a field two characters wide.
pub open spec fn padded2(n: nat) -> Seq<char> {
    if n < 10 { " "@ + decimal(n) } else { decimal(n) }
}

fn digit(d: u64) -> (s: &'static str)
    requires
        d < 10,
    ensures
        s@ == digit_text(d as nat),
{
    if d == 0 { "0" } else if d == 1 { "1" } else if d == 2 { "2" } else if d == 3 { "3" }
    else if d == 4 { "4" } else if d == 5 { "5" } else if d == 6 { "6" } else if d == 7 { "7" }
    else if d == 8 { "8" } else { "9" }
}

/// Appends `n` in decimal.
pub fn push_decimal(s: &mut String, n: u64)
    ensures
        final(s)@ == old(s)@ + decimal(n as nat),
    decreases n,
{
    if n >= 10 {
        push_decimal(s, n / 10);
    }
    s.append(digit(n % 10));
    proof {
        if n >= 10 {
            assert(final(s)@ =~= old(s)@ + (decimal((n / 10) as nat) + digit_text((n % 10) as nat)));
        } else {
            assert(final(s)@ =~= old(s)@ + digit_text(n as nat));
        }
    }
}

fn push_padded2(s: &mut String, n: u64)
    ensures
        final(s)@ == old(s)@ + padded2(n as nat),
{
    if n < 10 {
        s.append(" ");
        push_decimal(s, n);
        proof { assert(final(s)@ =~= old(s)@ + (" "@ + decimal(n as nat))); }
    } else {
        push_decimal(s, n);
    }
}

// ---------------------------------------------------------------------------
// Inventory slots
// ---------------------------------------------------------------------------

/// The label on a slot: the first six letters of the item's name.
pub open spec fn spec_slot_label(item: ItemType) -> Seq<char> {
    let name = item.spec_display_name();
    if name.len() <= 6 { name } else { name.subrange(0, 6) }
}

/// The label drawn on a slot holding `item`.
pub fn slot_label(item: ItemType) -> (s: String)
    ensures
        s@ == spec_slot_label(item),
{
    let name = item.display_name();
    let n = name.unicode_len();
    let end = if n <= 6 { n } else { 6 };
    let part = name.substring_char(0, end);
    proof {
        if n <= 6 {
            assert(name@.subrange(0, n as int) =~= name@);
        }
    }
    String::from_str(part)
}

/// The count badge of a slot: `x` and the count for a stack of more than
/// one, nothing otherwise.
pub open spec fn spec_count_badge(slot: Option<InventorySlot>) -> Seq<char> {
    match slot {
        Some(s) => if s.count > 1 { "x"@ + decimal(s.count as nat) } else { Seq::empty() },
        None => Seq::empty(),
    }
}

/// The count badge drawn on a slot.
pub fn count_badge(slot: Option<InventorySlot>) -> (s: String)
    ensures
        s@ == spec_count_badge(slot),
{
    let mut s = String::new();
    match slot {
        Some(x) => {
            if x.count > 1 {
                s.append("x");
                push_decimal(&mut s, x.count as u64);
                proof { assert(s@ =~= "x"@ + decimal(x.count as nat)); }
            } else {
                proof { assert(s@ =~= Seq::<char>::empty()); }
            }
        },
        None => {
            proof { assert(s@ =~= Seq::<char>::empty()); }
        },
    }
    s
}

/// The tooltip of a stack: its name, then the count when more than one, the
/// durability out of the maximum, the attack, defence and block values when
/// it has them, and the tool tier of a tool that is not a weapon.
pub open spec fn spec_tooltip(slot: InventorySlot) -> Seq<char> {
    let item = slot.item;
    let count_part = if slot.count > 1 { "  (x"@ + decimal(slot.count as nat) + ")"@ } else { Seq::empty() };
    let dur_part = match slot.durability {
        Some(d) => {
            let max = match item.spec_max_durability() { Some(m) => m, None => d };
            "  ["@ + decimal(d as nat) + "/"@ + decimal(max as nat) + "]"@
        },
        None => Seq::empty(),
    };
    let atk_part = match item.spec_weapon_damage() {
        Some(dmg) => "  ATK: "@ + decimal(dmg as nat),
        None => Seq::empty(),
    };
    let def_part = if item.spec_armor_value() > 0 { "  DEF: "@ + decimal(item.spec_armor_value() as nat) } else { Seq::empty() };
    let block_part = if item.spec_shield_value() > 0 { "  BLOCK: "@ + decimal(item.spec_shield_value() as nat) } else { Seq::empty() };
    let tier_part = if item.spec_tool_tier() != 0 && item.spec_weapon_damage() is None {
        "  Tier "@ + decimal(item.spec_tool_tier() as nat)
    } else {
        Seq::empty()
    };
    item.spec_display_name() + count_part + dur_part + atk_part + def_part + block_part + tier_part
}

/// The tooltip of the selected stack.
pub fn inventory_tooltip(slot: InventorySlot) -> (s: String)
    ensures
        s@ == spec_tooltip(slot),
{
    let item = slot.item;
    let mut s = String::from_str(item.display_name());
    let ghost s0 = s@;
    if slot.count > 1 {
        s.append("  (x");
        push_decimal(&mut s, slot.count as u64);
        s.append(")");
    }
    let ghost s1 = s@;
    match slot.durability {
        Some(d) => {
            let max = match item.max_durability() { Some(m) => m, None => d };
            s.append("  [");
            push_decimal(&mut s, d as u64);
            s.append("/");
            push_decimal(&mut s, max as u64);
            s.append("]");
        },
        None => {},
    }
    let ghost s2 = s@;
    match item.weapon_damage() {
        Some(dmg) => {
            s.append("  ATK: ");
            push_decimal(&mut s, dmg as u64);
        },
        None => {},
    }
    let ghost s3 = s@;
    let armor = item.armor_value();
    if armor > 0 {
        s.append("  DEF: ");
        push_decimal(&mut s, armor as u64);
    }
    let ghost s4 = s@;
    let shield = item.shield_value();
    if shield > 0 {
        s.append("  BLOCK: ");
        push_decimal(&mut s, shield as u64);
    }
    let ghost s5 = s@;
    let tier = item.tool_tier();
    if tier != 0 && item.weapon_damage().is_none() {
        s.append("  Tier ");
        push_decimal(&mut s, tier as u64);
    }
    proof {
        let item_ = slot.item;
        let count_part = if slot.count > 1 { "  (x"@ + decimal(slot.count as nat) + ")"@ } else { Seq::<char>::empty() };
        assert(s1 =~= s0 + count_part);
        let dur_part = match slot.durability {
            Some(d) => {
                let max = match item_.spec_max_durability() { Some(m) => m, None => d };
                "  ["@ + decimal(d as nat) + "/"@ + decimal(max as nat) + "]"@
            },
            None => Seq::<char>::empty(),
        };
        assert(s2 =~= s1 + dur_part);
        let atk_part = match item_.spec_weapon_damage() {
            Some(dmg) => "  ATK: "@ + decimal(dmg as nat),
            None => Seq::<char>::empty(),
        };
        assert(s3 =~= s2 + atk_part);
        let def_part = if item_.spec_armor_value() > 0 { "  DEF: "@ + decimal(item_.spec_armor_value() as nat) } else { Seq::<char>::empty() };
        assert(s4 =~= s3 + def_part);
        let block_part = if item_.spec_shield_value() > 0 { "  BLOCK: "@ + decimal(item_.spec_shield_value() as nat) } else { Seq::<char>::empty() };
        assert(s5 =~= s4 + block_part);
        let tier_part = if item_.spec_tool_tier() != 0 && item_.spec_weapon_damage() is None {
            "  Tier "@ + decimal(item_.spec_tool_tier() as nat)
        } else {
            Seq::<char>::empty()
        };
        assert(s@ =~= s5 + tier_part);
        assert(s@ =~= spec_tooltip(slot));
    }
    s
}

/// The tooltip of an empty selected slot, counting slots from one.
pub fn empty_slot_tooltip(selected: u32) -> (s: String)
    ensures
        s@ == "Slot "@ + decimal(selected as nat + 1) + " - Empty"@,
{
    let mut s = String::from_str("Slot ");
    push_decimal(&mut s, selected as u64 + 1);
    s.append(" - Empty");
    s
}

// ---------------------------------------------------------------------------
// Status line
// ---------------------------------------------------------------------------

/// The weather's mark on the status line; a clear sky has none.
pub open spec fn spec_weather_mark(weather: Weather) -> Seq<char> {
    match weather {
        Weather::Clear => ""@,
        Weather::Rain => " Rain"@,
        Weather::Snow => " Snow"@,
        Weather::Storm => " STORM"@,
        Weather::Fog => " Fog"@,
        Weather::Blizzard => " BLIZZARD"@,
    }
}

fn weather_mark(weather: Weather) -> (s: &'static str)
    ensures
        s@ == spec_weather_mark(weather),
{
    match weather {
        Weather::Clear => "",
        Weather::Rain => " Rain",
        Weather::Snow => " Snow",
        Weather::Storm => " STORM",
        Weather::Fog => " Fog",
        Weather::Blizzard => " BLIZZARD",
    }
}

/// The status text: in build mode a first line naming the selected
/// building and the build keys, then `Day N Phase | Season`, the weather's
/// mark and the forecast (` -> ` and the coming weather's name) if any.
pub open spec fn spec_main_hud(day: u32, phase: DayPhase, season_name: Seq<char>, weather: Weather,
    forecast: Option<Seq<char>>, build: Option<BuildingType>) -> Seq<char>
{
    let status = "Day "@ + decimal(day as nat) + " "@ + spec_phase_name(phase) + " | "@ + season_name
        + spec_weather_mark(weather) + match forecast { Some(f) => " -> "@ + f, None => Seq::empty() };
    match build {
        Some(b) => "BUILD: "@ + b.spec_name() + " | Q Cycle | RClick Place"@ + "\n"@ + status,
        None => status,
    }
}

/// The status text at the top of the screen.
pub fn main_hud_text(day: u32, phase: DayPhase, season_name: &str, weather: Weather,
    forecast: Option<&str>, build: Option<BuildingType>) -> (s: String)
    ensures
        s@ == spec_main_hud(day, phase, season_name@, weather, match forecast { Some(f) => Some(f@), None => None }, build),
{
    let mut s = String::new();
    match build {
        Some(b) => {
            s.append("BUILD: ");
            s.append(b.name());
            s.append(" | Q Cycle | RClick Place");
            s.append("\n");
        },
        None => {},
    }
    let ghost head = s@;
    s.append("Day ");
    push_decimal(&mut s, day as u64);
    s.append(" ");
    s.append(phase_name(phase));
    s.append(" | ");
    s.append(season_name);
    s.append(weather_mark(weather));
    let ghost mid = s@;
    match forecast {
        Some(f) => {
            s.append(" -> ");
            s.append(f);
        },
        None => {},
    }
    proof {
        let fc = match forecast { Some(f) => Some(f@), None => None::<Seq<char>> };
        let status = "Day "@ + decimal(day as nat) + " "@ + spec_phase_name(phase) + " | "@ + season_name@
            + spec_weather_mark(weather) + match fc { Some(f) => " -> "@ + f, None => Seq::<char>::empty() };
        assert(s@ =~= head + status);
        match build {
            Some(b) => {
                assert(head =~= "BUILD: "@ + b.spec_name() + " | Q Cycle | RClick Place"@ + "\n"@);
            },
            None => {
                assert(head =~= Seq::<char>::empty());
            },
        }
        assert(s@ =~= spec_main_hud(day, phase, season_name@, weather, fc, build));
    }
    s
}

// ---------------------------------------------------------------------------
// Panels
// ---------------------------------------------------------------------------

/// The cursor mark of a panel line.
pub open spec fn marker(selected: bool) -> Seq<char> {
    if selected { "> "@ } else { "  "@ }
}

/// Line `i` of the chest panel: the cursor mark, the slot number (from one,
/// two wide), and the stack: a tool with its durability out of the
/// maximum, anything else with its count, or `(empty)`.
pub open spec fn spec_chest_line(i: nat, slot: Option<InventorySlot>, selected: bool) -> Seq<char> {
    let head = marker(selected) + padded2(i + 1) + ". "@;
    match slot {
        Some(s) => match s.durability {
            Some(d) => {
                let max = match s.item.spec_max_durability() { Some(m) => m, None => d };
                head + s.item.spec_display_name() + " ("@ + decimal(d as nat) + "/"@ + decimal(max as nat) + ")"@
            },
            None => head + s.item.spec_display_name() + " x"@ + decimal(s.count as nat),
        },
        None => head + "(empty)"@,
    }
}

/// The chest lines of the first `n` slots, each after a line break.
pub open spec fn chest_lines(slots: Seq<Option<InventorySlot>>, n: int, selected: int) -> Seq<char>
    decreases n,
{
    if n <= 0 {
        Seq::empty()
    } else {
        chest_lines(slots, n - 1, selected) + "\n"@ + spec_chest_line((n - 1) as nat, slots[n - 1], n - 1 == selected)
    }
}

/// The chest panel: a title, a blank line, one line per slot, a blank line
/// and the key help.
pub open spec fn spec_chest_panel(slots: Seq<Option<InventorySlot>>, selected: int) -> Seq<char> {
    "=== CHEST ===\n"@ + chest_lines(slots, slots.len() as int, selected)
        + "\n\n1-9: Store hotbar item | Up/Down+Enter: Take | E: Close"@
}

fn push_chest_line(s: &mut String, i: u64, slot: Option<InventorySlot>, selected: bool)
    requires
        i < u64::MAX,
    ensures
        final(s)@ == old(s)@ + spec_chest_line(i as nat, slot, selected),
{
    let ghost start = old(s)@;
    if selected { s.append("> "); } else { s.append("  "); }
    push_padded2(s, i + 1);
    s.append(". ");
    let ghost head = s@;
    proof { assert(head =~= start + (marker(selected) + padded2(i as nat + 1) + ". "@)); }
    match slot {
        Some(x) => match x.durability {
            Some(d) => {
                let max = match x.item.max_durability() { Some(m) => m, None => d };
                s.append(x.item.display_name());
                s.append(" (");
                push_decimal(s, d as u64);
                s.append("/");
                push_decimal(s, max as u64);
                s.append(")");
            },
            None => {
                s.append(x.item.display_name());
                s.append(" x");
                push_decimal(s, x.count as u64);
            },
        },
        None => {
            s.append("(empty)");
        },
    }
    proof { assert(final(s)@ =~= start + spec_chest_line(i as nat, slot, selected)); }
}

/// The text of the chest panel.
pub fn chest_panel_text(slots: &Vec<Option<InventorySlot>>, selected: usize) -> (s: String)
    ensures
        s@ == spec_chest_panel(slots@, selected as int),
{
    let mut s = String::from_str("=== CHEST ===\n");
    let mut i: usize = 0;
    while i < slots.len()
        invariant
            i <= slots@.len(),
            s@ == "=== CHEST ===\n"@ + chest_lines(slots@, i as int, selected as int),
        decreases slots.len() - i,
    {
        s.append("\n");
        push_chest_line(&mut s, i as u64, slots[i], i == selected);
        proof {
            assert(s@ =~= "=== CHEST ===\n"@ + chest_lines(slots@, i as int + 1, selected as int));
        }
        i = i + 1;
    }
    s.append("\n\n1-9: Store hotbar item | Up/Down+Enter: Take | E: Close");
    s
}

/// The name in an experiment slot, or `---` when it is empty.
pub open spec fn slot_name(item: Option<ItemType>) -> Seq<char> {
    match item {
        Some(i) => i.spec_display_name(),
        None => "---"@,
    }
}

/// The experiment panel: a title, the two slots, and the key help.
pub open spec fn spec_experiment_panel(slot_a: Option<ItemType>, slot_b: Option<ItemType>) -> Seq<char> {
    "== EXPERIMENT TABLE ==\n\nSlot A: "@ + slot_name(slot_a) + "\nSlot B: "@ + slot_name(slot_b)
        + "\n\n[1] Assign selected item to Slot A\n[2] Assign selected item to Slot B\n[Enter] Attempt combination\n[X] Close"@
}

fn slot_name_text(item: Option<ItemType>) -> (s: &'static str)
    ensures
        s@ == slot_name(item),
{
    match item {
        Some(i) => i.display_name(),
        None => "---",
    }
}

/// The text of the experiment panel.
pub fn experiment_panel_text(slot_a: Option<ItemType>, slot_b: Option<ItemType>) -> (s: String)
    ensures
        s@ == spec_experiment_panel(slot_a, slot_b),
{
    let mut s = String::from_str("== EXPERIMENT TABLE ==\n\nSlot A: ");
    s.append(slot_name_text(slot_a));
    s.append("\nSlot B: ");
    s.append(slot_name_text(slot_b));
    s.append("\n\n[1] Assign selected item to Slot A\n[2] Assign selected item to Slot B\n[Enter] Attempt combination\n[X] Close");
    proof {
        assert(s@ =~= spec_experiment_panel(slot_a, slot_b));
    }
    s
}

/// Line of a trade offer: the cursor mark, the goods, the price, and
/// ` [SOLD]` once bought or ` [need more]` while the price is not held.
pub open spec fn spec_offer_line(o: TradeOffer, selected: bool, slots: Seq<Option<InventorySlot>>) -> Seq<char> {
    let status = if o.sold {
        " [SOLD]"@
    } else if total_of(slots, o.cost_item) >= o.cost_count {
        Seq::empty()
    } else {
        " [need more]"@
    };
    marker(selected) + o.item_for_sale.spec_display_name() + "  for "@ + o.cost_item.spec_display_name()
        + " x"@ + decimal(o.cost_count as nat) + status
}

/// The lines of the first `n` offers, each after a line break.
pub open spec fn offer_lines(offers: Seq<TradeOffer>, n: int, selected: int, slots: Seq<Option<InventorySlot>>) -> Seq<char>
    decreases n,
{
    if n <= 0 {
        Seq::empty()
    } else {
        offer_lines(offers, n - 1, selected, slots) + "\n"@ + spec_offer_line(offers[n - 1], n - 1 == selected, slots)
    }
}

/// The trader panel: a title, a blank line, one line per offer, a blank
/// line and the key help.
pub open spec fn spec_trade_panel(offers: Seq<TradeOffer>, selected: int, slots: Seq<Option<InventorySlot>>) -> Seq<char> {
    "== WANDERING TRADER ==\n"@ + offer_lines(offers, offers.len() as int, selected, slots)
        + "\n\n[Up/Down] Select  [Enter] Buy  [Esc] Close"@
}

fn push_offer_line(s: &mut String, o: TradeOffer, selected: bool, inventory: &Inventory)
    requires
        inventory.wf(),
    ensures
        final(s)@ == old(s)@ + spec_offer_line(o, selected, inventory.slots@),
{
    let ghost start = old(s)@;
    if selected { s.append("> "); } else { s.append("  "); }
    s.append(o.item_for_sale.display_name());
    s.append("  for ");
    s.append(o.cost_item.display_name());
    s.append(" x");
    push_decimal(s, o.cost_count as u64);
    if o.sold {
        s.append(" [SOLD]");
    } else if !inventory.has_items(o.cost_item, o.cost_count) {
        s.append(" [need more]");
    }
    proof { assert(final(s)@ =~= start + spec_offer_line(o, selected, inventory.slots@)); }
}

/// The text of the trader panel.
pub fn trade_panel_text(offers: &Vec<TradeOffer>, selected: usize, inventory: &Inventory) -> (s: String)
    requires
        inventory.wf(),
    ensures
        s@ == spec_trade_panel(offers@, selected as int, inventory.slots@),
{
    let mut s = String::from_str("== WANDERING TRADER ==\n");
    let mut i: usize = 0;
    while i < offers.len()
        invariant
            i <= offers@.len(),
            inventory.wf(),
            s@ == "== WANDERING TRADER ==\n"@ + offer_lines(offers@, i as int, selected as int, inventory.slots@),
        decreases offers.len() - i,
    {
        s.append("\n");
        push_offer_line(&mut s, offers[i], i == selected, inventory);
        proof {
            assert(s@ =~= "== WANDERING TRADER ==\n"@ + offer_lines(offers@, i as int + 1, selected as int, inventory.slots@));
        }
        i = i + 1;
    }
    s.append("\n\n[Up/Down] Select  [Enter] Buy  [Esc] Close");
    s
}


} // verus!
