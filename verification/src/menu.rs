//! Menus: the main menu, the pause menu, and moving the cursor through the
//! inventory grid.

use vstd::prelude::*;

verus! {

// ---------------------------------------------------------------------------
// Main menu
// ---------------------------------------------------------------------------

/// While `active`, the main menu is shown and gameplay is suppressed.
pub struct MainMenuActive {
    pub active: bool,
}

impl Default for MainMenuActive {
    /// The game starts on the main menu.
    fn default() -> (m: Self)
        ensures
            m.active,
    {
        MainMenuActive { active: true }
    }
}

/// Which main-menu button is highlighted, out of `count`.
pub struct MenuSelection {
    pub index: usize,
    pub count: usize,
}

impl Default for MenuSelection {
    /// The first of the four buttons (New Game, Continue, Settings, Quit).
    fn default() -> (s: Self)
        ensures
            s.index == 0,
            s.count == 4,
    {
        MenuSelection { index: 0, count: 4 }
    }
}

impl MenuSelection {
    /// The highlight is on one of the buttons.
    pub open spec fn wf(&self) -> bool {
        self.index < self.count
    }
}

/// The input of one frame on the main menu.
#[derive(Clone, Copy, Debug, PartialEq, Eq, Structural)]
pub struct MainMenuInput {
    /// The button pressed with the mouse, if any: it is selected and activated.
    pub clicked: Option<usize>,
    pub up: bool,
    pub down: bool,
    /// Enter, Space or the gamepad's south button.
    pub activate: bool,
    /// The N shortcut: new game.
    pub key_new: bool,
    /// The L shortcut: continue.
    pub key_load: bool,
    /// The Q shortcut: quit.
    pub key_quit: bool,
}

/// What the main menu asks for in one frame.
#[derive(Clone, Copy, Debug, PartialEq, Eq, Structural)]
pub struct MainMenuActions {
    /// Leave the menu and play.
    pub start_game: bool,
    /// Open the save-slot browser to continue a game.
    pub open_saves: bool,
    pub open_settings: bool,
    pub quit: bool,
    /// Play the menu sound.
    pub click_sound: bool,
}

/// The highlight after the mouse and the arrows: a click selects its
/// button, up and down move one button and wrap around.
pub open spec fn spec_menu_index(index: nat, count: nat, input: MainMenuInput) -> nat {
    let clicked = match input.clicked { Some(b) => b as nat, None => index };
    let after_up = if input.up { if clicked > 0 { (clicked - 1) as nat } else { (count - 1) as nat } } else { clicked };
    if input.down { (after_up + 1) % count } else { after_up }
}

/// The actions of a frame whose highlight ends on `index`.
pub open spec fn spec_menu_actions(index: nat, input: MainMenuInput) -> MainMenuActions {
    let activated = input.clicked is Some || input.activate;
    MainMenuActions {
        start_game: (activated && index == 0) || input.key_new,
        open_saves: (activated && index == 1) || input.key_load,
        open_settings: activated && index == 2,
        quit: (activated && index == 3) || input.key_quit,
        click_sound: activated && index < 4,
    }
}

/// One frame of the main menu: moves the highlight, then reports what the
/// activated button and the shortcut keys ask for.
pub fn main_menu_step(selection: &mut MenuSelection, input: MainMenuInput) -> (actions: MainMenuActions)
    requires
        old(selection).wf(),
        input.clicked is Some ==> input.clicked.unwrap() < old(selection).count,
    ensures
        final(selection).wf(),
        final(selection).count == old(selection).count,
        final(selection).index == spec_menu_index(old(selection).index as nat, old(selection).count as nat, input),
        actions == spec_menu_actions(final(selection).index as nat, input),
{
    match input.clicked {
        Some(b) => { selection.index = b; },
        None => {},
    }
    if input.up {
        if selection.index > 0 {
            selection.index = selection.index - 1;
        } else {
            selection.index = selection.count - 1;
        }
    }
    if input.down {
        selection.index = (selection.index + 1) % selection.count;
    }
    let activated = input.clicked.is_some() || input.activate;
    let i = selection.index;
    MainMenuActions {
        start_game: (activated && i == 0) || input.key_new,
        open_saves: (activated && i == 1) || input.key_load,
        open_settings: activated && i == 2,
        quit: (activated && i == 3) || input.key_quit,
        click_sound: activated && i < 4,
    }
}

// ---------------------------------------------------------------------------
// Pause menu
// ---------------------------------------------------------------------------

/// Entries of the pause menu: Resume, Save, Load, Settings, Controls, Quit
/// to Menu.
pub const PAUSE_MENU_ITEMS: usize = 6;

/// Whether the game is paused.
pub struct PauseState {
    pub paused: bool,
}

/// Which pause-menu entry is highlighted.
pub struct PauseMenuState {
    pub selected: usize,
}

/// Gameplay runs only while the game is neither paused nor on the main menu.
pub fn not_paused(pause: &PauseState, menu: &MainMenuActive) -> (b: bool)
    ensures
        b == (!pause.paused && !menu.active),
{
    !pause.paused && !menu.active
}

/// What a pause-menu entry does when chosen.
#[derive(Clone, Copy, Debug, PartialEq, Eq, Structural)]
pub enum PauseAction {
    NoAction,
    Resume,
    SaveGame,
    LoadGame,
    OpenSettings,
    ToggleControls,
    QuitToMenu,
}

/// The action of the entry at `selected` when Enter is pressed.
pub open spec fn spec_pause_action(selected: nat) -> PauseAction {
    if selected == 0 {
        PauseAction::Resume
    } else if selected == 1 {
        PauseAction::SaveGame
    } else if selected == 2 {
        PauseAction::LoadGame
    } else if selected == 3 {
        PauseAction::OpenSettings
    } else if selected == 4 {
        PauseAction::ToggleControls
    } else if selected == 5 {
        PauseAction::QuitToMenu
    } else {
        PauseAction::NoAction
    }
}

/// One frame of the pause menu: up and down move the highlight and stop at
/// the ends (no wrapping); Enter chooses the highlighted entry.
pub fn pause_menu_step(state: &mut PauseMenuState, up: bool, down: bool, enter: bool) -> (action: PauseAction)
    ensures
        final(state).selected == ({
            let s1 = if up && old(state).selected > 0 { old(state).selected - 1 } else { old(state).selected as int };
            if down && s1 < PAUSE_MENU_ITEMS - 1 { s1 + 1 } else { s1 }
        }),
        action == if enter { spec_pause_action(final(state).selected as nat) } else { PauseAction::NoAction },
{
    if up && state.selected > 0 {
        state.selected = state.selected - 1;
    }
    if down && state.selected < PAUSE_MENU_ITEMS - 1 {
        state.selected = state.selected + 1;
    }
    if !enter {
        return PauseAction::NoAction;
    }
    match state.selected {
        0 => PauseAction::Resume,
        1 => PauseAction::SaveGame,
        2 => PauseAction::LoadGame,
        3 => PauseAction::OpenSettings,
        4 => PauseAction::ToggleControls,
        5 => PauseAction::QuitToMenu,
        _ => PauseAction::NoAction,
    }
}

/// What stands in the way of Escape toggling the pause.
#[derive(Clone, Copy, Debug, PartialEq, Eq, Structural)]
pub struct PauseBlockers {
    pub main_menu_active: bool,
    pub save_browser_open: bool,
    pub chest_open: bool,
    pub trade_open: bool,
    pub controls_visible: bool,
    pub settings_open: bool,
}

/// Escape pauses or resumes the game, unless the main menu, the save
/// browser, a chest, a trade, the controls overlay or the settings are open;
/// pausing highlights the first entry of the pause menu. Returns whether
/// the pause was toggled.
pub fn toggle_pause(pause: &mut PauseState, menu: &mut PauseMenuState, escape: bool, blockers: PauseBlockers) -> (toggled: bool)
    ensures
        toggled == (escape && !blockers.main_menu_active && !blockers.save_browser_open && !blockers.chest_open
            && !blockers.trade_open && !blockers.controls_visible && !blockers.settings_open),
        final(pause).paused == if toggled { !old(pause).paused } else { old(pause).paused },
        final(menu).selected == if toggled && final(pause).paused { 0 } else { old(menu).selected },
{
    if !escape || blockers.main_menu_active || blockers.save_browser_open || blockers.chest_open
        || blockers.trade_open || blockers.controls_visible || blockers.settings_open {
        return false;
    }
    pause.paused = !pause.paused;
    if pause.paused {
        menu.selected = 0;
    }
    true
}

// ---------------------------------------------------------------------------
// Inventory grid
// ---------------------------------------------------------------------------

/// Columns of the inventory grid.
pub const INVENTORY_COLUMNS: usize = 9;

/// Slots of the inventory grid.
pub const INVENTORY_GRID_SLOTS: usize = 36;

/// An arrow key in the open inventory.
#[derive(Clone, Copy, Debug, PartialEq, Eq, Structural)]
pub enum GridMove {
    Left,
    Right,
    Up,
    Down,
}

/// The slot the cursor moves to: one step in the direction if that stays on
/// the grid, otherwise where it was.
pub open spec fn spec_grid_move(cur: int, dir: GridMove) -> int {
    match dir {
        GridMove::Right => if cur + 1 < 36 { cur + 1 } else { cur },
        GridMove::Left => if cur > 0 { cur - 1 } else { cur },
        GridMove::Down => if cur + 9 < 36 { cur + 9 } else { cur },
        GridMove::Up => if cur >= 9 { cur - 9 } else { cur },
    }
}

/// Moves the inventory cursor with an arrow key.
pub fn inventory_navigation(cur: usize, dir: GridMove) -> (next: usize)
    requires
        cur < INVENTORY_GRID_SLOTS,
    ensures
        next == spec_grid_move(cur as int, dir),
        next < INVENTORY_GRID_SLOTS,
{
    match dir {
        GridMove::Right => if cur + 1 < INVENTORY_GRID_SLOTS { cur + 1 } else { cur },
        GridMove::Left => if cur > 0 { cur - 1 } else { cur },
        GridMove::Down => if cur + INVENTORY_COLUMNS < INVENTORY_GRID_SLOTS { cur + INVENTORY_COLUMNS } else { cur },
        GridMove::Up => if cur >= INVENTORY_COLUMNS { cur - INVENTORY_COLUMNS } else { cur },
    }
}

/// Arrow moves undo each other wherever they moved at all: right then left
/// (and down then up) comes back to the start slot.
pub proof fn law_grid_moves_undo(cur: int)
    requires
        0 <= cur < 36,
    ensures
        spec_grid_move(cur, GridMove::Right) != cur ==>
            spec_grid_move(spec_grid_move(cur, GridMove::Right), GridMove::Left) == cur,
        spec_grid_move(cur, GridMove::Down) != cur ==>
            spec_grid_move(spec_grid_move(cur, GridMove::Down), GridMove::Up) == cur,
        spec_grid_move(cur, GridMove::Left) != cur ==>
            spec_grid_move(spec_grid_move(cur, GridMove::Left), GridMove::Right) == cur,
        spec_grid_move(cur, GridMove::Up) != cur ==>
            spec_grid_move(spec_grid_move(cur, GridMove::Up), GridMove::Down) == cur,
{
}

/// The main menu's highlight wraps around: up from the first button goes to
/// the last, down from the last to the first, otherwise each moves one step;
/// up then down in one frame leaves it where it was, and it always stays on
/// a button.
pub proof fn law_main_menu_wraps(index: nat, count: nat, input: MainMenuInput)
    requires
        1 <= count,
        index < count,
        input.clicked is None,
    ensures
        spec_menu_index(index, count, input) < count,
        input.up && !input.down ==> spec_menu_index(index, count, input)
            == if index == 0 { (count - 1) as nat } else { (index - 1) as nat },
        input.down && !input.up ==> spec_menu_index(index, count, input)
            == if index + 1 == count { 0 } else { index + 1 },
        input.up && input.down ==> spec_menu_index(index, count, input) == index,
        !input.up && !input.down ==> spec_menu_index(index, count, input) == index,
{
    if input.up && input.down {
        let a = if index > 0 { (index - 1) as nat } else { (count - 1) as nat };
        assert((a + 1) % count == index) by (nonlinear_arith)
            requires a == (if index > 0 { (index - 1) as nat } else { (count - 1) as nat }), index < count, 1 <= count;
    }
    if input.down && !input.up {
        assert((index + 1) % count == if index + 1 == count { 0 } else { index + 1 }) by (nonlinear_arith)
            requires index < count, 1 <= count;
    }
    if input.down {
        assert(((if input.up { if index > 0 { (index - 1) as nat } else { (count - 1) as nat } } else { index }) + 1) % count < count) by (nonlinear_arith)
            requires 1 <= count;
    }
}

/// The number keys 1 to 9 select the hotbar slots 0 to 8; the last key
/// pressed in a frame wins.
pub fn hotbar_selection(current: usize, digits_pressed: &Vec<bool>) -> (selected: usize)
    requires
        digits_pressed@.len() == 9,
    ensures
        (forall|i: int| 0 <= i < 9 ==> !digits_pressed@[i]) ==> selected == current,
        (exists|i: int| 0 <= i < 9 && digits_pressed@[i]) ==> {
            &&& selected < 9
            &&& digits_pressed@[selected as int]
            &&& forall|j: int| selected < j < 9 ==> !digits_pressed@[j]
        },
{
    let mut selected = current;
    let mut i: usize = 0;
    while i < 9
        invariant
            i <= 9,
            digits_pressed@.len() == 9,
            (forall|k: int| 0 <= k < i ==> !digits_pressed@[k]) ==> selected == current,
            (exists|k: int| 0 <= k < i && digits_pressed@[k]) ==> {
                &&& selected < i
                &&& digits_pressed@[selected as int]
                &&& forall|j: int| selected < j < i ==> !digits_pressed@[j]
            },
        decreases 9 - i,
    {
        if digits_pressed[i] {
            selected = i;
        }
        i = i + 1;
    }
    selected
}

} // verus!
