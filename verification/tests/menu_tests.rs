use driftlands::animation::next_frame;
use driftlands::menu::{
    not_paused,
    MainMenuActive, MenuSelection, MainMenuInput, main_menu_step, PauseState, PauseMenuState, PauseAction,
    pause_menu_step, PauseBlockers, toggle_pause, GridMove, inventory_navigation, hotbar_selection,
};

fn no_input() -> MainMenuInput {
    MainMenuInput { clicked: None, up: false, down: false, activate: false, key_new: false, key_load: false, key_quit: false }
}

#[test]
fn main_menu_starts_active_on_first_button() {
    assert!(MainMenuActive::default().active);
    let s = MenuSelection::default();
    assert_eq!((s.index, s.count), (0, 4));
}

#[test]
fn main_menu_wraps_and_activates() {
    let mut s = MenuSelection::default();
    let a = main_menu_step(&mut s, MainMenuInput { up: true, ..no_input() });
    assert_eq!(s.index, 3);
    assert!(!a.quit && !a.click_sound);
    let a = main_menu_step(&mut s, MainMenuInput { down: true, activate: true, ..no_input() });
    assert_eq!(s.index, 0);
    assert!(a.start_game && a.click_sound);
    let a = main_menu_step(&mut s, MainMenuInput { clicked: Some(2), ..no_input() });
    assert_eq!(s.index, 2);
    assert!(a.open_settings && !a.start_game);
    let a = main_menu_step(&mut s, MainMenuInput { key_load: true, key_quit: true, ..no_input() });
    assert!(a.open_saves && a.quit && !a.click_sound);
}

#[test]
fn pause_menu_clamps_and_chooses() {
    let mut m = PauseMenuState { selected: 0 };
    assert_eq!(pause_menu_step(&mut m, true, false, false), PauseAction::NoAction);
    assert_eq!(m.selected, 0);
    for _ in 0..10 {
        pause_menu_step(&mut m, false, true, false);
    }
    assert_eq!(m.selected, 5);
    assert_eq!(pause_menu_step(&mut m, false, false, true), PauseAction::QuitToMenu);
    assert_eq!(pause_menu_step(&mut m, true, false, true), PauseAction::ToggleControls);
}

#[test]
fn escape_toggles_pause_unless_blocked() {
    let mut p = PauseState { paused: false };
    let mut m = PauseMenuState { selected: 4 };
    let free = PauseBlockers { main_menu_active: false, save_browser_open: false, chest_open: false,
        trade_open: false, controls_visible: false, settings_open: false };
    assert!(toggle_pause(&mut p, &mut m, true, free));
    assert!(p.paused);
    assert_eq!(m.selected, 0);
    assert!(!toggle_pause(&mut p, &mut m, true, PauseBlockers { chest_open: true, ..free }));
    assert!(p.paused);
    assert!(!toggle_pause(&mut p, &mut m, false, free));
    assert!(toggle_pause(&mut p, &mut m, true, free));
    assert!(!p.paused);
}

#[test]
fn inventory_cursor() {
    assert_eq!(inventory_navigation(0, GridMove::Left), 0);
    assert_eq!(inventory_navigation(0, GridMove::Right), 1);
    assert_eq!(inventory_navigation(35, GridMove::Right), 35);
    assert_eq!(inventory_navigation(3, GridMove::Down), 12);
    assert_eq!(inventory_navigation(30, GridMove::Down), 30);
    assert_eq!(inventory_navigation(12, GridMove::Up), 3);
    assert_eq!(inventory_navigation(8, GridMove::Up), 8);
    assert_eq!(inventory_navigation(inventory_navigation(17, GridMove::Right), GridMove::Left), 17);
}

#[test]
fn hotbar_keys() {
    let mut keys = vec![false; 9];
    assert_eq!(hotbar_selection(20, &keys), 20);
    keys[2] = true;
    assert_eq!(hotbar_selection(20, &keys), 2);
    keys[6] = true;
    assert_eq!(hotbar_selection(20, &keys), 6);
}

#[test]
fn animation_frames() {
    assert_eq!(next_frame(0, 4, true), 1);
    assert_eq!(next_frame(3, 4, true), 0);
    assert_eq!(next_frame(3, 4, false), 3);
    assert_eq!(next_frame(9, 4, false), 3);
    let mut f = 0;
    for k in 1..=10 {
        f = next_frame(f, 4, true);
        assert_eq!(f, k % 4);
    }
}

#[test]
fn gameplay_runs_only_unpaused_outside_menu() {
    let menu_on = MainMenuActive { active: true };
    let menu_off = MainMenuActive { active: false };
    assert!(not_paused(&PauseState { paused: false }, &menu_off));
    assert!(!not_paused(&PauseState { paused: true }, &menu_off));
    assert!(!not_paused(&PauseState { paused: false }, &menu_on));
}
