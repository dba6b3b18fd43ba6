use eggplant_game::menu::{menu_step, MenuInput, MenuPos, SelectPosition, StartMenu, StartMenuItems};

#[test]
fn menu_opens_on_start_game() {
    let menu = StartMenu::new();
    assert_eq!(menu.item, StartMenuItems::StartGame);
}

#[test]
fn menu_prev_wraps_from_top_to_bottom() {
    let mut menu = StartMenu::new();
    menu.prev();
    assert_eq!(menu.item, StartMenuItems::Exit);
    menu.prev();
    assert_eq!(menu.item, StartMenuItems::Options);
}

#[test]
fn menu_next_wraps_from_bottom_to_top() {
    let mut menu = StartMenu::new();
    menu.next();
    assert_eq!(menu.item, StartMenuItems::ContinueGame);
    menu.next();
    menu.next();
    menu.next();
    assert_eq!(menu.item, StartMenuItems::Exit);
    menu.next();
    assert_eq!(menu.item, StartMenuItems::StartGame);
}

#[test]
fn from_u8_falls_back_to_first_entry() {
    assert_eq!(StartMenuItems::from_u8(3), StartMenuItems::Options);
    assert_eq!(StartMenuItems::from_u8(9), StartMenuItems::StartGame);
}

#[test]
fn menu_step_confirm_starts_only_on_start_game() {
    let mut menu = StartMenu::new();
    assert!(!menu_step(&mut menu, MenuInput::Down));
    assert_eq!(menu.item, StartMenuItems::ContinueGame);
    assert!(!menu_step(&mut menu, MenuInput::Confirm));
    assert!(!menu_step(&mut menu, MenuInput::Up));
    assert_eq!(menu.item, StartMenuItems::StartGame);
    assert!(menu_step(&mut menu, MenuInput::Confirm));
    assert_eq!(menu.item, StartMenuItems::StartGame);
}

#[test]
fn select_positions_stack_32_pixels_apart() {
    let positions = SelectPosition::default();
    assert_eq!(positions.get_value(&StartMenuItems::StartGame), MenuPos { left: 93, top: 206 });
    assert_eq!(positions.get_value(&StartMenuItems::ContinueGame), MenuPos { left: 93, top: 238 });
    assert_eq!(positions.get_value(&StartMenuItems::BonusMenu), MenuPos { left: 93, top: 270 });
    assert_eq!(positions.get_value(&StartMenuItems::Options), MenuPos { left: 93, top: 302 });
    assert_eq!(positions.get_value(&StartMenuItems::Exit), MenuPos { left: 93, top: 334 });
}
