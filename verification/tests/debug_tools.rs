use game_test::debug_tools::{
    ecb_enabled, fighter_info_enabled, handle_palette_input, player_handles, DebugMenuId, DebugMenuPage,
    DebugSettings, FighterDebugRowKind, PaletteGamepad, PaletteInput, PresentationMotionMode,
    PLAYER_DEBUG_ROW_COUNT,
};

#[test]
fn player_rows_default_to_none_and_wrap() {
    let mut settings = DebugSettings::default();
    let rows = settings.rows_mut(2);

    assert_eq!(*rows, [FighterDebugRowKind::Blank; PLAYER_DEBUG_ROW_COUNT]);
    rows[0] = rows[0].cycle(-1);
    assert_eq!(rows[0], FighterDebugRowKind::Facing);
    rows[0] = rows[0].cycle(1);
    assert_eq!(rows[0], FighterDebugRowKind::Blank);
}

#[test]
fn nested_navigation_preserves_parent_selection() {
    let mut settings = DebugSettings::default();
    *settings.selected_mut() = 2;
    settings.push_page(DebugMenuPage::Static(DebugMenuId::Diagnostics));

    assert!(settings.pop_page());
    assert_eq!(settings.selected(), 2);
    assert!(!settings.pop_page());
}

#[test]
fn player_row_configuration_is_slot_specific() {
    let mut settings = DebugSettings::default();
    settings.rows_mut(0)[0] = FighterDebugRowKind::CurrentState;

    assert_eq!(settings.player_rows(0).unwrap()[0], FighterDebugRowKind::CurrentState);
    assert!(settings.player_rows(1).is_none());
}

#[test]
fn presentation_motion_mode_cycles_between_choices() {
    let mut mode = PresentationMotionMode::Interpolation;

    mode.cycle();
    assert_eq!(mode, PresentationMotionMode::Extrapolation);
    mode.cycle();
    assert_eq!(mode, PresentationMotionMode::Interpolation);
}

fn pad(entity: u64) -> PaletteGamepad {
    PaletteGamepad {
        entity,
        start_just_pressed: false,
        dpad_up_pressed: false,
        dpad_up_just_pressed: false,
        dpad_down_just_pressed: false,
        dpad_left_just_pressed: false,
        dpad_right_just_pressed: false,
        south_just_pressed: false,
        west_just_pressed: false,
    }
}

fn frame(pads: Vec<PaletteGamepad>) -> PaletteInput {
    PaletteInput { draw_through_key_just_pressed: false, gamepads: pads }
}

#[test]
fn palette_opens_navigates_and_closes() {
    let mut settings = DebugSettings::default();
    let players = vec![1, 0, 1];

    // Start alone does not open the menu; Start with D-pad up held does.
    let mut p = pad(7);
    p.start_just_pressed = true;
    handle_palette_input(&mut settings, &frame(vec![p]), &players);
    assert!(!settings.menu_open);
    p.dpad_up_pressed = true;
    handle_palette_input(&mut settings, &frame(vec![pad(3), p]), &players);
    assert!(settings.menu_open);
    assert_eq!(settings.controller(), Some(7));
    assert_eq!(settings.page(), DebugMenuPage::Static(DebugMenuId::Root));

    // Up wraps to the last root entry (Rendering); A opens it.
    let mut up = pad(7);
    up.dpad_up_just_pressed = true;
    handle_palette_input(&mut settings, &frame(vec![up]), &players);
    assert_eq!(settings.selected(), 3);
    let mut a = pad(7);
    a.south_just_pressed = true;
    handle_palette_input(&mut settings, &frame(vec![a]), &players);
    assert_eq!(settings.page(), DebugMenuPage::Static(DebugMenuId::Rendering));

    // Right on the motion sampling entry switches the mode.
    let mut right = pad(7);
    right.dpad_right_just_pressed = true;
    handle_palette_input(&mut settings, &frame(vec![right]), &players);
    assert_eq!(settings.motion_sampling, PresentationMotionMode::Extrapolation);

    // Down then A toggles drawing through geometry.
    let mut down = pad(7);
    down.dpad_down_just_pressed = true;
    handle_palette_input(&mut settings, &frame(vec![down]), &players);
    handle_palette_input(&mut settings, &frame(vec![a]), &players);
    assert!(settings.draw_through_geometry);

    // B goes back to the root page with its selection, B again closes.
    let mut b = pad(7);
    b.west_just_pressed = true;
    handle_palette_input(&mut settings, &frame(vec![b]), &players);
    assert_eq!(settings.page(), DebugMenuPage::Static(DebugMenuId::Root));
    assert_eq!(settings.selected(), 3);
    handle_palette_input(&mut settings, &frame(vec![b]), &players);
    assert!(!settings.menu_open);
    assert_eq!(settings.controller(), None);
}

#[test]
fn palette_configures_player_rows() {
    let mut settings = DebugSettings::default();
    let players = vec![4, 2];
    let mut open = pad(1);
    open.start_just_pressed = true;
    open.dpad_up_pressed = true;
    handle_palette_input(&mut settings, &frame(vec![open]), &players);

    let mut a = pad(1);
    a.south_just_pressed = true;
    // Root: Fighter; Fighter: Player windows; the list: players 2 and 4.
    handle_palette_input(&mut settings, &frame(vec![a]), &players);
    handle_palette_input(&mut settings, &frame(vec![a]), &players);
    assert_eq!(settings.page(), DebugMenuPage::PlayerList);
    let mut down = pad(1);
    down.dpad_down_just_pressed = true;
    handle_palette_input(&mut settings, &frame(vec![down]), &players);
    handle_palette_input(&mut settings, &frame(vec![a]), &players);
    assert_eq!(settings.page(), DebugMenuPage::PlayerRows(4));
    assert!(!fighter_info_enabled(&settings));

    let mut left = pad(1);
    left.dpad_left_just_pressed = true;
    handle_palette_input(&mut settings, &frame(vec![left]), &players);
    assert_eq!(settings.player_rows(4).unwrap()[0], FighterDebugRowKind::Facing);
    assert!(fighter_info_enabled(&settings));
}

#[test]
fn palette_closes_when_its_controller_is_gone() {
    let mut settings = DebugSettings::default();
    let mut open = pad(9);
    open.start_just_pressed = true;
    open.dpad_up_pressed = true;
    handle_palette_input(&mut settings, &frame(vec![open]), &vec![]);
    assert!(settings.menu_open);
    let key = PaletteInput { draw_through_key_just_pressed: true, gamepads: vec![] };
    handle_palette_input(&mut settings, &key, &vec![]);
    assert!(!settings.menu_open);
    assert!(settings.draw_through_geometry);
    assert!(!ecb_enabled(&settings));
}

#[test]
fn player_handles_are_sorted_and_unique() {
    assert_eq!(player_handles(&vec![3, 1, 3, 0, 1]), vec![0, 1, 3]);
    assert_eq!(player_handles(&vec![]), Vec::<usize>::new());
}

#[test]
fn row_labels() {
    assert_eq!(FighterDebugRowKind::Blank.label(), "None");
    assert_eq!(FighterDebugRowKind::CurrentState.label(), "Current state");
    assert_eq!(PresentationMotionMode::Extrapolation.label(), "Extrapolation");
}

#[test]
fn opening_a_players_rows_twice_keeps_one_window() {
    let mut settings = DebugSettings::new();
    settings.rows_mut(3)[0] = FighterDebugRowKind::Blank;
    settings.rows_mut(1);
    settings.rows_mut(3);
    assert_eq!(settings.player_rows.len(), 2);
    assert_eq!(settings.player_rows[0].0, 3);
    assert_eq!(settings.player_rows[1].0, 1);
}
