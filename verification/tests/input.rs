use game_test::game_settings::InputSettingsCommon;
use game_test::input::buffer::{postprocess_input, FighterAttackCommandType, FighterCommands, FighterInput};
use game_test::input::frame::FighterInputFrame;
use game_test::input::gamecube::{GcConnectionChange, GcPort, GcPorts, GC_PORT_COUNT};
use game_test::input::keyboard::sample_keyboard;
use game_test::input::map::{
    BaseInputMap, GamepadAxisId, GamepadBinding, InputActionState, InputMapAction, KeyboardKey, MenuInputMap,
    MenuInputMapAction,
};
use game_test::input::{
    choose_frame_source, preprocess_input_frame, FrameSource, LocalInputAssignments, LocalInputSource,
};
use game_test::math::scalar::FGi32;
use game_test::math::vec::FGVec2;

fn settings() -> InputSettingsCommon {
    InputSettingsCommon {
        stick_deadzone: FGi32::lit("0.28"),
        trigger_deadzone: FGi32::lit("0.3"),
        smash_input_reset_axis_threshold: FGi32::lit("0.3"),
        smash_input_axis_threshold: FGi32::lit("0.8"),
        run_stick_threshold: FGi32::lit("0.6"),
        smash_input_frame_threshold: 2,
        input_buffer_size: 5,
    }
}

fn stick(x: &str, y: &str) -> FighterInputFrame {
    let mut f = FighterInputFrame::neutral();
    f.movement = FGVec2::lit(x, y);
    f
}

#[test]
fn fresh_presses_are_buffered_and_expire() {
    let s = settings();
    let mut input = FighterInput::new();
    let mut jump = FighterInputFrame::neutral();
    jump.jump = true;
    postprocess_input(&mut input, jump, &s);
    assert!(input.has_command(FighterCommands::Jump));
    assert_eq!(input.command_lifetimes.jump, 5);
    for _ in 0..4 {
        postprocess_input(&mut input, jump, &s);
    }
    assert_eq!(input.command_lifetimes.jump, 1);
    postprocess_input(&mut input, jump, &s);
    assert!(!input.has_command(FighterCommands::Jump));
    assert_eq!(input.get_last_frame(), jump);
    assert_eq!(input.prev_frame, jump);
}

#[test]
fn a_flick_buffers_a_smash_move_toward_its_side() {
    let s = settings();
    let mut input = FighterInput::new();
    postprocess_input(&mut input, stick("0", "0"), &s);
    postprocess_input(&mut input, stick("-1", "0"), &s);
    assert!(input.has_command(FighterCommands::SmashMoveLeft));
    assert!(!input.has_command(FighterCommands::SmashMoveRight));
    assert_eq!(input.get_frames_in_smash_move_deadzone(), 1);
    postprocess_input(&mut input, stick("1", "0"), &s);
    assert!(input.has_command(FighterCommands::SmashMoveRight));
    assert!(!input.has_command(FighterCommands::SmashMoveLeft));
}

#[test]
fn a_fresh_attack_press_records_its_direction() {
    let s = settings();
    let mut input = FighterInput::new();
    postprocess_input(&mut input, stick("0", "0"), &s);
    let mut up_smash = stick("0", "1");
    up_smash.attack = true;
    postprocess_input(&mut input, up_smash, &s);
    assert_eq!(input.get_attack_command_type(), FighterAttackCommandType::SmashAttackUp);
    let mut tilt = stick("0.5", "0.1");
    tilt.attack = true;
    let mut idle = FighterInput::new();
    postprocess_input(&mut idle, stick("0.5", "0"), &s);
    postprocess_input(&mut idle, tilt, &s);
    assert_eq!(idle.get_attack_command_type(), FighterAttackCommandType::TiltAttackRight);
}

#[test]
fn clearing_commands() {
    let mut input = FighterInput::new();
    input.set_lifetime(FighterCommands::Shield, 3);
    input.set_lifetime(FighterCommands::Attack, 3);
    input.clear_command(FighterCommands::Shield);
    assert!(!input.has_command(FighterCommands::Shield));
    assert!(input.has_command(FighterCommands::Attack));
    input.reduce_command_lifetime(FighterCommands::Attack);
    assert_eq!(input.command_lifetimes.attack, 2);
    input.clear_buffer();
    assert!(!input.has_command(FighterCommands::Attack));
    input.set_attack_command_type(FighterAttackCommandType::TiltAttackDown);
    assert_eq!(input.get_attack_command_type(), FighterAttackCommandType::TiltAttackDown);
}

#[test]
fn deadzone_centres_small_axes() {
    let s = settings();
    let mut f = stick("0.2", "-0.5");
    preprocess_input_frame(&mut f, &s);
    assert_eq!(f.movement, FGVec2::lit("0", "-0.5"));
    let again = f;
    preprocess_input_frame(&mut f, &s);
    assert_eq!(f, again);
}

#[test]
fn keyboard_sums_movement_and_normalizes() {
    let frame = sample_keyboard(&vec![
        (InputMapAction::MovementXDir(1), InputActionState::Pressed),
        (InputMapAction::MovementYDir(1), InputActionState::JustPressed),
        (InputMapAction::MovementXDir(-1), InputActionState::Released),
        (InputMapAction::Jump, InputActionState::Pressed),
        (InputMapAction::Shield, InputActionState::JustReleased),
    ]);
    assert_eq!(frame.movement.x, frame.movement.y);
    assert!(frame.movement.is_normalized());
    assert!(frame.jump);
    assert!(!frame.shield);
    assert!(!frame.attack);
    assert_eq!(
        InputActionState::from_key(false, true, true),
        InputActionState::JustReleased
    );
    assert!(InputActionState::Pressed.is_down());
}

#[test]
fn default_bindings() {
    let base = BaseInputMap::default_bindings();
    assert_eq!(base.keyboard.len(), 7);
    assert_eq!(base.keyboard[1].key, KeyboardKey::KeyA);
    assert_eq!(base.keyboard[1].action, InputMapAction::MovementXDir(-1));
    assert_eq!(base.gamepad[0].binding, GamepadBinding::Axis(GamepadAxisId::LeftStickX, 1));
    let menu = MenuInputMap::default_bindings();
    assert_eq!(menu.keyboard.len(), 11);
    assert_eq!(menu.gamepad.len(), 9);
    assert_eq!(menu.keyboard[5].action, MenuInputMapAction::Back);
}

#[test]
fn frame_sources() {
    assert_eq!(choose_frame_source(Some(LocalInputSource::Gamepad(3)), true, None), FrameSource::Gamepad(3));
    assert_eq!(choose_frame_source(Some(LocalInputSource::Gamepad(3)), false, Some(5)), FrameSource::Neutral);
    assert_eq!(choose_frame_source(Some(LocalInputSource::Keyboard), true, Some(5)), FrameSource::Keyboard);
    assert_eq!(choose_frame_source(None, false, Some(5)), FrameSource::Gamepad(5));
    assert_eq!(choose_frame_source(None, false, None), FrameSource::Keyboard);
}

#[test]
fn slot_assignments() {
    let a = LocalInputAssignments(vec![(0, LocalInputSource::Keyboard), (2, LocalInputSource::Gamepad(9))]);
    assert_eq!(a.get_free_player_index(), Some(1));
    assert_eq!(a.get_from_slot(2), Some(LocalInputSource::Gamepad(9)));
    assert_eq!(a.get_from_slot(1), None);
    let full = LocalInputAssignments((0..16).map(|i| (i, LocalInputSource::Keyboard)).collect());
    assert_eq!(full.get_free_player_index(), None);
}

#[test]
fn gamecube_ports_report_plugs_and_unplugs_in_port_order() {
    let mut ports = GcPorts::default();
    assert_eq!(GC_PORT_COUNT, 4);
    let first = [false, true, false, true];
    assert_eq!(
        ports.connection_changes(&first),
        vec![
            GcConnectionChange::Connected { port: 1, entity: None },
            GcConnectionChange::Connected { port: 3, entity: None },
        ]
    );
    ports.set_entity(1, 10);
    ports.set_entity(3, 30);
    ports.remember(&first);
    assert_eq!(ports.connection_changes(&first), vec![]);

    let second = [true, false, false, true];
    assert_eq!(
        ports.connection_changes(&second),
        vec![
            GcConnectionChange::Connected { port: 0, entity: None },
            GcConnectionChange::Disconnected { port: 1, entity: 10 },
        ]
    );
    ports.remember(&second);
    // A port that comes back keeps its gamepad; a port without one that
    // leaves reports nothing.
    assert_eq!(
        ports.connection_changes(&first),
        vec![GcConnectionChange::Connected { port: 1, entity: Some(10) }]
    );
    let _ = GcPort(2);
}

#[test]
fn an_unassigned_player_uses_the_gamepad_on_its_port() {
    let mut ports = GcPorts::new();
    ports.set_entity(2, 77);
    assert_eq!(ports.gamepad_of_port(2), Some(77));
    assert_eq!(ports.gamepad_of_port(1), None);
    assert_eq!(ports.gamepad_of_port(9), None);
    assert_eq!(choose_frame_source(None, false, ports.gamepad_of_port(2)), FrameSource::Gamepad(77));
    assert_eq!(choose_frame_source(None, false, ports.gamepad_of_port(0)), FrameSource::Keyboard);
}
